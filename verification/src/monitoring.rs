//! The periodic driver cycle: sample focus every cycle, flush buffered
//! activity on a fixed period.
//!
//! The flush decision is co-located with the focus sampling — one
//! periodic driver calls "sample focus" then "maybe flush" — rather than
//! a timer of its own. The two concerns are behind small traits so a
//! caller can substitute its own detector or sender.

use vstd::prelude::*;
use crate::activity::{send_buffered_events, ActivityFlags};
use crate::error::MonitorError;
use crate::event::Monitor;
use crate::focus::{observe_focus_sample, FocusSample, WindowTitle};

verus! {

/// The period between activity flushes, in milliseconds.
pub const FLUSH_INTERVAL_MS: u64 = 30000;

/// The focus-sampling half of a driver cycle.
pub trait FocusedWindowDetector {
    fn detect_focused_window(&mut self);
}

/// The activity-flushing half of a driver cycle.
pub trait EventSender {
    fn send_buffered_events(&mut self);

    fn should_send_events(&self) -> bool;

    fn mark_events_sent(&mut self);
}

/// Whether the periodic flush is due: a full interval has passed since
/// the last flush.
pub fn should_flush(now_ms: u64, last_send_ms: u64) -> (r: bool)
    ensures
        r == (now_ms >= last_send_ms + FLUSH_INTERVAL_MS),
{
    now_ms >= last_send_ms && now_ms - last_send_ms >= FLUSH_INTERVAL_MS
}

/// One driver cycle over any pair of detector and sender: the focus is
/// always sampled; buffered activity is flushed — and the flush recorded
/// — exactly when the sender says one is due. The cycle itself cannot
/// fail.
pub fn platform_detect_changes_with_deps<T: FocusedWindowDetector + EventSender>(deps: &mut T)
    -> (r: Result<(), MonitorError>)
    ensures
        r is Ok,
{
    deps.detect_focused_window();

    if deps.should_send_events() {
        deps.send_buffered_events();
        deps.mark_events_sent();
    }

    Ok(())
}

/// The default wiring of a driver cycle: the event bus, the focus
/// tracker's state, the activity flags, and the clock readings, owned in
/// one place. The platform layer stages the cycle's focus sample and
/// clock reading here before calling the cycle.
pub struct DefaultDependencies {
    pub monitor: Monitor,
    pub focus: WindowTitle,
    pub flags: ActivityFlags,
    /// The focus sample staged for this cycle; `None` when the backend
    /// had no observation, which must neither reset the focus state nor
    /// emit an event.
    pub pending_sample: Option<FocusSample>,
    /// The monotonic clock reading staged for this cycle, in
    /// milliseconds.
    pub now_ms: u64,
    /// The clock reading at the last flush.
    pub last_send_ms: u64,
}

impl DefaultDependencies {
    /// Fresh driver state around an event bus: empty focus state, clear
    /// activity flags, no staged sample, and the flush clock starting
    /// now.
    pub fn new(monitor: Monitor, now_ms: u64) -> (r: Self)
        ensures
            r.focus.app_name@ == Seq::<char>::empty(),
            r.focus.title@ == Seq::<char>::empty(),
            !r.flags.has_mouse,
            !r.flags.has_keyboard,
            r.pending_sample is None,
            r.now_ms == now_ms,
            r.last_send_ms == now_ms,
    {
        DefaultDependencies {
            monitor,
            focus: WindowTitle::new(),
            flags: ActivityFlags::new(),
            pending_sample: None,
            now_ms,
            last_send_ms: now_ms,
        }
    }
}

impl FocusedWindowDetector for DefaultDependencies {
    /// Runs the staged sample — when there is one — through the focus
    /// tracker and publishes the `Window` event the tracker emits; then
    /// clears the staging slot.
    fn detect_focused_window(&mut self) {
        let ev = observe_focus_sample(&mut self.focus, &self.pending_sample);
        match ev {
            Some(e) => self.monitor.send_window_event(e),
            None => {},
        }
        self.pending_sample = None;
    }
}

impl EventSender for DefaultDependencies {
    fn send_buffered_events(&mut self) {
        send_buffered_events(&mut self.flags, &self.monitor);
    }

    fn should_send_events(&self) -> bool {
        should_flush(self.now_ms, self.last_send_ms)
    }

    fn mark_events_sent(&mut self) {
        self.last_send_ms = self.now_ms;
    }
}

/// What one cycle over the default wiring guarantees: the staged sample —
/// when there was one — became the focus state, a missing sample left the
/// state alone, and the activity flags were read and cleared, with the
/// flush recorded, exactly when a full interval had passed.
pub open spec fn default_cycle_post(pre: DefaultDependencies, post: DefaultDependencies) -> bool {
    &&& post.pending_sample is None
    &&& post.now_ms == pre.now_ms
    &&& match pre.pending_sample {
        Some(s) => post.focus.app_name@ == s.app_name@ && post.focus.title@ == s.window_title@,
        None => post.focus == pre.focus,
    }
    &&& if pre.now_ms >= pre.last_send_ms + FLUSH_INTERVAL_MS {
        &&& !post.flags.has_mouse
        &&& !post.flags.has_keyboard
        &&& post.last_send_ms == pre.now_ms
    } else {
        &&& post.flags == pre.flags
        &&& post.last_send_ms == pre.last_send_ms
    }
}

/// One driver cycle over the default wiring. The cycle cannot fail; its
/// effect on the driver state is pinned by [`default_cycle_post`].
pub fn platform_detect_changes(deps: &mut DefaultDependencies) -> (r: Result<(), MonitorError>)
    ensures
        r is Ok,
        default_cycle_post(*old(deps), *final(deps)),
{
    let ev = observe_focus_sample(&mut deps.focus, &deps.pending_sample);
    match ev {
        Some(e) => deps.monitor.send_window_event(e),
        None => {},
    }
    deps.pending_sample = None;

    if should_flush(deps.now_ms, deps.last_send_ms) {
        send_buffered_events(&mut deps.flags, &deps.monitor);
        deps.last_send_ms = deps.now_ms;
    }

    Ok(())
}

/// One driver cycle over the default wiring, as exposed to downstream
/// consumers.
pub fn detect_changes(deps: &mut DefaultDependencies) -> (r: Result<(), MonitorError>)
    ensures
        r is Ok,
        default_cycle_post(*old(deps), *final(deps)),
{
    platform_detect_changes(deps)
}

} // verus!
