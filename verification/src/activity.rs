//! Activity aggregator: absorbs high-frequency raw input signals into two
//! sticky booleans and flushes them as periodic activity ticks.
//!
//! Raw handlers only ever set a flag to true; the flush alone reads and
//! clears both. Every flush publishes one keyboard tick and one mouse
//! tick — including `false` ticks, so subscribers can detect idleness.

use vstd::prelude::*;
use crate::event::Monitor;

verus! {

/// One raw input signal from the native backend, reduced to its kind.
#[derive(Debug, Clone, Copy, PartialEq, Eq, Structural)]
pub enum InputSignal {
    Mouse,
    Keyboard,
}

/// The two sticky activity booleans, set by raw signals and cleared only
/// by the flush.
pub struct ActivityFlags {
    pub has_mouse: bool,
    pub has_keyboard: bool,
}

/// The flag pair left after a sequence of raw signals lands on a starting
/// pair: each signal sets its flag, and nothing ever clears one.
pub open spec fn flags_after(m: bool, k: bool, sigs: Seq<InputSignal>) -> (bool, bool)
    decreases sigs.len(),
{
    if sigs.len() == 0 {
        (m, k)
    } else {
        let p = flags_after(m, k, sigs.drop_last());
        match sigs.last() {
            InputSignal::Mouse => (true, p.1),
            InputSignal::Keyboard => (p.0, true),
        }
    }
}

/// A flag ends up set exactly when it started set or some signal of its
/// kind arrived — however many signals there were.
pub proof fn lemma_flags_after_sets_kinds(m: bool, k: bool, sigs: Seq<InputSignal>)
    ensures
        flags_after(m, k, sigs).0 == (m || sigs.contains(InputSignal::Mouse)),
        flags_after(m, k, sigs).1 == (k || sigs.contains(InputSignal::Keyboard)),
    decreases sigs.len(),
{
    if sigs.len() == 0 {
    } else {
        let rest = sigs.drop_last();
        lemma_flags_after_sets_kinds(m, k, rest);
        assert forall|x: InputSignal| #[trigger] sigs.contains(x)
            implies rest.contains(x) || sigs.last() == x by {
            let i = choose|i: int| 0 <= i < sigs.len() && sigs[i] == x;
            if i < sigs.len() - 1 {
                assert(rest[i] == x);
            }
        }
        assert forall|x: InputSignal| rest.contains(x) implies sigs.contains(x) by {
            let i = choose|i: int| 0 <= i < rest.len() && rest[i] == x;
            assert(sigs[i] == x);
        }
        assert(sigs.contains(sigs.last()));
    }
}

impl ActivityFlags {
    /// Both flags start clear: no activity has been observed.
    pub fn new() -> (r: Self)
        ensures
            !r.has_mouse,
            !r.has_keyboard,
    {
        ActivityFlags { has_mouse: false, has_keyboard: false }
    }

    /// A raw mouse signal: sets the mouse flag, touches nothing else.
    pub fn record_mouse(&mut self)
        ensures
            final(self).has_mouse,
            final(self).has_keyboard == old(self).has_keyboard,
    {
        self.has_mouse = true;
    }

    /// A raw keyboard signal: sets the keyboard flag, touches nothing
    /// else.
    pub fn record_keyboard(&mut self)
        ensures
            final(self).has_keyboard,
            final(self).has_mouse == old(self).has_mouse,
    {
        self.has_keyboard = true;
    }

    /// Applies a whole batch of raw signals in order.
    pub fn apply_signals(&mut self, sigs: &Vec<InputSignal>)
        ensures
            (final(self).has_mouse, final(self).has_keyboard)
                == flags_after(old(self).has_mouse, old(self).has_keyboard, sigs@),
    {
        let ghost m0 = self.has_mouse;
        let ghost k0 = self.has_keyboard;
        let mut i: usize = 0;
        proof {
            assert(sigs@.take(0) =~= Seq::<InputSignal>::empty());
        }
        while i < sigs.len()
            invariant
                i <= sigs@.len(),
                (self.has_mouse, self.has_keyboard) == flags_after(m0, k0, sigs@.take(i as int)),
            decreases sigs@.len() - i,
        {
            proof {
                assert(sigs@.take(i + 1).drop_last() =~= sigs@.take(i as int));
                assert(sigs@.take(i + 1).last() == sigs@[i as int]);
            }
            match sigs[i] {
                InputSignal::Mouse => self.record_mouse(),
                InputSignal::Keyboard => self.record_keyboard(),
            }
            i = i + 1;
        }
        proof {
            assert(sigs@.take(sigs@.len() as int) =~= sigs@);
        }
    }

    /// Reads both flags and clears them: the returned pair holds the
    /// pre-clear values `(mouse, keyboard)`.
    pub fn take(&mut self) -> (r: (bool, bool))
        ensures
            r == (old(self).has_mouse, old(self).has_keyboard),
            !final(self).has_mouse,
            !final(self).has_keyboard,
    {
        let r = (self.has_mouse, self.has_keyboard);
        self.has_mouse = false;
        self.has_keyboard = false;
        r
    }
}

/// One flush: publishes a keyboard tick carrying the pre-clear keyboard
/// flag, then a mouse tick carrying the pre-clear mouse flag, and clears
/// both flags. Both ticks are published on every flush, `false` included.
pub fn send_buffered_events(flags: &mut ActivityFlags, monitor: &Monitor)
    ensures
        !final(flags).has_mouse,
        !final(flags).has_keyboard,
{
    let keyboard_activity = flags.has_keyboard;
    monitor.send_keyboard_event(keyboard_activity);
    flags.has_keyboard = false;

    let mouse_activity = flags.has_mouse;
    monitor.send_mouse_event(mouse_activity);
    flags.has_mouse = false;
}

} // verus!
