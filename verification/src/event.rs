//! Event types published by the monitor and the broadcast bus that fans
//! them out to subscribers.
//!
//! The bus is a multi-producer broadcast channel: every receiver handle
//! obtained through [`Monitor::subscribe`] observes the events published
//! after the call, each in publish order, with a bounded backlog per
//! receiver. Publishing never blocks on a slow subscriber.

use vstd::prelude::*;

verus! {

#[derive(Debug, Clone, Copy, PartialEq, Eq, Structural)]
pub enum Platform {
    Mac,
    Windows,
    Linux,
}

#[derive(Debug, Clone, Copy, PartialEq, Eq, Structural)]
pub enum MouseEventType {
    Move,
    LeftDown,
    LeftUp,
    RightDown,
    RightUp,
    MiddleDown,
    MiddleUp,
    Scroll,
}

/// The numeric code a native backend uses for each mouse event kind.
pub open spec fn mouse_event_type_code(t: MouseEventType) -> i32 {
    match t {
        MouseEventType::Move => 0,
        MouseEventType::LeftDown => 1,
        MouseEventType::LeftUp => 2,
        MouseEventType::RightDown => 3,
        MouseEventType::RightUp => 4,
        MouseEventType::MiddleDown => 5,
        MouseEventType::MiddleUp => 6,
        MouseEventType::Scroll => 7,
    }
}

impl MouseEventType {
    /// Decodes a native backend's numeric code; codes outside the known
    /// range are rejected.
    pub fn from_code(value: i32) -> (r: Result<MouseEventType, &'static str>)
        ensures
            r is Ok <==> 0 <= value <= 7,
            r matches Ok(t) ==> mouse_event_type_code(t) == value,
            r matches Err(m) ==> m@ == "Invalid mouse event type"@,
    {
        match value {
            0 => Ok(MouseEventType::Move),
            1 => Ok(MouseEventType::LeftDown),
            2 => Ok(MouseEventType::LeftUp),
            3 => Ok(MouseEventType::RightDown),
            4 => Ok(MouseEventType::RightUp),
            5 => Ok(MouseEventType::MiddleDown),
            6 => Ok(MouseEventType::MiddleUp),
            7 => Ok(MouseEventType::Scroll),
            _ => Err("Invalid mouse event type"),
        }
    }
}

/// Decodes a native backend's numeric mouse event code, dropping unknown
/// codes instead of reporting them.
pub fn convert_mouse_event_type(event_type: i32) -> (r: Option<MouseEventType>)
    ensures
        r is Some <==> 0 <= event_type <= 7,
        r matches Some(t) ==> mouse_event_type_code(t) == event_type,
{
    match MouseEventType::from_code(event_type) {
        Ok(t) => Some(t),
        Err(_) => None,
    }
}

#[derive(Debug, Clone, Copy, PartialEq, Eq, Structural)]
pub enum WindowEventType {
    Focused,
    TitleChanged,
}

#[derive(Debug, Clone)]
pub struct MouseEvent {}

#[derive(Debug, Clone)]
pub struct KeyboardEvent {}

/// One focus-change observation: the newly focused application and window,
/// with the optional identifiers the backend could resolve for them.
#[derive(Debug, Clone)]
pub struct WindowEvent {
    pub app_name: String,
    pub window_title: String,
    pub bundle_id: Option<String>,
    pub url: Option<String>,
    pub platform: Platform,
}

/// One application or site the enforcement backend reported as blocked.
#[derive(Debug, Clone)]
pub struct BlockedApp {
    pub app_name: String,
    pub app_external_id: String,
    pub is_site: bool,
}

/// The ordered list of blocked targets observed in one enforcement pass.
#[derive(Debug, Clone)]
pub struct BlockedAppEvent {
    pub blocked_apps: Vec<BlockedApp>,
}

#[derive(Debug, Clone)]
pub enum AppEvent {
    Mouse(bool),
    Keyboard(bool),
    Window(WindowEvent),
    AppBlocked(BlockedAppEvent),
}

/// The view of an optional string as an optional character sequence.
pub open spec fn opt_str_view(o: Option<String>) -> Option<Seq<char>> {
    match o {
        Some(s) => Some(s@),
        None => None,
    }
}

/// The name recorded for a blocked application when the backend could not
/// resolve one.
pub open spec fn raw_name_or_default(n: Option<String>) -> Seq<char> {
    match n {
        Some(s) => s@,
        None => "Unknown App"@,
    }
}

/// The identifier recorded for a blocked application when the backend
/// could not resolve one.
pub open spec fn raw_id_or_default(n: Option<String>) -> Seq<char> {
    match n {
        Some(s) => s@,
        None => "unknown.bundle.id"@,
    }
}

/// Builds the event for one enforcement pass from the name and identifier
/// pairs a backend reported, substituting fixed placeholders for entries
/// the backend could not resolve. Process-level reports never concern
/// sites, so every record carries `is_site == false`.
pub fn blocked_apps_from_raw(app_names: &Vec<Option<String>>, bundle_ids: &Vec<Option<String>>)
    -> (ev: BlockedAppEvent)
    requires
        app_names@.len() == bundle_ids@.len(),
    ensures
        ev.blocked_apps@.len() == app_names@.len(),
        forall|i: int| 0 <= i < app_names@.len() ==> {
            &&& (#[trigger] ev.blocked_apps@[i]).app_name@ == raw_name_or_default(app_names@[i])
            &&& ev.blocked_apps@[i].app_external_id@ == raw_id_or_default(bundle_ids@[i])
            &&& !ev.blocked_apps@[i].is_site
        },
{
    let mut blocked_apps: Vec<BlockedApp> = Vec::new();
    let mut i: usize = 0;
    while i < app_names.len()
        invariant
            app_names@.len() == bundle_ids@.len(),
            i <= app_names@.len(),
            blocked_apps@.len() == i,
            forall|j: int| 0 <= j < i ==> {
                &&& (#[trigger] blocked_apps@[j]).app_name@ == raw_name_or_default(app_names@[j])
                &&& blocked_apps@[j].app_external_id@ == raw_id_or_default(bundle_ids@[j])
                &&& !blocked_apps@[j].is_site
            },
        decreases app_names@.len() - i,
    {
        let app_name = match &app_names[i] {
            Some(s) => s.clone(),
            None => "Unknown App".to_string(),
        };
        let app_external_id = match &bundle_ids[i] {
            Some(s) => s.clone(),
            None => "unknown.bundle.id".to_string(),
        };
        blocked_apps.push(BlockedApp { app_name, app_external_id, is_site: false });
        i = i + 1;
    }
    BlockedAppEvent { blocked_apps }
}

#[verifier::external_type_specification]
#[verifier::external_body]
#[verifier::reject_recursive_types(T)]
pub struct ExBroadcastSender<T>(tokio::sync::broadcast::Sender<T>);

#[verifier::external_type_specification]
#[verifier::external_body]
#[verifier::reject_recursive_types(T)]
pub struct ExBroadcastReceiver<T>(tokio::sync::broadcast::Receiver<T>);

#[verifier::external_type_specification]
#[verifier::external_body]
#[verifier::reject_recursive_types(T)]
pub struct ExBroadcastSendError<T>(tokio::sync::broadcast::error::SendError<T>);

/// Relies on tokio::sync::broadcast::Sender::clone: the clone is another
/// sending handle onto the same channel. Which channel a sender feeds is
/// outside the model, so nothing further is claimed.
pub assume_specification<T>[ <tokio::sync::broadcast::Sender<T> as Clone>::clone ](
    sender: &tokio::sync::broadcast::Sender<T>,
) -> tokio::sync::broadcast::Sender<T>;

/// Relies on tokio::sync::broadcast::channel: allocates a fresh broadcast
/// channel whose receivers each hold a backlog of `capacity` events, and
/// panics only on a capacity of zero or above `usize::MAX / 2`. The
/// receiver created alongside the sender is dropped here; subscribers
/// obtain their own handles from the sender.
#[verifier::external_body]
fn new_event_sender(capacity: usize) -> tokio::sync::broadcast::Sender<AppEvent>
    requires
        0 < capacity <= usize::MAX / 2,
{
    let (sender, _) = tokio::sync::broadcast::channel(capacity);
    sender
}

/// Relies on tokio::sync::broadcast::Sender::subscribe: returns a new
/// independent receiver handle that observes exactly the events sent
/// after this call, in send order.
#[verifier::external_body]
fn sender_subscribe(sender: &tokio::sync::broadcast::Sender<AppEvent>)
    -> tokio::sync::broadcast::Receiver<AppEvent>
{
    sender.subscribe()
}

/// Relies on tokio::sync::broadcast::Sender::send: queues a clone of the
/// event for every currently subscribed receiver without blocking, and
/// hands the event back as the error when no receiver is subscribed.
#[verifier::external_body]
fn sender_send(sender: &tokio::sync::broadcast::Sender<AppEvent>, event: AppEvent)
    -> Result<usize, tokio::sync::broadcast::error::SendError<AppEvent>>
{
    sender.send(event)
}

/// How many events a slow subscriber may leave unread before its oldest
/// entries are dropped for that subscriber alone.
pub const EVENT_CHANNEL_CAPACITY: usize = 100;

/// The publishing half of the event bus. Every component that derives an
/// event hands it to one of the `send_*` methods; delivery to subscribers
/// is fan-out, non-blocking, and independent per receiver. Cloning yields
/// another handle onto the same bus, for further producers.
#[derive(Clone)]
pub struct Monitor {
    event_sender: tokio::sync::broadcast::Sender<AppEvent>,
}

impl Monitor {
    pub fn new() -> Self {
        Self { event_sender: new_event_sender(EVENT_CHANNEL_CAPACITY) }
    }

    /// Get a new receiver to subscribe to events published from now on.
    pub fn subscribe(&self) -> tokio::sync::broadcast::Receiver<AppEvent> {
        sender_subscribe(&self.event_sender)
    }

    /// Publishes one activity tick for the mouse. A send with no active
    /// subscribers is a silent no-op.
    pub fn send_mouse_event(&self, has_activity: bool) {
        let _ = sender_send(&self.event_sender, AppEvent::Mouse(has_activity));
    }

    /// Publishes one activity tick for the keyboard.
    pub fn send_keyboard_event(&self, has_activity: bool) {
        let _ = sender_send(&self.event_sender, AppEvent::Keyboard(has_activity));
    }

    /// Publishes one deduplicated focus-change observation.
    pub fn send_window_event(&self, event: WindowEvent) {
        let _ = sender_send(&self.event_sender, AppEvent::Window(event));
    }

    /// Publishes the blocked targets observed in one enforcement pass.
    pub fn send_app_blocked_event(&self, event: BlockedAppEvent) {
        let _ = sender_send(&self.event_sender, AppEvent::AppBlocked(event));
    }
}

} // verus!
