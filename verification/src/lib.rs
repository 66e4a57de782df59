//! Cross-platform coordination core of a desktop focus/activity monitor.
//!
//! The library tracks user input activity, deduplicates focused-window
//! observations, computes the effective block set for an enforcement
//! backend, and runs a cancellable, superseding retry state machine for
//! blocking just-navigated targets. Platform-specific mechanics (input
//! hooks, accessibility queries, process termination) live outside this
//! crate; the core exchanges plain values with them.

pub mod activity;
mod blocking;
mod error;
pub mod event;
pub mod focus;
pub mod monitoring;
pub mod policy;
pub mod retry;

pub use activity::{send_buffered_events, ActivityFlags, InputSignal};
pub use blocking::BlockableItem;
pub use error::MonitorError;
pub use event::{
    convert_mouse_event_type, AppEvent, BlockedApp, BlockedAppEvent, KeyboardEvent, Monitor,
    MouseEvent, MouseEventType, Platform, WindowEvent, WindowEventType,
};
pub use focus::{FocusSample, WindowTitle};
pub use monitoring::{
    detect_changes, platform_detect_changes, platform_detect_changes_with_deps,
    DefaultDependencies, EventSender, FocusedWindowDetector,
};
pub use policy::{
    get_browser_exceptions, get_exceptions, get_system_exceptions, has_website_url,
    start_blocking, BlockingPlan,
};
pub use retry::{
    run_session, stop_blocking, BlockingSession, RetryAction, RetryCoordinator, RetryPolicy,
    SessionOutcome,
};
