//! Typed errors surfaced to callers for structural misuse of the monitor.
//!
//! Native-call failures are absorbed locally as "no observation" or a
//! `false` result rather than raised through this type; only misuse such
//! as starting twice, and faults the native layer signals explicitly,
//! reach the caller.

use vstd::prelude::*;
use vstd::string::StringExecFns;

verus! {

#[derive(Debug)]
pub enum MonitorError {
    AlreadyRunning,
    NotRunning,
    PlatformError(String),
    ForeignException(String),
    Other(String),
}

/// The text describing an error, as shown to a caller.
pub open spec fn error_message_view(e: MonitorError) -> Seq<char> {
    match e {
        MonitorError::AlreadyRunning => "Monitor is already running"@,
        MonitorError::NotRunning => "Monitor is not running"@,
        MonitorError::PlatformError(msg) => "Platform error: "@ + msg@,
        MonitorError::ForeignException(msg) => "Foreign exception: "@ + msg@,
        MonitorError::Other(msg) => "Other error: "@ + msg@,
    }
}

impl MonitorError {
    /// Renders the error as the text a caller displays.
    pub fn message(&self) -> (r: String)
        ensures
            r@ == error_message_view(*self),
    {
        match self {
            MonitorError::AlreadyRunning => "Monitor is already running".to_string(),
            MonitorError::NotRunning => "Monitor is not running".to_string(),
            MonitorError::PlatformError(msg) => {
                "Platform error: ".to_string().concat(msg.as_str())
            },
            MonitorError::ForeignException(msg) => {
                "Foreign exception: ".to_string().concat(msg.as_str())
            },
            MonitorError::Other(msg) => "Other error: ".to_string().concat(msg.as_str()),
        }
    }
}

} // verus!
