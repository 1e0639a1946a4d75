//! Start at login on macOS, through the login item of the application.

use vstd::prelude::*;

verus! {

/// The status by which the service management says that the login item is
/// registered and enabled.
pub const SERVICE_STATUS_ENABLED: i64 = 1;

/// The start-at-login switch of macOS.
#[derive(Debug, Clone, Copy, PartialEq, Eq, Structural)]
pub struct MacAutoStart;

impl MacAutoStart {
    pub fn new() -> (auto_start: MacAutoStart) {
        MacAutoStart
    }

    /// Tells whether start at login is on, from the status of the login
    /// item, or `None` where the system has no such service: it is on
    /// exactly where the status is `SERVICE_STATUS_ENABLED`.
    pub fn is_enabled(&self, status: Option<i64>) -> (enabled: bool)
        ensures
            enabled == (status == Some(SERVICE_STATUS_ENABLED)),
    {
        match status {
            Some(status) => status == SERVICE_STATUS_ENABLED,
            None => false,
        }
    }
}

} // verus!
