//! Rich presence: an optional companion that announces what the tool is
//! doing. It is switched off: every call succeeds and changes nothing, so
//! that nothing else depends on whether the service can be reached.

use vstd::prelude::*;
use std::time::{Duration, SystemTime, UNIX_EPOCH};

verus! {

/// `std::time::SystemTime`, a reading of the system's clock. Nothing inside
/// it is visible here.
#[verifier::external_type_specification]
#[verifier::external_body]
pub struct ExSystemTime(SystemTime);

/// `SystemTime::now`: the clock's reading at the moment of the call. Nothing
/// is claimed of it.
pub assume_specification[ SystemTime::now ]() -> (t: SystemTime)
;

/// `SystemTime::duration_since` against the Unix epoch: the time passed since
/// then, or `None` where the clock reads a moment before it. Nothing is
/// claimed of the length.
#[verifier::external_body]
fn since_unix_epoch(t: &SystemTime) -> (r: Option<Duration>) {
    match t.duration_since(UNIX_EPOCH) {
        Ok(d) => Some(d),
        Err(_) => None,
    }
}

/// `Duration::as_secs`: the whole seconds of a duration. Nothing is claimed
/// of the number.
pub assume_specification[ Duration::as_secs ](d: &Duration) -> (secs: u64)
;

/// Why the presence service did not take a call.
#[derive(Debug, Clone, Copy, PartialEq, Eq, Structural)]
pub enum RpcError {
    /// The service cannot be reached.
    Unavailable,
}

/// The connection to the presence service.
#[derive(Debug)]
pub struct DiscordRpc {
    start_time: u64,
}

impl DiscordRpc {
    /// The moment the session started, in seconds since the Unix epoch.
    pub closed spec fn spec_start_time(&self) -> u64 {
        self.start_time
    }

    /// A session that started at the given second.
    pub fn started_at(start_time: u64) -> (r: DiscordRpc)
        ensures
            r.spec_start_time() == start_time,
    {
        DiscordRpc { start_time }
    }

    /// A session that starts now, by the system's clock. A clock that reads a
    /// moment before the Unix epoch counts as second 0.
    pub fn new() -> (r: DiscordRpc) {
        let now = SystemTime::now();
        let start_time: u64 = match since_unix_epoch(&now) {
            Some(elapsed) => elapsed.as_secs(),
            None => 0,
        };
        Self::started_at(start_time)
    }

    /// The moment the session started, in seconds since the Unix epoch.
    pub fn start_time(&self) -> (r: u64)
        ensures
            r == self.spec_start_time(),
    {
        self.start_time
    }

    /// Connects to the service. Always succeeds; the session is unchanged.
    pub fn connect(&mut self) -> (r: Result<(), RpcError>)
        ensures
            r.is_ok(),
            *final(self) == *old(self),
    {
        Ok(())
    }

    /// Announces a state and its details. Always succeeds; the session is
    /// unchanged.
    pub fn update_presence(&mut self, _state: &str, _details: &str) -> (r: Result<(), RpcError>)
        ensures
            r.is_ok(),
            *final(self) == *old(self),
    {
        Ok(())
    }

    /// Announces the selected process. The session is unchanged.
    pub fn update_with_process(&mut self, _process_name: Option<&str>)
        ensures
            *final(self) == *old(self),
    {
    }

    /// Announces how an attempt on a process ended. The session is unchanged.
    pub fn update_injection_status(&mut self, _success: bool, _process_name: &str)
        ensures
            *final(self) == *old(self),
    {
    }

    /// Closes the connection. The session is unchanged.
    pub fn disconnect(&mut self)
        ensures
            *final(self) == *old(self),
    {
    }
}

} // verus!
