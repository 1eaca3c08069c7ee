//! The process-wide state: the validated timeout and the coordinator.
use crate::sync_service::SyncService;
use vstd::prelude::*;

verus! {

/// Why a configured timeout was refused.
#[derive(Debug, Clone, Copy, PartialEq, Eq, Structural)]
pub enum TimeoutError {
    /// Below `App::MIN_TIMEOUT` seconds.
    TooShort,
    /// Above `App::MAX_TIMEOUT` seconds.
    TooLong,
}

impl TimeoutError {
    /// The text reported when the configuration is refused.
    pub fn message(&self) -> (r: String)
        ensures
            *self is TooShort ==> r@ == "Timeout cannot be less than 5 seconds"@,
            *self is TooLong ==> r@ == "timeout cannot exceed 300 seconds"@,
    {
        match self {
            TimeoutError::TooShort => String::from_str("Timeout cannot be less than 5 seconds"),
            TimeoutError::TooLong => String::from_str("timeout cannot exceed 300 seconds"),
        }
    }
}

/// What the check of a timeout of `timeout` seconds gives.
pub open spec fn timeout_check(timeout: u64) -> Result<(), TimeoutError> {
    if timeout < App::MIN_TIMEOUT {
        Err(TimeoutError::TooShort)
    } else if timeout > App::MAX_TIMEOUT {
        Err(TimeoutError::TooLong)
    } else {
        Ok(())
    }
}

/// The state shared by every arrival: the first party's bound on waiting and
/// the coordinator with its registry.
pub struct App {
    /// How long a first party waits for the second, in seconds.
    pub timeout_secs: u64,
    pub sync_service: SyncService,
}

impl App {
    pub const MIN_TIMEOUT: u64 = 5;
    pub const MAX_TIMEOUT: u64 = 300;
    pub const DEFAULT_TIMEOUT: u64 = 10;

    /// An application waiting `timeout_secs` seconds for second parties, with
    /// no pairing open; refused unless the timeout lies in the allowed range.
    pub fn new(timeout_secs: u64) -> (r: Result<Self, TimeoutError>)
        ensures
            timeout_check(timeout_secs) is Ok <==> r is Ok,
            r matches Ok(app) ==> app.timeout_secs == timeout_secs,
            r matches Err(e) ==> timeout_check(timeout_secs) == Err::<(), TimeoutError>(e),
    {
        match Self::validate_timeout(timeout_secs) {
            Ok(()) => Ok(App { timeout_secs, sync_service: SyncService::new() }),
            Err(e) => Err(e),
        }
    }

    /// Checks that `timeout` (seconds) lies within `[MIN_TIMEOUT, MAX_TIMEOUT]`.
    pub fn validate_timeout(timeout: u64) -> (r: Result<(), TimeoutError>)
        ensures
            r == timeout_check(timeout),
    {
        if timeout < Self::MIN_TIMEOUT {
            Err(TimeoutError::TooShort)
        } else if timeout > Self::MAX_TIMEOUT {
            Err(TimeoutError::TooLong)
        } else {
            Ok(())
        }
    }
}

} // verus!
