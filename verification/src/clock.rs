//! The monotonic clock by which challenges expire.

use vstd::prelude::*;
use crate::user::Timestamp;

verus! {

/// `std::time::Instant`, a reading of the system's monotonic clock. Nothing is
/// claimed of what a value holds.
#[verifier::external_type_specification]
#[verifier::external_body]
pub struct ExInstant(std::time::Instant);

/// `std::time::Instant::now`: reads the monotonic clock. The result depends on
/// when the call is made, so nothing is claimed of it.
pub assume_specification[ std::time::Instant::now ]() -> (t: std::time::Instant)
;

/// `std::time::Instant::elapsed`: the time that has passed since the instant
/// was taken. The result depends on when the call is made, so nothing is
/// claimed of it.
pub assume_specification[ std::time::Instant::elapsed ](t: &std::time::Instant) -> (d:
    std::time::Duration)
;

/// `std::time::Duration::as_nanos`: the whole duration in nanoseconds. Only
/// durations read off the clock are passed, so nothing is claimed of the
/// number.
pub assume_specification[ std::time::Duration::as_nanos ](d: &std::time::Duration) -> (n: u128)
;

/// A clock that counts nanoseconds from the moment it was started.
pub struct Clock {
    epoch: std::time::Instant,
}

impl Clock {
    /// Starts a clock at the present moment.
    pub fn start() -> Clock {
        Clock { epoch: std::time::Instant::now() }
    }

    /// The time since the clock was started. Two readings may differ, and
    /// nothing is promised of either.
    pub fn now(&self) -> Timestamp {
        self.epoch.elapsed().as_nanos()
    }
}

} // verus!
