//! The figures of the system status that the help text shows.

use vstd::prelude::*;

verus! {

/// The longest time, in seconds, that can be split into days, hours and
/// minutes here.
pub const MAX_UPTIME: u64 = 9_223_372_036_854_775u64;

/// `chrono::TimeDelta::seconds`, and of the span it makes
/// `chrono::TimeDelta::num_days`, `num_hours` and `num_minutes`: the whole
/// days, the whole hours and the whole minutes in a span of `seconds`
/// seconds. The span must lie within what a `TimeDelta` can hold, or the
/// first call panics.
#[verifier::external_body]
fn whole_units(seconds: i64) -> (r: (i64, i64, i64))
    requires
        0 <= seconds <= MAX_UPTIME,
    ensures
        r.0 == seconds / 86_400,
        r.1 == seconds / 3_600,
        r.2 == seconds / 60,
{
    let span = chrono::TimeDelta::seconds(seconds);
    (span.num_days(), span.num_hours(), span.num_minutes())
}

/// A span of time as the status shows it: whole days, the hours beyond them,
/// and the minutes beyond the hours.
#[derive(Clone, Copy, Debug, PartialEq, Eq, Structural)]
pub struct Uptime {
    pub days: i64,
    pub hours: i64,
    pub minutes: i64,
}

/// Splits a time of `uptime` seconds into days, hours and minutes.
pub fn uptime_parts(uptime: u64) -> (r: Uptime)
    requires
        uptime <= MAX_UPTIME,
    ensures
        r.days == uptime / 86_400,
        r.hours == (uptime / 3_600) % 24,
        r.minutes == (uptime / 60) % 60,
{
    let (days, hours, minutes) = whole_units(uptime as i64);
    Uptime { days, hours: hours % 24, minutes: minutes % 60 }
}

/// A number of bytes in whole mebibytes.
#[verifier::allow_in_spec]
pub fn mib(bytes: u64) -> u64
    returns
        (bytes / 1024 / 1024) as u64,
{
    bytes / 1024 / 1024
}

/// The space in use on a disk, in mebibytes: the whole mebibytes of the
/// disk, less its whole mebibytes available.
pub fn used_mib(total_space: u64, available_space: u64) -> (r: u64)
    requires
        mib(available_space) <= mib(total_space),
    ensures
        r == mib(total_space) - mib(available_space),
{
    mib(total_space) - mib(available_space)
}

} // verus!
