//! Wall-clock and monotonic time, read through the standard library.
//!
//! Times are opaque here: the library reads the clock and the distance
//! between two readings, and computes everything else from those numbers.
use vstd::prelude::*;

verus! {

#[verifier::external_type_specification]
#[verifier::external_body]
pub struct ExSystemTime(std::time::SystemTime);

#[verifier::external_type_specification]
#[verifier::external_body]
pub struct ExInstant(std::time::Instant);

/// The current wall-clock time (`SystemTime::now`); nothing is promised of it.
#[verifier::external_body]
pub(crate) fn system_now() -> std::time::SystemTime {
    std::time::SystemTime::now()
}

/// What `later.duration_since(earlier)` gives in whole seconds, 0 when
/// `later` comes first: a function of the two times alone.
pub uninterp spec fn spec_secs_between(earlier: std::time::SystemTime, later: std::time::SystemTime) -> u64;

/// Whole seconds from `earlier` to `later` (`SystemTime::duration_since`
/// and `Duration::as_secs`), 0 when `later` comes first. The times are
/// opaque, so the result is named.
#[verifier::external_body]
pub(crate) fn secs_between(earlier: std::time::SystemTime, later: std::time::SystemTime) -> (r: u64)
    ensures
        r == spec_secs_between(earlier, later),
{
    later.duration_since(earlier).unwrap_or_default().as_secs()
}

/// The current monotonic time (`Instant::now`); nothing is promised of it.
#[verifier::external_body]
pub(crate) fn instant_now() -> std::time::Instant {
    std::time::Instant::now()
}

/// What `later.duration_since(earlier)` gives in whole milliseconds,
/// truncated to 64 bits, 0 when `later` comes first: a function of the two
/// instants alone.
pub uninterp spec fn spec_millis_between(earlier: std::time::Instant, later: std::time::Instant) -> u64;

/// Whole milliseconds from `earlier` to `later` (`Instant::duration_since`,
/// which saturates at zero, and `Duration::as_millis`), truncated to 64
/// bits. The instants are opaque, so the result is named.
#[verifier::external_body]
pub(crate) fn millis_between(earlier: std::time::Instant, later: std::time::Instant) -> (r: u64)
    ensures
        r == spec_millis_between(earlier, later),
{
    later.duration_since(earlier).as_millis() as u64
}

} // verus!
