use vstd::prelude::*;
use std::time::{Duration, Instant};

verus! {

/// `std::time::Instant`, a reading of the monotonic clock, carried as an
/// opaque value.
#[verifier::external_type_specification]
#[verifier::external_body]
pub struct ExInstant(std::time::Instant);

/// Reads the monotonic clock (`Instant::now`). The reading depends on the
/// time of the call, so nothing is stated of it.
#[verifier::external_body]
pub(crate) fn instant_now() -> Instant {
    Instant::now()
}

/// The time elapsed from `earlier` to `later` (zero where `later` is the
/// earlier one), as `Instant::duration_since` gives it.
pub uninterp spec fn elapsed_between(later: Instant, earlier: Instant) -> Duration;

/// `Instant::duration_since`: the time elapsed from `earlier` to `later`,
/// a function of the two readings.
#[verifier::external_body]
pub(crate) fn duration_since(later: &Instant, earlier: &Instant) -> (elapsed: Duration)
    ensures
        elapsed == elapsed_between(*later, *earlier),
{
    later.duration_since(*earlier)
}

/// The instant `duration` after `start`, or `None` where the platform
/// cannot represent it, as `Instant::checked_add` gives it.
pub uninterp spec fn instant_after(start: Instant, duration: Duration) -> Option<Instant>;

/// `Instant::checked_add`: the instant `duration` after `start`, a function
/// of the two.
#[verifier::external_body]
pub(crate) fn checked_add(start: &Instant, duration: &Duration) -> (later: Option<Instant>)
    ensures
        later == instant_after(*start, *duration),
{
    start.checked_add(*duration)
}

/// Whether the reading `a` is not earlier than `b` (`a >= b`).
pub uninterp spec fn instant_not_earlier(a: Instant, b: Instant) -> bool;

/// `Instant >= Instant` (`PartialOrd::ge`): whether `a` is not earlier than
/// `b`, a function of the two readings.
#[verifier::external_body]
pub(crate) fn instant_reached(a: &Instant, b: &Instant) -> (reached: bool)
    ensures
        reached == instant_not_earlier(*a, *b),
{
    *a >= *b
}

/// The duration of `millis` milliseconds, as `Duration::from_millis`
/// gives it.
pub uninterp spec fn duration_of_millis(millis: u64) -> Duration;

/// `Duration::from_millis`: the duration of `millis` milliseconds.
#[verifier::external_body]
pub(crate) fn duration_from_millis(millis: u64) -> (duration: Duration)
    ensures
        duration == duration_of_millis(millis),
{
    Duration::from_millis(millis)
}

} // verus!
