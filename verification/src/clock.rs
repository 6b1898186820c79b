//! The monotonic clock, as far as the program reads it.

use vstd::prelude::*;
use std::time::{Duration, Instant};

verus! {

/// A point on the monotonic clock (`std::time::Instant`). Nothing is known
/// of what a value holds.
#[verifier::external_type_specification]
#[verifier::external_body]
pub struct ExInstant(Instant);

/// `Instant::now`: the present moment. Two calls may differ, so nothing is
/// stated of the result.
#[verifier::external_body]
pub(crate) fn now() -> Instant {
    Instant::now()
}

/// `Instant::saturating_duration_since`: the time from `earlier` to
/// `later`, or zero where `earlier` is the later of the two. It never
/// panics. Nothing is stated of the result.
#[verifier::external_body]
pub(crate) fn duration_between(later: &Instant, earlier: &Instant) -> Duration {
    later.saturating_duration_since(*earlier)
}

/// `Duration::as_nanos`: the whole duration in nanoseconds. Nothing is
/// stated of the result.
#[verifier::external_body]
pub(crate) fn as_nanos(duration: &Duration) -> u128 {
    duration.as_nanos()
}

/// Nanoseconds that have passed since `start`. The result is whatever the
/// clock says; callers must be right for every value of it.
pub(crate) fn elapsed_since(start: &Instant) -> u128 {
    let present = now();
    let passed = duration_between(&present, start);
    as_nanos(&passed)
}

} // verus!
