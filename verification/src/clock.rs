//! Wall-clock time for batch limits.
//!
//! Time is read through `std::time::Instant`. Nothing is known in advance of
//! what the clock returns, so the functions that read it promise nothing
//! about the value; the rules that use an elapsed time take it as an
//! argument.
use std::time::{Duration, Instant};
use vstd::prelude::*;

verus! {

/// `std::time::Instant`: a reading of the monotonic clock.
#[verifier::external_type_specification]
#[verifier::external_body]
pub struct ExInstant(Instant);

/// The length of a duration in whole nanoseconds, as `Duration::as_nanos`
/// gives it.
pub uninterp spec fn nanos(duration: Duration) -> u128;

/// `Duration::from_secs`: the duration of so many whole seconds, which is a
/// thousand million times as many nanoseconds.
#[verifier::external_body]
pub(crate) fn from_secs(secs: u64) -> (duration: Duration)
    ensures
        nanos(duration) == secs * 1_000_000_000,
{
    Duration::from_secs(secs)
}

/// `Instant::now`: the current reading of the monotonic clock. Nothing is
/// claimed of it.
#[verifier::external_body]
pub(crate) fn now() -> Instant {
    Instant::now()
}

/// `Instant::elapsed`: the time that has passed since `start`. Nothing is
/// claimed of it.
#[verifier::external_body]
pub(crate) fn elapsed(start: &Instant) -> Duration {
    start.elapsed()
}

/// `Duration::as_nanos`: the duration in nanoseconds. The result is a
/// function of the duration alone and is what [`nanos`] names.
#[verifier::external_body]
pub(crate) fn as_nanos(duration: &Duration) -> (n: u128)
    ensures
        n == nanos(*duration),
{
    duration.as_nanos()
}

} // verus!
