//! Durations and the nanoseconds they are made of.
use std::time::Duration;

use vstd::prelude::*;

verus! {

/// What `Duration::from_nanos` gives for a number of nanoseconds.
pub uninterp spec fn duration_of_nanos(nanos: u64) -> Duration;

/// The whole nanoseconds of a duration, as `Duration::as_nanos` counts them.
pub uninterp spec fn nanos_of(duration: Duration) -> u128;

/// Calls `Duration::from_nanos`, which makes the same duration of the same
/// number of nanoseconds every time: one that is as many nanoseconds long.
#[verifier::external_body]
pub(crate) fn duration_from_nanos(nanos: u64) -> (duration: Duration)
    ensures
        duration == duration_of_nanos(nanos),
        nanos_of(duration) == nanos,
{
    Duration::from_nanos(nanos)
}

/// Calls `Duration::as_nanos`, which counts the same nanoseconds for the same
/// duration every time.
#[verifier::external_body]
pub(crate) fn whole_nanos(duration: &Duration) -> (nanos: u128)
    ensures
        nanos == nanos_of(*duration),
{
    duration.as_nanos()
}

} // verus!
