//! Readings of the system's monotonic clock.
use std::time::{Duration, Instant};

use vstd::prelude::*;

verus! {

/// `std::time::Instant`, of which nothing is known but what the functions
/// below say.
#[verifier::external_type_specification]
#[verifier::external_body]
pub struct ExInstant(Instant);

/// An instant that has come: what the system's clock showed when it was read.
/// `take_reading` alone makes one.
#[derive(Debug, Clone, Copy)]
pub struct Reading {
    instant: Instant,
}

impl Reading {
    /// The instant of the reading.
    pub closed spec fn at(&self) -> Instant {
        self.instant
    }

    /// The instant of the reading.
    pub fn instant(&self) -> (instant: Instant)
        ensures
            instant == self.at(),
    {
        self.instant
    }
}

/// The time from `earlier` to `later`, as `Instant::duration_since` measures
/// it.
pub uninterp spec fn elapsed_between(later: Instant, earlier: Instant) -> Duration;

/// The nanoseconds from `earlier` to `later`; none if they are in the other
/// order.
pub open spec fn nanos_between(later: Instant, earlier: Instant) -> u128 {
    crate::duration::nanos_of(elapsed_between(later, earlier))
}

/// Whether no time went by from `second` to `first`: they are in this order, or
/// the same.
pub open spec fn in_order(first: Instant, second: Instant) -> bool {
    first == second || nanos_between(first, second) == 0
}

/// Whether `later` comes no sooner than anything that `earlier` comes no sooner
/// than.
pub open spec fn comes_after(later: Instant, earlier: Instant) -> bool {
    forall|first: Instant| in_order(first, earlier) ==> #[trigger] in_order(first, later)
}

/// Whether the nanoseconds from `earlier` to an instant in between, and on to
/// `later`, add up to `nanos`.
pub open spec fn adds_up(nanos: u128, later: Instant, earlier: Instant) -> bool {
    forall|middle: Instant|
        in_order(earlier, middle) && in_order(middle, later) ==> nanos
            == #[trigger] nanos_between(middle, earlier) + nanos_between(later, middle)
}

/// Calls `Instant::now`. Which instant that is, is up to the system, so that is
/// left open. Barring a fault of the platform's clock it is never before one
/// that the same call gave earlier, as it did `past`.
#[verifier::external_body]
pub(crate) fn take_reading(past: Option<Reading>) -> (now: Reading)
    ensures
        past matches Some(earlier) ==> comes_after(now.at(), earlier.at()),
{
    let _ = past;
    Reading { instant: Instant::now() }
}

/// Calls `Instant::duration_since`, which gives the time from `earlier` to
/// `later`, or none if they are in the other order. That depends on the two
/// instants alone. The time elapsed up to an instant in between and the time
/// elapsed since add up to it.
#[verifier::external_body]
pub(crate) fn time_between(later: &Instant, earlier: &Instant) -> (elapsed: Duration)
    ensures
        elapsed == elapsed_between(*later, *earlier),
        adds_up(crate::duration::nanos_of(elapsed), *later, *earlier),
{
    later.duration_since(*earlier)
}

} // verus!
