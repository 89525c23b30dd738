//! Process-relative monotonic timestamps.
//!
//! PipeWire buffer metadata is not available, so video and audio frames are
//! stamped at dequeue time from one shared monotonic anchor. Timestamps are
//! comparable across the audio and video streams of a session (same anchor,
//! same clock) but are *not* boot-relative like those of other platforms.
use std::time::{Duration, Instant};

use vstd::prelude::*;

use crate::duration::whole_nanos;
use crate::numbers::wrap_to_i64;
use crate::platform_linux::reading;
use crate::platform_linux::reading::{take_reading, time_between, Reading};

verus! {

/// The timestamp of an instant this many nanoseconds after the anchor: the low
/// 64 bits of the number.
pub open spec fn stream_time(nanos: u128) -> int {
    crate::numbers::wrapped_to_i64(nanos as int)
}

/// The timestamp of an instant this many nanoseconds after the anchor.
pub fn stream_time_ns(nanos: u128) -> (time: i64)
    ensures
        time == stream_time(nanos),
{
    wrap_to_i64((nanos % 0x1_0000_0000_0000_0000) as i128)
}

/// The timestamp of `now`, counted from `anchor`.
pub fn stream_time_between(anchor: &Instant, now: &Instant) -> (time: i64)
    ensures
        time == stream_time(reading::nanos_between(*now, *anchor)),
        reading::adds_up(reading::nanos_between(*now, *anchor), *now, *anchor),
{
    let elapsed: Duration = time_between(now, anchor);
    stream_time_ns(whole_nanos(&elapsed))
}

/// A clock that counts from one instant. The streams of a session share one.
#[derive(Debug, Clone, Copy)]
pub struct MonotonicClock {
    anchor: Reading,
    latest: Reading,
}

impl MonotonicClock {
    #[verifier::type_invariant]
    spec fn is_in_order(&self) -> bool {
        reading::in_order(self.anchor.at(), self.latest.at())
    }

    /// The instant that the clock counts from.
    pub closed spec fn origin(&self) -> Instant {
        self.anchor.at()
    }

    /// The instant at which the clock was last read.
    pub closed spec fn latest(&self) -> Instant {
        self.latest.at()
    }

    /// The nanoseconds from the clock's origin to its latest reading.
    pub open spec fn nanos(&self) -> u128 {
        reading::nanos_between(self.latest(), self.origin())
    }

    /// A clock that counts from the present instant. Which instant that is, is
    /// up to the system.
    pub fn new() -> (clock: Self)
        ensures
            clock.latest() == clock.origin(),
    {
        let anchor: Reading = take_reading(None);
        MonotonicClock { anchor, latest: anchor }
    }

    /// Nanoseconds from the clock's origin to the present instant. Which instant
    /// that is, is up to the system.
    pub fn monotonic_time_ns(&mut self) -> (time: i64)
        ensures
            is_read(*old(self), *final(self), time),
    {
        proof {
            use_type_invariant(&*self);
        }
        let now: Reading = take_reading(Some(self.latest));
        self.latest = now;
        stream_time_between(&self.anchor.instant(), &now.instant())
    }
}

/// Reading the clock `before` gave `time` and left it as `after`: it still
/// counts from where it did, and has gone on by the time since it was last read.
pub open spec fn is_read(before: MonotonicClock, after: MonotonicClock, time: i64) -> bool {
    &&& after.origin() == before.origin()
    &&& reading::in_order(after.origin(), after.latest())
    &&& reading::comes_after(after.latest(), before.latest())
    &&& reading::adds_up(after.nanos(), after.latest(), after.origin())
    &&& after.nanos() == before.nanos() + reading::nanos_between(after.latest(), before.latest())
    &&& time == stream_time(after.nanos())
}

/// Whether `times` are what reading a clock over and over gave; `clocks[i]` is
/// the clock before the reading `times[i]`.
pub open spec fn are_readings(clocks: Seq<MonotonicClock>, times: Seq<i64>) -> bool {
    &&& clocks.len() == times.len() + 1
    &&& forall|i: int|
        0 <= i < times.len() ==> #[trigger] is_read(clocks[i], clocks[i + 1], times[i])
}

/// The clock keeps its origin from one reading to any later one, and comes to
/// an instant that is not before.
proof fn lemma_goes_on(
    clocks: Seq<MonotonicClock>,
    times: Seq<i64>,
    earlier: int,
    later: int,
)
    requires
        are_readings(clocks, times),
        0 <= earlier <= later < times.len(),
    ensures
        clocks[later + 1].origin() == clocks[earlier + 1].origin(),
        reading::in_order(clocks[earlier + 1].latest(), clocks[later + 1].latest()),
    decreases later - earlier,
{
    if earlier < later {
        lemma_goes_on(clocks, times, earlier, later - 1);
        assert(is_read(clocks[later], clocks[later + 1], times[later]));
    }
}

/// Of two readings of one clock the later is never less, for some 292 years, and
/// their difference is the time between them in nanoseconds.
pub proof fn readings_never_decrease(
    clocks: Seq<MonotonicClock>,
    times: Seq<i64>,
    earlier: int,
    later: int,
)
    requires
        are_readings(clocks, times),
        0 <= earlier <= later < times.len(),
        clocks[later + 1].nanos() <= i64::MAX,
    ensures
        clocks[later + 1].origin() == clocks[earlier + 1].origin(),
        0 <= times[earlier] <= times[later],
        times[later] - times[earlier] == reading::nanos_between(
            clocks[later + 1].latest(),
            clocks[earlier + 1].latest(),
        ),
{
    lemma_goes_on(clocks, times, earlier, later);
    assert(is_read(clocks[earlier], clocks[earlier + 1], times[earlier]));
    assert(is_read(clocks[later], clocks[later + 1], times[later]));
    let origin = clocks[later + 1].origin();
    let first = clocks[earlier + 1].latest();
    assert(reading::nanos_between(first, origin) == clocks[earlier + 1].nanos());
    timestamps_never_decrease(clocks[earlier + 1].nanos(), clocks[later + 1].nanos());
    timestamps_never_decrease(clocks[later + 1].nanos(), clocks[later + 1].nanos());
}

/// A later instant never has an earlier timestamp, for some 292 years.
pub proof fn timestamps_never_decrease(earlier: u128, later: u128)
    requires
        earlier <= later <= i64::MAX,
    ensures
        stream_time(earlier) == earlier,
        stream_time(earlier) <= stream_time(later),
{
}

/// Within 292 years of the anchor the timestamp is the number of nanoseconds
/// since then.
pub proof fn timestamps_count_nanoseconds(nanos: u128, time: i64)
    requires
        call_ensures(stream_time_ns, (nanos,), time),
        nanos <= i64::MAX,
    ensures
        time == nanos,
{
}

/// Timestamps that lie apart by a number of nanoseconds differ by it, as far as
/// 64 bits go.
pub proof fn timestamps_keep_their_distance(
    earlier: u128,
    later: u128,
    first: i64,
    second: i64,
)
    requires
        call_ensures(stream_time_ns, (earlier,), first),
        call_ensures(stream_time_ns, (later,), second),
    ensures
        (second - first) % 0x1_0000_0000_0000_0000 == (later - earlier) % 0x1_0000_0000_0000_0000,
{
}

/// The timestamp of the anchor's own instant, or of one some time after it, is
/// that time.
pub proof fn timestamps_count_from_the_anchor(anchor: Instant, now: Instant, time: i64)
    requires
        call_ensures(stream_time_between, (&anchor, &now), time),
        reading::nanos_between(now, anchor) <= i64::MAX,
    ensures
        time == reading::nanos_between(now, anchor),
{
}

/// A reading of a clock is the time since its origin, and the clock keeps its
/// origin.
pub proof fn readings_count_from_the_origin(clock: &mut MonotonicClock, time: i64)
    requires
        call_ensures(MonotonicClock::monotonic_time_ns, (clock,), time),
        reading::nanos_between(final(clock).latest(), old(clock).origin()) <= i64::MAX,
    ensures
        time == reading::nanos_between(final(clock).latest(), old(clock).origin()),
        time == reading::nanos_between(old(clock).latest(), old(clock).origin())
            + reading::nanos_between(final(clock).latest(), old(clock).latest()),
        final(clock).origin() == old(clock).origin(),
{
}

} // verus!
