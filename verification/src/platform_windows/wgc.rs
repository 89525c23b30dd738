//! Windows Graphics Capture: pacing of the compositor's frames, and what
//! becomes of each.
//!
//! The compositor calls back once per frame that it produces. Frames beyond
//! the requested rate are let go before they are copied. Frames that the
//! consumer has no room for are counted, and the count is reported as a gap.
use std::time::Duration;

use vstd::prelude::*;

use crate::backend::{BackendInfo, BackendKind};
use crate::channel::{delivered, Delivery};
use crate::error::{PinrayError, Result};
use crate::frame::{CaptureEvent, FrameData, PixelFormat, VideoFrame};
use crate::platform_windows::d3d::HostCopy;
use crate::numbers::{clamped, saturating_difference, saturating_sum, smaller, truncated_quotient};
use crate::queue::{FrameQueue, FrameQueueView};

verus! {

/// Early-arrival allowance. Compositor timestamps wobble around the nominal
/// vblank by an absolute amount, not a share of the requested interval.
pub const VBLANK_JITTER_NS: i64 = 4_000_000;

/// How early a frame may come and still be kept.
pub open spec fn tolerance(interval_ns: int) -> int {
    smaller(truncated_quotient(interval_ns, 2), VBLANK_JITTER_NS as int)
}

/// The arrival at `time_ns` ends a gap in the compositor's output that is
/// longer than the interval. `i64::MIN` stands for no arrival before it.
pub open spec fn ends_a_stall(last_arrival_ns: i64, time_ns: i64, interval_ns: i64) -> bool {
    last_arrival_ns != i64::MIN && clamped(time_ns - last_arrival_ns) > interval_ns
}

/// A frame that arrives at `time_ns` is kept: there is no schedule yet
/// (`i64::MIN`), or the frame is due but for the tolerance.
pub open spec fn is_kept(next_deadline_ns: i64, time_ns: i64, interval_ns: i64) -> bool {
    next_deadline_ns == i64::MIN || clamped(time_ns + tolerance(interval_ns as int))
        >= next_deadline_ns
}

/// When the frame after a kept one is due: one interval after this one was
/// due, so that the average rate holds; but one interval after this one came
/// if it starts the schedule, ends a stall, or is a whole interval late.
pub open spec fn next_due(
    next_deadline_ns: i64,
    last_arrival_ns: i64,
    time_ns: i64,
    interval_ns: i64,
) -> int {
    let advanced = clamped(next_deadline_ns + interval_ns);
    if next_deadline_ns == i64::MIN || ends_a_stall(last_arrival_ns, time_ns, interval_ns)
        || advanced <= time_ns {
        clamped(time_ns + interval_ns)
    } else {
        advanced
    }
}

/// Rate limiter for arriving frames; `true` keeps the frame. `time_ns` is the
/// frame's own time on the compositor's clock, so pacing follows that clock,
/// not callback scheduling.
///
/// Three things are load-bearing:
///
/// - The deadline advances by one interval per kept frame rather than
///   measuring back to the last kept frame. Gap-measuring under-delivers on
///   non-divisor refresh rates (60 fps becomes 45 on a 90 Hz panel), since
///   only whole vblanks can be selected.
/// - The tolerance is absolute. A proportional one is too tight where the
///   request equals the refresh rate and an early frame is lost outright
///   rather than deferred.
/// - A stall is a gap in the *arrival* stream, not a frame late against the
///   grid. Kept frames are legitimately late on non-divisor rates, so
///   resyncing on lateness reintroduces the 45 fps case.
pub fn accept_frame(
    next_deadline_ns: &mut i64,
    last_arrival_ns: &mut i64,
    time_ns: i64,
    interval_ns: i64,
) -> (kept: bool)
    ensures
        *final(last_arrival_ns) == time_ns,
        kept == is_kept(*old(next_deadline_ns), time_ns, interval_ns),
        kept ==> *final(next_deadline_ns) == next_due(
            *old(next_deadline_ns),
            *old(last_arrival_ns),
            time_ns,
            interval_ns,
        ),
        !kept ==> *final(next_deadline_ns) == *old(next_deadline_ns),
{
    let half: i64 = interval_ns / 2;
    let allowance: i64 = if half <= VBLANK_JITTER_NS {
        half
    } else {
        VBLANK_JITTER_NS
    };
    // Every arrival counts here, kept or not; the gap being measured is the
    // compositor's output, not this session's.
    let previous: i64 = *last_arrival_ns;
    *last_arrival_ns = time_ns;
    let stalled: bool = previous != i64::MIN && saturating_difference(time_ns, previous)
        > interval_ns;

    let deadline: i64 = *next_deadline_ns;
    if deadline == i64::MIN {
        // First frame of the session establishes the schedule origin.
        *next_deadline_ns = saturating_sum(time_ns, interval_ns);
        return true;
    }
    if saturating_sum(time_ns, allowance) < deadline {
        return false;
    }
    let advanced: i64 = saturating_sum(deadline, interval_ns);
    *next_deadline_ns = if stalled || advanced <= time_ns {
        saturating_sum(time_ns, interval_ns)
    } else {
        advanced
    };
    true
}

/// What the pacer remembers between two arrivals: when the next frame is due,
/// and when the last one arrived, each `i64::MIN` before the first.
pub struct PacerMemory {
    pub next_deadline_ns: i64,
    pub last_arrival_ns: i64,
}

/// The pacer's memory once all of `arrivals` went through it.
pub open spec fn memory_after(arrivals: Seq<i64>, interval_ns: i64) -> PacerMemory
    decreases arrivals.len(),
{
    if arrivals.len() == 0 {
        PacerMemory { next_deadline_ns: i64::MIN, last_arrival_ns: i64::MIN }
    } else {
        let memory = memory_after(arrivals.drop_last(), interval_ns);
        let time_ns = arrivals.last();
        PacerMemory {
            next_deadline_ns: if is_kept(memory.next_deadline_ns, time_ns, interval_ns) {
                next_due(memory.next_deadline_ns, memory.last_arrival_ns, time_ns, interval_ns)
                    as i64
            } else {
                memory.next_deadline_ns
            },
            last_arrival_ns: time_ns,
        }
    }
}

/// The arrivals that a fresh pacer keeps.
pub open spec fn kept_frames(arrivals: Seq<i64>, interval_ns: i64) -> Seq<i64>
    decreases arrivals.len(),
{
    if arrivals.len() == 0 {
        Seq::empty()
    } else {
        let before = arrivals.drop_last();
        let kept = kept_frames(before, interval_ns);
        if is_kept(memory_after(before, interval_ns).next_deadline_ns, arrivals.last(), interval_ns) {
            kept.push(arrivals.last())
        } else {
            kept
        }
    }
}

/// How many of `arrivals` end a stall.
pub open spec fn stalls(arrivals: Seq<i64>, interval_ns: i64) -> nat
    decreases arrivals.len(),
{
    if arrivals.len() == 0 {
        0
    } else {
        let before = arrivals.drop_last();
        stalls(before, interval_ns) + if ends_a_stall(
            memory_after(before, interval_ns).last_arrival_ns,
            arrivals.last(),
            interval_ns,
        ) {
            1nat
        } else {
            0nat
        }
    }
}

/// Every arrival leaves room for its deadline before the clock's end, so that
/// no deadline is held at the end of the `i64` range.
pub open spec fn within_the_clock(arrivals: Seq<i64>, interval_ns: i64) -> bool {
    forall|i: int|
        0 <= i < arrivals.len() ==> #[trigger] arrivals[i] + tolerance(interval_ns as int)
            + interval_ns <= i64::MAX
}

/// The first frame of a session is always kept.
pub proof fn the_first_frame_is_kept(time_ns: i64, interval_ns: i64)
    ensures
        kept_frames(seq![time_ns], interval_ns) == seq![time_ns],
{
    let one = seq![time_ns];
    assert(one.drop_last() =~= Seq::<i64>::empty());
    assert(kept_frames(one, interval_ns) =~= one) by {
        reveal_with_fuel(kept_frames, 2);
        reveal_with_fuel(memory_after, 2);
    }
}

/// A pacer is a ceiling: the last of `n + 1` kept frames comes no earlier than
/// `n` intervals after the first one, but for the tolerance, which counts once
/// and once more for every stall.
pub proof fn pacing_never_exceeds_the_request(arrivals: Seq<i64>, interval_ns: i64)
    requires
        interval_ns > 0,
        within_the_clock(arrivals, interval_ns),
        kept_frames(arrivals, interval_ns).len() > 0,
    ensures
        ({
            let kept = kept_frames(arrivals, interval_ns);
            kept.last() + tolerance(interval_ns as int) * (1 + stalls(arrivals, interval_ns))
                >= kept[0] + (kept.len() - 1) * interval_ns
        }),
{
    lemma_grid_holds(arrivals, interval_ns);
    let tol = tolerance(interval_ns as int);
    let ended = stalls(arrivals, interval_ns) as int;
    assert(tol * (1 + ended) == tol + tol * ended) by (nonlinear_arith);
}

proof fn lemma_within_the_clock_before(arrivals: Seq<i64>, interval_ns: i64)
    requires
        within_the_clock(arrivals, interval_ns),
        arrivals.len() > 0,
    ensures
        within_the_clock(arrivals.drop_last(), interval_ns),
        arrivals.last() + tolerance(interval_ns as int) + interval_ns <= i64::MAX,
{
    let before = arrivals.drop_last();
    assert forall|i: int| 0 <= i < before.len() implies #[trigger] before[i] + tolerance(
        interval_ns as int,
    ) + interval_ns <= i64::MAX by {
        assert(before[i] == arrivals[i]);
    }
    assert(arrivals[arrivals.len() - 1] + tolerance(interval_ns as int) + interval_ns <= i64::MAX);
}

/// The schedule never falls behind its grid by more than the tolerance per
/// stall.
proof fn lemma_grid_holds(arrivals: Seq<i64>, interval_ns: i64)
    requires
        interval_ns > 0,
        within_the_clock(arrivals, interval_ns),
    ensures
        ({
            let kept = kept_frames(arrivals, interval_ns);
            let memory = memory_after(arrivals, interval_ns);
            let slack = tolerance(interval_ns as int) * stalls(arrivals, interval_ns);
            if kept.len() == 0 {
                arrivals.len() == 0 && memory.next_deadline_ns == i64::MIN
            } else {
                &&& memory.next_deadline_ns > i64::MIN
                &&& memory.next_deadline_ns + slack >= kept[0] + kept.len() * interval_ns
                &&& kept.last() + tolerance(interval_ns as int) + slack >= kept[0] + (kept.len()
                    - 1) * interval_ns
            }
        }),
    decreases arrivals.len(),
{
    if arrivals.len() > 0 {
        let before = arrivals.drop_last();
        let tol = tolerance(interval_ns as int);
        let kept_before = kept_frames(before, interval_ns);
        let kept = kept_frames(arrivals, interval_ns);
        let memory = memory_after(before, interval_ns);
        let time_ns = arrivals.last();
        let n = kept_before.len() as int;
        let few = stalls(before, interval_ns) as int;
        let many = stalls(arrivals, interval_ns) as int;
        lemma_within_the_clock_before(arrivals, interval_ns);
        lemma_grid_holds(before, interval_ns);
        assert(0 <= tol <= interval_ns);
        assert(tol * many == tol * few + if many > few {
            tol
        } else {
            0
        }) by (nonlinear_arith)
            requires
                many == few || many == few + 1,
        ;
        assert(tol * few >= 0) by (nonlinear_arith)
            requires
                tol >= 0,
                few >= 0,
        ;
        assert((n + 1) * interval_ns == n * interval_ns + interval_ns) by (nonlinear_arith);
        if n == 0 {
            assert(before.len() == 0);
            assert(0 * interval_ns == 0) by (nonlinear_arith);
            assert(1 * interval_ns == interval_ns) by (nonlinear_arith);
        }
    }
}

/// A pacer does not under-deliver: while the compositor keeps producing, with
/// no gap longer than the interval, `n` kept frames cover less than `n`
/// intervals. Together with the ceiling this holds the average at the request,
/// whether or not the refresh rate is a multiple of it.
pub proof fn a_steady_compositor_is_not_under_delivered(arrivals: Seq<i64>, interval_ns: i64)
    requires
        interval_ns > 0,
        within_the_clock(arrivals, interval_ns),
        arrivals.len() > 0,
        stalls(arrivals, interval_ns) == 0,
        forall|i: int| 0 <= i < arrivals.len() ==> #[trigger] arrivals[i] > i64::MIN,
    ensures
        ({
            let kept = kept_frames(arrivals, interval_ns);
            &&& kept.len() > 0
            &&& kept[0] == arrivals[0]
            &&& arrivals.last() - arrivals[0] < kept.len() * interval_ns
        }),
{
    lemma_grid_is_exact(arrivals, interval_ns);
}

/// Without stalls the schedule is the grid itself.
proof fn lemma_grid_is_exact(arrivals: Seq<i64>, interval_ns: i64)
    requires
        interval_ns > 0,
        within_the_clock(arrivals, interval_ns),
        arrivals.len() > 0,
        stalls(arrivals, interval_ns) == 0,
        forall|i: int| 0 <= i < arrivals.len() ==> #[trigger] arrivals[i] > i64::MIN,
    ensures
        ({
            let kept = kept_frames(arrivals, interval_ns);
            let memory = memory_after(arrivals, interval_ns);
            &&& kept.len() > 0
            &&& kept[0] == arrivals[0]
            &&& memory.last_arrival_ns == arrivals.last()
            &&& memory.next_deadline_ns == arrivals[0] + kept.len() * interval_ns
            &&& memory.next_deadline_ns > arrivals.last()
        }),
    decreases arrivals.len(),
{
    let before = arrivals.drop_last();
    let kept_before = kept_frames(before, interval_ns);
    let n = kept_before.len() as int;
    lemma_within_the_clock_before(arrivals, interval_ns);
    assert((n + 1) * interval_ns == n * interval_ns + interval_ns) by (nonlinear_arith);
    if arrivals.len() == 1 {
        assert(before =~= Seq::<i64>::empty());
        assert(kept_before.len() == 0);
        assert(0 * interval_ns == 0) by (nonlinear_arith);
    } else {
        assert forall|i: int| 0 <= i < before.len() implies #[trigger] before[i] > i64::MIN by {
            assert(before[i] == arrivals[i]);
        }
        lemma_grid_is_exact(before, interval_ns);
        assert(before[0] == arrivals[0]);
        assert(before[before.len() - 1] > i64::MIN);
    }
}

/// A compositor no faster than the request is not throttled at all: frames
/// that come at least an interval apart are all kept.
pub proof fn a_slow_compositor_is_not_throttled(arrivals: Seq<i64>, interval_ns: i64)
    requires
        interval_ns > 0,
        forall|i: int|
            0 < i < arrivals.len() ==> #[trigger] arrivals[i] - arrivals[i - 1] >= interval_ns,
    ensures
        kept_frames(arrivals, interval_ns) == arrivals,
    decreases arrivals.len(),
{
    lemma_slow_frames_are_kept(arrivals, interval_ns);
}

proof fn lemma_slow_frames_are_kept(arrivals: Seq<i64>, interval_ns: i64)
    requires
        interval_ns > 0,
        forall|i: int|
            0 < i < arrivals.len() ==> #[trigger] arrivals[i] - arrivals[i - 1] >= interval_ns,
    ensures
        kept_frames(arrivals, interval_ns) == arrivals,
        arrivals.len() > 0 ==> memory_after(arrivals, interval_ns).next_deadline_ns
            <= arrivals.last() + interval_ns,
    decreases arrivals.len(),
{
    if arrivals.len() > 0 {
        let before = arrivals.drop_last();
        assert forall|i: int| 0 < i < before.len() implies #[trigger] before[i] - before[i - 1]
            >= interval_ns by {
            assert(before[i] == arrivals[i]);
            assert(before[i - 1] == arrivals[i - 1]);
        }
        lemma_slow_frames_are_kept(before, interval_ns);
        let last = arrivals.len() - 1;
        if last > 0 {
            assert(arrivals[last] - arrivals[last - 1] >= interval_ns);
            assert(before.last() == arrivals[last - 1]);
            let memory = memory_after(before, interval_ns);
            let time_ns = arrivals.last();
            assert(memory.next_deadline_ns <= time_ns);
            assert(is_kept(memory.next_deadline_ns, time_ns, interval_ns));
            assert(next_due(memory.next_deadline_ns, memory.last_arrival_ns, time_ns, interval_ns)
                <= time_ns + interval_ns);
        }
        assert(before.push(arrivals.last()) =~= arrivals);
    } else {
        assert(kept_frames(arrivals, interval_ns) =~= arrivals);
    }
}

/// A kept frame that ends a stall starts the schedule afresh: no frame that
/// comes within the next interval is kept, but for the tolerance. Missed
/// frames are not made up for in a burst.
pub proof fn a_stall_releases_no_burst(
    next_deadline_ns: i64,
    last_arrival_ns: i64,
    time_ns: i64,
    interval_ns: i64,
    later_ns: i64,
)
    requires
        interval_ns > 0,
        time_ns + interval_ns <= i64::MAX,
        is_kept(next_deadline_ns, time_ns, interval_ns),
        ends_a_stall(last_arrival_ns, time_ns, interval_ns),
        later_ns + tolerance(interval_ns as int) < time_ns + interval_ns,
    ensures
        !is_kept(
            next_due(next_deadline_ns, last_arrival_ns, time_ns, interval_ns) as i64,
            later_ns,
            interval_ns,
        ),
{
}

/// The spacing of frames that a rate asks for; a rate of zero counts as one
/// frame per second.
pub fn frame_interval_ns(frame_rate: Option<u32>) -> (interval: Option<i64>)
    ensures
        interval is Some <==> frame_rate is Some,
        interval matches Some(nanos) ==> nanos == 1_000_000_000int / crate::numbers::larger(
            frame_rate->0 as int,
            1,
        ),
{
    match frame_rate {
        Some(fps) => {
            let rate: i64 = if fps >= 1 {
                fps as i64
            } else {
                1
            };
            Some(1_000_000_000 / rate)
        },
        None => None,
    }
}

/// Refuses a system that cannot do this kind of capture.
pub fn require_support(supported: bool) -> (reply: Result<()>)
    ensures
        reply is Ok <==> supported,
        !supported ==> crate::error::is_unavailable(
            reply,
            "Windows Graphics Capture is not supported on this system (needs Windows 10 1903+)"@,
        ),
{
    if supported {
        Ok(())
    } else {
        Err(
            PinrayError::BackendUnavailable(
                "Windows Graphics Capture is not supported on this system (needs Windows 10 1903+)".to_owned(),
            ),
        )
    }
}

/// A compositor timestamp, given in ticks of 100 ns, in nanoseconds.
pub fn arrival_time_ns(ticks: i64) -> (nanos: i64)
    requires
        i64::MIN <= ticks * 100 <= i64::MAX,
    ensures
        nanos == ticks * 100,
{
    ticks * 100
}

/// Windows Graphics Capture, as it describes itself.
pub open spec fn wgc_backend() -> BackendInfo {
    BackendInfo {
        kind: BackendKind::WindowsWgc,
        supports_audio: false,
        zero_copy: false,
        notes: "Windows Graphics Capture (Windows 10 1903+): display and window capture, cursor toggle, frame_rate-paced",
    }
}

/// The state of a capture: what the arrival callback and the consumer share.
#[derive(Debug)]
pub struct WgcStream {
    pub pixel_format: PixelFormat,
    /// `None` delivers every compositor frame; otherwise the minimum spacing
    /// between delivered frames.
    pub min_frame_interval_ns: Option<i64>,
    /// The sequence number of the next frame.
    pub sequence: u64,
    pub next_deadline_ns: i64,
    pub last_arrival_ns: i64,
    /// What the consumer has not taken yet.
    pub queue: FrameQueue<VideoFrame>,
}

impl WgcStream {
    pub fn new(pixel_format: PixelFormat, frame_rate: Option<u32>, queue_depth: usize) -> (stream:
        Self)
        ensures
            stream.pixel_format == pixel_format,
            stream.min_frame_interval_ns is Some <==> frame_rate is Some,
            stream.min_frame_interval_ns matches Some(nanos) ==> nanos == 1_000_000_000int
                / crate::numbers::larger(frame_rate->0 as int, 1),
            stream.sequence == 0,
            stream.next_deadline_ns == i64::MIN,
            stream.last_arrival_ns == i64::MIN,
            stream.queue@ == (FrameQueueView {
                items: Seq::<VideoFrame>::empty(),
                limit: queue_depth as nat,
                dropped: 0,
            }),
    {
        WgcStream {
            pixel_format,
            min_frame_interval_ns: frame_interval_ns(frame_rate),
            sequence: 0,
            next_deadline_ns: i64::MIN,
            last_arrival_ns: i64::MIN,
            queue: FrameQueue::new(queue_depth),
        }
    }

    pub fn backend_info() -> (info: BackendInfo)
        ensures
            info == wgc_backend(),
    {
        BackendInfo {
            kind: BackendKind::WindowsWgc,
            supports_audio: false,
            zero_copy: false,
            notes: "Windows Graphics Capture (Windows 10 1903+): display and window capture, cursor toggle, frame_rate-paced",
        }
    }

    /// The spacing that the system is asked to keep to by itself, in ticks of
    /// 100 ns, where it can.
    pub fn min_update_interval(&self) -> (ticks: Option<i64>)
        ensures
            ticks is Some <==> self.min_frame_interval_ns is Some,
            ticks matches Some(count) ==> count == crate::numbers::truncated_quotient(
                self.min_frame_interval_ns->0 as int,
                100,
            ),
    {
        match self.min_frame_interval_ns {
            Some(nanos) => Some(nanos / 100),
            None => None,
        }
    }

    /// Forgets the schedule and what was not taken; sequence numbers and losses
    /// carry on.
    pub fn restart(&mut self)
        ensures
            *final(self) == (WgcStream {
                next_deadline_ns: i64::MIN,
                last_arrival_ns: i64::MIN,
                queue: final(self).queue,
                ..*old(self)
            }),
            final(self).queue@ == (FrameQueueView {
                items: Seq::<VideoFrame>::empty(),
                ..old(self).queue@
            }),
    {
        self.queue.clear();
        self.next_deadline_ns = i64::MIN;
        self.last_arrival_ns = i64::MIN;
    }

    /// Decides, before anything is copied, whether the frame that arrived is
    /// one to emit. Frames that pacing lets go are not counted as drops.
    pub fn wants_frame(&mut self, time_ns: i64) -> (wanted: bool)
        ensures
            old(self).min_frame_interval_ns is None ==> wanted && *final(self) == *old(self),
            old(self).min_frame_interval_ns matches Some(interval_ns) ==> {
                &&& wanted == is_kept(old(self).next_deadline_ns, time_ns, interval_ns)
                &&& *final(self) == (WgcStream {
                    next_deadline_ns: if wanted {
                        next_due(
                            old(self).next_deadline_ns,
                            old(self).last_arrival_ns,
                            time_ns,
                            interval_ns,
                        ) as i64
                    } else {
                        old(self).next_deadline_ns
                    },
                    last_arrival_ns: time_ns,
                    ..*old(self)
                })
            },
    {
        match self.min_frame_interval_ns {
            Some(interval_ns) => {
                let mut deadline: i64 = self.next_deadline_ns;
                let mut arrival: i64 = self.last_arrival_ns;
                let wanted: bool = accept_frame(&mut deadline, &mut arrival, time_ns, interval_ns);
                self.next_deadline_ns = deadline;
                self.last_arrival_ns = arrival;
                wanted
            },
            None => true,
        }
    }

    /// Numbers a copied frame. The counter starts over behind its last value.
    pub fn emit(&mut self, copy: HostCopy, time_ns: i64) -> (frame: VideoFrame)
        ensures
            frame == (VideoFrame {
                stream_time_ns: time_ns,
                sequence: old(self).sequence,
                width: copy.width,
                height: copy.height,
                stride: copy.stride,
                pixel_format: old(self).pixel_format,
                color_space: None,
                data: crate::frame::FrameData::Host(copy.data),
                damage: None,
            }),
            *final(self) == (WgcStream {
                sequence: if old(self).sequence == u64::MAX {
                    0
                } else {
                    (old(self).sequence + 1) as u64
                },
                ..*old(self)
            }),
    {
        let sequence: u64 = self.sequence;
        self.sequence = sequence.wrapping_add(1);
        copy.into_frame(time_ns, sequence, self.pixel_format)
    }

    /// Queues a frame. One that there is no room for is lost, and so is one that
    /// comes when its capture has been stopped, and `connected` to the consumer
    /// no more.
    pub fn deliver(&mut self, frame: VideoFrame, connected: bool)
        ensures
            *final(self) == (WgcStream { queue: final(self).queue, ..*old(self) }),
            final(self).queue@ == if connected {
                old(self).queue@.offered(frame)
            } else {
                old(self).queue@.with_loss()
            },
    {
        if connected {
            self.queue.offer(frame);
        } else {
            self.queue.lose();
        }
    }

    /// Hands the consumer the oldest frame that it has not taken.
    pub fn take(&mut self) -> (frame: Option<VideoFrame>)
        ensures
            *final(self) == (WgcStream { queue: final(self).queue, ..*old(self) }),
            frame is Some <==> old(self).queue@.items.len() > 0,
            frame matches Some(oldest) ==> oldest == old(self).queue@.items[0] && final(self).queue@
                == old(self).queue@.without_oldest(),
            frame is None ==> final(self).queue@ == old(self).queue@,
    {
        self.queue.take()
    }

    /// What a consumer is told before it waits for a frame: the losses since
    /// it was last told, or that the capture is not running. `None` lets it
    /// wait.
    pub fn before_waiting(&mut self, started: bool) -> (reply: Option<Result<CaptureEvent>>)
        ensures
            *final(self) == (WgcStream { queue: final(self).queue, ..*old(self) }),
            final(self).queue@ == old(self).queue@.reported(),
            match old(self).queue@.gap() {
                Some(gap) => reply == Some::<Result<CaptureEvent>>(Ok(gap)),
                None => {
                    &&& reply is Some <==> !started
                    &&& reply matches Some(answer) ==> crate::error::is_platform(
                        answer,
                        "wgc backend not started"@,
                    )
                },
            },
    {
        if let Some(gap) = self.queue.report() {
            return Some(Ok(gap));
        }
        if !started {
            return Some(Err(PinrayError::Platform("wgc backend not started".to_owned())));
        }
        None
    }
}

/// The answer to a consumer that waited for a frame.
pub fn after_waiting(delivery: Delivery<VideoFrame>, timeout: Option<Duration>) -> (reply: Result<
    CaptureEvent,
>)
    requires
        delivery is TimedOut ==> timeout is Some,
    ensures
        match delivery {
            Delivery::Received(frame) => reply == Ok::<CaptureEvent, PinrayError>(
                CaptureEvent::Video(frame),
            ),
            Delivery::TimedOut => reply == Err::<CaptureEvent, PinrayError>(
                PinrayError::Timeout(timeout->0),
            ),
            Delivery::Disconnected => crate::error::is_platform(
                reply,
                "wgc frame channel disconnected"@,
            ),
        },
{
    match delivered(delivery, timeout, "wgc frame channel disconnected") {
        Ok(frame) => Ok(CaptureEvent::Video(frame)),
        Err(error) => Err(error),
    }
}

/// The first frame is kept, and the next one is due an interval after it. Of the
/// others those are kept that come when they are due, or no earlier than that by
/// four milliseconds and by half an interval.
pub proof fn due_frames_are_kept(
    deadline: &mut i64,
    arrival: &mut i64,
    time_ns: i64,
    interval_ns: i64,
    kept: bool,
)
    requires
        call_ensures(accept_frame, (deadline, arrival, time_ns, interval_ns), kept),
        interval_ns > 0,
        time_ns + interval_ns + 4_000_000 <= i64::MAX,
    ensures
        *old(deadline) == i64::MIN ==> kept && *final(deadline) == time_ns + interval_ns,
        *old(deadline) > i64::MIN && time_ns >= *old(deadline) ==> kept,
        *old(deadline) > i64::MIN && interval_ns >= 8_000_000 ==> (kept <==> time_ns + 4_000_000
            >= *old(deadline)),
        *old(deadline) > i64::MIN && interval_ns < 8_000_000 ==> (kept <==> time_ns + interval_ns
            / 2 >= *old(deadline)),
        !kept ==> *final(deadline) == *old(deadline),
        *final(arrival) == time_ns,
{
}

/// The frame after a kept one is due an interval after that one was due: so it is
/// on a grid. It is due an interval after that one came if the compositor had
/// stood still for longer than an interval, or that one was an interval late.
pub proof fn kept_frames_advance_the_grid(
    deadline: &mut i64,
    arrival: &mut i64,
    time_ns: i64,
    interval_ns: i64,
)
    requires
        call_ensures(accept_frame, (deadline, arrival, time_ns, interval_ns), true),
        interval_ns > 0,
        time_ns + interval_ns + 4_000_000 <= i64::MAX,
        *old(deadline) > i64::MIN,
        *old(deadline) + interval_ns <= i64::MAX,
        *old(arrival) > i64::MIN,
        time_ns - *old(arrival) <= i64::MAX,
    ensures
        ({
            let stalled = time_ns - *old(arrival) > interval_ns;
            let late = time_ns >= *old(deadline) + interval_ns;
            &&& !stalled && !late ==> *final(deadline) == *old(deadline) + interval_ns
            &&& stalled || late ==> *final(deadline) == time_ns + interval_ns
        }),
{
}

/// Without a rate every frame is wanted. With one the pacer decides, and the
/// stream remembers what it says; nothing else of the stream changes.
pub proof fn the_pacer_decides_on_frames(
    stream: &mut WgcStream,
    deadline: &mut i64,
    arrival: &mut i64,
    time_ns: i64,
    interval_ns: i64,
    kept: bool,
    wanted: bool,
)
    requires
        call_ensures(WgcStream::wants_frame, (stream, time_ns), wanted),
        call_ensures(accept_frame, (deadline, arrival, time_ns, interval_ns), kept),
        *old(deadline) == old(stream).next_deadline_ns,
        *old(arrival) == old(stream).last_arrival_ns,
    ensures
        old(stream).min_frame_interval_ns is None ==> wanted && final(stream).next_deadline_ns
            == old(stream).next_deadline_ns && final(stream).last_arrival_ns == old(
            stream,
        ).last_arrival_ns,
        old(stream).min_frame_interval_ns == Some(interval_ns) ==> wanted == kept
            && final(stream).next_deadline_ns == *final(deadline) && final(stream).last_arrival_ns
            == *final(arrival),
        final(stream).sequence == old(stream).sequence,
        final(stream).queue == old(stream).queue,
        final(stream).pixel_format == old(stream).pixel_format,
        final(stream).min_frame_interval_ns == old(stream).min_frame_interval_ns,
{
}

/// As many frames as a rate says make up a second; a rate of zero is one a
/// second. Without a rate there is no spacing.
pub proof fn intervals_make_up_a_second(frame_rate: Option<u32>, interval: Option<i64>)
    requires
        call_ensures(frame_interval_ns, (frame_rate,), interval),
    ensures
        interval is Some <==> frame_rate is Some,
        frame_rate == Some(0u32) ==> interval == Some(1_000_000_000i64),
        frame_rate matches Some(fps) ==> (fps > 0 ==> (interval matches Some(nanos) && nanos * fps
            <= 1_000_000_000 < (nanos + 1) * fps)),
{
    assert(crate::numbers::larger(0, 1) == 1);
    assert(1_000_000_000int / 1 == 1_000_000_000);
    if let Some(fps) = frame_rate {
        if fps > 0 {
            let f = fps as int;
            assert(crate::numbers::larger(f, 1) == f);
            vstd::arithmetic::div_mod::lemma_fundamental_div_mod(1_000_000_000, f);
            let nanos = 1_000_000_000int / f;
            assert(nanos * f <= 1_000_000_000 < (nanos + 1) * f) by (nonlinear_arith)
                requires
                    1_000_000_000 == f * nanos + 1_000_000_000int % f,
                    0 <= 1_000_000_000int % f < f,
            ;
        }
    }
}

/// A stream is made for its format, its rate and its depth, with no schedule and
/// no frame numbered.
pub proof fn new_streams_are_empty(
    pixel_format: PixelFormat,
    frame_rate: Option<u32>,
    interval: Option<i64>,
    queue_depth: usize,
    stream: WgcStream,
)
    requires
        call_ensures(WgcStream::new, (pixel_format, frame_rate, queue_depth), stream),
        call_ensures(frame_interval_ns, (frame_rate,), interval),
    ensures
        stream.pixel_format == pixel_format,
        stream.min_frame_interval_ns == interval,
        stream.sequence == 0,
        stream.next_deadline_ns == i64::MIN,
        stream.last_arrival_ns == i64::MIN,
        stream.queue@.limit == queue_depth,
        stream.queue@.items.len() == 0,
        stream.queue@.dropped == 0,
{
}

/// The system is asked for the same spacing, in ticks of a hundred nanoseconds.
pub proof fn spacings_are_told_in_ticks(stream: &WgcStream, ticks: Option<i64>)
    requires
        call_ensures(WgcStream::min_update_interval, (stream,), ticks),
    ensures
        ticks is Some <==> stream.min_frame_interval_ns is Some,
        stream.min_frame_interval_ns matches Some(nanos) ==> (nanos >= 0 ==> (ticks matches Some(
            count,
        ) && count * 100 <= nanos < (count + 1) * 100)),
{
}

/// A tick is a hundred nanoseconds.
pub proof fn ticks_are_hundred_nanoseconds(ticks: i64, nanos: i64)
    requires
        call_ensures(arrival_time_ns, (ticks,), nanos),
    ensures
        nanos == ticks * 100,
{
}

/// A restart forgets the schedule and the frames that wait; numbers and losses go
/// on.
pub proof fn restarts_begin_a_new_schedule(stream: &mut WgcStream)
    requires
        call_ensures(WgcStream::restart, (stream,), ()),
    ensures
        final(stream).next_deadline_ns == i64::MIN,
        final(stream).last_arrival_ns == i64::MIN,
        final(stream).queue@.items.len() == 0,
        final(stream).queue@.dropped == old(stream).queue@.dropped,
        final(stream).queue@.limit == old(stream).queue@.limit,
        final(stream).sequence == old(stream).sequence,
        final(stream).pixel_format == old(stream).pixel_format,
        final(stream).min_frame_interval_ns == old(stream).min_frame_interval_ns,
{
}

/// A copied frame has its own bytes and size, the time that it is given and the
/// next number, in the stream's format.
pub proof fn copied_frames_are_numbered(
    stream: &mut WgcStream,
    copy: HostCopy,
    time_ns: i64,
    frame: VideoFrame,
)
    requires
        call_ensures(WgcStream::emit, (stream, copy, time_ns), frame),
        old(stream).sequence < u64::MAX,
    ensures
        frame.stream_time_ns == time_ns,
        frame.sequence == old(stream).sequence,
        frame.width == copy.width,
        frame.height == copy.height,
        frame.stride == copy.stride,
        frame.pixel_format == old(stream).pixel_format,
        frame.data == FrameData::Host(copy.data),
        frame.color_space is None,
        frame.damage is None,
        final(stream).sequence == old(stream).sequence + 1,
        final(stream).queue == old(stream).queue,
        final(stream).next_deadline_ns == old(stream).next_deadline_ns,
        final(stream).last_arrival_ns == old(stream).last_arrival_ns,
{
}

/// A frame joins the others at the end where there is room and someone to take
/// it; else it is counted as lost.
pub proof fn frames_are_queued_or_counted(
    stream: &mut WgcStream,
    frame: VideoFrame,
    connected: bool,
)
    requires
        call_ensures(WgcStream::deliver, (stream, frame, connected), ()),
    ensures
        ({
            let taken = connected && old(stream).queue@.items.len() < old(stream).queue@.limit;
            &&& taken ==> final(stream).queue@.items == old(stream).queue@.items + seq![frame]
                && final(stream).queue@.dropped == old(stream).queue@.dropped
            &&& !taken ==> final(stream).queue@.items == old(stream).queue@.items && (old(
                stream,
            ).queue@.dropped < u32::MAX ==> final(stream).queue@.dropped == old(
                stream,
            ).queue@.dropped + 1)
        }),
        final(stream).queue@.limit == old(stream).queue@.limit,
        final(stream).sequence == old(stream).sequence,
        final(stream).next_deadline_ns == old(stream).next_deadline_ns,
        final(stream).last_arrival_ns == old(stream).last_arrival_ns,
{
    assert(old(stream).queue@.items.push(frame) =~= old(stream).queue@.items + seq![frame]);
}

/// The consumer takes the frames in the order in which they came.
pub proof fn the_oldest_frame_is_taken(stream: &mut WgcStream, frame: Option<VideoFrame>)
    requires
        call_ensures(WgcStream::take, (stream,), frame),
    ensures
        frame is None <==> old(stream).queue@.items.len() == 0,
        frame is None ==> final(stream).queue@ == old(stream).queue@,
        frame matches Some(oldest) ==> old(stream).queue@.items == seq![oldest]
            + final(stream).queue@.items,
        final(stream).queue@.dropped == old(stream).queue@.dropped,
        final(stream).sequence == old(stream).sequence,
        final(stream).next_deadline_ns == old(stream).next_deadline_ns,
{
    if let Some(oldest) = frame {
        assert(old(stream).queue@.items =~= seq![oldest] + final(stream).queue@.items);
    }
}

/// Before it waits, a consumer is told of the frames that were lost since it was
/// last told, and of how many; else of a capture that does not run.
pub proof fn losses_are_told_before_waiting(
    stream: &mut WgcStream,
    started: bool,
    reply: Option<Result<CaptureEvent>>,
)
    requires
        call_ensures(WgcStream::before_waiting, (stream, started), reply),
    ensures
        (reply matches Some(Ok(_))) <==> old(stream).queue@.dropped > 0,
        reply matches Some(Ok(event)) ==> (event matches CaptureEvent::Gap(lost)
            && lost.dropped_frames == Some(old(stream).queue@.dropped)),
        (reply matches Some(Err(_))) <==> old(stream).queue@.dropped == 0 && !started,
        reply matches Some(Err(problem)) ==> problem is Platform,
        final(stream).queue@.dropped == 0,
        final(stream).queue@.items == old(stream).queue@.items,
        final(stream).sequence == old(stream).sequence,
        final(stream).next_deadline_ns == old(stream).next_deadline_ns,
{
}

/// A consumer is handed the frame that arrived, told its own timeout if none
/// did, and told of a capture that is gone.
pub proof fn consumers_are_told_what_arrived(
    frame: VideoFrame,
    limit: Duration,
    timeout: Option<Duration>,
    received: Result<CaptureEvent>,
    late: Result<CaptureEvent>,
    gone: Result<CaptureEvent>,
)
    requires
        call_ensures(after_waiting, (Delivery::Received(frame), timeout), received),
        call_ensures(after_waiting, (Delivery::TimedOut, Some(limit)), late),
        call_ensures(after_waiting, (Delivery::Disconnected, timeout), gone),
    ensures
        received == Ok::<CaptureEvent, PinrayError>(CaptureEvent::Video(frame)),
        late == Err::<CaptureEvent, PinrayError>(PinrayError::Timeout(limit)),
        gone matches Err(PinrayError::Platform(message)) && message@
            == "wgc frame channel disconnected"@,
{
}

/// A system without this kind of capture is told as a backend that is not there.
pub proof fn unsupported_systems_are_told(supported: bool, reply: Result<()>)
    requires
        call_ensures(require_support, (supported,), reply),
    ensures
        reply is Ok <==> supported,
        reply matches Err(problem) ==> problem is BackendUnavailable,
{
}

/// What the backend says of itself.
pub proof fn the_backend_has_no_audio(info: BackendInfo)
    requires
        call_ensures(WgcStream::backend_info, (), info),
    ensures
        info.kind == BackendKind::WindowsWgc,
        !info.supports_audio,
        !info.zero_copy,
        info.notes@
            == "Windows Graphics Capture (Windows 10 1903+): display and window capture, cursor toggle, frame_rate-paced"@,
{
}

/// Every refusal tells why.
pub proof fn refusals_tell_why(
    support: Result<()>,
    stream: &mut WgcStream,
    reply: Option<Result<CaptureEvent>>,
)
    requires
        call_ensures(require_support, (false,), support),
        call_ensures(WgcStream::before_waiting, (stream, false), reply),
    ensures
        support matches Err(PinrayError::BackendUnavailable(message)) && message@
            == "Windows Graphics Capture is not supported on this system (needs Windows 10 1903+)"@,
        reply matches Some(Err(problem)) ==> (problem matches PinrayError::Platform(message)
            && message@ == "wgc backend not started"@),
{
}

/// Numbers start over behind the last one.
pub proof fn numbers_start_over(
    stream: &mut WgcStream,
    copy: HostCopy,
    time_ns: i64,
    frame: VideoFrame,
)
    requires
        call_ensures(WgcStream::emit, (stream, copy, time_ns), frame),
        old(stream).sequence == u64::MAX,
    ensures
        frame.sequence == u64::MAX,
        final(stream).sequence == 0,
{
}

/// At the end of the clock's range a deadline is held there.
pub proof fn deadlines_are_held_at_the_end(
    deadline: &mut i64,
    arrival: &mut i64,
    time_ns: i64,
    interval_ns: i64,
    kept: bool,
)
    requires
        call_ensures(accept_frame, (deadline, arrival, time_ns, interval_ns), kept),
        interval_ns > 0,
        time_ns + interval_ns > i64::MAX,
        time_ns >= *old(deadline),
    ensures
        kept,
        *old(deadline) == i64::MIN || time_ns >= *old(deadline) + interval_ns ==> *final(deadline)
            == i64::MAX,
{
}

} // verus!
