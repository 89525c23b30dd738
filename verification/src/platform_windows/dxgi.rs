//! DXGI Desktop Duplication: pacing and the decisions around an acquire.
//!
//! Pull-model: frames are only delivered when the desktop changes; an
//! unchanged desktop surfaces as [`PinrayError::Timeout`].
//!
//! `frame_rate` is honored by delaying the acquire, not by discarding frames
//! afterwards: duplication only copies once a frame has been acquired, so a
//! frame that pacing skips is never produced in the first place.
//!
//! Known limitation: duplication does not composite the mouse cursor into
//! the frame (cursor arrives as separate metadata, which is not drawn). Use
//! the WGC backend when an embedded cursor is required.
//!
//! Instants are nanoseconds on one monotonic clock, durations nanoseconds.
use std::time::Duration;

use vstd::prelude::*;

use crate::backend::{BackendInfo, BackendKind};
use crate::duration::duration_from_nanos;
use crate::error::{failure, PinrayError, Result};
use crate::frame::{CaptureEvent, FrameData, GapEvent, GapReason, PixelFormat};
use crate::platform_windows::d3d::{qpc_to_ns, win_err, HostCopy};

verus! {

/// What pacing decided before anything is acquired.
#[derive(Debug, Clone, Copy, PartialEq, Eq, Structural)]
pub enum Pace {
    /// The caller's timeout runs out before the next frame is due.
    Expired,
    /// Sleep this long, then acquire.
    Wait(u64),
}

/// What pacing decides: the caller's timeout wins over the schedule, and an
/// overdue frame is not waited for.
pub open spec fn pacing(next_frame_at: Option<u64>, deadline: Option<u64>, now: u64) -> Pace {
    match next_frame_at {
        Some(due) => if deadline is Some && due > deadline->0 {
            Pace::Expired
        } else if due > now {
            Pace::Wait((due - now) as u64)
        } else {
            Pace::Wait(0)
        },
        None => Pace::Wait(0),
    }
}

/// Decides whether the caller can be made to wait for the next scheduled
/// frame. The caller's timeout wins: a frame due after it is a `Timeout`, the
/// same answer an idle desktop gives.
pub fn paced_wait(next_frame_at: Option<u64>, deadline: Option<u64>, now: u64) -> (pace: Pace)
    ensures
        pace == pacing(next_frame_at, deadline, now),
{
    match next_frame_at {
        Some(due) => {
            if let Some(limit) = deadline {
                if due > limit {
                    return Pace::Expired;
                }
            }
            if due > now {
                Pace::Wait(due - now)
            } else {
                Pace::Wait(0)
            }
        },
        None => Pace::Wait(0),
    }
}

/// When the frame after one acquired at `now` is due: one interval after this
/// one was due, or one interval from now if that is past already.
pub open spec fn next_due(previous: Option<int>, now: int, interval: int) -> int {
    match previous {
        Some(due) => if due + interval > now {
            due + interval
        } else {
            now + interval
        },
        None => now + interval,
    }
}

pub open spec fn as_due(instant: Option<u64>) -> Option<int> {
    match instant {
        Some(nanos) => Some(nanos as int),
        None => None,
    }
}

/// When the next frame may be acquired. Advances one interval per delivered
/// frame so the average rate holds even when a frame lands late, and
/// resynchronizes once the desktop has been quiet for longer than an interval
/// instead of releasing a catch-up burst.
pub fn advance_schedule(previous: Option<u64>, now: u64, interval: u64) -> (due: u64)
    requires
        previous is Some ==> previous->0 + interval <= u64::MAX,
        next_due(as_due(previous), now as int, interval as int) <= u64::MAX,
    ensures
        due == next_due(as_due(previous), now as int, interval as int),
{
    if let Some(last) = previous {
        if last + interval > now {
            return last + interval;
        }
    }
    now + interval
}

/// When the next frame is due once frames were acquired at all of `acquired`.
pub open spec fn due_after(acquired: Seq<int>, interval: int) -> Option<int>
    decreases acquired.len(),
{
    if acquired.len() == 0 {
        None
    } else {
        Some(
            next_due(due_after(acquired.drop_last(), interval), acquired.last(), interval),
        )
    }
}

/// Every acquire waited until its frame was due.
pub open spec fn held_off(acquired: Seq<int>, interval: int) -> bool
    decreases acquired.len(),
{
    acquired.len() > 0 ==> {
        &&& held_off(acquired.drop_last(), interval)
        &&& due_after(acquired.drop_last(), interval) matches Some(due) ==> due <= acquired.last()
    }
}

/// Every frame but the first came less than one interval after it was due.
pub open spec fn none_far_behind(acquired: Seq<int>, interval: int) -> bool
    decreases acquired.len(),
{
    acquired.len() > 0 ==> {
        &&& none_far_behind(acquired.drop_last(), interval)
        &&& due_after(acquired.drop_last(), interval) matches Some(due) ==> acquired.last() < due
            + interval
    }
}

/// The schedule is at least one interval on for every frame acquired.
proof fn lemma_schedule_advances(acquired: Seq<int>, interval: int)
    requires
        acquired.len() > 0,
        interval >= 0,
    ensures
        due_after(acquired, interval) is Some,
        due_after(acquired, interval)->0 >= acquired[0] + acquired.len() * interval,
    decreases acquired.len(),
{
    let before = acquired.drop_last();
    if before.len() > 0 {
        lemma_schedule_advances(before, interval);
        assert(before.len() * interval + interval == acquired.len() * interval)
            by (nonlinear_arith)
            requires
                acquired.len() == before.len() + 1,
        ;
    } else {
        assert(due_after(before, interval) is None);
        assert(acquired.len() * interval == interval) by (nonlinear_arith)
            requires
                acquired.len() == 1,
        ;
    }
}

/// Pacing is a ceiling: however fast the desktop changes, the n-th frame after
/// the first is acquired no sooner than n intervals after it.
pub proof fn pacing_never_exceeds_the_request(acquired: Seq<int>, interval: int, n: int)
    requires
        held_off(acquired, interval),
        interval >= 0,
        0 <= n < acquired.len(),
    ensures
        acquired[n] >= acquired[0] + n * interval,
    decreases acquired.len(),
{
    let before = acquired.drop_last();
    if n < before.len() {
        pacing_never_exceeds_the_request(before, interval, n);
    } else if n > 0 {
        lemma_schedule_advances(before, interval);
    } else {
        assert(n * interval == 0) by (nonlinear_arith)
            requires
                n == 0,
        ;
    }
}

/// Frames that land late, but by less than an interval, stretch nothing: the
/// n-th frame after the first comes within the n-th interval after it.
pub proof fn late_frames_keep_the_grid(acquired: Seq<int>, interval: int, n: int)
    requires
        none_far_behind(acquired, interval),
        interval > 0,
        0 <= n < acquired.len(),
    ensures
        acquired[n] < acquired[0] + (n + 1) * interval,
        due_after(acquired.subrange(0, n + 1), interval) == Some(acquired[0] + (n + 1) * interval),
    decreases acquired.len(),
{
    let before = acquired.drop_last();
    if n < before.len() {
        late_frames_keep_the_grid(before, interval, n);
        assert(before.subrange(0, n + 1) =~= acquired.subrange(0, n + 1));
    } else {
        assert(acquired.subrange(0, n + 1) =~= acquired);
        assert((n + 1) * interval == n * interval + interval) by (nonlinear_arith);
        if n > 0 {
            late_frames_keep_the_grid(before, interval, n - 1);
            assert(before.subrange(0, n) =~= before);
        } else {
            assert(n * interval == 0) by (nonlinear_arith)
                requires
                    n == 0,
            ;
        }
    }
}

/// After a quiet spell of an interval or more, the next frame is due a whole
/// interval after the one that ended it: nothing is caught up on.
pub proof fn a_quiet_desktop_releases_no_burst(due: int, now: int, interval: int)
    requires
        now >= due + interval,
    ensures
        next_due(Some(due), now, interval) == now + interval,
{
}

/// Pacing never makes the caller wait past the deadline.
pub proof fn pacing_never_outsleeps_the_caller(
    next_frame_at: Option<u64>,
    deadline: u64,
    now: u64,
)
    requires
        now <= deadline,
    ensures
        pacing(next_frame_at, Some(deadline), now) matches Pace::Wait(wait) ==> now + wait
            <= deadline,
{
}

/// Whoever sleeps as long as pacing says acquires no frame before it is due.
pub proof fn pacing_holds_off_the_acquire(
    next_frame_at: Option<u64>,
    deadline: Option<u64>,
    now: u64,
)
    ensures
        pacing(next_frame_at, deadline, now) matches Pace::Wait(wait) ==> (next_frame_at matches Some(
            due,
        ) ==> due <= now + wait),
{
}

/// The deadline has come.
pub open spec fn is_over(deadline: Option<u64>, now: u64) -> bool {
    deadline is Some && deadline->0 <= now
}

/// The whole milliseconds that are left until the deadline, none once it has
/// come; as many as can be counted where there is no deadline.
pub open spec fn patience_ms(deadline: Option<u64>, now: u64) -> int {
    match deadline {
        Some(limit) => if limit <= now {
            0
        } else {
            crate::numbers::smaller((limit - now) / 1_000_000, u32::MAX as int)
        },
        None => u32::MAX as int,
    }
}

/// A zero timeout is a poll: the deadline is the present instant, and as long as
/// the next frame is due, nothing is slept on and nothing is waited for.
pub proof fn a_zero_timeout_polls(next_frame_at: Option<u64>, now: u64)
    requires
        next_frame_at matches Some(due) ==> due <= now,
    ensures
        pacing(next_frame_at, Some(now), now) == Pace::Wait(0),
        patience_ms(Some(now), now) == 0,
{
}

/// How a call that found nothing in time is answered.
pub open spec fn timed_out(timeout: Option<Duration>) -> PinrayError {
    PinrayError::Timeout(
        match timeout {
            Some(limit) => limit,
            None => crate::duration::duration_of_nanos(0),
        },
    )
}

fn time_out(timeout: Option<Duration>) -> (error: PinrayError)
    ensures
        error == timed_out(timeout),
{
    match timeout {
        Some(limit) => PinrayError::Timeout(limit),
        None => PinrayError::Timeout(duration_from_nanos(0)),
    }
}

/// The error for an output that may not be duplicated, which lets `Auto` fall
/// back to WGC.
pub fn duplication_denied(error: &str) -> (problem: PinrayError)
    ensures
        problem matches PinrayError::BackendUnavailable(message) && message@
            == crate::error::failure_text("DuplicateOutput"@, error@),
{
    PinrayError::BackendUnavailable(failure("DuplicateOutput", error))
}

/// What an acquire came to.
#[derive(Debug)]
pub enum AcquireOutcome {
    /// The desktop did not change in time.
    TimedOut,
    /// Duplication was taken away: a mode switch, the secure desktop. The
    /// counter value is what the system left in its report.
    AccessLost { last_present_time: i64 },
    /// Anything else that the system reported.
    Failed(String),
    /// A frame, with the counter value of its last present; zero if only the
    /// mouse moved.
    Acquired { last_present_time: i64 },
}

/// What follows an acquire.
#[derive(Debug)]
pub enum AcquireStep {
    /// Answer the caller with this error.
    GiveUp(PinrayError),
    /// Duplicate the output anew and report a gap.
    Recreate,
    /// Release the frame, which shows nothing new, and acquire again.
    KeepWaiting,
    /// Copy the frame and deliver it.
    Deliver,
}

/// Desktop duplication, as it describes itself.
pub open spec fn dxgi_backend() -> BackendInfo {
    BackendInfo {
        kind: BackendKind::WindowsDxgi,
        supports_audio: false,
        zero_copy: false,
        notes: "DXGI desktop duplication: display capture only, frames on desktop change, frame_rate-paced, cursor not embedded",
    }
}

/// The state of a duplication stream.
#[derive(Debug)]
pub struct DxgiStream {
    pub pixel_format: PixelFormat,
    /// Ticks per second of the performance counter.
    pub qpc_freq: i64,
    /// `None` delivers frames as fast as the desktop changes.
    pub min_frame_interval: Option<u64>,
    /// The output is being duplicated.
    pub duplicating: bool,
    pub sequence: u64,
    /// Earliest instant the next frame may be acquired.
    pub next_frame_at: Option<u64>,
}

impl DxgiStream {
    pub fn new(pixel_format: PixelFormat, qpc_freq: i64, min_frame_interval: Option<u64>) -> (stream:
        Self)
        ensures
            stream == (DxgiStream {
                pixel_format,
                qpc_freq,
                min_frame_interval,
                duplicating: false,
                sequence: 0,
                next_frame_at: None,
            }),
    {
        DxgiStream {
            pixel_format,
            qpc_freq,
            min_frame_interval,
            duplicating: false,
            sequence: 0,
            next_frame_at: None,
        }
    }

    pub fn backend_info() -> (info: BackendInfo)
        ensures
            info == dxgi_backend(),
    {
        BackendInfo {
            kind: BackendKind::WindowsDxgi,
            supports_audio: false,
            zero_copy: false,
            notes: "DXGI desktop duplication: display capture only, frames on desktop change, frame_rate-paced, cursor not embedded",
        }
    }

    /// Starts the stream. `duplicated` is what duplicating the output came to,
    /// which is tried only for a stream that has stopped.
    pub fn start(&mut self, duplicated: Result<()>) -> (reply: Result<()>)
        ensures
            old(self).duplicating ==> reply is Ok && *final(self) == *old(self),
            !old(self).duplicating ==> {
                &&& reply == duplicated
                &&& duplicated is Ok ==> *final(self) == (DxgiStream {
                    duplicating: true,
                    next_frame_at: None,
                    ..*old(self)
                })
                &&& duplicated is Err ==> *final(self) == *old(self)
            },
    {
        if self.duplicating {
            return Ok(());
        }
        if duplicated.is_ok() {
            self.duplicating = true;
            self.next_frame_at = None;
        }
        duplicated
    }

    /// Stops the stream and forgets its schedule.
    pub fn stop(&mut self)
        ensures
            *final(self) == (DxgiStream {
                duplicating: false,
                next_frame_at: None,
                ..*old(self)
            }),
    {
        self.duplicating = false;
        self.next_frame_at = None;
    }

    /// How long to hold off the acquire, until the frame is due. A caller whose
    /// timeout runs out before that gets the answer of an idle desktop.
    pub fn hold_off(&self, deadline: Option<u64>, timeout: Option<Duration>, now: u64) -> (reply:
        Result<u64>)
        ensures
            reply == match pacing(self.next_frame_at, deadline, now) {
                Pace::Expired => Err::<u64, PinrayError>(timed_out(timeout)),
                Pace::Wait(wait) => Ok(wait),
            },
    {
        match paced_wait(self.next_frame_at, deadline, now) {
            Pace::Expired => Err(time_out(timeout)),
            Pace::Wait(wait) => Ok(wait),
        }
    }

    /// How many milliseconds the next acquire may take. Without a deadline it
    /// blocks for as long as the system lets it. The first acquire of a call is
    /// tried even at the deadline, without waiting, so that a zero timeout is a
    /// poll: it finds an image that is ready. From then on the deadline ends the
    /// call, as it does at once where nothing is duplicated.
    pub fn acquire_wait(
        &self,
        first: bool,
        deadline: Option<u64>,
        timeout: Option<Duration>,
        now: u64,
    ) -> (reply: Result<u32>)
        ensures
            is_over(deadline, now) && !(first && self.duplicating) ==> reply == Err::<
                u32,
                PinrayError,
            >(timed_out(timeout)),
            !is_over(deadline, now) || first && self.duplicating ==> {
                &&& reply is Ok <==> self.duplicating
                &&& !self.duplicating ==> crate::error::is_platform(
                    reply,
                    "dxgi backend not started"@,
                )
                &&& reply matches Ok(millis) ==> millis == patience_ms(deadline, now)
            },
    {
        let millis: u32 = match deadline {
            Some(limit) => {
                if limit <= now {
                    if !first || !self.duplicating {
                        return Err(time_out(timeout));
                    }
                    0
                } else {
                    let remaining: u64 = (limit - now) / 1_000_000;
                    if remaining < u32::MAX as u64 {
                        remaining as u32
                    } else {
                        u32::MAX
                    }
                }
            },
            None => u32::MAX,
        };
        if !self.duplicating {
            return Err(PinrayError::Platform("dxgi backend not started".to_owned()));
        }
        Ok(millis)
    }

    /// What to do about the outcome of an acquire.
    pub fn after_acquire(outcome: &AcquireOutcome, timeout: Option<Duration>) -> (step: AcquireStep)
        ensures
            match *outcome {
                AcquireOutcome::TimedOut => step == AcquireStep::GiveUp(timed_out(timeout)),
                AcquireOutcome::AccessLost { .. } => step is Recreate,
                AcquireOutcome::Failed(error) => step matches AcquireStep::GiveUp(
                    PinrayError::Platform(message),
                ) && message@ == crate::error::failure_text(
                    "AcquireNextFrame"@,
                    error@,
                ),
                AcquireOutcome::Acquired { last_present_time } => if last_present_time == 0 {
                    step is KeepWaiting
                } else {
                    step is Deliver
                },
            },
    {
        match outcome {
            AcquireOutcome::TimedOut => AcquireStep::GiveUp(time_out(timeout)),
            AcquireOutcome::AccessLost { .. } => AcquireStep::Recreate,
            AcquireOutcome::Failed(error) => AcquireStep::GiveUp(
                win_err("AcquireNextFrame", error.as_str()),
            ),
            AcquireOutcome::Acquired { last_present_time } => if *last_present_time == 0 {
                AcquireStep::KeepWaiting
            } else {
                AcquireStep::Deliver
            },
        }
    }

    /// What a lost duplication comes to: the stream reports a gap if the output
    /// could be duplicated anew, and is no longer duplicating if not.
    pub open spec fn is_recreated(
        &self,
        duplicated: Result<()>,
        last_present_time: i64,
        after: &DxgiStream,
        reply: Result<CaptureEvent>,
    ) -> bool {
        &&& *after == (DxgiStream { duplicating: duplicated is Ok, ..*self })
        &&& match duplicated {
            Err(error) => reply == Err::<CaptureEvent, PinrayError>(error),
            Ok(_) => reply == Ok::<CaptureEvent, PinrayError>(
                CaptureEvent::Gap(
                    GapEvent {
                        stream_time_ns: crate::platform_windows::d3d::counter_time(
                            last_present_time,
                            self.qpc_freq,
                        ) as i64,
                        reason: GapReason::BackendRestarted,
                        dropped_frames: None,
                    },
                ),
            ),
        }
    }

    /// A frame acquired then can be counted, and the next one scheduled.
    pub open spec fn can_deliver(&self, acquired_at: u64) -> bool {
        &&& self.sequence < u64::MAX
        &&& self.min_frame_interval matches Some(interval) ==> {
            &&& self.next_frame_at is Some ==> self.next_frame_at->0 + interval <= u64::MAX
            &&& next_due(as_due(self.next_frame_at), acquired_at as int, interval as int)
                <= u64::MAX
        }
    }

    /// What delivering a copied frame comes to: the frame, with the next number,
    /// and a stream that has scheduled the one after it.
    pub open spec fn is_delivered(
        &self,
        copy: HostCopy,
        last_present_time: i64,
        acquired_at: u64,
        after: &DxgiStream,
        event: CaptureEvent,
    ) -> bool {
        &&& event matches CaptureEvent::Video(frame) && {
            &&& frame.stream_time_ns == crate::platform_windows::d3d::counter_time(
                last_present_time,
                self.qpc_freq,
            )
            &&& frame.sequence == self.sequence
            &&& frame.width == copy.width
            &&& frame.height == copy.height
            &&& frame.stride == copy.stride
            &&& frame.pixel_format == self.pixel_format
            &&& frame.color_space is None
            &&& frame.data == crate::frame::FrameData::Host(copy.data)
            &&& frame.damage is None
        }
        &&& *after == (DxgiStream {
            sequence: (self.sequence + 1) as u64,
            next_frame_at: match self.min_frame_interval {
                Some(interval) => Some(
                    next_due(
                        as_due(self.next_frame_at),
                        acquired_at as int,
                        interval as int,
                    ) as u64,
                ),
                None => self.next_frame_at,
            },
            ..*self
        })
    }

    /// The answer to a lost duplication. `duplicated` is what duplicating the
    /// output anew came to; where that failed, the stream is no longer
    /// duplicating.
    pub fn recreated(&mut self, duplicated: Result<()>, last_present_time: i64) -> (reply: Result<
        CaptureEvent,
    >)
        requires
            old(self).qpc_freq != 0,
        ensures
            old(self).is_recreated(duplicated, last_present_time, final(self), reply),
    {
        match duplicated {
            Ok(_) => {
                self.duplicating = true;
                Ok(
                    CaptureEvent::Gap(
                        GapEvent {
                            stream_time_ns: qpc_to_ns(last_present_time, self.qpc_freq),
                            reason: GapReason::BackendRestarted,
                            dropped_frames: None,
                        },
                    ),
                )
            },
            Err(error) => {
                self.duplicating = false;
                Err(error)
            },
        }
    }

    /// Delivers a copied frame: schedules the next one and counts this one.
    ///
    /// The schedule is anchored on `acquired_at`, before the staging copy.
    /// Using the post-copy instant would add the copy on top of the interval
    /// and stretch every period by it once a copy approaches one frame.
    pub fn deliver(&mut self, copy: HostCopy, last_present_time: i64, acquired_at: u64) -> (event:
        CaptureEvent)
        requires
            old(self).qpc_freq != 0,
            old(self).can_deliver(acquired_at),
        ensures
            old(self).is_delivered(copy, last_present_time, acquired_at, final(self), event),
    {
        if let Some(interval) = self.min_frame_interval {
            self.next_frame_at = Some(advance_schedule(self.next_frame_at, acquired_at, interval));
        }
        let sequence: u64 = self.sequence;
        self.sequence += 1;
        CaptureEvent::Video(
            copy.into_frame(
                qpc_to_ns(last_present_time, self.qpc_freq),
                sequence,
                self.pixel_format,
            ),
        )
    }
}

/// How far a call for an event has come.
#[derive(Debug, Clone, Copy, PartialEq, Eq)]
pub enum DxgiStage {
    /// The call was made.
    Called,
    /// The caller is made to sleep until the next frame is due.
    Sleeping,
    /// A frame is being acquired.
    Acquiring,
    /// A frame that shows nothing new is being released.
    Releasing,
    /// The output is being duplicated anew.
    Recreating { last_present_time: i64 },
    /// A frame is being copied.
    Copying { last_present_time: i64, acquired_at: u64 },
    /// The call was answered.
    Answered,
}

/// A call for an event.
#[derive(Debug)]
pub struct DxgiCall {
    /// How long the caller waits.
    pub timeout: Option<Duration>,
    /// The instant at which it stops.
    pub deadline: Option<u64>,
    pub stage: DxgiStage,
}

/// What happened to a call.
#[derive(Debug)]
pub enum DxgiEvent {
    /// It was made.
    Called,
    /// The caller has slept.
    Slept,
    /// This came of an acquire.
    Acquired(AcquireOutcome),
    /// The frame was released.
    Released,
    /// This came of duplicating the output anew.
    Duplicated(Result<()>),
    /// This came of copying the frame, which was released after that.
    Copied(Result<HostCopy>),
}

/// What a call asks for next.
#[derive(Debug)]
pub enum DxgiAction {
    /// Sleep for as many nanoseconds.
    Sleep(u64),
    /// Acquire a frame within as many milliseconds.
    Acquire(u32),
    /// Release the frame.
    Release,
    /// Duplicate the output anew.
    Duplicate,
    /// Copy the frame, and release it.
    Copy,
    /// Answer the caller.
    Answer(Result<CaptureEvent>),
}

impl DxgiCall {
    /// A call that has just been made.
    pub fn new(timeout: Option<Duration>, deadline: Option<u64>) -> (call: Self)
        ensures
            call == (DxgiCall { timeout, deadline, stage: DxgiStage::Called }),
    {
        DxgiCall { timeout, deadline, stage: DxgiStage::Called }
    }

    /// The event is one that the call waits for.
    pub open spec fn awaits(&self, event: DxgiEvent) -> bool {
        match self.stage {
            DxgiStage::Called => event is Called,
            DxgiStage::Sleeping => event is Slept,
            DxgiStage::Acquiring => event is Acquired,
            DxgiStage::Releasing => event is Released,
            DxgiStage::Recreating { .. } => event is Duplicated,
            DxgiStage::Copying { .. } => event is Copied,
            DxgiStage::Answered => false,
        }
    }

    /// The call at another stage.
    pub open spec fn at(&self, stage: DxgiStage) -> DxgiCall {
        DxgiCall { timeout: self.timeout, deadline: self.deadline, stage }
    }
}

/// The caller is answered with `error`.
pub open spec fn is_refused(
    call: &DxgiCall,
    after: &DxgiCall,
    action: DxgiAction,
    error: PinrayError,
) -> bool {
    &&& *after == call.at(DxgiStage::Answered)
    &&& action matches DxgiAction::Answer(reply) && reply == Err::<CaptureEvent, PinrayError>(error)
}

/// A frame is acquired next, unless the deadline has come or nothing is
/// duplicated. The `first` acquire of a call is tried at the deadline too.
pub open spec fn goes_on_to_acquire(
    stream: &DxgiStream,
    call: &DxgiCall,
    first: bool,
    now: u64,
    after: &DxgiCall,
    action: DxgiAction,
) -> bool {
    if is_over(call.deadline, now) && !(first && stream.duplicating) {
        is_refused(call, after, action, timed_out(call.timeout))
    } else if !stream.duplicating {
        &&& *after == call.at(DxgiStage::Answered)
        &&& action matches DxgiAction::Answer(reply) && crate::error::is_platform(
            reply,
            "dxgi backend not started"@,
        )
    } else {
        &&& *after == call.at(DxgiStage::Acquiring)
        &&& action == DxgiAction::Acquire(patience_ms(call.deadline, now) as u32)
    }
}

/// What is made of a frame that was acquired, or was not.
pub open spec fn goes_on_from_acquire(
    call: &DxgiCall,
    outcome: AcquireOutcome,
    now: u64,
    after: &DxgiCall,
    action: DxgiAction,
) -> bool {
    match outcome {
        AcquireOutcome::TimedOut => is_refused(call, after, action, timed_out(call.timeout)),
        AcquireOutcome::AccessLost { last_present_time } => {
            &&& *after == call.at(DxgiStage::Recreating { last_present_time })
            &&& action is Duplicate
        },
        AcquireOutcome::Failed(error) => {
            &&& *after == call.at(DxgiStage::Answered)
            &&& action matches DxgiAction::Answer(Err(PinrayError::Platform(message))) && message@
                == crate::error::failure_text("AcquireNextFrame"@, error@)
        },
        AcquireOutcome::Acquired { last_present_time } => if last_present_time == 0 {
            *after == call.at(DxgiStage::Releasing) && action is Release
        } else {
            &&& *after == call.at(DxgiStage::Copying { last_present_time, acquired_at: now })
            &&& action is Copy
        },
    }
}

/// A step of a call, from `stream` and `call` before an event to what they are
/// after it.
pub open spec fn is_step(
    stream: &DxgiStream,
    call: &DxgiCall,
    event: DxgiEvent,
    now: u64,
    stream_after: &DxgiStream,
    after: &DxgiCall,
    action: DxgiAction,
) -> bool {
    match event {
        DxgiEvent::Called => {
            &&& *stream_after == *stream
            &&& match pacing(stream.next_frame_at, call.deadline, now) {
                Pace::Expired => is_refused(call, after, action, timed_out(call.timeout)),
                Pace::Wait(wait) => if wait == 0 {
                    goes_on_to_acquire(stream, call, true, now, after, action)
                } else {
                    *after == call.at(DxgiStage::Sleeping) && action == DxgiAction::Sleep(wait)
                },
            }
        },
        DxgiEvent::Slept => {
            &&& *stream_after == *stream
            &&& goes_on_to_acquire(stream, call, true, now, after, action)
        },
        DxgiEvent::Acquired(outcome) => {
            &&& *stream_after == *stream
            &&& goes_on_from_acquire(call, outcome, now, after, action)
        },
        DxgiEvent::Released => {
            &&& *stream_after == *stream
            &&& goes_on_to_acquire(stream, call, false, now, after, action)
        },
        DxgiEvent::Duplicated(duplicated) => {
            &&& *after == call.at(DxgiStage::Answered)
            &&& action matches DxgiAction::Answer(reply) && stream.is_recreated(
                duplicated,
                call.stage->Recreating_last_present_time,
                stream_after,
                reply,
            )
        },
        DxgiEvent::Copied(copied) => match copied {
            Err(error) => *stream_after == *stream && is_refused(call, after, action, error),
            Ok(copy) => {
                &&& *after == call.at(DxgiStage::Answered)
                &&& action matches DxgiAction::Answer(Ok(shown)) && stream.is_delivered(
                    copy,
                    call.stage->Copying_last_present_time,
                    call.stage->acquired_at,
                    stream_after,
                    shown,
                )
            },
        },
    }
}

impl DxgiStream {
    /// Takes a call one step further: what happened at `now` decides what the
    /// call asks for next.
    pub fn step(&mut self, call: &mut DxgiCall, event: DxgiEvent, now: u64) -> (action: DxgiAction)
        requires
            old(call).awaits(event),
            old(self).qpc_freq != 0,
            event matches DxgiEvent::Copied(Ok(_)) ==> old(self).can_deliver(
                old(call).stage->acquired_at,
            ),
        ensures
            is_step(old(self), old(call), event, now, final(self), final(call), action),
    {
        match event {
            DxgiEvent::Called => match self.hold_off(call.deadline, call.timeout, now) {
                Err(error) => {
                    call.stage = DxgiStage::Answered;
                    DxgiAction::Answer(Err(error))
                },
                Ok(wait) => if wait == 0 {
                    self.acquire_next(call, true, now)
                } else {
                    call.stage = DxgiStage::Sleeping;
                    DxgiAction::Sleep(wait)
                },
            },
            DxgiEvent::Slept => self.acquire_next(call, true, now),
            DxgiEvent::Released => self.acquire_next(call, false, now),
            DxgiEvent::Acquired(outcome) => {
                let last_present_time: i64 = match &outcome {
                    AcquireOutcome::AccessLost { last_present_time } => *last_present_time,
                    AcquireOutcome::Acquired { last_present_time } => *last_present_time,
                    _ => 0,
                };
                match DxgiStream::after_acquire(&outcome, call.timeout) {
                    AcquireStep::GiveUp(error) => {
                        call.stage = DxgiStage::Answered;
                        DxgiAction::Answer(Err(error))
                    },
                    AcquireStep::Recreate => {
                        call.stage = DxgiStage::Recreating { last_present_time };
                        DxgiAction::Duplicate
                    },
                    AcquireStep::KeepWaiting => {
                        call.stage = DxgiStage::Releasing;
                        DxgiAction::Release
                    },
                    AcquireStep::Deliver => {
                        call.stage = DxgiStage::Copying { last_present_time, acquired_at: now };
                        DxgiAction::Copy
                    },
                }
            },
            DxgiEvent::Duplicated(duplicated) => {
                let last_present_time: i64 = match call.stage {
                    DxgiStage::Recreating { last_present_time } => last_present_time,
                    _ => 0,
                };
                call.stage = DxgiStage::Answered;
                DxgiAction::Answer(self.recreated(duplicated, last_present_time))
            },
            DxgiEvent::Copied(copied) => {
                let (last_present_time, acquired_at): (i64, u64) = match call.stage {
                    DxgiStage::Copying { last_present_time, acquired_at } => (
                        last_present_time,
                        acquired_at,
                    ),
                    _ => (0, 0),
                };
                call.stage = DxgiStage::Answered;
                match copied {
                    Ok(copy) => DxgiAction::Answer(
                        Ok(self.deliver(copy, last_present_time, acquired_at)),
                    ),
                    Err(error) => DxgiAction::Answer(Err(error)),
                }
            },
        }
    }

    fn acquire_next(&self, call: &mut DxgiCall, first: bool, now: u64) -> (action: DxgiAction)
        ensures
            goes_on_to_acquire(self, old(call), first, now, final(call), action),
    {
        match self.acquire_wait(first, call.deadline, call.timeout, now) {
            Ok(millis) => {
                call.stage = DxgiStage::Acquiring;
                DxgiAction::Acquire(millis)
            },
            Err(error) => {
                call.stage = DxgiStage::Answered;
                DxgiAction::Answer(Err(error))
            },
        }
    }
}

/// A call and the stream that it is made on.
pub struct DxgiMoment {
    pub stream: DxgiStream,
    pub call: DxgiCall,
}

/// Whether a call was taken from one moment to the next by these events, which
/// happened at these instants and were answered by these actions.
pub open spec fn is_course(
    moments: Seq<DxgiMoment>,
    events: Seq<DxgiEvent>,
    instants: Seq<u64>,
    actions: Seq<DxgiAction>,
) -> bool {
    &&& moments.len() == events.len() + 1
    &&& instants.len() == events.len()
    &&& actions.len() == events.len()
    &&& moments[0].call.stage is Called
    &&& forall|i: int|
        0 <= i < events.len() ==> #[trigger] takes_on(
            moments[i],
            events[i],
            instants[i],
            moments[i + 1],
            actions[i],
        )
}

/// The event takes a call from one moment to the next.
pub open spec fn takes_on(
    before: DxgiMoment,
    event: DxgiEvent,
    now: u64,
    after: DxgiMoment,
    action: DxgiAction,
) -> bool {
    &&& before.call.awaits(event)
    &&& is_step(
        &before.stream,
        &before.call,
        event,
        now,
        &after.stream,
        &after.call,
        action,
    )
}

/// At a moment of a call the deadline is still the caller's. From the first
/// acquire on, nothing is slept on; before it, nothing else was done.
proof fn lemma_course(
    moments: Seq<DxgiMoment>,
    events: Seq<DxgiEvent>,
    instants: Seq<u64>,
    actions: Seq<DxgiAction>,
    turn: int,
)
    requires
        is_course(moments, events, instants, actions),
        0 <= turn < moments.len(),
    ensures
        moments[turn].call.deadline == moments[0].call.deadline,
        moments[turn].call.timeout == moments[0].call.timeout,
        moments[turn].call.stage is Called || moments[turn].call.stage is Sleeping ==> forall|
            i: int,
        |
            0 <= i < turn ==> !(#[trigger] actions[i] is Acquire),
    decreases turn,
{
    if turn > 0 {
        lemma_course(moments, events, instants, actions, turn - 1);
        assert(takes_on(
            moments[turn - 1],
            events[turn - 1],
            instants[turn - 1],
            moments[turn - 1 + 1],
            actions[turn - 1],
        ));
    }
}

/// A call whose deadline has come acquires at most once, and does not wait for
/// it: so much is a poll. Where the output is duplicated and the next frame is
/// due, it does acquire, and does so first.
pub proof fn a_poll_acquires_once(
    moments: Seq<DxgiMoment>,
    events: Seq<DxgiEvent>,
    instants: Seq<u64>,
    actions: Seq<DxgiAction>,
    turn: int,
)
    requires
        is_course(moments, events, instants, actions),
        0 <= turn < events.len(),
        forall|i: int|
            0 <= i < instants.len() ==> is_over(moments[0].call.deadline, #[trigger] instants[i]),
    ensures
        actions[turn] is Acquire ==> {
            &&& actions[turn] == DxgiAction::Acquire(0)
            &&& forall|i: int| 0 <= i < turn ==> !(#[trigger] actions[i] is Acquire)
        },
        moments[0].stream.duplicating && (moments[0].stream.next_frame_at matches Some(due) ==> due
            <= moments[0].call.deadline->0) ==> actions[0] == DxgiAction::Acquire(0),
{
    lemma_course(moments, events, instants, actions, turn);
    assert(takes_on(
        moments[turn],
        events[turn],
        instants[turn],
        moments[turn + 1],
        actions[turn],
    ));
    assert(takes_on(moments[0], events[0], instants[0], moments[0int + 1], actions[0]));
    assert(is_over(moments[0].call.deadline, instants[turn]));
    assert(is_over(moments[0].call.deadline, instants[0]));
}

/// A call that is answered was answered by its last step, and is taken no
/// further.
pub proof fn a_call_is_answered_once(
    moments: Seq<DxgiMoment>,
    events: Seq<DxgiEvent>,
    instants: Seq<u64>,
    actions: Seq<DxgiAction>,
    turn: int,
)
    requires
        is_course(moments, events, instants, actions),
        0 <= turn < events.len(),
        actions[turn] is Answer,
    ensures
        turn == events.len() - 1,
{
    assert(takes_on(
        moments[turn],
        events[turn],
        instants[turn],
        moments[turn + 1],
        actions[turn],
    ));
    if turn + 1 < events.len() {
        assert(takes_on(
            moments[turn + 1],
            events[turn + 1],
            instants[turn + 1],
            moments[turn + 1 + 1],
            actions[turn + 1],
        ));
    }
}

/// A caller is made to wait until the next frame is due and not longer, unless
/// the deadline comes before that. Without a schedule nothing is waited for.
pub proof fn callers_wait_for_due_frames(
    next_frame_at: Option<u64>,
    deadline: Option<u64>,
    now: u64,
    pace: Pace,
)
    requires
        call_ensures(paced_wait, (next_frame_at, deadline, now), pace),
    ensures
        pace == Pace::Expired <==> (next_frame_at matches Some(due) && (deadline matches Some(limit)
            && limit < due)),
        pace matches Pace::Wait(wait) ==> {
            &&& next_frame_at is None ==> wait == 0
            &&& next_frame_at matches Some(due) ==> {
                &&& due >= now ==> now + wait == due
                &&& due < now ==> wait == 0
            }
        },
{
}

/// The frame after one that came in time is due an interval after that one was;
/// the frame after one that came an interval late or more, or came first, is due
/// an interval after it came. It is due within an interval at most.
pub proof fn schedules_advance_by_an_interval(
    previous: Option<u64>,
    now: u64,
    interval: u64,
    due: u64,
)
    requires
        call_ensures(advance_schedule, (previous, now, interval), due),
    ensures
        previous is None ==> due == now + interval,
        previous matches Some(last) ==> {
            &&& now < last + interval ==> due == last + interval
            &&& now >= last + interval ==> due == now + interval
        },
        due >= now,
        interval > 0 ==> due > now,
{
}

/// A stream is made for its format, its clock and its rate, and has neither
/// started nor numbered a frame.
pub proof fn new_streams_wait(
    pixel_format: PixelFormat,
    qpc_freq: i64,
    min_frame_interval: Option<u64>,
    stream: DxgiStream,
)
    requires
        call_ensures(DxgiStream::new, (pixel_format, qpc_freq, min_frame_interval), stream),
    ensures
        stream.pixel_format == pixel_format,
        stream.qpc_freq == qpc_freq,
        stream.min_frame_interval == min_frame_interval,
        !stream.duplicating,
        stream.sequence == 0,
        stream.next_frame_at is None,
{
}

/// A stream that starts duplicates its output, with a new schedule; one that
/// could not tells why and stays as it was. Starting twice changes nothing, and
/// numbers go on.
pub proof fn starts_begin_a_new_schedule(
    stream: &mut DxgiStream,
    duplicated: Result<()>,
    reply: Result<()>,
)
    requires
        call_ensures(DxgiStream::start, (stream, duplicated), reply),
    ensures
        old(stream).duplicating ==> reply is Ok && final(stream).next_frame_at == old(
            stream,
        ).next_frame_at && final(stream).duplicating,
        !old(stream).duplicating ==> {
            &&& reply == duplicated
            &&& final(stream).duplicating <==> duplicated is Ok
            &&& duplicated is Ok ==> final(stream).next_frame_at is None
            &&& duplicated is Err ==> final(stream).next_frame_at == old(stream).next_frame_at
        },
        final(stream).sequence == old(stream).sequence,
        final(stream).pixel_format == old(stream).pixel_format,
        final(stream).qpc_freq == old(stream).qpc_freq,
        final(stream).min_frame_interval == old(stream).min_frame_interval,
{
}

/// A stream that stops duplicates nothing and forgets its schedule; numbers go
/// on.
pub proof fn stops_forget_the_schedule(stream: &mut DxgiStream)
    requires
        call_ensures(DxgiStream::stop, (stream,), ()),
    ensures
        !final(stream).duplicating,
        final(stream).next_frame_at is None,
        final(stream).sequence == old(stream).sequence,
        final(stream).pixel_format == old(stream).pixel_format,
        final(stream).qpc_freq == old(stream).qpc_freq,
        final(stream).min_frame_interval == old(stream).min_frame_interval,
{
}

/// A caller whose deadline comes before the next frame is due is told its own
/// timeout; any other waits until then.
pub proof fn early_deadlines_are_told(
    stream: &DxgiStream,
    deadline: Option<u64>,
    limit: Duration,
    now: u64,
    reply: Result<u64>,
)
    requires
        call_ensures(DxgiStream::hold_off, (stream, deadline, Some(limit), now), reply),
    ensures
        reply is Err <==> (stream.next_frame_at matches Some(due) && (deadline matches Some(until)
            && until < due)),
        reply matches Err(problem) ==> problem == PinrayError::Timeout(limit),
        reply matches Ok(wait) ==> {
            &&& stream.next_frame_at matches Some(due) ==> (due >= now ==> now + wait == due) && (due
                < now ==> wait == 0)
            &&& stream.next_frame_at is None ==> wait == 0
        },
{
}

/// An acquire may take the whole milliseconds that are left, none at the deadline
/// of a poll, and as long as it likes without a deadline. Only the first of a
/// call is tried at the deadline.
pub proof fn acquires_take_what_time_is_left(
    stream: &DxgiStream,
    first: bool,
    deadline: u64,
    limit: Duration,
    now: u64,
    bounded: Result<u32>,
    unbounded: Result<u32>,
)
    requires
        call_ensures(
            DxgiStream::acquire_wait,
            (stream, first, Some(deadline), Some(limit), now),
            bounded,
        ),
        call_ensures(
            DxgiStream::acquire_wait,
            (stream, first, None::<u64>, None::<Duration>, now),
            unbounded,
        ),
    ensures
        stream.duplicating ==> unbounded == Ok::<u32, PinrayError>(u32::MAX),
        !stream.duplicating ==> (unbounded matches Err(PinrayError::Platform(_))),
        bounded matches Ok(millis) ==> {
            &&& stream.duplicating
            &&& deadline <= now ==> millis == 0 && first
            &&& deadline > now ==> now + millis * 1_000_000 <= deadline
            &&& deadline > now && millis < u32::MAX ==> deadline < now + (millis + 1) * 1_000_000
        },
        bounded matches Err(problem) ==> {
            &&& deadline <= now ==> problem == PinrayError::Timeout(limit)
            &&& deadline > now ==> problem is Platform && !stream.duplicating
        },
        stream.duplicating && (deadline > now || first) ==> bounded is Ok,
        deadline <= now && !first ==> bounded is Err,
{
    if deadline > now {
        vstd::arithmetic::div_mod::lemma_fundamental_div_mod((deadline - now) as int, 1_000_000);
    }
}

/// A frame that shows something new is delivered, and one that does not is
/// released; a duplication that was lost is made anew, and a desktop that did not
/// change is told as the caller's timeout.
pub proof fn acquired_frames_are_delivered_if_new(
    present: i64,
    limit: Duration,
    error: String,
    acquired: AcquireStep,
    lost: AcquireStep,
    late: AcquireStep,
    failed: AcquireStep,
)
    requires
        call_ensures(
            DxgiStream::after_acquire,
            (&AcquireOutcome::Acquired { last_present_time: present }, Some(limit)),
            acquired,
        ),
        call_ensures(
            DxgiStream::after_acquire,
            (&AcquireOutcome::AccessLost { last_present_time: present }, Some(limit)),
            lost,
        ),
        call_ensures(
            DxgiStream::after_acquire,
            (&AcquireOutcome::TimedOut, Some(limit)),
            late,
        ),
        call_ensures(
            DxgiStream::after_acquire,
            (&AcquireOutcome::Failed(error), Some(limit)),
            failed,
        ),
    ensures
        acquired is Deliver <==> present != 0,
        acquired is KeepWaiting <==> present == 0,
        lost is Recreate,
        late matches AcquireStep::GiveUp(problem) && problem == PinrayError::Timeout(limit),
        failed matches AcquireStep::GiveUp(problem) && problem is Platform,
{
}

/// A duplication that was made anew is told as a gap of its time, without a count
/// of frames; one that could not be made leaves the stream stopped and tells why.
/// Schedule and numbers go on.
pub proof fn lost_duplications_are_told(
    stream: &mut DxgiStream,
    duplicated: Result<()>,
    last_present_time: i64,
    nanos: i64,
    reply: Result<CaptureEvent>,
)
    requires
        call_ensures(DxgiStream::recreated, (stream, duplicated, last_present_time), reply),
        call_ensures(qpc_to_ns, (last_present_time, old(stream).qpc_freq), nanos),
    ensures
        final(stream).duplicating <==> duplicated is Ok,
        duplicated matches Err(error) ==> reply == Err::<CaptureEvent, PinrayError>(error),
        duplicated is Ok ==> (reply matches Ok(CaptureEvent::Gap(gap)) && gap.stream_time_ns
            == nanos && gap.reason == GapReason::BackendRestarted && gap.dropped_frames is None),
        final(stream).sequence == old(stream).sequence,
        final(stream).next_frame_at == old(stream).next_frame_at,
        final(stream).pixel_format == old(stream).pixel_format,
        final(stream).qpc_freq == old(stream).qpc_freq,
        final(stream).min_frame_interval == old(stream).min_frame_interval,
{
}

/// A copied frame is delivered with its own bytes and size, the time of its last
/// present and the next number, in the stream's format. The next frame is
/// scheduled as pacing says, counted from the acquire, where there is a rate.
pub proof fn copied_frames_are_delivered(
    stream: &mut DxgiStream,
    copy: HostCopy,
    last_present_time: i64,
    acquired_at: u64,
    nanos: i64,
    event: CaptureEvent,
)
    requires
        call_ensures(DxgiStream::deliver, (stream, copy, last_present_time, acquired_at), event),
        call_ensures(qpc_to_ns, (last_present_time, old(stream).qpc_freq), nanos),
        old(stream).can_deliver(acquired_at),
    ensures
        event matches CaptureEvent::Video(frame) && {
            &&& frame.stream_time_ns == nanos
            &&& frame.sequence == old(stream).sequence
            &&& frame.width == copy.width
            &&& frame.height == copy.height
            &&& frame.stride == copy.stride
            &&& frame.pixel_format == old(stream).pixel_format
            &&& frame.data == FrameData::Host(copy.data)
            &&& frame.color_space is None
            &&& frame.damage is None
        },
        final(stream).sequence == old(stream).sequence + 1,
        old(stream).min_frame_interval is None ==> final(stream).next_frame_at == old(
            stream,
        ).next_frame_at,
        old(stream).min_frame_interval matches Some(interval) ==> (
        final(stream).next_frame_at matches Some(due) && match old(stream).next_frame_at {
            Some(last) => due == if acquired_at < last + interval {
                last + interval
            } else {
                acquired_at + interval
            },
            None => due == acquired_at + interval,
        }),
        final(stream).duplicating == old(stream).duplicating,
        final(stream).pixel_format == old(stream).pixel_format,
        final(stream).qpc_freq == old(stream).qpc_freq,
        final(stream).min_frame_interval == old(stream).min_frame_interval,
{
}

/// A call begins with its timeout and its deadline, and nothing done.
pub proof fn calls_begin_unanswered(
    timeout: Option<Duration>,
    deadline: Option<u64>,
    call: DxgiCall,
)
    requires
        call_ensures(DxgiCall::new, (timeout, deadline), call),
    ensures
        call.timeout == timeout,
        call.deadline == deadline,
        call.stage is Called,
{
}

/// What a call does after an acquire: a frame with something new on it is copied
/// and remembered by its present time and the time of the acquire; one without is
/// released; a lost duplication is made anew. All else answers the caller.
pub proof fn calls_follow_the_acquire(
    stream: &mut DxgiStream,
    call: &mut DxgiCall,
    outcome: AcquireOutcome,
    now: u64,
    action: DxgiAction,
)
    requires
        call_ensures(DxgiStream::step, (stream, call, DxgiEvent::Acquired(outcome), now), action),
    ensures
        *final(stream) == *old(stream),
        final(call).deadline == old(call).deadline,
        final(call).timeout == old(call).timeout,
        outcome matches AcquireOutcome::Acquired { last_present_time } ==> {
            &&& last_present_time == 0 ==> action is Release && final(call).stage is Releasing
            &&& last_present_time != 0 ==> action is Copy && final(call).stage
                == (DxgiStage::Copying { last_present_time, acquired_at: now })
        },
        outcome matches AcquireOutcome::AccessLost { last_present_time } ==> action is Duplicate
            && final(call).stage == (DxgiStage::Recreating { last_present_time }),
        outcome is TimedOut || outcome is Failed ==> (action matches DxgiAction::Answer(Err(_))
            && final(call).stage is Answered),
        outcome is TimedOut ==> (old(call).timeout matches Some(limit) ==> action
            == DxgiAction::Answer(Err(PinrayError::Timeout(limit)))),
{
}

/// What a call does first: it answers with its timeout if the next frame is due
/// after its deadline, sleeps until the frame is due, or acquires at once.
pub proof fn calls_wait_for_due_frames(
    stream: &mut DxgiStream,
    call: &mut DxgiCall,
    now: u64,
    action: DxgiAction,
)
    requires
        call_ensures(DxgiStream::step, (stream, call, DxgiEvent::Called, now), action),
    ensures
        *final(stream) == *old(stream),
        final(call).deadline == old(call).deadline,
        final(call).timeout == old(call).timeout,
        ({
            let expires = old(stream).next_frame_at matches Some(due) && (
            old(call).deadline matches Some(limit) && limit < due);
            let sleeps = old(stream).next_frame_at matches Some(due) && due > now;
            &&& expires ==> (action matches DxgiAction::Answer(Err(PinrayError::Timeout(told)))
                && (old(call).timeout matches Some(limit) ==> told == limit))
            &&& !expires && sleeps ==> (action matches DxgiAction::Sleep(wait) && now + wait
                == old(stream).next_frame_at->0 && final(call).stage is Sleeping)
            &&& !expires && !sleeps && old(stream).duplicating ==> action is Acquire
                && final(call).stage is Acquiring
            &&& !expires && !sleeps && !old(stream).duplicating ==> (
            action matches DxgiAction::Answer(Err(_)) && final(call).stage is Answered)
        }),
{
}

/// After a sleep a frame is acquired, even at the deadline; after the release of
/// one that showed nothing new, only before it.
pub proof fn calls_acquire_again(
    stream: &mut DxgiStream,
    call: &mut DxgiCall,
    now: u64,
    action: DxgiAction,
)
    requires
        call_ensures(DxgiStream::step, (stream, call, DxgiEvent::Released, now), action),
        old(stream).duplicating,
    ensures
        *final(stream) == *old(stream),
        ({
            let over = old(call).deadline matches Some(limit) && limit <= now;
            &&& over ==> (action matches DxgiAction::Answer(Err(PinrayError::Timeout(told))) && (
            old(call).timeout matches Some(limit) ==> told == limit) && final(call).stage
                is Answered)
            &&& !over ==> (action matches DxgiAction::Acquire(millis) && final(call).stage
                is Acquiring && (old(call).deadline is None ==> millis == u32::MAX) && (
            old(call).deadline matches Some(limit) ==> now + millis * 1_000_000 <= limit))
        }),
{
    if let Some(limit) = old(call).deadline {
        if limit > now {
            vstd::arithmetic::div_mod::lemma_fundamental_div_mod((limit - now) as int, 1_000_000);
        }
    }
}

/// After its sleep a call acquires, within the time that is left.
pub proof fn calls_acquire_after_sleeping(
    stream: &mut DxgiStream,
    call: &mut DxgiCall,
    now: u64,
    action: DxgiAction,
)
    requires
        call_ensures(DxgiStream::step, (stream, call, DxgiEvent::Slept, now), action),
        old(stream).duplicating,
    ensures
        *final(stream) == *old(stream),
        final(call).stage is Acquiring,
        action matches DxgiAction::Acquire(millis) && (old(call).deadline is None ==> millis
            == u32::MAX) && (old(call).deadline matches Some(limit) ==> (limit <= now ==> millis
            == 0) && (limit > now ==> now + millis * 1_000_000 <= limit)),
{
    if let Some(limit) = old(call).deadline {
        if limit > now {
            vstd::arithmetic::div_mod::lemma_fundamental_div_mod((limit - now) as int, 1_000_000);
        }
    }
}

/// A copy is delivered as the frame of its acquire, and a copy that failed is
/// told; either way the call is answered.
pub proof fn calls_answer_with_the_copy(
    stream: &mut DxgiStream,
    call: &mut DxgiCall,
    copied: Result<HostCopy>,
    last_present_time: i64,
    acquired_at: u64,
    nanos: i64,
    now: u64,
    action: DxgiAction,
)
    requires
        call_ensures(DxgiStream::step, (stream, call, DxgiEvent::Copied(copied), now), action),
        old(call).stage == (DxgiStage::Copying { last_present_time, acquired_at }),
        call_ensures(qpc_to_ns, (last_present_time, old(stream).qpc_freq), nanos),
        old(stream).sequence < u64::MAX,
    ensures
        final(call).stage is Answered,
        copied matches Err(error) ==> action == DxgiAction::Answer(Err(error)) && *final(stream)
            == *old(stream),
        copied matches Ok(copy) ==> (action matches DxgiAction::Answer(
            Ok(CaptureEvent::Video(frame)),
        ) && frame.stream_time_ns == nanos && frame.sequence == old(stream).sequence && frame.width
            == copy.width && frame.height == copy.height && frame.data == FrameData::Host(
            copy.data,
        ) && final(stream).sequence == old(stream).sequence + 1),
{
}

/// An output that was duplicated anew answers the call with a gap, and one that
/// was not with the reason.
pub proof fn calls_answer_with_the_gap(
    stream: &mut DxgiStream,
    call: &mut DxgiCall,
    duplicated: Result<()>,
    last_present_time: i64,
    nanos: i64,
    now: u64,
    action: DxgiAction,
)
    requires
        call_ensures(
            DxgiStream::step,
            (stream, call, DxgiEvent::Duplicated(duplicated), now),
            action,
        ),
        old(call).stage == (DxgiStage::Recreating { last_present_time }),
        call_ensures(qpc_to_ns, (last_present_time, old(stream).qpc_freq), nanos),
    ensures
        final(call).stage is Answered,
        final(stream).duplicating <==> duplicated is Ok,
        final(stream).sequence == old(stream).sequence,
        duplicated matches Err(error) ==> action == DxgiAction::Answer(Err(error)),
        duplicated is Ok ==> (action matches DxgiAction::Answer(Ok(CaptureEvent::Gap(gap)))
            && gap.stream_time_ns == nanos && gap.reason == GapReason::BackendRestarted),
{
}

/// A display that may not be duplicated is told as a backend that is not there.
pub proof fn denials_blame_the_backend(error: &str, problem: PinrayError)
    requires
        call_ensures(duplication_denied, (error,), problem),
    ensures
        problem is BackendUnavailable,
{
}

/// What the backend says of itself.
pub proof fn the_backend_has_no_audio(info: BackendInfo)
    requires
        call_ensures(DxgiStream::backend_info, (), info),
    ensures
        info.kind == BackendKind::WindowsDxgi,
        !info.supports_audio,
        !info.zero_copy,
        info.notes@
            == "DXGI desktop duplication: display capture only, frames on desktop change, frame_rate-paced, cursor not embedded"@,
{
}

/// Every refusal tells why.
pub proof fn refusals_tell_why(
    stream: &DxgiStream,
    now: u64,
    idle: Result<u32>,
    error: String,
    failed: AcquireStep,
    text: &str,
    denied: PinrayError,
)
    requires
        call_ensures(
            DxgiStream::acquire_wait,
            (stream, true, None::<u64>, None::<Duration>, now),
            idle,
        ),
        call_ensures(
            DxgiStream::after_acquire,
            (&AcquireOutcome::Failed(error), None::<Duration>),
            failed,
        ),
        call_ensures(duplication_denied, (text,), denied),
    ensures
        idle matches Err(problem) ==> (problem matches PinrayError::Platform(message) && message@
            == "dxgi backend not started"@),
        failed matches AcquireStep::GiveUp(PinrayError::Platform(message)) && message@
            == "AcquireNextFrame"@ + ": "@ + error@,
        denied matches PinrayError::BackendUnavailable(message) && message@ == "DuplicateOutput"@
            + ": "@ + text@,
{
}

} // verus!
