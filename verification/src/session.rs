//! The life of a capture session, and the builder that makes one.
use std::time::Duration;

use vstd::prelude::*;

use crate::audio::AudioFrame;
use crate::backend::{
    AudioBackend, BackendBundle, BackendInfo, BackendPreference, BackendResolver, VideoBackend,
};
use crate::config::{AudioCapture, CursorMode, SessionConfig, VideoCaptureTarget};
use crate::duration::duration_from_nanos;
use crate::error::{PinrayError, Result};
use crate::frame::{CaptureEvent, ColorSpace, PixelFormat, Rect};

verus! {

/// The timeout that makes a call a poll: no time at all, for it takes what is
/// there already.
pub open spec fn no_waiting() -> Option<Duration> {
    Some(crate::duration::duration_of_nanos(0))
}

/// An audio backend's answer as a session passes it on.
pub open spec fn as_event(reply: Result<AudioFrame>) -> Result<CaptureEvent> {
    match reply {
        Ok(frame) => Ok(CaptureEvent::Audio(frame)),
        Err(error) => Err(error),
    }
}

fn to_event(reply: Result<AudioFrame>) -> (event: Result<CaptureEvent>)
    ensures
        event == as_event(reply),
{
    match reply {
        Ok(frame) => Ok(CaptureEvent::Audio(frame)),
        Err(error) => Err(error),
    }
}

pub struct CaptureSession {
    config: SessionConfig,
    backend_info: BackendInfo,
    video_backend: Option<Box<dyn VideoBackend>>,
    audio_backend: Option<Box<dyn AudioBackend>>,
    running: bool,
}

impl CaptureSession {
    pub closed spec fn configured(&self) -> SessionConfig {
        self.config
    }

    pub closed spec fn described(&self) -> BackendInfo {
        self.backend_info
    }

    pub closed spec fn video(&self) -> Option<Box<dyn VideoBackend>> {
        self.video_backend
    }

    pub closed spec fn audio(&self) -> Option<Box<dyn AudioBackend>> {
        self.audio_backend
    }

    pub closed spec fn runs(&self) -> bool {
        self.running
    }

    /// The two sessions differ at most in the state of their backends and in
    /// whether they run. The backends themselves are the same.
    pub open spec fn same_setup(&self, other: &CaptureSession) -> bool {
        &&& self.configured() == other.configured()
        &&& self.described() == other.described()
        &&& match (self.video(), other.video()) {
            (Some(one), Some(two)) => one.character() == two.character(),
            (None, None) => true,
            _ => false,
        }
        &&& match (self.audio(), other.audio()) {
            (Some(one), Some(two)) => one.character() == two.character(),
            (None, None) => true,
            _ => false,
        }
    }

    pub fn new(config: SessionConfig, bundle: BackendBundle) -> (session: Self)
        ensures
            session_of(session, config, bundle),
    {
        CaptureSession {
            config,
            backend_info: bundle.info,
            video_backend: bundle.video,
            audio_backend: bundle.audio,
            running: false,
        }
    }

    pub fn config(&self) -> (config: &SessionConfig)
        ensures
            *config == self.configured(),
    {
        &self.config
    }

    pub fn backend_info(&self) -> (info: &BackendInfo)
        ensures
            *info == self.described(),
    {
        &self.backend_info
    }

    pub fn is_running(&self) -> (running: bool)
        ensures
            running == self.runs(),
    {
        self.running
    }

    /// Starts the video backend, then the audio backend. The first refusal is
    /// the session's answer and leaves it stopped; a session that runs is left
    /// alone.
    pub fn start(&mut self) -> (reply: Result<()>)
        ensures
            start_outcome(old(self), final(self), reply),
    {
        if self.running {
            return Ok(());
        }
        if let Some(video) = self.video_backend.as_mut() {
            if let Err(error) = video.start() {
                return Err(error);
            }
        }
        if let Some(audio) = self.audio_backend.as_mut() {
            if let Err(error) = audio.start() {
                return Err(error);
            }
        }
        self.running = true;
        Ok(())
    }

    /// Stops the audio backend, then the video backend. The first refusal is
    /// the session's answer and leaves it running; a session that does not run
    /// is left alone.
    pub fn stop(&mut self) -> (reply: Result<()>)
        ensures
            stop_outcome(old(self), final(self), reply),
    {
        if !self.running {
            return Ok(());
        }
        if let Some(audio) = self.audio_backend.as_mut() {
            if let Err(error) = audio.stop() {
                return Err(error);
            }
        }
        if let Some(video) = self.video_backend.as_mut() {
            if let Err(error) = video.stop() {
                return Err(error);
            }
        }
        self.running = false;
        Ok(())
    }

    /// The next event of the session's streams.
    ///
    /// With both streams, audio that is pending goes first, so that a busy
    /// video stream cannot starve it; otherwise the video stream is waited
    /// for, and the audio stream after that if the video stream timed out.
    pub fn next_event(&mut self, timeout: Option<Duration>) -> (reply: Result<CaptureEvent>)
        ensures
            event_outcome(old(self), final(self), timeout, reply),
    {
        match (self.video_backend.as_mut(), self.audio_backend.as_mut()) {
            (Some(video), None) => video.next_event(timeout),
            (None, Some(audio)) => to_event(audio.next_audio(timeout)),
            (Some(video), Some(audio)) => {
                let pending: Result<AudioFrame> = audio.next_audio(Some(duration_from_nanos(0)));
                match pending {
                    Ok(frame) => {
                        return Ok(CaptureEvent::Audio(frame));
                    },
                    Err(PinrayError::Timeout(_)) => {},
                    Err(error) => {
                        return Err(error);
                    },
                }
                let shown: Result<CaptureEvent> = video.next_event(timeout);
                match shown {
                    Ok(event) => Ok(event),
                    Err(PinrayError::Timeout(_)) => to_event(audio.next_audio(timeout)),
                    Err(error) => Err(error),
                }
            },
            (None, None) => Err(PinrayError::BackendNotSelected),
        }
    }

    /// The next packet of the audio stream alone.
    pub fn next_audio(&mut self, timeout: Option<Duration>) -> (reply: Result<AudioFrame>)
        ensures
            audio_outcome(old(self), final(self), timeout, reply),
    {
        match self.audio_backend.as_mut() {
            Some(audio) => audio.next_audio(timeout),
            None => Err(PinrayError::BackendNotSelected),
        }
    }

    /// The token with which a later session can skip the permission dialog,
    /// where the video backend has one.
    pub fn restore_token(&self) -> (token: Option<String>)
        ensures
            match self.video() {
                Some(video) => video.character().may_remember(video.state(), token),
                None => token is None,
            },
    {
        match &self.video_backend {
            Some(video) => video.restore_token(),
            None => None,
        }
    }
}

/// What a start makes of a session: nothing if it runs already; else it runs
/// afterwards exactly if its backends agreed.
pub open spec fn start_outcome(
    before: &CaptureSession,
    after: &CaptureSession,
    reply: Result<()>,
) -> bool {
    if before.runs() {
        reply is Ok && *after == *before
    } else {
        &&& after.same_setup(before)
        &&& after.runs() == (reply is Ok)
        &&& backends_started(before, after, reply)
    }
}

/// What a stop makes of a session: nothing if it does not run; else it runs on
/// exactly if a backend refused.
pub open spec fn stop_outcome(
    before: &CaptureSession,
    after: &CaptureSession,
    reply: Result<()>,
) -> bool {
    if !before.runs() {
        reply is Ok && *after == *before
    } else {
        &&& after.same_setup(before)
        &&& after.runs() == (reply is Err)
        &&& backends_stopped(before, after, reply)
    }
}

/// How the backends took a start that the session answered with `reply`: the
/// video backend is asked first, the audio backend only once it agreed.
pub open spec fn backends_started(
    before: &CaptureSession,
    after: &CaptureSession,
    reply: Result<()>,
) -> bool {
    match (before.video(), before.audio()) {
        (None, None) => reply is Ok,
        (Some(video), None) => exists|first: Result<()>| #[trigger]
            video.character().may_start(video.state(), first, after.video()->0.state()) && same_verdict(first, reply),
        (None, Some(audio)) => exists|first: Result<()>| #[trigger]
            audio.character().may_start(audio.state(), first, after.audio()->0.state()) && same_verdict(first, reply),
        (Some(video), Some(audio)) => exists|first: Result<()>| #[trigger]
            video.character().may_start(video.state(), first, after.video()->0.state()) && match first {
                Err(_) => same_verdict(first, reply) && after.audio() == before.audio(),
                Ok(_) => exists|second: Result<()>| #[trigger]
                    audio.character().may_start(audio.state(), second, after.audio()->0.state()) && same_verdict(second, reply),
            },
    }
}

/// How the backends took a stop that the session answered with `reply`: the
/// audio backend is asked first, the video backend only once it agreed.
pub open spec fn backends_stopped(
    before: &CaptureSession,
    after: &CaptureSession,
    reply: Result<()>,
) -> bool {
    match (before.video(), before.audio()) {
        (None, None) => reply is Ok,
        (Some(video), None) => exists|first: Result<()>| #[trigger]
            video.character().may_stop(video.state(), first, after.video()->0.state()) && same_verdict(first, reply),
        (None, Some(audio)) => exists|first: Result<()>| #[trigger]
            audio.character().may_stop(audio.state(), first, after.audio()->0.state()) && same_verdict(first, reply),
        (Some(video), Some(audio)) => exists|first: Result<()>| #[trigger]
            audio.character().may_stop(audio.state(), first, after.audio()->0.state()) && match first {
                Err(_) => same_verdict(first, reply) && after.video() == before.video(),
                Ok(_) => exists|second: Result<()>| #[trigger]
                    video.character().may_stop(video.state(), second, after.video()->0.state()) && same_verdict(second, reply),
            },
    }
}

/// Both agree, or both refuse with the same error.
pub open spec fn same_verdict(one: Result<()>, other: Result<()>) -> bool {
    match (one, other) {
        (Ok(_), Ok(_)) => true,
        (Err(left), Err(right)) => left == right,
        _ => false,
    }
}

/// What taking an event makes of a session: its backends may move on, nothing
/// else changes.
pub open spec fn event_outcome(
    before: &CaptureSession,
    after: &CaptureSession,
    timeout: Option<Duration>,
    reply: Result<CaptureEvent>,
) -> bool {
    &&& after.same_setup(before)
    &&& after.runs() == before.runs()
    &&& event_taken(before, after, timeout, reply)
}

/// What taking a packet makes of a session: its audio backend may move on,
/// nothing else changes.
pub open spec fn audio_outcome(
    before: &CaptureSession,
    after: &CaptureSession,
    timeout: Option<Duration>,
    reply: Result<AudioFrame>,
) -> bool {
    &&& after.same_setup(before)
    &&& after.runs() == before.runs()
    &&& after.video() == before.video()
    &&& match before.audio() {
        Some(audio) => audio.character().may_yield(
            audio.state(),
            timeout,
            reply,
            after.audio()->0.state(),
        ),
        None => reply == Err::<AudioFrame, PinrayError>(PinrayError::BackendNotSelected),
    }
}

/// Where an event that the session answered with `reply` came from.
pub open spec fn event_taken(
    before: &CaptureSession,
    after: &CaptureSession,
    timeout: Option<Duration>,
    reply: Result<CaptureEvent>,
) -> bool {
    match (before.video(), before.audio()) {
        (None, None) => reply == Err::<CaptureEvent, PinrayError>(PinrayError::BackendNotSelected),
        (Some(video), None) => video.character().may_yield(
            video.state(),
            timeout,
            reply,
            after.video()->0.state(),
        ),
        (None, Some(audio)) => exists|heard: Result<AudioFrame>| #[trigger]
            audio.character().may_yield(audio.state(), timeout, heard, after.audio()->0.state()) && reply
            == as_event(heard),
        (Some(video), Some(audio)) => {
            &&& crate::duration::nanos_of(no_waiting()->0) == 0
            &&& {
                ||| pending_audio_taken(before, after, reply)
                ||| video_awaited(before, after, timeout, reply)
                ||| audio_awaited(before, after, timeout, reply)
            }
        },
    }
}

/// A poll of the audio stream brought the answer; the video stream was not
/// asked.
pub open spec fn pending_audio_taken(
    before: &CaptureSession,
    after: &CaptureSession,
    reply: Result<CaptureEvent>,
) -> bool {
    &&& after.video() == before.video()
    &&& exists|pending: Result<AudioFrame>|
        {
            &&& #[trigger] before.audio()->0.character().may_yield(
                before.audio()->0.state(),
                no_waiting(),
                pending,
                after.audio()->0.state(),
            )
            &&& !crate::error::is_timeout(pending)
            &&& reply == as_event(pending)
        }
}

/// No audio was pending, and the video stream answered in time. The audio
/// stream was polled once.
pub open spec fn video_awaited(
    before: &CaptureSession,
    after: &CaptureSession,
    timeout: Option<Duration>,
    reply: Result<CaptureEvent>,
) -> bool {
    &&& exists|pending: Result<AudioFrame>| #[trigger]
        before.audio()->0.character().may_yield(
            before.audio()->0.state(),
            no_waiting(),
            pending,
            after.audio()->0.state(),
        ) && crate::error::is_timeout(pending)
    &&& before.video()->0.character().may_yield(
        before.video()->0.state(),
        timeout,
        reply,
        after.video()->0.state(),
    )
    &&& !crate::error::is_timeout(reply)
}

/// No audio was pending, the video stream timed out, and the audio stream had
/// the last word: the same stream that was polled, from the state that the poll
/// left it in.
pub open spec fn audio_awaited(
    before: &CaptureSession,
    after: &CaptureSession,
    timeout: Option<Duration>,
    reply: Result<CaptureEvent>,
) -> bool {
    let audio = before.audio()->0.character();
    &&& exists|shown: Result<CaptureEvent>| #[trigger]
        before.video()->0.character().may_yield(
            before.video()->0.state(),
            timeout,
            shown,
            after.video()->0.state(),
        ) && crate::error::is_timeout(shown)
    &&& exists|pending: Result<AudioFrame>, polled: int, heard: Result<AudioFrame>|
        {
            &&& #[trigger] audio.may_yield(
                before.audio()->0.state(),
                no_waiting(),
                pending,
                polled,
            )
            &&& crate::error::is_timeout(pending)
            &&& #[trigger] audio.may_yield(polled, timeout, heard, after.audio()->0.state())
            &&& reply == as_event(heard)
        }
}

/// Starting a session that has been started changes nothing.
pub proof fn starting_twice_is_starting_once(
    before: &CaptureSession,
    started: &CaptureSession,
    again: &CaptureSession,
    first: Result<()>,
    second: Result<()>,
)
    requires
        start_outcome(before, started, first),
        first is Ok,
        start_outcome(started, again, second),
    ensures
        second is Ok,
        *again == *started,
{
}

/// Stopping a session that has been stopped changes nothing.
pub proof fn stopping_twice_is_stopping_once(
    before: &CaptureSession,
    stopped: &CaptureSession,
    again: &CaptureSession,
    first: Result<()>,
    second: Result<()>,
)
    requires
        stop_outcome(before, stopped, first),
        first is Ok,
        stop_outcome(stopped, again, second),
    ensures
        second is Ok,
        *again == *stopped,
{
}

/// Once a session has been started and stopped, a start asks the backends anew,
/// and the session runs again if they agree.
pub proof fn a_stopped_session_starts_again(
    before: &CaptureSession,
    started: &CaptureSession,
    stopped: &CaptureSession,
    again: &CaptureSession,
    first: Result<()>,
    second: Result<()>,
    third: Result<()>,
)
    requires
        start_outcome(before, started, first),
        first is Ok,
        stop_outcome(started, stopped, second),
        second is Ok,
        start_outcome(stopped, again, third),
    ensures
        !stopped.runs(),
        again.same_setup(before),
        backends_started(stopped, again, third),
        third is Ok <==> again.runs(),
{
}

impl CaptureSession {
    /// The backends of the session agree to every start and to every stop.
    pub open spec fn is_agreeable(&self) -> bool {
        &&& self.video() matches Some(video) ==> {
            &&& forall|state: int, reply: Result<()>, after: int| #[trigger]
                video.character().may_start(state, reply, after) ==> reply is Ok
            &&& forall|state: int, reply: Result<()>, after: int| #[trigger]
                video.character().may_stop(state, reply, after) ==> reply is Ok
        }
        &&& self.audio() matches Some(audio) ==> {
            &&& forall|state: int, reply: Result<()>, after: int| #[trigger]
                audio.character().may_start(state, reply, after) ==> reply is Ok
            &&& forall|state: int, reply: Result<()>, after: int| #[trigger]
                audio.character().may_stop(state, reply, after) ==> reply is Ok
        }
    }

    /// On the way from `self` to `after` every backend was started once, and
    /// agreed.
    pub open spec fn is_started_as(&self, after: &CaptureSession) -> bool {
        &&& self.video() matches Some(video) ==> exists|reply: Result<()>| #[trigger]
            video.character().may_start(video.state(), reply, after.video()->0.state())
                && reply is Ok
        &&& self.audio() matches Some(audio) ==> exists|reply: Result<()>| #[trigger]
            audio.character().may_start(audio.state(), reply, after.audio()->0.state())
                && reply is Ok
    }

    /// On the way from `self` to `after` every backend was stopped once, and
    /// agreed.
    pub open spec fn is_stopped_as(&self, after: &CaptureSession) -> bool {
        &&& self.video() matches Some(video) ==> exists|reply: Result<()>| #[trigger]
            video.character().may_stop(video.state(), reply, after.video()->0.state())
                && reply is Ok
        &&& self.audio() matches Some(audio) ==> exists|reply: Result<()>| #[trigger]
            audio.character().may_stop(audio.state(), reply, after.audio()->0.state())
                && reply is Ok
    }
}

/// Call number `turn` on a session that is started and stopped in turns, a start
/// being the first.
pub open spec fn is_turn(sessions: Seq<CaptureSession>, replies: Seq<Result<()>>, turn: int) -> bool {
    if turn % 2 == 0 {
        start_outcome(&sessions[turn], &sessions[turn + 1], replies[turn])
    } else {
        stop_outcome(&sessions[turn], &sessions[turn + 1], replies[turn])
    }
}

/// A session survives restarts, as many as there may be: if its backends agree
/// to every start and stop, a stopped session that is started and stopped in
/// turns agrees every time. It runs behind every start and not behind a stop,
/// and every backend it has is started and stopped in the same turns.
pub proof fn sessions_survive_restarts(
    sessions: Seq<CaptureSession>,
    replies: Seq<Result<()>>,
    turn: int,
)
    requires
        sessions.len() == replies.len() + 1,
        !sessions[0].runs(),
        sessions[0].is_agreeable(),
        forall|i: int| 0 <= i < replies.len() ==> #[trigger] is_turn(sessions, replies, i),
        0 <= turn < replies.len(),
    ensures
        replies[turn] is Ok,
        sessions[turn + 1].runs() == (turn % 2 == 0),
        sessions[turn + 1].same_setup(&sessions[0]),
        turn % 2 == 0 ==> sessions[turn].is_started_as(&sessions[turn + 1]),
        turn % 2 == 1 ==> sessions[turn].is_stopped_as(&sessions[turn + 1]),
    decreases turn,
{
    if turn > 0 {
        sessions_survive_restarts(sessions, replies, turn - 1);
    }
    assert(is_turn(sessions, replies, turn));
    assert(sessions[turn].is_agreeable());
}

/// A call on a session, with its answer.
pub enum SessionCall {
    Start(Result<()>),
    Stop(Result<()>),
    NextEvent(Option<Duration>, Result<CaptureEvent>),
    NextAudio(Option<Duration>, Result<AudioFrame>),
}

impl SessionCall {
    /// The call is a start that succeeded.
    pub open spec fn is_started(self) -> bool {
        self matches SessionCall::Start(reply) && reply is Ok
    }

    /// The call is a stop that succeeded.
    pub open spec fn is_stopped(self) -> bool {
        self matches SessionCall::Stop(reply) && reply is Ok
    }
}

/// The call made `after` of the session `before`.
pub open spec fn is_called(
    before: &CaptureSession,
    call: SessionCall,
    after: &CaptureSession,
) -> bool {
    match call {
        SessionCall::Start(reply) => start_outcome(before, after, reply),
        SessionCall::Stop(reply) => stop_outcome(before, after, reply),
        SessionCall::NextEvent(timeout, reply) => event_outcome(before, after, timeout, reply),
        SessionCall::NextAudio(timeout, reply) => audio_outcome(before, after, timeout, reply),
    }
}

/// Whether `calls` were made on a session one after the other; `sessions[i]` is
/// the session before the call `calls[i]`.
pub open spec fn is_history(sessions: Seq<CaptureSession>, calls: Seq<SessionCall>) -> bool {
    &&& sessions.len() == calls.len() + 1
    &&& forall|i: int|
        0 <= i < calls.len() ==> #[trigger] is_called(&sessions[i], calls[i], &sessions[i + 1])
}

/// Whether the latest of the first `turn` calls that started or stopped the
/// session was a start.
pub open spec fn is_started_last(calls: Seq<SessionCall>, turn: int) -> bool {
    exists|i: int|
        0 <= i < turn && (#[trigger] calls[i]).is_started() && forall|j: int|
            i < j < turn ==> !(#[trigger] calls[j]).is_stopped()
}

/// Whatever is called on a session, and however it is answered: the session runs
/// exactly if the latest start or stop that succeeded was a start.
pub proof fn the_latest_start_or_stop_decides(
    sessions: Seq<CaptureSession>,
    calls: Seq<SessionCall>,
    turn: int,
)
    requires
        is_history(sessions, calls),
        !sessions[0].runs(),
        0 <= turn <= calls.len(),
    ensures
        sessions[turn].runs() <==> is_started_last(calls, turn),
    decreases turn,
{
    if turn > 0 {
        the_latest_start_or_stop_decides(sessions, calls, turn - 1);
        let call = calls[turn - 1];
        assert(is_called(&sessions[turn - 1], call, &sessions[turn - 1 + 1]));
        if call.is_started() {
            assert(is_started_last(calls, turn));
        } else if is_started_last(calls, turn - 1) && !call.is_stopped() {
            let i = choose|i: int|
                0 <= i < turn - 1 && (#[trigger] calls[i]).is_started() && forall|j: int|
                    i < j < turn - 1 ==> !(#[trigger] calls[j]).is_stopped();
            assert(calls[i].is_started());
        } else if is_started_last(calls, turn) {
            let i = choose|i: int|
                0 <= i < turn && (#[trigger] calls[i]).is_started() && forall|j: int|
                    i < j < turn ==> !(#[trigger] calls[j]).is_stopped();
            assert(i < turn - 1);
            assert(is_started_last(calls, turn - 1));
        }
    }
}

/// Whatever is called on a session, its configuration and its description stay
/// what they were, and so do its backends.
pub proof fn sessions_keep_their_setup(
    sessions: Seq<CaptureSession>,
    calls: Seq<SessionCall>,
    turn: int,
)
    requires
        is_history(sessions, calls),
        0 <= turn <= calls.len(),
    ensures
        sessions[turn].configured() == sessions[0].configured(),
        sessions[turn].described() == sessions[0].described(),
        sessions[turn].same_setup(&sessions[0]),
    decreases turn,
{
    if turn > 0 {
        sessions_keep_their_setup(sessions, calls, turn - 1);
        assert(is_called(&sessions[turn - 1], calls[turn - 1], &sessions[turn - 1 + 1]));
    }
}

/// Pending audio goes first: where the audio backend has something to say to a
/// poll, that is the event, and the video backend is not even asked, however
/// busy it is.
pub proof fn busy_video_cannot_starve_audio(
    before: &CaptureSession,
    after: &CaptureSession,
    timeout: Option<Duration>,
    reply: Result<CaptureEvent>,
)
    requires
        event_outcome(before, after, timeout, reply),
        before.video() is Some,
        before.audio() is Some,
        forall|pending: Result<AudioFrame>, state: int| #[trigger]
            before.audio()->0.character().may_yield(
                before.audio()->0.state(),
                no_waiting(),
                pending,
                state,
            ) ==> !crate::error::is_timeout(pending),
    ensures
        pending_audio_taken(before, after, reply),
        after.video() == before.video(),
{
}

/// The backend is a queue of packets, and its state the number of them: it
/// hands out one after the other, and times out at once when there are none.
pub open spec fn is_packet_queue(audio: crate::backend::AudioCharacter) -> bool {
    forall|state: int, timeout: Option<Duration>, reply: Result<AudioFrame>, after: int| #[trigger]
        audio.may_yield(state, timeout, reply, after) ==> if state > 0 {
            reply is Ok && after == state - 1
        } else {
            crate::error::is_timeout(reply) && after == state
        }
}

/// The backend has a picture whenever it is asked.
pub open spec fn is_busy(video: crate::backend::VideoCharacter) -> bool {
    forall|state: int, timeout: Option<Duration>, reply: Result<CaptureEvent>, after: int| #[trigger]
        video.may_yield(state, timeout, reply, after) ==> reply matches Ok(CaptureEvent::Video(_))
}

/// Event number `turn` of a session.
pub open spec fn is_event(
    sessions: Seq<CaptureSession>,
    timeout: Option<Duration>,
    replies: Seq<Result<CaptureEvent>>,
    turn: int,
) -> bool {
    event_outcome(&sessions[turn], &sessions[turn + 1], timeout, replies[turn])
}

/// A busy video stream does not hold up queued audio, nor does audio hold up
/// the video stream: the packets come first, all of them and in a row, and
/// pictures from then on.
pub proof fn queued_packets_go_first(
    sessions: Seq<CaptureSession>,
    timeout: Option<Duration>,
    replies: Seq<Result<CaptureEvent>>,
    turn: int,
)
    requires
        sessions.len() == replies.len() + 1,
        sessions[0].video() is Some,
        sessions[0].audio() is Some,
        is_busy(sessions[0].video()->0.character()),
        is_packet_queue(sessions[0].audio()->0.character()),
        sessions[0].audio()->0.state() >= 0,
        forall|i: int| 0 <= i < replies.len() ==> #[trigger] is_event(sessions, timeout, replies, i),
        0 <= turn < replies.len(),
    ensures
        ({
            let queued = sessions[0].audio()->0.state();
            &&& turn < queued ==> (replies[turn] matches Ok(CaptureEvent::Audio(_)))
            &&& turn >= queued ==> (replies[turn] matches Ok(CaptureEvent::Video(_)))
        }),
        sessions[turn + 1].same_setup(&sessions[0]),
        sessions[turn + 1].audio()->0.state() == crate::numbers::larger(
            sessions[0].audio()->0.state() - turn - 1,
            0,
        ),
    decreases turn,
{
    if turn > 0 {
        queued_packets_go_first(sessions, timeout, replies, turn - 1);
    }
    assert(is_event(sessions, timeout, replies, turn));
}

/// A session of two streams reports a timeout only when both streams had
/// nothing: the audio stream at once, and both within the caller's timeout.
pub proof fn a_timeout_means_both_streams_were_silent(
    before: &CaptureSession,
    after: &CaptureSession,
    timeout: Option<Duration>,
    reply: Result<CaptureEvent>,
)
    requires
        event_outcome(before, after, timeout, reply),
        before.video() is Some,
        before.audio() is Some,
        crate::error::is_timeout(reply),
    ensures
        audio_awaited(before, after, timeout, reply),
{
}

/// Collects a session's configuration.
#[derive(Debug, Clone)]
pub struct SessionBuilder {
    config: SessionConfig,
}

impl Default for SessionBuilder {
    fn default() -> (builder: Self)
        ensures
            builder.configured() == crate::config::default_config(),
    {
        SessionBuilder { config: SessionConfig::default() }
    }
}

impl SessionBuilder {
    pub closed spec fn configured(&self) -> SessionConfig {
        self.config
    }

    pub fn new() -> (builder: Self)
        ensures
            builder.configured() == crate::config::default_config(),
    {
        SessionBuilder { config: SessionConfig::default() }
    }

    pub fn config(&self) -> (config: &SessionConfig)
        ensures
            *config == self.configured(),
    {
        &self.config
    }

    pub fn backend_preference(self, backend_preference: BackendPreference) -> (builder: Self)
        ensures
            builder.configured() == (SessionConfig { backend_preference, ..self.configured() }),
    {
        let mut config: SessionConfig = self.config;
        config.backend_preference = backend_preference;
        SessionBuilder { config }
    }

    pub fn video_target(self, target: VideoCaptureTarget) -> (builder: Self)
        ensures
            builder.configured() == (SessionConfig {
                video_target: Some(target),
                ..self.configured()
            }),
    {
        let mut config: SessionConfig = self.config;
        config.video_target = Some(target);
        SessionBuilder { config }
    }

    pub fn audio(self, audio_capture: AudioCapture) -> (builder: Self)
        ensures
            builder.configured() == (SessionConfig {
                audio_capture: Some(audio_capture),
                ..self.configured()
            }),
    {
        let mut config: SessionConfig = self.config;
        config.audio_capture = Some(audio_capture);
        SessionBuilder { config }
    }

    pub fn pixel_format(self, pixel_format: PixelFormat) -> (builder: Self)
        ensures
            builder.configured() == (SessionConfig { pixel_format, ..self.configured() }),
    {
        let mut config: SessionConfig = self.config;
        config.pixel_format = pixel_format;
        SessionBuilder { config }
    }

    pub fn restore_token<V: Into<String>>(self, restore_token: V) -> (builder: Self)
        ensures
            builder.configured().restore_token matches Some(token) && call_ensures(
                <V as Into<String>>::into,
                (restore_token,),
                token,
            ),
            builder.configured() == (SessionConfig {
                restore_token: builder.configured().restore_token,
                ..self.configured()
            }),
    {
        let mut config: SessionConfig = self.config;
        config.restore_token = Some(restore_token.into());
        SessionBuilder { config }
    }

    pub fn color_space(self, color_space: Option<ColorSpace>) -> (builder: Self)
        ensures
            builder.configured() == (SessionConfig { color_space, ..self.configured() }),
    {
        let mut config: SessionConfig = self.config;
        config.color_space = color_space;
        SessionBuilder { config }
    }

    pub fn cursor_mode(self, cursor_mode: CursorMode) -> (builder: Self)
        ensures
            builder.configured() == (SessionConfig { cursor_mode, ..self.configured() }),
    {
        let mut config: SessionConfig = self.config;
        config.cursor_mode = cursor_mode;
        SessionBuilder { config }
    }

    pub fn crop_rect(self, crop_rect: Option<Rect>) -> (builder: Self)
        ensures
            builder.configured() == (SessionConfig { crop_rect, ..self.configured() }),
    {
        let mut config: SessionConfig = self.config;
        config.crop_rect = crop_rect;
        SessionBuilder { config }
    }

    pub fn frame_rate(self, frame_rate: Option<u32>) -> (builder: Self)
        ensures
            builder.configured() == (SessionConfig { frame_rate, ..self.configured() }),
    {
        let mut config: SessionConfig = self.config;
        config.frame_rate = frame_rate;
        SessionBuilder { config }
    }

    pub fn queue_depth(self, queue_depth: u32) -> (builder: Self)
        ensures
            builder.configured() == (SessionConfig { queue_depth, ..self.configured() }),
    {
        let mut config: SessionConfig = self.config;
        config.queue_depth = queue_depth;
        SessionBuilder { config }
    }

    /// Validates the configuration, asks `resolver` for the backends of a
    /// valid one, and makes a session of what it gives.
    pub fn build_with_resolver<R: BackendResolver>(self, resolver: &R) -> (built: Result<
        CaptureSession,
    >)
        ensures
            build_outcome(self.configured(), *resolver, built),
    {
        if let Err(error) = self.config.validate() {
            return Err(error);
        }
        match resolver.resolve(&self.config) {
            Ok(bundle) => Ok(CaptureSession::new(self.config, bundle)),
            Err(error) => Err(error),
        }
    }
}

/// A session made of a configuration and the backends found for it.
pub open spec fn session_of(
    session: CaptureSession,
    config: SessionConfig,
    bundle: BackendBundle,
) -> bool {
    &&& session.configured() == config
    &&& session.described() == bundle.info
    &&& session.video() == bundle.video
    &&& session.audio() == bundle.audio
    &&& !session.runs()
}

/// What comes of building a session: the first complaint about the
/// configuration, the resolver's refusal, or a stopped session of the backends
/// that the resolver found.
pub open spec fn build_outcome<R: BackendResolver>(
    config: SessionConfig,
    resolver: R,
    built: Result<CaptureSession>,
) -> bool {
    match config.first_complaint() {
        Some(text) => crate::error::is_invalid_config(built, text),
        None => exists|found: Result<BackendBundle>| #[trigger]
            resolver.resolves(config, found) && match (found, built) {
                (Ok(bundle), Ok(session)) => session_of(session, config, bundle),
                (Err(refusal), Err(error)) => error == refusal,
                _ => false,
            },
    }
}

/// Nothing is built of a configuration that breaks a rule: the answer is the
/// first rule that it breaks, and no backend is asked for.
pub proof fn invalid_configurations_build_nothing<R: BackendResolver>(
    config: SessionConfig,
    resolver: R,
    built: Result<CaptureSession>,
)
    requires
        build_outcome(config, resolver, built),
        !config.is_valid(),
    ensures
        built matches Err(PinrayError::InvalidConfig(_)),
{
}

/// A session is built stopped, with the configuration it was asked for.
pub proof fn sessions_are_built_stopped<R: BackendResolver>(
    config: SessionConfig,
    resolver: R,
    built: Result<CaptureSession>,
)
    requires
        build_outcome(config, resolver, built),
        built is Ok,
    ensures
        config.is_valid(),
        !built->Ok_0.runs(),
        built->Ok_0.configured() == config,
{
}

/// Whatever streams a session has, every wait on one of them is made with the
/// caller's timeout, or is a poll: if `fine` holds of every answer that the
/// streams may give to that timeout, and of what they may answer to a poll, it
/// holds of the session's answer. What they would answer to any other timeout,
/// or to none, does not matter. Silence of the video stream, or in answer to a
/// poll, is no answer while there is an audio stream left to wait for.
pub proof fn waits_are_made_with_the_callers_timeout(
    session: &mut CaptureSession,
    timeout: Option<Duration>,
    reply: Result<CaptureEvent>,
    fine: spec_fn(Result<CaptureEvent>) -> bool,
)
    requires
        call_ensures(CaptureSession::next_event, (session, timeout), reply),
        old(session).video() is Some || old(session).audio() is Some,
        old(session).video() matches Some(video) ==> forall|
            state: int,
            shown: Result<CaptureEvent>,
            after: int,
        |
            #[trigger] (video.character().yields)(state, timeout, shown, after) ==> fine(shown) || (
            old(session).audio() is Some && shown matches Err(PinrayError::Timeout(_))),
        old(session).audio() matches Some(audio) ==> forall|
            state: int,
            heard: Result<AudioFrame>,
            after: int,
        |
            #[trigger] (audio.character().yields)(state, timeout, heard, after) ==> match heard {
                Ok(frame) => fine(Ok(CaptureEvent::Audio(frame))),
                Err(error) => fine(Err(error)),
            },
        old(session).audio() matches Some(audio) ==> forall|
            state: int,
            limit: Duration,
            heard: Result<AudioFrame>,
            after: int,
        |
            #[trigger] (audio.character().yields)(state, Some(limit), heard, after)
                && crate::duration::nanos_of(limit) == 0 ==> match heard {
                Ok(frame) => fine(Ok(CaptureEvent::Audio(frame))),
                Err(PinrayError::Timeout(_)) => true,
                Err(error) => fine(Err(error)),
            },
    ensures
        fine(reply),
{
}

/// A session with a video stream alone, or an audio stream alone, that answers
/// the caller's timeout in time, with an event or with that very timeout,
/// answers so itself.
pub proof fn a_timeout_is_the_callers_own(
    session: &mut CaptureSession,
    limit: Duration,
    reply: Result<CaptureEvent>,
)
    requires
        call_ensures(CaptureSession::next_event, (session, Some(limit)), reply),
        old(session).video() is Some <==> old(session).audio() is None,
        old(session).video() matches Some(video) ==> forall|
            state: int,
            shown: Result<CaptureEvent>,
            after: int,
        |
            #[trigger] (video.character().yields)(state, Some(limit), shown, after)
                ==> shown is Ok || shown == Err::<CaptureEvent, PinrayError>(
                PinrayError::Timeout(limit),
            ),
        old(session).audio() matches Some(audio) ==> forall|
            state: int,
            heard: Result<AudioFrame>,
            after: int,
        |
            #[trigger] (audio.character().yields)(state, Some(limit), heard, after)
                ==> heard is Ok || heard == Err::<AudioFrame, PinrayError>(
                PinrayError::Timeout(limit),
            ),
    ensures
        reply is Ok || reply == Err::<CaptureEvent, PinrayError>(PinrayError::Timeout(limit)),
{
}

/// Audio that has nothing pending does not hold the video stream up, however
/// long it could be waited for: the answer is the video stream's.
pub proof fn silent_audio_is_not_waited_for_first(
    session: &mut CaptureSession,
    timeout: Option<Duration>,
    reply: Result<CaptureEvent>,
    fine: spec_fn(Result<CaptureEvent>) -> bool,
)
    requires
        call_ensures(CaptureSession::next_event, (session, timeout), reply),
        old(session).video() is Some,
        old(session).audio() is Some,
        forall|state: int, limit: Duration, heard: Result<AudioFrame>, after: int|
            #[trigger] (old(session).audio()->0.character().yields)(
                state,
                Some(limit),
                heard,
                after,
            ) && crate::duration::nanos_of(limit) == 0 ==> (heard matches Err(
                PinrayError::Timeout(_),
            )),
        forall|state: int, shown: Result<CaptureEvent>, after: int|
            #[trigger] (old(session).video()->0.character().yields)(state, timeout, shown, after)
                ==> fine(shown) && !(shown matches Err(PinrayError::Timeout(_))),
    ensures
        fine(reply),
{
}

/// Audio that is pending is the answer, and the video stream is not asked.
pub proof fn pending_audio_is_the_answer(
    session: &mut CaptureSession,
    timeout: Option<Duration>,
    reply: Result<CaptureEvent>,
    fine: spec_fn(Result<AudioFrame>) -> bool,
)
    requires
        call_ensures(CaptureSession::next_event, (session, timeout), reply),
        old(session).video() is Some,
        old(session).audio() is Some,
        forall|state: int, limit: Duration, heard: Result<AudioFrame>, after: int|
            #[trigger] (old(session).audio()->0.character().yields)(
                state,
                Some(limit),
                heard,
                after,
            ) && crate::duration::nanos_of(limit) == 0 ==> fine(heard) && !(heard matches Err(
                PinrayError::Timeout(_),
            )),
    ensures
        final(session).video() == old(session).video(),
        match reply {
            Ok(CaptureEvent::Audio(frame)) => fine(Ok(frame)),
            Ok(_) => false,
            Err(error) => fine(Err(error)),
        },
{
}

/// Once nothing was pending and the video stream was silent, the audio stream
/// has the last word, with the caller's timeout.
pub proof fn silent_video_leaves_the_word_to_audio(
    session: &mut CaptureSession,
    timeout: Option<Duration>,
    reply: Result<CaptureEvent>,
    fine: spec_fn(Result<AudioFrame>) -> bool,
)
    requires
        call_ensures(CaptureSession::next_event, (session, timeout), reply),
        old(session).video() is Some,
        old(session).audio() is Some,
        forall|state: int, shown: Result<CaptureEvent>, after: int|
            #[trigger] (old(session).video()->0.character().yields)(state, timeout, shown, after)
                ==> (shown matches Err(PinrayError::Timeout(_))),
        forall|state: int, limit: Duration, heard: Result<AudioFrame>, after: int|
            #[trigger] (old(session).audio()->0.character().yields)(
                state,
                Some(limit),
                heard,
                after,
            ) && crate::duration::nanos_of(limit) == 0 ==> fine(heard) || (heard matches Err(
                PinrayError::Timeout(_),
            )),
        forall|state: int, heard: Result<AudioFrame>, after: int|
            #[trigger] (old(session).audio()->0.character().yields)(state, timeout, heard, after)
                ==> fine(heard),
    ensures
        match reply {
            Ok(CaptureEvent::Audio(frame)) => fine(Ok(frame)),
            Ok(_) => false,
            Err(error) => fine(Err(error)),
        },
{
}

/// A session without streams has nothing to answer with, and says so.
pub proof fn sessions_without_streams_have_no_events(
    session: &mut CaptureSession,
    timeout: Option<Duration>,
    reply: Result<CaptureEvent>,
)
    requires
        call_ensures(CaptureSession::next_event, (session, timeout), reply),
        old(session).video() is None,
        old(session).audio() is None,
    ensures
        reply == Err::<CaptureEvent, PinrayError>(PinrayError::BackendNotSelected),
{
}

/// A packet is the audio stream's answer to the caller's timeout; the video
/// stream is not asked for one, and cannot give one.
pub proof fn packets_come_from_the_audio_stream(
    session: &mut CaptureSession,
    timeout: Option<Duration>,
    reply: Result<AudioFrame>,
)
    requires
        call_ensures(CaptureSession::next_audio, (session, timeout), reply),
    ensures
        final(session).video() == old(session).video(),
        final(session).runs() == old(session).runs(),
        match old(session).audio() {
            Some(audio) => (audio.character().yields)(
                audio.state(),
                timeout,
                reply,
                final(session).audio()->0.state(),
            ),
            None => reply == Err::<AudioFrame, PinrayError>(PinrayError::BackendNotSelected),
        },
{
}

/// The video stream is started first. If it refuses, its error is the answer,
/// the audio stream is not touched, and the session does not run.
pub proof fn a_start_that_video_refuses_stops_there(
    session: &mut CaptureSession,
    reply: Result<()>,
    fine: spec_fn(PinrayError) -> bool,
)
    requires
        call_ensures(CaptureSession::start, (session,), reply),
        !old(session).runs(),
        old(session).video() is Some,
        forall|state: int, verdict: Result<()>, after: int|
            #[trigger] (old(session).video()->0.character().starts)(state, verdict, after)
                ==> verdict is Err && fine(verdict->Err_0),
    ensures
        reply is Err && fine(reply->Err_0),
        final(session).audio() == old(session).audio(),
        !final(session).runs(),
{
}

/// A video stream that agrees to a start does not settle it: an audio stream
/// that refuses does, with its own error.
pub proof fn a_start_that_audio_refuses_fails(
    session: &mut CaptureSession,
    reply: Result<()>,
    fine: spec_fn(PinrayError) -> bool,
)
    requires
        call_ensures(CaptureSession::start, (session,), reply),
        !old(session).runs(),
        old(session).audio() is Some,
        old(session).video() matches Some(video) ==> forall|
            state: int,
            verdict: Result<()>,
            after: int,
        | #[trigger] (video.character().starts)(state, verdict, after) ==> verdict is Ok,
        forall|state: int, verdict: Result<()>, after: int|
            #[trigger] (old(session).audio()->0.character().starts)(state, verdict, after)
                ==> verdict is Err && fine(verdict->Err_0),
    ensures
        reply is Err && fine(reply->Err_0),
        !final(session).runs(),
{
}

/// A session that does not run, and whose streams agree, is started by starting
/// each of them, and runs from then on.
pub proof fn a_start_that_all_agree_to_starts_all(session: &mut CaptureSession, reply: Result<()>)
    requires
        call_ensures(CaptureSession::start, (session,), reply),
        !old(session).runs(),
        old(session).video() matches Some(video) ==> forall|
            state: int,
            verdict: Result<()>,
            after: int,
        | #[trigger] (video.character().starts)(state, verdict, after) ==> verdict is Ok,
        old(session).audio() matches Some(audio) ==> forall|
            state: int,
            verdict: Result<()>,
            after: int,
        | #[trigger] (audio.character().starts)(state, verdict, after) ==> verdict is Ok,
    ensures
        reply is Ok,
        final(session).runs(),
        old(session).video() matches Some(video) ==> (video.character().starts)(
            video.state(),
            Ok(()),
            final(session).video()->0.state(),
        ),
        old(session).audio() matches Some(audio) ==> (audio.character().starts)(
            audio.state(),
            Ok(()),
            final(session).audio()->0.state(),
        ),
{
    if let Some(video) = old(session).video() {
        let ghost verdict = choose|verdict: Result<()>|
            (#[trigger] video.character().may_start(
                video.state(),
                verdict,
                final(session).video()->0.state(),
            )) && verdict is Ok;
        assert(video.character().may_start(video.state(), verdict, final(session).video()->0.state()));
        assert(verdict->Ok_0 == ());
    }
    if let Some(audio) = old(session).audio() {
        let ghost verdict = choose|verdict: Result<()>|
            (#[trigger] audio.character().may_start(
                audio.state(),
                verdict,
                final(session).audio()->0.state(),
            )) && verdict is Ok;
        assert(audio.character().may_start(audio.state(), verdict, final(session).audio()->0.state()));
        assert(verdict->Ok_0 == ());
    }
}

/// The audio stream is stopped first. If it refuses, its error is the answer,
/// the video stream is not touched, and the session runs on.
pub proof fn a_stop_that_audio_refuses_stops_there(
    session: &mut CaptureSession,
    reply: Result<()>,
    fine: spec_fn(PinrayError) -> bool,
)
    requires
        call_ensures(CaptureSession::stop, (session,), reply),
        old(session).runs(),
        old(session).audio() is Some,
        forall|state: int, verdict: Result<()>, after: int|
            #[trigger] (old(session).audio()->0.character().stops)(state, verdict, after)
                ==> verdict is Err && fine(verdict->Err_0),
    ensures
        reply is Err && fine(reply->Err_0),
        final(session).video() == old(session).video(),
        final(session).runs(),
{
}

/// A video stream that refuses to stop keeps the session running, though the
/// audio stream agreed.
pub proof fn a_stop_that_video_refuses_fails(
    session: &mut CaptureSession,
    reply: Result<()>,
    fine: spec_fn(PinrayError) -> bool,
)
    requires
        call_ensures(CaptureSession::stop, (session,), reply),
        old(session).runs(),
        old(session).video() is Some,
        old(session).audio() matches Some(audio) ==> forall|
            state: int,
            verdict: Result<()>,
            after: int,
        | #[trigger] (audio.character().stops)(state, verdict, after) ==> verdict is Ok,
        forall|state: int, verdict: Result<()>, after: int|
            #[trigger] (old(session).video()->0.character().stops)(state, verdict, after)
                ==> verdict is Err && fine(verdict->Err_0),
    ensures
        reply is Err && fine(reply->Err_0),
        final(session).runs(),
{
}

/// A session that runs, and whose streams agree, is stopped by stopping each of
/// them.
pub proof fn a_stop_that_all_agree_to_stops_all(session: &mut CaptureSession, reply: Result<()>)
    requires
        call_ensures(CaptureSession::stop, (session,), reply),
        old(session).runs(),
        old(session).video() matches Some(video) ==> forall|
            state: int,
            verdict: Result<()>,
            after: int,
        | #[trigger] (video.character().stops)(state, verdict, after) ==> verdict is Ok,
        old(session).audio() matches Some(audio) ==> forall|
            state: int,
            verdict: Result<()>,
            after: int,
        | #[trigger] (audio.character().stops)(state, verdict, after) ==> verdict is Ok,
    ensures
        reply is Ok,
        !final(session).runs(),
        old(session).video() matches Some(video) ==> (video.character().stops)(
            video.state(),
            Ok(()),
            final(session).video()->0.state(),
        ),
        old(session).audio() matches Some(audio) ==> (audio.character().stops)(
            audio.state(),
            Ok(()),
            final(session).audio()->0.state(),
        ),
{
    if let Some(video) = old(session).video() {
        let ghost verdict = choose|verdict: Result<()>|
            (#[trigger] video.character().may_stop(
                video.state(),
                verdict,
                final(session).video()->0.state(),
            )) && verdict is Ok;
        assert(video.character().may_stop(video.state(), verdict, final(session).video()->0.state()));
        assert(verdict->Ok_0 == ());
    }
    if let Some(audio) = old(session).audio() {
        let ghost verdict = choose|verdict: Result<()>|
            (#[trigger] audio.character().may_stop(
                audio.state(),
                verdict,
                final(session).audio()->0.state(),
            )) && verdict is Ok;
        assert(audio.character().may_stop(audio.state(), verdict, final(session).audio()->0.state()));
        assert(verdict->Ok_0 == ());
    }
}

/// A start of a session that runs, and a stop of one that does not, are granted
/// without asking anyone, and change nothing.
pub proof fn repeated_starts_and_stops_change_nothing(
    session: &mut CaptureSession,
    reply: Result<()>,
)
    requires
        call_ensures(CaptureSession::start, (session,), reply) && old(session).runs()
            || call_ensures(CaptureSession::stop, (session,), reply) && !old(session).runs(),
    ensures
        reply is Ok,
        *final(session) == *old(session),
{
}

/// A session is made stopped, with the configuration and the backends that it is
/// made of, and tells them.
pub proof fn sessions_tell_what_they_are_made_of(
    config: SessionConfig,
    bundle: BackendBundle,
    session: CaptureSession,
    told_config: &SessionConfig,
    told_info: &BackendInfo,
    told_running: bool,
)
    requires
        call_ensures(CaptureSession::new, (config, bundle), session),
        call_ensures(CaptureSession::config, (&session,), told_config),
        call_ensures(CaptureSession::backend_info, (&session,), told_info),
        call_ensures(CaptureSession::is_running, (&session,), told_running),
    ensures
        *told_config == config,
        *told_info == bundle.info,
        !told_running,
        session.video() == bundle.video,
        session.audio() == bundle.audio,
{
}

/// A session says that it runs behind a start that succeeded, and that it does
/// not behind a stop that did.
pub proof fn sessions_tell_whether_they_run(
    session: &mut CaptureSession,
    reply: Result<()>,
    told: bool,
)
    requires
        reply is Ok,
        call_ensures(CaptureSession::is_running, (final(session),), told),
    ensures
        call_ensures(CaptureSession::start, (session,), reply) ==> told,
        call_ensures(CaptureSession::stop, (session,), reply) ==> !told,
{
}

/// The token that a session hands out is its video stream's; without one there
/// is none.
pub proof fn the_restore_token_is_the_video_streams(
    session: CaptureSession,
    token: Option<String>,
)
    requires
        call_ensures(CaptureSession::restore_token, (&session,), token),
    ensures
        match session.video() {
            Some(video) => (video.character().remembers)(video.state(), token),
            None => token is None,
        },
{
}

/// Every setting of a builder goes where it says, and touches no other.
pub proof fn settings_go_where_they_say(
    builder: SessionBuilder,
    before: &SessionConfig,
    changed: SessionBuilder,
    after: &SessionConfig,
    backend_preference: BackendPreference,
    target: VideoCaptureTarget,
    audio: AudioCapture,
    pixel_format: PixelFormat,
    color_space: Option<ColorSpace>,
    cursor_mode: CursorMode,
    crop_rect: Option<Rect>,
    frame_rate: Option<u32>,
    queue_depth: u32,
)
    requires
        call_ensures(SessionBuilder::config, (&builder,), before),
        call_ensures(SessionBuilder::config, (&changed,), after),
    ensures
        call_ensures(SessionBuilder::backend_preference, (builder, backend_preference), changed)
            ==> *after == (SessionConfig { backend_preference, ..*before }),
        call_ensures(SessionBuilder::video_target, (builder, target), changed) ==> *after == (
        SessionConfig { video_target: Some(target), ..*before }),
        call_ensures(SessionBuilder::audio, (builder, audio), changed) ==> *after == (
        SessionConfig { audio_capture: Some(audio), ..*before }),
        call_ensures(SessionBuilder::pixel_format, (builder, pixel_format), changed) ==> *after
            == (SessionConfig { pixel_format, ..*before }),
        call_ensures(SessionBuilder::color_space, (builder, color_space), changed) ==> *after == (
        SessionConfig { color_space, ..*before }),
        call_ensures(SessionBuilder::cursor_mode, (builder, cursor_mode), changed) ==> *after == (
        SessionConfig { cursor_mode, ..*before }),
        call_ensures(SessionBuilder::crop_rect, (builder, crop_rect), changed) ==> *after == (
        SessionConfig { crop_rect, ..*before }),
        call_ensures(SessionBuilder::frame_rate, (builder, frame_rate), changed) ==> *after == (
        SessionConfig { frame_rate, ..*before }),
        call_ensures(SessionBuilder::queue_depth, (builder, queue_depth), changed) ==> *after == (
        SessionConfig { queue_depth, ..*before }),
{
}

/// A builder starts from a configuration that asks for nothing yet, and for the
/// rest for what suits most: any backend, BGRA in sRGB, the cursor in the
/// picture, all of it, sixty times a second, with room for two frames.
pub proof fn builders_start_from_the_defaults(builder: SessionBuilder, config: &SessionConfig)
    requires
        call_ensures(SessionBuilder::new, (), builder),
        call_ensures(SessionBuilder::config, (&builder,), config),
    ensures
        config.backend_preference == BackendPreference::Auto,
        config.video_target is None,
        config.audio_capture is None,
        config.restore_token is None,
        config.pixel_format == PixelFormat::Bgra8888,
        config.color_space == Some(ColorSpace::Srgb),
        config.cursor_mode == CursorMode::Embedded,
        config.crop_rect is None,
        config.frame_rate == Some(60u32),
        config.queue_depth == 2,
{
}

/// What is built is a stopped session of the backends that the resolver found
/// for the configuration that was collected; what the resolver refuses is
/// refused with the same error.
pub proof fn sessions_are_built_of_what_the_resolver_finds<R: BackendResolver>(
    builder: SessionBuilder,
    config: &SessionConfig,
    resolver: &R,
    built: Result<CaptureSession>,
    fine: spec_fn(Result<BackendBundle>) -> bool,
)
    requires
        call_ensures(SessionBuilder::config, (&builder,), config),
        call_ensures(SessionBuilder::build_with_resolver, (builder, resolver), built),
        config.video_target is Some || config.audio_capture is Some,
        config.frame_rate != Some(0u32),
        config.queue_depth > 0,
        config.crop_rect matches Some(rect) ==> rect.width > 0 && rect.height > 0,
        forall|found: Result<BackendBundle>| #[trigger]
            resolver.resolves(*config, found) ==> fine(found),
    ensures
        match built {
            Ok(session) => {
                &&& session.configured() == *config
                &&& !session.runs()
                &&& exists|bundle: BackendBundle|
                    {
                        &&& #[trigger] fine(Ok(bundle))
                        &&& session.described() == bundle.info
                        &&& session.video() == bundle.video
                        &&& session.audio() == bundle.audio
                    }
            },
            Err(error) => fine(Err(error)),
        },
{
    let found = choose|found: Result<BackendBundle>| #[trigger]
        resolver.resolves(*config, found) && match (found, built) {
            (Ok(bundle), Ok(session)) => session_of(session, *config, bundle),
            (Err(refusal), Err(error)) => error == refusal,
            _ => false,
        };
    assert(fine(found));
}

/// The stream's answer is the session's, packets as events.
pub open spec fn is_passed_on(heard: Result<AudioFrame>, reply: Result<CaptureEvent>) -> bool {
    match heard {
        Ok(frame) => reply == Ok::<CaptureEvent, PinrayError>(CaptureEvent::Audio(frame)),
        Err(error) => reply == Err::<CaptureEvent, PinrayError>(error),
    }
}

/// Every answer of a stream is heeded, and none is asked for twice: a stream
/// alone is asked once, with the caller's timeout. Of two, audio is polled; what
/// it has is the answer, and video is left alone. If it has nothing, video is
/// asked with the caller's timeout, and if that brings nothing either, audio is
/// asked again from where the poll left it, with the same timeout.
pub proof fn every_answer_is_heeded(
    session: &mut CaptureSession,
    timeout: Option<Duration>,
    reply: Result<CaptureEvent>,
)
    requires
        call_ensures(CaptureSession::next_event, (session, timeout), reply),
    ensures
        final(session).runs() == old(session).runs(),
        old(session).video() matches Some(video) ==> (old(session).audio() is None ==> (
        video.character().yields)(video.state(), timeout, reply, final(session).video()->0.state())),
        old(session).audio() matches Some(audio) ==> (old(session).video() is None ==> exists|
            heard: Result<AudioFrame>,
        |
            #[trigger] (audio.character().yields)(
                audio.state(),
                timeout,
                heard,
                final(session).audio()->0.state(),
            ) && is_passed_on(heard, reply)),
        old(session).video() matches Some(video) ==> (old(session).audio() matches Some(audio)
            ==> exists|
            limit: Duration,
            pending: Result<AudioFrame>,
            polled: int,
        |
            {
                &&& crate::duration::nanos_of(limit) == 0
                &&& #[trigger] (audio.character().yields)(
                    audio.state(),
                    Some(limit),
                    pending,
                    polled,
                )
                &&& !(pending matches Err(PinrayError::Timeout(_))) ==> {
                    &&& is_passed_on(pending, reply)
                    &&& final(session).video() == old(session).video()
                    &&& final(session).audio()->0.state() == polled
                }
                &&& pending matches Err(PinrayError::Timeout(_)) ==> exists|
                    shown: Result<CaptureEvent>,
                |
                    {
                        &&& #[trigger] (video.character().yields)(
                            video.state(),
                            timeout,
                            shown,
                            final(session).video()->0.state(),
                        )
                        &&& !(shown matches Err(PinrayError::Timeout(_))) ==> reply == shown
                            && final(session).audio()->0.state() == polled
                        &&& shown matches Err(PinrayError::Timeout(_)) ==> exists|
                            heard: Result<AudioFrame>,
                        |
                            #[trigger] (audio.character().yields)(
                                polled,
                                timeout,
                                heard,
                                final(session).audio()->0.state(),
                            ) && is_passed_on(heard, reply)
                    }
            }),
{
    let before = old(session);
    if let (None, Some(audio)) = (before.video(), before.audio()) {
        let heard = choose|heard: Result<AudioFrame>| #[trigger]
            audio.character().may_yield(audio.state(), timeout, heard, final(session).audio()->0.state()) && reply
                == as_event(heard);
        assert(audio.character().may_yield(audio.state(), timeout, heard, final(session).audio()->0.state()));
        assert((audio.character().yields)(audio.state(), timeout, heard, final(session).audio()->0.state()));
    }
    if let (Some(video), Some(audio)) = (before.video(), before.audio()) {
        let limit = no_waiting()->0;
        let end = final(session).audio()->0.state();
        if pending_audio_taken(before, final(session), reply) {
            let pending = choose|pending: Result<AudioFrame>|
                {
                    &&& #[trigger] audio.character().may_yield(
                        audio.state(),
                        no_waiting(),
                        pending,
                        end,
                    )
                    &&& !crate::error::is_timeout(pending)
                    &&& reply == as_event(pending)
                };
            assert(audio.character().may_yield(audio.state(), no_waiting(), pending, end));
            assert((audio.character().yields)(audio.state(), Some(limit), pending, end));
        } else if video_awaited(before, final(session), timeout, reply) {
            let pending = choose|pending: Result<AudioFrame>| #[trigger]
                audio.character().may_yield(audio.state(), no_waiting(), pending, end)
                    && crate::error::is_timeout(pending);
            assert(audio.character().may_yield(audio.state(), no_waiting(), pending, end));
            assert((audio.character().yields)(audio.state(), Some(limit), pending, end));
            assert((video.character().yields)(
                video.state(),
                timeout,
                reply,
                final(session).video()->0.state(),
            ));
        } else {
            let shown = choose|shown: Result<CaptureEvent>| #[trigger]
                video.character().may_yield(
                    video.state(),
                    timeout,
                    shown,
                    final(session).video()->0.state(),
                ) && crate::error::is_timeout(shown);
            assert(video.character().may_yield(
                video.state(),
                timeout,
                shown,
                final(session).video()->0.state(),
            ));
            let (pending, polled, heard) = choose|
                pending: Result<AudioFrame>,
                polled: int,
                heard: Result<AudioFrame>,
            |
                {
                    &&& #[trigger] audio.character().may_yield(
                        audio.state(),
                        no_waiting(),
                        pending,
                        polled,
                    )
                    &&& crate::error::is_timeout(pending)
                    &&& #[trigger] audio.character().may_yield(polled, timeout, heard, end)
                    &&& reply == as_event(heard)
                };
            assert(audio.character().may_yield(audio.state(), no_waiting(), pending, polled));
            assert(audio.character().may_yield(polled, timeout, heard, end));
            assert((audio.character().yields)(audio.state(), Some(limit), pending, polled));
            assert((video.character().yields)(
                video.state(),
                timeout,
                shown,
                final(session).video()->0.state(),
            ));
            assert((audio.character().yields)(polled, timeout, heard, end));
        }
    }
}

/// A start asks each stream once, video first and audio only if that agreed, and
/// leaves each as its answer left it. The first refusal is the session's.
pub proof fn every_stream_is_started_once(session: &mut CaptureSession, reply: Result<()>)
    requires
        call_ensures(CaptureSession::start, (session,), reply),
        !old(session).runs(),
    ensures
        final(session).runs() <==> reply is Ok,
        old(session).video() matches Some(video) ==> exists|one: Result<()>|
            {
                &&& #[trigger] (video.character().starts)(
                    video.state(),
                    one,
                    final(session).video()->0.state(),
                )
                &&& one is Err ==> {
                    &&& reply is Err && reply->Err_0 == one->Err_0
                    &&& final(session).audio() == old(session).audio()
                }
                &&& one is Ok && old(session).audio() is None ==> reply is Ok
                &&& one is Ok ==> (old(session).audio() matches Some(audio) ==> exists|
                    other: Result<()>,
                |
                    #[trigger] (audio.character().starts)(
                        audio.state(),
                        other,
                        final(session).audio()->0.state(),
                    ) && (other is Ok <==> reply is Ok) && (other is Err ==> reply->Err_0
                        == other->Err_0))
            },
        old(session).video() is None ==> (old(session).audio() matches Some(audio) ==> exists|
            other: Result<()>,
        |
            #[trigger] (audio.character().starts)(
                audio.state(),
                other,
                final(session).audio()->0.state(),
            ) && (other is Ok <==> reply is Ok) && (other is Err ==> reply->Err_0 == other->Err_0)),
        old(session).video() is None && old(session).audio() is None ==> reply is Ok,
{
    let before = old(session);
    if let Some(video) = before.video() {
        let end = final(session).video()->0.state();
        if let Some(audio) = before.audio() {
            let finish = final(session).audio()->0.state();
            let one = choose|first: Result<()>| #[trigger]
                video.character().may_start(video.state(), first, end) && match first {
                    Err(_) => same_verdict(first, reply) && final(session).audio()
                        == before.audio(),
                    Ok(_) => exists|second: Result<()>| #[trigger]
                        audio.character().may_start(audio.state(), second, finish) && same_verdict(
                            second,
                            reply,
                        ),
                };
            assert(video.character().may_start(video.state(), one, end));
            assert((video.character().starts)(video.state(), one, end));
            if one is Ok {
                let other = choose|second: Result<()>| #[trigger]
                    audio.character().may_start(audio.state(), second, finish) && same_verdict(
                        second,
                        reply,
                    );
                assert(audio.character().may_start(audio.state(), other, finish));
                assert((audio.character().starts)(audio.state(), other, finish));
            }
        } else {
            let one = choose|first: Result<()>| #[trigger]
                video.character().may_start(video.state(), first, end) && same_verdict(first, reply);
            assert(video.character().may_start(video.state(), one, end));
            assert((video.character().starts)(video.state(), one, end));
        }
    } else if let Some(audio) = before.audio() {
        let finish = final(session).audio()->0.state();
        let other = choose|first: Result<()>| #[trigger]
            audio.character().may_start(audio.state(), first, finish) && same_verdict(first, reply);
        assert(audio.character().may_start(audio.state(), other, finish));
        assert((audio.character().starts)(audio.state(), other, finish));
    }
}

/// A stop asks each stream once, audio first and video only if that agreed, and
/// leaves each as its answer left it. The first refusal is the session's.
pub proof fn every_stream_is_stopped_once(session: &mut CaptureSession, reply: Result<()>)
    requires
        call_ensures(CaptureSession::stop, (session,), reply),
        old(session).runs(),
    ensures
        final(session).runs() <==> reply is Err,
        old(session).audio() matches Some(audio) ==> exists|one: Result<()>|
            {
                &&& #[trigger] (audio.character().stops)(
                    audio.state(),
                    one,
                    final(session).audio()->0.state(),
                )
                &&& one is Err ==> {
                    &&& reply is Err && reply->Err_0 == one->Err_0
                    &&& final(session).video() == old(session).video()
                }
                &&& one is Ok && old(session).video() is None ==> reply is Ok
                &&& one is Ok ==> (old(session).video() matches Some(video) ==> exists|
                    other: Result<()>,
                |
                    #[trigger] (video.character().stops)(
                        video.state(),
                        other,
                        final(session).video()->0.state(),
                    ) && (other is Ok <==> reply is Ok) && (other is Err ==> reply->Err_0
                        == other->Err_0))
            },
        old(session).audio() is None ==> (old(session).video() matches Some(video) ==> exists|
            other: Result<()>,
        |
            #[trigger] (video.character().stops)(
                video.state(),
                other,
                final(session).video()->0.state(),
            ) && (other is Ok <==> reply is Ok) && (other is Err ==> reply->Err_0 == other->Err_0)),
        old(session).audio() is None && old(session).video() is None ==> reply is Ok,
{
    let before = old(session);
    if let Some(audio) = before.audio() {
        let end = final(session).audio()->0.state();
        if let Some(video) = before.video() {
            let finish = final(session).video()->0.state();
            let one = choose|first: Result<()>| #[trigger]
                audio.character().may_stop(audio.state(), first, end) && match first {
                    Err(_) => same_verdict(first, reply) && final(session).video()
                        == before.video(),
                    Ok(_) => exists|second: Result<()>| #[trigger]
                        video.character().may_stop(video.state(), second, finish) && same_verdict(
                            second,
                            reply,
                        ),
                };
            assert(audio.character().may_stop(audio.state(), one, end));
            assert((audio.character().stops)(audio.state(), one, end));
            if one is Ok {
                let other = choose|second: Result<()>| #[trigger]
                    video.character().may_stop(video.state(), second, finish) && same_verdict(
                        second,
                        reply,
                    );
                assert(video.character().may_stop(video.state(), other, finish));
                assert((video.character().stops)(video.state(), other, finish));
            }
        } else {
            let one = choose|first: Result<()>| #[trigger]
                audio.character().may_stop(audio.state(), first, end) && same_verdict(first, reply);
            assert(audio.character().may_stop(audio.state(), one, end));
            assert((audio.character().stops)(audio.state(), one, end));
        }
    } else if let Some(video) = before.video() {
        let finish = final(session).video()->0.state();
        let other = choose|first: Result<()>| #[trigger]
            video.character().may_stop(video.state(), first, finish) && same_verdict(first, reply);
        assert(video.character().may_stop(video.state(), other, finish));
        assert((video.character().stops)(video.state(), other, finish));
    }
}

/// A builder remembers the token that it is given, and nothing else changes by
/// it.
pub proof fn tokens_are_remembered(
    builder: SessionBuilder,
    before: &SessionConfig,
    token: String,
    changed: SessionBuilder,
    after: &SessionConfig,
)
    requires
        call_ensures(SessionBuilder::config, (&builder,), before),
        call_ensures(SessionBuilder::restore_token::<String>, (builder, token), changed),
        call_ensures(SessionBuilder::config, (&changed,), after),
    ensures
        after.restore_token matches Some(kept) && call_ensures(
            <String as Into<String>>::into,
            (token,),
            kept,
        ),
        *after == (SessionConfig { restore_token: after.restore_token, ..*before }),
{
}

} // verus!
