//! The library as an application sees it: sessions and their builder, and what
//! there is to capture, on whichever platform this is.
use std::time::Duration;

use vstd::prelude::*;

use crate::audio::AudioFrame;
use crate::backend::{BackendBundle, BackendInfo, BackendPreference, BackendResolver};
use crate::config::{AudioCapture, CursorMode, SessionConfig, VideoCaptureTarget};
use crate::error::{PinrayError, Result};
use crate::frame::{CaptureEvent, ColorSpace, PixelFormat, Rect};
use crate::platform_linux::{Environment, LinuxPlan, X11Sources};
use crate::platform_macos::{MacPlan, ShareableContent};
use crate::platform_windows::enumerate::{OutputReport, WindowReport};
use crate::platform_windows::VideoPlan;
use crate::source::CaptureSource;
use crate::target::TargetOs;

verus! {

/// A running or configured capture session bound to the platform backend
/// selected at build time.
///
/// Create one with [`CaptureSession::builder`]. `start`/`stop` are
/// idempotent and a session survives repeated restarts.
pub struct CaptureSession {
    inner: crate::session::CaptureSession,
}

/// Builder for [`CaptureSession`]; validates the configuration and resolves
/// the platform backend on [`build`](SessionBuilder::build).
#[derive(Debug, Clone)]
pub struct SessionBuilder {
    inner: crate::session::SessionBuilder,
}

impl CaptureSession {
    pub closed spec fn session(&self) -> crate::session::CaptureSession {
        self.inner
    }

    pub fn builder() -> (builder: SessionBuilder)
        ensures
            builder.configured() == crate::config::default_config(),
    {
        SessionBuilder { inner: crate::session::SessionBuilder::new() }
    }

    pub fn config(&self) -> (config: &SessionConfig)
        ensures
            *config == self.session().configured(),
    {
        self.inner.config()
    }

    pub fn backend_info(&self) -> (info: &BackendInfo)
        ensures
            *info == self.session().described(),
    {
        self.inner.backend_info()
    }

    pub fn is_running(&self) -> (running: bool)
        ensures
            running == self.session().runs(),
    {
        self.inner.is_running()
    }

    pub fn start(&mut self) -> (reply: Result<()>)
        ensures
            crate::session::start_outcome(&old(self).session(), &final(self).session(), reply),
    {
        self.inner.start()
    }

    pub fn stop(&mut self) -> (reply: Result<()>)
        ensures
            crate::session::stop_outcome(&old(self).session(), &final(self).session(), reply),
    {
        self.inner.stop()
    }

    pub fn next_event(&mut self, timeout: Option<Duration>) -> (reply: Result<CaptureEvent>)
        ensures
            crate::session::event_outcome(
                &old(self).session(),
                &final(self).session(),
                timeout,
                reply,
            ),
    {
        self.inner.next_event(timeout)
    }

    pub fn next_audio(&mut self, timeout: Option<Duration>) -> (reply: Result<AudioFrame>)
        ensures
            crate::session::audio_outcome(
                &old(self).session(),
                &final(self).session(),
                timeout,
                reply,
            ),
    {
        self.inner.next_audio(timeout)
    }

    /// The token with which a later session can skip the permission dialog,
    /// where the video backend has one.
    pub fn restore_token(&self) -> (token: Option<String>)
        ensures
            match self.session().video() {
                Some(video) => video.character().may_remember(video.state(), token),
                None => token is None,
            },
    {
        self.inner.restore_token()
    }
}

impl Default for SessionBuilder {
    fn default() -> (builder: Self)
        ensures
            builder.configured() == crate::config::default_config(),
    {
        CaptureSession::builder()
    }
}

impl SessionBuilder {
    pub closed spec fn configured(&self) -> SessionConfig {
        self.inner.configured()
    }

    pub fn backend_preference(self, backend_preference: BackendPreference) -> (builder: Self)
        ensures
            builder.configured() == (SessionConfig { backend_preference, ..self.configured() }),
    {
        SessionBuilder { inner: self.inner.backend_preference(backend_preference) }
    }

    pub fn video_target(self, target: VideoCaptureTarget) -> (builder: Self)
        ensures
            builder.configured() == (SessionConfig {
                video_target: Some(target),
                ..self.configured()
            }),
    {
        SessionBuilder { inner: self.inner.video_target(target) }
    }

    pub fn audio(self, audio_capture: AudioCapture) -> (builder: Self)
        ensures
            builder.configured() == (SessionConfig {
                audio_capture: Some(audio_capture),
                ..self.configured()
            }),
    {
        SessionBuilder { inner: self.inner.audio(audio_capture) }
    }

    pub fn pixel_format(self, pixel_format: PixelFormat) -> (builder: Self)
        ensures
            builder.configured() == (SessionConfig { pixel_format, ..self.configured() }),
    {
        SessionBuilder { inner: self.inner.pixel_format(pixel_format) }
    }

    pub fn restore_token<V: Into<String>>(self, restore_token: V) -> (builder: Self)
        ensures
            builder.configured().restore_token matches Some(token) && call_ensures(
                <V as Into<String>>::into,
                (restore_token,),
                token,
            ),
            builder.configured() == (SessionConfig {
                restore_token: builder.configured().restore_token,
                ..self.configured()
            }),
    {
        SessionBuilder { inner: self.inner.restore_token(restore_token) }
    }

    pub fn color_space(self, color_space: Option<ColorSpace>) -> (builder: Self)
        ensures
            builder.configured() == (SessionConfig { color_space, ..self.configured() }),
    {
        SessionBuilder { inner: self.inner.color_space(color_space) }
    }

    pub fn cursor_mode(self, cursor_mode: CursorMode) -> (builder: Self)
        ensures
            builder.configured() == (SessionConfig { cursor_mode, ..self.configured() }),
    {
        SessionBuilder { inner: self.inner.cursor_mode(cursor_mode) }
    }

    pub fn crop_rect(self, crop_rect: Option<Rect>) -> (builder: Self)
        ensures
            builder.configured() == (SessionConfig { crop_rect, ..self.configured() }),
    {
        SessionBuilder { inner: self.inner.crop_rect(crop_rect) }
    }

    pub fn frame_rate(self, frame_rate: Option<u32>) -> (builder: Self)
        ensures
            builder.configured() == (SessionConfig { frame_rate, ..self.configured() }),
    {
        SessionBuilder { inner: self.inner.frame_rate(frame_rate) }
    }

    pub fn queue_depth(self, queue_depth: u32) -> (builder: Self)
        ensures
            builder.configured() == (SessionConfig { queue_depth, ..self.configured() }),
    {
        SessionBuilder { inner: self.inner.queue_depth(queue_depth) }
    }

    pub fn config(&self) -> (config: &SessionConfig)
        ensures
            *config == self.configured(),
    {
        self.inner.config()
    }

    /// Builds the session, with the backends that the platform's resolver finds
    /// for it.
    pub fn build<R: BackendResolver>(self, platform: &R) -> (built: Result<CaptureSession>)
        ensures
            match built {
                Ok(session) => crate::session::build_outcome(
                    self.configured(),
                    *platform,
                    Ok(session.session()),
                ),
                Err(error) => crate::session::build_outcome(
                    self.configured(),
                    *platform,
                    Err(error),
                ),
            },
    {
        match self.inner.build_with_resolver(platform) {
            Ok(inner) => Ok(CaptureSession { inner }),
            Err(error) => Err(error),
        }
    }
}

/// How a session is captured on the platform that answers for it.
#[derive(Debug, Clone, Copy, PartialEq, Eq, Structural)]
pub enum PlatformPlan {
    Linux(LinuxPlan),
    MacOs(MacPlan),
    Windows(VideoPlan),
}

/// No platform answers for the session.
pub open spec fn is_unmatched<T>(reply: Result<T>) -> bool {
    crate::error::is_unavailable(
        reply,
        "no platform backend resolver matched the current target"@,
    )
}

/// Plans a session on the platform that this is.
pub fn resolve(target: TargetOs, environment: &Environment, config: &SessionConfig) -> (reply: Result<
    PlatformPlan,
>)
    ensures
        match target {
            TargetOs::Linux => match crate::platform_linux::choice(*config, *environment) {
                crate::platform_linux::Choice::NotOurs => is_unmatched(reply),
                crate::platform_linux::Choice::Origin(origin) => match reply {
                    Ok(PlatformPlan::Linux(plan)) => crate::platform_linux::is_planned(
                        Ok(plan),
                        *config,
                        origin,
                    ),
                    Ok(_) => false,
                    Err(error) => crate::platform_linux::is_planned(Err(error), *config, origin),
                },
                crate::platform_linux::Choice::NoDisplay => crate::error::is_unavailable(
                    reply,
                    "x11 backend requested but DISPLAY is not set"@,
                ),
                crate::platform_linux::Choice::NoSession => crate::error::is_unavailable(
                    reply,
                    "no wayland session and no DISPLAY; cannot capture video on this host"@,
                ),
            },
            TargetOs::MacOs => if !crate::platform_macos::applies(config.backend_preference) {
                is_unmatched(reply)
            } else {
                match config.audio_capture {
                    Some(AudioCapture::Microphone(_)) => crate::error::is_unsupported(
                        reply,
                        "macos microphone capture is not implemented yet"@,
                    ),
                    wanted => reply == Ok::<PlatformPlan, PinrayError>(
                        PlatformPlan::MacOs(MacPlan { capture_audio: wanted is Some }),
                    ),
                }
            },
            TargetOs::Windows => if !crate::platform_windows::applies(
                config.backend_preference,
            ) {
                is_unmatched(reply)
            } else {
                match crate::platform_windows::refusal(*config) {
                    Some(refusal) => crate::platform_windows::is_refused(
                        reply,
                        *config,
                        refusal,
                    ),
                    None => reply == Ok::<PlatformPlan, PinrayError>(
                        PlatformPlan::Windows(crate::platform_windows::video_plan(*config)),
                    ),
                }
            },
            TargetOs::Other => is_unmatched(reply),
        },
{
    match target {
        TargetOs::Linux => {
            match crate::platform_linux::try_resolve(target, environment, config) {
                Ok(Some(plan)) => {
                    return Ok(PlatformPlan::Linux(plan));
                },
                Ok(None) => {},
                Err(error) => {
                    return Err(error);
                },
            }
        },
        TargetOs::MacOs => {
            match crate::platform_macos::try_resolve(target, config) {
                Ok(Some(plan)) => {
                    return Ok(PlatformPlan::MacOs(plan));
                },
                Ok(None) => {},
                Err(error) => {
                    return Err(error);
                },
            }
        },
        TargetOs::Windows => {
            match crate::platform_windows::try_resolve(target, config) {
                Ok(Some(plan)) => {
                    return Ok(PlatformPlan::Windows(plan));
                },
                Ok(None) => {},
                Err(error) => {
                    return Err(error);
                },
            }
        },
        TargetOs::Other => {},
    }
    Err(
        PinrayError::BackendUnavailable(
            "no platform backend resolver matched the current target".to_owned(),
        ),
    )
}

/// A backend of another platform is never planned, whoever asks for it.
pub proof fn foreign_preferences_match_nothing(config: SessionConfig, environment: Environment)
    ensures
        config.backend_preference == BackendPreference::WindowsDxgi || config.backend_preference
            == BackendPreference::WindowsWgc || config.backend_preference
            == BackendPreference::MacScreenCaptureKit ==> crate::platform_linux::choice(
            config,
            environment,
        ) is NotOurs,
        config.backend_preference == BackendPreference::LinuxX11 || config.backend_preference
            == BackendPreference::LinuxWaylandPortal
            ==> !crate::platform_macos::applies(config.backend_preference)
            && !crate::platform_windows::applies(config.backend_preference),
{
}

/// The backends of a platform.
pub open spec fn backends_of(target: TargetOs) -> Seq<BackendInfo> {
    match target {
        TargetOs::Linux => seq![
            crate::platform_linux::listed_wayland_backend(),
            crate::platform_linux::audio::pipewire_audio_backend(),
            crate::platform_linux::x11::x11_backend(),
        ],
        TargetOs::MacOs => seq![crate::platform_macos::capture::sck_backend(true)],
        TargetOs::Windows => seq![
            crate::platform_windows::dxgi::dxgi_backend(),
            crate::platform_windows::wgc::wgc_backend(),
            crate::platform_windows::wasapi::wasapi_backend(),
        ],
        TargetOs::Other => Seq::empty(),
    }
}

/// Lists the capture backends of the platform that this is, with their
/// capabilities and caveats in [`BackendInfo::notes`].
pub fn available_backends(target: TargetOs) -> (backends: Vec<BackendInfo>)
    ensures
        backends@ == backends_of(target),
{
    match target {
        TargetOs::Linux => crate::platform_linux::available_backends(target),
        TargetOs::MacOs => crate::platform_macos::available_backends(target),
        TargetOs::Windows => crate::platform_windows::available_backends(target),
        TargetOs::Other => Vec::new(),
    }
}

/// Every platform can capture the system's audio, and none hands frames over
/// without a copy.
pub proof fn every_platform_has_system_audio(target: TargetOs)
    requires
        target != TargetOs::Other,
    ensures
        exists|i: int|
            0 <= i < backends_of(target).len() && (#[trigger] backends_of(
                target,
            )[i]).supports_audio,
        forall|i: int|
            0 <= i < backends_of(target).len() ==> !(#[trigger] backends_of(target)[i]).zero_copy,
{
    match target {
        TargetOs::Linux => {
            assert(backends_of(target)[1].supports_audio);
        },
        TargetOs::MacOs => {
            assert(backends_of(target)[0].supports_audio);
        },
        _ => {
            assert(backends_of(target)[2].supports_audio);
        },
    }
}

/// What the system reported about its sources.
#[derive(Debug)]
pub enum SourceReports {
    /// What the X server answered, where there is one.
    Linux(Option<Result<X11Sources>>),
    MacOs(Result<ShareableContent>),
    Windows(Result<Vec<OutputReport>>, Result<Vec<WindowReport>>),
    Other,
}

/// Enumerates capturable displays, windows, and audio sources.
///
/// Source ids feed [`VideoCaptureTarget`]; `SourceId::new("auto")` selects
/// the primary display without enumerating. On pure Wayland (no Xwayland)
/// video sources cannot be listed — selection happens in the portal dialog
/// instead. On macOS this triggers the screen-recording permission check.
pub fn enumerate_sources(reports: SourceReports) -> (reply: Result<Vec<CaptureSource>>)
    requires
        reports matches SourceReports::Windows(Ok(outputs), _) ==> forall|i: int|
            0 <= i < outputs@.len() && (#[trigger] outputs@[i]).attached_to_desktop
                ==> outputs@[i].is_measurable(),
    ensures
        match reports {
            SourceReports::Linux(x11) => reply matches Ok(sources) && crate::source::listing(
                sources@,
            ) == match x11 {
                Some(Ok(found)) => crate::source::full_listing(
                    found.displays@,
                    found.windows@,
                    crate::platform_linux::system_audio(),
                ),
                _ => seq![
                    crate::source::CaptureSourceView::SystemAudio(
                        crate::platform_linux::system_audio(),
                    ),
                ],
            },
            SourceReports::MacOs(Ok(shared)) => reply matches Ok(sources)
                && crate::source::listing(sources@) == crate::platform_macos::content::full_listing(
                shared.displays@,
                shared.windows@,
            ),
            SourceReports::MacOs(Err(error)) => reply == Err::<Vec<CaptureSource>, PinrayError>(
                error,
            ),
            SourceReports::Windows(Ok(outputs), Ok(windows)) => reply matches Ok(sources)
                && crate::platform_windows::lists_everything(
                crate::source::listing(sources@),
                outputs@,
                windows@,
            ),
            SourceReports::Windows(Err(error), _) => reply == Err::<
                Vec<CaptureSource>,
                PinrayError,
            >(error),
            SourceReports::Windows(Ok(_), Err(error)) => reply == Err::<
                Vec<CaptureSource>,
                PinrayError,
            >(error),
            SourceReports::Other => reply matches Ok(sources) && sources@.len() == 0,
        },
{
    match reports {
        SourceReports::Linux(x11) => crate::platform_linux::enumerate_sources(
            TargetOs::Linux,
            x11,
        ),
        SourceReports::MacOs(content) => crate::platform_macos::enumerate_sources(
            TargetOs::MacOs,
            content,
        ),
        SourceReports::Windows(outputs, windows) => crate::platform_windows::enumerate_sources(
            TargetOs::Windows,
            outputs,
            windows,
        ),
        SourceReports::Other => Ok(Vec::new()),
    }
}

/// Whatever streams a session has, every wait on one of them is made with the
/// caller's timeout, or is a poll: if `fine` holds of every answer that the
/// streams may give to that timeout, and of what they may answer to a poll, it
/// holds of the session's answer. What they would answer to any other timeout,
/// or to none, does not matter. Silence of the video stream, or in answer to a
/// poll, is no answer while there is an audio stream left to wait for.
pub proof fn waits_are_made_with_the_callers_timeout(
    session: &mut CaptureSession,
    timeout: Option<Duration>,
    reply: Result<CaptureEvent>,
    fine: spec_fn(Result<CaptureEvent>) -> bool,
)
    requires
        call_ensures(CaptureSession::next_event, (session, timeout), reply),
        old(session).session().video() is Some || old(session).session().audio() is Some,
        old(session).session().video() matches Some(video) ==> forall|
            state: int,
            shown: Result<CaptureEvent>,
            after: int,
        |
            #[trigger] (video.character().yields)(state, timeout, shown, after) ==> fine(shown) || (
            old(session).session().audio() is Some && shown matches Err(PinrayError::Timeout(_))),
        old(session).session().audio() matches Some(audio) ==> forall|
            state: int,
            heard: Result<AudioFrame>,
            after: int,
        |
            #[trigger] (audio.character().yields)(state, timeout, heard, after) ==> match heard {
                Ok(frame) => fine(Ok(CaptureEvent::Audio(frame))),
                Err(error) => fine(Err(error)),
            },
        old(session).session().audio() matches Some(audio) ==> forall|
            state: int,
            limit: Duration,
            heard: Result<AudioFrame>,
            after: int,
        |
            #[trigger] (audio.character().yields)(state, Some(limit), heard, after)
                && crate::duration::nanos_of(limit) == 0 ==> match heard {
                Ok(frame) => fine(Ok(CaptureEvent::Audio(frame))),
                Err(PinrayError::Timeout(_)) => true,
                Err(error) => fine(Err(error)),
            },
    ensures
        fine(reply),
{
}

/// A session with a video stream alone, or an audio stream alone, that answers
/// the caller's timeout in time, with an event or with that very timeout,
/// answers so itself.
pub proof fn a_timeout_is_the_callers_own(
    session: &mut CaptureSession,
    limit: Duration,
    reply: Result<CaptureEvent>,
)
    requires
        call_ensures(CaptureSession::next_event, (session, Some(limit)), reply),
        old(session).session().video() is Some <==> old(session).session().audio() is None,
        old(session).session().video() matches Some(video) ==> forall|
            state: int,
            shown: Result<CaptureEvent>,
            after: int,
        |
            #[trigger] (video.character().yields)(state, Some(limit), shown, after)
                ==> shown is Ok || shown == Err::<CaptureEvent, PinrayError>(
                PinrayError::Timeout(limit),
            ),
        old(session).session().audio() matches Some(audio) ==> forall|
            state: int,
            heard: Result<AudioFrame>,
            after: int,
        |
            #[trigger] (audio.character().yields)(state, Some(limit), heard, after)
                ==> heard is Ok || heard == Err::<AudioFrame, PinrayError>(
                PinrayError::Timeout(limit),
            ),
    ensures
        reply is Ok || reply == Err::<CaptureEvent, PinrayError>(PinrayError::Timeout(limit)),
{
}

/// Audio that has nothing pending does not hold the video stream up, however
/// long it could be waited for: the answer is the video stream's.
pub proof fn silent_audio_is_not_waited_for_first(
    session: &mut CaptureSession,
    timeout: Option<Duration>,
    reply: Result<CaptureEvent>,
    fine: spec_fn(Result<CaptureEvent>) -> bool,
)
    requires
        call_ensures(CaptureSession::next_event, (session, timeout), reply),
        old(session).session().video() is Some,
        old(session).session().audio() is Some,
        forall|state: int, limit: Duration, heard: Result<AudioFrame>, after: int|
            #[trigger] (old(session).session().audio()->0.character().yields)(
                state,
                Some(limit),
                heard,
                after,
            ) && crate::duration::nanos_of(limit) == 0 ==> (heard matches Err(
                PinrayError::Timeout(_),
            )),
        forall|state: int, shown: Result<CaptureEvent>, after: int|
            #[trigger] (old(session).session().video()->0.character().yields)(state, timeout, shown, after)
                ==> fine(shown) && !(shown matches Err(PinrayError::Timeout(_))),
    ensures
        fine(reply),
{
}

/// Audio that is pending is the answer, and the video stream is not asked.
pub proof fn pending_audio_is_the_answer(
    session: &mut CaptureSession,
    timeout: Option<Duration>,
    reply: Result<CaptureEvent>,
    fine: spec_fn(Result<AudioFrame>) -> bool,
)
    requires
        call_ensures(CaptureSession::next_event, (session, timeout), reply),
        old(session).session().video() is Some,
        old(session).session().audio() is Some,
        forall|state: int, limit: Duration, heard: Result<AudioFrame>, after: int|
            #[trigger] (old(session).session().audio()->0.character().yields)(
                state,
                Some(limit),
                heard,
                after,
            ) && crate::duration::nanos_of(limit) == 0 ==> fine(heard) && !(heard matches Err(
                PinrayError::Timeout(_),
            )),
    ensures
        final(session).session().video() == old(session).session().video(),
        match reply {
            Ok(CaptureEvent::Audio(frame)) => fine(Ok(frame)),
            Ok(_) => false,
            Err(error) => fine(Err(error)),
        },
{
}

/// Once nothing was pending and the video stream was silent, the audio stream
/// has the last word, with the caller's timeout.
pub proof fn silent_video_leaves_the_word_to_audio(
    session: &mut CaptureSession,
    timeout: Option<Duration>,
    reply: Result<CaptureEvent>,
    fine: spec_fn(Result<AudioFrame>) -> bool,
)
    requires
        call_ensures(CaptureSession::next_event, (session, timeout), reply),
        old(session).session().video() is Some,
        old(session).session().audio() is Some,
        forall|state: int, shown: Result<CaptureEvent>, after: int|
            #[trigger] (old(session).session().video()->0.character().yields)(state, timeout, shown, after)
                ==> (shown matches Err(PinrayError::Timeout(_))),
        forall|state: int, limit: Duration, heard: Result<AudioFrame>, after: int|
            #[trigger] (old(session).session().audio()->0.character().yields)(
                state,
                Some(limit),
                heard,
                after,
            ) && crate::duration::nanos_of(limit) == 0 ==> fine(heard) || (heard matches Err(
                PinrayError::Timeout(_),
            )),
        forall|state: int, heard: Result<AudioFrame>, after: int|
            #[trigger] (old(session).session().audio()->0.character().yields)(state, timeout, heard, after)
                ==> fine(heard),
    ensures
        match reply {
            Ok(CaptureEvent::Audio(frame)) => fine(Ok(frame)),
            Ok(_) => false,
            Err(error) => fine(Err(error)),
        },
{
}

/// A session without streams has nothing to answer with, and says so.
pub proof fn sessions_without_streams_have_no_events(
    session: &mut CaptureSession,
    timeout: Option<Duration>,
    reply: Result<CaptureEvent>,
)
    requires
        call_ensures(CaptureSession::next_event, (session, timeout), reply),
        old(session).session().video() is None,
        old(session).session().audio() is None,
    ensures
        reply == Err::<CaptureEvent, PinrayError>(PinrayError::BackendNotSelected),
{
}

/// A packet is the audio stream's answer to the caller's timeout; the video
/// stream is not asked for one, and cannot give one.
pub proof fn packets_come_from_the_audio_stream(
    session: &mut CaptureSession,
    timeout: Option<Duration>,
    reply: Result<AudioFrame>,
)
    requires
        call_ensures(CaptureSession::next_audio, (session, timeout), reply),
    ensures
        final(session).session().video() == old(session).session().video(),
        final(session).session().runs() == old(session).session().runs(),
        match old(session).session().audio() {
            Some(audio) => (audio.character().yields)(
                audio.state(),
                timeout,
                reply,
                final(session).session().audio()->0.state(),
            ),
            None => reply == Err::<AudioFrame, PinrayError>(PinrayError::BackendNotSelected),
        },
{
}

/// The video stream is started first. If it refuses, its error is the answer,
/// the audio stream is not touched, and the session does not run.
pub proof fn a_start_that_video_refuses_stops_there(
    session: &mut CaptureSession,
    reply: Result<()>,
    fine: spec_fn(PinrayError) -> bool,
)
    requires
        call_ensures(CaptureSession::start, (session,), reply),
        !old(session).session().runs(),
        old(session).session().video() is Some,
        forall|state: int, verdict: Result<()>, after: int|
            #[trigger] (old(session).session().video()->0.character().starts)(state, verdict, after)
                ==> verdict is Err && fine(verdict->Err_0),
    ensures
        reply is Err && fine(reply->Err_0),
        final(session).session().audio() == old(session).session().audio(),
        !final(session).session().runs(),
{
}

/// A video stream that agrees to a start does not settle it: an audio stream
/// that refuses does, with its own error.
pub proof fn a_start_that_audio_refuses_fails(
    session: &mut CaptureSession,
    reply: Result<()>,
    fine: spec_fn(PinrayError) -> bool,
)
    requires
        call_ensures(CaptureSession::start, (session,), reply),
        !old(session).session().runs(),
        old(session).session().audio() is Some,
        old(session).session().video() matches Some(video) ==> forall|
            state: int,
            verdict: Result<()>,
            after: int,
        | #[trigger] (video.character().starts)(state, verdict, after) ==> verdict is Ok,
        forall|state: int, verdict: Result<()>, after: int|
            #[trigger] (old(session).session().audio()->0.character().starts)(state, verdict, after)
                ==> verdict is Err && fine(verdict->Err_0),
    ensures
        reply is Err && fine(reply->Err_0),
        !final(session).session().runs(),
{
}

/// A session that does not run, and whose streams agree, is started by starting
/// each of them, and runs from then on.
pub proof fn a_start_that_all_agree_to_starts_all(session: &mut CaptureSession, reply: Result<()>)
    requires
        call_ensures(CaptureSession::start, (session,), reply),
        !old(session).session().runs(),
        old(session).session().video() matches Some(video) ==> forall|
            state: int,
            verdict: Result<()>,
            after: int,
        | #[trigger] (video.character().starts)(state, verdict, after) ==> verdict is Ok,
        old(session).session().audio() matches Some(audio) ==> forall|
            state: int,
            verdict: Result<()>,
            after: int,
        | #[trigger] (audio.character().starts)(state, verdict, after) ==> verdict is Ok,
    ensures
        reply is Ok,
        final(session).session().runs(),
        old(session).session().video() matches Some(video) ==> (video.character().starts)(
            video.state(),
            Ok(()),
            final(session).session().video()->0.state(),
        ),
        old(session).session().audio() matches Some(audio) ==> (audio.character().starts)(
            audio.state(),
            Ok(()),
            final(session).session().audio()->0.state(),
        ),
{
    if let Some(video) = old(session).session().video() {
        let ghost verdict = choose|verdict: Result<()>|
            (#[trigger] video.character().may_start(
                video.state(),
                verdict,
                final(session).session().video()->0.state(),
            )) && verdict is Ok;
        assert(video.character().may_start(video.state(), verdict, final(session).session().video()->0.state()));
        assert(verdict->Ok_0 == ());
    }
    if let Some(audio) = old(session).session().audio() {
        let ghost verdict = choose|verdict: Result<()>|
            (#[trigger] audio.character().may_start(
                audio.state(),
                verdict,
                final(session).session().audio()->0.state(),
            )) && verdict is Ok;
        assert(audio.character().may_start(audio.state(), verdict, final(session).session().audio()->0.state()));
        assert(verdict->Ok_0 == ());
    }
}

/// The audio stream is stopped first. If it refuses, its error is the answer,
/// the video stream is not touched, and the session runs on.
pub proof fn a_stop_that_audio_refuses_stops_there(
    session: &mut CaptureSession,
    reply: Result<()>,
    fine: spec_fn(PinrayError) -> bool,
)
    requires
        call_ensures(CaptureSession::stop, (session,), reply),
        old(session).session().runs(),
        old(session).session().audio() is Some,
        forall|state: int, verdict: Result<()>, after: int|
            #[trigger] (old(session).session().audio()->0.character().stops)(state, verdict, after)
                ==> verdict is Err && fine(verdict->Err_0),
    ensures
        reply is Err && fine(reply->Err_0),
        final(session).session().video() == old(session).session().video(),
        final(session).session().runs(),
{
}

/// A video stream that refuses to stop keeps the session running, though the
/// audio stream agreed.
pub proof fn a_stop_that_video_refuses_fails(
    session: &mut CaptureSession,
    reply: Result<()>,
    fine: spec_fn(PinrayError) -> bool,
)
    requires
        call_ensures(CaptureSession::stop, (session,), reply),
        old(session).session().runs(),
        old(session).session().video() is Some,
        old(session).session().audio() matches Some(audio) ==> forall|
            state: int,
            verdict: Result<()>,
            after: int,
        | #[trigger] (audio.character().stops)(state, verdict, after) ==> verdict is Ok,
        forall|state: int, verdict: Result<()>, after: int|
            #[trigger] (old(session).session().video()->0.character().stops)(state, verdict, after)
                ==> verdict is Err && fine(verdict->Err_0),
    ensures
        reply is Err && fine(reply->Err_0),
        final(session).session().runs(),
{
}

/// A session that runs, and whose streams agree, is stopped by stopping each of
/// them.
pub proof fn a_stop_that_all_agree_to_stops_all(session: &mut CaptureSession, reply: Result<()>)
    requires
        call_ensures(CaptureSession::stop, (session,), reply),
        old(session).session().runs(),
        old(session).session().video() matches Some(video) ==> forall|
            state: int,
            verdict: Result<()>,
            after: int,
        | #[trigger] (video.character().stops)(state, verdict, after) ==> verdict is Ok,
        old(session).session().audio() matches Some(audio) ==> forall|
            state: int,
            verdict: Result<()>,
            after: int,
        | #[trigger] (audio.character().stops)(state, verdict, after) ==> verdict is Ok,
    ensures
        reply is Ok,
        !final(session).session().runs(),
        old(session).session().video() matches Some(video) ==> (video.character().stops)(
            video.state(),
            Ok(()),
            final(session).session().video()->0.state(),
        ),
        old(session).session().audio() matches Some(audio) ==> (audio.character().stops)(
            audio.state(),
            Ok(()),
            final(session).session().audio()->0.state(),
        ),
{
    if let Some(video) = old(session).session().video() {
        let ghost verdict = choose|verdict: Result<()>|
            (#[trigger] video.character().may_stop(
                video.state(),
                verdict,
                final(session).session().video()->0.state(),
            )) && verdict is Ok;
        assert(video.character().may_stop(video.state(), verdict, final(session).session().video()->0.state()));
        assert(verdict->Ok_0 == ());
    }
    if let Some(audio) = old(session).session().audio() {
        let ghost verdict = choose|verdict: Result<()>|
            (#[trigger] audio.character().may_stop(
                audio.state(),
                verdict,
                final(session).session().audio()->0.state(),
            )) && verdict is Ok;
        assert(audio.character().may_stop(audio.state(), verdict, final(session).session().audio()->0.state()));
        assert(verdict->Ok_0 == ());
    }
}

/// A start of a session that runs, and a stop of one that does not, are granted
/// without asking anyone, and change nothing.
pub proof fn repeated_starts_and_stops_change_nothing(
    session: &mut CaptureSession,
    reply: Result<()>,
)
    requires
        call_ensures(CaptureSession::start, (session,), reply) && old(session).session().runs()
            || call_ensures(CaptureSession::stop, (session,), reply) && !old(session).session().runs(),
    ensures
        reply is Ok,
        final(session).session() == old(session).session(),
{
}

/// A session says that it runs behind a start that succeeded, and that it does
/// not behind a stop that did.
pub proof fn sessions_tell_whether_they_run(
    session: &mut CaptureSession,
    reply: Result<()>,
    told: bool,
)
    requires
        reply is Ok,
        call_ensures(CaptureSession::is_running, (final(session),), told),
    ensures
        call_ensures(CaptureSession::start, (session,), reply) ==> told,
        call_ensures(CaptureSession::stop, (session,), reply) ==> !told,
{
}

/// The token that a session hands out is its video stream's; without one there
/// is none.
pub proof fn the_restore_token_is_the_video_streams(
    session: CaptureSession,
    token: Option<String>,
)
    requires
        call_ensures(CaptureSession::restore_token, (&session,), token),
    ensures
        match session.session().video() {
            Some(video) => (video.character().remembers)(video.state(), token),
            None => token is None,
        },
{
}

/// Every setting of a builder goes where it says, and touches no other.
pub proof fn settings_go_where_they_say(
    builder: SessionBuilder,
    before: &SessionConfig,
    changed: SessionBuilder,
    after: &SessionConfig,
    backend_preference: BackendPreference,
    target: VideoCaptureTarget,
    audio: AudioCapture,
    pixel_format: PixelFormat,
    color_space: Option<ColorSpace>,
    cursor_mode: CursorMode,
    crop_rect: Option<Rect>,
    frame_rate: Option<u32>,
    queue_depth: u32,
)
    requires
        call_ensures(SessionBuilder::config, (&builder,), before),
        call_ensures(SessionBuilder::config, (&changed,), after),
    ensures
        call_ensures(SessionBuilder::backend_preference, (builder, backend_preference), changed)
            ==> *after == (SessionConfig { backend_preference, ..*before }),
        call_ensures(SessionBuilder::video_target, (builder, target), changed) ==> *after == (
        SessionConfig { video_target: Some(target), ..*before }),
        call_ensures(SessionBuilder::audio, (builder, audio), changed) ==> *after == (
        SessionConfig { audio_capture: Some(audio), ..*before }),
        call_ensures(SessionBuilder::pixel_format, (builder, pixel_format), changed) ==> *after
            == (SessionConfig { pixel_format, ..*before }),
        call_ensures(SessionBuilder::color_space, (builder, color_space), changed) ==> *after == (
        SessionConfig { color_space, ..*before }),
        call_ensures(SessionBuilder::cursor_mode, (builder, cursor_mode), changed) ==> *after == (
        SessionConfig { cursor_mode, ..*before }),
        call_ensures(SessionBuilder::crop_rect, (builder, crop_rect), changed) ==> *after == (
        SessionConfig { crop_rect, ..*before }),
        call_ensures(SessionBuilder::frame_rate, (builder, frame_rate), changed) ==> *after == (
        SessionConfig { frame_rate, ..*before }),
        call_ensures(SessionBuilder::queue_depth, (builder, queue_depth), changed) ==> *after == (
        SessionConfig { queue_depth, ..*before }),
{
}

/// A builder starts from a configuration that asks for nothing yet, and for the
/// rest for what suits most: any backend, BGRA in sRGB, the cursor in the
/// picture, all of it, sixty times a second, with room for two frames.
pub proof fn builders_start_from_the_defaults(builder: SessionBuilder, config: &SessionConfig)
    requires
        call_ensures(CaptureSession::builder, (), builder) || call_ensures(
            SessionBuilder::default,
            (),
            builder,
        ),
        call_ensures(SessionBuilder::config, (&builder,), config),
    ensures
        config.backend_preference == BackendPreference::Auto,
        config.video_target is None,
        config.audio_capture is None,
        config.restore_token is None,
        config.pixel_format == PixelFormat::Bgra8888,
        config.color_space == Some(ColorSpace::Srgb),
        config.cursor_mode == CursorMode::Embedded,
        config.crop_rect is None,
        config.frame_rate == Some(60u32),
        config.queue_depth == 2,
{
}

/// A session tells its own configuration and its own backend.
pub proof fn sessions_tell_their_setup(
    session: &CaptureSession,
    config: &SessionConfig,
    info: &BackendInfo,
)
    requires
        call_ensures(CaptureSession::config, (session,), config),
        call_ensures(CaptureSession::backend_info, (session,), info),
    ensures
        *config == session.session().configured(),
        *info == session.session().described(),
{
}

/// What is built is a stopped session of the backends that the platform found for
/// the configuration that was collected; what the platform refuses is refused
/// with the same error.
pub proof fn sessions_are_built_of_what_the_platform_finds<R: BackendResolver>(
    builder: SessionBuilder,
    config: &SessionConfig,
    platform: &R,
    built: Result<CaptureSession>,
    fine: spec_fn(Result<BackendBundle>) -> bool,
)
    requires
        call_ensures(SessionBuilder::config, (&builder,), config),
        call_ensures(SessionBuilder::build, (builder, platform), built),
        config.video_target is Some || config.audio_capture is Some,
        config.frame_rate != Some(0u32),
        config.queue_depth > 0,
        config.crop_rect matches Some(rect) ==> rect.width > 0 && rect.height > 0,
        forall|found: Result<BackendBundle>| #[trigger]
            platform.resolves(*config, found) ==> fine(found),
    ensures
        match built {
            Ok(session) => {
                &&& session.session().configured() == *config
                &&& !session.session().runs()
                &&& exists|bundle: BackendBundle|
                    {
                        &&& #[trigger] fine(Ok(bundle))
                        &&& session.session().described() == bundle.info
                        &&& session.session().video() == bundle.video
                        &&& session.session().audio() == bundle.audio
                    }
            },
            Err(error) => fine(Err(error)),
        },
{
    let inner: Result<crate::session::CaptureSession> = match built {
        Ok(session) => Ok(session.session()),
        Err(error) => Err(error),
    };
    assert(crate::session::build_outcome(*config, *platform, inner));
    let found = choose|found: Result<BackendBundle>| #[trigger]
        platform.resolves(*config, found) && match (found, inner) {
            (Ok(bundle), Ok(session)) => crate::session::session_of(session, *config, bundle),
            (Err(refusal), Err(error)) => error == refusal,
            _ => false,
        };
    assert(fine(found));
}

/// A session is planned on the platform that this is, just as that platform plans
/// it; what no platform answers for is told as a backend that is not there.
pub proof fn sessions_are_planned_on_their_platform(
    target: TargetOs,
    environment: &Environment,
    config: &SessionConfig,
    reply: Result<PlatformPlan>,
    linux: Result<Option<LinuxPlan>>,
    macos: Result<Option<MacPlan>>,
    windows: Result<Option<VideoPlan>>,
)
    requires
        call_ensures(resolve, (target, environment, config), reply),
        call_ensures(
            crate::platform_linux::try_resolve,
            (target, environment, config),
            linux,
        ),
        call_ensures(crate::platform_macos::try_resolve, (target, config), macos),
        call_ensures(crate::platform_windows::try_resolve, (target, config), windows),
    ensures
        reply matches Ok(PlatformPlan::Linux(plan)) ==> target == TargetOs::Linux && linux == Ok::<
            Option<LinuxPlan>,
            PinrayError,
        >(Some(plan)),
        reply matches Ok(PlatformPlan::MacOs(plan)) ==> target == TargetOs::MacOs && macos == Ok::<
            Option<MacPlan>,
            PinrayError,
        >(Some(plan)),
        reply matches Ok(PlatformPlan::Windows(plan)) ==> target == TargetOs::Windows && windows
            == Ok::<Option<VideoPlan>, PinrayError>(Some(plan)),
        target == TargetOs::Linux ==> (reply is Ok <==> linux is Ok && linux->Ok_0 is Some),
        target == TargetOs::MacOs ==> (reply is Ok <==> macos is Ok && macos->Ok_0 is Some),
        target == TargetOs::Windows ==> (reply is Ok <==> windows is Ok && windows->Ok_0 is Some),
        target == TargetOs::Other ==> (reply matches Err(PinrayError::BackendUnavailable(_))),
        (linux matches Ok(None)) && (macos matches Ok(None)) && (windows matches Ok(None)) ==> (
        reply matches Err(PinrayError::BackendUnavailable(message)) && message@
            == "no platform backend resolver matched the current target"@),
{
}

/// The backends that are listed are those of the platform that this is.
pub proof fn backends_are_those_of_the_platform(
    target: TargetOs,
    backends: Vec<BackendInfo>,
    linux: Vec<BackendInfo>,
    macos: Vec<BackendInfo>,
    windows: Vec<BackendInfo>,
)
    requires
        call_ensures(available_backends, (target,), backends),
        call_ensures(crate::platform_linux::available_backends, (target,), linux),
        call_ensures(crate::platform_macos::available_backends, (target,), macos),
        call_ensures(crate::platform_windows::available_backends, (target,), windows),
    ensures
        backends@ == linux@ + macos@ + windows@,
{
    assert(backends@ =~= linux@ + macos@ + windows@);
}

/// The sources that are listed are those that the platform lists.
pub proof fn sources_are_those_of_the_platform(
    reply: Result<Vec<CaptureSource>>,
    listed: Result<Vec<CaptureSource>>,
    reports: SourceReports,
)
    requires
        call_ensures(enumerate_sources, (reports,), reply),
        match reports {
            SourceReports::Linux(x11) => call_ensures(
                crate::platform_linux::enumerate_sources,
                (TargetOs::Linux, x11),
                listed,
            ),
            SourceReports::MacOs(content) => call_ensures(
                crate::platform_macos::enumerate_sources,
                (TargetOs::MacOs, content),
                listed,
            ),
            SourceReports::Windows(outputs, windows) => call_ensures(
                crate::platform_windows::enumerate_sources,
                (TargetOs::Windows, outputs, windows),
                listed,
            ),
            SourceReports::Other => listed matches Ok(sources) && sources@.len() == 0,
        },
    ensures
        reply is Ok <==> listed is Ok,
        reply is Err ==> reply == listed,
        reply is Ok ==> reply->Ok_0@.len() == listed->Ok_0@.len(),
        reply is Ok ==> forall|i: int|
            0 <= i < reply->Ok_0@.len() ==> (#[trigger] reply->Ok_0@[i])@ == listed->Ok_0@[i]@,
{
    if reply is Ok {
        let one = crate::source::listing(reply->Ok_0@);
        let other = crate::source::listing(listed->Ok_0@);
        assert(one.len() == reply->Ok_0@.len() && other.len() == listed->Ok_0@.len());
        if !(reports is Other) {
            assert(one =~= other);
        }
        assert forall|i: int| 0 <= i < reply->Ok_0@.len() implies (
        #[trigger] reply->Ok_0@[i])@ == listed->Ok_0@[i]@ by {
            assert(one[i] == reply->Ok_0@[i]@);
            assert(other[i] == listed->Ok_0@[i]@);
        }
    }
}

/// Every answer of a stream is heeded, and none is asked for twice: a stream
/// alone is asked once, with the caller's timeout. Of two, audio is polled; what
/// it has is the answer, and video is left alone. If it has nothing, video is
/// asked with the caller's timeout, and if that brings nothing either, audio is
/// asked again from where the poll left it, with the same timeout.
pub proof fn every_answer_is_heeded(
    session: &mut CaptureSession,
    timeout: Option<Duration>,
    reply: Result<CaptureEvent>,
)
    requires
        call_ensures(CaptureSession::next_event, (session, timeout), reply),
    ensures
        final(session).session().runs() == old(session).session().runs(),
        old(session).session().video() matches Some(video) ==> (old(session).session().audio() is None ==> (
        video.character().yields)(video.state(), timeout, reply, final(session).session().video()->0.state())),
        old(session).session().audio() matches Some(audio) ==> (old(session).session().video() is None ==> exists|
            heard: Result<AudioFrame>,
        |
            #[trigger] (audio.character().yields)(
                audio.state(),
                timeout,
                heard,
                final(session).session().audio()->0.state(),
            ) && crate::session::is_passed_on(heard, reply)),
        old(session).session().video() matches Some(video) ==> (old(session).session().audio() matches Some(audio)
            ==> exists|
            limit: Duration,
            pending: Result<AudioFrame>,
            polled: int,
        |
            {
                &&& crate::duration::nanos_of(limit) == 0
                &&& #[trigger] (audio.character().yields)(
                    audio.state(),
                    Some(limit),
                    pending,
                    polled,
                )
                &&& !(pending matches Err(PinrayError::Timeout(_))) ==> {
                    &&& crate::session::is_passed_on(pending, reply)
                    &&& final(session).session().video() == old(session).session().video()
                    &&& final(session).session().audio()->0.state() == polled
                }
                &&& pending matches Err(PinrayError::Timeout(_)) ==> exists|
                    shown: Result<CaptureEvent>,
                |
                    {
                        &&& #[trigger] (video.character().yields)(
                            video.state(),
                            timeout,
                            shown,
                            final(session).session().video()->0.state(),
                        )
                        &&& !(shown matches Err(PinrayError::Timeout(_))) ==> reply == shown
                            && final(session).session().audio()->0.state() == polled
                        &&& shown matches Err(PinrayError::Timeout(_)) ==> exists|
                            heard: Result<AudioFrame>,
                        |
                            #[trigger] (audio.character().yields)(
                                polled,
                                timeout,
                                heard,
                                final(session).session().audio()->0.state(),
                            ) && crate::session::is_passed_on(heard, reply)
                    }
            }),
{
    let before = &old(session).session();
    if let (None, Some(audio)) = (before.video(), before.audio()) {
        let heard = choose|heard: Result<AudioFrame>| #[trigger]
            audio.character().may_yield(audio.state(), timeout, heard, final(session).session().audio()->0.state()) && reply
                == crate::session::as_event(heard);
        assert(audio.character().may_yield(audio.state(), timeout, heard, final(session).session().audio()->0.state()));
        assert((audio.character().yields)(audio.state(), timeout, heard, final(session).session().audio()->0.state()));
    }
    if let (Some(video), Some(audio)) = (before.video(), before.audio()) {
        let limit = crate::session::no_waiting()->0;
        let end = final(session).session().audio()->0.state();
        if crate::session::pending_audio_taken(before, &final(session).session(), reply) {
            let pending = choose|pending: Result<AudioFrame>|
                {
                    &&& #[trigger] audio.character().may_yield(
                        audio.state(),
                        crate::session::no_waiting(),
                        pending,
                        end,
                    )
                    &&& !crate::error::is_timeout(pending)
                    &&& reply == crate::session::as_event(pending)
                };
            assert(audio.character().may_yield(audio.state(), crate::session::no_waiting(), pending, end));
            assert((audio.character().yields)(audio.state(), Some(limit), pending, end));
        } else if crate::session::video_awaited(before, &final(session).session(), timeout, reply) {
            let pending = choose|pending: Result<AudioFrame>| #[trigger]
                audio.character().may_yield(audio.state(), crate::session::no_waiting(), pending, end)
                    && crate::error::is_timeout(pending);
            assert(audio.character().may_yield(audio.state(), crate::session::no_waiting(), pending, end));
            assert((audio.character().yields)(audio.state(), Some(limit), pending, end));
            assert((video.character().yields)(
                video.state(),
                timeout,
                reply,
                final(session).session().video()->0.state(),
            ));
        } else {
            let shown = choose|shown: Result<CaptureEvent>| #[trigger]
                video.character().may_yield(
                    video.state(),
                    timeout,
                    shown,
                    final(session).session().video()->0.state(),
                ) && crate::error::is_timeout(shown);
            assert(video.character().may_yield(
                video.state(),
                timeout,
                shown,
                final(session).session().video()->0.state(),
            ));
            let (pending, polled, heard) = choose|
                pending: Result<AudioFrame>,
                polled: int,
                heard: Result<AudioFrame>,
            |
                {
                    &&& #[trigger] audio.character().may_yield(
                        audio.state(),
                        crate::session::no_waiting(),
                        pending,
                        polled,
                    )
                    &&& crate::error::is_timeout(pending)
                    &&& #[trigger] audio.character().may_yield(polled, timeout, heard, end)
                    &&& reply == crate::session::as_event(heard)
                };
            assert(audio.character().may_yield(audio.state(), crate::session::no_waiting(), pending, polled));
            assert(audio.character().may_yield(polled, timeout, heard, end));
            assert((audio.character().yields)(audio.state(), Some(limit), pending, polled));
            assert((video.character().yields)(
                video.state(),
                timeout,
                shown,
                final(session).session().video()->0.state(),
            ));
            assert((audio.character().yields)(polled, timeout, heard, end));
        }
    }
}

/// A start asks each stream once, video first and audio only if that agreed, and
/// leaves each as its answer left it. The first refusal is the session's.
pub proof fn every_stream_is_started_once(session: &mut CaptureSession, reply: Result<()>)
    requires
        call_ensures(CaptureSession::start, (session,), reply),
        !old(session).session().runs(),
    ensures
        final(session).session().runs() <==> reply is Ok,
        old(session).session().video() matches Some(video) ==> exists|one: Result<()>|
            {
                &&& #[trigger] (video.character().starts)(
                    video.state(),
                    one,
                    final(session).session().video()->0.state(),
                )
                &&& one is Err ==> {
                    &&& reply is Err && reply->Err_0 == one->Err_0
                    &&& final(session).session().audio() == old(session).session().audio()
                }
                &&& one is Ok && old(session).session().audio() is None ==> reply is Ok
                &&& one is Ok ==> (old(session).session().audio() matches Some(audio) ==> exists|
                    other: Result<()>,
                |
                    #[trigger] (audio.character().starts)(
                        audio.state(),
                        other,
                        final(session).session().audio()->0.state(),
                    ) && (other is Ok <==> reply is Ok) && (other is Err ==> reply->Err_0
                        == other->Err_0))
            },
        old(session).session().video() is None ==> (old(session).session().audio() matches Some(audio) ==> exists|
            other: Result<()>,
        |
            #[trigger] (audio.character().starts)(
                audio.state(),
                other,
                final(session).session().audio()->0.state(),
            ) && (other is Ok <==> reply is Ok) && (other is Err ==> reply->Err_0 == other->Err_0)),
        old(session).session().video() is None && old(session).session().audio() is None ==> reply is Ok,
{
    let before = &old(session).session();
    if let Some(video) = before.video() {
        let end = final(session).session().video()->0.state();
        if let Some(audio) = before.audio() {
            let finish = final(session).session().audio()->0.state();
            let one = choose|first: Result<()>| #[trigger]
                video.character().may_start(video.state(), first, end) && match first {
                    Err(_) => crate::session::same_verdict(first, reply) && final(session).session().audio()
                        == before.audio(),
                    Ok(_) => exists|second: Result<()>| #[trigger]
                        audio.character().may_start(audio.state(), second, finish) && crate::session::same_verdict(
                            second,
                            reply,
                        ),
                };
            assert(video.character().may_start(video.state(), one, end));
            assert((video.character().starts)(video.state(), one, end));
            if one is Ok {
                let other = choose|second: Result<()>| #[trigger]
                    audio.character().may_start(audio.state(), second, finish) && crate::session::same_verdict(
                        second,
                        reply,
                    );
                assert(audio.character().may_start(audio.state(), other, finish));
                assert((audio.character().starts)(audio.state(), other, finish));
            }
        } else {
            let one = choose|first: Result<()>| #[trigger]
                video.character().may_start(video.state(), first, end) && crate::session::same_verdict(first, reply);
            assert(video.character().may_start(video.state(), one, end));
            assert((video.character().starts)(video.state(), one, end));
        }
    } else if let Some(audio) = before.audio() {
        let finish = final(session).session().audio()->0.state();
        let other = choose|first: Result<()>| #[trigger]
            audio.character().may_start(audio.state(), first, finish) && crate::session::same_verdict(first, reply);
        assert(audio.character().may_start(audio.state(), other, finish));
        assert((audio.character().starts)(audio.state(), other, finish));
    }
}

/// A stop asks each stream once, audio first and video only if that agreed, and
/// leaves each as its answer left it. The first refusal is the session's.
pub proof fn every_stream_is_stopped_once(session: &mut CaptureSession, reply: Result<()>)
    requires
        call_ensures(CaptureSession::stop, (session,), reply),
        old(session).session().runs(),
    ensures
        final(session).session().runs() <==> reply is Err,
        old(session).session().audio() matches Some(audio) ==> exists|one: Result<()>|
            {
                &&& #[trigger] (audio.character().stops)(
                    audio.state(),
                    one,
                    final(session).session().audio()->0.state(),
                )
                &&& one is Err ==> {
                    &&& reply is Err && reply->Err_0 == one->Err_0
                    &&& final(session).session().video() == old(session).session().video()
                }
                &&& one is Ok && old(session).session().video() is None ==> reply is Ok
                &&& one is Ok ==> (old(session).session().video() matches Some(video) ==> exists|
                    other: Result<()>,
                |
                    #[trigger] (video.character().stops)(
                        video.state(),
                        other,
                        final(session).session().video()->0.state(),
                    ) && (other is Ok <==> reply is Ok) && (other is Err ==> reply->Err_0
                        == other->Err_0))
            },
        old(session).session().audio() is None ==> (old(session).session().video() matches Some(video) ==> exists|
            other: Result<()>,
        |
            #[trigger] (video.character().stops)(
                video.state(),
                other,
                final(session).session().video()->0.state(),
            ) && (other is Ok <==> reply is Ok) && (other is Err ==> reply->Err_0 == other->Err_0)),
        old(session).session().audio() is None && old(session).session().video() is None ==> reply is Ok,
{
    let before = &old(session).session();
    if let Some(audio) = before.audio() {
        let end = final(session).session().audio()->0.state();
        if let Some(video) = before.video() {
            let finish = final(session).session().video()->0.state();
            let one = choose|first: Result<()>| #[trigger]
                audio.character().may_stop(audio.state(), first, end) && match first {
                    Err(_) => crate::session::same_verdict(first, reply) && final(session).session().video()
                        == before.video(),
                    Ok(_) => exists|second: Result<()>| #[trigger]
                        video.character().may_stop(video.state(), second, finish) && crate::session::same_verdict(
                            second,
                            reply,
                        ),
                };
            assert(audio.character().may_stop(audio.state(), one, end));
            assert((audio.character().stops)(audio.state(), one, end));
            if one is Ok {
                let other = choose|second: Result<()>| #[trigger]
                    video.character().may_stop(video.state(), second, finish) && crate::session::same_verdict(
                        second,
                        reply,
                    );
                assert(video.character().may_stop(video.state(), other, finish));
                assert((video.character().stops)(video.state(), other, finish));
            }
        } else {
            let one = choose|first: Result<()>| #[trigger]
                audio.character().may_stop(audio.state(), first, end) && crate::session::same_verdict(first, reply);
            assert(audio.character().may_stop(audio.state(), one, end));
            assert((audio.character().stops)(audio.state(), one, end));
        }
    } else if let Some(video) = before.video() {
        let finish = final(session).session().video()->0.state();
        let other = choose|first: Result<()>| #[trigger]
            video.character().may_stop(video.state(), first, finish) && crate::session::same_verdict(first, reply);
        assert(video.character().may_stop(video.state(), other, finish));
        assert((video.character().stops)(video.state(), other, finish));
    }
}

/// A builder remembers the token that it is given, and nothing else changes by
/// it.
pub proof fn tokens_are_remembered(
    builder: SessionBuilder,
    before: &SessionConfig,
    token: String,
    changed: SessionBuilder,
    after: &SessionConfig,
)
    requires
        call_ensures(SessionBuilder::config, (&builder,), before),
        call_ensures(SessionBuilder::restore_token::<String>, (builder, token), changed),
        call_ensures(SessionBuilder::config, (&changed,), after),
    ensures
        after.restore_token matches Some(kept) && call_ensures(
            <String as Into<String>>::into,
            (token,),
            kept,
        ),
        *after == (SessionConfig { restore_token: after.restore_token, ..*before }),
{
}

} // verus!
