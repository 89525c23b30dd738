//! Linux capture backends: Wayland (XDG portal + PipeWire), X11 (polling
//! GetImage), and PipeWire system audio.
//!
//! Backend selection policy:
//! - `Auto` in a Wayland session → portal backend.
//! - `Auto` elsewhere with `DISPLAY` set → X11 backend.
//! - Explicit `LinuxWaylandPortal` / `LinuxX11` preferences are honored
//!   as-is; X11 works inside Wayland sessions too (via Xwayland) when asked
//!   for explicitly.
//! - `AudioCapture::SystemMix` uses PipeWire regardless of session type, so
//!   audio-only sessions never need a portal dialog or an X server.
use vstd::prelude::*;

use crate::backend::{BackendInfo, BackendKind, BackendPreference};
use crate::config::{AudioCapture, SessionConfig};
use crate::error::{PinrayError, Result};
use crate::platform_linux::audio::resolve_system_audio;
use crate::platform_linux::wayland::{is_wayland_session, resolve_wayland_backend};
use crate::platform_linux::x11::resolve_x11_backend;
use crate::source::{
    list_sources, AudioDeviceSource, CaptureSource, DisplaySource, SourceId, WindowSource,
};
use crate::target::TargetOs;

pub mod audio;
pub mod clock;
pub mod cursor;
pub mod format;
pub mod portal;
pub mod reading;
pub mod runtime;
pub mod screencast;
pub mod wayland;
pub mod x11;
pub mod x11_sources;

verus! {

pub const SYSTEM_AUDIO_ID: &'static str = "audio:system-mix";

/// What the environment says about the session that a program runs in.
#[derive(Debug)]
pub struct Environment {
    /// `XDG_SESSION_TYPE`, where it is set and is text.
    pub session_type: Option<String>,
    /// `WAYLAND_DISPLAY` is set.
    pub wayland_display: bool,
    /// `DISPLAY` is set.
    pub display: bool,
}

impl Environment {
    /// The session is a Wayland one.
    pub open spec fn is_wayland(&self) -> bool {
        crate::platform_linux::wayland::is_wayland(
            match self.session_type {
                Some(kind) => Some(kind@),
                None => None,
            },
            self.wayland_display,
        )
    }

    /// X11 is reachable when a `DISPLAY` is set — this includes Xwayland, which
    /// makes the backend usable (against the Xwayland root) inside Wayland
    /// sessions when explicitly requested.
    pub fn is_x11_available(&self) -> (available: bool)
        ensures
            available == self.display,
    {
        self.display
    }
}

/// Wayland video, as it is listed.
pub open spec fn listed_wayland_backend() -> BackendInfo {
    BackendInfo {
        kind: BackendKind::LinuxWaylandPortal,
        supports_audio: false,
        zero_copy: false,
        notes: "Wayland portal + PipeWire video backend",
    }
}

/// The backends of this platform.
pub fn available_backends(target: TargetOs) -> (backends: Vec<BackendInfo>)
    ensures
        backends@ == if target == TargetOs::Linux {
            seq![
                listed_wayland_backend(),
                crate::platform_linux::audio::pipewire_audio_backend(),
                crate::platform_linux::x11::x11_backend(),
            ]
        } else {
            Seq::<BackendInfo>::empty()
        },
{
    let mut backends: Vec<BackendInfo> = Vec::new();
    if target == TargetOs::Linux {
        backends.push(
            BackendInfo {
                kind: BackendKind::LinuxWaylandPortal,
                supports_audio: false,
                zero_copy: false,
                notes: "Wayland portal + PipeWire video backend",
            },
        );
        backends.push(crate::platform_linux::audio::backend_info());
        backends.push(crate::platform_linux::x11::backend_info());
    }
    backends
}

/// The displays and windows of an X server.
#[derive(Debug)]
pub struct X11Sources {
    pub displays: Vec<DisplaySource>,
    pub windows: Vec<WindowSource>,
}

/// The system's audio as it is listed.
pub open spec fn system_audio() -> crate::source::AudioDeviceView {
    crate::source::AudioDeviceView {
        id: SYSTEM_AUDIO_ID@,
        name: "System audio (PipeWire sink monitor)"@,
        is_default: true,
    }
}

/// Enumerates displays and windows via X11 when a `DISPLAY` is reachable
/// (including Xwayland). Pure Wayland cannot enumerate without opening a
/// portal dialog, so there the list only carries the system-audio source and
/// display selection happens inside the portal dialog at session build.
///
/// `x11` is what the X server answered, where there is one. A server that could
/// not answer has nothing listed.
pub fn enumerate_sources(target: TargetOs, x11: Option<Result<X11Sources>>) -> (reply: Result<
    Vec<CaptureSource>,
>)
    ensures
        reply matches Ok(sources) && crate::source::listing(sources@) == if target
            == TargetOs::Linux {
            match x11 {
                Some(Ok(found)) => crate::source::full_listing(
                    found.displays@,
                    found.windows@,
                    system_audio(),
                ),
                _ => seq![crate::source::CaptureSourceView::SystemAudio(system_audio())],
            }
        } else {
            Seq::empty()
        },
{
    if target != TargetOs::Linux {
        let nothing: Vec<CaptureSource> = Vec::new();
        assert(crate::source::listing(nothing@) =~= Seq::empty());
        return Ok(nothing);
    }
    let audio: AudioDeviceSource = AudioDeviceSource {
        id: SourceId::new(SYSTEM_AUDIO_ID),
        name: "System audio (PipeWire sink monitor)".to_owned(),
        is_default: true,
    };
    match x11 {
        Some(Ok(found)) => Ok(list_sources(found.displays, found.windows, audio)),
        _ => {
            let sources: Vec<CaptureSource> = list_sources(Vec::new(), Vec::new(), audio);
            assert(crate::source::listing(sources@)
                =~= seq![crate::source::CaptureSourceView::SystemAudio(system_audio())]);
            Ok(sources)
        },
    }
}

/// Where the video of a session comes from.
#[derive(Debug, Clone, Copy, PartialEq, Eq, Structural)]
pub enum VideoOrigin {
    /// The screencast portal, after its permission dialog.
    Portal,
    /// The X server.
    X11,
}

/// How a session is captured.
#[derive(Debug, Clone, Copy, PartialEq, Eq, Structural)]
pub struct LinuxPlan {
    /// The system's audio is captured through PipeWire.
    pub system_audio: bool,
    pub video: Option<VideoOrigin>,
}

/// Which backend answers for a session.
pub enum Choice {
    /// The session is none of this platform's business.
    NotOurs,
    Origin(VideoOrigin),
    /// X11 was asked for, and there is no X server.
    NoDisplay,
    /// Nothing that video could come from.
    NoSession,
}

/// The selection policy.
pub open spec fn choice(config: SessionConfig, environment: Environment) -> Choice {
    match config.backend_preference {
        BackendPreference::LinuxWaylandPortal => Choice::Origin(VideoOrigin::Portal),
        BackendPreference::LinuxX11 => if config.video_target is Some && !environment.display {
            Choice::NoDisplay
        } else {
            Choice::Origin(VideoOrigin::X11)
        },
        BackendPreference::Auto => if config.video_target is None && config.audio_capture is Some {
            // Nothing but audio: the session type does not matter.
            Choice::Origin(VideoOrigin::X11)
        } else if environment.is_wayland() {
            Choice::Origin(VideoOrigin::Portal)
        } else if environment.display {
            Choice::Origin(VideoOrigin::X11)
        } else {
            Choice::NoSession
        },
        _ => Choice::NotOurs,
    }
}

/// What comes of a session whose video is to come from `origin`.
pub open spec fn is_planned(
    reply: Result<LinuxPlan>,
    config: SessionConfig,
    origin: VideoOrigin,
) -> bool {
    if config.audio_capture matches Some(AudioCapture::Microphone(_)) {
        crate::error::is_unsupported(reply, "linux microphone capture is not implemented yet"@)
    } else if config.video_target is None && config.audio_capture is None {
        crate::error::is_invalid_config(reply, crate::config::nothing_to_capture())
    } else {
        reply == Ok::<LinuxPlan, PinrayError>(
            LinuxPlan {
                system_audio: config.audio_capture is Some,
                video: if config.video_target is Some {
                    Some(origin)
                } else {
                    None
                },
            },
        )
    }
}

/// Plans a session whose video is to come from `origin`.
///
/// System audio is captured natively from the default sink monitor and needs
/// neither a portal round-trip nor an X server, so audio-only sessions skip
/// both.
pub fn resolve_backend(config: &SessionConfig, origin: VideoOrigin) -> (reply: Result<LinuxPlan>)
    ensures
        is_planned(reply, *config, origin),
{
    let system_audio: bool = match resolve_system_audio(&config.audio_capture) {
        Ok(wanted) => wanted,
        Err(error) => {
            return Err(error);
        },
    };
    if config.video_target.is_none() && !system_audio {
        return Err(
            PinrayError::InvalidConfig(
                "at least one of video_target or audio_capture must be set".to_owned(),
            ),
        );
    }
    Ok(
        LinuxPlan {
            system_audio,
            video: if config.video_target.is_some() {
                Some(origin)
            } else {
                None
            },
        },
    )
}

/// Plans a session. `None` if the session is none of this platform's business.
pub fn try_resolve(target: TargetOs, environment: &Environment, config: &SessionConfig) -> (reply: Result<
    Option<LinuxPlan>,
>)
    ensures
        target != TargetOs::Linux ==> reply == Ok::<Option<LinuxPlan>, PinrayError>(None),
        target == TargetOs::Linux ==> match choice(*config, *environment) {
            Choice::NotOurs => reply == Ok::<Option<LinuxPlan>, PinrayError>(None),
            Choice::Origin(origin) => match reply {
                Ok(Some(plan)) => is_planned(Ok(plan), *config, origin),
                Ok(None) => false,
                Err(error) => is_planned(Err(error), *config, origin),
            },
            Choice::NoDisplay => crate::error::is_unavailable(
                reply,
                "x11 backend requested but DISPLAY is not set"@,
            ),
            Choice::NoSession => crate::error::is_unavailable(
                reply,
                "no wayland session and no DISPLAY; cannot capture video on this host"@,
            ),
        },
{
    if target != TargetOs::Linux {
        return Ok(None);
    }
    let planned: Result<LinuxPlan> = match config.backend_preference {
        BackendPreference::LinuxWaylandPortal => resolve_wayland_backend(config),
        BackendPreference::LinuxX11 => {
            if config.video_target.is_some() && !environment.is_x11_available() {
                return Err(
                    PinrayError::BackendUnavailable(
                        "x11 backend requested but DISPLAY is not set".to_owned(),
                    ),
                );
            }
            resolve_x11_backend(config)
        },
        BackendPreference::Auto => {
            let session_type: Option<&str> = match &environment.session_type {
                Some(kind) => Some(kind.as_str()),
                None => None,
            };
            if config.video_target.is_none() && config.audio_capture.is_some() {
                // The session type does not matter; the X server is not touched
                // where there is no video.
                resolve_x11_backend(config)
            } else if is_wayland_session(session_type, environment.wayland_display) {
                resolve_wayland_backend(config)
            } else if environment.is_x11_available() {
                resolve_x11_backend(config)
            } else {
                return Err(
                    PinrayError::BackendUnavailable(
                        "no wayland session and no DISPLAY; cannot capture video on this host".to_owned(),
                    ),
                );
            }
        },
        _ => {
            return Ok(None);
        },
    };
    match planned {
        Ok(plan) => Ok(Some(plan)),
        Err(error) => Err(error),
    }
}

/// A session of the system's audio alone is planned on every host, whatever the
/// preference, and touches neither the portal nor an X server.
pub proof fn audio_alone_needs_no_session(config: SessionConfig, environment: Environment)
    requires
        config.video_target is None,
        config.audio_capture == Some(AudioCapture::SystemMix),
        config.backend_preference == BackendPreference::Auto || config.backend_preference
            == BackendPreference::LinuxX11 || config.backend_preference
            == BackendPreference::LinuxWaylandPortal,
    ensures
        choice(config, environment) matches Choice::Origin(origin) && is_planned(
            Ok(LinuxPlan { system_audio: true, video: None }),
            config,
            origin,
        ),
{
}

/// `Auto` takes the portal in a Wayland session, even beside an X server, and
/// the X server elsewhere.
pub proof fn auto_follows_the_session(config: SessionConfig, environment: Environment)
    requires
        config.backend_preference == BackendPreference::Auto,
        config.video_target is Some,
    ensures
        environment.is_wayland() ==> choice(config, environment) == Choice::Origin(
            VideoOrigin::Portal,
        ),
        !environment.is_wayland() && environment.display ==> choice(config, environment)
            == Choice::Origin(VideoOrigin::X11),
        !environment.is_wayland() && !environment.display ==> choice(
            config,
            environment,
        ) is NoSession,
{
}

/// An explicit preference is honored whatever kind of session this is; X11 just
/// needs a server.
pub proof fn explicit_preferences_are_honored(config: SessionConfig, environment: Environment)
    ensures
        config.backend_preference == BackendPreference::LinuxWaylandPortal ==> choice(
            config,
            environment,
        ) == Choice::Origin(VideoOrigin::Portal),
        config.backend_preference == BackendPreference::LinuxX11 && environment.display ==> choice(
            config,
            environment,
        ) == Choice::Origin(VideoOrigin::X11),
{
}

/// No plan comes of a session that wants a microphone.
pub proof fn microphones_are_unsupported(
    config: SessionConfig,
    origin: VideoOrigin,
    reply: Result<LinuxPlan>,
)
    requires
        config.audio_capture matches Some(AudioCapture::Microphone(_)),
        is_planned(reply, config, origin),
    ensures
        reply matches Err(PinrayError::Unsupported(_)),
{
}

/// Other platforms have no business here: nothing is planned, nothing is listed,
/// and there are no backends.
pub proof fn other_platforms_are_left_alone(
    target: TargetOs,
    environment: &Environment,
    config: &SessionConfig,
    reply: Result<Option<LinuxPlan>>,
    x11: Option<Result<X11Sources>>,
    sources: Result<Vec<CaptureSource>>,
    backends: Vec<BackendInfo>,
)
    requires
        target != TargetOs::Linux,
        call_ensures(try_resolve, (target, environment, config), reply),
        call_ensures(enumerate_sources, (target, x11), sources),
        call_ensures(available_backends, (target,), backends),
    ensures
        reply == Ok::<Option<LinuxPlan>, PinrayError>(None),
        sources matches Ok(found) && found@.len() == 0,
        backends@.len() == 0,
{
    assert(crate::source::listing(sources->Ok_0@).len() == sources->Ok_0@.len());
}

/// A session with video is planned where its preference says: with the portal if
/// that is asked for, or in a Wayland session without a preference; with the X
/// server if that is asked for or no Wayland session is at hand, as long as
/// there is a display. The preferences of other platforms are passed over.
pub proof fn video_comes_from_where_it_is_preferred(
    environment: &Environment,
    config: &SessionConfig,
    session_type: Option<&str>,
    wayland: bool,
    reply: Result<Option<LinuxPlan>>,
)
    requires
        call_ensures(try_resolve, (TargetOs::Linux, environment, config), reply),
        environment.session_type matches Some(kind) ==> (session_type matches Some(text) && text@
            == kind@),
        environment.session_type is None ==> session_type is None,
        call_ensures(is_wayland_session, (session_type, environment.wayland_display), wayland),
        config.video_target is Some,
        !(config.audio_capture matches Some(AudioCapture::Microphone(_))),
    ensures
        ({
            let planned = |origin: VideoOrigin|
                reply matches Ok(Some(plan)) && plan.video == Some(origin) && (plan.system_audio
                    <==> config.audio_capture is Some);
            match config.backend_preference {
                BackendPreference::LinuxWaylandPortal => planned(VideoOrigin::Portal),
                BackendPreference::LinuxX11 => if environment.display {
                    planned(VideoOrigin::X11)
                } else {
                    reply matches Err(PinrayError::BackendUnavailable(_))
                },
                BackendPreference::Auto => if wayland {
                    planned(VideoOrigin::Portal)
                } else if environment.display {
                    planned(VideoOrigin::X11)
                } else {
                    reply matches Err(PinrayError::BackendUnavailable(_))
                },
                _ => reply == Ok::<Option<LinuxPlan>, PinrayError>(None),
            }
        }),
{
}

/// The system's audio alone is planned without video, whatever the environment.
pub proof fn audio_alone_is_always_planned(
    environment: &Environment,
    config: &SessionConfig,
    reply: Result<Option<LinuxPlan>>,
)
    requires
        call_ensures(try_resolve, (TargetOs::Linux, environment, config), reply),
        config.video_target is None,
        config.audio_capture == Some(AudioCapture::SystemMix),
        config.backend_preference == BackendPreference::Auto || config.backend_preference
            == BackendPreference::LinuxX11 || config.backend_preference
            == BackendPreference::LinuxWaylandPortal,
    ensures
        reply matches Ok(Some(plan)) && plan.video is None && plan.system_audio,
{
}

/// A plan has video exactly if the session names a target for it, from where it
/// is told, and the system's audio exactly if the session wants it. Microphones
/// are not supported, and a session of nothing is refused.
pub proof fn plans_have_what_the_session_wants(
    config: &SessionConfig,
    origin: VideoOrigin,
    reply: Result<LinuxPlan>,
    portal: Result<LinuxPlan>,
    x11: Result<LinuxPlan>,
)
    requires
        call_ensures(resolve_backend, (config, origin), reply),
        call_ensures(resolve_wayland_backend, (config,), portal),
        call_ensures(resolve_x11_backend, (config,), x11),
    ensures
        reply matches Ok(plan) ==> {
            &&& plan.video == if config.video_target is Some {
                Some(origin)
            } else {
                None
            }
            &&& plan.system_audio <==> config.audio_capture == Some(AudioCapture::SystemMix)
            &&& plan.video is Some || plan.system_audio
        },
        reply matches Err(problem) ==> {
            &&& problem is Unsupported <==> (config.audio_capture matches Some(
                AudioCapture::Microphone(_),
            ))
            &&& problem is InvalidConfig <==> config.video_target is None && config.audio_capture
                is None
            &&& problem is Unsupported || problem is InvalidConfig
        },
        portal matches Ok(plan) ==> plan.video != Some(VideoOrigin::X11),
        x11 matches Ok(plan) ==> plan.video != Some(VideoOrigin::Portal),
        portal is Ok <==> reply is Ok,
        x11 is Ok <==> reply is Ok,
{
}

/// The displays and windows of the X server are listed as it names them, and the
/// system's audio behind them; without an X server the audio alone.
pub proof fn sources_are_those_of_the_server(
    x11: Option<Result<X11Sources>>,
    reply: Result<Vec<CaptureSource>>,
)
    requires
        call_ensures(enumerate_sources, (TargetOs::Linux, x11), reply),
    ensures
        reply matches Ok(sources) && {
            let displays = match x11 {
                Some(Ok(found)) => found.displays@,
                _ => Seq::empty(),
            };
            let windows = match x11 {
                Some(Ok(found)) => found.windows@,
                _ => Seq::empty(),
            };
            let last = sources@.len() - 1;
            &&& sources@.len() == displays.len() + windows.len() + 1
            &&& forall|i: int|
                0 <= i < displays.len() ==> ((#[trigger] sources@[i]) matches CaptureSource::Display(
                    display,
                ) && display@ == displays[i]@)
            &&& forall|i: int|
                displays.len() <= i < last ==> ((
                #[trigger] sources@[i]) matches CaptureSource::Window(window) && window@ == windows[i
                    - displays.len()]@)
            &&& sources@[last] matches CaptureSource::SystemAudio(audio) && audio.id.0@
                == "audio:system-mix"@ && audio.is_default && audio.name@
                == "System audio (PipeWire sink monitor)"@
        },
{
    let sources = reply->Ok_0;
    let view = crate::source::listing(sources@);
    assert(view.len() == sources@.len());
    assert forall|i: int| 0 <= i < sources@.len() implies (#[trigger] sources@[i])@ == view[i] by {}
    assert(sources@[sources@.len() - 1]@ == view[sources@.len() - 1]);
}

/// Every backend of the platform is listed once: two for video, which have no
/// audio of their own, and one for audio. None hands frames out uncopied.
pub proof fn every_backend_is_listed(backends: Vec<BackendInfo>)
    requires
        call_ensures(available_backends, (TargetOs::Linux,), backends),
    ensures
        backends@.len() == 3,
        backends@[0].kind == BackendKind::LinuxWaylandPortal,
        backends@[0].notes@ == "Wayland portal + PipeWire video backend"@,
        backends@[1].kind == BackendKind::LinuxPipeWireAudio,
        backends@[2].kind == BackendKind::LinuxX11,
        forall|i: int|
            0 <= i < 3 ==> !(#[trigger] backends@[i]).zero_copy && (backends@[i].supports_audio
                <==> i == 1),
{
}

/// Every refusal tells why.
pub proof fn refusals_tell_why(
    environment: &Environment,
    config: &SessionConfig,
    reply: Result<Option<LinuxPlan>>,
    available: bool,
)
    requires
        call_ensures(try_resolve, (TargetOs::Linux, environment, config), reply),
        call_ensures(Environment::is_x11_available, (environment,), available),
    ensures
        available <==> environment.display,
        reply matches Err(PinrayError::BackendUnavailable(message)) ==> {
            &&& !available
            &&& config.backend_preference == BackendPreference::LinuxX11 ==> message@
                == "x11 backend requested but DISPLAY is not set"@
            &&& config.backend_preference == BackendPreference::Auto ==> message@
                == "no wayland session and no DISPLAY; cannot capture video on this host"@
        },
        reply matches Err(PinrayError::Unsupported(message)) ==> message@
            == "linux microphone capture is not implemented yet"@,
        reply matches Err(PinrayError::InvalidConfig(message)) ==> message@
            == "at least one of video_target or audio_capture must be set"@,
{
}

} // verus!
