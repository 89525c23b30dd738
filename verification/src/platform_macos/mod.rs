//! The macOS capture backend: ScreenCaptureKit, for displays, windows and the
//! system's audio in one stream.
use vstd::prelude::*;

use crate::backend::{BackendInfo, BackendKind, BackendPreference};
use crate::config::{AudioCapture, SessionConfig};
use crate::error::{PinrayError, Result};
use crate::platform_macos::capture::captures_audio;
use crate::platform_macos::content::{list_content, DisplayReport, WindowReport};
use crate::source::CaptureSource;
use crate::target::TargetOs;

pub mod capture;
pub mod content;

verus! {

/// The backends of this platform.
pub fn available_backends(target: TargetOs) -> (backends: Vec<BackendInfo>)
    ensures
        backends@ == if target == TargetOs::MacOs {
            seq![crate::platform_macos::capture::sck_backend(true)]
        } else {
            Seq::<BackendInfo>::empty()
        },
{
    let mut backends: Vec<BackendInfo> = Vec::new();
    if target == TargetOs::MacOs {
        backends.push(crate::platform_macos::capture::backend_info(true));
    }
    backends
}

/// What the system shares for capture.
#[derive(Debug)]
pub struct ShareableContent {
    pub displays: Vec<DisplayReport>,
    pub windows: Vec<WindowReport>,
}

/// Everything there is to capture, made of what the system shared.
pub fn enumerate_sources(target: TargetOs, content: Result<ShareableContent>) -> (reply: Result<
    Vec<CaptureSource>,
>)
    ensures
        target != TargetOs::MacOs ==> (reply matches Ok(sources) && sources@.len() == 0),
        target == TargetOs::MacOs ==> match content {
            Ok(shared) => reply matches Ok(sources) && crate::source::listing(sources@)
                == crate::platform_macos::content::full_listing(shared.displays@, shared.windows@),
            Err(error) => reply == Err::<Vec<CaptureSource>, PinrayError>(error),
        },
{
    if target != TargetOs::MacOs {
        return Ok(Vec::new());
    }
    match content {
        Ok(shared) => Ok(list_content(&shared.displays, &shared.windows)),
        Err(error) => Err(error),
    }
}

/// How a session is captured: one stream for video, and for the system's audio
/// beside it if that is wanted.
#[derive(Debug, Clone, Copy, PartialEq, Eq, Structural)]
pub struct MacPlan {
    pub capture_audio: bool,
}

/// The backend of this platform is what the session asks for.
pub open spec fn applies(preference: BackendPreference) -> bool {
    preference == BackendPreference::Auto || preference == BackendPreference::MacScreenCaptureKit
}

/// Plans a session. `None` if the session is none of this platform's business.
pub fn try_resolve(target: TargetOs, config: &SessionConfig) -> (reply: Result<Option<MacPlan>>)
    ensures
        target != TargetOs::MacOs || !applies(config.backend_preference) ==> reply
            == Ok::<Option<MacPlan>, PinrayError>(None),
        target == TargetOs::MacOs && applies(config.backend_preference) ==> match config.audio_capture {
            Some(AudioCapture::Microphone(_)) => crate::error::is_unsupported(
                reply,
                "macos microphone capture is not implemented yet"@,
            ),
            wanted => reply == Ok::<Option<MacPlan>, PinrayError>(
                Some(MacPlan { capture_audio: wanted is Some }),
            ),
        },
{
    let preference: BackendPreference = config.backend_preference;
    if target != TargetOs::MacOs || !(preference == BackendPreference::Auto || preference
        == BackendPreference::MacScreenCaptureKit) {
        return Ok(None);
    }
    match captures_audio(config) {
        Ok(capture_audio) => Ok(Some(MacPlan { capture_audio })),
        Err(error) => Err(error),
    }
}

/// Sessions are planned on this platform, without a preference or with one for
/// its backend; the stream carries audio exactly if the system's is wanted.
pub proof fn sessions_are_planned_here(
    target: TargetOs,
    config: &SessionConfig,
    reply: Result<Option<MacPlan>>,
)
    requires
        call_ensures(try_resolve, (target, config), reply),
    ensures
        reply matches Ok(Some(plan)) ==> {
            &&& target == TargetOs::MacOs
            &&& config.backend_preference == BackendPreference::Auto || config.backend_preference
                == BackendPreference::MacScreenCaptureKit
            &&& plan.capture_audio <==> config.audio_capture == Some(AudioCapture::SystemMix)
        },
        (reply matches Ok(None)) <==> target != TargetOs::MacOs || !(config.backend_preference
            == BackendPreference::Auto || config.backend_preference
            == BackendPreference::MacScreenCaptureKit),
        reply matches Err(problem) ==> problem is Unsupported && (
        config.audio_capture matches Some(AudioCapture::Microphone(_))),
{
}

/// Other platforms have no sources and no backends here; this one has one, with
/// audio, that copies its frames.
pub proof fn one_backend_is_listed(
    target: TargetOs,
    backends: Vec<BackendInfo>,
    content: Result<ShareableContent>,
    sources: Result<Vec<CaptureSource>>,
)
    requires
        call_ensures(available_backends, (target,), backends),
        call_ensures(enumerate_sources, (target, content), sources),
    ensures
        target != TargetOs::MacOs ==> backends@.len() == 0 && (sources matches Ok(found)
            && found@.len() == 0),
        target == TargetOs::MacOs ==> {
            &&& backends@.len() == 1
            &&& backends@[0].kind == BackendKind::MacScreenCaptureKit
            &&& backends@[0].supports_audio
            &&& !backends@[0].zero_copy
            &&& sources is Ok <==> content is Ok
            &&& content matches Err(error) ==> sources == Err::<Vec<CaptureSource>, PinrayError>(
                error,
            )
        },
{
}

/// What is listed is what the content lists.
pub proof fn shared_content_is_listed(
    shared: ShareableContent,
    sources: Vec<CaptureSource>,
    listed: Vec<CaptureSource>,
)
    requires
        call_ensures(enumerate_sources, (TargetOs::MacOs, Ok(shared)), Ok(sources)),
        call_ensures(list_content, (&shared.displays, &shared.windows), listed),
    ensures
        sources@.len() == listed@.len(),
        forall|i: int| 0 <= i < sources@.len() ==> (#[trigger] sources@[i])@ == listed@[i]@,
{
    let one = crate::source::listing(sources@);
    let other = crate::source::listing(listed@);
    assert(one.len() == sources@.len() && other.len() == listed@.len());
    assert forall|i: int| 0 <= i < sources@.len() implies (#[trigger] sources@[i])@ == listed@[i]@ by {
        assert(one[i] == sources@[i]@);
        assert(other[i] == listed@[i]@);
    }
}

} // verus!
