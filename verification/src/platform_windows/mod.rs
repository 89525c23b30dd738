//! Windows capture backends: DXGI desktop duplication, Windows Graphics
//! Capture (WGC), and WASAPI loopback audio.
//!
//! Backend selection policy:
//! - Display target + `Auto`: DXGI first, WGC as fallback.
//! - Window target + `Auto`: WGC (DXGI cannot capture single windows).
//! - Explicit `WindowsDxgi` / `WindowsWgc` preferences are honored as-is.
//! - `AudioCapture::SystemMix` pairs a WASAPI loopback backend with either
//!   video backend, or runs standalone for audio-only sessions.
use vstd::prelude::*;

use crate::backend::{
    bundle_backends, AudioBackend, BackendBundle, BackendInfo, BackendKind, BackendPreference,
    VideoBackend,
};
use crate::config::{AudioCapture, SessionConfig, VideoCaptureTarget};
use crate::error::{PinrayError, Result};
use crate::frame::PixelFormat;
use crate::source::{CaptureSource, SourceId, WindowSource};
use crate::target::TargetOs;
use crate::text::joined;

pub mod d3d;
pub mod dxgi;
pub mod enumerate;
pub mod wasapi;
pub mod wgc;

use crate::platform_windows::dxgi::DxgiStream;
use crate::platform_windows::enumerate::{
    enumerate_all, enumerate_displays, enumerate_windows, find_window, DisplayTable, OutputReport,
    WindowReport,
};
use crate::platform_windows::wgc::WgcStream;

verus! {

/// The backends of this platform.
pub fn available_backends(target: TargetOs) -> (backends: Vec<BackendInfo>)
    ensures
        backends@ == if target == TargetOs::Windows {
            seq![
                crate::platform_windows::dxgi::dxgi_backend(),
                crate::platform_windows::wgc::wgc_backend(),
                crate::platform_windows::wasapi::wasapi_backend(),
            ]
        } else {
            Seq::<BackendInfo>::empty()
        },
{
    let mut backends: Vec<BackendInfo> = Vec::new();
    if target == TargetOs::Windows {
        backends.push(DxgiStream::backend_info());
        backends.push(WgcStream::backend_info());
        backends.push(crate::platform_windows::wasapi::backend_info());
    }
    backends
}

/// Everything there is to capture, made of what the system reported.
pub fn enumerate_sources(
    target: TargetOs,
    outputs: Result<Vec<OutputReport>>,
    windows: Result<Vec<WindowReport>>,
) -> (reply: Result<Vec<CaptureSource>>)
    requires
        target == TargetOs::Windows ==> (outputs matches Ok(reports) ==> forall|i: int|
            0 <= i < reports@.len() && (#[trigger] reports@[i]).attached_to_desktop
                ==> reports@[i].is_measurable()),
    ensures
        target != TargetOs::Windows ==> (reply matches Ok(sources) && sources@.len() == 0),
        target == TargetOs::Windows ==> match (outputs, windows) {
            (Err(error), _) => reply == Err::<Vec<CaptureSource>, PinrayError>(error),
            (Ok(_), Err(error)) => reply == Err::<Vec<CaptureSource>, PinrayError>(error),
            (Ok(outputs), Ok(windows)) => reply matches Ok(sources) && lists_everything(
                crate::source::listing(sources@),
                outputs@,
                windows@,
            ),
        },
{
    if target != TargetOs::Windows {
        return Ok(Vec::new());
    }
    match (outputs, windows) {
        (Err(error), _) => Err(error),
        (Ok(_), Err(error)) => Err(error),
        (Ok(outputs), Ok(windows)) => {
            let table: crate::platform_windows::enumerate::DisplayTable = enumerate_displays(
                &outputs,
            );
            let listed = enumerate_windows(&windows);
            let sources = enumerate_all(table.sources, listed);
            assert(crate::source::listing(sources@) =~= Seq::new(
                table.sources@.len(),
                |i: int| crate::source::CaptureSourceView::Display(table.sources@[i]@),
            ) + Seq::new(
                listed@.len(),
                |i: int| crate::source::CaptureSourceView::Window(listed@[i]@),
            ) + seq![
                crate::source::CaptureSourceView::SystemAudio(
                    crate::platform_windows::enumerate::system_audio(),
                ),
            ]);
            proof {
                let displays = crate::platform_windows::enumerate::desktop_outputs(outputs@);
                let view = crate::source::listing(sources@);
                assert forall|i: int| 0 <= i < displays.len() implies #[trigger] view[i]
                    == crate::source::CaptureSourceView::Display(
                    output_listing(outputs@[displays[i]]),
                ) by {
                    assert(table.outputs@[i] == displays[i]);
                }
            }
            Ok(sources)
        },
    }
}

/// An output as it is listed.
pub open spec fn output_listing(report: OutputReport) -> crate::source::DisplayView {
    crate::platform_windows::enumerate::display_listing(
        report,
        crate::platform_windows::enumerate::utf16_lossy(
            crate::platform_windows::enumerate::before_nul(report.device_name@),
        ),
    )
}

/// A listing shows the outputs of the desktop, then the windows that can be
/// seen and told apart, then the system's audio, and nothing else.
pub open spec fn lists_everything(
    listing: Seq<crate::source::CaptureSourceView>,
    outputs: Seq<OutputReport>,
    windows: Seq<WindowReport>,
) -> bool {
    let displays = crate::platform_windows::enumerate::desktop_outputs(outputs);
    let shown = crate::platform_windows::enumerate::window_listings(windows);
    &&& listing.len() == displays.len() + shown.len() + 1
    &&& forall|i: int|
        0 <= i < displays.len() ==> #[trigger] listing[i]
            == crate::source::CaptureSourceView::Display(output_listing(outputs[displays[i]]))
    &&& forall|i: int|
        displays.len() <= i < displays.len() + shown.len() ==> #[trigger] listing[i]
            == crate::source::CaptureSourceView::Window(shown[i - displays.len()])
    &&& listing.last() == crate::source::CaptureSourceView::SystemAudio(
        crate::platform_windows::enumerate::system_audio(),
    )
}

/// How the video of a session is captured.
#[derive(Debug, Clone, Copy, PartialEq, Eq, Structural)]
pub enum VideoPlan {
    /// The session has no video, but the system's audio.
    Nothing,
    /// The display that the session names, by desktop duplication. Where that
    /// is unavailable, `or_wgc` says whether WGC is tried in its place.
    DuplicateDisplay { or_wgc: bool },
    /// The display that the session names, by WGC.
    CaptureDisplay,
    /// The window with this handle, by WGC.
    CaptureWindow { handle: isize },
}

/// The backends of this platform are what the session asks for.
pub open spec fn applies(preference: BackendPreference) -> bool {
    preference == BackendPreference::Auto || preference == BackendPreference::WindowsDxgi
        || preference == BackendPreference::WindowsWgc
}

/// Why a session cannot be captured here, found out before anything is tried:
/// the first of these that holds.
pub enum Refusal {
    PixelFormat,
    NegativeCrop,
    DuplicatedWindow,
    WindowId,
    /// Of a session without video: its audio is a microphone's.
    Microphone,
    /// The session has neither video nor audio.
    NothingToCapture,
}

pub open spec fn refusal(config: SessionConfig) -> Option<Refusal> {
    if config.pixel_format != PixelFormat::Bgra8888 && config.pixel_format
        != PixelFormat::Rgba8888 {
        Some(Refusal::PixelFormat)
    } else if config.crop_rect matches Some(rect) && (rect.x < 0 || rect.y < 0) {
        Some(Refusal::NegativeCrop)
    } else {
        match config.video_target {
            Some(VideoCaptureTarget::Window(id)) => if config.backend_preference
                == BackendPreference::WindowsDxgi {
                Some(Refusal::DuplicatedWindow)
            } else if crate::platform_windows::enumerate::handle_of(id.0@) is None {
                Some(Refusal::WindowId)
            } else {
                None
            },
            Some(VideoCaptureTarget::Display(_)) => None,
            None => match config.audio_capture {
                Some(AudioCapture::Microphone(_)) => Some(Refusal::Microphone),
                Some(AudioCapture::SystemMix) => None,
                None => Some(Refusal::NothingToCapture),
            },
        }
    }
}

/// How a refusal is reported.
pub open spec fn is_refused<T>(reply: Result<T>, config: SessionConfig, refusal: Refusal) -> bool {
    match refusal {
        Refusal::PixelFormat => crate::error::is_unsupported(
            reply,
            "windows backends support Bgra8888 and Rgba8888 only, got "@
                + crate::frame::pixel_format_name(config.pixel_format),
        ),
        Refusal::NegativeCrop => crate::error::is_invalid_config(
            reply,
            "crop_rect x and y must be non-negative on windows backends"@,
        ),
        Refusal::DuplicatedWindow => crate::error::is_unsupported(
            reply,
            "DXGI desktop duplication cannot capture a single window; use WindowsWgc or Auto"@,
        ),
        Refusal::WindowId => crate::error::is_invalid_config(
            reply,
            "invalid window source id: "@ + config.video_target->0->Window_0.0@,
        ),
        Refusal::Microphone => crate::error::is_unsupported(
            reply,
            "microphone capture is not implemented on windows yet"@,
        ),
        Refusal::NothingToCapture => crate::error::is_invalid_config(
            reply,
            crate::config::nothing_to_capture(),
        ),
    }
}

/// How the video of a session that is not refused is captured.
pub open spec fn video_plan(config: SessionConfig) -> VideoPlan {
    match config.video_target {
        None => VideoPlan::Nothing,
        Some(VideoCaptureTarget::Display(_)) => if config.backend_preference
            == BackendPreference::WindowsWgc {
            VideoPlan::CaptureDisplay
        } else {
            VideoPlan::DuplicateDisplay {
                or_wgc: config.backend_preference != BackendPreference::WindowsDxgi,
            }
        },
        Some(VideoCaptureTarget::Window(id)) => VideoPlan::CaptureWindow {
            handle: crate::platform_windows::enumerate::handle_of(id.0@)->0 as isize,
        },
    }
}

/// Plans a session: its video, and its audio where it has no video. The audio
/// of a session with video is settled once the video backend stands, by
/// [`complete`]. `None` if the session is none of this
/// platform's business.
pub fn try_resolve(target: TargetOs, config: &SessionConfig) -> (reply: Result<Option<VideoPlan>>)
    ensures
        target != TargetOs::Windows || !applies(config.backend_preference) ==> reply
            == Ok::<Option<VideoPlan>, PinrayError>(None),
        target == TargetOs::Windows && applies(config.backend_preference) ==> match refusal(
            *config,
        ) {
            Some(refusal) => is_refused(reply, *config, refusal),
            None => reply == Ok::<Option<VideoPlan>, PinrayError>(Some(video_plan(*config))),
        },
{
    let preference: BackendPreference = config.backend_preference;
    if target != TargetOs::Windows || !(preference == BackendPreference::Auto || preference
        == BackendPreference::WindowsDxgi || preference == BackendPreference::WindowsWgc) {
        return Ok(None);
    }
    match resolve(config) {
        Ok(plan) => Ok(Some(plan)),
        Err(error) => Err(error),
    }
}

/// Plans a session on this platform.
pub fn resolve(config: &SessionConfig) -> (reply: Result<VideoPlan>)
    ensures
        match refusal(*config) {
            Some(refusal) => is_refused(reply, *config, refusal),
            None => reply == Ok::<VideoPlan, PinrayError>(video_plan(*config)),
        },
{
    if config.pixel_format != PixelFormat::Bgra8888 && config.pixel_format
        != PixelFormat::Rgba8888 {
        return Err(
            PinrayError::Unsupported(
                joined(
                    "windows backends support Bgra8888 and Rgba8888 only, got ",
                    config.pixel_format.name(),
                ),
            ),
        );
    }
    if let Some(rect) = config.crop_rect {
        if rect.x < 0 || rect.y < 0 {
            return Err(
                PinrayError::InvalidConfig(
                    "crop_rect x and y must be non-negative on windows backends".to_owned(),
                ),
            );
        }
    }
    match &config.video_target {
        None => match resolve_audio(config) {
            Ok(true) => Ok(VideoPlan::Nothing),
            Ok(false) => Err(
                PinrayError::InvalidConfig(
                    "at least one of video_target or audio_capture must be set".to_owned(),
                ),
            ),
            Err(error) => Err(error),
        },
        Some(VideoCaptureTarget::Display(_)) => if config.backend_preference
            == BackendPreference::WindowsWgc {
            Ok(VideoPlan::CaptureDisplay)
        } else {
            Ok(
                VideoPlan::DuplicateDisplay {
                    or_wgc: config.backend_preference != BackendPreference::WindowsDxgi,
                },
            )
        },
        Some(VideoCaptureTarget::Window(id)) => {
            if config.backend_preference == BackendPreference::WindowsDxgi {
                return Err(
                    PinrayError::Unsupported(
                        "DXGI desktop duplication cannot capture a single window; use WindowsWgc or Auto".to_owned(),
                    ),
                );
            }
            match find_window(id) {
                Ok(handle) => Ok(VideoPlan::CaptureWindow { handle }),
                Err(error) => Err(error),
            }
        },
    }
}

/// What follows an attempt to duplicate a display.
#[derive(Debug)]
pub enum AfterDuplication<B> {
    /// The session's video is this backend. WGC is not tried.
    Keep(B),
    /// WGC is tried on the same display, and its outcome is the session's; this
    /// is why.
    TryWgc(PinrayError),
    /// The session is refused with this error. WGC is not tried.
    GiveUp(PinrayError),
}

/// What follows an attempt to duplicate a display that came to `opened`.
pub open spec fn duplication_outcome<B>(or_wgc: bool, opened: Result<B>) -> AfterDuplication<B> {
    match opened {
        Ok(backend) => AfterDuplication::Keep(backend),
        Err(error) => if or_wgc {
            AfterDuplication::TryWgc(error)
        } else {
            AfterDuplication::GiveUp(error)
        },
    }
}

/// Decides what follows an attempt to duplicate a display: WGC takes the place
/// of a duplication that failed, where the plan lets it.
pub fn after_duplication<B>(or_wgc: bool, opened: Result<B>) -> (step: AfterDuplication<B>)
    ensures
        step == duplication_outcome(or_wgc, opened),
{
    match opened {
        Ok(backend) => AfterDuplication::Keep(backend),
        Err(error) => if or_wgc {
            AfterDuplication::TryWgc(error)
        } else {
            AfterDuplication::GiveUp(error)
        },
    }
}

/// Whether a session wants the system's audio beside its video. It is asked
/// once the video backend stands.
pub fn resolve_audio(config: &SessionConfig) -> (reply: Result<bool>)
    ensures
        match config.audio_capture {
            Some(AudioCapture::Microphone(_)) => crate::error::is_unsupported(
                reply,
                "microphone capture is not implemented on windows yet"@,
            ),
            wanted => reply == Ok::<bool, PinrayError>(wanted is Some),
        },
{
    match &config.audio_capture {
        None => Ok(false),
        Some(AudioCapture::SystemMix) => Ok(true),
        Some(AudioCapture::Microphone(_)) => Err(
            PinrayError::Unsupported(
                "microphone capture is not implemented on windows yet".to_owned(),
            ),
        ),
    }
}

/// Puts the backends of a session together. `video` is what opening its video
/// came to, and what went wrong there goes first; `loopback` captures the
/// system's audio, for a session that wants it.
pub fn complete(
    config: &SessionConfig,
    video: Result<Option<Box<dyn VideoBackend>>>,
    loopback: Box<dyn AudioBackend>,
) -> (reply: Result<BackendBundle>)
    ensures
        is_completed(reply, *config, video, loopback),
{
    let video: Option<Box<dyn VideoBackend>> = match video {
        Ok(video) => video,
        Err(error) => {
            return Err(error);
        },
    };
    match resolve_audio(config) {
        Ok(true) => bundle_backends(video, Some(loopback)),
        Ok(false) => bundle_backends(video, None),
        Err(error) => Err(error),
    }
}

/// What comes of a session whose video came to `video`: that refusal; else that
/// of a microphone; else a bundle of what there is, if there is anything.
pub open spec fn is_completed(
    reply: Result<BackendBundle>,
    config: SessionConfig,
    video: Result<Option<Box<dyn VideoBackend>>>,
    loopback: Box<dyn AudioBackend>,
) -> bool {
    match video {
        Err(error) => reply == Err::<BackendBundle, PinrayError>(error),
        Ok(shown) => match config.audio_capture {
            Some(AudioCapture::Microphone(_)) => crate::error::is_unsupported(
                reply,
                "microphone capture is not implemented on windows yet"@,
            ),
            Some(AudioCapture::SystemMix) => {
                &&& reply matches Ok(bundle)
                &&& bundle.audio is Some
                &&& bundle.audio->0 == loopback
                &&& crate::backend::is_bundled(reply, shown, bundle.audio)
            },
            None => crate::backend::is_bundled(reply, shown, None),
        },
    }
}

/// A session is planned without video only if it has the system's audio, and
/// such a session can be completed.
pub proof fn audio_alone_is_a_session(
    config: SessionConfig,
    loopback: Box<dyn AudioBackend>,
    reply: Result<BackendBundle>,
)
    requires
        refusal(config) is None,
        video_plan(config) is Nothing,
        is_completed(reply, config, Ok(None), loopback),
    ensures
        config.audio_capture == Some(AudioCapture::SystemMix),
        reply matches Ok(bundle) && bundle.video is None && bundle.audio is Some,
{
}

/// With a video target, video stays first: the plan and its refusals do not
/// depend on the audio.
pub proof fn video_is_planned_first(config: SessionConfig, audio_capture: Option<AudioCapture>)
    requires
        config.video_target is Some,
    ensures
        refusal(SessionConfig { audio_capture, ..config }) == refusal(config),
        video_plan(SessionConfig { audio_capture, ..config }) == video_plan(config),
{
}

/// `Auto` duplicates displays, with WGC to fall back on, and captures windows
/// by WGC.
pub proof fn auto_falls_back_to_wgc(config: SessionConfig)
    requires
        config.backend_preference == BackendPreference::Auto,
        refusal(config) is None,
    ensures
        config.video_target matches Some(VideoCaptureTarget::Display(_)) ==> video_plan(config)
            == (VideoPlan::DuplicateDisplay { or_wgc: true }),
        config.video_target matches Some(VideoCaptureTarget::Window(_)) ==> video_plan(
            config,
        ) is CaptureWindow,
{
}

/// An explicit preference is honored as it is: duplication has nothing to fall
/// back on, and WGC takes nothing else's place.
pub proof fn explicit_preferences_are_honored(config: SessionConfig)
    requires
        refusal(config) is None,
        config.video_target is Some,
    ensures
        config.backend_preference == BackendPreference::WindowsDxgi ==> video_plan(config)
            == (VideoPlan::DuplicateDisplay { or_wgc: false }),
        config.backend_preference == BackendPreference::WindowsWgc ==> video_plan(
            config,
        ) !is DuplicateDisplay,
{
}

/// A display whose duplication fails is captured by WGC under `Auto`, and
/// refused with duplication's own error where duplication was asked for. Where
/// duplication succeeds, WGC is never tried.
pub proof fn only_auto_falls_back<B>(config: SessionConfig, opened: Result<B>)
    requires
        refusal(config) is None,
        applies(config.backend_preference),
        video_plan(config) is DuplicateDisplay,
    ensures
        ({
            let step = duplication_outcome(video_plan(config)->or_wgc, opened);
            &&& step is Keep <==> opened is Ok
            &&& step is TryWgc <==> opened is Err && config.backend_preference
                == BackendPreference::Auto
            &&& opened is Err && config.backend_preference == BackendPreference::WindowsDxgi
                ==> step == AfterDuplication::<B>::GiveUp(opened->Err_0)
        }),
{
}

/// Duplication is never asked for a single window.
pub proof fn windows_are_never_duplicated(config: SessionConfig)
    requires
        refusal(config) is None,
        config.video_target matches Some(VideoCaptureTarget::Window(_)),
    ensures
        video_plan(config) is CaptureWindow,
{
}

/// A display is duplicated unless WGC is asked for, and captured by WGC where
/// duplication fails unless duplication is asked for. A window is captured by WGC
/// under its handle, and never duplicated. Neither depends on the audio.
pub proof fn video_is_captured_as_preferred(
    config: &SessionConfig,
    id: SourceId,
    found: Result<isize>,
    reply: Result<VideoPlan>,
)
    requires
        call_ensures(resolve, (config,), reply),
        call_ensures(find_window, (&id,), found),
        config.pixel_format == PixelFormat::Bgra8888 || config.pixel_format
            == PixelFormat::Rgba8888,
        config.crop_rect matches Some(rect) ==> rect.x >= 0 && rect.y >= 0,
    ensures
        config.video_target matches Some(VideoCaptureTarget::Display(_)) ==> (reply matches Ok(plan)
            && match config.backend_preference {
            BackendPreference::WindowsWgc => plan is CaptureDisplay,
            BackendPreference::WindowsDxgi => plan == (VideoPlan::DuplicateDisplay {
                or_wgc: false,
            }),
            _ => plan == (VideoPlan::DuplicateDisplay { or_wgc: true }),
        }),
        config.video_target == Some(VideoCaptureTarget::Window(id)) ==> if config.backend_preference
            == BackendPreference::WindowsDxgi {
            reply matches Err(PinrayError::Unsupported(_))
        } else {
            match found {
                Ok(handle) => reply == Ok::<VideoPlan, PinrayError>(
                    VideoPlan::CaptureWindow { handle },
                ),
                Err(_) => reply matches Err(PinrayError::InvalidConfig(_)),
            }
        },
        config.video_target is None ==> match config.audio_capture {
            Some(AudioCapture::SystemMix) => reply matches Ok(plan) && plan is Nothing,
            Some(AudioCapture::Microphone(_)) => reply matches Err(PinrayError::Unsupported(_)),
            None => reply matches Err(PinrayError::InvalidConfig(_)),
        },
{
}

/// Pixels are delivered as BGRA or RGBA and in no other format, and crops start
/// within what they crop: anything else is refused, whatever is captured.
pub proof fn other_formats_and_crops_are_refused(config: &SessionConfig, reply: Result<VideoPlan>)
    requires
        call_ensures(resolve, (config,), reply),
    ensures
        config.pixel_format != PixelFormat::Bgra8888 && config.pixel_format
            != PixelFormat::Rgba8888 ==> (reply matches Err(PinrayError::Unsupported(_))),
        (config.pixel_format == PixelFormat::Bgra8888 || config.pixel_format
            == PixelFormat::Rgba8888) && (config.crop_rect matches Some(rect) && (rect.x < 0
            || rect.y < 0)) ==> (reply matches Err(PinrayError::InvalidConfig(_))),
{
}

/// Sessions are planned on this platform alone, without a preference or with one
/// for its backends, and as they are resolved there.
pub proof fn sessions_are_planned_here(
    target: TargetOs,
    config: &SessionConfig,
    resolved: Result<VideoPlan>,
    reply: Result<Option<VideoPlan>>,
)
    requires
        call_ensures(try_resolve, (target, config), reply),
        call_ensures(resolve, (config,), resolved),
    ensures
        (reply matches Ok(None)) <==> target != TargetOs::Windows || !(config.backend_preference
            == BackendPreference::Auto || config.backend_preference
            == BackendPreference::WindowsDxgi || config.backend_preference
            == BackendPreference::WindowsWgc),
        reply matches Ok(Some(plan)) ==> resolved == Ok::<VideoPlan, PinrayError>(plan),
        reply is Err ==> resolved is Err,
{
}

/// A duplication that succeeded is kept. One that failed is followed by WGC
/// exactly where that is allowed, with its error as the reason.
pub proof fn failed_duplications_may_fall_back<B>(
    or_wgc: bool,
    backend: B,
    error: PinrayError,
    kept: AfterDuplication<B>,
    failed: AfterDuplication<B>,
)
    requires
        call_ensures(after_duplication::<B>, (or_wgc, Ok(backend)), kept),
        call_ensures(after_duplication::<B>, (or_wgc, Err(error)), failed),
    ensures
        kept == AfterDuplication::Keep(backend),
        or_wgc ==> failed == AfterDuplication::<B>::TryWgc(error),
        !or_wgc ==> failed == AfterDuplication::<B>::GiveUp(error),
{
}

/// The system's audio is captured exactly for those who ask for it.
pub proof fn only_the_system_mix_is_captured(config: &SessionConfig, reply: Result<bool>)
    requires
        call_ensures(resolve_audio, (config,), reply),
    ensures
        reply == Ok::<bool, PinrayError>(true) <==> config.audio_capture == Some(
            AudioCapture::SystemMix,
        ),
        reply == Ok::<bool, PinrayError>(false) <==> config.audio_capture is None,
        reply is Err <==> (config.audio_capture matches Some(AudioCapture::Microphone(_))),
        reply matches Err(problem) ==> problem is Unsupported,
{
}

/// A session has the video that was opened for it, and audio exactly if it wants
/// the system's. Video that could not be opened is told before all
/// else.
pub proof fn sessions_have_what_was_opened(
    config: &SessionConfig,
    video: Result<Option<Box<dyn VideoBackend>>>,
    loopback: Box<dyn AudioBackend>,
    reply: Result<BackendBundle>,
)
    requires
        is_completed(reply, *config, video, loopback),
    ensures
        video matches Err(error) ==> reply == Err::<BackendBundle, PinrayError>(error),
        reply matches Ok(bundle) ==> {
            &&& video matches Ok(opened) && bundle.video == opened
            &&& bundle.audio is Some <==> config.audio_capture == Some(AudioCapture::SystemMix)
            &&& bundle.video is Some ==> (bundle.info.supports_audio <==> bundle.audio is Some)
        },
        video is Ok && config.audio_capture == Some(AudioCapture::SystemMix) ==> reply is Ok,
        video is Ok && (config.audio_capture matches Some(AudioCapture::Microphone(_))) ==> (
        reply matches Err(PinrayError::Unsupported(_))),
        config.audio_capture is None ==> (video matches Ok(opened) ==> (reply is Ok <==> opened
            is Some)),
{
}

/// Every backend of the platform is listed once, two for video and one for audio;
/// elsewhere there are none, and no sources.
pub proof fn every_backend_is_listed(target: TargetOs, backends: Vec<BackendInfo>)
    requires
        call_ensures(available_backends, (target,), backends),
    ensures
        target != TargetOs::Windows ==> backends@.len() == 0,
        target == TargetOs::Windows ==> {
            &&& backends@.len() == 3
            &&& backends@[0].kind == BackendKind::WindowsDxgi
            &&& backends@[1].kind == BackendKind::WindowsWgc
            &&& backends@[2].kind == BackendKind::WindowsWasapi
            &&& !backends@[0].supports_audio
            &&& !backends@[1].supports_audio
            &&& backends@[2].supports_audio
        },
{
}

/// What the system could not report is told, displays first; elsewhere nothing is
/// listed.
pub proof fn failed_reports_are_told(
    target: TargetOs,
    outputs: Result<Vec<OutputReport>>,
    windows: Result<Vec<WindowReport>>,
    reply: Result<Vec<CaptureSource>>,
)
    requires
        call_ensures(enumerate_sources, (target, outputs, windows), reply),
    ensures
        target != TargetOs::Windows ==> (reply matches Ok(sources) && sources@.len() == 0),
        target == TargetOs::Windows ==> {
            &&& reply is Ok <==> outputs is Ok && windows is Ok
            &&& outputs matches Err(error) ==> reply == Err::<Vec<CaptureSource>, PinrayError>(
                error,
            )
            &&& outputs is Ok ==> (windows matches Err(error) ==> reply == Err::<
                Vec<CaptureSource>,
                PinrayError,
            >(error))
        },
{
}

/// What is listed is the table of displays, then the windows that are listed,
/// then the system's audio.
pub proof fn everything_is_listed(
    outputs: Vec<OutputReport>,
    windows: Vec<WindowReport>,
    table: DisplayTable,
    listed: Vec<WindowSource>,
    sources: Vec<CaptureSource>,
)
    requires
        call_ensures(enumerate_sources, (TargetOs::Windows, Ok(outputs), Ok(windows)), Ok(sources)),
        call_ensures(enumerate_displays, (&outputs,), table),
        call_ensures(enumerate_windows, (&windows,), listed),
    ensures
        sources@.len() == table.sources@.len() + listed@.len() + 1,
        forall|i: int|
            0 <= i < table.sources@.len() ==> ((
            #[trigger] sources@[i]) matches CaptureSource::Display(display) && display@
                == table.sources@[i]@),
        forall|i: int|
            table.sources@.len() <= i < table.sources@.len() + listed@.len() ==> ((
            #[trigger] sources@[i]) matches CaptureSource::Window(window) && window@ == listed@[i
                - table.sources@.len()]@),
        sources@.last() matches CaptureSource::SystemAudio(audio) && audio.id.0@
            == "audio:system-mix"@,
{
    let view = crate::source::listing(sources@);
    assert(view.len() == sources@.len());
    assert forall|i: int| 0 <= i < sources@.len() implies (#[trigger] sources@[i])@ == view[i] by {}
    assert forall|i: int| 0 <= i < table.sources@.len() implies ((
    #[trigger] sources@[i]) matches CaptureSource::Display(display) && display@
        == table.sources@[i]@) by {
        assert(view[i] == sources@[i]@);
        assert(table.outputs@[i] < outputs@.len());
    }
    assert(sources@[sources@.len() - 1]@ == view[sources@.len() - 1]);
}

/// Every refusal tells why.
pub proof fn refusals_tell_why(
    config: &SessionConfig,
    reply: Result<VideoPlan>,
    audio: Result<bool>,
    name: &'static str,
)
    requires
        call_ensures(resolve, (config,), reply),
        call_ensures(resolve_audio, (config,), audio),
        call_ensures(PixelFormat::name, (&config.pixel_format,), name),
    ensures
        audio matches Err(PinrayError::Unsupported(message)) ==> message@
            == "microphone capture is not implemented on windows yet"@,
        config.pixel_format != PixelFormat::Bgra8888 && config.pixel_format
            != PixelFormat::Rgba8888 ==> (reply matches Err(PinrayError::Unsupported(message))
            && message@ == "windows backends support Bgra8888 and Rgba8888 only, got "@ + name@),
        reply matches Err(PinrayError::Unsupported(message)) ==> {
            ||| message@ == "windows backends support Bgra8888 and Rgba8888 only, got "@ + name@
            ||| message@
                == "DXGI desktop duplication cannot capture a single window; use WindowsWgc or Auto"@
                && config.backend_preference == BackendPreference::WindowsDxgi
            ||| message@ == "microphone capture is not implemented on windows yet"@
                && config.video_target is None
        },
        reply matches Err(PinrayError::InvalidConfig(message)) ==> {
            ||| message@ == "crop_rect x and y must be non-negative on windows backends"@ && (
            config.crop_rect matches Some(rect) && (rect.x < 0 || rect.y < 0))
            ||| config.video_target matches Some(VideoCaptureTarget::Window(id)) && message@
                == "invalid window source id: "@ + id.0@
            ||| message@ == "at least one of video_target or audio_capture must be set"@
                && config.video_target is None && config.audio_capture is None
        },
{
}

} // verus!
