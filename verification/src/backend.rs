//! What a session asks of the platform behind it.
//!
//! How a backend answers is the backend's own affair. Every backend chooses its
//! character for itself: relations between a call, the answer to it, and the
//! states before and after. A session's contract can then say which calls were
//! made, on which backend, with which arguments and in which order, and what
//! became of each answer. A backend that chooses no character may answer
//! anything.
use std::time::Duration;

use vstd::prelude::*;

use crate::audio::AudioFrame;
use crate::config::SessionConfig;
use crate::error::{PinrayError, Result};
use crate::frame::CaptureEvent;

verus! {

/// Which backend the session builder should pick.
///
/// `Auto` chooses the platform default (Wayland portal / DXGI /
/// ScreenCaptureKit) with sensible fallbacks; the other variants force a
/// specific video backend or fail.
#[derive(Debug, Clone, Copy, PartialEq, Eq, Structural)]
pub enum BackendPreference {
    Auto,
    LinuxWaylandPortal,
    LinuxX11,
    MacScreenCaptureKit,
    WindowsDxgi,
    WindowsWgc,
}

/// Identifies a concrete backend implementation (video or audio).
#[derive(Debug, Clone, Copy, PartialEq, Eq, Structural)]
pub enum BackendKind {
    LinuxWaylandPortal,
    LinuxX11,
    LinuxPipeWireAudio,
    MacScreenCaptureKit,
    WindowsDxgi,
    WindowsWgc,
    WindowsWasapi,
}

/// What a backend can do — surfaced through
/// [`CaptureSession::backend_info`](crate::CaptureSession::backend_info) so
/// applications (and bug reports) can tell which path was actually taken.
#[derive(Debug, PartialEq, Eq)]
pub struct BackendInfo {
    pub kind: BackendKind,
    pub supports_audio: bool,
    pub zero_copy: bool,
    /// Human-readable caveats (e.g. "cursor not embedded", "polling-based").
    pub notes: &'static str,
}

impl Clone for BackendInfo {
    fn clone(&self) -> (copy: Self)
        ensures
            copy == *self,
    {
        BackendInfo {
            kind: self.kind,
            supports_audio: self.supports_audio,
            zero_copy: self.zero_copy,
            notes: self.notes,
        }
    }
}

/// How a video backend may answer, by the number that stands for the state it
/// is in.
pub struct VideoCharacter {
    /// In this state it may describe itself so.
    pub describes: spec_fn(int, BackendInfo) -> bool,
    /// In this state it may hand out this token.
    pub remembers: spec_fn(int, Option<String>) -> bool,
    /// From the first state a `start` may answer this, and end in the second.
    pub starts: spec_fn(int, Result<()>, int) -> bool,
    /// From the first state a `stop` may answer this, and end in the second.
    pub stops: spec_fn(int, Result<()>, int) -> bool,
    /// From the first state a `next_event` with this timeout may answer this,
    /// and end in the second.
    pub yields: spec_fn(int, Option<Duration>, Result<CaptureEvent>, int) -> bool,
}

impl VideoCharacter {
    /// A backend of which nothing is known.
    pub open spec fn any() -> Self {
        VideoCharacter {
            describes: |state: int, info: BackendInfo| true,
            remembers: |state: int, token: Option<String>| true,
            starts: |state: int, reply: Result<()>, after: int| true,
            stops: |state: int, reply: Result<()>, after: int| true,
            yields: |
                state: int,
                timeout: Option<Duration>,
                reply: Result<CaptureEvent>,
                after: int,
            | true,
        }
    }

    pub open spec fn may_describe(&self, state: int, info: BackendInfo) -> bool {
        (self.describes)(state, info)
    }

    pub open spec fn may_remember(&self, state: int, token: Option<String>) -> bool {
        (self.remembers)(state, token)
    }

    pub open spec fn may_start(&self, state: int, reply: Result<()>, after: int) -> bool {
        (self.starts)(state, reply, after)
    }

    pub open spec fn may_stop(&self, state: int, reply: Result<()>, after: int) -> bool {
        (self.stops)(state, reply, after)
    }

    pub open spec fn may_yield(
        &self,
        state: int,
        timeout: Option<Duration>,
        reply: Result<CaptureEvent>,
        after: int,
    ) -> bool {
        (self.yields)(state, timeout, reply, after)
    }
}

/// How an audio backend may answer, by the number that stands for the state it
/// is in.
pub struct AudioCharacter {
    /// In this state it may describe itself so.
    pub describes: spec_fn(int, BackendInfo) -> bool,
    /// From the first state a `start` may answer this, and end in the second.
    pub starts: spec_fn(int, Result<()>, int) -> bool,
    /// From the first state a `stop` may answer this, and end in the second.
    pub stops: spec_fn(int, Result<()>, int) -> bool,
    /// From the first state a `next_audio` with this timeout may answer this,
    /// and end in the second.
    pub yields: spec_fn(int, Option<Duration>, Result<AudioFrame>, int) -> bool,
}

impl AudioCharacter {
    /// A backend of which nothing is known.
    pub open spec fn any() -> Self {
        AudioCharacter {
            describes: |state: int, info: BackendInfo| true,
            starts: |state: int, reply: Result<()>, after: int| true,
            stops: |state: int, reply: Result<()>, after: int| true,
            yields: |
                state: int,
                timeout: Option<Duration>,
                reply: Result<AudioFrame>,
                after: int,
            | true,
        }
    }

    pub open spec fn may_describe(&self, state: int, info: BackendInfo) -> bool {
        (self.describes)(state, info)
    }

    pub open spec fn may_start(&self, state: int, reply: Result<()>, after: int) -> bool {
        (self.starts)(state, reply, after)
    }

    pub open spec fn may_stop(&self, state: int, reply: Result<()>, after: int) -> bool {
        (self.stops)(state, reply, after)
    }

    pub open spec fn may_yield(
        &self,
        state: int,
        timeout: Option<Duration>,
        reply: Result<AudioFrame>,
        after: int,
    ) -> bool {
        (self.yields)(state, timeout, reply, after)
    }
}

/// A platform video capture implementation.
///
/// Contract: `next_event` returns [`PinrayError::Timeout`] when no event
/// arrives within `timeout` (`None` = block forever), and must treat
/// a zero timeout as a non-blocking poll. `start`/`stop` must be
/// safe to call repeatedly and in either state.
pub trait VideoBackend: Send {
    /// How the backend may answer. No call changes it.
    open spec fn character(&self) -> VideoCharacter {
        VideoCharacter::any()
    }

    /// A number that stands for the state the backend is in.
    open spec fn state(&self) -> int {
        0
    }

    fn info(&self) -> (info: BackendInfo)
        ensures
            self.character().may_describe(self.state(), info),
    ;

    /// The token with which a later session can skip the permission dialog,
    /// where the platform has one.
    fn restore_token(&self) -> (token: Option<String>)
        ensures
            self.character().may_remember(self.state(), token),
    ;

    fn start(&mut self) -> (reply: Result<()>)
        ensures
            final(self).character() == old(self).character(),
            old(self).character().may_start(old(self).state(), reply, final(self).state()),
    ;

    fn stop(&mut self) -> (reply: Result<()>)
        ensures
            final(self).character() == old(self).character(),
            old(self).character().may_stop(old(self).state(), reply, final(self).state()),
    ;

    fn next_event(&mut self, timeout: Option<Duration>) -> (reply: Result<CaptureEvent>)
        ensures
            final(self).character() == old(self).character(),
            old(self).character().may_yield(
                old(self).state(),
                timeout,
                reply,
                final(self).state(),
            ),
    ;
}

/// A platform audio capture implementation; same timeout contract as
/// [`VideoBackend`].
pub trait AudioBackend: Send {
    /// How the backend may answer. No call changes it.
    open spec fn character(&self) -> AudioCharacter {
        AudioCharacter::any()
    }

    /// A number that stands for the state the backend is in.
    open spec fn state(&self) -> int {
        0
    }

    fn info(&self) -> (info: BackendInfo)
        ensures
            self.character().may_describe(self.state(), info),
    ;

    fn start(&mut self) -> (reply: Result<()>)
        ensures
            final(self).character() == old(self).character(),
            old(self).character().may_start(old(self).state(), reply, final(self).state()),
    ;

    fn stop(&mut self) -> (reply: Result<()>)
        ensures
            final(self).character() == old(self).character(),
            old(self).character().may_stop(old(self).state(), reply, final(self).state()),
    ;

    fn next_audio(&mut self, timeout: Option<Duration>) -> (reply: Result<AudioFrame>)
        ensures
            final(self).character() == old(self).character(),
            old(self).character().may_yield(
                old(self).state(),
                timeout,
                reply,
                final(self).state(),
            ),
    ;
}

pub struct BackendBundle {
    pub info: BackendInfo,
    pub video: Option<Box<dyn VideoBackend>>,
    pub audio: Option<Box<dyn AudioBackend>>,
}

pub trait BackendResolver {
    /// The resolver may answer `reply` to `config`.
    open spec fn resolves(&self, config: SessionConfig, reply: Result<BackendBundle>) -> bool {
        true
    }

    fn resolve(&self, config: &SessionConfig) -> (reply: Result<BackendBundle>)
        ensures
            self.resolves(*config, reply),
    ;
}

/// What comes of putting backends together: a bundle of them, if there are any.
pub open spec fn is_bundled(
    reply: Result<BackendBundle>,
    video: Option<Box<dyn VideoBackend>>,
    audio: Option<Box<dyn AudioBackend>>,
) -> bool {
    &&& reply is Ok <==> video is Some || audio is Some
    &&& video is None && audio is None ==> crate::error::is_invalid_config(
        reply,
        crate::config::nothing_to_capture(),
    )
    &&& reply matches Ok(bundle) ==> {
        &&& bundle.video == video
        &&& bundle.audio == audio
        &&& video matches Some(backend) ==> exists|own: BackendInfo| #[trigger]
            backend.character().may_describe(backend.state(), own) && bundle.info == (BackendInfo {
                supports_audio: audio is Some,
                ..own
            })
        &&& video is None ==> audio->0.character().may_describe(audio->0.state(), bundle.info)
    }
}

/// Puts the backends of a session together. The video backend names the
/// bundle, and the bundle supports audio exactly if there is an audio backend
/// beside it; an audio backend alone speaks for itself.
pub fn bundle_backends(
    video: Option<Box<dyn VideoBackend>>,
    audio: Option<Box<dyn AudioBackend>>,
) -> (reply: Result<BackendBundle>)
    ensures
        is_bundled(reply, video, audio),
{
    let info: BackendInfo = match (&video, &audio) {
        (Some(backend), _) => {
            let own: BackendInfo = backend.info();
            BackendInfo {
                kind: own.kind,
                supports_audio: audio.is_some(),
                zero_copy: own.zero_copy,
                notes: own.notes,
            }
        },
        (None, Some(backend)) => backend.info(),
        (None, None) => {
            return Err(
                PinrayError::InvalidConfig(
                    "at least one of video_target or audio_capture must be set".to_owned(),
                ),
            );
        },
    };
    Ok(BackendBundle { info, video, audio })
}

/// The backends of a session are bundled as they are, if there is one at all.
/// The bundle goes by the name of the video backend, or else of the audio
/// backend, and supports audio beside video exactly if there is an audio backend.
pub proof fn bundles_hold_their_backends(
    video: Option<Box<dyn VideoBackend>>,
    audio: Option<Box<dyn AudioBackend>>,
    reply: Result<BackendBundle>,
)
    requires
        call_ensures(bundle_backends, (video, audio), reply),
    ensures
        reply is Err <==> video is None && audio is None,
        reply matches Err(problem) ==> problem is InvalidConfig,
        reply matches Ok(bundle) ==> {
            &&& bundle.video == video
            &&& bundle.audio == audio
            &&& video is Some ==> (bundle.info.supports_audio <==> audio is Some)
            &&& video matches Some(backend) ==> exists|own: BackendInfo|
                {
                    &&& #[trigger] (backend.character().describes)(backend.state(), own)
                    &&& bundle.info.kind == own.kind
                    &&& bundle.info.zero_copy == own.zero_copy
                    &&& bundle.info.notes == own.notes
                }
            &&& video is None ==> (audio matches Some(backend) && (backend.character().describes)(
                backend.state(),
                bundle.info,
            ))
        },
{
    if reply is Ok && video is Some {
        let backend = video->0;
        let own = choose|own: BackendInfo| #[trigger]
            backend.character().may_describe(backend.state(), own) && reply->Ok_0.info == (
            BackendInfo { supports_audio: audio is Some, ..own });
        assert(backend.character().may_describe(backend.state(), own));
        assert((backend.character().describes)(backend.state(), own));
    }
}

/// A copy of a backend's description says the same.
pub proof fn copied_descriptions_say_the_same(info: &BackendInfo, copy: BackendInfo)
    requires
        call_ensures(BackendInfo::clone, (info,), copy),
    ensures
        copy.kind == info.kind,
        copy.supports_audio == info.supports_audio,
        copy.zero_copy == info.zero_copy,
        copy.notes == info.notes,
{
}

} // verus!
