//! Session configuration and its validation.
use vstd::prelude::*;

use crate::backend::BackendPreference;
use crate::error::{PinrayError, Result};
use crate::frame::{ColorSpace, PixelFormat, Rect};
use crate::source::SourceId;

verus! {

#[derive(Debug, Clone, Copy, PartialEq, Eq, Structural)]
pub enum CursorMode {
    Embedded,
    Hidden,
}

#[derive(Debug, Clone, PartialEq, Eq)]
pub enum VideoCaptureTarget {
    Display(SourceId),
    Window(SourceId),
}

#[derive(Debug, Clone, PartialEq, Eq)]
pub enum AudioCapture {
    SystemMix,
    Microphone(SourceId),
}

#[derive(Debug, Clone, PartialEq, Eq)]
pub struct SessionConfig {
    pub backend_preference: BackendPreference,
    pub video_target: Option<VideoCaptureTarget>,
    pub audio_capture: Option<AudioCapture>,
    pub restore_token: Option<String>,
    pub pixel_format: PixelFormat,
    pub color_space: Option<ColorSpace>,
    pub cursor_mode: CursorMode,
    pub crop_rect: Option<Rect>,
    pub frame_rate: Option<u32>,
    /// Frames that are buffered before any is dropped.
    pub queue_depth: u32,
}

impl Default for SessionConfig {
    fn default() -> (config: Self)
        ensures
            config == default_config(),
    {
        SessionConfig {
            backend_preference: BackendPreference::Auto,
            video_target: None,
            audio_capture: None,
            restore_token: None,
            pixel_format: PixelFormat::Bgra8888,
            color_space: Some(ColorSpace::Srgb),
            cursor_mode: CursorMode::Embedded,
            crop_rect: None,
            frame_rate: Some(60),
            queue_depth: 2,
        }
    }
}

/// The configuration a builder starts from.
pub open spec fn default_config() -> SessionConfig {
    SessionConfig {
        backend_preference: BackendPreference::Auto,
        video_target: None,
        audio_capture: None,
        restore_token: None,
        pixel_format: PixelFormat::Bgra8888,
        color_space: Some(ColorSpace::Srgb),
        cursor_mode: CursorMode::Embedded,
        crop_rect: None,
        frame_rate: Some(60),
        queue_depth: 2,
    }
}

/// The complaint of a configuration that asks for nothing to be captured.
pub open spec fn nothing_to_capture() -> Seq<char> {
    "at least one of video_target or audio_capture must be set"@
}

impl SessionConfig {
    /// Some stream is asked for.
    pub open spec fn captures_something(&self) -> bool {
        self.video_target is Some || self.audio_capture is Some
    }

    /// The frame rate, where one is asked for, is positive.
    pub open spec fn has_usable_frame_rate(&self) -> bool {
        self.frame_rate != Some(0u32)
    }

    /// The crop rectangle, where there is one, has an area.
    pub open spec fn has_usable_crop(&self) -> bool {
        self.crop_rect matches Some(rect) ==> rect.width > 0 && rect.height > 0
    }

    /// A configuration that a session can be built from.
    pub open spec fn is_valid(&self) -> bool {
        &&& self.captures_something()
        &&& self.has_usable_frame_rate()
        &&& self.queue_depth > 0
        &&& self.has_usable_crop()
    }

    /// What [`validate`](SessionConfig::validate) has to say of a
    /// configuration: the first rule that it breaks, in this order.
    pub open spec fn first_complaint(&self) -> Option<Seq<char>> {
        if !self.captures_something() {
            Some(nothing_to_capture())
        } else if !self.has_usable_frame_rate() {
            Some("frame_rate must be greater than zero"@)
        } else if self.queue_depth == 0 {
            Some("queue_depth must be greater than zero"@)
        } else if !self.has_usable_crop() {
            Some("crop_rect width and height must be greater than zero"@)
        } else {
            None
        }
    }

    pub fn validate(&self) -> (verdict: Result<()>)
        ensures
            verdict is Ok <==> self.is_valid(),
            self.first_complaint() matches Some(text) ==> crate::error::is_invalid_config(
                verdict,
                text,
            ),
    {
        if self.video_target.is_none() && self.audio_capture.is_none() {
            return Err(
                PinrayError::InvalidConfig(
                    "at least one of video_target or audio_capture must be set".to_owned(),
                ),
            );
        }
        if let Some(frame_rate) = self.frame_rate {
            if frame_rate == 0 {
                return Err(
                    PinrayError::InvalidConfig("frame_rate must be greater than zero".to_owned()),
                );
            }
        }
        if self.queue_depth == 0 {
            return Err(
                PinrayError::InvalidConfig("queue_depth must be greater than zero".to_owned()),
            );
        }
        if let Some(rect) = self.crop_rect {
            if rect.width == 0 || rect.height == 0 {
                return Err(
                    PinrayError::InvalidConfig(
                        "crop_rect width and height must be greater than zero".to_owned(),
                    ),
                );
            }
        }
        Ok(())
    }
}

/// A configuration can be built from exactly if it asks for video or audio, for
/// a positive frame rate where it asks for one, for room for at least one frame,
/// and for an area where it asks for a part of the picture. Of several mistakes
/// the first in this order is told.
pub proof fn configurations_are_checked_in_order(config: SessionConfig, verdict: Result<()>)
    requires
        call_ensures(SessionConfig::validate, (&config,), verdict),
    ensures
        ({
            let captures = config.video_target is Some || config.audio_capture is Some;
            let rated = !(config.frame_rate matches Some(rate) && rate == 0);
            let cropped = !(config.crop_rect matches Some(rect) && (rect.width == 0 || rect.height
                == 0));
            &&& verdict is Ok <==> captures && rated && config.queue_depth != 0 && cropped
            &&& !captures ==> (verdict matches Err(PinrayError::InvalidConfig(message)) && message@
                == "at least one of video_target or audio_capture must be set"@)
            &&& captures && !rated ==> (verdict matches Err(PinrayError::InvalidConfig(message))
                && message@ == "frame_rate must be greater than zero"@)
            &&& captures && rated && config.queue_depth == 0 ==> (verdict matches Err(
                PinrayError::InvalidConfig(message),
            ) && message@ == "queue_depth must be greater than zero"@)
            &&& captures && rated && config.queue_depth != 0 && !cropped ==> (verdict matches Err(
                PinrayError::InvalidConfig(message),
            ) && message@ == "crop_rect width and height must be greater than zero"@)
        }),
{
}

/// The default asks for nothing yet, and for the rest for what suits most.
pub proof fn defaults_suit_most(config: SessionConfig)
    requires
        call_ensures(SessionConfig::default, (), config),
    ensures
        config.backend_preference == BackendPreference::Auto,
        config.video_target is None,
        config.audio_capture is None,
        config.restore_token is None,
        config.pixel_format == PixelFormat::Bgra8888,
        config.color_space == Some(ColorSpace::Srgb),
        config.cursor_mode == CursorMode::Embedded,
        config.crop_rect is None,
        config.frame_rate == Some(60u32),
        config.queue_depth == 2,
{
}

} // verus!
