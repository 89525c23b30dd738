//! Cross-platform screen and audio capture with raw frames and real metadata.
//!
//! Displays, windows, and system audio are captured through each OS's native
//! API — Wayland portals + PipeWire and X11 on Linux, ScreenCaptureKit on
//! macOS, DXGI/Windows Graphics Capture + WASAPI on Windows — and handed over
//! as raw [`VideoFrame`]s and [`AudioFrame`]s with stride, pixel format,
//! timestamps, and sequence numbers intact. Encoding is deliberately out of
//! scope: feed frames to ffmpeg, WebRTC, wgpu, or your own pipeline.
//!
//! - [`CaptureSession`] — builder-configured lifecycle (`start` / `next_event`
//!   / `stop`); [`enumerate_sources`] lists displays, windows, and audio
//!   devices up front.
//! - [`CaptureEvent`] — one of [`VideoFrame`], [`AudioFrame`], a [`GapEvent`]
//!   (dropped frames / backend restart), or `End`.
//! - [`BackendPreference`] — `Auto` picks the right backend per platform;
//!   [`CaptureSession::backend_info`] reports what was actually selected.
//!
//! What a backend does with the numbers, bytes and texts that the system gives
//! it is decided here, and proved; the calls into the system are the host
//! program's.
pub mod audio;
pub mod backend;
pub mod channel;
pub mod config;
pub mod duration;
pub mod error;
pub mod facade;
pub mod frame;
pub mod numbers;
pub mod pixels;
pub mod platform_linux;
pub mod platform_macos;
pub mod platform_windows;
pub mod queue;
pub mod session;
pub mod source;
pub mod target;
pub mod text;

pub use crate::audio::{AudioData, AudioFrame, SampleFormat};
pub use crate::backend::{
    AudioBackend, BackendBundle, BackendInfo, BackendKind, BackendPreference, BackendResolver,
    VideoBackend,
};
pub use crate::config::{AudioCapture, CursorMode, SessionConfig, VideoCaptureTarget};
pub use crate::config::SessionConfig as CoreSessionConfig;
pub use crate::error::{PinrayError, Result};
pub use crate::facade::{available_backends, enumerate_sources, CaptureSession, SessionBuilder};
pub use crate::frame::{
    CaptureEvent, ColorSpace, CvPixelBufferHandle, D3D11TextureHandle, DmabufFrame, FrameData,
    GapEvent, GapReason, PixelFormat, Rect, VideoFrame,
};
pub use crate::source::{AudioDeviceSource, CaptureSource, DisplaySource, SourceId, WindowSource};
pub use crate::target::TargetOs;
