//! What all platforms share, and the library as an application sees it.
use std::time::Duration;

use pinray::channel::{delivered, Delivery};
use pinray::facade::{resolve, PlatformPlan, SourceReports};
use pinray::numbers::{saturating_difference, saturating_sum, wrap_to_i64};
use pinray::pixels::{convert_bgra, make_opaque, pack_rows, swap_red_blue};
use pinray::platform_linux::{Environment, LinuxPlan, VideoOrigin};
use pinray::platform_macos::MacPlan;
use pinray::platform_windows::VideoPlan;
use pinray::queue::{BoundedQueue, FrameQueue};
use pinray::source::pick_display;
use pinray::text::{
    decimal_text, eq_ignore_ascii_case, hex_text, joined, parse_isize, parse_u32, parse_unsigned,
    piece_behind_last, same_text, second_piece, signed_decimal_text, strip_prefix,
};
use pinray::{
    available_backends, enumerate_sources, AudioBackend, AudioCapture, AudioData, AudioFrame,
    BackendBundle, BackendInfo, BackendKind, BackendPreference, BackendResolver, CaptureEvent,
    CaptureSession, ColorSpace, CursorMode, DisplaySource, FrameData, GapReason, PinrayError,
    PixelFormat, Rect, Result, SampleFormat, SessionBuilder, SessionConfig, SourceId, TargetOs,
    VideoCaptureTarget, VideoFrame,
};

#[test]
fn facade_exposes_current_platform_backends() {
    for target in [TargetOs::Linux, TargetOs::MacOs, TargetOs::Windows] {
        let backends = available_backends(target);
        assert!(!backends.is_empty());
        assert!(backends.iter().any(|backend| backend.supports_audio));
        assert!(backends.iter().all(|backend| !backend.zero_copy));
    }
    assert!(available_backends(TargetOs::Other).is_empty());
}

/// A platform with an audio backend that has one packet.
struct OnePacket;

struct OnePacketAudio {
    left: bool,
}

impl AudioBackend for OnePacketAudio {
    fn info(&self) -> BackendInfo {
        BackendInfo {
            kind: BackendKind::WindowsWasapi,
            supports_audio: true,
            zero_copy: false,
            notes: "one packet",
        }
    }
    fn start(&mut self) -> Result<()> {
        Ok(())
    }
    fn stop(&mut self) -> Result<()> {
        Ok(())
    }
    fn next_audio(&mut self, timeout: Option<Duration>) -> Result<AudioFrame> {
        if !self.left {
            return Err(PinrayError::Timeout(timeout.unwrap_or_default()));
        }
        self.left = false;
        Ok(AudioFrame {
            stream_time_ns: 1,
            sequence: 2,
            sample_rate: 3,
            channels: 4,
            sample_format: SampleFormat::I32,
            data: AudioData::Planar(vec![vec![5]]),
        })
    }
}

impl BackendResolver for OnePacket {
    fn resolve(&self, _config: &SessionConfig) -> Result<BackendBundle> {
        pinray::backend::bundle_backends(None, Some(Box::new(OnePacketAudio { left: true })))
    }
}

#[test]
fn build_requires_valid_config() {
    let result = CaptureSession::builder().build(&OnePacket);
    assert!(result.is_err());
}

#[test]
fn a_session_runs_from_start_to_stop() {
    let mut session = CaptureSession::builder()
        .audio(AudioCapture::SystemMix)
        .build(&OnePacket)
        .unwrap();
    assert_eq!(session.backend_info().notes, "one packet");
    assert_eq!(session.config().audio_capture, Some(AudioCapture::SystemMix));
    assert!(!session.is_running());
    session.start().unwrap();
    assert!(session.is_running());
    assert!(matches!(
        session.next_event(None),
        Ok(CaptureEvent::Audio(frame)) if frame.sequence == 2
    ));
    assert!(matches!(
        session.next_audio(Some(Duration::ZERO)),
        Err(PinrayError::Timeout(_))
    ));
    assert_eq!(session.restore_token(), None);
    session.stop().unwrap();
    assert!(!session.is_running());
}

#[test]
fn the_facade_builder_sets_every_field() {
    let builder = SessionBuilder::default()
        .backend_preference(BackendPreference::WindowsWgc)
        .video_target(VideoCaptureTarget::Display(SourceId::new("auto")))
        .audio(AudioCapture::SystemMix)
        .pixel_format(PixelFormat::Rgba8888)
        .restore_token("t")
        .color_space(None)
        .cursor_mode(CursorMode::Hidden)
        .crop_rect(Some(Rect {
            x: 0,
            y: 0,
            width: 1,
            height: 1,
        }))
        .frame_rate(Some(5))
        .queue_depth(9);
    let config = builder.config();
    assert_eq!(config.backend_preference, BackendPreference::WindowsWgc);
    assert!(config.video_target.is_some());
    assert!(config.audio_capture.is_some());
    assert_eq!(config.pixel_format, PixelFormat::Rgba8888);
    assert_eq!(config.restore_token.as_deref(), Some("t"));
    assert_eq!(config.color_space, None::<ColorSpace>);
    assert_eq!(config.cursor_mode, CursorMode::Hidden);
    assert_eq!(config.crop_rect.unwrap().width, 1);
    assert_eq!(config.frame_rate, Some(5));
    assert_eq!(config.queue_depth, 9);
}

fn environment() -> Environment {
    Environment {
        session_type: None,
        wayland_display: true,
        display: true,
    }
}

fn auto_display() -> SessionConfig {
    SessionConfig {
        video_target: Some(VideoCaptureTarget::Display(SourceId::new("auto"))),
        ..SessionConfig::default()
    }
}

#[test]
fn each_platform_plans_its_own_sessions() {
    let config = auto_display();
    assert_eq!(
        resolve(TargetOs::Linux, &environment(), &config).unwrap(),
        PlatformPlan::Linux(LinuxPlan {
            system_audio: false,
            video: Some(VideoOrigin::Portal)
        })
    );
    assert_eq!(
        resolve(TargetOs::MacOs, &environment(), &config).unwrap(),
        PlatformPlan::MacOs(MacPlan {
            capture_audio: false
        })
    );
    assert_eq!(
        resolve(TargetOs::Windows, &environment(), &config).unwrap(),
        PlatformPlan::Windows(VideoPlan::DuplicateDisplay { or_wgc: true })
    );
    assert_eq!(
        resolve(TargetOs::Other, &environment(), &config)
            .unwrap_err()
            .message(),
        "backend unavailable: no platform backend resolver matched the current target"
    );
}

#[test]
fn foreign_backends_are_unavailable() {
    for (target, preference) in [
        (TargetOs::Linux, BackendPreference::WindowsDxgi),
        (TargetOs::Linux, BackendPreference::MacScreenCaptureKit),
        (TargetOs::MacOs, BackendPreference::LinuxX11),
        (TargetOs::Windows, BackendPreference::LinuxWaylandPortal),
    ] {
        let config = SessionConfig {
            backend_preference: preference,
            ..auto_display()
        };
        assert!(matches!(
            resolve(target, &environment(), &config),
            Err(PinrayError::BackendUnavailable(_))
        ));
    }
}

#[test]
fn errors_of_a_platform_are_passed_on() {
    let config = SessionConfig {
        audio_capture: Some(AudioCapture::Microphone(SourceId::new("m"))),
        ..auto_display()
    };
    for target in [TargetOs::Linux, TargetOs::MacOs] {
        assert!(matches!(
            resolve(target, &environment(), &config),
            Err(PinrayError::Unsupported(_))
        ));
    }
}

#[test]
fn sources_are_listed_per_platform() {
    assert_eq!(enumerate_sources(SourceReports::Linux(None)).unwrap().len(), 1);
    assert!(enumerate_sources(SourceReports::MacOs(Err(PinrayError::BackendNotSelected))).is_err());
    assert_eq!(
        enumerate_sources(SourceReports::Windows(Ok(Vec::new()), Ok(Vec::new())))
            .unwrap()
            .len(),
        1
    );
    assert!(enumerate_sources(SourceReports::Other).unwrap().is_empty());
}

fn frame(format: PixelFormat, width: u32, height: u32, stride: u32, data: FrameData) -> VideoFrame {
    VideoFrame {
        stream_time_ns: 0,
        sequence: 0,
        width,
        height,
        stride,
        pixel_format: format,
        color_space: None,
        data,
        damage: None,
    }
}

#[test]
fn tight_bytes_have_no_padding() {
    let padded = vec![1, 2, 3, 4, 9, 9, 5, 6, 7, 8, 9, 9];
    let video = frame(PixelFormat::Bgra8888, 1, 2, 6, FrameData::Host(padded.clone()));
    assert_eq!(video.to_tight_bytes(), Some(vec![1, 2, 3, 4, 5, 6, 7, 8]));
    let video = frame(PixelFormat::Rgb888, 1, 2, 6, FrameData::Host(padded.clone()));
    assert_eq!(video.to_tight_bytes(), Some(vec![1, 2, 3, 5, 6, 7]));
    // Without padding the bytes are the frame's own.
    let video = frame(PixelFormat::Rgba8888, 1, 3, 4, FrameData::Host(padded.clone()));
    assert_eq!(video.to_tight_bytes(), Some(padded.clone()));
    // The last row needs no padding behind it.
    let video = frame(
        PixelFormat::Bgra8888,
        1,
        2,
        6,
        FrameData::Host(padded[..10].to_vec()),
    );
    assert_eq!(video.to_tight_bytes(), Some(vec![1, 2, 3, 4, 5, 6, 7, 8]));
}

#[test]
fn frames_without_packed_host_pixels_have_no_tight_bytes() {
    let bytes = vec![0u8; 64];
    assert_eq!(
        frame(PixelFormat::Nv12, 1, 1, 4, FrameData::Host(bytes.clone())).to_tight_bytes(),
        None
    );
    assert_eq!(
        frame(PixelFormat::I420, 1, 1, 4, FrameData::Host(bytes.clone())).to_tight_bytes(),
        None
    );
    // A row wider than the stride, and a buffer that ends early.
    assert_eq!(
        frame(PixelFormat::Bgra8888, 2, 1, 4, FrameData::Host(bytes.clone())).to_tight_bytes(),
        None
    );
    assert_eq!(
        frame(PixelFormat::Bgra8888, 4, 5, 16, FrameData::Host(bytes)).to_tight_bytes(),
        None
    );
    let texture = FrameData::D3D11Texture(pinray::D3D11TextureHandle { ptr: 1 });
    assert_eq!(
        frame(PixelFormat::Bgra8888, 1, 1, 4, texture).to_tight_bytes(),
        None
    );
}

#[test]
fn swapping_channels_twice_restores_them() {
    let original = vec![1u8, 2, 3, 4, 5, 6, 7, 8, 9, 10];
    let mut data = original.clone();
    swap_red_blue(&mut data);
    assert_eq!(data, vec![3, 2, 1, 4, 7, 6, 5, 8, 9, 10]);
    swap_red_blue(&mut data);
    assert_eq!(data, original);
    convert_bgra(&mut data, PixelFormat::Bgra8888);
    assert_eq!(data, original);
    convert_bgra(&mut data, PixelFormat::Rgba8888);
    assert_eq!(data[..3], [3, 2, 1]);
}

#[test]
fn opacity_is_forced_in_whole_pixels() {
    let mut data = vec![0u8; 7];
    make_opaque(&mut data);
    assert_eq!(data, vec![0, 0, 0, 255, 0, 0, 0]);
    assert_eq!(pack_rows(&[1, 2, 3, 4, 5, 6], 4, 2, 2), vec![1, 2, 5, 6]);
}

#[test]
fn a_full_queue_gives_up_its_oldest() {
    let mut queue = BoundedQueue::new(3);
    for item in 0..10 {
        queue.push(item);
        assert!(queue.len() <= 3);
    }
    assert_eq!(queue.pop(), Some(7));
    assert_eq!(queue.pop(), Some(8));
    queue.push(10);
    assert_eq!(queue.pop(), Some(9));
    assert_eq!(queue.pop(), Some(10));
    assert_eq!(queue.pop(), None);
}

#[test]
fn deliveries_are_answered() {
    assert_eq!(delivered(Delivery::Received(5), None, "gone").unwrap(), 5);
    assert!(matches!(
        delivered::<u8>(Delivery::TimedOut, Some(Duration::from_secs(1)), "gone"),
        Err(PinrayError::Timeout(t)) if t == Duration::from_secs(1)
    ));
    assert!(matches!(
        delivered::<u8>(Delivery::Disconnected, Some(Duration::from_secs(1)), "gone"),
        Err(PinrayError::Platform(text)) if text == "gone"
    ));
}

#[test]
fn arithmetic_holds_at_the_edges() {
    assert_eq!(saturating_sum(i64::MAX, 1), i64::MAX);
    assert_eq!(saturating_sum(i64::MIN, -1), i64::MIN);
    assert_eq!(saturating_difference(i64::MIN, 1), i64::MIN);
    assert_eq!(saturating_difference(0, i64::MIN), i64::MAX);
    assert_eq!(saturating_sum(2, 3), 5);
    assert_eq!(wrap_to_i64(1 << 63), i64::MIN);
    assert_eq!(wrap_to_i64(-1), -1);
}

fn named(id: &str, is_primary: bool) -> DisplaySource {
    DisplaySource {
        id: SourceId::new(id),
        name: id.to_string(),
        width: 1,
        height: 1,
        scale_factor_milli: 1000,
        is_primary,
    }
}

#[test]
fn an_id_stands_for_the_first_that_carries_it() {
    let displays = vec![named("a", false), named("b", true), named("b", true)];
    assert_eq!(pick_display(&displays, &SourceId::new("b")), Some(1));
    assert_eq!(pick_display(&displays, &SourceId::new("auto")), Some(1));
    assert_eq!(pick_display(&displays, &SourceId::new("c")), None);
    assert_eq!(pick_display(&Vec::new(), &SourceId::new("auto")), None);
}

#[test]
fn numbers_are_written_and_read_back() {
    for number in [0u64, 9, 10, 4_294_967_295, u64::MAX] {
        assert_eq!(decimal_text(number), format!("{number}"));
        assert_eq!(parse_unsigned(&decimal_text(number), u64::MAX), Some(number));
    }
    for number in [0i64, -1, 77, i64::MIN, i64::MAX] {
        assert_eq!(signed_decimal_text(number), format!("{number}"));
    }
    assert_eq!(parse_u32("007"), Some(7));
    assert_eq!(parse_u32("-0"), None);
    assert_eq!(parse_u32("+"), None);
    assert_eq!(parse_u32(""), None);
    assert_eq!(parse_u32("4294967296"), None);
    assert_eq!(parse_u32("99999999999999999999999"), None);
    assert_eq!(parse_isize("-0"), Some(0));
    assert_eq!(parse_isize("-12"), Some(-12));
    assert_eq!(parse_isize("+-1"), None);
    assert_eq!(hex_text(0xbeef, 6), "00BEEF");
    assert_eq!(hex_text(0xbeef, 2), "EF");
}

#[test]
fn texts_are_taken_apart() {
    assert_eq!(strip_prefix("window:7", "window:").as_deref(), Some("7"));
    assert_eq!(strip_prefix("win", "window:"), None);
    assert_eq!(joined("a", "b"), "ab");
    assert!(same_text("x", "x"));
    assert!(!same_text("x", "X"));
    assert!(eq_ignore_ascii_case("WAYland", "wayLAND"));
    assert!(!eq_ignore_ascii_case("\u{c9}", "\u{e9}"));
    assert_eq!(piece_behind_last("a/b/c", '/'), "c");
    assert_eq!(piece_behind_last("a/", '/'), "");
    assert_eq!(second_piece("\0a\0\0b\0c", '\0').as_deref(), Some("b"));
    assert_eq!(second_piece("a\0", '\0'), None);
}

#[test]
fn ids_and_tokens_take_slices_and_strings() {
    assert_eq!(SourceId::new("window:4"), SourceId("window:4".to_string()));
    assert_eq!(SourceId::new("window:4".to_string()), SourceId::new("window:4"));
    let slice = CaptureSession::builder().restore_token("again");
    let string = CaptureSession::builder().restore_token("again".to_string());
    assert_eq!(slice.config(), string.config());
    assert_eq!(slice.config().restore_token.as_deref(), Some("again"));
}

#[test]
fn frames_are_buffered_before_drops() {
    let mut queue = FrameQueue::new(3);
    assert!(queue.offer(1) && queue.offer(2) && queue.offer(3));
    assert!(queue.report().is_none());
    assert!(!queue.offer(4));
    assert!(!queue.try_push(5));
    queue.lose();
    match queue.report() {
        Some(CaptureEvent::Gap(gap)) => {
            assert_eq!(gap.dropped_frames, Some(2));
            assert_eq!(gap.reason, GapReason::Dropped);
            assert_eq!(gap.stream_time_ns, 0);
        }
        other => panic!("unexpected report: {other:?}"),
    }
    assert!(queue.report().is_none());
    assert_eq!(queue.take(), Some(1));
    assert!(queue.offer(6));
    assert_eq!(queue.take(), Some(2));
    queue.clear();
    assert_eq!(queue.take(), None);
    assert!(queue.offer(7));
    assert_eq!(queue.take(), Some(7));
}
