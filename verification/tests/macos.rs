//! The macOS backend.
use std::time::Duration;

use pinray::channel::Delivery;
use pinray::platform_macos::capture::{
    after_waiting, backend_info, build_backend, build_content_filter, build_stream_configuration, captures_audio, copy_rows,
    extract_audio_frame, extract_video_frame, normalize_pixels, pts_to_ns, stopped,
    AudioSettings, ContentFilter, ImageSample, MediaTime, RawEvent, SckStream, PIXEL_FORMAT_32BGRA,
    PIXEL_FORMAT_32RGBA,
};
use pinray::platform_macos::content::{
    display_dimensions, find_display, find_window, list_content, shared_content,
    DisplayDimensions, DisplayReport, WindowReport,
};
use pinray::platform_macos::{
    available_backends, enumerate_sources, try_resolve, MacPlan, ShareableContent,
};
use pinray::{
    AudioCapture, AudioData, AudioFrame, BackendKind, BackendPreference, CaptureEvent,
    CaptureSource, ColorSpace, CursorMode, FrameData, GapEvent, GapReason, PinrayError,
    PixelFormat, Rect, SampleFormat, SessionConfig, SourceId, TargetOs, VideoCaptureTarget,
    VideoFrame,
};

fn displays() -> Vec<DisplayReport> {
    vec![
        DisplayReport {
            id: 11,
            width: 1512,
            height: 982,
        },
        DisplayReport {
            id: 12,
            width: 1001,
            height: 0,
        },
    ]
}

fn window(id: u32, title: &str, app_name: Option<&str>) -> WindowReport {
    WindowReport {
        id,
        title: title.to_string(),
        app_name: app_name.map(|name| name.to_string()),
    }
}

fn display(id: &str) -> Option<VideoCaptureTarget> {
    Some(VideoCaptureTarget::Display(SourceId::new(id)))
}

#[test]
fn shared_content_is_listed() {
    let windows = vec![
        window(1, "Notes", Some("Editor")),
        window(2, "", None),
        window(3, "", Some("Agent")),
        window(4, "Untitled", None),
    ];
    let sources = list_content(&displays(), &windows);
    assert_eq!(sources.len(), 5);
    match &sources[0] {
        CaptureSource::Display(display) => {
            assert_eq!(display.id, SourceId::new("11"));
            assert_eq!(display.name, "Display 11");
            assert_eq!((display.width, display.height), (1512, 982));
            assert_eq!(display.scale_factor_milli, 1000);
            assert!(!display.is_primary);
        }
        other => panic!("unexpected source: {other:?}"),
    }
    match &sources[3] {
        CaptureSource::Window(window) => {
            assert_eq!(window.id, SourceId::new("3"));
            assert_eq!(window.title, "");
            assert_eq!(window.app_name.as_deref(), Some("Agent"));
        }
        other => panic!("unexpected source: {other:?}"),
    }
    let content = ShareableContent {
        displays: displays(),
        windows,
    };
    assert_eq!(
        enumerate_sources(TargetOs::MacOs, Ok(content)).unwrap().len(),
        5
    );
    assert!(enumerate_sources(TargetOs::MacOs, Err(PinrayError::BackendNotSelected)).is_err());
    assert!(
        enumerate_sources(TargetOs::Linux, Err(PinrayError::BackendNotSelected))
            .unwrap()
            .is_empty()
    );
}

#[test]
fn displays_are_found_by_number() {
    assert_eq!(find_display(&displays(), &display("12")).unwrap(), 1);
    assert_eq!(find_display(&displays(), &display("auto")).unwrap(), 0);
    assert_eq!(find_display(&displays(), &None).unwrap(), 0);
    assert_eq!(
        find_display(&displays(), &display("13")).unwrap_err().message(),
        "platform error: display 13 not found"
    );
    assert_eq!(
        find_display(&displays(), &display("main")).unwrap_err().message(),
        "invalid session configuration: invalid display id 'main'"
    );
    assert_eq!(
        find_display(&Vec::new(), &None).unwrap_err().message(),
        "platform error: no displays via SCShareableContent"
    );
}

#[test]
fn windows_are_found_by_number() {
    let windows = vec![window(5, "a", None), window(6, "b", None)];
    assert_eq!(find_window(&windows, "6").unwrap(), 1);
    assert_eq!(
        find_window(&windows, "7").unwrap_err().message(),
        "platform error: window 7 not found"
    );
    assert_eq!(
        find_window(&windows, "window:6").unwrap_err().message(),
        "invalid session configuration: invalid window id 'window:6'"
    );
}

#[test]
fn dimensions_are_those_of_the_display() {
    let first = DisplayDimensions {
        width: 1512,
        height: 982,
        scale: 2,
    };
    let assumed = DisplayDimensions {
        width: 1920,
        height: 1080,
        scale: 1,
    };
    assert_eq!(display_dimensions(&displays(), &None), first);
    assert_eq!(display_dimensions(&displays(), &display("auto")), first);
    assert_eq!(display_dimensions(&displays(), &display("main")), first);
    assert_eq!(display_dimensions(&displays(), &display("12")).width, 1001);
    assert_eq!(display_dimensions(&displays(), &display("13")), assumed);
    assert_eq!(display_dimensions(&Vec::new(), &None), assumed);
}

#[test]
fn streams_are_configured_in_even_pixels() {
    let rect = Rect {
        x: 1,
        y: 2,
        width: 3,
        height: 4,
    };
    let mut config = SessionConfig {
        cursor_mode: CursorMode::Hidden,
        crop_rect: Some(rect),
        frame_rate: None,
        ..SessionConfig::default()
    };
    let dimensions = DisplayDimensions {
        width: 1001,
        height: 0,
        scale: 1,
    };
    let configuration = build_stream_configuration(&config, dimensions, true);
    assert_eq!((configuration.width, configuration.height), (1000, 2));
    assert_eq!(configuration.pixel_format, PIXEL_FORMAT_32BGRA);
    assert!(!configuration.shows_cursor);
    assert_eq!(configuration.frames_per_second, 60);
    assert_eq!(
        configuration.audio,
        Some(AudioSettings {
            sample_rate: 48_000,
            channels: 2
        })
    );
    assert_eq!(configuration.source_rect, Some(rect));
    config.frame_rate = Some(0);
    let configuration = build_stream_configuration(&config, dimensions, false);
    assert_eq!(configuration.frames_per_second, 1);
    assert_eq!(configuration.audio, None);
    config.frame_rate = Some(u32::MAX);
    let configuration = build_stream_configuration(&config, dimensions, false);
    assert_eq!(configuration.frames_per_second, -1);
}

#[test]
fn a_stream_is_planned_over_the_shared_content() {
    let content = || {
        Ok(ShareableContent {
            displays: displays(),
            windows: vec![window(5, "a", None)],
        })
    };
    let mut config = SessionConfig {
        video_target: display("11"),
        audio_capture: Some(AudioCapture::SystemMix),
        ..SessionConfig::default()
    };
    let plan = build_backend(&config, content()).unwrap();
    assert_eq!(plan.filter, ContentFilter::Display(0));
    assert_eq!((plan.configuration.width, plan.configuration.height), (3024, 1964));
    assert!(plan.configuration.audio.is_some());
    assert!(plan.info.supports_audio);
    config.video_target = Some(VideoCaptureTarget::Window(SourceId::new("5")));
    config.audio_capture = None;
    let plan = build_backend(&config, content()).unwrap();
    assert_eq!(plan.filter, ContentFilter::Window(0));
    assert!(!plan.info.supports_audio);
    config.video_target = display("99");
    assert_eq!(
        build_backend(&config, content()).unwrap_err().message(),
        "platform error: display 99 not found"
    );
    assert!(matches!(
        build_backend(&config, Err(PinrayError::BackendNotSelected)),
        Err(PinrayError::BackendNotSelected)
    ));
    config.audio_capture = Some(AudioCapture::Microphone(SourceId::new("m")));
    assert!(matches!(
        build_backend(&config, Err(PinrayError::BackendNotSelected)),
        Err(PinrayError::Unsupported(_))
    ));
    assert!(matches!(
        build_content_filter(&None, &Vec::new(), &Vec::new()),
        Err(PinrayError::Platform(_))
    ));
}

#[test]
fn content_is_shared_or_refused() {
    assert_eq!(shared_content(None, Some(4)).unwrap(), 4);
    assert_eq!(
        shared_content::<u8>(None, None).unwrap_err().message(),
        "platform error: SCShareableContent is nil"
    );
    assert_eq!(
        shared_content(Some("denied".to_string()), Some(4))
            .unwrap_err()
            .message(),
        "platform error: SCShareableContent failed: denied"
    );
}

fn time(value: i64, timescale: i32) -> MediaTime {
    MediaTime { value, timescale }
}

#[test]
fn media_times_are_told_in_nanoseconds() {
    assert_eq!(pts_to_ns(time(5, 1_000_000_000)), 5);
    assert_eq!(pts_to_ns(time(3, 600)), 5_000_000);
    assert_eq!(pts_to_ns(time(-1, 3)), -333_333_333);
    assert_eq!(pts_to_ns(time(1, -3)), -333_333_333);
    assert_eq!(pts_to_ns(time(9, 0)), 0);
    assert_eq!(pts_to_ns(time(i64::MAX, 1_000_000_000)), i64::MAX);
}

#[test]
fn row_padding_is_stripped() {
    let raw = [1u8, 2, 3, 4, 0, 0, 5, 6, 7, 8];
    assert_eq!(copy_rows(&raw, 6, 4, 2), vec![1, 2, 3, 4, 5, 6, 7, 8]);
    // The third row is not there.
    assert_eq!(copy_rows(&raw, 6, 4, 3), vec![1, 2, 3, 4, 5, 6, 7, 8]);
    assert_eq!(copy_rows(&raw, 4, 4, 2), vec![1, 2, 3, 4, 0, 0, 5, 6]);
    assert!(copy_rows(&raw, 4, 4, 0).is_empty());
}

#[test]
fn pixels_come_in_the_packed_format_asked_for() {
    let raw = [1u8, 2, 3, 4];
    let same = vec![1u8, 2, 3, 4];
    let swapped = vec![3u8, 2, 1, 4];
    let cases = [
        (PIXEL_FORMAT_32BGRA, PixelFormat::Bgra8888, PixelFormat::Bgra8888, &same),
        (PIXEL_FORMAT_32BGRA, PixelFormat::Rgba8888, PixelFormat::Rgba8888, &swapped),
        (PIXEL_FORMAT_32RGBA, PixelFormat::Rgba8888, PixelFormat::Rgba8888, &same),
        (PIXEL_FORMAT_32RGBA, PixelFormat::Bgra8888, PixelFormat::Bgra8888, &swapped),
        (PIXEL_FORMAT_32BGRA, PixelFormat::Nv12, PixelFormat::Rgba8888, &swapped),
        (0x6c31_3072, PixelFormat::Rgba8888, PixelFormat::Bgra8888, &same),
    ];
    for (native, desired, format, bytes) in cases {
        let (got, data) = normalize_pixels(native, &raw, 1, 1, 4, desired);
        assert_eq!(got, format);
        assert_eq!(&data, bytes);
    }
}

fn sample(data: &[u8]) -> ImageSample<'_> {
    ImageSample {
        width: 1,
        height: 2,
        bytes_per_row: 6,
        data,
        native_format: PIXEL_FORMAT_32BGRA,
    }
}

#[test]
fn pictures_become_frames() {
    let raw = [1u8, 2, 3, 4, 0, 0, 5, 6, 7, 8];
    let frame =
        extract_video_frame(time(1, 1000), Some(sample(&raw)), 4, PixelFormat::Rgba8888).unwrap();
    assert_eq!(
        frame,
        VideoFrame {
            stream_time_ns: 1_000_000,
            sequence: 4,
            width: 1,
            height: 2,
            stride: 4,
            pixel_format: PixelFormat::Rgba8888,
            color_space: Some(ColorSpace::Srgb),
            data: FrameData::Host(vec![3, 2, 1, 4, 7, 6, 5, 8]),
            damage: None,
        }
    );
    assert!(extract_video_frame(time(1, 1), None, 0, PixelFormat::Bgra8888).is_none());
    assert!(extract_video_frame(time(1, 1), Some(sample(&[])), 0, PixelFormat::Bgra8888).is_none());
    let mut flat = sample(&raw);
    flat.height = 0;
    assert!(extract_video_frame(time(1, 1), Some(flat), 0, PixelFormat::Bgra8888).is_none());
}

#[test]
fn samples_become_frames() {
    assert_eq!(
        extract_audio_frame(time(2, 1), 1, Some(vec![1, 2, 3, 4]), 6),
        Some(AudioFrame {
            stream_time_ns: 2_000_000_000,
            sequence: 6,
            sample_rate: 48_000,
            channels: 2,
            sample_format: SampleFormat::F32,
            data: AudioData::Interleaved(vec![1, 2, 3, 4]),
        })
    );
    assert_eq!(extract_audio_frame(time(2, 1), 0, Some(vec![1]), 6), None);
    assert_eq!(extract_audio_frame(time(2, 1), 1, Some(Vec::new()), 6), None);
    assert_eq!(extract_audio_frame(time(2, 1), 1, None, 6), None);
}

fn picture(sequence: u64) -> VideoFrame {
    VideoFrame {
        stream_time_ns: 1,
        sequence,
        width: 1,
        height: 1,
        stride: 4,
        pixel_format: PixelFormat::Bgra8888,
        color_space: Some(ColorSpace::Srgb),
        data: FrameData::Host(vec![1, 2, 3, 4]),
        damage: None,
    }
}

fn sound(sequence: u64) -> AudioFrame {
    extract_audio_frame(time(2, 1), 1, Some(vec![1, 2, 3, 4]), sequence).unwrap()
}

#[test]
fn sequences_advance_on_delivery_alone() {
    let mut stream = SckStream::new(PixelFormat::Bgra8888, true, 1);
    assert_eq!(stream.wants_video(), None);
    stream.starting();
    assert!(stream.started(None).is_ok());
    assert_eq!(stream.wants_video(), Some(0));
    stream.offer_video(picture(0));
    assert_eq!(stream.wants_video(), Some(1));
    stream.offer_video(picture(1));
    assert_eq!(stream.wants_video(), Some(1));
    assert_eq!(stream.wants_audio(), Some(0));
    stream.offer_audio(sound(0));
    assert_eq!(stream.wants_audio(), Some(0));
    assert!(matches!(stream.take(), Some(RawEvent::Video(frame)) if frame == picture(0)));
    stream.offer_audio(sound(0));
    assert_eq!(stream.wants_audio(), Some(1));
    assert!(matches!(stream.take(), Some(RawEvent::Audio(frame)) if frame == sound(0)));
    assert!(stream.take().is_none());
    stream.stopping();
    assert_eq!(stream.wants_audio(), None);
    let mut silent = SckStream::new(PixelFormat::Bgra8888, false, 1);
    silent.starting();
    assert_eq!(silent.wants_audio(), None);
}

#[test]
fn what_the_queue_refuses_is_reported_as_a_gap() {
    let mut stream = SckStream::new(PixelFormat::Bgra8888, true, 2);
    stream.starting();
    stream.offer_video(picture(0));
    stream.offer_audio(sound(0));
    assert!(stream.before_waiting().is_none());
    stream.offer_video(picture(1));
    stream.offer_audio(sound(1));
    stream.offer_video(picture(1));
    assert_eq!(
        stream.before_waiting().unwrap().unwrap(),
        CaptureEvent::Gap(GapEvent {
            stream_time_ns: 0,
            reason: GapReason::Dropped,
            dropped_frames: Some(3),
        })
    );
    // A loss is told once.
    assert!(stream.before_waiting().is_none());
    assert_eq!(stream.wants_video(), Some(1));
    assert_eq!(stream.wants_audio(), Some(1));
}

#[test]
fn refusals_are_passed_on() {
    let mut stream = SckStream::new(PixelFormat::Bgra8888, true, 1);
    stream.starting();
    assert_eq!(
        stream.started(Some("denied".to_string())).unwrap_err().message(),
        "platform error: startCapture: denied"
    );
    assert!(!stream.active);
    assert_eq!(
        stopped(Some("busy".to_string())).unwrap_err().message(),
        "platform error: stopCapture: busy"
    );
    assert!(stopped(None).is_ok());
}

#[test]
fn a_stream_that_stopped_itself_has_ended() {
    let mut stream = SckStream::new(PixelFormat::Bgra8888, true, 1);
    assert!(stream.before_waiting().is_none());
    stream.stopped_itself("gone".to_string());
    assert!(matches!(stream.take(), Some(RawEvent::Ended(message)) if message == "gone"));
    // Where there is no room, nothing is queued, and nothing counted.
    stream.offer_video(picture(0));
    stream.stopped_itself("gone".to_string());
    assert!(matches!(stream.take(), Some(RawEvent::Video(_))));
    assert!(stream.take().is_none());
    assert_eq!(
        stream.before_waiting().unwrap().unwrap_err().message(),
        "platform error: SCStream stopped with error; check tracing logs"
    );
    assert_eq!(
        after_waiting(Delivery::Received(RawEvent::Ended("gone".to_string())), None)
            .unwrap_err()
            .message(),
        "platform error: SCStream stopped with error: gone"
    );
    let audio = extract_audio_frame(time(2, 1), 1, Some(vec![1]), 6).unwrap();
    assert!(matches!(
        after_waiting(Delivery::Received(RawEvent::Audio(audio)), None),
        Ok(CaptureEvent::Audio(frame)) if frame.sequence == 6
    ));
    let raw = [1u8, 2, 3, 4, 0, 0, 5, 6, 7, 8];
    let video =
        extract_video_frame(time(1, 1), Some(sample(&raw)), 4, PixelFormat::Bgra8888).unwrap();
    assert!(matches!(
        after_waiting(Delivery::Received(RawEvent::Video(video)), None),
        Ok(CaptureEvent::Video(frame)) if frame.sequence == 4
    ));
    assert!(matches!(
        after_waiting(Delivery::TimedOut, Some(Duration::from_secs(2))),
        Err(PinrayError::Timeout(t)) if t == Duration::from_secs(2)
    ));
    assert_eq!(
        after_waiting(Delivery::Disconnected, None).unwrap_err().message(),
        "platform error: SCStream event channel disconnected"
    );
}

#[test]
fn macos_sessions_are_planned() {
    let mut config = SessionConfig::default();
    assert_eq!(
        try_resolve(TargetOs::MacOs, &config).unwrap(),
        Some(MacPlan {
            capture_audio: false
        })
    );
    config.audio_capture = Some(AudioCapture::SystemMix);
    config.backend_preference = BackendPreference::MacScreenCaptureKit;
    assert!(captures_audio(&config).unwrap());
    assert_eq!(
        try_resolve(TargetOs::MacOs, &config).unwrap(),
        Some(MacPlan {
            capture_audio: true
        })
    );
    assert_eq!(try_resolve(TargetOs::Linux, &config).unwrap(), None);
    config.audio_capture = Some(AudioCapture::Microphone(SourceId::new("m")));
    assert_eq!(
        try_resolve(TargetOs::MacOs, &config).unwrap_err().message(),
        "operation not supported: macos microphone capture is not implemented yet"
    );
    config.backend_preference = BackendPreference::WindowsDxgi;
    assert_eq!(try_resolve(TargetOs::MacOs, &config).unwrap(), None);
}

#[test]
fn the_macos_backend_is_listed() {
    let backends = available_backends(TargetOs::MacOs);
    assert_eq!(backends.len(), 1);
    assert_eq!(backends[0].kind, BackendKind::MacScreenCaptureKit);
    assert!(backends[0].supports_audio);
    assert!(!backends[0].zero_copy);
    assert_eq!(
        backend_info(false).notes,
        "ScreenCaptureKit via XPC + CVPixelBuffer host-copy"
    );
    assert!(available_backends(TargetOs::Windows).is_empty());
}
