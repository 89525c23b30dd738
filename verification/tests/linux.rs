//! The Linux backends.
use std::time::Duration;

use pinray::channel::Delivery;
use pinray::platform_linux::audio::{
    control, next_audio, resolve_system_audio, AudioFormat, Packet, PipeWireAudioStream,
    MAX_QUEUED_FRAMES,
};
use pinray::platform_linux::clock::{stream_time_between, stream_time_ns, MonotonicClock};
use pinray::platform_linux::cursor::{blend_cursor, CursorImage};
use pinray::platform_linux::format::{
    build_stream_params, normalize_frame, VideoFormat, VideoSize,
};
use pinray::platform_linux::portal::{
    create_session, request_path, select_sources, session_handle, start, started, wait_response,
    ActiveScreenCast, AnnouncedSize, Answer, CursorMode as PortalCursorMode, Entry, PortalOption,
    PortalValue, ScreenCastStream, StreamReport, TokenCounter,
};
use pinray::platform_linux::runtime::{
    adopt_format, chunk, ControlMessage, MediaKind, ParamChange, RuntimeState,
};
use pinray::platform_linux::screencast::{
    start_screen_cast, PortalMethod, PortalReply, PortalRequest, ScreenCastRequest, Stage,
};
use pinray::platform_linux::wayland::{
    include_cursor, is_wayland_session, next_event, resolve_wayland_backend, stream_setup,
    NegotiatedVideo, VideoBuffer, WaylandStream,
};
use pinray::platform_linux::x11::{
    capture_target, check_image, frame_region, resolve_x11_backend, timed_out, x11_error, FrameRegion, ImageReply, Poll, Target, WindowSize,
    X11Stream,
};
use pinray::platform_linux::x11_sources::{
    client_windows, enumerate_monitors, enumerate_windows, find_monitor, named_monitor,
    named_window, parse_window_id, root_monitor, search_monitors, window_id, MonitorRegion,
    MonitorReport, MonitorSearch, WindowReport,
};
use pinray::platform_linux::{
    available_backends, enumerate_sources, try_resolve, Environment, LinuxPlan, VideoOrigin,
    X11Sources,
};
use pinray::{
    AudioCapture, AudioData, BackendKind, BackendPreference, CaptureEvent, CaptureSource,
    ColorSpace, CursorMode, FrameData, GapEvent, GapReason, PinrayError, PixelFormat, Rect,
    SampleFormat, SessionConfig, SourceId, TargetOs, VideoCaptureTarget, VideoFrame,
};

// The clock.

#[test]
fn timestamps_never_decrease() {
    let mut clock = MonotonicClock::new();
    let mut last = clock.monotonic_time_ns();
    for _ in 0..1000 {
        let now = clock.monotonic_time_ns();
        assert!(now >= last);
        last = now;
    }
}

#[test]
fn timestamps_count_from_the_anchor() {
    let mut clock = MonotonicClock::new();
    let first = clock.monotonic_time_ns();
    assert!(first >= 0);
    let since = std::time::Instant::now();
    while since.elapsed() < Duration::from_millis(20) {}
    let later = clock.monotonic_time_ns();
    assert!(later - first >= 20_000_000);
    assert_eq!(stream_time_ns(0), 0);
    assert_eq!(stream_time_ns(1_234), 1_234);
    assert_eq!(stream_time_ns(i64::MAX as u128 + 1), i64::MIN);
    assert_eq!(stream_time_ns(u128::MAX), -1);
}

#[test]
fn timestamps_tell_the_time_since_the_anchor() {
    let anchor = std::time::Instant::now();
    let later = anchor + Duration::new(2, 7);
    assert_eq!(stream_time_between(&anchor, &anchor), 0);
    assert_eq!(stream_time_between(&anchor, &later), 2_000_000_007);
    // An instant before the anchor is no time away from it.
    assert_eq!(stream_time_between(&later, &anchor), 0);
}

#[test]
fn readings_differ_by_the_time_between_them() {
    let mut clock = MonotonicClock::new();
    let before = std::time::Instant::now();
    let first = clock.monotonic_time_ns();
    while before.elapsed() < Duration::from_millis(5) {}
    let second = clock.monotonic_time_ns();
    let all = before.elapsed();
    assert!(0 <= first && first <= second);
    assert!((second - first) as u128 <= all.as_nanos());
}

// Pixel formats.

#[test]
fn bgra_passthrough() {
    let (fmt, data) = normalize_frame(VideoFormat::Bgra, &[1, 2, 3, 4], PixelFormat::Bgra8888);
    assert_eq!(fmt, PixelFormat::Bgra8888);
    assert_eq!(data, vec![1, 2, 3, 4]);
}

#[test]
fn bgra_to_rgba_swizzles() {
    let (fmt, data) = normalize_frame(VideoFormat::Bgra, &[1, 2, 3, 4], PixelFormat::Rgba8888);
    assert_eq!(fmt, PixelFormat::Rgba8888);
    assert_eq!(data, vec![3, 2, 1, 4]);
}

#[test]
fn rgbx_to_bgra_swizzles() {
    let (fmt, data) = normalize_frame(VideoFormat::Rgbx, &[1, 2, 3, 4], PixelFormat::Bgra8888);
    assert_eq!(fmt, PixelFormat::Bgra8888);
    assert_eq!(data, vec![3, 2, 1, 4]);
}

#[test]
fn unknown_combination_falls_back_to_bgra() {
    let (fmt, data) = normalize_frame(VideoFormat::Nv12, &[9, 9], PixelFormat::Bgra8888);
    assert_eq!(fmt, PixelFormat::Bgra8888);
    assert_eq!(data, vec![9, 9]);
}

#[test]
fn every_layout_is_delivered_as_something() {
    let raw = [1u8, 2, 3, 4, 5];
    let same = raw.to_vec();
    let swapped = vec![3u8, 2, 1, 4, 5];
    let cases = [
        (VideoFormat::Bgrx, PixelFormat::Bgra8888, PixelFormat::Bgra8888, &same),
        (VideoFormat::Bgrx, PixelFormat::Rgba8888, PixelFormat::Rgba8888, &swapped),
        (VideoFormat::Rgba, PixelFormat::Rgba8888, PixelFormat::Rgba8888, &same),
        (VideoFormat::Rgbx, PixelFormat::Rgba8888, PixelFormat::Rgba8888, &same),
        (VideoFormat::Rgba, PixelFormat::Bgra8888, PixelFormat::Bgra8888, &swapped),
        (VideoFormat::Rgb, PixelFormat::Rgb888, PixelFormat::Rgb888, &same),
        (VideoFormat::Rgb, PixelFormat::Rgba8888, PixelFormat::Rgb888, &same),
        (VideoFormat::Rgbx, PixelFormat::Nv12, PixelFormat::Bgra8888, &swapped),
        (VideoFormat::Rgba, PixelFormat::Rgb888, PixelFormat::Bgra8888, &swapped),
        (VideoFormat::Bgra, PixelFormat::I420, PixelFormat::Bgra8888, &same),
        (VideoFormat::Other, PixelFormat::I420, PixelFormat::Bgra8888, &same),
    ];
    for (source, desired, format, bytes) in cases {
        let (got, data) = normalize_frame(source, &raw, desired);
        assert_eq!(got, format);
        assert_eq!(&data, bytes);
    }
}

#[test]
fn streams_are_offered_up_to_the_rate() {
    let params = build_stream_params(24, None);
    assert_eq!(
        params.formats,
        (VideoFormat::Bgra, VideoFormat::Bgrx, VideoFormat::Rgba, VideoFormat::Rgbx)
    );
    assert_eq!(params.default_size, VideoSize { width: 1920, height: 1080 });
    assert_eq!(params.min_size, VideoSize { width: 1, height: 1 });
    assert_eq!(params.max_size, VideoSize { width: 7680, height: 4320 });
    assert_eq!((params.default_rate, params.min_rate, params.max_rate), (24, 0, 24));
    let params = build_stream_params(24, Some(VideoSize { width: 8, height: 9 }));
    assert_eq!(params.default_size, VideoSize { width: 8, height: 9 });
}

// Workers.

#[test]
fn control_messages_are_heeded() {
    let mut state = RuntimeState::new();
    state.heed(ControlMessage::Start);
    assert!(state.active);
    state.heed(ControlMessage::Stop);
    assert!(!state.active);
    assert!(!state.terminated);
    state.heed(ControlMessage::Terminate);
    assert!(state.terminated);
    assert!(control(true).is_ok());
    assert_eq!(
        control(false).unwrap_err().message(),
        "platform error: pipewire audio worker is not available"
    );
    assert_eq!(
        pinray::platform_linux::wayland::control(false)
            .unwrap_err()
            .message(),
        "platform error: wayland capture worker is not available"
    );
}

#[test]
fn chunks_stay_within_their_buffer() {
    let buffer = [1u8, 2, 3, 4];
    assert_eq!(chunk(&buffer, 1, 2), Some(&buffer[1..3]));
    assert_eq!(chunk(&buffer, 4, 0), Some(&buffer[4..4]));
    assert_eq!(chunk(&buffer, 3, 2), None);
    assert_eq!(chunk(&buffer, usize::MAX, 2), None);
}

fn packet(bytes: &[u8]) -> Packet<'_> {
    Packet {
        buffer: Some(bytes),
        offset: 1,
        size: bytes.len() - 1,
    }
}

fn format_change(rate: u32, channels: u32) -> Option<ParamChange<AudioFormat>> {
    Some(ParamChange {
        is_format: true,
        media: Some(MediaKind::Audio),
        is_raw: true,
        format: Some(AudioFormat { rate, channels }),
    })
}

#[test]
fn audio_is_captured_while_the_stream_is_active() {
    let mut stream = PipeWireAudioStream::new();
    stream.param_changed(format_change(48_000, 2));
    let bytes = [0u8, 1, 2, 3, 4];
    stream.receive(&packet(&bytes), 5);
    assert!(!stream.is_active());
    assert!(stream.take().is_none());
    stream.heed(ControlMessage::Start);
    assert!(stream.is_active());
    stream.receive(&packet(&bytes), 6);
    let frame = stream.take().unwrap();
    assert_eq!(frame.sequence, 0);
    assert_eq!(frame.stream_time_ns, 6);
    assert_eq!((frame.sample_rate, frame.channels), (48_000, 2));
    assert_eq!(frame.sample_format, SampleFormat::F32);
    assert_eq!(frame.data, AudioData::Interleaved(vec![1, 2, 3, 4]));
    stream.heed(ControlMessage::Stop);
    stream.receive(&packet(&bytes), 7);
    stream.heed(ControlMessage::Start);
    stream.receive(&packet(&bytes), 8);
    assert_eq!(stream.take().unwrap().sequence, 1);
    stream.heed(ControlMessage::Terminate);
    assert!(stream.is_terminated());
}

#[test]
fn what_is_no_packet_is_passed_over() {
    let mut stream = PipeWireAudioStream::new();
    stream.heed(ControlMessage::Start);
    let bytes = [0u8, 1, 2];
    // No format was negotiated yet.
    stream.receive(&packet(&bytes), 0);
    stream.param_changed(format_change(0, 2));
    stream.receive(&packet(&bytes), 0);
    stream.param_changed(format_change(48_000, 0));
    stream.receive(&packet(&bytes), 0);
    stream.param_changed(format_change(48_000, 65_537));
    let mut bad = packet(&bytes);
    bad.buffer = None;
    stream.receive(&bad, 0);
    let mut bad = packet(&bytes);
    bad.size = 3;
    stream.receive(&bad, 0);
    assert!(stream.take().is_none());
    stream.receive(&packet(&bytes), 0);
    let frame = stream.take().unwrap();
    assert_eq!((frame.sequence, frame.channels), (0, 1));
}

#[test]
fn only_raw_formats_of_the_right_media_are_adopted() {
    assert_eq!(
        adopt_format(format_change(1, 2), MediaKind::Audio),
        Some(AudioFormat {
            rate: 1,
            channels: 2
        })
    );
    assert_eq!(adopt_format(format_change(1, 2), MediaKind::Video), None);
    assert_eq!(adopt_format::<AudioFormat>(None, MediaKind::Audio), None);
    let mut change = format_change(1, 2).unwrap();
    change.is_format = false;
    assert_eq!(adopt_format(Some(change), MediaKind::Audio), None);
    let mut change = format_change(1, 2).unwrap();
    change.is_raw = false;
    assert_eq!(adopt_format(Some(change), MediaKind::Audio), None);
    let mut change = format_change(1, 2).unwrap();
    change.media = None;
    assert_eq!(adopt_format(Some(change), MediaKind::Audio), None);
    let mut change = format_change(1, 2).unwrap();
    change.format = None;
    assert_eq!(adopt_format(Some(change), MediaKind::Audio), None);
}

#[test]
fn the_audio_queue_is_bounded() {
    let mut stream = PipeWireAudioStream::new();
    stream.heed(ControlMessage::Start);
    stream.param_changed(format_change(48_000, 2));
    let bytes = [0u8, 1];
    for _ in 0..MAX_QUEUED_FRAMES + 5 {
        stream.receive(&packet(&bytes), 0);
    }
    assert_eq!(stream.take().unwrap().sequence, 5);
    let mut left = 1;
    while stream.take().is_some() {
        left += 1;
    }
    assert_eq!(left, MAX_QUEUED_FRAMES);
}

#[test]
fn waiting_for_audio_has_its_answers() {
    assert!(matches!(
        next_audio(Delivery::TimedOut, Some(Duration::from_secs(3))),
        Err(PinrayError::Timeout(t)) if t == Duration::from_secs(3)
    ));
    assert_eq!(
        next_audio(Delivery::Disconnected, None).unwrap_err().message(),
        "platform error: pipewire audio channel disconnected"
    );
}

#[test]
fn linux_has_no_microphone() {
    assert!(!resolve_system_audio(&None).unwrap());
    assert!(resolve_system_audio(&Some(AudioCapture::SystemMix)).unwrap());
    assert_eq!(
        resolve_system_audio(&Some(AudioCapture::Microphone(SourceId::new("m"))))
            .unwrap_err()
            .message(),
        "operation not supported: linux microphone capture is not implemented yet"
    );
}

// Wayland.

#[test]
fn wayland_sessions_are_recognized() {
    assert!(is_wayland_session(Some("wayland"), false));
    assert!(is_wayland_session(Some("WayLand"), false));
    assert!(is_wayland_session(Some("x11"), true));
    assert!(is_wayland_session(None, true));
    assert!(!is_wayland_session(Some("x11"), false));
    assert!(!is_wayland_session(Some("wayland2"), false));
    assert!(!is_wayland_session(None, false));
}

fn stream(width: Option<u32>, height: Option<u32>) -> ScreenCastStream {
    ScreenCastStream {
        node_id: 7,
        width,
        height,
    }
}

#[test]
fn the_first_stream_is_captured() {
    let mut config = SessionConfig::default();
    assert!(include_cursor(&config));
    config.cursor_mode = CursorMode::Hidden;
    assert!(!include_cursor(&config));
    config.frame_rate = None;
    config.pixel_format = PixelFormat::Rgba8888;
    let setup = stream_setup(&config, &vec![stream(Some(3), Some(4)), stream(None, None)]).unwrap();
    assert_eq!(setup.node_id, 7);
    assert_eq!(setup.size, Some(VideoSize { width: 3, height: 4 }));
    assert_eq!(setup.frame_rate, 60);
    assert_eq!(setup.queue_depth, config.queue_depth as usize);
    assert_eq!(setup.desired_format, PixelFormat::Rgba8888);
    config.frame_rate = Some(25);
    let setup = stream_setup(&config, &vec![stream(Some(3), None)]).unwrap();
    assert_eq!(setup.size, None);
    assert_eq!(setup.frame_rate, 25);
    assert_eq!(
        stream_setup(&config, &Vec::new()).unwrap_err().message(),
        "platform error: portal returned no screencast stream"
    );
}

#[test]
fn buffers_become_frames() {
    let bytes = [0u8, 1, 2, 3, 4];
    let mut capture = WaylandStream::new(PixelFormat::Rgba8888, 2);
    let buffer = VideoBuffer {
        buffer: Some(&bytes),
        offset: 1,
        size: 4,
        stride: -8,
    };
    capture.receive(&buffer, 3);
    assert!(capture.take().is_none());
    capture.heed(ControlMessage::Start);
    capture.param_changed(Some(ParamChange {
        is_format: true,
        media: Some(MediaKind::Video),
        is_raw: true,
        format: Some(NegotiatedVideo {
            format: VideoFormat::Bgrx,
            size: VideoSize {
                width: 1,
                height: 1,
            },
        }),
    }));
    capture.param_changed(None);
    for sequence in 0..2 {
        capture.receive(&buffer, 3);
        assert_eq!(
            capture.take(),
            Some(VideoFrame {
                stream_time_ns: 3,
                sequence,
                width: 1,
                height: 1,
                stride: 0,
                pixel_format: PixelFormat::Rgba8888,
                color_space: Some(ColorSpace::Srgb),
                data: FrameData::Host(vec![3, 2, 1, 4]),
                damage: None,
            })
        );
    }
    let short = VideoBuffer { size: 5, ..buffer };
    capture.receive(&short, 3);
    assert!(capture.take().is_none());
    assert_eq!(capture.state.sequence, 2);
    assert!(capture.before_waiting().is_none());

    // Two frames are buffered; of the others the consumer is told.
    for _ in 0..5 {
        capture.receive(&buffer, 3);
    }
    assert_eq!(
        capture.before_waiting(),
        Some(CaptureEvent::Gap(GapEvent {
            stream_time_ns: 0,
            reason: GapReason::Dropped,
            dropped_frames: Some(3),
        }))
    );
    assert!(capture.before_waiting().is_none());
    assert_eq!(capture.take().unwrap().sequence, 2);
    capture.receive(&buffer, 3);
    assert_eq!(capture.take().unwrap().sequence, 3);
    // The jump is where frames were dropped.
    assert_eq!(capture.take().unwrap().sequence, 7);
    assert!(capture.take().is_none());
}

#[test]
fn waiting_for_video_has_its_answers() {
    let frame = VideoFrame {
        stream_time_ns: 3,
        sequence: 0,
        width: 1,
        height: 1,
        stride: 4,
        pixel_format: PixelFormat::Rgba8888,
        color_space: None,
        data: FrameData::Host(vec![3, 2, 1, 4]),
        damage: None,
    };
    assert_eq!(
        next_event(Delivery::Received(frame.clone()), None).unwrap(),
        CaptureEvent::Video(frame)
    );
    assert!(matches!(
        next_event(Delivery::TimedOut, Some(Duration::ZERO)),
        Err(PinrayError::Timeout(_))
    ));
    assert_eq!(
        next_event(Delivery::Disconnected, None).unwrap_err().message(),
        "platform error: wayland event channel disconnected"
    );
}

// The portal.

#[test]
fn tokens_are_numbered() {
    let mut counter = TokenCounter::new();
    assert_eq!(counter.next_token(), "pinray_1");
    assert_eq!(counter.next_token(), "pinray_2");
    counter.next = u64::MAX;
    assert_eq!(counter.next_token(), "pinray_18446744073709551615");
    assert_eq!(counter.next_token(), "pinray_0");
}

#[test]
fn requests_are_answered_on_their_own_object() {
    let path = request_path(Some(":1.234"), "pinray_5").unwrap();
    assert_eq!(
        path,
        "/org/freedesktop/portal/desktop/request/1_234/pinray_5"
    );
    // The path is one that the bus takes.
    assert_eq!(session_handle(Entry::Present(path.clone())).unwrap(), path);
    assert_eq!(
        request_path(Some("::a.b:c"), "t").unwrap(),
        "/org/freedesktop/portal/desktop/request/a_b:c/t"
    );
    assert_eq!(
        request_path(None, "t").unwrap_err().message(),
        "platform error: missing dbus unique name"
    );
}

#[test]
fn session_handles_are_object_paths() {
    for good in ["/", "/a", "/org/freedesktop/portal/desktop/session/1_2/x", "/A9_/0"] {
        assert_eq!(
            session_handle(Entry::Present(good.to_string())).unwrap(),
            good
        );
    }
    for bad in ["", "a", "/a/", "//", "/a//b", "/a-b", "/a.b", "/\u{e9}", " /a"] {
        assert_eq!(
            session_handle(Entry::Present(bad.to_string()))
                .unwrap_err()
                .message(),
            "platform error: Invalid object path"
        );
    }
    assert_eq!(
        session_handle(Entry::Absent).unwrap_err().message(),
        "platform error: portal response missing session_handle"
    );
    assert_eq!(
        session_handle(Entry::Malformed("incorrect type".to_string()))
            .unwrap_err()
            .message(),
        "platform error: incorrect type"
    );
}

fn text(option: &PortalOption) -> (&str, &str) {
    match &option.value {
        PortalValue::Text(text) => (option.name, text.as_str()),
        other => panic!("unexpected value: {other:?}"),
    }
}

fn number(option: &PortalOption) -> (&str, u32) {
    match option.value {
        PortalValue::Number(number) => (option.name, number),
        ref other => panic!("unexpected value: {other:?}"),
    }
}

#[test]
fn requests_carry_their_options() {
    let options = create_session("h", "s");
    assert_eq!(options.len(), 2);
    assert_eq!(text(&options[0]), ("handle_token", "h"));
    assert_eq!(text(&options[1]), ("session_handle_token", "s"));

    let options = select_sources("h", true, Some("again"));
    assert_eq!(options.len(), 6);
    assert_eq!(text(&options[0]), ("handle_token", "h"));
    assert_eq!(number(&options[1]), ("types", 3));
    assert_eq!(options[2].name, "multiple");
    assert!(matches!(options[2].value, PortalValue::Flag(false)));
    assert_eq!(number(&options[3]), ("cursor_mode", 2));
    assert_eq!(number(&options[4]), ("persist_mode", 2));
    assert_eq!(text(&options[5]), ("restore_token", "again"));

    let options = select_sources("h", false, None);
    assert_eq!(options.len(), 5);
    assert_eq!(number(&options[3]), ("cursor_mode", 1));

    let options = start("h");
    assert_eq!(options.len(), 1);
    assert_eq!(text(&options[0]), ("handle_token", "h"));
    assert_eq!(PortalCursorMode::Hidden.bits(), 1);
    assert_eq!(PortalCursorMode::Embedded.bits(), 2);
}

#[test]
fn answers_are_granted_declined_or_broken() {
    assert_eq!(wait_response(Answer::Response(0, 9)).unwrap(), 9);
    assert_eq!(
        wait_response(Answer::Response(1, 9)).unwrap_err().message(),
        "operation not supported: portal request cancelled by user"
    );
    assert_eq!(
        wait_response(Answer::Response(2, 9)).unwrap_err().message(),
        "platform error: portal request failed with response code 2"
    );
    assert_eq!(
        wait_response::<u8>(Answer::Missing).unwrap_err().message(),
        "platform error: portal response signal missing"
    );
    assert_eq!(
        wait_response::<u8>(Answer::Unreadable("bad".to_string()))
            .unwrap_err()
            .message(),
        "platform error: bad"
    );
}

fn empty_reply() -> PortalReply {
    PortalReply {
        session_handle: Entry::Absent,
        streams: Entry::Absent,
        restore_token: Entry::Absent,
    }
}

fn next_request(cast: &ScreenCastRequest, tokens: &mut TokenCounter) -> PortalRequest {
    cast.request(Some(":1.7"), tokens).unwrap().unwrap()
}

fn created(cast: ScreenCastRequest) -> ScreenCastRequest {
    let reply = PortalReply {
        session_handle: Entry::Present("/session/1".to_string()),
        ..empty_reply()
    };
    cast.answered(Answer::Response(0, reply)).unwrap()
}

#[test]
fn a_screencast_takes_three_requests_in_order() {
    let mut tokens = TokenCounter::new();
    let cast = start_screen_cast(true, Some("again".to_string()));

    let request = next_request(&cast, &mut tokens);
    assert_eq!(request.method, PortalMethod::CreateSession);
    assert_eq!(request.method.name(), "CreateSession");
    assert_eq!(
        request.answered_on,
        "/org/freedesktop/portal/desktop/request/1_7/pinray_1"
    );
    assert_eq!(request.session, None);
    assert_eq!(text(&request.options[0]), ("handle_token", "pinray_1"));
    assert_eq!(text(&request.options[1]), ("session_handle_token", "pinray_2"));
    assert_eq!(cast.started_session(), None);

    let cast = created(cast);
    let request = next_request(&cast, &mut tokens);
    assert_eq!(request.method.name(), "SelectSources");
    assert_eq!(
        request.answered_on,
        "/org/freedesktop/portal/desktop/request/1_7/pinray_3"
    );
    assert_eq!(request.session.as_deref(), Some("/session/1"));
    assert_eq!(number(&request.options[3]), ("cursor_mode", 2));
    assert_eq!(text(&request.options[5]), ("restore_token", "again"));

    let cast = cast.answered(Answer::Response(0, empty_reply())).unwrap();
    let request = next_request(&cast, &mut tokens);
    assert_eq!(request.method.name(), "Start");
    assert_eq!(request.session.as_deref(), Some("/session/1"));
    assert_eq!(text(&request.options[0]), ("handle_token", "pinray_4"));
    assert_eq!(request.options.len(), 1);

    let reply = PortalReply {
        streams: Entry::Present(vec![StreamReport { node_id: 5, size: None }]),
        restore_token: Entry::Present("next".to_string()),
        ..empty_reply()
    };
    let cast = cast.answered(Answer::Response(0, reply)).unwrap();
    assert!(cast.request(Some(":1.7"), &mut tokens).unwrap().is_none());
    assert_eq!(tokens.next, 5);
    assert_eq!(cast.started_session(), Some("/session/1"));
    let (fd, streams, token) = cast.opened(9).into_parts();
    assert_eq!(fd, 9);
    assert_eq!(streams.len(), 1);
    assert_eq!(streams[0].node_id, 5);
    assert_eq!(token.as_deref(), Some("next"));
}

#[test]
fn a_screencast_ends_with_the_first_refusal() {
    let declined = created(start_screen_cast(false, None)).answered(Answer::Response(1, empty_reply()));
    assert_eq!(
        declined.unwrap_err().message(),
        "operation not supported: portal request cancelled by user"
    );
    assert_eq!(
        start_screen_cast(false, None).answered(Answer::Missing).unwrap_err().message(),
        "platform error: portal response signal missing"
    );
    assert_eq!(
        start_screen_cast(false, None)
            .answered(Answer::Response(0, empty_reply()))
            .unwrap_err()
            .message(),
        "platform error: portal response missing session_handle"
    );
    let malformed = PortalReply {
        streams: Entry::Malformed("incorrect type".to_string()),
        ..empty_reply()
    };
    let started = ScreenCastRequest {
        include_cursor: false,
        restore_token: None,
        stage: Stage::Start("/session/1".to_string()),
    };
    assert_eq!(
        started.answered(Answer::Response(0, malformed)).unwrap_err().message(),
        "platform error: incorrect type"
    );

    let mut tokens = TokenCounter::new();
    let nameless = start_screen_cast(false, None).request(None, &mut tokens);
    assert_eq!(
        nameless.unwrap_err().message(),
        "platform error: missing dbus unique name"
    );
    assert_eq!(tokens.next, 2);
}

#[test]
fn a_start_names_its_streams() {
    let reports = vec![
        StreamReport {
            node_id: 40,
            size: Some(AnnouncedSize {
                width: 800,
                height: -600,
            }),
        },
        StreamReport {
            node_id: 41,
            size: None,
        },
    ];
    let response = started(Entry::Present(reports), Entry::Present("again".to_string())).unwrap();
    assert_eq!(
        response.streams,
        vec![
            ScreenCastStream {
                node_id: 40,
                width: Some(800),
                height: Some(0)
            },
            ScreenCastStream {
                node_id: 41,
                width: None,
                height: None
            },
        ]
    );
    assert_eq!(response.restore_token.as_deref(), Some("again"));
    let response = started(Entry::Absent, Entry::Absent).unwrap();
    assert!(response.streams.is_empty());
    assert_eq!(response.restore_token, None);
    assert_eq!(
        started(
            Entry::Malformed("streams".to_string()),
            Entry::Malformed("token".to_string())
        )
        .unwrap_err()
        .message(),
        "platform error: streams"
    );
    assert!(started(Entry::Absent, Entry::Malformed("token".to_string())).is_err());
}

#[test]
fn a_screen_cast_comes_apart() {
    let cast = ActiveScreenCast {
        fd: 3,
        streams: vec![stream(None, None)],
        restore_token: None,
    };
    let (fd, streams, token) = cast.into_parts();
    assert_eq!(fd, 3);
    assert_eq!(streams.len(), 1);
    assert_eq!(token, None);
}

// X11.

fn root() -> Target {
    Target::Root {
        root: 1,
        x: 100,
        y: -50,
        width: 640,
        height: 480,
    }
}

fn crop(x: i32, y: i32, width: u32, height: u32) -> Option<Rect> {
    Some(Rect {
        x,
        y,
        width,
        height,
    })
}

#[test]
fn a_frame_shows_its_target() {
    assert_eq!(
        frame_region(root(), None, None).unwrap(),
        FrameRegion {
            drawable: 1,
            x: 100,
            y: -50,
            width: 640,
            height: 480
        }
    );
    let size = Some(WindowSize {
        width: 20,
        height: 30,
    });
    assert_eq!(
        frame_region(Target::Window(9), size, None).unwrap(),
        FrameRegion {
            drawable: 9,
            x: 0,
            y: 0,
            width: 20,
            height: 30
        }
    );
    assert_eq!(
        frame_region(Target::Window(9), None, None)
            .unwrap_err()
            .message(),
        "platform error: window disappeared during capture"
    );
}

#[test]
fn a_crop_is_taken_within_the_region() {
    assert_eq!(
        frame_region(root(), None, crop(10, -3, 630, 480)).unwrap(),
        FrameRegion {
            drawable: 1,
            x: 110,
            y: -50,
            width: 630,
            height: 480
        }
    );
    assert_eq!(
        frame_region(root(), None, crop(11, 0, 630, 480))
            .unwrap_err()
            .message(),
        "invalid session configuration: crop_rect exceeds capture region 640x480"
    );
    assert!(frame_region(root(), None, crop(0, 1, 1, 480)).is_err());
    // A coordinate keeps its low sixteen bits.
    assert_eq!(
        frame_region(root(), None, crop(65_537, 0, 1, 1)).unwrap().x,
        101
    );
    assert_eq!(
        frame_region(root(), None, crop(0, 65_536 + 7, 1, 1)).unwrap().y,
        -43
    );
    assert!(frame_region(root(), None, crop(1, 0, u32::MAX, 1)).is_err());
    assert!(frame_region(root(), None, crop(0, i32::MAX, 1, u32::MAX)).is_err());
    // A region that starts far to the left can be entered far.
    let wide = Target::Root {
        root: 1,
        x: -20_000,
        y: 0,
        width: 60_000,
        height: 10,
    };
    assert_eq!(frame_region(wide, None, crop(33_000, 0, 5, 5)).unwrap().x, 13_000);
}

#[test]
fn a_session_means_a_monitor_or_a_window() {
    let monitors = enumerate_monitors(&vec![
        monitor(Some("DP-1"), 0, false),
        monitor(Some("DP-2"), 1280, true),
    ]);
    let dp2 = Target::Root {
        root: 5,
        x: 1280,
        y: 0,
        width: 1280,
        height: 720,
    };
    assert_eq!(capture_target(&None, 5, &monitors).unwrap(), dp2);
    let named = Some(VideoCaptureTarget::Display(SourceId::new("display:DP-2")));
    assert_eq!(capture_target(&named, 5, &monitors).unwrap(), dp2);
    let unknown = Some(VideoCaptureTarget::Display(SourceId::new("display:x")));
    assert_eq!(
        capture_target(&unknown, 5, &monitors).unwrap_err().message(),
        "invalid session configuration: display source not found: display:x"
    );
    let window = Some(VideoCaptureTarget::Window(SourceId::new("window:8")));
    assert_eq!(
        capture_target(&window, 5, &monitors).unwrap(),
        Target::Window(8)
    );
    let door = Some(VideoCaptureTarget::Window(SourceId::new("door:8")));
    assert!(matches!(
        capture_target(&door, 5, &monitors),
        Err(PinrayError::InvalidConfig(_))
    ));
    assert_eq!(
        x11_error("get_geometry", "BadWindow").message(),
        "platform error: get_geometry: BadWindow"
    );
}

fn cursor(pixels: Vec<u32>) -> CursorImage {
    CursorImage {
        x: 1,
        y: 0,
        width: 2,
        height: 1,
        xhot: 1,
        yhot: 0,
        pixels,
    }
}

#[test]
fn the_cursor_is_blended_premultiplied() {
    // Two pixels, one opaque red and one half transparent blue, over grey.
    let mut frame = vec![100u8; 8];
    blend_cursor(&mut frame, &cursor(vec![0xffff_0000, 0x8000_0040]), 0, 0, 2, 1);
    // 64 + 100 * 127 / 255 = 113, and 100 * 127 / 255 = 49.
    assert_eq!(frame, vec![0, 0, 255, 255, 113, 49, 49, 255]);
}

#[test]
fn a_cursor_is_clipped_to_the_frame() {
    // Shifted left by one, only the second pixel is seen.
    let mut frame = vec![7u8; 4];
    blend_cursor(&mut frame, &cursor(vec![0xffff_ffff, 0xff01_0203]), 1, 0, 1, 1);
    assert_eq!(frame, vec![3, 2, 1, 255]);
    // Below the frame, nothing is.
    let mut frame = vec![7u8; 4];
    blend_cursor(&mut frame, &cursor(vec![0xffff_ffff, 0xffff_ffff]), 0, -1, 1, 1);
    assert_eq!(frame, vec![7, 7, 7, 7]);
    let mut nothing: Vec<u8> = Vec::new();
    blend_cursor(&mut nothing, &cursor(vec![1, 2]), 0, 0, 0, 4);
    assert!(nothing.is_empty());
}

#[test]
fn a_transparent_cursor_leaves_the_frame_alone() {
    let mut frame = vec![1u8, 2, 3, 4, 5, 6, 7, 8];
    blend_cursor(&mut frame, &cursor(vec![0x00ff_ffff, 0]), 0, 0, 2, 1);
    assert_eq!(frame, vec![1, 2, 3, 4, 5, 6, 7, 8]);
}

#[test]
fn overbright_cursor_pixels_wrap() {
    let mut frame = vec![255u8; 4];
    blend_cursor(&mut frame, &cursor(vec![0x01ff_ffff, 0]), 0, 0, 1, 1);
    // 255 + 255 * 254 / 255 = 509, of which a byte keeps 253.
    assert_eq!(frame, vec![253, 253, 253, 255]);
}

fn polling(rate: Option<u32>, target: Target) -> X11Stream {
    let config = SessionConfig {
        frame_rate: rate,
        ..SessionConfig::default()
    };
    X11Stream::new(target, &config)
}

#[test]
fn polls_follow_the_configuration() {
    assert_eq!(polling(None, root()).frame_interval, 33_333_333);
    assert_eq!(polling(Some(60), root()).frame_interval, 16_666_666);
    assert_eq!(polling(Some(0), root()).frame_interval, 1_000_000_000);
    assert!(polling(None, root()).embed_cursor);
    assert!(!polling(None, Target::Window(3)).embed_cursor);
}

#[test]
fn polls_are_paced() {
    let mut stream = polling(Some(10), root());
    assert_eq!(
        stream.pace(0, None).unwrap_err().message(),
        "platform error: x11 backend not started"
    );
    stream.start();
    assert_eq!(stream.pace(1_000, None).unwrap(), Poll::CaptureAfter(0));
    assert_eq!(stream.next_due, Some(100_001_000));
    // Too early for a caller in a hurry; the schedule stays.
    assert_eq!(stream.pace(2_000, Some(5)).unwrap(), Poll::TimeOut);
    assert!(matches!(
        timed_out(Duration::from_nanos(5)),
        Err(PinrayError::Timeout(limit)) if limit == Duration::from_nanos(5)
    ));
    assert_eq!(stream.next_due, Some(100_001_000));
    assert_eq!(
        stream.pace(2_000, None).unwrap(),
        Poll::CaptureAfter(99_999_000)
    );
    assert_eq!(stream.next_due, Some(200_001_000));
    // Too late: the schedule starts over from here.
    assert_eq!(
        stream.pace(300_000_000, Some(0)).unwrap(),
        Poll::CaptureAfter(0)
    );
    assert_eq!(stream.next_due, Some(400_000_000));
    stream.stop();
    assert!(stream.pace(0, None).is_err());
    stream.start();
    assert_eq!(stream.next_due, None);
}

fn region(width: u16, height: u16) -> FrameRegion {
    FrameRegion {
        drawable: 1,
        x: 0,
        y: 0,
        width,
        height,
    }
}

#[test]
fn images_become_frames() {
    let mut stream = polling(None, root());
    stream.pixel_format = PixelFormat::Rgba8888;
    let image = ImageReply {
        depth: 24,
        data: vec![1, 2, 3, 0, 4, 5, 6, 0, 99],
    };
    let pointer = CursorImage {
        x: 0,
        y: 0,
        width: 1,
        height: 1,
        xhot: 0,
        yhot: 0,
        pixels: vec![0xff0a_0b0c],
    };
    let event = stream.assemble(image, region(2, 1), Some(pointer), 77).unwrap();
    assert_eq!(
        event,
        CaptureEvent::Video(VideoFrame {
            stream_time_ns: 77,
            sequence: 0,
            width: 2,
            height: 1,
            stride: 8,
            pixel_format: PixelFormat::Rgba8888,
            color_space: None,
            data: FrameData::Host(vec![10, 11, 12, 255, 6, 5, 4, 255]),
            damage: None,
        })
    );
    assert_eq!(stream.sequence, 1);
}

#[test]
fn deep_images_keep_their_alpha() {
    let mut stream = polling(None, Target::Window(2));
    let image = ImageReply {
        depth: 32,
        data: vec![1, 2, 3, 9],
    };
    let pointer = cursor(vec![0xffff_ffff, 0xffff_ffff]);
    match stream.assemble(image, region(1, 1), Some(pointer), 0).unwrap() {
        // The pointer is not drawn into a window.
        CaptureEvent::Video(frame) => assert_eq!(frame.data, FrameData::Host(vec![1, 2, 3, 9])),
        other => panic!("unexpected event: {other:?}"),
    }
}

#[test]
fn polled_frames_are_labelled_by_their_bytes() {
    for (asked, label, bytes) in [
        (PixelFormat::Bgra8888, PixelFormat::Bgra8888, vec![1u8, 2, 3, 9]),
        (PixelFormat::Rgba8888, PixelFormat::Rgba8888, vec![3, 2, 1, 9]),
        (PixelFormat::Rgb888, PixelFormat::Bgra8888, vec![1, 2, 3, 9]),
        (PixelFormat::Nv12, PixelFormat::Bgra8888, vec![1, 2, 3, 9]),
        (PixelFormat::I420, PixelFormat::Bgra8888, vec![1, 2, 3, 9]),
    ] {
        let mut stream = polling(None, Target::Window(2));
        stream.pixel_format = asked;
        let image = ImageReply {
            depth: 32,
            data: vec![1, 2, 3, 9],
        };
        assert!(check_image(&image, 1, 1).is_ok());
        match stream.assemble(image, region(1, 1), None, 0).unwrap() {
            CaptureEvent::Video(frame) => {
                assert_eq!(frame.pixel_format, label);
                assert_eq!(frame.data, FrameData::Host(bytes));
            }
            other => panic!("unexpected event: {other:?}"),
        }
    }
}

#[test]
fn unusable_images_are_refused() {
    let mut stream = polling(None, root());
    let image = ImageReply {
        depth: 16,
        data: Vec::new(),
    };
    assert_eq!(
        stream.assemble(image, region(2, 2), None, 0).unwrap_err().message(),
        "operation not supported: x11 visual depth 16 not supported (need 24/32-bit truecolor)"
    );
    let image = ImageReply {
        depth: 32,
        data: vec![0; 15],
    };
    assert_eq!(
        stream.assemble(image, region(2, 2), None, 0).unwrap_err().message(),
        "platform error: get_image returned 15 bytes, expected 16"
    );
    assert_eq!(stream.sequence, 0);
    assert_eq!(
        stream.image_refused("BadMatch").message(),
        "backend unavailable: GetImage on the root window failed (BadMatch); if this is a Wayland session, the Xwayland root is not readable \u{2014} use the Wayland backend"
    );
    assert_eq!(
        polling(None, Target::Window(1)).image_refused("BadWindow").message(),
        "platform error: get_image reply: BadWindow"
    );
}

fn monitor(name: Option<&str>, x: i16, primary: bool) -> MonitorReport {
    MonitorReport {
        atom: 300,
        name: name.map(|text| text.as_bytes().to_vec()),
        x,
        y: 0,
        width: 1280,
        height: 720,
        primary,
    }
}

#[test]
fn monitors_are_listed_and_found() {
    let reports = vec![monitor(Some("DP-1"), 0, false), monitor(None, 1280, true)];
    let table = enumerate_monitors(&reports);
    assert_eq!(table.sources[0].id, SourceId::new("display:DP-1"));
    assert_eq!(table.sources[0].scale_factor_milli, 1000);
    assert_eq!(table.sources[1].name, "monitor-300");
    let primary = MonitorRegion {
        x: 1280,
        y: 0,
        width: 1280,
        height: 720,
    };
    assert_eq!(find_monitor(&table, &SourceId::new("auto")).unwrap(), primary);
    assert_eq!(
        find_monitor(&table, &SourceId::new("display:monitor-300")).unwrap(),
        primary
    );
    assert_eq!(find_monitor(&table, &SourceId::new("display:DP-1")).unwrap().x, 0);
    assert_eq!(
        find_monitor(&table, &SourceId::new("DP-1")).unwrap_err().message(),
        "invalid session configuration: display source not found: DP-1"
    );
    let broken = named_monitor(&monitor(None, 0, false), "x".to_string());
    assert_eq!(broken.id, SourceId::new("display:x"));
    let lossy = enumerate_monitors(&vec![MonitorReport {
        name: Some(vec![0x41, 0xff]),
        ..monitor(None, 0, false)
    }]);
    assert_eq!(lossy.sources[0].name, "A\u{fffd}");
}

#[test]
fn the_root_stands_in_for_missing_monitors() {
    assert!(matches!(search_monitors(&Vec::new()), MonitorSearch::NeedsRootSize));
    match search_monitors(&vec![monitor(Some("DP-1"), 0, true)]) {
        MonitorSearch::Found(table) => assert_eq!(table.sources[0].name, "DP-1"),
        MonitorSearch::NeedsRootSize => panic!("there is a monitor"),
    }

    let table = root_monitor(WindowSize {
        width: 9,
        height: 8,
    });
    for id in ["auto", "display:root"] {
        assert_eq!(
            find_monitor(&table, &SourceId::new(id)).unwrap(),
            MonitorRegion {
                x: 0,
                y: 0,
                width: 9,
                height: 8
            }
        );
    }
    assert!(table.sources[0].is_primary);
}

#[test]
fn x_window_ids_lead_back_to_their_windows() {
    for window in [0u32, 7, 0x0380_0003, u32::MAX] {
        assert_eq!(parse_window_id(&window_id(window)).unwrap(), window);
    }
    assert_eq!(parse_window_id(&SourceId::new("window:+3")).unwrap(), 3);
    for bad in ["window:-0", "window:", "window:4294967296", "window: 1", "7"] {
        assert_eq!(
            parse_window_id(&SourceId::new(bad)).unwrap_err().message(),
            format!("invalid session configuration: invalid window source id: {bad}")
        );
    }
}

#[test]
fn the_client_list_is_read_in_words() {
    let mut value: Vec<u8> = Vec::new();
    for window in [5u32, 0x0102_0304] {
        value.extend_from_slice(&window.to_ne_bytes());
    }
    value.push(9);
    assert_eq!(client_windows(32, value.clone()), vec![5, 0x0102_0304]);
    assert!(client_windows(8, value).is_empty());
}

fn properties(window: u32, net: &[u8], old: &[u8], class: &[u8]) -> WindowReport {
    WindowReport {
        window,
        net_wm_name: net.to_vec(),
        wm_name: old.to_vec(),
        wm_class: class.to_vec(),
    }
}

#[test]
fn titled_windows_are_listed() {
    let windows = enumerate_windows(&vec![
        properties(1, b"Modern", b"Old", b"xterm\0XTerm\0"),
        properties(2, b"", b"Old", b"\0lonely\0"),
        properties(3, b"", b"", b"a\0b\0"),
        properties(4, b"T", b"", b""),
    ]);
    let shown: Vec<(&str, &str, Option<&str>)> = windows
        .iter()
        .map(|window| {
            (
                window.id.0.as_str(),
                window.title.as_str(),
                window.app_name.as_deref(),
            )
        })
        .collect();
    assert_eq!(
        shown,
        vec![
            ("window:1", "Modern", Some("XTerm")),
            ("window:2", "Old", None),
            ("window:4", "T", None),
        ]
    );
    assert!(named_window(1, None, Some(String::new()), None).is_none());
}

#[test]
fn listings_have_the_systems_audio() {
    let found = X11Sources {
        displays: enumerate_monitors(&vec![monitor(Some("DP-1"), 0, true)]).sources,
        windows: enumerate_windows(&vec![properties(1, b"W", b"", b"")]),
    };
    let sources = enumerate_sources(TargetOs::Linux, Some(Ok(found))).unwrap();
    assert_eq!(sources.len(), 3);
    assert!(matches!(&sources[0], CaptureSource::Display(_)));
    assert!(matches!(&sources[1], CaptureSource::Window(_)));
    for broken in [None, Some(Err(PinrayError::BackendNotSelected))] {
        let sources = enumerate_sources(TargetOs::Linux, broken).unwrap();
        match &sources[..] {
            [CaptureSource::SystemAudio(audio)] => {
                assert_eq!(audio.id, SourceId::new("audio:system-mix"));
                assert_eq!(audio.name, "System audio (PipeWire sink monitor)");
            }
            other => panic!("unexpected sources: {other:?}"),
        }
    }
    assert!(enumerate_sources(TargetOs::Windows, None).unwrap().is_empty());
}

// Backend selection.

fn environment(wayland: bool, display: bool) -> Environment {
    Environment {
        session_type: if wayland {
            Some("wayland".to_string())
        } else {
            None
        },
        wayland_display: false,
        display,
    }
}

fn session(preference: BackendPreference, video: bool, audio: bool) -> SessionConfig {
    SessionConfig {
        backend_preference: preference,
        video_target: if video {
            Some(VideoCaptureTarget::Display(SourceId::new("auto")))
        } else {
            None
        },
        audio_capture: if audio {
            Some(AudioCapture::SystemMix)
        } else {
            None
        },
        ..SessionConfig::default()
    }
}

fn plan(config: &SessionConfig, environment: &Environment) -> LinuxPlan {
    try_resolve(TargetOs::Linux, environment, config).unwrap().unwrap()
}

#[test]
fn auto_takes_the_portal_in_a_wayland_session() {
    let config = session(BackendPreference::Auto, true, true);
    assert_eq!(
        plan(&config, &environment(true, true)),
        LinuxPlan {
            system_audio: true,
            video: Some(VideoOrigin::Portal)
        }
    );
    assert_eq!(
        plan(&config, &environment(false, true)).video,
        Some(VideoOrigin::X11)
    );
    assert_eq!(
        try_resolve(TargetOs::Linux, &environment(false, false), &config)
            .unwrap_err()
            .message(),
        "backend unavailable: no wayland session and no DISPLAY; cannot capture video on this host"
    );
}

#[test]
fn explicit_linux_backends_are_honored() {
    let config = session(BackendPreference::LinuxX11, true, false);
    assert_eq!(
        plan(&config, &environment(true, true)).video,
        Some(VideoOrigin::X11)
    );
    assert_eq!(
        try_resolve(TargetOs::Linux, &environment(true, false), &config)
            .unwrap_err()
            .message(),
        "backend unavailable: x11 backend requested but DISPLAY is not set"
    );
    let config = session(BackendPreference::LinuxWaylandPortal, true, false);
    assert_eq!(
        plan(&config, &environment(false, true)).video,
        Some(VideoOrigin::Portal)
    );
    let config = session(BackendPreference::WindowsWgc, true, false);
    assert_eq!(
        try_resolve(TargetOs::Linux, &environment(true, true), &config).unwrap(),
        None
    );
    let config = session(BackendPreference::Auto, true, false);
    assert_eq!(
        try_resolve(TargetOs::MacOs, &environment(true, true), &config).unwrap(),
        None
    );
}

#[test]
fn audio_alone_works_on_a_headless_host() {
    for preference in [
        BackendPreference::Auto,
        BackendPreference::LinuxX11,
        BackendPreference::LinuxWaylandPortal,
    ] {
        let config = session(preference, false, true);
        assert_eq!(
            plan(&config, &environment(false, false)),
            LinuxPlan {
                system_audio: true,
                video: None
            }
        );
    }
}

#[test]
fn unusable_linux_sessions_are_refused() {
    let mut config = session(BackendPreference::Auto, true, false);
    config.audio_capture = Some(AudioCapture::Microphone(SourceId::new("m")));
    assert!(matches!(
        try_resolve(TargetOs::Linux, &environment(true, true), &config),
        Err(PinrayError::Unsupported(_))
    ));
    let config = session(BackendPreference::Auto, false, false);
    assert!(matches!(
        resolve_wayland_backend(&config),
        Err(PinrayError::InvalidConfig(_))
    ));
    assert!(matches!(
        resolve_x11_backend(&config),
        Err(PinrayError::InvalidConfig(_))
    ));
}

#[test]
fn linux_backends_are_listed() {
    let backends = available_backends(TargetOs::Linux);
    let kinds: Vec<BackendKind> = backends.iter().map(|backend| backend.kind).collect();
    assert_eq!(
        kinds,
        vec![
            BackendKind::LinuxWaylandPortal,
            BackendKind::LinuxPipeWireAudio,
            BackendKind::LinuxX11
        ]
    );
    assert_eq!(backends[0].notes, "Wayland portal + PipeWire video backend");
    assert!(available_backends(TargetOs::Other).is_empty());
    assert_eq!(
        pinray::platform_linux::wayland::backend_info().notes,
        "Wayland video via XDG Desktop Portal + PipeWire"
    );
}
