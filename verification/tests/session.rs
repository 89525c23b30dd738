//! Sessions, their configuration and their builder.
use std::collections::VecDeque;
use std::time::Duration;

use pinray::session::{CaptureSession, SessionBuilder};
use pinray::{
    AudioBackend, AudioCapture, AudioData, AudioFrame, BackendBundle, BackendInfo, BackendKind,
    BackendPreference, BackendResolver, CaptureEvent, ColorSpace, CursorMode, FrameData,
    PinrayError, PixelFormat, Rect, Result, SampleFormat, SessionConfig, SourceId, VideoBackend,
    VideoCaptureTarget, VideoFrame,
};

#[test]
fn session_builder_requires_video_or_audio() {
    let config = SessionBuilder::new().config().clone();
    assert!(config.validate().is_err());
}

#[test]
fn session_queue_depth_must_be_positive() {
    let config = SessionBuilder::new().queue_depth(0).config().clone();
    assert!(config.validate().is_err());
}

fn mock_info() -> BackendInfo {
    BackendInfo {
        kind: BackendKind::LinuxWaylandPortal,
        supports_audio: true,
        zero_copy: false,
        notes: "mock",
    }
}

fn mock_video_frame() -> VideoFrame {
    VideoFrame {
        stream_time_ns: 0,
        sequence: 0,
        width: 1,
        height: 1,
        stride: 4,
        pixel_format: PixelFormat::Bgra8888,
        color_space: None,
        data: FrameData::Host(vec![0; 4]),
        damage: None,
    }
}

fn mock_audio_frame() -> AudioFrame {
    AudioFrame {
        stream_time_ns: 0,
        sequence: 0,
        sample_rate: 48_000,
        channels: 2,
        sample_format: SampleFormat::F32,
        data: AudioData::Interleaved(vec![0; 8]),
    }
}

/// Video backend that always has a frame ready.
struct BusyVideo;

impl VideoBackend for BusyVideo {
    fn info(&self) -> BackendInfo {
        mock_info()
    }
    fn restore_token(&self) -> Option<String> {
        None
    }
    fn start(&mut self) -> Result<()> {
        Ok(())
    }
    fn stop(&mut self) -> Result<()> {
        Ok(())
    }
    fn next_event(&mut self, _timeout: Option<Duration>) -> Result<CaptureEvent> {
        Ok(CaptureEvent::Video(mock_video_frame()))
    }
}

struct QueuedAudio(VecDeque<AudioFrame>);

impl AudioBackend for QueuedAudio {
    fn info(&self) -> BackendInfo {
        mock_info()
    }
    fn start(&mut self) -> Result<()> {
        Ok(())
    }
    fn stop(&mut self) -> Result<()> {
        Ok(())
    }
    fn next_audio(&mut self, timeout: Option<Duration>) -> Result<AudioFrame> {
        self.0
            .pop_front()
            .ok_or(PinrayError::Timeout(timeout.unwrap_or_default()))
    }
}

#[test]
fn busy_video_does_not_starve_audio() {
    let audio_frame = mock_audio_frame();
    let bundle = BackendBundle {
        info: mock_info(),
        video: Some(Box::new(BusyVideo)),
        audio: Some(Box::new(QueuedAudio(VecDeque::from([
            audio_frame.clone(),
            audio_frame,
        ])))),
    };
    let mut session = CaptureSession::new(SessionConfig::default(), bundle);

    let mut audio_events = 0;
    let mut video_events = 0;
    for _ in 0..6 {
        match session.next_event(Some(Duration::from_millis(1))).unwrap() {
            CaptureEvent::Audio(_) => audio_events += 1,
            CaptureEvent::Video(_) => video_events += 1,
            other => panic!("unexpected event: {other:?}"),
        }
    }
    assert_eq!(audio_events, 2, "queued audio must be drained");
    assert_eq!(video_events, 4);
}

/// A backend that writes down how it is used, and refuses or times out on
/// request.
struct Recorder {
    log: std::sync::Arc<std::sync::Mutex<Vec<String>>>,
    name: &'static str,
    refuse_start: bool,
    refuse_stop: bool,
    failure: Option<&'static str>,
}

impl Recorder {
    fn new(log: &std::sync::Arc<std::sync::Mutex<Vec<String>>>, name: &'static str) -> Self {
        Recorder {
            log: std::sync::Arc::clone(log),
            name,
            refuse_start: false,
            refuse_stop: false,
            failure: None,
        }
    }

    fn note(&self, what: &str) {
        self.log
            .lock()
            .unwrap()
            .push(format!("{} {}", self.name, what));
    }

    fn begin(&mut self) -> Result<()> {
        self.note("start");
        if self.refuse_start {
            return Err(PinrayError::Platform(format!("{} refuses", self.name)));
        }
        Ok(())
    }

    fn end(&mut self) -> Result<()> {
        self.note("stop");
        if self.refuse_stop {
            return Err(PinrayError::Platform(format!("{} stays", self.name)));
        }
        Ok(())
    }

    fn wait(&mut self, timeout: Option<Duration>) -> PinrayError {
        self.note(&format!("wait {timeout:?}"));
        match self.failure {
            Some(message) => PinrayError::Platform(message.to_string()),
            None => PinrayError::Timeout(timeout.unwrap_or_default()),
        }
    }
}

impl VideoBackend for Recorder {
    fn info(&self) -> BackendInfo {
        mock_info()
    }
    fn restore_token(&self) -> Option<String> {
        Some("token-7".to_string())
    }
    fn start(&mut self) -> Result<()> {
        self.begin()
    }
    fn stop(&mut self) -> Result<()> {
        self.end()
    }
    fn next_event(&mut self, timeout: Option<Duration>) -> Result<CaptureEvent> {
        Err(self.wait(timeout))
    }
}

impl AudioBackend for Recorder {
    fn info(&self) -> BackendInfo {
        mock_info()
    }
    fn start(&mut self) -> Result<()> {
        self.begin()
    }
    fn stop(&mut self) -> Result<()> {
        self.end()
    }
    fn next_audio(&mut self, timeout: Option<Duration>) -> Result<AudioFrame> {
        Err(self.wait(timeout))
    }
}

fn recorded(
    change: impl FnOnce(&mut Recorder, &mut Recorder),
) -> (CaptureSession, std::sync::Arc<std::sync::Mutex<Vec<String>>>) {
    let log = std::sync::Arc::new(std::sync::Mutex::new(Vec::new()));
    let mut video = Recorder::new(&log, "video");
    let mut audio = Recorder::new(&log, "audio");
    change(&mut video, &mut audio);
    let bundle = BackendBundle {
        info: mock_info(),
        video: Some(Box::new(video)),
        audio: Some(Box::new(audio)),
    };
    (CaptureSession::new(SessionConfig::default(), bundle), log)
}

#[test]
fn starting_and_stopping_are_idempotent() {
    let (mut session, log) = recorded(|_, _| {});
    assert!(!session.is_running());
    session.stop().unwrap();
    session.start().unwrap();
    session.start().unwrap();
    assert!(session.is_running());
    session.stop().unwrap();
    session.stop().unwrap();
    assert!(!session.is_running());
    session.start().unwrap();
    assert!(session.is_running());
    assert_eq!(
        *log.lock().unwrap(),
        vec!["video start", "audio start", "audio stop", "video stop", "video start", "audio start"]
    );
}

#[test]
fn sessions_restart_any_number_of_times() {
    let (mut session, log) = recorded(|_, _| {});
    for _ in 0..50 {
        session.start().unwrap();
        assert!(session.is_running());
        session.stop().unwrap();
        assert!(!session.is_running());
    }
    let log = log.lock().unwrap();
    assert_eq!(log.len(), 200);
    for turn in log.chunks(4) {
        assert_eq!(turn, ["video start", "audio start", "audio stop", "video stop"]);
    }
}

#[test]
fn the_latest_start_or_stop_decides() {
    let (mut session, _) = recorded(|_, audio| audio.refuse_stop = true);
    let config = session.config().clone();
    let info = session.backend_info().clone();
    assert!(session.next_event(Some(Duration::ZERO)).is_err());
    assert!(!session.is_running());
    session.start().unwrap();
    assert!(session.next_audio(Some(Duration::ZERO)).is_err());
    assert!(session.is_running());
    // The stop does not succeed, so the start is still the latest.
    assert!(session.stop().is_err());
    assert!(session.is_running());
    assert_eq!(*session.config(), config);
    assert_eq!(*session.backend_info(), info);
}

#[test]
fn queued_packets_come_before_the_pictures() {
    let mut second = mock_audio_frame();
    second.sequence = 1;
    let bundle = BackendBundle {
        info: mock_info(),
        video: Some(Box::new(BusyVideo)),
        audio: Some(Box::new(QueuedAudio(VecDeque::from([mock_audio_frame(), second.clone()])))),
    };
    let mut session = CaptureSession::new(SessionConfig::default(), bundle);
    let mut next = || session.next_event(Some(Duration::from_millis(1))).unwrap();
    assert_eq!(next(), CaptureEvent::Audio(mock_audio_frame()));
    assert_eq!(next(), CaptureEvent::Audio(second));
    for _ in 0..4 {
        assert_eq!(next(), CaptureEvent::Video(mock_video_frame()));
    }
}

#[test]
fn a_refused_start_leaves_the_session_stopped() {
    let (mut session, log) = recorded(|video, _| video.refuse_start = true);
    let error = session.start().unwrap_err();
    assert_eq!(error.message(), "platform error: video refuses");
    assert!(!session.is_running());
    assert_eq!(*log.lock().unwrap(), vec!["video start"]);

    let (mut session, log) = recorded(|_, audio| audio.refuse_start = true);
    assert!(session.start().is_err());
    assert!(!session.is_running());
    assert_eq!(*log.lock().unwrap(), vec!["video start", "audio start"]);
}

#[test]
fn a_refused_stop_leaves_the_session_running() {
    let (mut session, log) = recorded(|_, audio| audio.refuse_stop = true);
    session.start().unwrap();
    let error = session.stop().unwrap_err();
    assert_eq!(error.message(), "platform error: audio stays");
    assert!(session.is_running());
    assert_eq!(
        *log.lock().unwrap(),
        vec!["video start", "audio start", "audio stop"]
    );
}

#[test]
fn a_timeout_asks_both_streams() {
    let (mut session, log) = recorded(|_, _| {});
    let reply = session.next_event(Some(Duration::from_millis(7)));
    assert!(matches!(reply, Err(PinrayError::Timeout(limit)) if limit == Duration::from_millis(7)));
    assert_eq!(
        *log.lock().unwrap(),
        vec!["audio wait Some(0ns)", "video wait Some(7ms)", "audio wait Some(7ms)"]
    );
}

#[test]
fn a_failing_stream_is_not_waited_out() {
    let (mut session, log) = recorded(|_, audio| audio.failure = Some("audio is gone"));
    let error = session.next_event(None).unwrap_err();
    assert_eq!(error.message(), "platform error: audio is gone");
    assert_eq!(*log.lock().unwrap(), vec!["audio wait Some(0ns)"]);

    let (mut session, log) = recorded(|video, _| video.failure = Some("video is gone"));
    let error = session.next_event(None).unwrap_err();
    assert_eq!(error.message(), "platform error: video is gone");
    assert_eq!(
        *log.lock().unwrap(),
        vec!["audio wait Some(0ns)", "video wait None"]
    );
}

#[test]
fn a_session_without_backends_has_no_events() {
    let bundle = BackendBundle {
        info: mock_info(),
        video: None,
        audio: None,
    };
    let mut session = CaptureSession::new(SessionConfig::default(), bundle);
    assert!(matches!(
        session.next_event(None),
        Err(PinrayError::BackendNotSelected)
    ));
    assert!(matches!(
        session.next_audio(None),
        Err(PinrayError::BackendNotSelected)
    ));
    assert_eq!(session.restore_token(), None);
    session.start().unwrap();
    assert!(session.is_running());
}

#[test]
fn audio_alone_is_a_session() {
    let bundle = BackendBundle {
        info: mock_info(),
        video: None,
        audio: Some(Box::new(QueuedAudio(VecDeque::from([mock_audio_frame()])))),
    };
    let mut session = CaptureSession::new(SessionConfig::default(), bundle);
    assert!(matches!(
        session.next_event(None),
        Ok(CaptureEvent::Audio(frame)) if frame.sample_rate == 48_000
    ));
    assert!(matches!(session.next_audio(None), Err(PinrayError::Timeout(_))));
}

#[test]
fn video_alone_is_a_session() {
    let bundle = BackendBundle {
        info: mock_info(),
        video: Some(Box::new(BusyVideo)),
        audio: None,
    };
    let mut session = CaptureSession::new(SessionConfig::default(), bundle);
    assert!(matches!(
        session.next_event(None),
        Ok(CaptureEvent::Video(frame)) if frame.stride == 4
    ));
    assert!(matches!(
        session.next_audio(None),
        Err(PinrayError::BackendNotSelected)
    ));
}

#[test]
fn the_restore_token_is_the_video_backends() {
    let (session, _) = recorded(|_, _| {});
    assert_eq!(session.restore_token().as_deref(), Some("token-7"));
}

#[test]
fn a_session_remembers_what_it_was_built_of() {
    let (session, _) = recorded(|_, _| {});
    assert_eq!(session.config(), &SessionConfig::default());
    assert_eq!(session.backend_info(), &mock_info());
}

#[test]
fn the_builder_sets_every_field() {
    let rect = Rect {
        x: 1,
        y: 2,
        width: 3,
        height: 4,
    };
    let builder = SessionBuilder::new()
        .backend_preference(BackendPreference::LinuxX11)
        .video_target(VideoCaptureTarget::Window(SourceId::new("window:9")))
        .audio(AudioCapture::SystemMix)
        .pixel_format(PixelFormat::Rgba8888)
        .restore_token("again")
        .color_space(Some(ColorSpace::DisplayP3))
        .cursor_mode(CursorMode::Hidden)
        .crop_rect(Some(rect))
        .frame_rate(None)
        .queue_depth(5);
    assert_eq!(
        builder.config(),
        &SessionConfig {
            backend_preference: BackendPreference::LinuxX11,
            video_target: Some(VideoCaptureTarget::Window(SourceId::new("window:9"))),
            audio_capture: Some(AudioCapture::SystemMix),
            restore_token: Some("again".to_string()),
            pixel_format: PixelFormat::Rgba8888,
            color_space: Some(ColorSpace::DisplayP3),
            cursor_mode: CursorMode::Hidden,
            crop_rect: Some(rect),
            frame_rate: None,
            queue_depth: 5,
        }
    );
}

#[test]
fn the_defaults_are_a_bgra_session_at_sixty() {
    let config = SessionConfig::default();
    assert_eq!(config.backend_preference, BackendPreference::Auto);
    assert_eq!(config.video_target, None);
    assert_eq!(config.audio_capture, None);
    assert_eq!(config.restore_token, None);
    assert_eq!(config.pixel_format, PixelFormat::Bgra8888);
    assert_eq!(config.color_space, Some(ColorSpace::Srgb));
    assert_eq!(config.cursor_mode, CursorMode::Embedded);
    assert_eq!(config.crop_rect, None);
    assert_eq!(config.frame_rate, Some(60));
    assert_eq!(config.queue_depth, 2);
}

fn complaint(config: &SessionConfig) -> String {
    config.validate().unwrap_err().message()
}

#[test]
fn validation_names_the_first_broken_rule() {
    let mut config = SessionConfig::default();
    config.frame_rate = Some(0);
    config.queue_depth = 0;
    config.crop_rect = Some(Rect {
        x: 0,
        y: 0,
        width: 0,
        height: 8,
    });
    assert_eq!(
        complaint(&config),
        "invalid session configuration: at least one of video_target or audio_capture must be set"
    );
    config.audio_capture = Some(AudioCapture::SystemMix);
    assert_eq!(
        complaint(&config),
        "invalid session configuration: frame_rate must be greater than zero"
    );
    config.frame_rate = None;
    assert_eq!(
        complaint(&config),
        "invalid session configuration: queue_depth must be greater than zero"
    );
    config.queue_depth = 1;
    assert_eq!(
        complaint(&config),
        "invalid session configuration: crop_rect width and height must be greater than zero"
    );
    config.crop_rect = None;
    assert!(config.validate().is_ok());
}

struct FixedResolver {
    refuse: bool,
}

impl BackendResolver for FixedResolver {
    fn resolve(&self, config: &SessionConfig) -> Result<BackendBundle> {
        if self.refuse {
            return Err(PinrayError::BackendUnavailable("nothing here".to_string()));
        }
        assert!(config.validate().is_ok());
        Ok(BackendBundle {
            info: mock_info(),
            video: Some(Box::new(BusyVideo)),
            audio: None,
        })
    }
}

#[test]
fn a_built_session_is_stopped() {
    let session = SessionBuilder::new()
        .audio(AudioCapture::SystemMix)
        .build_with_resolver(&FixedResolver { refuse: false })
        .unwrap();
    assert!(!session.is_running());
    assert_eq!(session.config().audio_capture, Some(AudioCapture::SystemMix));
}

#[test]
fn the_resolver_has_the_last_word() {
    let reply = SessionBuilder::new()
        .audio(AudioCapture::SystemMix)
        .build_with_resolver(&FixedResolver { refuse: true });
    match reply {
        Err(error) => assert_eq!(error.message(), "backend unavailable: nothing here"),
        Ok(_) => panic!("the resolver refused"),
    }
}

#[test]
fn the_resolver_is_not_asked_about_an_invalid_configuration() {
    let reply = SessionBuilder::new().build_with_resolver(&FixedResolver { refuse: true });
    match reply {
        Err(PinrayError::InvalidConfig(_)) => {}
        _ => panic!("the configuration asks for nothing"),
    }
}

#[test]
fn errors_describe_themselves() {
    assert_eq!(
        PinrayError::Timeout(Duration::from_millis(1500)).message(),
        "capture timed out after 1.5s"
    );
    assert_eq!(
        PinrayError::BackendNotSelected.message(),
        "capture backend not selected"
    );
    assert_eq!(
        PinrayError::Unsupported("this".to_string()).message(),
        "operation not supported: this"
    );
    assert_eq!(
        pinray::error::timeout_message("2s"),
        "capture timed out after 2s"
    );
}

#[test]
fn a_bundle_is_described_by_its_video() {
    let bundle = pinray::backend::bundle_backends(
        Some(Box::new(BusyVideo)),
        None,
    )
    .unwrap();
    assert!(!bundle.info.supports_audio);
    let bundle = pinray::backend::bundle_backends(
        Some(Box::new(BusyVideo)),
        Some(Box::new(QueuedAudio(VecDeque::new()))),
    )
    .unwrap();
    assert!(bundle.info.supports_audio);
    let bundle =
        pinray::backend::bundle_backends(None, Some(Box::new(QueuedAudio(VecDeque::new()))))
            .unwrap();
    assert_eq!(bundle.info, mock_info());
    assert!(matches!(
        pinray::backend::bundle_backends(None, None),
        Err(PinrayError::InvalidConfig(_))
    ));
}
