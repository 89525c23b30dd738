//! The Windows backends.
use std::time::Duration;

use pinray::channel::Delivery;
use pinray::platform_windows::d3d::{
    crop_region, qpc_to_ns, texture_to_host, win_err, HostCopy, Region,
};
use pinray::platform_windows::dxgi::{
    advance_schedule, duplication_denied, paced_wait, AcquireOutcome, AcquireStep, DxgiAction, DxgiCall,
    DxgiEvent, DxgiStage, DxgiStream, Pace,
};
use pinray::platform_windows::enumerate::{
    enumerate_all, enumerate_displays, enumerate_windows, find_display, find_window,
    named_display, named_window, nul_position, utf16_to_string, window_id, OutputReport,
    WindowReport,
};
use pinray::platform_windows::wasapi::{
    initialized, next_audio, open_stream, parse_mix_format, MixFormat, WasapiStream, WaveFormat,
    AUDCLNT_BUFFERFLAGS_SILENT, AUDIO_CHANNEL_CAPACITY, KSDATAFORMAT_SUBTYPE_IEEE_FLOAT,
    KSDATAFORMAT_SUBTYPE_PCM, WAVE_FORMAT_EXTENSIBLE, WAVE_FORMAT_IEEE_FLOAT, WAVE_FORMAT_PCM,
};
use pinray::platform_windows::wgc::{
    accept_frame, after_waiting, arrival_time_ns, frame_interval_ns, require_support, WgcStream,
};
use pinray::platform_windows::{
    after_duplication, available_backends, complete, enumerate_sources, resolve_audio,
    try_resolve, AfterDuplication, VideoPlan,
};
use pinray::{
    AudioBackend, AudioCapture, AudioData, AudioFrame, BackendBundle, BackendInfo, BackendKind,
    BackendPreference, CaptureEvent, CaptureSource, FrameData, GapReason, PinrayError,
    PixelFormat, Rect, SampleFormat, SessionConfig, SourceId, TargetOs, VideoBackend,
    VideoCaptureTarget,
};

// Performance counter times.

#[test]
fn qpc_to_ns_survives_large_uptimes() {
    // 10 MHz QPC frequency (common on modern Windows), 30 days uptime.
    let freq = 10_000_000i64;
    let qpc = 30 * 24 * 3600 * freq;
    assert_eq!(qpc_to_ns(qpc, freq), 30 * 24 * 3600 * 1_000_000_000i64);
}

#[test]
fn qpc_to_ns_sub_second_precision() {
    // 1 tick at 10 MHz = 100 ns.
    assert_eq!(qpc_to_ns(1, 10_000_000), 100);
}

#[test]
fn qpc_to_ns_rounds_towards_zero_and_wraps() {
    assert_eq!(qpc_to_ns(1, 3), 333_333_333);
    assert_eq!(qpc_to_ns(-1, 3), -333_333_333);
    assert_eq!(qpc_to_ns(1, -3), -333_333_333);
    assert_eq!(qpc_to_ns(-1, -3), 333_333_333);
    assert_eq!(
        qpc_to_ns(i64::MAX, 1),
        (i64::MAX as i128 * 1_000_000_000) as i64
    );
}

// Staging copies.

#[test]
fn the_whole_texture_is_the_region_without_a_crop() {
    assert_eq!(
        crop_region(None, 640, 480).unwrap(),
        Region {
            x: 0,
            y: 0,
            width: 640,
            height: 480
        }
    );
}

#[test]
fn a_crop_starts_no_earlier_than_the_texture() {
    let crop = Rect {
        x: -5,
        y: 10,
        width: 20,
        height: 30,
    };
    assert_eq!(
        crop_region(Some(crop), 640, 480).unwrap(),
        Region {
            x: 0,
            y: 10,
            width: 20,
            height: 30
        }
    );
}

#[test]
fn a_crop_beyond_the_texture_is_refused() {
    let crop = Rect {
        x: 630,
        y: 0,
        width: 20,
        height: 30,
    };
    assert_eq!(
        crop_region(Some(crop), 640, 480).unwrap_err().message(),
        "invalid session configuration: crop_rect 630,0 20x30 exceeds source 640x480"
    );
}

#[test]
fn row_pitch_is_stripped_from_a_copy() {
    // Two rows of one pixel, four bytes of padding behind the first.
    let mapped = [1u8, 2, 3, 4, 99, 99, 99, 99, 5, 6, 7, 8];
    let copy = texture_to_host(&mapped, 8, 1, 2, PixelFormat::Bgra8888);
    assert_eq!(copy.data, vec![1, 2, 3, 4, 5, 6, 7, 8]);
    assert_eq!((copy.width, copy.height, copy.stride), (1, 2, 4));
    let copy = texture_to_host(&mapped, 8, 1, 2, PixelFormat::Rgba8888);
    assert_eq!(copy.data, vec![3, 2, 1, 4, 7, 6, 5, 8]);
}

#[test]
fn system_failures_name_their_call() {
    assert_eq!(
        win_err("Map(staging)", "denied").message(),
        "platform error: Map(staging): denied"
    );
}

// Desktop duplication.

const BASE: u64 = 1_000_000_000_000;

fn ms(millis: u64) -> u64 {
    millis * 1_000_000
}

const INTERVAL: u64 = 100_000_000;

#[test]
fn a_frame_arriving_late_keeps_the_grid() {
    // Acquiring waits for the next desktop change, so frames land a little
    // after their deadline. Resetting the schedule to that arrival would
    // stretch every period by the wait and under-deliver.
    let next = advance_schedule(Some(BASE), BASE + ms(5), INTERVAL);
    assert_eq!(next, BASE + INTERVAL);
}

#[test]
fn a_quiet_desktop_resynchronizes_instead_of_bursting() {
    let woke = BASE + ms(350);
    assert_eq!(advance_schedule(Some(BASE), woke, INTERVAL), woke + INTERVAL);
}

#[test]
fn the_first_frame_starts_the_schedule() {
    assert_eq!(advance_schedule(None, BASE, INTERVAL), BASE + INTERVAL);
}

/// Drives the scheduler against a desktop changing every `change_ms` and
/// returns how many frames come out.
fn delivered(change_ms: u64, requested: u64, secs: u64) -> u64 {
    delivered_with_copy(change_ms, requested, secs, 0)
}

/// As above, but each frame also costs `copy_ms` to stage into host memory.
fn delivered_with_copy(change_ms: u64, requested: u64, secs: u64, copy_ms: u64) -> u64 {
    let interval = 1_000_000_000 / requested;
    let change = ms(change_ms);
    let end = BASE + secs * 1_000_000_000;

    let (mut now, mut deadline, mut frames) = (BASE, None::<u64>, 0u64);
    while now < end {
        // Sleep until due, then wait for the next change at or after that.
        let ready = deadline.map_or(now, |d| d.max(now));
        let waited = (ready - BASE) / change;
        let mut arrival = BASE + change * waited;
        if arrival < ready {
            arrival += change;
        }
        // The schedule is anchored on the acquire; the copy happens after.
        deadline = Some(advance_schedule(deadline, arrival, interval));
        now = arrival + ms(copy_ms);
        frames += 1;
    }
    frames
}

fn delivered_fps(change_ms: u64, requested: u64, secs: u64) -> f64 {
    delivered(change_ms, requested, secs) as f64 / secs as f64
}

#[test]
fn pacing_never_delivers_faster_than_requested() {
    // A desktop changing at 60 Hz, throttled to a range of rates. The one
    // extra frame is the one that starts the schedule.
    let secs = 20;
    for requested in [1, 2, 5, 10, 15, 24, 30, 50] {
        let frames = delivered(16, requested, secs);
        assert!(
            frames <= requested * secs + 1,
            "requested {requested} fps over {secs}s: {frames} frames, cap {}",
            requested * secs + 1
        );
    }
}

#[test]
fn pacing_holds_the_requested_rate_when_the_desktop_is_fast_enough() {
    for requested in [1, 2, 5, 10, 15, 30] {
        let got = delivered_fps(16, requested, 20);
        assert!(
            (got - requested as f64).abs() / (requested as f64) < 0.1,
            "requested {requested} fps, delivered {got:.2}"
        );
    }
}

#[test]
fn a_slow_desktop_is_not_inflated() {
    // Changes every 200 ms cannot become 30 fps just because it was asked for.
    let got = delivered_fps(200, 30, 20);
    assert!(got <= 5.2, "delivered {got:.2} from a 5 fps desktop");
}

#[test]
fn the_gate_waits_until_the_frame_is_due() {
    let due = BASE + ms(30);
    assert_eq!(
        paced_wait(Some(due), Some(BASE + ms(500)), BASE),
        Pace::Wait(ms(30))
    );
}

#[test]
fn the_gate_does_not_wait_without_a_schedule() {
    assert_eq!(paced_wait(None, Some(BASE), BASE), Pace::Wait(0));
}

#[test]
fn an_overdue_frame_is_not_slept_on() {
    let due = BASE - ms(40);
    assert_eq!(paced_wait(Some(due), None, BASE), Pace::Wait(0));
}

#[test]
fn the_callers_timeout_wins_over_the_schedule() {
    // 5 fps requested but only 10 ms of patience: the caller gets Timeout,
    // the same answer an idle desktop gives, instead of being slept past it.
    let due = BASE + ms(200);
    let deadline = BASE + ms(10);
    assert_eq!(paced_wait(Some(due), Some(deadline), BASE), Pace::Expired);
}

#[test]
fn a_frame_due_exactly_at_the_deadline_is_still_waited_for() {
    let due = BASE + ms(100);
    assert_eq!(paced_wait(Some(due), Some(due), BASE), Pace::Wait(ms(100)));
}

#[test]
fn without_a_timeout_the_gate_always_waits() {
    let due = BASE + 10 * 1_000_000_000;
    assert_eq!(
        paced_wait(Some(due), None, BASE),
        Pace::Wait(10 * 1_000_000_000)
    );
}

#[test]
fn a_slow_copy_does_not_stretch_the_period() {
    // A 20 ms copy against a 60 fps request (16.6 ms interval). Anchoring
    // the schedule after the copy adds it on top of the interval and
    // settles near 27 fps, where the copy alone allows about 50.
    let fps = delivered_with_copy(4, 60, 20, 20) as f64 / 20.0;
    assert!(fps > 40.0, "copy-bound delivery collapsed to {fps:.1} fps");
}

fn one_pixel() -> HostCopy {
    HostCopy {
        data: vec![1, 2, 3, 4],
        width: 1,
        height: 1,
        stride: 4,
    }
}

#[test]
fn duplicated_frames_are_numbered_and_scheduled() {
    let mut stream = DxgiStream::new(PixelFormat::Bgra8888, 10_000_000, Some(INTERVAL));
    assert!(stream.start(Ok(())).is_ok());
    for expected in 0..3u64 {
        let at = BASE + expected * INTERVAL + ms(1);
        match stream.deliver(one_pixel(), 5, at) {
            CaptureEvent::Video(frame) => {
                assert_eq!(frame.sequence, expected);
                assert_eq!(frame.stream_time_ns, 500);
                assert_eq!(frame.data, FrameData::Host(vec![1, 2, 3, 4]));
            }
            other => panic!("unexpected event: {other:?}"),
        }
    }
    assert_eq!(stream.next_frame_at, Some(BASE + ms(1) + 3 * INTERVAL));
}

#[test]
fn an_unpaced_stream_has_no_schedule() {
    let mut stream = DxgiStream::new(PixelFormat::Bgra8888, 10_000_000, None);
    stream.deliver(one_pixel(), 5, BASE);
    assert_eq!(stream.next_frame_at, None);
    assert_eq!(stream.sequence, 1);
}

#[test]
fn a_failed_duplication_does_not_start() {
    let mut stream = DxgiStream::new(PixelFormat::Bgra8888, 1, None);
    assert!(stream
        .start(Err(PinrayError::Platform("denied".to_string())))
        .is_err());
    assert!(!stream.duplicating);
    assert!(stream.start(Ok(())).is_ok());
    // A stream that runs is left alone, whatever a new attempt would say.
    assert!(stream
        .start(Err(PinrayError::Platform("denied".to_string())))
        .is_ok());
    stream.stop();
    assert!(!stream.duplicating);
}

#[test]
fn an_acquire_waits_for_what_is_left() {
    let mut stream = DxgiStream::new(PixelFormat::Bgra8888, 1, None);
    let limit = Some(Duration::from_millis(20));
    assert_eq!(
        stream
            .acquire_wait(true, Some(BASE + ms(20)), limit, BASE)
            .unwrap_err()
            .message(),
        "platform error: dxgi backend not started"
    );
    stream.start(Ok(())).unwrap();
    assert_eq!(
        stream
            .acquire_wait(false, Some(BASE + ms(20)), limit, BASE + ms(5))
            .unwrap(),
        15
    );
    assert_eq!(stream.acquire_wait(true, None, None, BASE).unwrap(), u32::MAX);

    assert_eq!(stream.hold_off(None, None, BASE).unwrap(), 0);
    stream.next_frame_at = Some(BASE + ms(30));
    assert_eq!(
        stream.hold_off(Some(BASE + ms(30)), limit, BASE).unwrap(),
        ms(30)
    );
    match stream.hold_off(Some(BASE + ms(20)), limit, BASE) {
        Err(PinrayError::Timeout(waited)) => assert_eq!(Some(waited), limit),
        other => panic!("unexpected answer: {other:?}"),
    }
    stream.next_frame_at = None;
    assert_eq!(
        stream.acquire_wait(true, Some(u64::MAX), limit, 0).unwrap(),
        u32::MAX
    );
    assert!(matches!(
        stream.acquire_wait(false, Some(BASE), limit, BASE),
        Err(PinrayError::Timeout(t)) if t == Duration::from_millis(20)
    ));
}

#[test]
fn a_zero_timeout_still_acquires_once() {
    let mut stream = DxgiStream::new(PixelFormat::Bgra8888, 1, None);
    let zero = Some(Duration::ZERO);
    stream.start(Ok(())).unwrap();
    assert_eq!(stream.hold_off(Some(BASE), zero, BASE).unwrap(), 0);
    assert_eq!(stream.acquire_wait(true, Some(BASE), zero, BASE).unwrap(), 0);
    // A little late is no different.
    assert_eq!(stream.acquire_wait(true, Some(BASE), zero, BASE + 9).unwrap(), 0);
    assert!(matches!(
        stream.acquire_wait(false, Some(BASE), zero, BASE),
        Err(PinrayError::Timeout(Duration::ZERO))
    ));
    stream.stop();
    assert!(matches!(
        stream.acquire_wait(true, Some(BASE), zero, BASE),
        Err(PinrayError::Timeout(Duration::ZERO))
    ));
    assert_eq!(
        stream
            .acquire_wait(true, Some(BASE + 1), zero, BASE)
            .unwrap_err()
            .message(),
        "platform error: dxgi backend not started"
    );
}

fn acquired(last_present_time: i64) -> DxgiEvent {
    DxgiEvent::Acquired(AcquireOutcome::Acquired { last_present_time })
}

#[test]
fn a_poll_finds_an_image_that_is_ready() {
    let mut stream = DxgiStream::new(PixelFormat::Bgra8888, 10_000_000, Some(INTERVAL));
    stream.start(Ok(())).unwrap();
    let mut call = DxgiCall::new(Some(Duration::ZERO), Some(BASE));
    assert!(matches!(
        stream.step(&mut call, DxgiEvent::Called, BASE + 1),
        DxgiAction::Acquire(0)
    ));
    assert!(matches!(stream.step(&mut call, acquired(7), BASE + 2), DxgiAction::Copy));
    match stream.step(&mut call, DxgiEvent::Copied(Ok(one_pixel())), BASE + 3) {
        DxgiAction::Answer(Ok(CaptureEvent::Video(frame))) => {
            assert_eq!((frame.sequence, frame.stream_time_ns), (0, 700));
        }
        other => panic!("unexpected action: {other:?}"),
    }
    assert_eq!(call.stage, DxgiStage::Answered);
    assert_eq!(stream.next_frame_at, Some(BASE + 2 + INTERVAL));
}

#[test]
fn a_poll_acquires_only_once() {
    let mut stream = DxgiStream::new(PixelFormat::Bgra8888, 10_000_000, None);
    stream.start(Ok(())).unwrap();
    let mut call = DxgiCall::new(Some(Duration::ZERO), Some(BASE));
    assert!(matches!(
        stream.step(&mut call, DxgiEvent::Called, BASE),
        DxgiAction::Acquire(0)
    ));
    // Only the mouse moved.
    assert!(matches!(stream.step(&mut call, acquired(0), BASE), DxgiAction::Release));
    assert!(matches!(
        stream.step(&mut call, DxgiEvent::Released, BASE),
        DxgiAction::Answer(Err(PinrayError::Timeout(Duration::ZERO)))
    ));
}

#[test]
fn a_call_sleeps_until_its_frame_is_due() {
    let mut stream = DxgiStream::new(PixelFormat::Bgra8888, 10_000_000, Some(INTERVAL));
    stream.start(Ok(())).unwrap();
    stream.next_frame_at = Some(BASE + ms(10));
    let limit = Some(Duration::from_millis(30));
    let mut call = DxgiCall::new(limit, Some(BASE + ms(30)));
    assert!(matches!(
        stream.step(&mut call, DxgiEvent::Called, BASE),
        DxgiAction::Sleep(wait) if wait == ms(10)
    ));
    assert!(matches!(
        stream.step(&mut call, DxgiEvent::Slept, BASE + ms(10)),
        DxgiAction::Acquire(20)
    ));
    let lost = AcquireOutcome::AccessLost { last_present_time: 7 };
    assert!(matches!(
        stream.step(&mut call, DxgiEvent::Acquired(lost), BASE + ms(11)),
        DxgiAction::Duplicate
    ));
    match stream.step(&mut call, DxgiEvent::Duplicated(Ok(())), BASE + ms(12)) {
        DxgiAction::Answer(Ok(CaptureEvent::Gap(gap))) => {
            assert_eq!(gap.reason, GapReason::BackendRestarted);
            assert_eq!(gap.stream_time_ns, 700);
        }
        other => panic!("unexpected action: {other:?}"),
    }

    // Due behind the deadline, the frame is not waited for.
    stream.next_frame_at = Some(BASE + ms(31));
    let mut call = DxgiCall::new(limit, Some(BASE + ms(30)));
    assert!(matches!(
        stream.step(&mut call, DxgiEvent::Called, BASE),
        DxgiAction::Answer(Err(PinrayError::Timeout(waited))) if Some(waited) == limit
    ));
    stream.stop();
    let mut call = DxgiCall::new(None, None);
    match stream.step(&mut call, DxgiEvent::Called, BASE) {
        DxgiAction::Answer(Err(error)) => {
            assert_eq!(error.message(), "platform error: dxgi backend not started");
        }
        other => panic!("unexpected action: {other:?}"),
    }
}

#[test]
fn a_failed_copy_is_the_answer() {
    let mut stream = DxgiStream::new(PixelFormat::Bgra8888, 10_000_000, None);
    stream.start(Ok(())).unwrap();
    let mut call = DxgiCall::new(None, None);
    assert!(matches!(
        stream.step(&mut call, DxgiEvent::Called, BASE),
        DxgiAction::Acquire(u32::MAX)
    ));
    stream.step(&mut call, acquired(7), BASE);
    let failed = Err(PinrayError::Platform("no texture".to_string()));
    match stream.step(&mut call, DxgiEvent::Copied(failed), BASE) {
        DxgiAction::Answer(Err(error)) => assert_eq!(error.message(), "platform error: no texture"),
        other => panic!("unexpected action: {other:?}"),
    }
    assert_eq!(stream.sequence, 0);
}

#[test]
fn every_acquire_has_its_answer() {
    assert!(matches!(
        DxgiStream::after_acquire(&AcquireOutcome::TimedOut, None),
        AcquireStep::GiveUp(PinrayError::Timeout(t)) if t == Duration::ZERO
    ));
    assert!(matches!(
        DxgiStream::after_acquire(&AcquireOutcome::AccessLost { last_present_time: 0 }, None),
        AcquireStep::Recreate
    ));
    match DxgiStream::after_acquire(&AcquireOutcome::Failed("boom".to_string()), None) {
        AcquireStep::GiveUp(error) => {
            assert_eq!(error.message(), "platform error: AcquireNextFrame: boom")
        }
        other => panic!("unexpected step: {other:?}"),
    }
    // Only the mouse moved.
    let outcome = AcquireOutcome::Acquired {
        last_present_time: 0,
    };
    assert!(matches!(
        DxgiStream::after_acquire(&outcome, None),
        AcquireStep::KeepWaiting
    ));
    let outcome = AcquireOutcome::Acquired {
        last_present_time: 1,
    };
    assert!(matches!(
        DxgiStream::after_acquire(&outcome, None),
        AcquireStep::Deliver
    ));
}

#[test]
fn a_lost_duplication_is_reported_as_a_gap() {
    let mut stream = DxgiStream::new(PixelFormat::Bgra8888, 10_000_000, None);
    stream.start(Ok(())).unwrap();
    match stream.recreated(Ok(()), 7) {
        Ok(CaptureEvent::Gap(gap)) => {
            assert_eq!(gap.stream_time_ns, 700);
            assert_eq!(gap.reason, GapReason::BackendRestarted);
            assert_eq!(gap.dropped_frames, None);
        }
        other => panic!("unexpected reply: {other:?}"),
    }
    assert!(stream
        .recreated(Err(PinrayError::Platform("denied".to_string())), 7)
        .is_err());
    assert!(!stream.duplicating);
}

// Windows Graphics Capture.

fn hz(rate: i64) -> i64 {
    1_000_000_000 / rate
}

/// Runs `arrivals` through a fresh pacer and returns the kept timestamps.
fn emitted(arrivals: impl IntoIterator<Item = i64>, interval: i64) -> Vec<i64> {
    let (mut deadline, mut arrival) = (i64::MIN, i64::MIN);
    arrivals
        .into_iter()
        .filter(|t| accept_frame(&mut deadline, &mut arrival, *t, interval))
        .collect()
}

fn vblanks(refresh: i64, secs: i64) -> impl Iterator<Item = i64> {
    (0..refresh * secs).map(move |i| i * hz(refresh))
}

/// The same stream with a deterministic `+-spread` wobble, standing in for
/// the jitter real compositor timestamps carry.
fn jittered(refresh: i64, secs: i64, spread: i64) -> impl Iterator<Item = i64> {
    let mut seed = 0x2545_f491_4f6c_dd1du64;
    vblanks(refresh, secs).map(move |t| {
        seed = seed
            .wrapping_mul(6364136223846793005)
            .wrapping_add(1442695040888963407);
        t + (seed >> 33) as i64 % (2 * spread + 1) - spread
    })
}

fn assert_rate(refresh: i64, requested: i64, want: f64) {
    // 30 s amortizes the one extra frame that starts the schedule.
    let got = emitted(vblanks(refresh, 30), hz(requested)).len() as f64 / 30.0;
    assert!(
        (got - want).abs() / want < 0.02,
        "{refresh} Hz requesting {requested} fps: got {got:.2}, want {want:.2}"
    );
}

#[test]
fn first_frame_is_always_kept() {
    assert_eq!(emitted([0], hz(30)), vec![0]);
}

#[test]
fn frames_inside_the_interval_are_rejected() {
    let kept = emitted([0, hz(60), 2 * hz(60)], hz(30));
    assert_eq!(kept, vec![0, 2 * hz(60)]);
}

#[test]
fn divisor_refresh_rates_hit_the_request_exactly() {
    assert_rate(60, 30, 30.0);
    assert_rate(60, 5, 5.0);
    assert_rate(144, 30, 30.0);
    assert_rate(240, 60, 60.0);
}

#[test]
fn non_divisor_refresh_rates_still_average_the_request() {
    // Resynchronizing the grid on every late frame under-delivers here:
    // 45, 72, 37.5 and 28.6 fps respectively.
    assert_rate(90, 60, 60.0);
    assert_rate(144, 120, 120.0);
    assert_rate(75, 60, 60.0);
    assert_rate(100, 30, 30.0);
}

#[test]
fn requesting_the_display_refresh_rate_survives_vblank_jitter() {
    // A tolerance narrower than the wobble under-delivers here: 55 and
    // 108 fps respectively with `interval / 8`.
    for refresh in [60, 144] {
        let kept = emitted(jittered(refresh, 30, 1_500_000), hz(refresh)).len() as f64 / 30.0;
        let want = refresh as f64;
        assert!(
            (kept - want).abs() / want < 0.02,
            "{refresh} Hz requesting {refresh} fps with jitter: got {kept:.2}, want {want:.2}"
        );
    }
}

#[test]
fn requesting_more_than_the_display_refresh_throttles_nothing() {
    assert_eq!(emitted(vblanks(60, 2), hz(120)).len(), 120);
}

#[test]
fn a_long_stall_does_not_release_a_catch_up_burst() {
    let resume = 10 * 1_000_000_000;
    let arrivals = std::iter::once(0).chain((0..6).map(|i| resume + i * hz(60)));
    assert_eq!(
        emitted(arrivals, hz(30)).len(),
        4,
        "the frame at t=0 plus three of the six resumed 60 Hz frames"
    );
}

#[test]
fn a_stall_shorter_than_two_intervals_does_not_emit_a_close_pair() {
    // A resumed frame less than one interval past its deadline leaves the
    // grid stale; holding it emitted the next frame one vblank later.
    let interval = hz(5);
    let gap_ends = 383 * 1_000_000;
    let arrivals = std::iter::once(0).chain(vblanks(60, 2).filter(move |t| *t >= gap_ends));

    let kept = emitted(arrivals, interval);
    let closest = kept
        .windows(2)
        .map(|w| w[1] - w[0])
        .min()
        .expect("more than one frame kept");
    assert!(
        closest >= interval - interval / 8,
        "emitted two frames {closest} ns apart for a {interval} ns interval"
    );
}

#[test]
fn high_refresh_pacing_never_exceeds_the_request() {
    // An absolute tolerance keeps frames several vblanks early on a fast
    // panel, which cannot raise the rate: the deadline advances from the
    // previous deadline, never from the kept frame.
    for (refresh, request) in [
        (144, 120),
        (165, 60),
        (240, 60),
        (240, 120),
        (300, 120),
        (500, 480),
    ] {
        for jitter in [0, 1_000_000, 2_000_000] {
            let secs = 10;
            let kept = if jitter == 0 {
                emitted(vblanks(refresh, secs), hz(request)).len()
            } else {
                emitted(jittered(refresh, secs, jitter), hz(request)).len()
            } as f64
                / secs as f64;
            assert!(
                kept <= request as f64 * 1.02,
                "{refresh} Hz at {request} fps (jitter {jitter} ns): got {kept:.2}, must not exceed the request"
            );
        }
    }
}

#[test]
fn pacing_saturates_at_the_ends_of_time() {
    let (mut deadline, mut arrival) = (i64::MIN, i64::MIN);
    assert!(accept_frame(&mut deadline, &mut arrival, i64::MAX - 1, 10));
    assert_eq!((deadline, arrival), (i64::MAX, i64::MAX - 1));
    assert!(accept_frame(&mut deadline, &mut arrival, i64::MAX, 10));
}

#[test]
fn intervals_follow_the_rate() {
    assert_eq!(frame_interval_ns(None), None);
    assert_eq!(frame_interval_ns(Some(60)), Some(16_666_666));
    assert_eq!(frame_interval_ns(Some(0)), Some(1_000_000_000));
    assert_eq!(arrival_time_ns(123), 12_300);
}

#[test]
fn the_system_is_asked_to_pace_in_ticks() {
    let stream = WgcStream::new(PixelFormat::Bgra8888, Some(60), 2);
    assert_eq!(stream.min_update_interval(), Some(166_666));
    let stream = WgcStream::new(PixelFormat::Bgra8888, None, 2);
    assert_eq!(stream.min_update_interval(), None);
    assert!(require_support(true).is_ok());
    assert_eq!(
        require_support(false).unwrap_err().message(),
        "backend unavailable: Windows Graphics Capture is not supported on this system (needs Windows 10 1903+)"
    );
    assert_eq!(
        duplication_denied("access denied").message(),
        "backend unavailable: DuplicateOutput: access denied"
    );
}

#[test]
fn paced_out_frames_are_no_drops() {
    let mut stream = WgcStream::new(PixelFormat::Bgra8888, Some(30), 2);
    assert!(stream.wants_frame(0));
    assert!(!stream.wants_frame(hz(60)));
    assert!(stream.before_waiting(true).is_none());
    let mut stream = WgcStream::new(PixelFormat::Bgra8888, None, 2);
    assert!(stream.wants_frame(0));
    assert!(stream.wants_frame(1));
}

#[test]
fn lost_frames_are_reported_once() {
    let mut stream = WgcStream::new(PixelFormat::Bgra8888, None, 2);
    for sequence in 0..4 {
        let frame = stream.emit(one_pixel(), 9);
        assert_eq!(frame.sequence, sequence);
        stream.deliver(frame, true);
    }
    match stream.before_waiting(false) {
        Some(Ok(CaptureEvent::Gap(gap))) => {
            assert_eq!(gap.reason, GapReason::Dropped);
            assert_eq!(gap.dropped_frames, Some(2));
            assert_eq!(gap.stream_time_ns, 0);
        }
        other => panic!("unexpected reply: {other:?}"),
    }
    assert!(matches!(
        stream.before_waiting(false),
        Some(Err(PinrayError::Platform(text))) if text == "wgc backend not started"
    ));
    assert!(stream.before_waiting(true).is_none());
    assert_eq!(stream.take().unwrap().sequence, 0);
    assert_eq!(stream.take().unwrap().sequence, 1);
    assert!(stream.take().is_none());

    // There is room, but the capture that the frame is of has been stopped.
    let frame = stream.emit(one_pixel(), 9);
    stream.deliver(frame, false);
    assert!(stream.take().is_none());
    assert!(matches!(stream.before_waiting(true), Some(Ok(CaptureEvent::Gap(_)))));
}

#[test]
fn a_restart_forgets_the_schedule() {
    let mut stream = WgcStream::new(PixelFormat::Rgba8888, Some(1), 2);
    assert!(stream.wants_frame(0));
    assert!(!stream.wants_frame(1));
    let frame = stream.emit(one_pixel(), 0);
    stream.deliver(frame, true);
    stream.restart();
    assert!(stream.take().is_none());
    assert!(stream.wants_frame(2));
    let frame = stream.emit(one_pixel(), 2);
    assert_eq!(frame.pixel_format, PixelFormat::Rgba8888);
    assert_eq!(frame.stream_time_ns, 2);
}

#[test]
fn waiting_for_a_frame_has_three_outcomes() {
    let mut stream = WgcStream::new(PixelFormat::Bgra8888, None, 2);
    let frame = stream.emit(one_pixel(), 3);
    assert!(matches!(
        after_waiting(Delivery::Received(frame), None),
        Ok(CaptureEvent::Video(frame)) if frame.stream_time_ns == 3
    ));
    assert!(matches!(
        after_waiting(Delivery::TimedOut, Some(Duration::from_secs(1))),
        Err(PinrayError::Timeout(t)) if t == Duration::from_secs(1)
    ));
    assert_eq!(
        after_waiting(Delivery::Disconnected, None)
            .unwrap_err()
            .message(),
        "platform error: wgc frame channel disconnected"
    );
}

// WASAPI.

fn base_format(tag: u16, bits: u16) -> WaveFormat {
    WaveFormat {
        format_tag: tag,
        channels: 2,
        samples_per_sec: 48_000,
        avg_bytes_per_sec: 48_000 * 2 * (bits as u32 / 8),
        block_align: 2 * (bits / 8),
        bits_per_sample: bits,
        extra_size: 0,
        sub_format: 0,
    }
}

#[test]
fn parses_ieee_float_mix_format() {
    let mix = parse_mix_format(&base_format(WAVE_FORMAT_IEEE_FLOAT, 32)).unwrap();
    assert_eq!(mix.sample_format, SampleFormat::F32);
    assert_eq!(mix.sample_rate, 48_000);
    assert_eq!(mix.channels, 2);
    assert_eq!(mix.block_align, 8);
}

#[test]
fn parses_pcm_16bit() {
    let mix = parse_mix_format(&base_format(WAVE_FORMAT_PCM, 16)).unwrap();
    assert_eq!(mix.sample_format, SampleFormat::I16);
}

#[test]
fn rejects_odd_pcm_depth() {
    assert!(parse_mix_format(&base_format(WAVE_FORMAT_PCM, 24)).is_err());
}

#[test]
fn parses_extensible_float() {
    let mut base = base_format(WAVE_FORMAT_EXTENSIBLE, 32);
    base.extra_size = 22;
    base.sub_format = KSDATAFORMAT_SUBTYPE_IEEE_FLOAT;
    let mix = parse_mix_format(&base).unwrap();
    assert_eq!(mix.sample_format, SampleFormat::F32);
}

#[test]
fn parses_extensible_integers() {
    let mut base = base_format(WAVE_FORMAT_EXTENSIBLE, 32);
    base.sub_format = KSDATAFORMAT_SUBTYPE_PCM;
    assert_eq!(
        parse_mix_format(&base).unwrap().sample_format,
        SampleFormat::I32
    );
    base.bits_per_sample = 8;
    assert_eq!(
        parse_mix_format(&base).unwrap_err().message(),
        "operation not supported: unsupported PCM bit depth from WASAPI mix format: 8"
    );
}

#[test]
fn unknown_formats_are_named() {
    assert_eq!(
        parse_mix_format(&base_format(2, 16)).unwrap_err().message(),
        "operation not supported: unsupported WASAPI mix format tag: 2"
    );
    let mut base = base_format(WAVE_FORMAT_EXTENSIBLE, 32);
    base.sub_format = 0x00000092_0000_0010_8000_00aa00389b71;
    assert_eq!(
        parse_mix_format(&base).unwrap_err().message(),
        "operation not supported: unsupported WASAPI mix sub-format: 00000092-0000-0010-8000-00AA00389B71"
    );
}

fn stereo() -> MixFormat {
    MixFormat {
        sample_rate: 44_100,
        channels: 2,
        block_align: 4,
        sample_format: SampleFormat::I16,
    }
}

#[test]
fn packets_become_frames() {
    let mut stream = WasapiStream::new(stereo());
    assert_eq!(stream.packet_size(2), 8);
    stream.receive(&[1, 2, 3, 4, 5, 6, 7, 8], 2, 0, 30);
    stream.receive(&[], 1, AUDCLNT_BUFFERFLAGS_SILENT, 31);
    assert_eq!(
        stream.take(),
        Some(AudioFrame {
            stream_time_ns: 3_000,
            sequence: 0,
            sample_rate: 44_100,
            channels: 2,
            sample_format: SampleFormat::I16,
            data: AudioData::Interleaved(vec![1, 2, 3, 4, 5, 6, 7, 8]),
        })
    );
    let silence = stream.take().unwrap();
    assert_eq!(silence.data, AudioData::Interleaved(vec![0, 0, 0, 0]));
    assert_eq!(silence.sequence, 1);
    assert_eq!(stream.take(), None);
}

#[test]
fn the_oldest_packets_are_dropped() {
    let mut stream = WasapiStream::new(stereo());
    for i in 0..AUDIO_CHANNEL_CAPACITY as u64 + 3 {
        stream.receive(&[0, 0, 0, 0], 1, 0, i);
    }
    assert_eq!(stream.take().unwrap().sequence, 3);
    let mut left = 1;
    while stream.take().is_some() {
        left += 1;
    }
    assert_eq!(left, AUDIO_CHANNEL_CAPACITY);
}

#[test]
fn audio_needs_a_started_backend() {
    assert_eq!(
        next_audio(None, None).unwrap_err().message(),
        "platform error: wasapi backend not started"
    );
    assert_eq!(
        next_audio(Some(Delivery::Disconnected), None)
            .unwrap_err()
            .message(),
        "platform error: wasapi capture thread terminated"
    );
    assert!(matches!(
        next_audio(Some(Delivery::TimedOut), Some(Duration::ZERO)),
        Err(PinrayError::Timeout(t)) if t == Duration::ZERO
    ));
}

#[test]
fn a_stream_is_opened_on_a_known_format() {
    let mut stream = open_stream(&base_format(WAVE_FORMAT_PCM, 16), Ok(())).unwrap();
    stream.receive(&[1, 2, 3, 4], 1, 0, 0);
    assert_eq!(stream.take().unwrap().sample_format, SampleFormat::I16);
    // A device that did not initialize is told of before its format.
    assert!(matches!(
        open_stream(&base_format(2, 16), Err(PinrayError::BackendNotSelected)),
        Err(PinrayError::BackendNotSelected)
    ));
    assert!(matches!(
        open_stream(&base_format(2, 16), Ok(())),
        Err(PinrayError::Unsupported(_))
    ));
}

#[test]
fn initialization_is_awaited() {
    assert!(initialized(Delivery::Received(Ok(()))).is_ok());
    assert!(matches!(
        initialized(Delivery::Received(Err(PinrayError::BackendNotSelected))),
        Err(PinrayError::BackendNotSelected)
    ));
    assert_eq!(
        initialized(Delivery::TimedOut).unwrap_err().message(),
        "platform error: wasapi capture thread did not initialize within 5s"
    );
}

// Listings.

fn utf16(text: &str) -> Vec<u16> {
    text.encode_utf16().collect()
}

fn output(name: &str, left: i32, attached: bool) -> OutputReport {
    let mut device_name = utf16(name);
    device_name.resize(32, 0);
    OutputReport {
        device_name,
        left,
        top: 0,
        right: left + 1920,
        bottom: 1080,
        dpi: 144,
        attached_to_desktop: attached,
    }
}

#[test]
fn fixed_buffers_end_at_their_first_zero() {
    let mut buffer = utf16("DISPLAY1");
    buffer.push(0);
    buffer.extend(utf16("junk"));
    assert_eq!(nul_position(&buffer), 8);
    assert_eq!(utf16_to_string(&buffer), "DISPLAY1");
    assert_eq!(utf16_to_string(&utf16("whole")), "whole");
    // A lone surrogate is no text.
    assert_eq!(utf16_to_string(&[0x41, 0xd800, 0x42]), "A\u{fffd}B");
}

#[test]
fn displays_outside_the_desktop_are_not_listed() {
    let reports = vec![
        output("\\\\.\\DISPLAY2", 1920, true),
        output("\\\\.\\DISPLAY9", 0, false),
        output("\\\\.\\DISPLAY1", 0, true),
    ];
    let table = enumerate_displays(&reports);
    assert_eq!(table.outputs, vec![0, 2]);
    assert_eq!(table.sources[0].id, SourceId::new("display:\\\\.\\DISPLAY2"));
    assert!(!table.sources[0].is_primary);
    assert!(table.sources[1].is_primary);
    assert_eq!(table.sources[1].scale_factor_milli, 1500);
    assert_eq!(table.sources[1].width, 1920);

    assert_eq!(find_display(&table.sources, &SourceId::new("auto")).unwrap(), 1);
    assert_eq!(
        find_display(&table.sources, &SourceId::new("display:\\\\.\\DISPLAY2")).unwrap(),
        0
    );
    assert_eq!(
        find_display(&table.sources, &SourceId::new("display:x"))
            .unwrap_err()
            .message(),
        "invalid session configuration: display source not found: display:x"
    );
    assert_eq!(
        find_display(&Vec::new(), &SourceId::new("auto"))
            .unwrap_err()
            .message(),
        "backend unavailable: no displays found"
    );
}

#[test]
fn edges_out_of_order_have_no_extent() {
    let mut report = output("x", 100, true);
    report.right = 50;
    let display = named_display(&report, "x".to_string());
    assert_eq!(display.width, 0);
    assert_eq!(display.height, 1080);
}

#[test]
fn without_a_primary_display_auto_takes_the_first() {
    let table = enumerate_displays(&vec![output("a", 5, true), output("b", 6, true)]);
    assert_eq!(find_display(&table.sources, &SourceId::new("auto")).unwrap(), 0);
}

#[test]
fn window_ids_lead_back_to_their_windows() {
    for handle in [0isize, 42, -1, isize::MAX, isize::MIN] {
        assert_eq!(find_window(&window_id(handle)).unwrap(), handle);
    }
    assert_eq!(window_id(-7), SourceId::new("window:-7"));
    assert_eq!(find_window(&SourceId::new("window:+5")).unwrap(), 5);
    for bad in ["window:", "window:-", "window:1x", "12", "window:9223372036854775808"] {
        assert_eq!(
            find_window(&SourceId::new(bad)).unwrap_err().message(),
            format!("invalid session configuration: invalid window source id: {bad}")
        );
    }
}

fn window(handle: isize, visible: bool, cloaked: bool, title: &str) -> WindowReport {
    WindowReport {
        handle,
        visible,
        cloaked,
        title: utf16(title),
        image_path: Some(utf16("C:\\Program Files\\Editor\\editor.exe")),
    }
}

#[test]
fn hidden_windows_are_not_listed() {
    let reports = vec![
        window(1, true, false, "Notes"),
        window(2, false, false, "Hidden"),
        window(3, true, true, "Cloaked"),
        window(4, true, false, ""),
    ];
    let windows = enumerate_windows(&reports);
    assert_eq!(windows.len(), 1);
    assert_eq!(windows[0].id, SourceId::new("window:1"));
    assert_eq!(windows[0].title, "Notes");
    assert_eq!(windows[0].app_name.as_deref(), Some("editor.exe"));
    let unnamed = named_window(8, "t".to_string(), None);
    assert_eq!(unnamed.app_name, None);
    let rooted = named_window(8, "t".to_string(), Some("plain.exe".to_string()));
    assert_eq!(rooted.app_name.as_deref(), Some("plain.exe"));
}

#[test]
fn a_listing_ends_with_the_systems_audio() {
    let sources = enumerate_sources(
        TargetOs::Windows,
        Ok(vec![output("a", 0, true)]),
        Ok(vec![window(1, true, false, "Notes")]),
    )
    .unwrap();
    assert_eq!(sources.len(), 3);
    assert!(matches!(&sources[0], CaptureSource::Display(display) if display.name == "a"));
    assert!(matches!(&sources[1], CaptureSource::Window(window) if window.title == "Notes"));
    match &sources[2] {
        CaptureSource::SystemAudio(audio) => {
            assert_eq!(audio.id, SourceId::new("audio:system-mix"));
            assert_eq!(audio.name, "System audio (WASAPI loopback)");
            assert!(audio.is_default);
        }
        other => panic!("unexpected source: {other:?}"),
    }
    assert_eq!(enumerate_all(Vec::new(), Vec::new()).len(), 1);
    assert!(enumerate_sources(
        TargetOs::Windows,
        Ok(Vec::new()),
        Err(PinrayError::BackendNotSelected)
    )
    .is_err());
    assert_eq!(
        enumerate_sources(
            TargetOs::Linux,
            Err(PinrayError::BackendNotSelected),
            Ok(Vec::new())
        )
        .unwrap()
        .len(),
        0
    );
}

// Backend selection.

fn display_session(preference: BackendPreference) -> SessionConfig {
    SessionConfig {
        backend_preference: preference,
        video_target: Some(VideoCaptureTarget::Display(SourceId::new("auto"))),
        ..SessionConfig::default()
    }
}

fn window_session(preference: BackendPreference, id: &str) -> SessionConfig {
    SessionConfig {
        backend_preference: preference,
        video_target: Some(VideoCaptureTarget::Window(SourceId::new(id))),
        ..SessionConfig::default()
    }
}

fn plan(config: &SessionConfig) -> VideoPlan {
    try_resolve(TargetOs::Windows, config).unwrap().unwrap()
}

fn refused(config: &SessionConfig) -> String {
    try_resolve(TargetOs::Windows, config).unwrap_err().message()
}

#[test]
fn auto_duplicates_displays_and_falls_back_to_wgc() {
    assert_eq!(
        plan(&display_session(BackendPreference::Auto)),
        VideoPlan::DuplicateDisplay { or_wgc: true }
    );
    assert_eq!(
        plan(&window_session(BackendPreference::Auto, "window:77")),
        VideoPlan::CaptureWindow { handle: 77 }
    );
    let audio_alone = SessionConfig {
        audio_capture: Some(AudioCapture::SystemMix),
        ..SessionConfig::default()
    };
    assert_eq!(plan(&audio_alone), VideoPlan::Nothing);
}

#[test]
fn explicit_windows_backends_are_honored() {
    assert_eq!(
        plan(&display_session(BackendPreference::WindowsDxgi)),
        VideoPlan::DuplicateDisplay { or_wgc: false }
    );
    assert_eq!(
        plan(&display_session(BackendPreference::WindowsWgc)),
        VideoPlan::CaptureDisplay
    );
    assert_eq!(
        plan(&window_session(BackendPreference::WindowsWgc, "window:5")),
        VideoPlan::CaptureWindow { handle: 5 }
    );
    assert_eq!(
        refused(&window_session(BackendPreference::WindowsDxgi, "window:5")),
        "operation not supported: DXGI desktop duplication cannot capture a single window; use WindowsWgc or Auto"
    );
}

#[test]
fn sessions_of_other_platforms_are_passed_on() {
    assert_eq!(
        try_resolve(
            TargetOs::Windows,
            &display_session(BackendPreference::LinuxX11)
        )
        .unwrap(),
        None
    );
    assert_eq!(
        try_resolve(TargetOs::Linux, &display_session(BackendPreference::Auto)).unwrap(),
        None
    );
}

#[test]
fn unusable_windows_sessions_are_refused() {
    let mut config = window_session(BackendPreference::Auto, "door:5");
    assert_eq!(
        refused(&config),
        "invalid session configuration: invalid window source id: door:5"
    );
    config.crop_rect = Some(Rect {
        x: 0,
        y: -1,
        width: 1,
        height: 1,
    });
    assert_eq!(
        refused(&config),
        "invalid session configuration: crop_rect x and y must be non-negative on windows backends"
    );
    config.pixel_format = PixelFormat::Nv12;
    assert_eq!(
        refused(&config),
        "operation not supported: windows backends support Bgra8888 and Rgba8888 only, got Nv12"
    );
}

#[test]
fn windows_has_no_microphone() {
    let mut config = SessionConfig::default();
    assert!(!resolve_audio(&config).unwrap());
    config.audio_capture = Some(AudioCapture::SystemMix);
    assert!(resolve_audio(&config).unwrap());
    config.audio_capture = Some(AudioCapture::Microphone(SourceId::new("mic")));
    assert_eq!(
        resolve_audio(&config).unwrap_err().message(),
        "operation not supported: microphone capture is not implemented on windows yet"
    );
}

#[test]
fn sessions_without_video_need_the_system_mix() {
    let mut config = SessionConfig::default();
    assert_eq!(
        refused(&config),
        "invalid session configuration: at least one of video_target or audio_capture must be set"
    );
    config.audio_capture = Some(AudioCapture::Microphone(SourceId::new("mic")));
    assert_eq!(
        refused(&config),
        "operation not supported: microphone capture is not implemented on windows yet"
    );
    // With a video target, the video is settled first.
    config.video_target = Some(VideoCaptureTarget::Window(SourceId::new("window:5")));
    assert_eq!(plan(&config), VideoPlan::CaptureWindow { handle: 5 });
}

struct Loopback;

impl AudioBackend for Loopback {
    fn info(&self) -> BackendInfo {
        BackendInfo {
            kind: BackendKind::WindowsWasapi,
            supports_audio: true,
            zero_copy: false,
            notes: "mock",
        }
    }
    fn start(&mut self) -> Result<(), PinrayError> {
        Ok(())
    }
    fn stop(&mut self) -> Result<(), PinrayError> {
        Ok(())
    }
    fn next_audio(&mut self, timeout: Option<Duration>) -> Result<AudioFrame, PinrayError> {
        Err(PinrayError::Timeout(timeout.unwrap_or_default()))
    }
}

struct Screen;

impl VideoBackend for Screen {
    fn info(&self) -> BackendInfo {
        DxgiStream::backend_info()
    }
    fn restore_token(&self) -> Option<String> {
        None
    }
    fn start(&mut self) -> Result<(), PinrayError> {
        Ok(())
    }
    fn stop(&mut self) -> Result<(), PinrayError> {
        Ok(())
    }
    fn next_event(&mut self, timeout: Option<Duration>) -> Result<CaptureEvent, PinrayError> {
        Err(PinrayError::Timeout(timeout.unwrap_or_default()))
    }
}

fn completed(
    config: &SessionConfig,
    video: Result<Option<Box<dyn VideoBackend>>, PinrayError>,
) -> Result<BackendBundle, PinrayError> {
    complete(config, video, Box::new(Loopback))
}

#[test]
fn sessions_are_completed_with_the_audio_they_want() {
    let mut config = display_session(BackendPreference::Auto);
    let bundle = completed(&config, Ok(Some(Box::new(Screen)))).unwrap();
    assert!(bundle.audio.is_none() && !bundle.info.supports_audio);
    assert_eq!(bundle.info.kind, BackendKind::WindowsDxgi);

    config.audio_capture = Some(AudioCapture::SystemMix);
    let bundle = completed(&config, Ok(Some(Box::new(Screen)))).unwrap();
    assert!(bundle.audio.is_some() && bundle.info.supports_audio);
    assert_eq!(bundle.info.kind, BackendKind::WindowsDxgi);
    let bundle = completed(&config, Ok(None)).unwrap();
    assert!(bundle.video.is_none() && bundle.audio.is_some());
    assert_eq!(bundle.info.kind, BackendKind::WindowsWasapi);

    // What is wrong with the video goes first.
    config.audio_capture = Some(AudioCapture::Microphone(SourceId::new("mic")));
    let error = completed(&config, Err(PinrayError::Platform("no output".to_string())));
    assert_eq!(error.err().unwrap().message(), "platform error: no output");
    assert_eq!(
        completed(&config, Ok(Some(Box::new(Screen)))).err().unwrap().message(),
        "operation not supported: microphone capture is not implemented on windows yet"
    );
    config.audio_capture = None;
    assert!(matches!(completed(&config, Ok(None)), Err(PinrayError::InvalidConfig(_))));
}

#[test]
fn windows_backends_are_listed() {
    let kinds: Vec<BackendKind> = available_backends(TargetOs::Windows)
        .iter()
        .map(|backend| backend.kind)
        .collect();
    assert_eq!(
        kinds,
        vec![
            BackendKind::WindowsDxgi,
            BackendKind::WindowsWgc,
            BackendKind::WindowsWasapi
        ]
    );
    assert!(available_backends(TargetOs::MacOs).is_empty());
}

#[test]
fn a_duplication_that_fails_may_be_replaced() {
    let denied = || -> Result<u8, PinrayError> { Err(PinrayError::Platform("denied".to_string())) };
    match after_duplication(true, denied()) {
        AfterDuplication::TryWgc(error) => assert_eq!(error.message(), "platform error: denied"),
        other => panic!("unexpected step: {other:?}"),
    }
    match after_duplication(false, denied()) {
        AfterDuplication::GiveUp(error) => assert_eq!(error.message(), "platform error: denied"),
        other => panic!("unexpected step: {other:?}"),
    }
    assert!(matches!(after_duplication(true, Ok(7)), AfterDuplication::Keep(7)));
    assert!(matches!(after_duplication(false, Ok(7)), AfterDuplication::Keep(7)));
}
