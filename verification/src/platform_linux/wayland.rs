//! Wayland video: the portal's stream, negotiated and dequeued, as frames.
//!
//! The portal negotiates permission and names a PipeWire node; a worker thread
//! runs the PipeWire loop and hands every buffer to [`WaylandStream`]. Restore
//! tokens let repeat sessions skip the permission dialog.
use std::time::Duration;

use vstd::prelude::*;

use crate::backend::{BackendInfo, BackendKind};
use crate::channel::{delivered, Delivery};
use crate::config::{CursorMode, SessionConfig};
use crate::error::{PinrayError, Result};
use crate::frame::{CaptureEvent, ColorSpace, FrameData, PixelFormat, VideoFrame};
use crate::platform_linux::format::{normalize_frame, VideoFormat, VideoSize};
use crate::platform_linux::portal::ScreenCastStream;
use crate::platform_linux::{resolve_backend, LinuxPlan, VideoOrigin};
use crate::platform_linux::runtime::{
    adopt_format, chunk, posted, ControlMessage, MediaKind, ParamChange, RuntimeState,
};
use crate::queue::{FrameQueue, FrameQueueView};
use crate::text::eq_ignore_ascii_case;

verus! {

/// The environment is that of a Wayland session: the session's type says so,
/// in whatever case, or there is a Wayland display.
pub open spec fn is_wayland(session_type: Option<Seq<char>>, has_wayland_display: bool) -> bool {
    has_wayland_display || (session_type matches Some(kind) && crate::text::same_but_for_case(
        kind,
        "wayland"@,
    ))
}

/// Returns `true` if the current session is a Wayland session, given the value
/// of `XDG_SESSION_TYPE` and whether `WAYLAND_DISPLAY` is set.
pub fn is_wayland_session(session_type: Option<&str>, has_wayland_display: bool) -> (wayland: bool)
    ensures
        wayland == is_wayland(
            match session_type {
                Some(kind) => Some(kind@),
                None => None,
            },
            has_wayland_display,
        ),
{
    let by_type: bool = match session_type {
        Some(kind) => eq_ignore_ascii_case(kind, "wayland"),
        None => false,
    };
    by_type || has_wayland_display
}

/// Plans a session whose video, if it has any, comes from the portal.
pub fn resolve_wayland_backend(config: &SessionConfig) -> (reply: Result<LinuxPlan>)
    ensures
        crate::platform_linux::is_planned(reply, *config, VideoOrigin::Portal),
{
    resolve_backend(config, VideoOrigin::Portal)
}

/// Wayland video, as a session's backend describes itself.
pub open spec fn wayland_backend() -> BackendInfo {
    BackendInfo {
        kind: BackendKind::LinuxWaylandPortal,
        supports_audio: false,
        zero_copy: false,
        notes: "Wayland video via XDG Desktop Portal + PipeWire",
    }
}

pub fn backend_info() -> (info: BackendInfo)
    ensures
        info == wayland_backend(),
{
    BackendInfo {
        kind: BackendKind::LinuxWaylandPortal,
        supports_audio: false,
        zero_copy: false,
        notes: "Wayland video via XDG Desktop Portal + PipeWire",
    }
}

/// The portal is to draw the cursor into the stream.
pub fn include_cursor(config: &SessionConfig) -> (embedded: bool)
    ensures
        embedded == (config.cursor_mode == CursorMode::Embedded),
{
    config.cursor_mode == CursorMode::Embedded
}

/// What the worker thread connects to, and what it asks for.
#[derive(Debug, Clone, Copy, PartialEq, Eq)]
pub struct StreamSetup {
    pub node_id: u32,
    pub size: Option<VideoSize>,
    pub desired_format: PixelFormat,
    pub frame_rate: u32,
    /// Frames that are buffered for the consumer before any is dropped.
    pub queue_depth: usize,
}

/// The setup for a stream: its size is known only if both sides of it are,
/// and 60 frames a second are asked for unless the rate is set.
pub open spec fn setup_of(config: SessionConfig, stream: ScreenCastStream) -> StreamSetup {
    StreamSetup {
        node_id: stream.node_id,
        size: match (stream.width, stream.height) {
            (Some(width), Some(height)) => Some(VideoSize { width, height }),
            _ => None,
        },
        desired_format: config.pixel_format,
        frame_rate: match config.frame_rate {
            Some(rate) => rate,
            None => 60,
        },
        queue_depth: config.queue_depth as usize,
    }
}

/// Sets the capture of the portal's first stream up.
pub fn stream_setup(config: &SessionConfig, streams: &Vec<ScreenCastStream>) -> (reply: Result<
    StreamSetup,
>)
    ensures
        streams@.len() == 0 ==> crate::error::is_platform(
            reply,
            "portal returned no screencast stream"@,
        ),
        streams@.len() > 0 ==> reply == Ok::<StreamSetup, PinrayError>(
            setup_of(*config, streams@[0]),
        ),
{
    if streams.len() == 0 {
        return Err(PinrayError::Platform("portal returned no screencast stream".to_owned()));
    }
    let stream: ScreenCastStream = streams[0];
    Ok(
        StreamSetup {
            node_id: stream.node_id,
            size: match (stream.width, stream.height) {
                (Some(width), Some(height)) => Some(VideoSize { width, height }),
                _ => None,
            },
            desired_format: config.pixel_format,
            frame_rate: match config.frame_rate {
                Some(rate) => rate,
                None => 60,
            },
            queue_depth: config.queue_depth as usize,
        },
    )
}

/// The format that a stream was negotiated to.
#[derive(Debug, Clone, Copy, PartialEq, Eq, Structural)]
pub struct NegotiatedVideo {
    pub format: VideoFormat,
    pub size: VideoSize,
}

/// A dequeued buffer.
pub struct VideoBuffer<'a> {
    /// The mapped buffer, if it is mapped.
    pub buffer: Option<&'a [u8]>,
    pub offset: usize,
    pub size: usize,
    pub stride: i32,
}

/// The pixels in a buffer, if it is mapped and holds them.
pub open spec fn pixels_of(buffer: VideoBuffer) -> Option<Seq<u8>> {
    match buffer.buffer {
        Some(bytes) => crate::platform_linux::runtime::chunk_of(
            bytes@,
            buffer.offset as int,
            buffer.size as int,
        ),
        None => None,
    }
}

/// A video stream of the portal.
#[derive(Debug)]
pub struct WaylandStream {
    pub state: RuntimeState,
    pub desired_format: PixelFormat,
    /// What the stream was last negotiated to; an unknown layout without a size
    /// before that.
    pub negotiated: NegotiatedVideo,
    /// What the consumer has not taken yet.
    pub queue: FrameQueue<VideoFrame>,
}

/// The frame that a stream makes of a buffer that holds pixels.
pub open spec fn is_made_of(
    frame: VideoFrame,
    stream: &WaylandStream,
    buffer: VideoBuffer,
    time: i64,
) -> bool {
    &&& frame.stream_time_ns == time
    &&& frame.sequence == stream.state.sequence
    &&& frame.width == stream.negotiated.size.width
    &&& frame.height == stream.negotiated.size.height
    &&& frame.stride == crate::numbers::larger(buffer.stride as int, 0)
    &&& frame.pixel_format == crate::platform_linux::format::delivered_format(
        stream.negotiated.format,
        stream.desired_format,
    )
    &&& frame.color_space == Some(ColorSpace::Srgb)
    &&& frame.damage is None
    &&& frame.data matches FrameData::Host(bytes) && bytes@
        == crate::platform_linux::format::delivered_bytes(
        stream.negotiated.format,
        pixels_of(buffer)->0,
        stream.desired_format,
    )
}

impl WaylandStream {
    pub fn new(desired_format: PixelFormat, queue_depth: usize) -> (stream: Self)
        ensures
            stream == (WaylandStream {
                state: RuntimeState { active: false, sequence: 0, terminated: false },
                desired_format,
                negotiated: NegotiatedVideo {
                    format: VideoFormat::Other,
                    size: VideoSize { width: 0, height: 0 },
                },
                queue: stream.queue,
            }),
            stream.queue@ == (FrameQueueView {
                items: Seq::<VideoFrame>::empty(),
                limit: queue_depth as nat,
                dropped: 0,
            }),
    {
        WaylandStream {
            state: RuntimeState::new(),
            desired_format,
            negotiated: NegotiatedVideo {
                format: VideoFormat::Other,
                size: VideoSize { width: 0, height: 0 },
            },
            queue: FrameQueue::new(queue_depth),
        }
    }

    /// Takes note of a parameter that changed.
    pub fn param_changed(&mut self, change: Option<ParamChange<NegotiatedVideo>>)
        ensures
            *final(self) == (WaylandStream {
                negotiated: match crate::platform_linux::runtime::adopted(
                    change,
                    MediaKind::Video,
                ) {
                    Some(negotiated) => negotiated,
                    None => old(self).negotiated,
                },
                ..*old(self)
            }),
    {
        if let Some(negotiated) = adopt_format(change, MediaKind::Video) {
            self.negotiated = negotiated;
        }
    }

    /// Heeds a control message.
    pub fn heed(&mut self, message: ControlMessage)
        ensures
            *final(self) == (WaylandStream {
                state: match message {
                    ControlMessage::Start => RuntimeState { active: true, ..old(self).state },
                    ControlMessage::Stop => RuntimeState { active: false, ..old(self).state },
                    ControlMessage::Terminate => RuntimeState {
                        terminated: true,
                        ..old(self).state
                    },
                },
                ..*old(self)
            }),
    {
        self.state.heed(message);
    }

    /// Makes a buffer into a frame, stamped with the time at which it was
    /// dequeued, and queues it; it is lost where there is no room for it. A
    /// buffer without pixels, and every buffer while the stream is not active,
    /// is passed over.
    pub fn receive(&mut self, buffer: &VideoBuffer, time: i64)
        requires
            old(self).state.active && pixels_of(*buffer) is Some ==> old(self).state.sequence
                < u64::MAX,
        ensures
            !old(self).state.active || pixels_of(*buffer) is None ==> *final(self) == *old(
                self,
            ),
            old(self).state.active && pixels_of(*buffer) is Some ==> {
                &&& *final(self) == (WaylandStream {
                    state: RuntimeState {
                        sequence: (old(self).state.sequence + 1) as u64,
                        ..old(self).state
                    },
                    queue: final(self).queue,
                    ..*old(self)
                })
                &&& exists|frame: VideoFrame|
                    {
                        &&& final(self).queue@ == #[trigger] old(self).queue@.offered(frame)
                        &&& is_made_of(frame, old(self), *buffer, time)
                    }
            },
    {
        if !self.state.active {
            return ;
        }
        let mapped: &[u8] = match buffer.buffer {
            Some(mapped) => mapped,
            None => {
                return ;
            },
        };
        let raw: &[u8] = match chunk(mapped, buffer.offset, buffer.size) {
            Some(raw) => raw,
            None => {
                return ;
            },
        };
        let (pixel_format, bytes) = normalize_frame(
            self.negotiated.format,
            raw,
            self.desired_format,
        );
        let frame: VideoFrame = VideoFrame {
            stream_time_ns: time,
            sequence: self.state.sequence,
            width: self.negotiated.size.width,
            height: self.negotiated.size.height,
            stride: if buffer.stride >= 0 {
                buffer.stride as u32
            } else {
                0
            },
            pixel_format,
            color_space: Some(ColorSpace::Srgb),
            data: FrameData::Host(bytes),
            damage: None,
        };
        assert(is_made_of(frame, old(self), *buffer, time));
        self.state.sequence += 1;
        self.queue.offer(frame);
        assert(self.queue@ == old(self).queue@.offered(frame));
    }

    /// What a consumer is told before it waits for a frame: the losses since it
    /// was last told. `None` lets it wait.
    pub fn before_waiting(&mut self) -> (gap: Option<CaptureEvent>)
        ensures
            *final(self) == (WaylandStream { queue: final(self).queue, ..*old(self) }),
            final(self).queue@ == old(self).queue@.reported(),
            gap == old(self).queue@.gap(),
    {
        self.queue.report()
    }

    /// Hands the consumer the oldest frame that it has not taken.
    pub fn take(&mut self) -> (frame: Option<VideoFrame>)
        ensures
            *final(self) == (WaylandStream { queue: final(self).queue, ..*old(self) }),
            frame is Some <==> old(self).queue@.items.len() > 0,
            frame matches Some(oldest) ==> oldest == old(self).queue@.items[0] && final(self).queue@
                == old(self).queue@.without_oldest(),
            frame is None ==> final(self).queue@ == old(self).queue@,
    {
        self.queue.take()
    }
}

/// What starting or stopping comes to; `taken` says whether the worker was
/// there to take the message.
pub fn control(taken: bool) -> (reply: Result<()>)
    ensures
        reply is Ok <==> taken,
        !taken ==> crate::error::is_platform(reply, "wayland capture worker is not available"@),
{
    posted(taken, "wayland capture worker is not available")
}

/// The answer to a consumer that waited for a frame.
pub fn next_event(delivery: Delivery<VideoFrame>, timeout: Option<Duration>) -> (reply: Result<
    CaptureEvent,
>)
    requires
        delivery is TimedOut ==> timeout is Some,
    ensures
        match delivery {
            Delivery::Received(frame) => reply == Ok::<CaptureEvent, PinrayError>(
                CaptureEvent::Video(frame),
            ),
            Delivery::TimedOut => reply == Err::<CaptureEvent, PinrayError>(
                PinrayError::Timeout(timeout->0),
            ),
            Delivery::Disconnected => crate::error::is_platform(
                reply,
                "wayland event channel disconnected"@,
            ),
        },
{
    match delivered(delivery, timeout, "wayland event channel disconnected") {
        Ok(frame) => Ok(CaptureEvent::Video(frame)),
        Err(error) => Err(error),
    }
}

/// A session is a Wayland one if there is a Wayland display, or if its type is
/// `wayland` in whatever case, and for no other reason.
pub proof fn wayland_is_told_by_display_or_type(
    kind: &str,
    display: bool,
    same: bool,
    named: bool,
    unnamed: bool,
)
    requires
        call_ensures(is_wayland_session, (Some(kind), display), named),
        call_ensures(is_wayland_session, (None::<&str>, display), unnamed),
        call_ensures(eq_ignore_ascii_case, (kind, "wayland"), same),
    ensures
        named <==> display || same,
        unnamed <==> display,
        kind@ == "wayland"@ ==> named,
{
}

/// The portal draws the cursor exactly if the configuration has it embedded.
pub proof fn the_portal_draws_embedded_cursors(config: &SessionConfig, embedded: bool)
    requires
        call_ensures(include_cursor, (config,), embedded),
    ensures
        embedded <==> config.cursor_mode == CursorMode::Embedded,
{
}

/// The first stream of the portal is captured: its node, in its own size where
/// both sides of it are known, in the format, the rate (60 unless it is set) and
/// the depth of the configuration. Without a stream nothing is.
pub proof fn the_first_stream_is_captured(
    config: &SessionConfig,
    streams: &Vec<ScreenCastStream>,
    reply: Result<StreamSetup>,
)
    requires
        call_ensures(stream_setup, (config, streams), reply),
    ensures
        reply is Ok <==> streams@.len() > 0,
        reply matches Ok(setup) ==> {
            &&& setup.node_id == streams@[0].node_id
            &&& setup.size matches Some(size) ==> streams@[0].width == Some(size.width)
                && streams@[0].height == Some(size.height)
            &&& setup.size is None <==> streams@[0].width is None || streams@[0].height is None
            &&& setup.desired_format == config.pixel_format
            &&& config.frame_rate matches Some(rate) ==> setup.frame_rate == rate
            &&& config.frame_rate is None ==> setup.frame_rate == 60
            &&& setup.queue_depth == config.queue_depth
        },
{
}

/// A buffer that holds pixels becomes a frame of the negotiated size, with the
/// time that it is given and the next number. The frame joins the others at the
/// end, or is counted as lost where there is no room.
pub proof fn buffers_become_frames(
    stream: &mut WaylandStream,
    buffer: &VideoBuffer,
    mapped: &[u8],
    time: i64,
)
    requires
        call_ensures(WaylandStream::receive, (stream, buffer, time), ()),
        old(stream).state.active,
        old(stream).state.sequence < u64::MAX,
        buffer.buffer == Some(mapped),
        buffer.offset + buffer.size <= mapped@.len(),
    ensures
        final(stream).state.sequence == old(stream).state.sequence + 1,
        final(stream).state.active,
        final(stream).state.terminated == old(stream).state.terminated,
        final(stream).negotiated == old(stream).negotiated,
        final(stream).desired_format == old(stream).desired_format,
        final(stream).queue@.limit == old(stream).queue@.limit,
        ({
            let before = old(stream).queue@;
            let after = final(stream).queue@;
            let newest = after.items.last();
            &&& before.items.len() >= before.limit ==> {
                &&& after.items == before.items
                &&& before.dropped < u32::MAX ==> after.dropped == before.dropped + 1
            }
            &&& before.items.len() < before.limit ==> {
                &&& after.dropped == before.dropped
                &&& after.items.drop_last() == before.items
                &&& after.items.len() == before.items.len() + 1
                &&& newest.stream_time_ns == time
                &&& newest.sequence == old(stream).state.sequence
                &&& newest.width == old(stream).negotiated.size.width
                &&& newest.height == old(stream).negotiated.size.height
                &&& buffer.stride >= 0 ==> newest.stride == buffer.stride
                &&& buffer.stride < 0 ==> newest.stride == 0
                &&& newest.color_space == Some(ColorSpace::Srgb)
                &&& newest.damage is None
                &&& newest.data matches FrameData::Host(bytes) && bytes@.len() == buffer.size
            }
        }),
{
    let frame = choose|frame: VideoFrame|
        {
            &&& final(stream).queue@ == #[trigger] old(stream).queue@.offered(frame)
            &&& is_made_of(frame, old(stream), *buffer, time)
        };
    assert(final(stream).queue@ == old(stream).queue@.offered(frame));
    assert(final(stream).queue@.items.drop_last() =~= old(stream).queue@.items || old(
        stream,
    ).queue@.items.len() >= old(stream).queue@.limit);
}

/// The pixels of a frame are what normalization makes of the buffer's part that
/// holds them, from the negotiated layout to the format that is wanted.
pub proof fn frames_show_their_buffer(
    stream: &mut WaylandStream,
    buffer: &VideoBuffer,
    mapped: &[u8],
    raw: &[u8],
    normalized: (PixelFormat, Vec<u8>),
    time: i64,
)
    requires
        call_ensures(WaylandStream::receive, (stream, buffer, time), ()),
        call_ensures(
            normalize_frame,
            (old(stream).negotiated.format, raw, old(stream).desired_format),
            normalized,
        ),
        old(stream).state.active,
        old(stream).state.sequence < u64::MAX,
        buffer.buffer == Some(mapped),
        buffer.offset + buffer.size <= mapped@.len(),
        raw@ == mapped@.subrange(buffer.offset as int, buffer.offset + buffer.size),
        old(stream).queue@.items.len() < old(stream).queue@.limit,
    ensures
        final(stream).queue@.items.last().pixel_format == normalized.0,
        final(stream).queue@.items.last().data matches FrameData::Host(bytes) && bytes@
            == normalized.1@,
{
    let frame = choose|frame: VideoFrame|
        {
            &&& final(stream).queue@ == #[trigger] old(stream).queue@.offered(frame)
            &&& is_made_of(frame, old(stream), *buffer, time)
        };
    assert(final(stream).queue@ == old(stream).queue@.offered(frame));
    assert(final(stream).queue@.items.last() == frame);
}

/// Nothing becomes of a buffer that is not mapped or too short, nor of any while
/// the stream is not active.
pub proof fn other_buffers_are_passed_over(
    stream: &mut WaylandStream,
    buffer: &VideoBuffer,
    time: i64,
)
    requires
        call_ensures(WaylandStream::receive, (stream, buffer, time), ()),
        !old(stream).state.active || buffer.buffer is None || (buffer.buffer matches Some(bytes)
            && buffer.offset + buffer.size > bytes@.len()),
    ensures
        *final(stream) == *old(stream),
{
}

/// The consumer takes the frames in the order in which they came.
pub proof fn the_oldest_frame_is_taken(stream: &mut WaylandStream, frame: Option<VideoFrame>)
    requires
        call_ensures(WaylandStream::take, (stream,), frame),
    ensures
        frame is None <==> old(stream).queue@.items.len() == 0,
        frame is None ==> final(stream).queue@ == old(stream).queue@,
        frame matches Some(oldest) ==> old(stream).queue@.items == seq![oldest] + final(stream).queue@.items,
        final(stream).queue@.dropped == old(stream).queue@.dropped,
        final(stream).queue@.limit == old(stream).queue@.limit,
        final(stream).state == old(stream).state,
        final(stream).negotiated == old(stream).negotiated,
        final(stream).desired_format == old(stream).desired_format,
{
    if let Some(oldest) = frame {
        assert(old(stream).queue@.items =~= seq![oldest] + final(stream).queue@.items);
    }
}

/// Before it waits, a consumer is told of the frames that were lost since it was
/// last told, and of how many, and then not again.
pub proof fn losses_are_told_before_waiting(stream: &mut WaylandStream, gap: Option<CaptureEvent>)
    requires
        call_ensures(WaylandStream::before_waiting, (stream,), gap),
    ensures
        gap is Some <==> old(stream).queue@.dropped > 0,
        gap matches Some(event) ==> (event matches CaptureEvent::Gap(lost) && lost.dropped_frames
            == Some(old(stream).queue@.dropped)),
        final(stream).queue@.dropped == 0,
        final(stream).queue@.items == old(stream).queue@.items,
        final(stream).queue@.limit == old(stream).queue@.limit,
        final(stream).state == old(stream).state,
        final(stream).negotiated == old(stream).negotiated,
        final(stream).desired_format == old(stream).desired_format,
{
}

/// A raw video format that could be read is adopted, and nothing else.
pub proof fn only_raw_video_formats_are_adopted(
    stream: &mut WaylandStream,
    change: Option<ParamChange<NegotiatedVideo>>,
)
    requires
        call_ensures(WaylandStream::param_changed, (stream, change), ()),
    ensures
        change matches Some(param) && param.is_format && param.is_raw && param.media == Some(
            MediaKind::Video,
        ) && param.format is Some ==> final(stream).negotiated == change->0.format->0,
        !(change matches Some(param) && param.is_format && param.is_raw && param.media == Some(
            MediaKind::Video,
        ) && param.format is Some) ==> final(stream).negotiated == old(stream).negotiated,
        final(stream).state == old(stream).state,
        final(stream).queue == old(stream).queue,
        final(stream).desired_format == old(stream).desired_format,
{
}

/// A stream is active after it was told to start and until it is told to stop,
/// and ends when it is told to. Nothing that waits is lost over it.
pub proof fn streams_do_as_they_are_told(stream: &mut WaylandStream, message: ControlMessage)
    requires
        call_ensures(WaylandStream::heed, (stream, message), ()),
    ensures
        final(stream).state.active == (message == ControlMessage::Start || message
            == ControlMessage::Terminate && old(stream).state.active),
        final(stream).state.terminated == (message == ControlMessage::Terminate || old(
            stream,
        ).state.terminated),
        final(stream).state.sequence == old(stream).state.sequence,
        final(stream).queue == old(stream).queue,
        final(stream).negotiated == old(stream).negotiated,
        final(stream).desired_format == old(stream).desired_format,
{
}

/// A new stream wants the format that it is made for, has room for as many frames
/// as it is made for, and has neither started nor been negotiated.
pub proof fn new_streams_are_empty(
    desired_format: PixelFormat,
    queue_depth: usize,
    stream: WaylandStream,
)
    requires
        call_ensures(WaylandStream::new, (desired_format, queue_depth), stream),
    ensures
        stream.desired_format == desired_format,
        stream.queue@.limit == queue_depth,
        stream.queue@.items.len() == 0,
        stream.queue@.dropped == 0,
        !stream.state.active,
        !stream.state.terminated,
        stream.state.sequence == 0,
        stream.negotiated.format == VideoFormat::Other,
        stream.negotiated.size.width == 0,
        stream.negotiated.size.height == 0,
{
}

/// A consumer is handed the frame that arrived, told its own timeout if none
/// did, and told of a worker that is gone.
pub proof fn consumers_are_told_what_arrived(
    frame: VideoFrame,
    limit: Duration,
    timeout: Option<Duration>,
    received: Result<CaptureEvent>,
    late: Result<CaptureEvent>,
    gone: Result<CaptureEvent>,
)
    requires
        call_ensures(next_event, (Delivery::Received(frame), timeout), received),
        call_ensures(next_event, (Delivery::TimedOut, Some(limit)), late),
        call_ensures(next_event, (Delivery::Disconnected, timeout), gone),
    ensures
        received == Ok::<CaptureEvent, PinrayError>(CaptureEvent::Video(frame)),
        late == Err::<CaptureEvent, PinrayError>(PinrayError::Timeout(limit)),
        gone matches Err(PinrayError::Platform(message)) && message@
            == "wayland event channel disconnected"@,
{
}

/// What the backend says of itself.
pub proof fn the_backend_has_no_audio(info: BackendInfo)
    requires
        call_ensures(backend_info, (), info),
    ensures
        info.kind == BackendKind::LinuxWaylandPortal,
        !info.supports_audio,
        !info.zero_copy,
        info.notes@
            == "Wayland video via XDG Desktop Portal + PipeWire"@,
{
}

/// Every refusal tells why, and a message that was taken is no failure.
pub proof fn refusals_tell_why(
    config: &SessionConfig,
    streams: &Vec<ScreenCastStream>,
    reply: Result<StreamSetup>,
    taken: bool,
    posted: Result<()>,
)
    requires
        call_ensures(stream_setup, (config, streams), reply),
        call_ensures(control, (taken,), posted),
    ensures
        reply matches Err(problem) ==> (problem matches PinrayError::Platform(message) && message@
            == "portal returned no screencast stream"@),
        posted is Ok <==> taken,
        posted matches Err(problem) ==> (problem matches PinrayError::Platform(message) && message@
            == "wayland capture worker is not available"@),
{
}

} // verus!
