//! PipeWire system-audio capture (sink monitor).
//!
//! A native capture stream on the default output's monitor gives the system
//! mix. No portal round-trip is needed for audio. The worker thread pushes
//! packets into a bounded queue that the consumer reads from.
use std::time::Duration;

use vstd::prelude::*;

use crate::audio::{AudioData, AudioFrame, SampleFormat};
use crate::backend::{BackendInfo, BackendKind};
use crate::channel::{delivered, Delivery};
use crate::config::AudioCapture;
use crate::error::{PinrayError, Result};
use crate::platform_linux::runtime::{
    adopt_format, chunk, posted, ControlMessage, MediaKind, ParamChange, RuntimeState,
};
use crate::queue::BoundedQueue;

verus! {

/// Cap on frames buffered while the consumer is not draining; oldest packets
/// are dropped first (~10 ms of audio each).
pub const MAX_QUEUED_FRAMES: usize = 512;

/// PipeWire system audio, as it describes itself.
pub open spec fn pipewire_audio_backend() -> BackendInfo {
    BackendInfo {
        kind: BackendKind::LinuxPipeWireAudio,
        supports_audio: true,
        zero_copy: false,
        notes: "PipeWire system-mix capture via default sink monitor",
    }
}

pub fn backend_info() -> (info: BackendInfo)
    ensures
        info == pipewire_audio_backend(),
{
    BackendInfo {
        kind: BackendKind::LinuxPipeWireAudio,
        supports_audio: true,
        zero_copy: false,
        notes: "PipeWire system-mix capture via default sink monitor",
    }
}

/// Whether a session wants the system's audio.
pub fn resolve_system_audio(audio_capture: &Option<AudioCapture>) -> (reply: Result<bool>)
    ensures
        match *audio_capture {
            Some(AudioCapture::Microphone(_)) => crate::error::is_unsupported(
                reply,
                "linux microphone capture is not implemented yet"@,
            ),
            wanted => reply == Ok::<bool, PinrayError>(wanted is Some),
        },
{
    match audio_capture {
        None => Ok(false),
        Some(AudioCapture::SystemMix) => Ok(true),
        Some(AudioCapture::Microphone(_)) => Err(
            PinrayError::Unsupported("linux microphone capture is not implemented yet".to_owned()),
        ),
    }
}

/// The format that a stream was negotiated to; all zeros before that.
#[derive(Debug, Clone, Copy, PartialEq, Eq, Structural)]
pub struct AudioFormat {
    pub rate: u32,
    pub channels: u32,
}

/// The part of a buffer that holds a packet.
pub struct Packet<'a> {
    /// The mapped buffer, if it is mapped.
    pub buffer: Option<&'a [u8]>,
    pub offset: usize,
    pub size: usize,
}

/// The samples of a packet, where it is one that can be made into a frame: its
/// buffer is mapped and holds them, and the format is known.
pub open spec fn samples(packet: Packet, format: AudioFormat) -> Option<Seq<u8>> {
    match packet.buffer {
        Some(buffer) => if format.rate != 0 && format.channels != 0 {
            crate::platform_linux::runtime::chunk_of(
                buffer@,
                packet.offset as int,
                packet.size as int,
            )
        } else {
            None
        },
        None => None,
    }
}

/// The frame carries the samples of the packet, which are interleaved 32-bit
/// floats.
pub open spec fn carries(
    frame: AudioFrame,
    packet: Packet,
    format: AudioFormat,
    sequence: u64,
    time: i64,
) -> bool {
    &&& frame.stream_time_ns == time
    &&& frame.sequence == sequence
    &&& frame.sample_rate == format.rate
    &&& frame.channels == format.channels % 0x1_0000
    &&& frame.sample_format == SampleFormat::F32
    &&& frame.data matches AudioData::Interleaved(bytes) && Some(bytes@) == samples(packet, format)
}

/// A capture stream of the system's audio, with the packets that the consumer
/// has not read.
pub struct PipeWireAudioStream {
    state: RuntimeState,
    format: AudioFormat,
    queue: BoundedQueue<AudioFrame>,
}

impl PipeWireAudioStream {
    pub closed spec fn runtime(&self) -> RuntimeState {
        self.state
    }

    /// The format that the stream was last negotiated to.
    pub closed spec fn negotiated(&self) -> AudioFormat {
        self.format
    }

    /// The packets that wait for the consumer, oldest first.
    pub closed spec fn unread(&self) -> Seq<AudioFrame> {
        self.queue@
    }

    pub closed spec fn well_formed(&self) -> bool {
        self.queue.well_formed() && self.queue.limit() == MAX_QUEUED_FRAMES
    }

    pub fn new() -> (stream: Self)
        ensures
            stream.well_formed(),
            stream.runtime() == (RuntimeState { active: false, sequence: 0, terminated: false }),
            stream.negotiated() == (AudioFormat { rate: 0, channels: 0 }),
            stream.unread() == Seq::<AudioFrame>::empty(),
    {
        PipeWireAudioStream {
            state: RuntimeState::new(),
            format: AudioFormat { rate: 0, channels: 0 },
            queue: BoundedQueue::new(MAX_QUEUED_FRAMES),
        }
    }

    /// The stream never keeps more than it may.
    pub proof fn unread_is_bounded(&self)
        requires
            self.well_formed(),
        ensures
            self.unread().len() <= MAX_QUEUED_FRAMES,
    {
    }

    pub fn is_active(&self) -> (active: bool)
        ensures
            active == self.runtime().active,
    {
        self.state.active
    }

    pub fn is_terminated(&self) -> (terminated: bool)
        ensures
            terminated == self.runtime().terminated,
    {
        self.state.terminated
    }

    /// The sequence number of the next packet.
    pub fn sequence(&self) -> (sequence: u64)
        ensures
            sequence == self.runtime().sequence,
    {
        self.state.sequence
    }

    /// Heeds a control message.
    pub fn heed(&mut self, message: ControlMessage)
        requires
            old(self).well_formed(),
        ensures
            final(self).well_formed(),
            final(self).unread() == old(self).unread(),
            final(self).negotiated() == old(self).negotiated(),
            final(self).runtime() == match message {
                ControlMessage::Start => RuntimeState { active: true, ..old(self).runtime() },
                ControlMessage::Stop => RuntimeState { active: false, ..old(self).runtime() },
                ControlMessage::Terminate => RuntimeState {
                    terminated: true,
                    ..old(self).runtime()
                },
            },
    {
        self.state.heed(message);
    }

    /// Takes note of a parameter that changed.
    pub fn param_changed(&mut self, change: Option<ParamChange<AudioFormat>>)
        requires
            old(self).well_formed(),
        ensures
            final(self).well_formed(),
            final(self).unread() == old(self).unread(),
            final(self).runtime() == old(self).runtime(),
            final(self).negotiated() == match crate::platform_linux::runtime::adopted(
                change,
                MediaKind::Audio,
            ) {
                Some(format) => format,
                None => old(self).negotiated(),
            },
    {
        if let Some(format) = adopt_format(change, MediaKind::Audio) {
            self.format = format;
        }
    }

    /// Takes a packet off the graph, stamped with the time at which it was
    /// dequeued. What is no packet, and all there is while the stream is not
    /// active, is passed over.
    pub fn receive(&mut self, packet: &Packet, time: i64)
        requires
            old(self).well_formed(),
            old(self).runtime().active && samples(*packet, old(self).negotiated()) is Some ==> old(self).runtime().sequence
                < u64::MAX,
        ensures
            final(self).well_formed(),
            final(self).negotiated() == old(self).negotiated(),
            !old(self).runtime().active || samples(*packet, old(self).negotiated()) is None ==> final(self).runtime()
                == old(self).runtime() && final(self).unread() == old(self).unread(),
            old(self).runtime().active && samples(*packet, old(self).negotiated()) is Some ==> {
                &&& final(self).runtime() == (RuntimeState {
                    sequence: (old(self).runtime().sequence + 1) as u64,
                    ..old(self).runtime()
                })
                &&& exists|frame: AudioFrame|
                    {
                        &&& final(self).unread() == #[trigger] crate::queue::pushed(
                            old(self).unread(),
                            MAX_QUEUED_FRAMES as nat,
                            frame,
                        )
                        &&& carries(
                            frame,
                            *packet,
                            old(self).negotiated(),
                            old(self).runtime().sequence,
                            time,
                        )
                    }
            },
    {
        if !self.state.active {
            return ;
        }
        let buffer: &[u8] = match packet.buffer {
            Some(buffer) => buffer,
            None => {
                return ;
            },
        };
        let data: &[u8] = match chunk(buffer, packet.offset, packet.size) {
            Some(data) => data,
            None => {
                return ;
            },
        };
        if self.format.rate == 0 || self.format.channels == 0 {
            return ;
        }
        let frame: AudioFrame = AudioFrame {
            stream_time_ns: time,
            sequence: self.state.sequence,
            sample_rate: self.format.rate,
            channels: (self.format.channels % 0x1_0000) as u16,
            sample_format: SampleFormat::F32,
            data: AudioData::Interleaved(vstd::slice::slice_to_vec(data)),
        };
        assert(carries(frame, *packet, self.format, self.state.sequence, time));
        self.state.sequence += 1;
        self.queue.push(frame);
        assert(self.unread() == crate::queue::pushed(
            old(self).unread(),
            MAX_QUEUED_FRAMES as nat,
            frame,
        ));
    }

    /// Hands the consumer the oldest packet that it has not read.
    pub fn take(&mut self) -> (frame: Option<AudioFrame>)
        requires
            old(self).well_formed(),
        ensures
            final(self).well_formed(),
            final(self).runtime() == old(self).runtime(),
            final(self).negotiated() == old(self).negotiated(),
            frame is Some <==> old(self).unread().len() > 0,
            frame matches Some(oldest) ==> {
                &&& oldest == old(self).unread()[0]
                &&& final(self).unread() == old(self).unread().subrange(
                    1,
                    old(self).unread().len() as int,
                )
            },
            frame is None ==> final(self).unread() == old(self).unread(),
    {
        self.queue.pop()
    }
}

/// What starting or stopping comes to; `taken` says whether the worker was
/// there to take the message.
pub fn control(taken: bool) -> (reply: Result<()>)
    ensures
        reply is Ok <==> taken,
        !taken ==> crate::error::is_platform(reply, "pipewire audio worker is not available"@),
{
    posted(taken, "pipewire audio worker is not available")
}

/// The answer to a consumer of audio.
pub fn next_audio(delivery: Delivery<AudioFrame>, timeout: Option<Duration>) -> (reply: Result<
    AudioFrame,
>)
    requires
        delivery is TimedOut ==> timeout is Some,
    ensures
        match delivery {
            Delivery::Received(frame) => reply == Ok::<AudioFrame, PinrayError>(frame),
            Delivery::TimedOut => reply == Err::<AudioFrame, PinrayError>(
                PinrayError::Timeout(timeout->0),
            ),
            Delivery::Disconnected => crate::error::is_platform(
                reply,
                "pipewire audio channel disconnected"@,
            ),
        },
{
    delivered(delivery, timeout, "pipewire audio channel disconnected")
}

/// A packet that holds samples joins the unread ones at the end, where it is not
/// too long: its bytes are those of its part of the buffer. It tells the time
/// that it is given, the next number, and the rate and channels that were
/// negotiated. The oldest packet makes room where there is none.
pub proof fn packets_hold_their_part_of_the_buffer(
    stream: &mut PipeWireAudioStream,
    packet: &Packet,
    buffer: &[u8],
    time: i64,
)
    requires
        call_ensures(PipeWireAudioStream::receive, (stream, packet, time), ()),
        old(stream).well_formed(),
        old(stream).runtime().active,
        old(stream).runtime().sequence < u64::MAX,
        packet.buffer == Some(buffer),
        packet.offset + packet.size <= buffer@.len(),
        old(stream).negotiated().rate > 0,
        old(stream).negotiated().channels > 0,
    ensures
        ({
            let before = old(stream).unread();
            let after = final(stream).unread();
            let newest = after.last();
            &&& after.len() > 0
            &&& newest.stream_time_ns == time
            &&& newest.sequence == old(stream).runtime().sequence
            &&& newest.sample_rate == old(stream).negotiated().rate
            &&& newest.channels == old(stream).negotiated().channels % 0x1_0000
            &&& newest.sample_format == SampleFormat::F32
            &&& newest.data matches AudioData::Interleaved(bytes) && {
                &&& bytes@.len() == packet.size
                &&& forall|i: int|
                    0 <= i < packet.size ==> #[trigger] bytes@[i] == buffer@[packet.offset + i]
            }
            &&& before.len() < 512 ==> after.len() == before.len() + 1 && forall|i: int|
                0 <= i < before.len() ==> #[trigger] after[i] == before[i]
            &&& before.len() == 512 ==> after.len() == 512 && forall|i: int|
                0 <= i < 511 ==> #[trigger] after[i] == before[i + 1]
        }),
        final(stream).runtime().sequence == old(stream).runtime().sequence + 1,
        final(stream).runtime().active,
        final(stream).runtime().terminated == old(stream).runtime().terminated,
        final(stream).negotiated() == old(stream).negotiated(),
        final(stream).well_formed(),
{
    old(stream).unread_is_bounded();
    let frame = choose|frame: AudioFrame|
        {
            &&& final(stream).unread() == #[trigger] crate::queue::pushed(
                old(stream).unread(),
                MAX_QUEUED_FRAMES as nat,
                frame,
            )
            &&& carries(
                frame,
                *packet,
                old(stream).negotiated(),
                old(stream).runtime().sequence,
                time,
            )
        };
    assert(final(stream).unread() == crate::queue::pushed(
        old(stream).unread(),
        MAX_QUEUED_FRAMES as nat,
        frame,
    ));
    assert(final(stream).unread().last() == frame);
}

/// Nothing is received by a stream that is not active, before the format is
/// known, or from a buffer that is not mapped or too short.
pub proof fn what_is_no_packet_is_passed_over(
    stream: &mut PipeWireAudioStream,
    packet: &Packet,
    time: i64,
)
    requires
        call_ensures(PipeWireAudioStream::receive, (stream, packet, time), ()),
        !old(stream).runtime().active || old(stream).negotiated().rate == 0 || old(
            stream,
        ).negotiated().channels == 0 || packet.buffer is None || (packet.buffer matches Some(bytes)
            && packet.offset + packet.size > bytes@.len()),
    ensures
        final(stream).unread() == old(stream).unread(),
        final(stream).runtime() == old(stream).runtime(),
        final(stream).negotiated() == old(stream).negotiated(),
{
}

/// The consumer is handed every packet, the oldest first.
pub proof fn the_oldest_packet_is_handed_out(
    stream: &mut PipeWireAudioStream,
    frame: Option<AudioFrame>,
)
    requires
        call_ensures(PipeWireAudioStream::take, (stream,), frame),
    ensures
        frame is None <==> old(stream).unread().len() == 0,
        frame is None ==> final(stream).unread().len() == 0,
        frame matches Some(oldest) ==> old(stream).unread() == seq![oldest] + final(stream).unread(),
        final(stream).runtime() == old(stream).runtime(),
        final(stream).negotiated() == old(stream).negotiated(),
{
    if let Some(oldest) = frame {
        assert(old(stream).unread() =~= seq![oldest] + final(stream).unread());
    }
}

/// A stream is active after it was told to start and until it is told to stop,
/// and ends when it is told to. Nothing that waits is lost over it.
pub proof fn streams_do_as_they_are_told(stream: &mut PipeWireAudioStream, message: ControlMessage)
    requires
        call_ensures(PipeWireAudioStream::heed, (stream, message), ()),
    ensures
        final(stream).runtime().active == (message == ControlMessage::Start || message
            == ControlMessage::Terminate && old(stream).runtime().active),
        final(stream).runtime().terminated == (message == ControlMessage::Terminate || old(
            stream,
        ).runtime().terminated),
        final(stream).runtime().sequence == old(stream).runtime().sequence,
        final(stream).unread() == old(stream).unread(),
        final(stream).negotiated() == old(stream).negotiated(),
{
}

/// A raw audio format that could be read is adopted, and nothing else.
pub proof fn only_raw_audio_formats_are_adopted(
    stream: &mut PipeWireAudioStream,
    change: Option<ParamChange<AudioFormat>>,
)
    requires
        call_ensures(PipeWireAudioStream::param_changed, (stream, change), ()),
    ensures
        (change matches Some(param) && param.is_format && param.is_raw && param.media == Some(
            MediaKind::Audio,
        ) && (param.format matches Some(format) && final(stream).negotiated() == format)) || (
        final(stream).negotiated() == old(stream).negotiated() && !(change matches Some(param)
            && param.is_format && param.is_raw && param.media == Some(MediaKind::Audio)
            && param.format is Some)),
        final(stream).runtime() == old(stream).runtime(),
        final(stream).unread() == old(stream).unread(),
{
}

/// A new stream is silent: not active, not negotiated, with nothing to read.
pub proof fn new_streams_are_silent(
    stream: PipeWireAudioStream,
    active: bool,
    terminated: bool,
    sequence: u64,
)
    requires
        call_ensures(PipeWireAudioStream::new, (), stream),
        call_ensures(PipeWireAudioStream::is_active, (&stream,), active),
        call_ensures(PipeWireAudioStream::is_terminated, (&stream,), terminated),
        call_ensures(PipeWireAudioStream::sequence, (&stream,), sequence),
    ensures
        !active,
        !terminated,
        sequence == 0,
        stream.unread().len() == 0,
        stream.negotiated().rate == 0,
        stream.negotiated().channels == 0,
{
}

/// A consumer is handed the packet that arrived, told its own timeout if none
/// did, and told of a worker that is gone.
pub proof fn consumers_are_told_what_arrived(
    frame: AudioFrame,
    limit: Duration,
    timeout: Option<Duration>,
    received: Result<AudioFrame>,
    late: Result<AudioFrame>,
    gone: Result<AudioFrame>,
)
    requires
        call_ensures(next_audio, (Delivery::Received(frame), timeout), received),
        call_ensures(next_audio, (Delivery::TimedOut, Some(limit)), late),
        call_ensures(next_audio, (Delivery::Disconnected, timeout), gone),
    ensures
        received == Ok::<AudioFrame, PinrayError>(frame),
        late == Err::<AudioFrame, PinrayError>(PinrayError::Timeout(limit)),
        gone matches Err(PinrayError::Platform(message)) && message@
            == "pipewire audio channel disconnected"@,
{
}

/// The system's audio is captured exactly for those who ask for it.
pub proof fn only_the_system_mix_is_captured(
    audio_capture: &Option<AudioCapture>,
    reply: Result<bool>,
)
    requires
        call_ensures(resolve_system_audio, (audio_capture,), reply),
    ensures
        reply == Ok::<bool, PinrayError>(true) <==> *audio_capture == Some(AudioCapture::SystemMix),
        reply == Ok::<bool, PinrayError>(false) <==> *audio_capture is None,
        reply is Err <==> (*audio_capture matches Some(AudioCapture::Microphone(_))),
        reply matches Err(problem) ==> problem is Unsupported,
{
}

/// What the backend says of itself.
pub proof fn the_backend_has_audio(info: BackendInfo)
    requires
        call_ensures(backend_info, (), info),
    ensures
        info.kind == BackendKind::LinuxPipeWireAudio,
        info.supports_audio,
        !info.zero_copy,
        info.notes@
            == "PipeWire system-mix capture via default sink monitor"@,
{
}

/// Every refusal tells why, and a message that was taken is no failure.
pub proof fn refusals_tell_why(
    audio_capture: &Option<AudioCapture>,
    reply: Result<bool>,
    taken: bool,
    posted: Result<()>,
)
    requires
        call_ensures(resolve_system_audio, (audio_capture,), reply),
        call_ensures(control, (taken,), posted),
    ensures
        reply matches Err(PinrayError::Unsupported(message)) ==> message@
            == "linux microphone capture is not implemented yet"@,
        posted is Ok <==> taken,
        posted matches Err(problem) ==> (problem matches PinrayError::Platform(message) && message@
            == "pipewire audio worker is not available"@),
{
}

} // verus!
