//! WASAPI loopback: the mix format of the device, and its packets as frames.
//!
//! A capture thread drains packets of the default render endpoint in a polling
//! loop and pushes them into a bounded queue. If the consumer falls behind, the
//! oldest unread packets are dropped.
use std::time::Duration;

use vstd::prelude::*;
use vstd::string::*;

use crate::audio::{AudioData, AudioFrame, SampleFormat};
use crate::backend::{BackendInfo, BackendKind};
use crate::channel::{delivered, Delivery};
use crate::error::{PinrayError, Result};
use crate::queue::BoundedQueue;
use crate::text::{decimal_text, hex_text, joined};

verus! {

/// How many audio packets (~10 ms each) are buffered before the oldest is
/// dropped.
pub const AUDIO_CHANNEL_CAPACITY: usize = 64;

pub const WAVE_FORMAT_PCM: u16 = 1;

pub const WAVE_FORMAT_IEEE_FLOAT: u16 = 3;

pub const WAVE_FORMAT_EXTENSIBLE: u16 = 65534;

pub const KSDATAFORMAT_SUBTYPE_PCM: u128 = 0x00000001_0000_0010_8000_00aa00389b71;

pub const KSDATAFORMAT_SUBTYPE_IEEE_FLOAT: u128 = 0x00000003_0000_0010_8000_00aa00389b71;

/// The buffer flag of a packet that is to be taken as silence.
pub const AUDCLNT_BUFFERFLAGS_SILENT: u32 = 2;

/// A wave format as the system describes it.
#[derive(Debug, Clone, Copy, PartialEq, Eq, Structural)]
pub struct WaveFormat {
    pub format_tag: u16,
    pub channels: u16,
    pub samples_per_sec: u32,
    pub avg_bytes_per_sec: u32,
    pub block_align: u16,
    pub bits_per_sample: u16,
    /// Size of what follows the common part.
    pub extra_size: u16,
    /// The sub-format that an extensible format carries; of no meaning for the
    /// others.
    pub sub_format: u128,
}

/// What packets of the device look like.
#[derive(Debug, Clone, Copy, PartialEq, Eq, Structural)]
pub struct MixFormat {
    pub sample_rate: u32,
    pub channels: u16,
    /// Bytes of one sample of every channel.
    pub block_align: u16,
    pub sample_format: SampleFormat,
}

/// An identifier in its usual notation: groups of 8, 4, 4, 4 and 12
/// hexadecimal digits.
pub open spec fn guid_text(id: u128) -> Seq<char> {
    crate::text::hex((id / 0x1_0000_0000_0000_0000_0000_0000) as nat, 8) + "-"@ + crate::text::hex(
        (id / 0x1_0000_0000_0000_0000_0000) as nat,
        4,
    ) + "-"@ + crate::text::hex((id / 0x1_0000_0000_0000_0000) as nat, 4) + "-"@
        + crate::text::hex((id / 0x1_0000_0000_0000) as nat, 4) + "-"@ + crate::text::hex(
        id as nat,
        12,
    )
}

fn guid_string(id: u128) -> (text: String)
    ensures
        text@ == guid_text(id),
{
    let mut text: String = hex_text(id / 0x1_0000_0000_0000_0000_0000_0000, 8);
    text.append("-");
    text.append(hex_text(id / 0x1_0000_0000_0000_0000_0000, 4).as_str());
    text.append("-");
    text.append(hex_text(id / 0x1_0000_0000_0000_0000, 4).as_str());
    text.append("-");
    text.append(hex_text(id / 0x1_0000_0000_0000, 4).as_str());
    text.append("-");
    text.append(hex_text(id, 12).as_str());
    text
}

/// What the samples of a format are encoded as: integers or floats.
pub enum Encoding {
    Float,
    Integer,
    UnknownSubFormat,
    UnknownTag,
}

/// The encoding that a format's tag, or for an extensible one its sub-format,
/// stands for.
pub open spec fn encoding(format: WaveFormat) -> Encoding {
    if format.format_tag == WAVE_FORMAT_IEEE_FLOAT {
        Encoding::Float
    } else if format.format_tag == WAVE_FORMAT_PCM {
        Encoding::Integer
    } else if format.format_tag == WAVE_FORMAT_EXTENSIBLE {
        if format.sub_format == KSDATAFORMAT_SUBTYPE_IEEE_FLOAT {
            Encoding::Float
        } else if format.sub_format == KSDATAFORMAT_SUBTYPE_PCM {
            Encoding::Integer
        } else {
            Encoding::UnknownSubFormat
        }
    } else {
        Encoding::UnknownTag
    }
}

/// The sample format, where frames can carry it.
pub open spec fn sample_format(format: WaveFormat) -> Option<SampleFormat> {
    match encoding(format) {
        Encoding::Float => Some(SampleFormat::F32),
        Encoding::Integer => if format.bits_per_sample == 16 {
            Some(SampleFormat::I16)
        } else if format.bits_per_sample == 32 {
            Some(SampleFormat::I32)
        } else {
            None
        },
        _ => None,
    }
}

/// Why a format cannot be carried.
pub open spec fn complaint(format: WaveFormat) -> Seq<char> {
    match encoding(format) {
        Encoding::UnknownSubFormat => "unsupported WASAPI mix sub-format: "@ + guid_text(
            format.sub_format,
        ),
        Encoding::UnknownTag => "unsupported WASAPI mix format tag: "@ + crate::text::decimal(
            format.format_tag as nat,
        ),
        _ => "unsupported PCM bit depth from WASAPI mix format: "@ + crate::text::decimal(
            format.bits_per_sample as nat,
        ),
    }
}

fn int_format(bits: u16) -> (reply: Result<SampleFormat>)
    ensures
        bits == 16 ==> reply == Ok::<SampleFormat, PinrayError>(SampleFormat::I16),
        bits == 32 ==> reply == Ok::<SampleFormat, PinrayError>(SampleFormat::I32),
        bits != 16 && bits != 32 ==> crate::error::is_unsupported(
            reply,
            "unsupported PCM bit depth from WASAPI mix format: "@ + crate::text::decimal(
                bits as nat,
            ),
        ),
{
    if bits == 16 {
        Ok(SampleFormat::I16)
    } else if bits == 32 {
        Ok(SampleFormat::I32)
    } else {
        Err(
            PinrayError::Unsupported(
                joined(
                    "unsupported PCM bit depth from WASAPI mix format: ",
                    decimal_text(bits as u64).as_str(),
                ),
            ),
        )
    }
}

/// Reads the mix format of the device.
pub fn parse_mix_format(format: &WaveFormat) -> (reply: Result<MixFormat>)
    ensures
        reply is Ok <==> sample_format(*format) is Some,
        reply matches Ok(mix) ==> mix == (MixFormat {
            sample_rate: format.samples_per_sec,
            channels: format.channels,
            block_align: format.block_align,
            sample_format: sample_format(*format)->0,
        }),
        reply is Err ==> crate::error::is_unsupported(reply, complaint(*format)),
{
    let tag: u16 = format.format_tag;
    let parsed: Result<SampleFormat> = if tag == WAVE_FORMAT_IEEE_FLOAT {
        Ok(SampleFormat::F32)
    } else if tag == WAVE_FORMAT_PCM {
        int_format(format.bits_per_sample)
    } else if tag == WAVE_FORMAT_EXTENSIBLE {
        if format.sub_format == KSDATAFORMAT_SUBTYPE_IEEE_FLOAT {
            Ok(SampleFormat::F32)
        } else if format.sub_format == KSDATAFORMAT_SUBTYPE_PCM {
            int_format(format.bits_per_sample)
        } else {
            Err(
                PinrayError::Unsupported(
                    joined(
                        "unsupported WASAPI mix sub-format: ",
                        guid_string(format.sub_format).as_str(),
                    ),
                ),
            )
        }
    } else {
        Err(
            PinrayError::Unsupported(
                joined(
                    "unsupported WASAPI mix format tag: ",
                    decimal_text(tag as u64).as_str(),
                ),
            ),
        )
    };
    match parsed {
        Ok(sample_format) => Ok(
            MixFormat {
                sample_rate: format.samples_per_sec,
                channels: format.channels,
                block_align: format.block_align,
                sample_format,
            },
        ),
        Err(error) => Err(error),
    }
}

/// WASAPI loopback, as it describes itself.
pub open spec fn wasapi_backend() -> BackendInfo {
    BackendInfo {
        kind: BackendKind::WindowsWasapi,
        supports_audio: true,
        zero_copy: false,
        notes: "WASAPI shared-mode loopback of the default render endpoint (system mix)",
    }
}

pub fn backend_info() -> (info: BackendInfo)
    ensures
        info == wasapi_backend(),
{
    BackendInfo {
        kind: BackendKind::WindowsWasapi,
        supports_audio: true,
        zero_copy: false,
        notes: "WASAPI shared-mode loopback of the default render endpoint (system mix)",
    }
}

/// The bytes of a packet: silence is filled in with zeros.
pub open spec fn packet_bytes(data: Seq<u8>, byte_count: nat, flags: u32) -> Seq<u8> {
    if flags & AUDCLNT_BUFFERFLAGS_SILENT != 0 {
        Seq::new(byte_count, |i: int| 0u8)
    } else {
        data
    }
}

/// The frame carries `bytes`, captured at `position`, in the format of the
/// device.
pub open spec fn carries(
    frame: AudioFrame,
    mix: MixFormat,
    sequence: u64,
    position: u64,
    bytes: Seq<u8>,
) -> bool {
    &&& frame.stream_time_ns == crate::numbers::wrapped_to_i64(position as int) * 100
    &&& frame.sequence == sequence
    &&& frame.sample_rate == mix.sample_rate
    &&& frame.channels == mix.channels
    &&& frame.sample_format == mix.sample_format
    &&& frame.data matches AudioData::Interleaved(samples) && samples@ == bytes
}

/// A loopback stream that has been initialized, with the packets that the
/// consumer has not read.
pub struct WasapiStream {
    mix: MixFormat,
    sequence: u64,
    queue: BoundedQueue<AudioFrame>,
}

impl WasapiStream {
    pub closed spec fn format(&self) -> MixFormat {
        self.mix
    }

    /// The sequence number of the next packet.
    pub closed spec fn next_sequence(&self) -> u64 {
        self.sequence
    }

    /// The packets that wait for the consumer, oldest first.
    pub closed spec fn unread(&self) -> Seq<AudioFrame> {
        self.queue@
    }

    pub closed spec fn well_formed(&self) -> bool {
        self.queue.well_formed() && self.queue.limit() == AUDIO_CHANNEL_CAPACITY
    }

    pub fn new(mix: MixFormat) -> (stream: Self)
        ensures
            stream.well_formed(),
            stream.format() == mix,
            stream.next_sequence() == 0,
            stream.unread() == Seq::<AudioFrame>::empty(),
    {
        WasapiStream { mix, sequence: 0, queue: BoundedQueue::new(AUDIO_CHANNEL_CAPACITY) }
    }

    /// The sequence number of the next packet.
    pub fn sequence(&self) -> (sequence: u64)
        ensures
            sequence == self.next_sequence(),
    {
        self.sequence
    }

    /// The size of a packet of `frames` frames.
    pub fn packet_size(&self, frames: u32) -> (bytes: usize)
        requires
            frames * self.format().block_align <= usize::MAX,
        ensures
            bytes == frames * self.format().block_align,
    {
        frames as usize * self.mix.block_align as usize
    }

    /// Takes a packet off the device. `position` is the performance counter's
    /// position in units of 100 ns; `data` is not looked at if the packet is
    /// flagged as silence.
    pub fn receive(&mut self, data: &[u8], frames: u32, flags: u32, position: u64)
        requires
            old(self).well_formed(),
            frames * old(self).format().block_align <= usize::MAX,
            old(self).next_sequence() < u64::MAX,
            i64::MIN <= crate::numbers::wrapped_to_i64(position as int) * 100 <= i64::MAX,
            flags & AUDCLNT_BUFFERFLAGS_SILENT == 0 ==> data@.len() == frames * old(
                self,
            ).format().block_align,
        ensures
            final(self).well_formed(),
            final(self).format() == old(self).format(),
            final(self).next_sequence() == old(self).next_sequence() + 1,
            exists|frame: AudioFrame|
                {
                    &&& final(self).unread() == #[trigger] crate::queue::pushed(
                        old(self).unread(),
                        AUDIO_CHANNEL_CAPACITY as nat,
                        frame,
                    )
                    &&& carries(
                        frame,
                        old(self).format(),
                        old(self).next_sequence(),
                        position,
                        packet_bytes(
                            data@,
                            (frames * old(self).format().block_align) as nat,
                            flags,
                        ),
                    )
                },
    {
        let byte_count: usize = self.packet_size(frames);
        let bytes: Vec<u8> = if flags & AUDCLNT_BUFFERFLAGS_SILENT != 0 {
            let silence: Vec<u8> = vec![0u8; byte_count];
            assert(silence@ =~= packet_bytes(data@, byte_count as nat, flags));
            silence
        } else {
            vstd::slice::slice_to_vec(data)
        };
        let time: i64 = crate::numbers::wrap_to_i64(position as i128) * 100;
        let frame: AudioFrame = AudioFrame {
            stream_time_ns: time,
            sequence: self.sequence,
            sample_rate: self.mix.sample_rate,
            channels: self.mix.channels,
            sample_format: self.mix.sample_format,
            data: AudioData::Interleaved(bytes),
        };
        assert(carries(
            frame,
            self.mix,
            self.sequence,
            position,
            packet_bytes(data@, byte_count as nat, flags),
        ));
        self.sequence += 1;
        self.queue.push(frame);
        assert(self.unread() == crate::queue::pushed(
            old(self).unread(),
            AUDIO_CHANNEL_CAPACITY as nat,
            frame,
        ));
    }

    /// Hands the consumer the oldest packet that it has not read.
    pub fn take(&mut self) -> (frame: Option<AudioFrame>)
        requires
            old(self).well_formed(),
        ensures
            final(self).well_formed(),
            final(self).format() == old(self).format(),
            final(self).next_sequence() == old(self).next_sequence(),
            frame is Some <==> old(self).unread().len() > 0,
            frame matches Some(oldest) ==> {
                &&& oldest == old(self).unread()[0]
                &&& final(self).unread() == old(self).unread().subrange(
                    1,
                    old(self).unread().len() as int,
                )
            },
            frame is None ==> final(self).unread() == old(self).unread(),
    {
        self.queue.pop()
    }
}

/// Opens a stream on a device with this mix format. `initialization` is what
/// initializing the device came to; its failure is told before that of the
/// format.
pub fn open_stream(format: &WaveFormat, initialization: Result<()>) -> (reply: Result<WasapiStream>)
    ensures
        initialization matches Err(error) ==> reply == Err::<WasapiStream, PinrayError>(error),
        initialization is Ok ==> {
            &&& reply is Ok <==> sample_format(*format) is Some
            &&& reply is Err ==> crate::error::is_unsupported(reply, complaint(*format))
            &&& reply matches Ok(stream) ==> {
                &&& stream.well_formed()
                &&& stream.format() == (MixFormat {
                    sample_rate: format.samples_per_sec,
                    channels: format.channels,
                    block_align: format.block_align,
                    sample_format: sample_format(*format)->0,
                })
                &&& stream.next_sequence() == 0
                &&& stream.unread() == Seq::<AudioFrame>::empty()
            }
        },
{
    if let Err(error) = initialization {
        return Err(error);
    }
    match parse_mix_format(format) {
        Ok(mix) => Ok(WasapiStream::new(mix)),
        Err(error) => Err(error),
    }
}

/// What starting the backend comes to, given what the capture thread had to
/// say about its initialization.
pub fn initialized(report: Delivery<Result<()>>) -> (reply: Result<()>)
    ensures
        match report {
            Delivery::Received(verdict) => reply == verdict,
            _ => crate::error::is_platform(
                reply,
                "wasapi capture thread did not initialize within 5s"@,
            ),
        },
{
    match report {
        Delivery::Received(verdict) => verdict,
        _ => Err(
            PinrayError::Platform("wasapi capture thread did not initialize within 5s".to_owned()),
        ),
    }
}

/// The answer to a consumer of audio. `delivery` is what waiting came to, and
/// is there only while the backend is started.
pub fn next_audio(delivery: Option<Delivery<AudioFrame>>, timeout: Option<Duration>) -> (reply: Result<
    AudioFrame,
>)
    requires
        delivery == Some(Delivery::<AudioFrame>::TimedOut) ==> timeout is Some,
    ensures
        match delivery {
            None => crate::error::is_platform(reply, "wasapi backend not started"@),
            Some(Delivery::Received(frame)) => reply == Ok::<AudioFrame, PinrayError>(frame),
            Some(Delivery::TimedOut) => reply == Err::<AudioFrame, PinrayError>(
                PinrayError::Timeout(timeout->0),
            ),
            Some(Delivery::Disconnected) => crate::error::is_platform(
                reply,
                "wasapi capture thread terminated"@,
            ),
        },
{
    match delivery {
        None => Err(PinrayError::Platform("wasapi backend not started".to_owned())),
        Some(outcome) => delivered(outcome, timeout, "wasapi capture thread terminated"),
    }
}

/// The mix format is read from a format of floats, or of integers of 16 or 32
/// bits, whether it says so itself or by its sub-format, with its rate, channels
/// and block size. Every other format is refused.
pub proof fn mix_formats_are_read(format: &WaveFormat, reply: Result<MixFormat>)
    requires
        call_ensures(parse_mix_format, (format,), reply),
    ensures
        reply matches Ok(mix) ==> {
            &&& mix.sample_rate == format.samples_per_sec
            &&& mix.channels == format.channels
            &&& mix.block_align == format.block_align
            &&& mix.sample_format == SampleFormat::F32 <==> format.format_tag == 3
                || format.format_tag == 65534 && format.sub_format
                == 0x00000003_0000_0010_8000_00aa00389b71
            &&& mix.sample_format == SampleFormat::I16 ==> format.bits_per_sample == 16
            &&& mix.sample_format == SampleFormat::I32 ==> format.bits_per_sample == 32
        },
        format.format_tag == 3 ==> reply is Ok,
        format.format_tag == 1 ==> (reply is Ok <==> format.bits_per_sample == 16
            || format.bits_per_sample == 32),
        format.format_tag == 65534 ==> (reply is Ok <==> format.sub_format
            == 0x00000003_0000_0010_8000_00aa00389b71 || format.sub_format
            == 0x00000001_0000_0010_8000_00aa00389b71 && (format.bits_per_sample == 16
            || format.bits_per_sample == 32)),
        format.format_tag != 1 && format.format_tag != 3 && format.format_tag != 65534 ==> reply
            is Err,
        reply matches Err(problem) ==> problem is Unsupported,
{
}

/// A packet joins the unread ones at the end, and the oldest makes room where
/// there is none. It tells its position in nanoseconds, the next number and the
/// device's format. Its bytes are those of the device, and zeros where it is
/// silent.
pub proof fn packets_carry_what_was_played(
    stream: &mut WasapiStream,
    data: &[u8],
    frames: u32,
    flags: u32,
    position: u64,
)
    requires
        call_ensures(WasapiStream::receive, (stream, data, frames, flags, position), ()),
        old(stream).well_formed(),
        position <= i64::MAX / 100,
    ensures
        final(stream).well_formed(),
        final(stream).format() == old(stream).format(),
        final(stream).next_sequence() == old(stream).next_sequence() + 1,
        ({
            let before = old(stream).unread();
            let after = final(stream).unread();
            let newest = after.last();
            &&& after.len() > 0
            &&& newest.stream_time_ns == position * 100
            &&& newest.sequence == old(stream).next_sequence()
            &&& newest.sample_rate == old(stream).format().sample_rate
            &&& newest.channels == old(stream).format().channels
            &&& newest.sample_format == old(stream).format().sample_format
            &&& newest.data matches AudioData::Interleaved(bytes) && {
                &&& flags & 2 == 0 ==> bytes@ == data@
                &&& flags & 2 != 0 ==> bytes@.len() == frames * old(stream).format().block_align
                    && forall|i: int| 0 <= i < bytes@.len() ==> #[trigger] bytes@[i] == 0
            }
            &&& before.len() < 64 ==> after.len() == before.len() + 1 && forall|i: int|
                0 <= i < before.len() ==> #[trigger] after[i] == before[i]
            &&& before.len() == 64 ==> after.len() == 64 && forall|i: int|
                0 <= i < 63 ==> #[trigger] after[i] == before[i + 1]
        }),
{
    assert(old(stream).unread().len() <= AUDIO_CHANNEL_CAPACITY);
    let block_align = old(stream).format().block_align;
    assert(frames * block_align >= 0) by (nonlinear_arith)
        requires
            frames >= 0,
            block_align >= 0,
    ;
    let bytes = packet_bytes(data@, (frames * old(stream).format().block_align) as nat, flags);
    let frame = choose|frame: AudioFrame|
        {
            &&& final(stream).unread() == #[trigger] crate::queue::pushed(
                old(stream).unread(),
                AUDIO_CHANNEL_CAPACITY as nat,
                frame,
            )
            &&& carries(
                frame,
                old(stream).format(),
                old(stream).next_sequence(),
                position,
                bytes,
            )
        };
    assert(final(stream).unread() == crate::queue::pushed(
        old(stream).unread(),
        AUDIO_CHANNEL_CAPACITY as nat,
        frame,
    ));
    assert(final(stream).unread().last() == frame);
}

/// The consumer is handed every packet, the oldest first.
pub proof fn the_oldest_packet_is_handed_out(stream: &mut WasapiStream, frame: Option<AudioFrame>)
    requires
        call_ensures(WasapiStream::take, (stream,), frame),
    ensures
        frame is None <==> old(stream).unread().len() == 0,
        frame is None ==> final(stream).unread().len() == 0,
        frame matches Some(oldest) ==> old(stream).unread() == seq![oldest] + final(stream).unread(),
        final(stream).format() == old(stream).format(),
        final(stream).next_sequence() == old(stream).next_sequence(),
{
    if let Some(oldest) = frame {
        assert(old(stream).unread() =~= seq![oldest] + final(stream).unread());
    }
}

/// A packet is as large as its frames are together.
pub proof fn packets_are_made_of_blocks(stream: &WasapiStream, frames: u32, bytes: usize)
    requires
        call_ensures(WasapiStream::packet_size, (stream, frames), bytes),
    ensures
        bytes == frames * stream.format().block_align,
{
}

/// A new stream has the device's format, nothing to read, and numbers its packets
/// from zero on.
pub proof fn new_streams_are_empty(mix: MixFormat, stream: WasapiStream, sequence: u64)
    requires
        call_ensures(WasapiStream::new, (mix,), stream),
        call_ensures(WasapiStream::sequence, (&stream,), sequence),
    ensures
        stream.format() == mix,
        stream.unread().len() == 0,
        sequence == 0,
        stream.well_formed(),
{
}

/// A stream is opened on a device that was initialized and whose format can be
/// read; of two failures that of the device is told.
pub proof fn streams_open_on_initialized_devices(
    format: &WaveFormat,
    initialization: Result<()>,
    parsed: Result<MixFormat>,
    reply: Result<WasapiStream>,
)
    requires
        call_ensures(open_stream, (format, initialization), reply),
        call_ensures(parse_mix_format, (format,), parsed),
    ensures
        reply is Ok <==> initialization is Ok && parsed is Ok,
        reply matches Ok(stream) ==> (parsed matches Ok(mix) && stream.format() == mix)
            && stream.unread().len() == 0 && stream.next_sequence() == 0,
        initialization matches Err(error) ==> reply == Err::<WasapiStream, PinrayError>(error),
        initialization is Ok && reply is Err ==> (reply matches Err(PinrayError::Unsupported(_))),
{
}

/// A start comes to what the thread says, and fails if it says nothing.
pub proof fn silent_threads_fail_to_start(
    verdict: Result<()>,
    told: Result<()>,
    late: Result<()>,
    gone: Result<()>,
)
    requires
        call_ensures(initialized, (Delivery::Received(verdict),), told),
        call_ensures(initialized, (Delivery::TimedOut,), late),
        call_ensures(initialized, (Delivery::Disconnected,), gone),
    ensures
        told == verdict,
        late matches Err(PinrayError::Platform(_)),
        gone matches Err(PinrayError::Platform(_)),
{
}

/// A consumer is handed the packet that arrived, told its own timeout if none
/// did, and told of a thread that is gone or was never started.
pub proof fn consumers_are_told_what_arrived(
    frame: AudioFrame,
    limit: Duration,
    timeout: Option<Duration>,
    received: Result<AudioFrame>,
    late: Result<AudioFrame>,
    gone: Result<AudioFrame>,
    idle: Result<AudioFrame>,
)
    requires
        call_ensures(next_audio, (Some(Delivery::Received(frame)), timeout), received),
        call_ensures(next_audio, (Some(Delivery::TimedOut), Some(limit)), late),
        call_ensures(next_audio, (Some(Delivery::Disconnected), timeout), gone),
        call_ensures(next_audio, (None::<Delivery<AudioFrame>>, timeout), idle),
    ensures
        received == Ok::<AudioFrame, PinrayError>(frame),
        late == Err::<AudioFrame, PinrayError>(PinrayError::Timeout(limit)),
        gone matches Err(PinrayError::Platform(message)) && message@
            == "wasapi capture thread terminated"@,
        idle matches Err(PinrayError::Platform(message)) && message@
            == "wasapi backend not started"@,
{
}

/// What the backend says of itself.
pub proof fn the_backend_has_audio(info: BackendInfo)
    requires
        call_ensures(backend_info, (), info),
    ensures
        info.kind == BackendKind::WindowsWasapi,
        info.supports_audio,
        !info.zero_copy,
        info.notes@
            == "WASAPI shared-mode loopback of the default render endpoint (system mix)"@,
{
}

/// An identifier is written as its thirty-two digits, with a hyphen behind the
/// eighth, the twelfth, the sixteenth and the twentieth.
pub proof fn identifiers_are_written_in_groups(id: u128)
    ensures
        ({
            let digits = crate::text::hex(id as nat, 32);
            guid_text(id) == digits.subrange(0, 8) + "-"@ + digits.subrange(8, 12) + "-"@
                + digits.subrange(12, 16) + "-"@ + digits.subrange(16, 20) + "-"@
                + digits.subrange(20, 32)
        }),
{
    let number = id as nat;
    crate::text::lemma_hex_digits(number, 32, 0, 8);
    crate::text::lemma_hex_digits(number, 32, 8, 12);
    crate::text::lemma_hex_digits(number, 32, 12, 16);
    crate::text::lemma_hex_digits(number, 32, 16, 20);
    crate::text::lemma_hex_digits(number, 32, 20, 32);
    lemma_powers_of_sixteen();
    assert(number / 1nat == number);
}

proof fn lemma_powers_of_sixteen()
    ensures
        vstd::arithmetic::power::pow(16, 0) == 1,
        vstd::arithmetic::power::pow(16, 12) == 0x1_0000_0000_0000,
        vstd::arithmetic::power::pow(16, 16) == 0x1_0000_0000_0000_0000,
        vstd::arithmetic::power::pow(16, 20) == 0x1_0000_0000_0000_0000_0000,
        vstd::arithmetic::power::pow(16, 24) == 0x1_0000_0000_0000_0000_0000_0000,
{
    reveal(vstd::arithmetic::power::pow);
    reveal_with_fuel(vstd::arithmetic::power::pow, 26);
}

/// A format that cannot be read is told by what is strange about it.
pub proof fn refusals_tell_why(format: &WaveFormat, reply: Result<MixFormat>)
    requires
        call_ensures(parse_mix_format, (format,), reply),
        reply is Err,
    ensures
        reply matches Err(PinrayError::Unsupported(message)) && if format.format_tag == 1
            || format.format_tag == 65534 && format.sub_format
            == 0x00000001_0000_0010_8000_00aa00389b71 {
            message@ == "unsupported PCM bit depth from WASAPI mix format: "@
                + crate::text::decimal(format.bits_per_sample as nat)
        } else if format.format_tag == 65534 {
            message@ == "unsupported WASAPI mix sub-format: "@ + guid_text(format.sub_format)
        } else {
            message@ == "unsupported WASAPI mix format tag: "@ + crate::text::decimal(
                format.format_tag as nat,
            )
        },
{
}

} // verus!
