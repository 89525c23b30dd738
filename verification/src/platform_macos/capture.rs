//! ScreenCaptureKit: stream configuration, and samples as frames.
use std::time::Duration;

use vstd::prelude::*;
use vstd::string::*;

use crate::audio::{AudioData, AudioFrame, SampleFormat};
use crate::backend::{BackendInfo, BackendKind};
use crate::channel::{delivered, Delivery};
use crate::config::{AudioCapture, CursorMode, SessionConfig, VideoCaptureTarget};
use crate::error::{PinrayError, Result};
use crate::frame::{CaptureEvent, ColorSpace, FrameData, PixelFormat, Rect, VideoFrame};
use crate::numbers::wrap_to_i64;
use crate::pixels::swap_red_blue;
use crate::platform_macos::content::{
    display_dimensions, find_display, find_window, DisplayDimensions, DisplayReport, WindowReport,
};
use crate::platform_macos::ShareableContent;
use crate::queue::{FrameQueue, FrameQueueView};
use crate::source::SourceId;
use crate::text::joined;

verus! {

/// The system's code for BGRA pixels.
pub const PIXEL_FORMAT_32BGRA: u32 = 0x42475241;

/// The system's code for RGBA pixels.
pub const PIXEL_FORMAT_32RGBA: u32 = 0x52474241;

/// Whether a session's stream carries audio.
pub fn captures_audio(config: &SessionConfig) -> (reply: Result<bool>)
    ensures
        match config.audio_capture {
            Some(AudioCapture::Microphone(_)) => crate::error::is_unsupported(
                reply,
                "macos microphone capture is not implemented yet"@,
            ),
            wanted => reply == Ok::<bool, PinrayError>(wanted is Some),
        },
{
    match &config.audio_capture {
        None => Ok(false),
        Some(AudioCapture::SystemMix) => Ok(true),
        Some(AudioCapture::Microphone(_)) => Err(
            PinrayError::Unsupported("macos microphone capture is not implemented yet".to_owned()),
        ),
    }
}

/// ScreenCaptureKit, as it describes itself.
pub open spec fn sck_backend(supports_audio: bool) -> BackendInfo {
    BackendInfo {
        kind: BackendKind::MacScreenCaptureKit,
        supports_audio,
        zero_copy: false,
        notes: "ScreenCaptureKit via XPC + CVPixelBuffer host-copy",
    }
}

pub fn backend_info(supports_audio: bool) -> (info: BackendInfo)
    ensures
        info == sck_backend(supports_audio),
{
    BackendInfo {
        kind: BackendKind::MacScreenCaptureKit,
        supports_audio,
        zero_copy: false,
        notes: "ScreenCaptureKit via XPC + CVPixelBuffer host-copy",
    }
}

/// How a stream is configured.
#[derive(Debug, Clone, Copy, PartialEq, Eq)]
pub struct StreamConfiguration {
    /// Size of the pictures in pixels.
    pub width: u32,
    pub height: u32,
    /// The system's code for the pixels. RGBA is not a valid stream format, so
    /// this is always BGRA; RGBA is made of it afterwards.
    pub pixel_format: u32,
    pub shows_cursor: bool,
    /// Frames are at least one part in this many of a second apart.
    pub frames_per_second: i32,
    /// Sample rate and channel count, where the stream carries audio.
    pub audio: Option<AudioSettings>,
    pub source_rect: Option<Rect>,
}

#[derive(Debug, Clone, Copy, PartialEq, Eq, Structural)]
pub struct AudioSettings {
    pub sample_rate: u32,
    pub channels: u32,
}

/// The closest even number of pixels that is not larger, but two at least.
pub open spec fn even_size(pixels: int) -> int {
    let wide = crate::numbers::larger(pixels, 2);
    wide - wide % 2
}

/// The number that the low 32 bits of `x` stand for in two's complement.
pub open spec fn wrapped_to_i32(x: int) -> int {
    let low = x % 0x1_0000_0000;
    if low >= 0x8000_0000 {
        low - 0x1_0000_0000
    } else {
        low
    }
}

/// The frame rate that a session asks for: 60 a second unless it is set, and
/// one at least.
pub open spec fn wanted_rate(frame_rate: Option<u32>) -> int {
    crate::numbers::larger(
        match frame_rate {
            Some(fps) => fps as int,
            None => 60,
        },
        1,
    )
}

fn to_even(pixels: u32) -> (even: u32)
    ensures
        even == even_size(pixels as int),
{
    let wide: u32 = if pixels >= 2 {
        pixels
    } else {
        2
    };
    assert(wide & !1u32 == wide - wide % 2) by (bit_vector);
    wide & !1u32
}

/// The configuration of a stream of a display of these dimensions.
pub open spec fn configured(
    config: SessionConfig,
    dimensions: DisplayDimensions,
    capture_audio: bool,
) -> StreamConfiguration {
    StreamConfiguration {
        width: even_size(dimensions.width * dimensions.scale) as u32,
        height: even_size(dimensions.height * dimensions.scale) as u32,
        pixel_format: PIXEL_FORMAT_32BGRA,
        shows_cursor: config.cursor_mode == CursorMode::Embedded,
        frames_per_second: wrapped_to_i32(wanted_rate(config.frame_rate)) as i32,
        audio: if capture_audio {
            Some(AudioSettings { sample_rate: 48_000, channels: 2 })
        } else {
            None
        },
        source_rect: config.crop_rect,
    }
}

/// Configures the stream of a session that captures a display of these
/// dimensions.
pub fn build_stream_configuration(
    config: &SessionConfig,
    dimensions: DisplayDimensions,
    capture_audio: bool,
) -> (configuration: StreamConfiguration)
    requires
        dimensions.width * dimensions.scale <= u32::MAX,
        dimensions.height * dimensions.scale <= u32::MAX,
    ensures
        configuration == configured(*config, dimensions, capture_audio),
{
    let rate: u32 = match config.frame_rate {
        Some(fps) => if fps >= 1 {
            fps
        } else {
            1
        },
        None => 60,
    };
    let frames_per_second: i32 = if rate >= 0x8000_0000 {
        (rate as i64 - 0x1_0000_0000) as i32
    } else {
        rate as i32
    };
    StreamConfiguration {
        width: to_even(dimensions.width * dimensions.scale),
        height: to_even(dimensions.height * dimensions.scale),
        pixel_format: PIXEL_FORMAT_32BGRA,
        shows_cursor: config.cursor_mode == CursorMode::Embedded,
        frames_per_second,
        audio: if capture_audio {
            Some(AudioSettings { sample_rate: 48_000, channels: 2 })
        } else {
            None
        },
        source_rect: config.crop_rect,
    }
}

/// The cursor is seen in a stream if and only if the session asks for it to be
/// embedded.
pub proof fn the_cursor_shows_when_it_is_embedded(
    config: SessionConfig,
    dimensions: DisplayDimensions,
    capture_audio: bool,
    configuration: StreamConfiguration,
)
    requires
        call_ensures(
            build_stream_configuration,
            (&config, dimensions, capture_audio),
            configuration,
        ),
    ensures
        configuration.shows_cursor <==> config.cursor_mode == CursorMode::Embedded,
        configuration.shows_cursor <==> config.cursor_mode != CursorMode::Hidden,
{
}

/// Whatever the display, the pictures of a stream have an even width and
/// height, and at least two pixels each way.
pub proof fn pictures_are_even(pixels: int)
    ensures
        even_size(pixels) % 2 == 0,
        even_size(pixels) >= 2,
        pixels >= 2 ==> pixels - 1 <= even_size(pixels) <= pixels,
{
}

/// What a stream shows, by its place in the shared content.
#[derive(Debug, Clone, Copy, PartialEq, Eq, Structural)]
pub enum ContentFilter {
    /// A display, with all of its windows.
    Display(usize),
    /// A window, on its own.
    Window(usize),
}

/// The filter shows what the session means.
pub open spec fn shows(
    filter: ContentFilter,
    target: Option<VideoCaptureTarget>,
    displays: Seq<DisplayReport>,
    windows: Seq<WindowReport>,
) -> bool {
    match (target, filter) {
        (Some(VideoCaptureTarget::Window(id)), ContentFilter::Window(index)) => {
            &&& index < windows.len()
            &&& crate::platform_macos::content::id_number(id.0@) == Some(
                windows[index as int].id as nat,
            )
            &&& forall|j: int|
                0 <= j < index ==> (#[trigger] windows[j]).id != windows[index as int].id
        },
        (Some(VideoCaptureTarget::Window(_)), ContentFilter::Display(_)) => false,
        (_, ContentFilter::Display(index)) => match crate::platform_macos::content::named_display(
            target,
        ) {
            Some(id) => crate::platform_macos::content::id_number(id) matches Some(number)
                && crate::platform_macos::content::first_with(displays, number, index as int),
            None => index == 0 && displays.len() > 0,
        },
        (_, ContentFilter::Window(_)) => false,
    }
}

/// Something that is shared is what the session means.
pub open spec fn is_shared(
    target: Option<VideoCaptureTarget>,
    displays: Seq<DisplayReport>,
    windows: Seq<WindowReport>,
) -> bool {
    exists|filter: ContentFilter| #[trigger] shows(filter, target, displays, windows)
}

/// How a target that is not shared is reported.
pub open spec fn is_not_found<T>(reply: Result<T>, target: Option<VideoCaptureTarget>) -> bool {
    match target {
        Some(VideoCaptureTarget::Window(id)) => match crate::platform_macos::content::id_number(
            id.0@,
        ) {
            Some(number) => crate::error::is_platform(
                reply,
                "window "@ + crate::text::decimal(number) + " not found"@,
            ),
            None => crate::error::is_invalid_config(
                reply,
                crate::platform_macos::content::quoted("invalid window id '"@, id.0@),
            ),
        },
        _ => match crate::platform_macos::content::named_display(target) {
            Some(id) => match crate::platform_macos::content::id_number(id) {
                Some(number) => crate::error::is_platform(
                    reply,
                    "display "@ + crate::text::decimal(number) + " not found"@,
                ),
                None => crate::error::is_invalid_config(
                    reply,
                    crate::platform_macos::content::quoted("invalid display id '"@, id),
                ),
            },
            None => crate::error::is_platform(reply, "no displays via SCShareableContent"@),
        },
    }
}

/// The filter for what a session means.
pub fn build_content_filter(
    target: &Option<VideoCaptureTarget>,
    displays: &Vec<DisplayReport>,
    windows: &Vec<WindowReport>,
) -> (reply: Result<ContentFilter>)
    ensures
        reply matches Ok(filter) ==> shows(filter, *target, displays@, windows@),
        reply is Err ==> !is_shared(*target, displays@, windows@),
        reply is Err ==> is_not_found(reply, *target),
{
    match target {
        Some(VideoCaptureTarget::Window(id)) => match find_window(windows, id.0.as_str()) {
            Ok(index) => Ok(ContentFilter::Window(index)),
            Err(error) => Err(error),
        },
        _ => match find_display(displays, target) {
            Ok(index) => Ok(ContentFilter::Display(index)),
            Err(error) => Err(error),
        },
    }
}

/// Everything that a session's stream is made with.
#[derive(Debug)]
pub struct StreamPlan {
    pub filter: ContentFilter,
    pub configuration: StreamConfiguration,
    pub info: BackendInfo,
}

/// Plans the stream of a session over the content that the system shared. What
/// stands against it is told in this order: a microphone, content that could
/// not be had, a target that is not among it.
pub fn build_backend(config: &SessionConfig, content: Result<ShareableContent>) -> (reply: Result<
    StreamPlan,
>)
    requires
        !(config.audio_capture matches Some(AudioCapture::Microphone(_))) ==> (
        content matches Ok(shared) ==> (is_shared(
            config.video_target,
            shared.displays@,
            shared.windows@,
        ) ==> forall|dimensions: DisplayDimensions| #[trigger]
            crate::platform_macos::content::has_dimensions(
                shared.displays@,
                config.video_target,
                dimensions,
            ) ==> dimensions.width * dimensions.scale <= u32::MAX && dimensions.height
                * dimensions.scale <= u32::MAX)),
    ensures
        config.audio_capture matches Some(AudioCapture::Microphone(_))
            ==> crate::error::is_unsupported(
            reply,
            "macos microphone capture is not implemented yet"@,
        ),
        !(config.audio_capture matches Some(AudioCapture::Microphone(_))) ==> match content {
            Err(error) => reply == Err::<StreamPlan, PinrayError>(error),
            Ok(shared) => {
                &&& reply is Ok <==> is_shared(
                    config.video_target,
                    shared.displays@,
                    shared.windows@,
                )
                &&& reply is Err ==> is_not_found(reply, config.video_target)
                &&& reply matches Ok(plan) ==> {
                    &&& shows(
                        plan.filter,
                        config.video_target,
                        shared.displays@,
                        shared.windows@,
                    )
                    &&& plan.info == sck_backend(config.audio_capture is Some)
                    &&& exists|dimensions: DisplayDimensions| #[trigger]
                        crate::platform_macos::content::has_dimensions(
                            shared.displays@,
                            config.video_target,
                            dimensions,
                        ) && plan.configuration == configured(
                            *config,
                            dimensions,
                            config.audio_capture is Some,
                        )
                }
            },
        },
{
    let capture_audio: bool = match captures_audio(config) {
        Ok(wanted) => wanted,
        Err(error) => {
            return Err(error);
        },
    };
    let shared: ShareableContent = match content {
        Ok(shared) => shared,
        Err(error) => {
            return Err(error);
        },
    };
    let filter: ContentFilter = match build_content_filter(
        &config.video_target,
        &shared.displays,
        &shared.windows,
    ) {
        Ok(filter) => filter,
        Err(error) => {
            return Err(error);
        },
    };
    let dimensions: DisplayDimensions = display_dimensions(&shared.displays, &config.video_target);
    Ok(
        StreamPlan {
            filter,
            configuration: build_stream_configuration(config, dimensions, capture_audio),
            info: backend_info(capture_audio),
        },
    )
}

/// A time as the system writes it: `value` parts in `timescale` of a second.
#[derive(Debug, Clone, Copy, PartialEq, Eq, Structural)]
pub struct MediaTime {
    pub value: i64,
    pub timescale: i32,
}

/// A time in nanoseconds; one without a scale is zero.
pub open spec fn media_time_ns(time: MediaTime) -> int {
    if time.timescale == 0 {
        0
    } else {
        crate::numbers::wrapped_to_i64(
            crate::numbers::truncated_quotient(
                time.value * 1_000_000_000,
                time.timescale as int,
            ),
        )
    }
}

/// A time in nanoseconds.
pub fn pts_to_ns(time: MediaTime) -> (nanos: i64)
    ensures
        nanos == media_time_ns(time),
{
    if time.timescale == 0 {
        return 0;
    }
    // The host clock's scale makes the product overflow 64 bits within seconds
    // of uptime.
    let parts: i128 = time.value as i128 * 1_000_000_000;
    let nanos: i128 = parts / time.timescale as i128;
    proof {
        if time.timescale < 0 {
            crate::numbers::lemma_negative_divisor(
                if parts >= 0 {
                    parts as int
                } else {
                    -parts
                },
                time.timescale as int,
            );
        }
    }
    wrap_to_i64(nanos)
}

/// Times on the host clock, which counts nanoseconds, are taken as they are.
pub proof fn host_times_are_exact(time: MediaTime)
    requires
        time.timescale == 1_000_000_000,
    ensures
        media_time_ns(time) == time.value,
{
}

/// The rows of a buffer, without their padding, as far as the buffer has them.
pub open spec fn copied_rows(raw: Seq<u8>, stride: int, row_bytes: int, rows: nat) -> Seq<u8>
    decreases rows,
{
    if rows == 0 {
        Seq::empty()
    } else {
        let before = copied_rows(raw, stride, row_bytes, (rows - 1) as nat);
        let start = (rows - 1) * stride;
        if start + row_bytes <= raw.len() {
            before + raw.subrange(start, start + row_bytes)
        } else {
            before
        }
    }
}

/// A buffer that has all of its rows loses none of them.
pub proof fn complete_buffers_lose_nothing(
    raw: Seq<u8>,
    stride: int,
    row_bytes: int,
    rows: nat,
)
    requires
        crate::pixels::rows_fit(raw.len() as int, stride, row_bytes, rows as int),
        stride >= 0,
    ensures
        copied_rows(raw, stride, row_bytes, rows) == crate::pixels::packed_rows(
            raw,
            stride,
            row_bytes,
            rows,
        ),
    decreases rows,
{
    if rows > 0 {
        crate::pixels::lemma_row_fits(raw.len() as int, stride, row_bytes, rows as int, rows - 1);
        if rows > 1 {
            crate::pixels::lemma_row_fits(
                raw.len() as int,
                stride,
                row_bytes,
                rows as int,
                rows - 2,
            );
        }
        complete_buffers_lose_nothing(raw, stride, row_bytes, (rows - 1) as nat);
    }
}

/// The rows of a buffer can be copied: the buffer has them all if they carry no
/// padding, and no row lies beyond what can be addressed.
pub open spec fn is_copyable(len: int, stride: int, row_bytes: int, rows: int) -> bool {
    &&& stride == row_bytes ==> rows * row_bytes <= len
    &&& rows > 0 ==> (rows - 1) * stride + row_bytes <= usize::MAX
}

/// Copies the rows of a buffer without their padding. Rows that a padded buffer
/// does not have are left out.
pub fn copy_rows(raw: &[u8], stride: usize, row_bytes: usize, rows: usize) -> (packed: Vec<u8>)
    requires
        is_copyable(raw@.len() as int, stride as int, row_bytes as int, rows as int),
    ensures
        packed@ == copied_rows(raw@, stride as int, row_bytes as int, rows as nat),
{
    let len: usize = raw.len();
    if stride == row_bytes {
        proof {
            assert(rows > 0 ==> (rows - 1) * stride + stride == rows * stride)
                by (nonlinear_arith);
            assert(0 <= rows * row_bytes) by (nonlinear_arith)
                requires
                    rows >= 0,
                    row_bytes >= 0,
            ;
            complete_buffers_lose_nothing(raw@, stride as int, row_bytes as int, rows as nat);
            crate::pixels::unpadded_rows_are_kept(raw@, row_bytes as int, rows as nat);
        }
        return vstd::slice::slice_to_vec(vstd::slice::slice_subrange(raw, 0, rows * row_bytes));
    }
    let mut packed: Vec<u8> = Vec::new();
    let mut start: usize = 0;
    let mut row: usize = 0;
    while row < rows
        invariant
            len == raw@.len(),
            is_copyable(raw@.len() as int, stride as int, row_bytes as int, rows as int),
            row <= rows,
            row < rows ==> start == row * stride,
            packed@ == copied_rows(raw@, stride as int, row_bytes as int, row as nat),
        decreases rows - row,
    {
        proof {
            assert(row * stride <= (rows - 1) * stride) by (nonlinear_arith)
                requires
                    row <= rows - 1,
                    stride >= 0,
            ;
            assert((row + 1) * stride == row * stride + stride) by (nonlinear_arith);
            assert(row + 1 < rows ==> (row + 1) * stride <= (rows - 1) * stride)
                by (nonlinear_arith)
                requires
                    row + 1 <= rows,
                    stride >= 0,
            ;
        }
        let end: usize = start + row_bytes;
        if end <= len {
            packed.extend_from_slice(vstd::slice::slice_subrange(raw, start, end));
        }
        row += 1;
        assert(packed@ =~= copied_rows(raw@, stride as int, row_bytes as int, row as nat));
        if row < rows {
            start += stride;
        }
    }
    packed
}

/// The format that pixels are delivered in: what was asked for if they are in
/// it already, else the other packed one. Pixels of an unknown kind go for
/// BGRA.
pub open spec fn delivered_format(native: u32, desired: PixelFormat) -> PixelFormat {
    if native == PIXEL_FORMAT_32BGRA {
        if desired == PixelFormat::Bgra8888 {
            PixelFormat::Bgra8888
        } else {
            PixelFormat::Rgba8888
        }
    } else if native == PIXEL_FORMAT_32RGBA && desired == PixelFormat::Rgba8888 {
        PixelFormat::Rgba8888
    } else {
        PixelFormat::Bgra8888
    }
}

/// The channels change places on the way.
pub open spec fn is_swizzled(native: u32, desired: PixelFormat) -> bool {
    ||| native == PIXEL_FORMAT_32BGRA && desired != PixelFormat::Bgra8888
    ||| native == PIXEL_FORMAT_32RGBA && desired != PixelFormat::Rgba8888
}

/// The bytes that pixels are delivered as.
pub open spec fn delivered_bytes(
    native: u32,
    raw: Seq<u8>,
    w: u32,
    h: u32,
    bytes_per_row: u32,
    desired: PixelFormat,
) -> Seq<u8> {
    let rows = copied_rows(raw, bytes_per_row as int, w * 4, h as nat);
    if is_swizzled(native, desired) {
        crate::pixels::red_blue_swapped(rows)
    } else {
        rows
    }
}

/// Brings the pixels of a buffer into the format that was asked for.
pub fn normalize_pixels(
    native: u32,
    raw: &[u8],
    w: u32,
    h: u32,
    bytes_per_row: u32,
    desired: PixelFormat,
) -> (pixels: (PixelFormat, Vec<u8>))
    requires
        w * 4 <= usize::MAX,
        is_copyable(raw@.len() as int, bytes_per_row as int, w * 4, h as int),
    ensures
        pixels.0 == delivered_format(native, desired),
        pixels.1@ == delivered_bytes(native, raw@, w, h, bytes_per_row, desired),
{
    let mut data: Vec<u8> = copy_rows(raw, bytes_per_row as usize, w as usize * 4, h as usize);
    if native == PIXEL_FORMAT_32BGRA {
        if desired == PixelFormat::Bgra8888 {
            (PixelFormat::Bgra8888, data)
        } else {
            swap_red_blue(&mut data);
            (PixelFormat::Rgba8888, data)
        }
    } else if native == PIXEL_FORMAT_32RGBA {
        if desired == PixelFormat::Rgba8888 {
            (PixelFormat::Rgba8888, data)
        } else {
            swap_red_blue(&mut data);
            (PixelFormat::Bgra8888, data)
        }
    } else {
        (PixelFormat::Bgra8888, data)
    }
}

/// Whichever of the two packed formats is asked for is what is delivered.
pub proof fn packed_requests_are_met(native: u32, desired: PixelFormat)
    requires
        native == PIXEL_FORMAT_32BGRA || native == PIXEL_FORMAT_32RGBA,
        desired == PixelFormat::Bgra8888 || desired == PixelFormat::Rgba8888,
    ensures
        delivered_format(native, desired) == desired,
{
}

/// A picture as the system hands it over.
pub struct ImageSample<'a> {
    pub width: u32,
    pub height: u32,
    pub bytes_per_row: u32,
    /// The mapped pixels; nothing where there are none.
    pub data: &'a [u8],
    /// The system's code for the pixels.
    pub native_format: u32,
}

/// The sample has a picture.
pub open spec fn has_picture(image: ImageSample) -> bool {
    image.width != 0 && image.height != 0 && image.data@.len() != 0
}

/// Makes a picture into a frame, if there is one.
pub fn extract_video_frame(
    time: MediaTime,
    image: Option<ImageSample>,
    sequence: u64,
    desired: PixelFormat,
) -> (frame: Option<VideoFrame>)
    requires
        image matches Some(sample) ==> (has_picture(sample) ==> sample.width * 4 <= u32::MAX
            && is_copyable(
            sample.data@.len() as int,
            sample.bytes_per_row as int,
            sample.width * 4,
            sample.height as int,
        )),
    ensures
        frame is Some <==> image is Some && has_picture(image->0),
        frame matches Some(video) ==> {
            let sample = image->0;
            &&& video.stream_time_ns == media_time_ns(time)
            &&& video.sequence == sequence
            &&& video.width == sample.width
            &&& video.height == sample.height
            &&& video.stride == sample.width * 4
            &&& video.pixel_format == delivered_format(sample.native_format, desired)
            &&& video.color_space == Some(ColorSpace::Srgb)
            &&& video.damage is None
            &&& video.data matches FrameData::Host(bytes) && bytes@ == delivered_bytes(
                sample.native_format,
                sample.data@,
                sample.width,
                sample.height,
                sample.bytes_per_row,
                desired,
            )
        },
{
    let sample: ImageSample = match image {
        Some(sample) => sample,
        None => {
            return None;
        },
    };
    if sample.width == 0 || sample.height == 0 || sample.data.len() == 0 {
        return None;
    }
    let (pixel_format, data) = normalize_pixels(
        sample.native_format,
        sample.data,
        sample.width,
        sample.height,
        sample.bytes_per_row,
        desired,
    );
    Some(
        VideoFrame {
            stream_time_ns: pts_to_ns(time),
            sequence,
            width: sample.width,
            height: sample.height,
            // The padding of the rows is gone.
            stride: sample.width * 4,
            pixel_format,
            color_space: Some(ColorSpace::Srgb),
            data: FrameData::Host(data),
            damage: None,
        },
    )
}

/// Makes a packet of samples into a frame, if there are any. `samples` is what
/// copying them out came to.
pub fn extract_audio_frame(
    time: MediaTime,
    sample_count: i64,
    samples: Option<Vec<u8>>,
    sequence: u64,
) -> (frame: Option<AudioFrame>)
    ensures
        frame is Some <==> sample_count != 0 && samples is Some && samples->0@.len() != 0,
        frame matches Some(audio) ==> audio == (AudioFrame {
            stream_time_ns: media_time_ns(time) as i64,
            sequence,
            sample_rate: 48_000,
            channels: 2,
            sample_format: SampleFormat::F32,
            data: AudioData::Interleaved(samples->0),
        }),
{
    if sample_count == 0 {
        return None;
    }
    let bytes: Vec<u8> = match samples {
        Some(bytes) => bytes,
        None => {
            return None;
        },
    };
    if bytes.len() == 0 {
        return None;
    }
    Some(
        AudioFrame {
            stream_time_ns: pts_to_ns(time),
            sequence,
            sample_rate: 48_000,
            channels: 2,
            sample_format: SampleFormat::F32,
            data: AudioData::Interleaved(bytes),
        },
    )
}

/// What the system's callbacks put into the queue.
#[derive(Debug)]
pub enum RawEvent {
    Video(VideoFrame),
    Audio(AudioFrame),
    /// Stream stopped on its own (error or system action); carries the message.
    Ended(String),
}

/// The state of a stream. Each of the two kinds of frames has a counter of its
/// own, advanced only when a frame is actually delivered; what is not delivered
/// is reported as a gap.
#[derive(Debug)]
pub struct SckStream {
    pub desired_pixel_format: PixelFormat,
    pub capture_audio: bool,
    /// Samples are made into frames; else they are passed over.
    pub active: bool,
    /// The stream stopped on its own.
    pub errored: bool,
    pub video_sequence: u64,
    pub audio_sequence: u64,
    /// What the consumer has not taken yet.
    pub queue: FrameQueue<RawEvent>,
}

impl SckStream {
    pub fn new(
        desired_pixel_format: PixelFormat,
        capture_audio: bool,
        queue_depth: usize,
    ) -> (stream: Self)
        ensures
            stream == (SckStream {
                desired_pixel_format,
                capture_audio,
                active: false,
                errored: false,
                video_sequence: 0,
                audio_sequence: 0,
                queue: stream.queue,
            }),
            stream.queue@ == (FrameQueueView {
                items: Seq::<RawEvent>::empty(),
                limit: queue_depth as nat,
                dropped: 0,
            }),
    {
        SckStream {
            desired_pixel_format,
            capture_audio,
            active: false,
            errored: false,
            video_sequence: 0,
            audio_sequence: 0,
            queue: FrameQueue::new(queue_depth),
        }
    }

    /// Frames may come from now on: the stream is about to be started.
    pub fn starting(&mut self)
        ensures
            *final(self) == (SckStream { active: true, ..*old(self) }),
    {
        self.active = true;
    }

    /// What starting comes to; `refusal` is what the system had against it.
    pub fn started(&mut self, refusal: Option<String>) -> (reply: Result<()>)
        ensures
            reply is Ok <==> refusal is None,
            refusal matches Some(message) ==> crate::error::is_platform(
                reply,
                "startCapture: "@ + message@,
            ),
            *final(self) == (SckStream {
                active: old(self).active && refusal is None,
                ..*old(self)
            }),
    {
        match refusal {
            None => Ok(()),
            Some(message) => {
                self.active = false;
                Err(PinrayError::Platform(joined("startCapture: ", message.as_str())))
            },
        }
    }

    /// No more frames: the stream is about to be stopped.
    pub fn stopping(&mut self)
        ensures
            *final(self) == (SckStream { active: false, ..*old(self) }),
    {
        self.active = false;
    }

    /// The stream stopped on its own, for the reason that the system gave. The
    /// queue is told too, where it has room, so that a consumer that waits
    /// learns of it.
    pub fn stopped_itself(&mut self, message: String)
        ensures
            *final(self) == (SckStream {
                errored: true,
                queue: final(self).queue,
                ..*old(self)
            }),
            final(self).queue@ == if old(self).queue@.has_room() {
                old(self).queue@.with(RawEvent::Ended(message))
            } else {
                old(self).queue@
            },
    {
        self.errored = true;
        self.queue.try_push(RawEvent::Ended(message));
    }

    /// The sequence number for a picture, where pictures are wanted.
    pub fn wants_video(&self) -> (sequence: Option<u64>)
        ensures
            sequence == if self.active {
                Some(self.video_sequence)
            } else {
                None
            },
    {
        if self.active {
            Some(self.video_sequence)
        } else {
            None
        }
    }

    /// The sequence number for a packet, where packets are wanted.
    pub fn wants_audio(&self) -> (sequence: Option<u64>)
        ensures
            sequence == if self.active && self.capture_audio {
                Some(self.audio_sequence)
            } else {
                None
            },
    {
        if self.active && self.capture_audio {
            Some(self.audio_sequence)
        } else {
            None
        }
    }

    /// Queues a picture. Where there is no room for it, it is lost, and its number
    /// goes to the next one.
    pub fn offer_video(&mut self, frame: VideoFrame)
        requires
            old(self).queue@.has_room() ==> old(self).video_sequence < u64::MAX,
        ensures
            *final(self) == (SckStream {
                video_sequence: if old(self).queue@.has_room() {
                    (old(self).video_sequence + 1) as u64
                } else {
                    old(self).video_sequence
                },
                queue: final(self).queue,
                ..*old(self)
            }),
            final(self).queue@ == old(self).queue@.offered(RawEvent::Video(frame)),
    {
        if self.queue.offer(RawEvent::Video(frame)) {
            self.video_sequence += 1;
        }
    }

    /// Queues a packet. Where there is no room for it, it is lost, and its number
    /// goes to the next one.
    pub fn offer_audio(&mut self, frame: AudioFrame)
        requires
            old(self).queue@.has_room() ==> old(self).audio_sequence < u64::MAX,
        ensures
            *final(self) == (SckStream {
                audio_sequence: if old(self).queue@.has_room() {
                    (old(self).audio_sequence + 1) as u64
                } else {
                    old(self).audio_sequence
                },
                queue: final(self).queue,
                ..*old(self)
            }),
            final(self).queue@ == old(self).queue@.offered(RawEvent::Audio(frame)),
    {
        if self.queue.offer(RawEvent::Audio(frame)) {
            self.audio_sequence += 1;
        }
    }

    /// Hands the consumer the oldest event that it has not taken.
    pub fn take(&mut self) -> (event: Option<RawEvent>)
        ensures
            *final(self) == (SckStream { queue: final(self).queue, ..*old(self) }),
            event is Some <==> old(self).queue@.items.len() > 0,
            event matches Some(oldest) ==> oldest == old(self).queue@.items[0] && final(self).queue@
                == old(self).queue@.without_oldest(),
            event is None ==> final(self).queue@ == old(self).queue@,
    {
        self.queue.take()
    }

    /// What a consumer is told before it waits: that the stream stopped on its
    /// own and has nothing more to give, or the losses since it was last told.
    /// `None` lets it wait.
    pub fn before_waiting(&mut self) -> (reply: Option<Result<CaptureEvent>>)
        ensures
            old(self).errored ==> {
                &&& reply matches Some(answer)
                &&& crate::error::is_platform(
                    answer,
                    "SCStream stopped with error; check tracing logs"@,
                )
                &&& *final(self) == *old(self)
            },
            !old(self).errored ==> {
                &&& *final(self) == (SckStream { queue: final(self).queue, ..*old(self) })
                &&& final(self).queue@ == old(self).queue@.reported()
                &&& reply == match old(self).queue@.gap() {
                    Some(gap) => Some::<Result<CaptureEvent>>(Ok(gap)),
                    None => None,
                }
            },
    {
        if self.errored {
            return Some(
                Err(
                    PinrayError::Platform(
                        "SCStream stopped with error; check tracing logs".to_owned(),
                    ),
                ),
            );
        }
        match self.queue.report() {
            Some(gap) => Some(Ok(gap)),
            None => None,
        }
    }
}

/// What stopping comes to; `refusal` is what the system had against it.
pub fn stopped(refusal: Option<String>) -> (reply: Result<()>)
    ensures
        reply is Ok <==> refusal is None,
        refusal matches Some(message) ==> crate::error::is_platform(
            reply,
            "stopCapture: "@ + message@,
        ),
{
    match refusal {
        None => Ok(()),
        Some(message) => Err(PinrayError::Platform(joined("stopCapture: ", message.as_str()))),
    }
}

/// The answer to a consumer that waited.
pub fn after_waiting(delivery: Delivery<RawEvent>, timeout: Option<Duration>) -> (reply: Result<
    CaptureEvent,
>)
    requires
        delivery is TimedOut ==> timeout is Some,
    ensures
        match delivery {
            Delivery::Received(RawEvent::Video(frame)) => reply == Ok::<CaptureEvent, PinrayError>(
                CaptureEvent::Video(frame),
            ),
            Delivery::Received(RawEvent::Audio(frame)) => reply == Ok::<CaptureEvent, PinrayError>(
                CaptureEvent::Audio(frame),
            ),
            Delivery::Received(RawEvent::Ended(message)) => crate::error::is_platform(
                reply,
                "SCStream stopped with error: "@ + message@,
            ),
            Delivery::TimedOut => reply == Err::<CaptureEvent, PinrayError>(
                PinrayError::Timeout(timeout->0),
            ),
            Delivery::Disconnected => crate::error::is_platform(
                reply,
                "SCStream event channel disconnected"@,
            ),
        },
{
    match delivered(delivery, timeout, "SCStream event channel disconnected") {
        Ok(RawEvent::Video(frame)) => Ok(CaptureEvent::Video(frame)),
        Ok(RawEvent::Audio(frame)) => Ok(CaptureEvent::Audio(frame)),
        Ok(RawEvent::Ended(message)) => Err(
            PinrayError::Platform(joined("SCStream stopped with error: ", message.as_str())),
        ),
        Err(error) => Err(error),
    }
}

/// The pictures of a stream are as wide as the display and as high, in its own
/// pixels, or one less where that is odd. They are BGRA, show what the crop asks
/// for, and come at the rate that is set, else sixty a second. The stream carries
/// stereo at 48 kHz exactly if it carries audio.
pub proof fn streams_are_as_configured(
    config: &SessionConfig,
    dimensions: DisplayDimensions,
    capture_audio: bool,
    configuration: StreamConfiguration,
)
    requires
        call_ensures(
            build_stream_configuration,
            (config, dimensions, capture_audio),
            configuration,
        ),
        dimensions.width * dimensions.scale <= u32::MAX,
        dimensions.height * dimensions.scale <= u32::MAX,
    ensures
        ({
            let wide = dimensions.width * dimensions.scale;
            let high = dimensions.height * dimensions.scale;
            &&& configuration.width % 2 == 0
            &&& configuration.height % 2 == 0
            &&& wide >= 2 ==> wide - 1 <= configuration.width <= wide
            &&& high >= 2 ==> high - 1 <= configuration.height <= high
            &&& wide < 2 ==> configuration.width == 2
            &&& high < 2 ==> configuration.height == 2
        }),
        configuration.pixel_format == 0x42475241,
        configuration.source_rect == config.crop_rect,
        config.frame_rate is None ==> configuration.frames_per_second == 60,
        config.frame_rate matches Some(fps) ==> {
            &&& 1 <= fps <= i32::MAX ==> configuration.frames_per_second == fps
            &&& fps == 0 ==> configuration.frames_per_second == 1
        },
        configuration.audio is Some <==> capture_audio,
        configuration.audio matches Some(audio) ==> audio.sample_rate == 48_000 && audio.channels
            == 2,
{
    pictures_are_even(dimensions.width * dimensions.scale);
    pictures_are_even(dimensions.height * dimensions.scale);
    assert(dimensions.width * dimensions.scale >= 0) by (nonlinear_arith)
        requires
            dimensions.width >= 0,
            dimensions.scale >= 0,
    ;
    assert(dimensions.height * dimensions.scale >= 0) by (nonlinear_arith)
        requires
            dimensions.height >= 0,
            dimensions.scale >= 0,
    ;
}

/// A session shows the window that it names by its listed id, or the display; and
/// the first display where it names none. What is not shared is refused.
pub proof fn sessions_show_what_they_name(
    number: u32,
    id: SourceId,
    displays: &Vec<DisplayReport>,
    windows: &Vec<WindowReport>,
    window: Result<ContentFilter>,
    display: Result<ContentFilter>,
    whole: Result<ContentFilter>,
)
    requires
        id.0@ == crate::text::decimal(number as nat),
        call_ensures(
            build_content_filter,
            (&Some(VideoCaptureTarget::Window(id)), displays, windows),
            window,
        ),
        call_ensures(
            build_content_filter,
            (&Some(VideoCaptureTarget::Display(id)), displays, windows),
            display,
        ),
        call_ensures(
            build_content_filter,
            (&None::<VideoCaptureTarget>, displays, windows),
            whole,
        ),
    ensures
        window matches Ok(filter) ==> (filter matches ContentFilter::Window(index) && index
            < windows@.len() && windows@[index as int].id == number),
        display matches Ok(filter) ==> (filter matches ContentFilter::Display(index) && index
            < displays@.len() && displays@[index as int].id == number),
        whole matches Ok(filter) ==> filter == ContentFilter::Display(0),
        whole is Ok <==> displays@.len() > 0,
{
    crate::platform_macos::content::listed_ids_are_read_back(number);
    crate::platform_macos::content::lemma_numbers_are_not_auto(number as nat);
    if whole is Err && displays@.len() > 0 {
        assert(shows(ContentFilter::Display(0), None, displays@, windows@));
    }
}

/// The capture of the first display, without a crop or with one, has twice its
/// width and twice its height, and the cursor exactly if it is embedded.
pub proof fn whole_displays_are_captured_at_double_density(
    config: &SessionConfig,
    shared: ShareableContent,
    plan: StreamPlan,
)
    requires
        call_ensures(build_backend, (config, Ok(shared)), Ok(plan)),
        config.video_target is None,
        shared.displays@.len() > 0,
        0 < shared.displays@[0].width <= 0x7fff_ffff,
        0 < shared.displays@[0].height <= 0x7fff_ffff,
        !(config.audio_capture matches Some(AudioCapture::Microphone(_))),
    ensures
        plan.filter == ContentFilter::Display(0),
        plan.configuration.width == 2 * shared.displays@[0].width,
        plan.configuration.height == 2 * shared.displays@[0].height,
        plan.configuration.shows_cursor <==> config.cursor_mode == CursorMode::Embedded,
        plan.configuration.source_rect == config.crop_rect,
        plan.configuration.audio is Some <==> config.audio_capture is Some,
        plan.info.supports_audio <==> config.audio_capture is Some,
        plan.info.kind == BackendKind::MacScreenCaptureKit,
{
    let dimensions = choose|dimensions: DisplayDimensions| #[trigger]
        crate::platform_macos::content::has_dimensions(
            shared.displays@,
            config.video_target,
            dimensions,
        ) && plan.configuration == configured(*config, dimensions, config.audio_capture is Some);
    assert(crate::platform_macos::content::has_dimensions(
        shared.displays@,
        config.video_target,
        dimensions,
    ));
    assert(dimensions.width * dimensions.scale == 2 * dimensions.width && dimensions.height
        * dimensions.scale == 2 * dimensions.height) by (nonlinear_arith)
        requires
            dimensions.scale == 2,
    ;
}

/// A session is refused for a microphone before anything else, then for content
/// that could not be had.
pub proof fn refusals_come_in_order(
    config: &SessionConfig,
    content: Result<ShareableContent>,
    reply: Result<StreamPlan>,
)
    requires
        call_ensures(build_backend, (config, content), reply),
    ensures
        config.audio_capture matches Some(AudioCapture::Microphone(_)) ==> (reply matches Err(
            PinrayError::Unsupported(_),
        )),
        !(config.audio_capture matches Some(AudioCapture::Microphone(_))) ==> (
        content matches Err(error) ==> reply == Err::<StreamPlan, PinrayError>(error)),
{
}

/// The stream carries audio exactly for those who ask for the system's.
pub proof fn only_the_system_mix_is_captured(config: &SessionConfig, reply: Result<bool>)
    requires
        call_ensures(captures_audio, (config,), reply),
    ensures
        reply == Ok::<bool, PinrayError>(true) <==> config.audio_capture == Some(
            AudioCapture::SystemMix,
        ),
        reply == Ok::<bool, PinrayError>(false) <==> config.audio_capture is None,
        reply is Err <==> (config.audio_capture matches Some(AudioCapture::Microphone(_))),
        reply matches Err(problem) ==> problem is Unsupported,
{
}

/// A time is told in whole nanoseconds: as many as its parts of a second make up,
/// and no more. A time without a scale is zero.
pub proof fn times_are_told_in_whole_nanoseconds(time: MediaTime, nanos: i64)
    requires
        call_ensures(pts_to_ns, (time,), nanos),
    ensures
        time.timescale == 0 ==> nanos == 0,
        time.timescale > 0 && time.value >= 0 && time.value * 1_000_000_000 < time.timescale
            * 0x7fff_ffff_ffff_ffff ==> 0 <= nanos && nanos * time.timescale <= time.value
            * 1_000_000_000 < (nanos + 1) * time.timescale,
{
    if time.timescale > 0 && time.value >= 0 && time.value * 1_000_000_000 < time.timescale
        * 0x7fff_ffff_ffff_ffff {
        let parts = time.value * 1_000_000_000;
        let scale = time.timescale as int;
        vstd::arithmetic::div_mod::lemma_fundamental_div_mod(parts, scale);
        vstd::arithmetic::div_mod::lemma_div_pos_is_pos(parts, scale);
        assert(parts / scale < 0x7fff_ffff_ffff_ffff) by (nonlinear_arith)
            requires
                parts == scale * (parts / scale) + parts % scale,
                0 <= parts % scale,
                parts < scale * 0x7fff_ffff_ffff_ffff,
                scale > 0,
        ;
        assert(nanos * scale <= parts < (nanos + 1) * scale) by (nonlinear_arith)
            requires
                parts == scale * nanos + parts % scale,
                0 <= parts % scale < scale,
        ;
    }
}

/// Of a buffer that has only the first rows, exactly those are copied, without
/// their padding.
pub proof fn missing_rows_are_left_out(
    raw: Seq<u8>,
    stride: int,
    row_bytes: int,
    rows: nat,
    there: nat,
)
    requires
        stride >= 0,
        there <= rows,
        there > 0 ==> (there - 1) * stride + row_bytes <= raw.len(),
        there < rows ==> there * stride + row_bytes > raw.len(),
    ensures
        copied_rows(raw, stride, row_bytes, rows) == crate::pixels::packed_rows(
            raw,
            stride,
            row_bytes,
            there,
        ),
    decreases rows,
{
    if there == rows {
        complete_buffers_lose_nothing(raw, stride, row_bytes, rows);
    } else {
        missing_rows_are_left_out(raw, stride, row_bytes, (rows - 1) as nat, there);
        assert((rows - 1) * stride >= there * stride) by (nonlinear_arith)
            requires
                there <= rows - 1,
                stride >= 0,
        ;
    }
}

/// A pixel of a complete buffer is found in the same row and column once the
/// padding is gone: blue is where the delivered format has it, and so is red, and
/// green and alpha stay. Whichever of the two packed formats is asked for is
/// delivered.
pub proof fn pictures_keep_every_pixel(
    native: u32,
    raw: &[u8],
    w: u32,
    h: u32,
    bytes_per_row: u32,
    desired: PixelFormat,
    pixels: (PixelFormat, Vec<u8>),
    row: int,
    column: int,
)
    requires
        call_ensures(normalize_pixels, (native, raw, w, h, bytes_per_row, desired), pixels),
        0 <= row < h,
        0 <= column < w,
        (h - 1) * bytes_per_row + w * 4 <= raw@.len(),
        native == 0x42475241 || native == 0x52474241,
        desired == PixelFormat::Bgra8888 || desired == PixelFormat::Rgba8888,
    ensures
        pixels.0 == desired,
        pixels.1@.len() == h * (w * 4),
        ({
            let from = row * bytes_per_row + column * 4;
            let to = row * (w * 4) + column * 4;
            let came_blue_first = native == 0x42475241;
            let blue = raw@[from + if came_blue_first {
                0int
            } else {
                2
            }];
            let red = raw@[from + if came_blue_first {
                2int
            } else {
                0
            }];
            &&& pixels.1@[to + if desired == PixelFormat::Bgra8888 {
                0int
            } else {
                2
            }] == blue
            &&& pixels.1@[to + 1] == raw@[from + 1]
            &&& pixels.1@[to + if desired == PixelFormat::Bgra8888 {
                2int
            } else {
                0
            }] == red
            &&& pixels.1@[to + 3] == raw@[from + 3]
        }),
{
    let pitch = bytes_per_row as int;
    let row_bytes = w * 4;
    complete_buffers_lose_nothing(raw@, pitch, row_bytes, h as nat);
    crate::pixels::packed_rows_length(raw@, pitch, row_bytes, h as nat);
    crate::pixels::packed_rows_keep_every_byte(raw@, pitch, row_bytes, h as nat, row, column * 4);
    crate::pixels::packed_rows_keep_every_byte(
        raw@,
        pitch,
        row_bytes,
        h as nat,
        row,
        column * 4 + 1,
    );
    crate::pixels::packed_rows_keep_every_byte(
        raw@,
        pitch,
        row_bytes,
        h as nat,
        row,
        column * 4 + 2,
    );
    crate::pixels::packed_rows_keep_every_byte(
        raw@,
        pitch,
        row_bytes,
        h as nat,
        row,
        column * 4 + 3,
    );
    let to = row * row_bytes + column * 4;
    assert(to == 4 * (row * w + column) && h * row_bytes == 4 * (h * w) && row * w + column + 1 <= h
        * w && 0 <= row * w) by (nonlinear_arith)
        requires
            row_bytes == w * 4,
            to == row * row_bytes + column * 4,
            0 <= row,
            row + 1 <= h,
            0 <= column < w,
    ;
}

/// Copied rows are those of the buffer, each byte in the same row and column.
pub proof fn copying_only_removes_the_padding(
    raw: &[u8],
    stride: usize,
    row_bytes: usize,
    rows: usize,
    packed: Vec<u8>,
    row: int,
    column: int,
)
    requires
        call_ensures(copy_rows, (raw, stride, row_bytes, rows), packed),
        0 <= row < rows,
        0 <= column < row_bytes,
        (rows - 1) * stride + row_bytes <= raw@.len(),
    ensures
        packed@.len() == rows * row_bytes,
        packed@[row * row_bytes + column] == raw@[row * stride + column],
{
    complete_buffers_lose_nothing(raw@, stride as int, row_bytes as int, rows as nat);
    crate::pixels::packed_rows_length(raw@, stride as int, row_bytes as int, rows as nat);
    crate::pixels::packed_rows_keep_every_byte(
        raw@,
        stride as int,
        row_bytes as int,
        rows as nat,
        row,
        column,
    );
}

/// A picture becomes a frame of its size, with rows without padding, its time and
/// the number that it is given; the pixels are what normalization makes of it. No
/// frame comes of nothing.
pub proof fn pictures_become_frames(
    time: MediaTime,
    nanos: i64,
    sample: ImageSample,
    sequence: u64,
    desired: PixelFormat,
    normalized: (PixelFormat, Vec<u8>),
    frame: Option<VideoFrame>,
    nothing: Option<VideoFrame>,
)
    requires
        call_ensures(extract_video_frame, (time, Some(sample), sequence, desired), frame),
        call_ensures(extract_video_frame, (time, None::<ImageSample>, sequence, desired), nothing),
        call_ensures(pts_to_ns, (time,), nanos),
        call_ensures(
            normalize_pixels,
            (
                sample.native_format,
                sample.data,
                sample.width,
                sample.height,
                sample.bytes_per_row,
                desired,
            ),
            normalized,
        ),
    ensures
        nothing is None,
        frame is None <==> sample.width == 0 || sample.height == 0 || sample.data@.len() == 0,
        frame matches Some(video) ==> {
            &&& video.width == sample.width
            &&& video.height == sample.height
            &&& video.stride == sample.width * 4
            &&& video.stream_time_ns == nanos
            &&& video.sequence == sequence
            &&& video.pixel_format == normalized.0
            &&& video.data matches FrameData::Host(bytes) && bytes@ == normalized.1@
            &&& video.color_space == Some(ColorSpace::Srgb)
            &&& video.damage is None
        },
{
}

/// A packet of samples becomes a frame of them, stereo at 48 kHz, with its time
/// and the number that it is given. No frame comes of nothing.
pub proof fn samples_become_frames(
    time: MediaTime,
    nanos: i64,
    sample_count: i64,
    samples: Option<Vec<u8>>,
    sequence: u64,
    frame: Option<AudioFrame>,
)
    requires
        call_ensures(extract_audio_frame, (time, sample_count, samples, sequence), frame),
        call_ensures(pts_to_ns, (time,), nanos),
    ensures
        frame is None <==> sample_count == 0 || samples is None || (samples matches Some(bytes)
            && bytes@.len() == 0),
        frame matches Some(audio) ==> {
            &&& audio.stream_time_ns == nanos
            &&& audio.sequence == sequence
            &&& audio.sample_rate == 48_000
            &&& audio.channels == 2
            &&& audio.sample_format == SampleFormat::F32
            &&& samples matches Some(bytes) && audio.data == AudioData::Interleaved(bytes)
        },
{
}

/// A new stream waits to be started, with room for as many events as it is made
/// for, and numbers both kinds of frames from zero on.
pub proof fn new_streams_are_empty(
    desired_pixel_format: PixelFormat,
    capture_audio: bool,
    queue_depth: usize,
    stream: SckStream,
)
    requires
        call_ensures(SckStream::new, (desired_pixel_format, capture_audio, queue_depth), stream),
    ensures
        stream.desired_pixel_format == desired_pixel_format,
        stream.capture_audio == capture_audio,
        !stream.active,
        !stream.errored,
        stream.video_sequence == 0,
        stream.audio_sequence == 0,
        stream.queue@.limit == queue_depth,
        stream.queue@.items.len() == 0,
        stream.queue@.dropped == 0,
{
}

/// Pictures are wanted exactly while the stream is active, and packets while it
/// also carries audio; each kind has the next number of its own.
pub proof fn frames_are_wanted_while_active(
    stream: &SckStream,
    video: Option<u64>,
    audio: Option<u64>,
)
    requires
        call_ensures(SckStream::wants_video, (stream,), video),
        call_ensures(SckStream::wants_audio, (stream,), audio),
    ensures
        video is Some <==> stream.active,
        audio is Some <==> stream.active && stream.capture_audio,
        video matches Some(sequence) ==> sequence == stream.video_sequence,
        audio matches Some(sequence) ==> sequence == stream.audio_sequence,
{
}

/// A picture joins the queue at the end and takes its number, where there is
/// room; else it is counted as lost, and its number stays. Packets' numbers are
/// not touched.
pub proof fn pictures_are_numbered_if_delivered(stream: &mut SckStream, frame: VideoFrame)
    requires
        call_ensures(SckStream::offer_video, (stream, frame), ()),
        old(stream).video_sequence < u64::MAX,
    ensures
        old(stream).queue@.items.len() < old(stream).queue@.limit ==> {
            &&& final(stream).video_sequence == old(stream).video_sequence + 1
            &&& final(stream).queue@.items == old(stream).queue@.items + seq![
                RawEvent::Video(frame),
            ]
            &&& final(stream).queue@.dropped == old(stream).queue@.dropped
        },
        old(stream).queue@.items.len() >= old(stream).queue@.limit ==> {
            &&& final(stream).video_sequence == old(stream).video_sequence
            &&& final(stream).queue@.items == old(stream).queue@.items
            &&& old(stream).queue@.dropped < u32::MAX ==> final(stream).queue@.dropped == old(
                stream,
            ).queue@.dropped + 1
        },
        final(stream).audio_sequence == old(stream).audio_sequence,
        final(stream).active == old(stream).active,
        final(stream).errored == old(stream).errored,
        final(stream).capture_audio == old(stream).capture_audio,
        final(stream).desired_pixel_format == old(stream).desired_pixel_format,
{
    assert(old(stream).queue@.items.push(RawEvent::Video(frame)) =~= old(stream).queue@.items
        + seq![RawEvent::Video(frame)]);
}

/// The same holds of packets, and pictures' numbers are not touched.
pub proof fn packets_are_numbered_if_delivered(stream: &mut SckStream, frame: AudioFrame)
    requires
        call_ensures(SckStream::offer_audio, (stream, frame), ()),
        old(stream).audio_sequence < u64::MAX,
    ensures
        old(stream).queue@.items.len() < old(stream).queue@.limit ==> {
            &&& final(stream).audio_sequence == old(stream).audio_sequence + 1
            &&& final(stream).queue@.items == old(stream).queue@.items + seq![
                RawEvent::Audio(frame),
            ]
            &&& final(stream).queue@.dropped == old(stream).queue@.dropped
        },
        old(stream).queue@.items.len() >= old(stream).queue@.limit ==> {
            &&& final(stream).audio_sequence == old(stream).audio_sequence
            &&& final(stream).queue@.items == old(stream).queue@.items
            &&& old(stream).queue@.dropped < u32::MAX ==> final(stream).queue@.dropped == old(
                stream,
            ).queue@.dropped + 1
        },
        final(stream).video_sequence == old(stream).video_sequence,
        final(stream).active == old(stream).active,
        final(stream).errored == old(stream).errored,
        final(stream).capture_audio == old(stream).capture_audio,
        final(stream).desired_pixel_format == old(stream).desired_pixel_format,
{
    assert(old(stream).queue@.items.push(RawEvent::Audio(frame)) =~= old(stream).queue@.items
        + seq![RawEvent::Audio(frame)]);
}

/// A stream is active from when it is about to start, unless the system refuses
/// that, and is told so.
pub proof fn refused_starts_are_undone(
    stream: &mut SckStream,
    refusal: Option<String>,
    reply: Result<()>,
)
    requires
        call_ensures(SckStream::started, (stream, refusal), reply),
        old(stream).active,
    ensures
        reply is Ok <==> refusal is None,
        final(stream).active <==> refusal is None,
        refusal matches Some(message) ==> (reply matches Err(PinrayError::Platform(told)) && told@
            == "startCapture: "@ + message@),
        final(stream).errored == old(stream).errored,
        final(stream).queue == old(stream).queue,
        final(stream).video_sequence == old(stream).video_sequence,
        final(stream).audio_sequence == old(stream).audio_sequence,
{
}

/// Starting and stopping touch nothing but whether the stream is active.
pub proof fn starting_activates(stream: &mut SckStream)
    requires
        call_ensures(SckStream::starting, (stream,), ()),
    ensures
        final(stream).active,
        final(stream).errored == old(stream).errored,
        final(stream).queue == old(stream).queue,
        final(stream).video_sequence == old(stream).video_sequence,
        final(stream).audio_sequence == old(stream).audio_sequence,
        final(stream).capture_audio == old(stream).capture_audio,
        final(stream).desired_pixel_format == old(stream).desired_pixel_format,
{
}

/// Starting and stopping touch nothing but whether the stream is active.
pub proof fn stopping_deactivates(stream: &mut SckStream)
    requires
        call_ensures(SckStream::stopping, (stream,), ()),
    ensures
        !final(stream).active,
        final(stream).errored == old(stream).errored,
        final(stream).queue == old(stream).queue,
        final(stream).video_sequence == old(stream).video_sequence,
        final(stream).audio_sequence == old(stream).audio_sequence,
        final(stream).capture_audio == old(stream).capture_audio,
        final(stream).desired_pixel_format == old(stream).desired_pixel_format,
{
}

/// A stream that stopped on its own remembers it, and tells a consumer that waits
/// where there is room.
pub proof fn ends_are_remembered(stream: &mut SckStream, message: String)
    requires
        call_ensures(SckStream::stopped_itself, (stream, message), ()),
    ensures
        final(stream).errored,
        old(stream).queue@.items.len() < old(stream).queue@.limit ==> final(stream).queue@.items
            == old(stream).queue@.items + seq![RawEvent::Ended(message)],
        old(stream).queue@.items.len() >= old(stream).queue@.limit ==> final(stream).queue@.items
            == old(stream).queue@.items,
        final(stream).queue@.dropped == old(stream).queue@.dropped,
        final(stream).video_sequence == old(stream).video_sequence,
        final(stream).audio_sequence == old(stream).audio_sequence,
        final(stream).active == old(stream).active,
{
    assert(old(stream).queue@.items.push(RawEvent::Ended(message)) =~= old(stream).queue@.items
        + seq![RawEvent::Ended(message)]);
}

/// The consumer takes the events in the order in which they came.
pub proof fn the_oldest_event_is_taken(stream: &mut SckStream, event: Option<RawEvent>)
    requires
        call_ensures(SckStream::take, (stream,), event),
    ensures
        event is None <==> old(stream).queue@.items.len() == 0,
        event matches Some(oldest) ==> old(stream).queue@.items == seq![oldest] + final(stream).queue@.items,
        event is None ==> final(stream).queue@ == old(stream).queue@,
        final(stream).queue@.dropped == old(stream).queue@.dropped,
        final(stream).video_sequence == old(stream).video_sequence,
        final(stream).audio_sequence == old(stream).audio_sequence,
        final(stream).active == old(stream).active,
        final(stream).errored == old(stream).errored,
{
    if let Some(oldest) = event {
        assert(old(stream).queue@.items =~= seq![oldest] + final(stream).queue@.items);
    }
}

/// Before it waits, a consumer is told that the stream ended, or else of the
/// frames that were lost since it was last told, and of how many.
pub proof fn ends_and_losses_are_told_before_waiting(
    stream: &mut SckStream,
    reply: Option<Result<CaptureEvent>>,
)
    requires
        call_ensures(SckStream::before_waiting, (stream,), reply),
    ensures
        old(stream).errored <==> (reply matches Some(Err(_))),
        reply matches Some(Err(problem)) ==> problem is Platform,
        !old(stream).errored && old(stream).queue@.dropped > 0 <==> (reply matches Some(Ok(_))),
        reply matches Some(Ok(event)) ==> (event matches CaptureEvent::Gap(lost)
            && lost.dropped_frames == Some(old(stream).queue@.dropped)),
        !old(stream).errored ==> final(stream).queue@.dropped == 0,
        old(stream).errored ==> final(stream).queue@.dropped == old(stream).queue@.dropped,
        final(stream).queue@.items == old(stream).queue@.items,
        final(stream).errored == old(stream).errored,
        final(stream).active == old(stream).active,
{
}

/// A consumer is handed what arrived, told its own timeout if nothing did, and
/// told of a stream that ended.
pub proof fn consumers_are_told_what_arrived(
    video: VideoFrame,
    audio: AudioFrame,
    message: String,
    limit: Duration,
    timeout: Option<Duration>,
    picture: Result<CaptureEvent>,
    packet: Result<CaptureEvent>,
    ended: Result<CaptureEvent>,
    late: Result<CaptureEvent>,
    gone: Result<CaptureEvent>,
)
    requires
        call_ensures(after_waiting, (Delivery::Received(RawEvent::Video(video)), timeout), picture),
        call_ensures(after_waiting, (Delivery::Received(RawEvent::Audio(audio)), timeout), packet),
        call_ensures(after_waiting, (Delivery::Received(RawEvent::Ended(message)), timeout), ended),
        call_ensures(after_waiting, (Delivery::TimedOut, Some(limit)), late),
        call_ensures(after_waiting, (Delivery::Disconnected, timeout), gone),
    ensures
        picture == Ok::<CaptureEvent, PinrayError>(CaptureEvent::Video(video)),
        packet == Ok::<CaptureEvent, PinrayError>(CaptureEvent::Audio(audio)),
        ended matches Err(PinrayError::Platform(told)) && told@
            == "SCStream stopped with error: "@ + message@,
        late == Err::<CaptureEvent, PinrayError>(PinrayError::Timeout(limit)),
        gone matches Err(problem) && problem is Platform,
{
}

/// A stop succeeds unless the system refuses it.
pub proof fn refused_stops_are_told(refusal: Option<String>, reply: Result<()>)
    requires
        call_ensures(stopped, (refusal,), reply),
    ensures
        reply is Ok <==> refusal is None,
        refusal matches Some(message) ==> (reply matches Err(PinrayError::Platform(told)) && told@
            == "stopCapture: "@ + message@),
{
}

/// What the backend says of itself.
pub proof fn the_backend_has_audio_if_it_says_so(supports_audio: bool, info: BackendInfo)
    requires
        call_ensures(backend_info, (supports_audio,), info),
    ensures
        info.kind == BackendKind::MacScreenCaptureKit,
        info.supports_audio == supports_audio,
        !info.zero_copy,
        info.notes@
            == "ScreenCaptureKit via XPC + CVPixelBuffer host-copy"@,
{
}

/// Every refusal tells why.
pub proof fn refusals_tell_why(
    config: &SessionConfig,
    audio: Result<bool>,
    stream: &mut SckStream,
    reply: Option<Result<CaptureEvent>>,
    timeout: Option<Duration>,
    gone: Result<CaptureEvent>,
)
    requires
        call_ensures(captures_audio, (config,), audio),
        call_ensures(SckStream::before_waiting, (stream,), reply),
        call_ensures(after_waiting, (Delivery::Disconnected, timeout), gone),
    ensures
        audio matches Err(PinrayError::Unsupported(message)) ==> message@
            == "macos microphone capture is not implemented yet"@,
        reply matches Some(Err(problem)) ==> (problem matches PinrayError::Platform(message)
            && message@ == "SCStream stopped with error; check tracing logs"@),
        gone matches Err(PinrayError::Platform(message)) && message@
            == "SCStream event channel disconnected"@,
{
}

/// A time that is too far for the range is told by the low bits of its whole
/// nanoseconds, and one before zero is as far before it as the opposite one is
/// behind it.
pub proof fn far_times_wrap_around(value: i64, timescale: i32, nanos: i64, opposite: i64)
    requires
        call_ensures(pts_to_ns, (MediaTime { value, timescale },), nanos),
        call_ensures(pts_to_ns, (MediaTime { value: (-value) as i64, timescale },), opposite),
        timescale > 0,
        value >= 0,
    ensures
        exists|whole: int|
            {
                &&& #[trigger] (whole * timescale) <= value * 1_000_000_000 < (whole + 1)
                    * timescale
                &&& (whole - nanos) % 0x1_0000_0000_0000_0000 == 0
                &&& (-whole - opposite) % 0x1_0000_0000_0000_0000 == 0
            },
{
    let parts = value * 1_000_000_000;
    let scale = timescale as int;
    let whole = parts / scale;
    vstd::arithmetic::div_mod::lemma_fundamental_div_mod(parts, scale);
    assert(whole * scale <= parts < (whole + 1) * scale) by (nonlinear_arith)
        requires
            parts == scale * whole + parts % scale,
            0 <= parts % scale < scale,
    ;
    assert((-value) as i64 == -value);
    assert(crate::numbers::truncated_quotient(parts, scale) == whole);
    assert(-parts == ((-value) as i64) * 1_000_000_000);
    assert(crate::numbers::truncated_quotient(-parts, scale) == -whole) by {
        if parts == 0 {
            assert(0int / scale == 0) by (nonlinear_arith)
                requires
                    scale > 0,
            ;
        }
    }
    assert(whole * timescale <= value * 1_000_000_000);
}

/// A rate that is too high for the range is told by its low bits.
pub proof fn high_rates_wrap_around(
    config: &SessionConfig,
    fps: u32,
    dimensions: DisplayDimensions,
    capture_audio: bool,
    configuration: StreamConfiguration,
)
    requires
        call_ensures(
            build_stream_configuration,
            (config, dimensions, capture_audio),
            configuration,
        ),
        config.frame_rate == Some(fps),
        fps > 0,
    ensures
        (configuration.frames_per_second - fps) % 0x1_0000_0000 == 0,
{
}

/// Of a buffer that has only the first rows, exactly those are copied, each byte
/// in the same row and column.
pub proof fn rows_that_are_there_are_copied(
    raw: &[u8],
    stride: usize,
    row_bytes: usize,
    rows: usize,
    there: usize,
    packed: Vec<u8>,
    row: int,
    column: int,
)
    requires
        call_ensures(copy_rows, (raw, stride, row_bytes, rows), packed),
        0 <= row < there < rows,
        0 <= column < row_bytes,
        (there - 1) * stride + row_bytes <= raw@.len() < there * stride + row_bytes,
    ensures
        packed@.len() == there * row_bytes,
        packed@[row * row_bytes + column] == raw@[row * stride + column],
{
    missing_rows_are_left_out(
        raw@,
        stride as int,
        row_bytes as int,
        rows as nat,
        there as nat,
    );
    crate::pixels::packed_rows_length(raw@, stride as int, row_bytes as int, there as nat);
    crate::pixels::packed_rows_keep_every_byte(
        raw@,
        stride as int,
        row_bytes as int,
        there as nat,
        row,
        column,
    );
}

/// A window that is shared is shown, and so is a display: the first with the
/// number that the session names. A session is refused only for what is not
/// shared.
pub proof fn what_is_shared_is_shown(
    number: u32,
    id: SourceId,
    displays: &Vec<DisplayReport>,
    windows: &Vec<WindowReport>,
    window: Result<ContentFilter>,
    display: Result<ContentFilter>,
    i: int,
)
    requires
        id.0@ == crate::text::decimal(number as nat),
        call_ensures(
            build_content_filter,
            (&Some(VideoCaptureTarget::Window(id)), displays, windows),
            window,
        ),
        call_ensures(
            build_content_filter,
            (&Some(VideoCaptureTarget::Display(id)), displays, windows),
            display,
        ),
    ensures
        0 <= i < windows@.len() && windows@[i].id == number ==> (window matches Ok(
            ContentFilter::Window(index),
        ) && index <= i),
        0 <= i < displays@.len() && displays@[i].id == number ==> (display matches Ok(
            ContentFilter::Display(index),
        ) && index <= i),
{
    crate::platform_macos::content::listed_ids_are_read_back(number);
    crate::platform_macos::content::lemma_numbers_are_not_auto(number as nat);
    if 0 <= i < windows@.len() && windows@[i].id == number {
        assert(windows@.len() == windows.len());
        let first = lemma_first_window(windows@, number, i);
        let filter = ContentFilter::Window(first as usize);
        assert(shows(filter, Some(VideoCaptureTarget::Window(id)), displays@, windows@));
        if let Ok(ContentFilter::Window(index)) = window {
            if index > i {
                assert(windows@[i].id != windows@[index as int].id);
            }
        }
    }
    if 0 <= i < displays@.len() && displays@[i].id == number {
        assert(displays@.len() == displays.len());
        let first = lemma_first_display(displays@, number, i);
        let filter = ContentFilter::Display(first as usize);
        assert(crate::platform_macos::content::first_with(displays@, number as nat, first));
        assert(shows(filter, Some(VideoCaptureTarget::Display(id)), displays@, windows@));
        if let Ok(ContentFilter::Display(index)) = display {
            if index > i {
                assert(displays@[i].id != number);
            }
        }
    }
}

proof fn lemma_first_window(windows: Seq<WindowReport>, number: u32, i: int) -> (first: int)
    requires
        0 <= i < windows.len() <= usize::MAX,
        windows[i].id == number,
    ensures
        0 <= first <= i,
        windows[first].id == number,
        forall|j: int| 0 <= j < first ==> (#[trigger] windows[j]).id != number,
    decreases i,
{
    if exists|j: int| 0 <= j < i && (#[trigger] windows[j]).id == number {
        let j = choose|j: int| 0 <= j < i && (#[trigger] windows[j]).id == number;
        lemma_first_window(windows, number, j)
    } else {
        i
    }
}

proof fn lemma_first_display(displays: Seq<DisplayReport>, number: u32, i: int) -> (first: int)
    requires
        0 <= i < displays.len() <= usize::MAX,
        displays[i].id == number,
    ensures
        0 <= first <= i,
        displays[first].id == number,
        forall|j: int| 0 <= j < first ==> (#[trigger] displays[j]).id != number,
    decreases i,
{
    if exists|j: int| 0 <= j < i && (#[trigger] displays[j]).id == number {
        let j = choose|j: int| 0 <= j < i && (#[trigger] displays[j]).id == number;
        lemma_first_display(displays, number, j)
    } else {
        i
    }
}

/// A session is planned exactly if what it means can be shown, and shows that.
pub proof fn plans_show_what_is_shared(
    config: &SessionConfig,
    shared: ShareableContent,
    filter: Result<ContentFilter>,
    plan: Result<StreamPlan>,
)
    requires
        call_ensures(build_backend, (config, Ok(shared)), plan),
        call_ensures(
            build_content_filter,
            (&config.video_target, &shared.displays, &shared.windows),
            filter,
        ),
        !(config.audio_capture matches Some(AudioCapture::Microphone(_))),
    ensures
        plan is Ok <==> filter is Ok,
        filter is Ok && config.video_target is None ==> plan->Ok_0.filter == filter->Ok_0,
        plan matches Ok(made) ==> made.configuration.shows_cursor == (config.cursor_mode
            == CursorMode::Embedded),
        plan matches Ok(made) ==> made.configuration.source_rect == config.crop_rect,
        plan matches Ok(made) ==> (made.configuration.audio is Some <==> config.audio_capture
            is Some),
        plan matches Ok(made) ==> (made.info.supports_audio <==> config.audio_capture is Some),
{
    if filter is Ok {
        assert(shows(
            filter->Ok_0,
            config.video_target,
            shared.displays@,
            shared.windows@,
        ));
    }
}

} // verus!
