//! The frame model: one captured picture with its layout and timing.
use vstd::prelude::*;

use crate::audio::AudioFrame;
use crate::pixels::pack_rows;

verus! {

/// An axis-aligned rectangle in pixels, used for crop regions and damage.
#[derive(Debug, Clone, Copy, PartialEq, Eq, Structural)]
pub struct Rect {
    pub x: i32,
    pub y: i32,
    pub width: u32,
    pub height: u32,
}

/// Pixel layout of [`VideoFrame::data`].
///
/// All backends deliver `Bgra8888` natively and can swizzle to `Rgba8888`;
/// the remaining formats exist for future zero-copy paths.
#[derive(Debug, Clone, Copy, PartialEq, Eq, Structural)]
pub enum PixelFormat {
    /// 8-bit B, G, R, A byte order — the native format everywhere.
    Bgra8888,
    /// 8-bit R, G, B, A byte order (CPU swizzle from BGRA).
    Rgba8888,
    /// 24-bit packed RGB, no alpha.
    Rgb888,
    /// Biplanar 4:2:0 YCbCr (Y plane + interleaved CbCr).
    Nv12,
    /// Planar 4:2:0 YCbCr.
    I420,
}

/// Bytes that one pixel takes where all its channels lie side by side; the
/// planar formats have no such number.
pub open spec fn packed_pixel_bytes(format: PixelFormat) -> Option<nat> {
    match format {
        PixelFormat::Bgra8888 | PixelFormat::Rgba8888 => Some(4),
        PixelFormat::Rgb888 => Some(3),
        PixelFormat::Nv12 | PixelFormat::I420 => None,
    }
}

/// The name of a pixel format.
pub open spec fn pixel_format_name(format: PixelFormat) -> Seq<char> {
    match format {
        PixelFormat::Bgra8888 => "Bgra8888"@,
        PixelFormat::Rgba8888 => "Rgba8888"@,
        PixelFormat::Rgb888 => "Rgb888"@,
        PixelFormat::Nv12 => "Nv12"@,
        PixelFormat::I420 => "I420"@,
    }
}

impl PixelFormat {
    /// The name of the format.
    pub fn name(&self) -> (name: &'static str)
        ensures
            name@ == pixel_format_name(*self),
    {
        match self {
            PixelFormat::Bgra8888 => "Bgra8888",
            PixelFormat::Rgba8888 => "Rgba8888",
            PixelFormat::Rgb888 => "Rgb888",
            PixelFormat::Nv12 => "Nv12",
            PixelFormat::I420 => "I420",
        }
    }
}

/// Color space hint for interpreting pixel values.
#[derive(Debug, Clone, Copy, PartialEq, Eq, Structural)]
pub enum ColorSpace {
    Srgb,
    DisplayP3,
    Bt709,
    Bt2020,
}

/// A Linux DMA-BUF plane handle (zero-copy path, not yet produced).
#[derive(Debug, Clone, PartialEq, Eq, Structural)]
pub struct DmabufFrame {
    pub fd: i32,
    pub offset: u32,
    pub size: u32,
    pub stride: u32,
    pub modifier: u64,
}

/// A macOS `CVPixelBuffer` pointer (zero-copy path, not yet produced).
#[derive(Debug, Clone, Copy, PartialEq, Eq, Structural)]
pub struct CvPixelBufferHandle {
    pub ptr: usize,
}

/// A Windows `ID3D11Texture2D` pointer (zero-copy path, not yet produced).
#[derive(Debug, Clone, Copy, PartialEq, Eq, Structural)]
pub struct D3D11TextureHandle {
    pub ptr: usize,
}

/// Where a frame's pixels live.
///
/// Every backend currently produces `Host` (a plain CPU byte buffer); the
/// native-handle variants are reserved for opt-in zero-copy support.
#[derive(Debug, Clone, PartialEq)]
pub enum FrameData {
    /// CPU memory, rows packed at [`VideoFrame::stride`] bytes.
    Host(Vec<u8>),
    Dmabuf(DmabufFrame),
    CvPixelBuffer(CvPixelBufferHandle),
    D3D11Texture(D3D11TextureHandle),
}

/// One captured video frame with complete layout and timing metadata.
#[derive(Debug, Clone, PartialEq)]
pub struct VideoFrame {
    /// Capture timestamp in nanoseconds, monotonic within a session and
    /// comparable with [`AudioFrame::stream_time_ns`] of the same session.
    /// The epoch is platform-dependent (boot time on macOS/Windows,
    /// process-relative on Linux).
    pub stream_time_ns: i64,
    /// Per-stream counter advanced once per delivered frame; a jump means
    /// frames were dropped.
    pub sequence: u64,
    pub width: u32,
    pub height: u32,
    /// Bytes from the start of one row to the next in [`FrameData::Host`].
    pub stride: u32,
    pub pixel_format: PixelFormat,
    pub color_space: Option<ColorSpace>,
    pub data: FrameData,
    /// Changed regions since the previous frame, when the backend knows.
    pub damage: Option<Vec<Rect>>,
}

impl VideoFrame {
    /// The bytes of the picture without row padding, where the frame has
    /// them: its pixels are packed ones in host memory, a row of them fits the
    /// stride, and the buffer holds every row.
    pub open spec fn tight_bytes(&self) -> Option<Seq<u8>> {
        match (self.data, packed_pixel_bytes(self.pixel_format)) {
            (FrameData::Host(bytes), Some(pixel)) => {
                let row_bytes = self.width * pixel;
                if row_bytes <= self.stride && crate::pixels::rows_fit(
                    bytes@.len() as int,
                    self.stride as int,
                    row_bytes as int,
                    self.height as int,
                ) {
                    Some(
                        crate::pixels::packed_rows(
                            bytes@,
                            self.stride as int,
                            row_bytes as int,
                            self.height as nat,
                        ),
                    )
                } else {
                    None
                }
            },
            _ => None,
        }
    }

    /// Copies the picture's rows without their padding, for consumers that
    /// take a frame as `width * height` pixels in a row.
    ///
    /// `None` for a frame that does not live in host memory, for a planar
    /// pixel format, and for a buffer shorter than its layout says.
    pub fn to_tight_bytes(&self) -> (tight: Option<Vec<u8>>)
        ensures
            tight is Some <==> self.tight_bytes() is Some,
            tight matches Some(bytes) ==> Some(bytes@) == self.tight_bytes(),
    {
        let bytes: &Vec<u8> = match &self.data {
            FrameData::Host(bytes) => bytes,
            _ => {
                return None;
            },
        };
        let pixel: u64 = match self.pixel_format {
            PixelFormat::Bgra8888 => 4,
            PixelFormat::Rgba8888 => 4,
            PixelFormat::Rgb888 => 3,
            _ => {
                return None;
            },
        };
        let row_bytes: u64 = self.width as u64 * pixel;
        if row_bytes > self.stride as u64 {
            return None;
        }
        if self.height > 0 {
            proof {
                assert((self.height - 1) * self.stride <= 0xffff_fffe * 0xffff_ffff)
                    by (nonlinear_arith)
                    requires
                        self.height >= 1,
                        self.height - 1 <= 0xffff_fffe,
                        self.stride <= 0xffff_ffff,
                ;
                assert((self.height - 1) * self.stride >= 0) by (nonlinear_arith)
                    requires
                        self.height >= 1,
                        self.stride >= 0,
                ;
            }
            let last: u64 = (self.height as u64 - 1) * self.stride as u64;
            if last + row_bytes > bytes.len() as u64 {
                return None;
            }
        }
        Some(
            pack_rows(
                bytes.as_slice(),
                self.stride as usize,
                row_bytes as usize,
                self.height as usize,
            ),
        )
    }
}

/// Why a [`GapEvent`] was emitted.
#[derive(Debug, Clone, Copy, PartialEq, Eq, Structural)]
pub enum GapReason {
    /// Frames were dropped because the consumer fell behind.
    Dropped,
    /// The stream format changed mid-session.
    FormatChanged,
    /// The backend recovered from losing its capture source (e.g. a display
    /// mode switch invalidating DXGI duplication).
    BackendRestarted,
    Unknown,
}

/// A discontinuity notice: frames were lost or the stream restarted.
#[derive(Debug, Clone, PartialEq, Eq)]
pub struct GapEvent {
    pub stream_time_ns: i64,
    pub reason: GapReason,
    pub dropped_frames: Option<u32>,
}

/// What [`CaptureSession::next_event`](crate::CaptureSession::next_event)
/// yields.
#[derive(Debug, Clone, PartialEq)]
pub enum CaptureEvent {
    Video(VideoFrame),
    Audio(AudioFrame),
    Gap(GapEvent),
    /// The stream ended and no further events will arrive.
    End,
}

/// The tight bytes of a frame are exactly its pixels: `width * height` of
/// them.
pub proof fn tight_bytes_hold_every_pixel(frame: VideoFrame)
    requires
        frame.tight_bytes() is Some,
    ensures
        frame.tight_bytes()->0.len() == frame.height * (frame.width * packed_pixel_bytes(
            frame.pixel_format,
        )->0),
{
    crate::pixels::packed_rows_length(
        frame.data->Host_0@,
        frame.stride as int,
        (frame.width * packed_pixel_bytes(frame.pixel_format)->0) as int,
        frame.height as nat,
    );
}

/// A frame whose rows carry no padding has its own bytes as tight bytes.
pub proof fn unpadded_frames_are_tight_already(frame: VideoFrame)
    requires
        frame.data is Host,
        packed_pixel_bytes(frame.pixel_format) is Some,
        frame.stride == frame.width * packed_pixel_bytes(frame.pixel_format)->0,
        frame.data->Host_0@.len() == frame.height * frame.stride,
    ensures
        frame.tight_bytes() == Some(frame.data->Host_0@),
{
    let bytes = frame.data->Host_0@;
    let row_bytes = frame.stride as int;
    assert((frame.height - 1) * row_bytes + row_bytes == frame.height * row_bytes)
        by (nonlinear_arith);
    crate::pixels::unpadded_rows_are_kept(bytes, row_bytes, frame.height as nat);
    assert(bytes.subrange(0, frame.height * row_bytes) =~= bytes);
}

/// Byte `column` of picture row `row` stands at the same row and column of the
/// tight bytes, whatever the stride.
pub proof fn tight_bytes_keep_rows_straight(frame: VideoFrame, row: int, column: int)
    requires
        frame.tight_bytes() is Some,
        0 <= row < frame.height,
        0 <= column < frame.width * packed_pixel_bytes(frame.pixel_format)->0,
    ensures
        ({
            let row_bytes = frame.width * packed_pixel_bytes(frame.pixel_format)->0;
            frame.tight_bytes()->0[row * row_bytes + column] == frame.data->Host_0@[row
                * frame.stride + column]
        }),
{
    crate::pixels::packed_rows_keep_every_byte(
        frame.data->Host_0@,
        frame.stride as int,
        (frame.width * packed_pixel_bytes(frame.pixel_format)->0) as int,
        frame.height as nat,
        row,
        column,
    );
}

/// The tight bytes of a frame are its pixels in reading order, four bytes each
/// in the two formats that have alpha and three in the one that has not. There
/// are such bytes exactly if the frame's rows are as long as its width says, and
/// are all in its buffer in host memory.
pub proof fn tight_bytes_are_pixels_in_reading_order(
    frame: VideoFrame,
    tight: Option<Vec<u8>>,
    pixel: int,
    x: int,
    y: int,
    channel: int,
)
    requires
        call_ensures(VideoFrame::to_tight_bytes, (&frame,), tight),
        frame.pixel_format == PixelFormat::Bgra8888 || frame.pixel_format == PixelFormat::Rgba8888
            ==> pixel == 4,
        frame.pixel_format == PixelFormat::Rgb888 ==> pixel == 3,
        0 <= x < frame.width,
        0 <= y < frame.height,
        0 <= channel < pixel,
    ensures
        frame.pixel_format == PixelFormat::Nv12 || frame.pixel_format == PixelFormat::I420
            ==> tight is None,
        frame.pixel_format != PixelFormat::Nv12 && frame.pixel_format != PixelFormat::I420 ==> {
            &&& tight is Some <==> frame.data is Host && frame.width * pixel <= frame.stride && (
            frame.height - 1) * frame.stride + frame.width * pixel <= frame.data->Host_0@.len()
            &&& tight matches Some(bytes) ==> {
                &&& bytes@.len() == frame.height * (frame.width * pixel)
                &&& bytes@[y * (frame.width * pixel) + (x * pixel + channel)]
                    == frame.data->Host_0@[y * frame.stride + (x * pixel + channel)]
            }
        },
{
    if frame.pixel_format != PixelFormat::Nv12 && frame.pixel_format != PixelFormat::I420 {
        assert(0 <= x * pixel + channel < frame.width * pixel) by (nonlinear_arith)
            requires
                0 <= x,
                x + 1 <= frame.width,
                0 <= channel < pixel,
        ;
        if tight is Some {
            tight_bytes_hold_every_pixel(frame);
            tight_bytes_keep_rows_straight(frame, y, x * pixel + channel);
        }
    }
}

/// A pixel format goes by the name that its variant has.
pub proof fn pixel_formats_go_by_their_names(format: PixelFormat, name: &'static str)
    requires
        call_ensures(PixelFormat::name, (&format,), name),
    ensures
        format == PixelFormat::Bgra8888 ==> name@ == "Bgra8888"@,
        format == PixelFormat::Rgba8888 ==> name@ == "Rgba8888"@,
        format == PixelFormat::Rgb888 ==> name@ == "Rgb888"@,
        format == PixelFormat::Nv12 ==> name@ == "Nv12"@,
        format == PixelFormat::I420 ==> name@ == "I420"@,
{
}

/// A picture without rows has no bytes, but is one.
pub proof fn pictures_without_rows_are_empty(frame: VideoFrame, tight: Option<Vec<u8>>)
    requires
        call_ensures(VideoFrame::to_tight_bytes, (&frame,), tight),
        frame.height == 0,
        frame.data is Host,
    ensures
        frame.pixel_format == PixelFormat::Bgra8888 || frame.pixel_format == PixelFormat::Rgba8888
            ==> (tight is Some <==> frame.width * 4 <= frame.stride),
        frame.pixel_format == PixelFormat::Rgb888 ==> (tight is Some <==> frame.width * 3
            <= frame.stride),
        tight matches Some(bytes) ==> bytes@.len() == 0,
{
}

} // verus!
