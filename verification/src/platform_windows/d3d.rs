//! Shared Direct3D 11 helpers: crop regions, staging copies in host memory and
//! the performance counter's clock. Used by both the DXGI and WGC backends.
use vstd::prelude::*;
use vstd::string::*;

use crate::error::{failure, PinrayError, Result};
use crate::frame::{FrameData, PixelFormat, Rect, VideoFrame};
use crate::numbers::wrap_to_i64;
use crate::pixels::{convert_bgra, pack_rows};
use crate::text::decimal_text;

verus! {

/// The error for a system call that failed: where, and what the system said.
pub fn win_err(context: &str, error: &str) -> (problem: PinrayError)
    ensures
        problem matches PinrayError::Platform(message) && message@ == crate::error::failure_text(
            context@,
            error@,
        ),
{
    PinrayError::Platform(failure(context, error))
}

/// A counter value in nanoseconds since boot.
pub open spec fn counter_time(qpc: i64, freq: i64) -> int {
    crate::numbers::wrapped_to_i64(
        crate::numbers::truncated_quotient(qpc * 1_000_000_000, freq as int),
    )
}

/// Converts a raw performance counter value to nanoseconds since boot.
pub fn qpc_to_ns(qpc: i64, freq: i64) -> (nanos: i64)
    requires
        freq != 0,
    ensures
        nanos == counter_time(qpc, freq),
{
    let ticks: i128 = qpc as i128 * 1_000_000_000;
    let nanos: i128 = ticks / freq as i128;
    proof {
        if freq < 0 {
            crate::numbers::lemma_negative_divisor(
                if ticks >= 0 { ticks as int } else { -ticks },
                freq as int,
            );
        }
    }
    wrap_to_i64(nanos)
}

/// Within the `i64` range the conversion wraps nowhere: it is the counter's
/// value in nanoseconds, rounded down.
pub proof fn counter_time_is_exact_within_range(qpc: i64, freq: i64)
    requires
        freq > 0,
        qpc >= 0,
        qpc * 1_000_000_000 / (freq as int) <= i64::MAX,
    ensures
        counter_time(qpc, freq) == qpc * 1_000_000_000 / (freq as int),
{
    vstd::arithmetic::div_mod::lemma_div_pos_is_pos(qpc * 1_000_000_000, freq as int);
}

/// A later counter value never converts to an earlier time.
pub proof fn counter_time_is_monotonic(earlier: i64, later: i64, freq: i64)
    requires
        freq > 0,
        0 <= earlier <= later,
        later * 1_000_000_000 / (freq as int) <= i64::MAX,
    ensures
        counter_time(earlier, freq) <= counter_time(later, freq),
{
    vstd::arithmetic::div_mod::lemma_div_is_ordered(
        earlier * 1_000_000_000,
        later * 1_000_000_000,
        freq as int,
    );
    counter_time_is_exact_within_range(earlier, freq);
    counter_time_is_exact_within_range(later, freq);
}

/// The part of a texture that is copied.
#[derive(Debug, Clone, Copy, PartialEq, Eq, Structural)]
pub struct Region {
    pub x: u32,
    pub y: u32,
    pub width: u32,
    pub height: u32,
}

/// The region that a crop asks for: the rectangle with its corner pulled to
/// the origin where it lies before it, or the whole texture.
pub open spec fn wanted_region(crop: Option<Rect>, texture_width: u32, texture_height: u32) -> Region {
    match crop {
        Some(rect) => Region {
            x: if rect.x >= 0 { rect.x as u32 } else { 0 },
            y: if rect.y >= 0 { rect.y as u32 } else { 0 },
            width: rect.width,
            height: rect.height,
        },
        None => Region { x: 0, y: 0, width: texture_width, height: texture_height },
    }
}

/// The region lies within a texture of this size.
pub open spec fn region_fits(region: Region, texture_width: u32, texture_height: u32) -> bool {
    region.x + region.width <= texture_width && region.y + region.height <= texture_height
}

/// How a region outside its texture is reported.
pub open spec fn exceeds_text(region: Region, texture_width: u32, texture_height: u32) -> Seq<char> {
    "crop_rect "@ + crate::text::decimal(region.x as nat) + ","@ + crate::text::decimal(
        region.y as nat,
    ) + " "@ + crate::text::decimal(region.width as nat) + "x"@ + crate::text::decimal(
        region.height as nat,
    ) + " exceeds source "@ + crate::text::decimal(texture_width as nat) + "x"@
        + crate::text::decimal(texture_height as nat)
}

fn exceeds_message(region: Region, texture_width: u32, texture_height: u32) -> (message: String)
    ensures
        message@ == exceeds_text(region, texture_width, texture_height),
{
    let mut message: String = "crop_rect ".to_owned();
    message.append(decimal_text(region.x as u64).as_str());
    message.append(",");
    message.append(decimal_text(region.y as u64).as_str());
    message.append(" ");
    message.append(decimal_text(region.width as u64).as_str());
    message.append("x");
    message.append(decimal_text(region.height as u64).as_str());
    message.append(" exceeds source ");
    message.append(decimal_text(texture_width as u64).as_str());
    message.append("x");
    message.append(decimal_text(texture_height as u64).as_str());
    message
}

/// The region of a texture that a frame shows. A crop that leaves the texture
/// is refused.
pub fn crop_region(crop: Option<Rect>, texture_width: u32, texture_height: u32) -> (reply: Result<
    Region,
>)
    requires
        ({
            let region = wanted_region(crop, texture_width, texture_height);
            &&& region.x + region.width <= u32::MAX
            &&& region.x + region.width <= texture_width ==> region.y + region.height <= u32::MAX
        }),
    ensures
        ({
            let region = wanted_region(crop, texture_width, texture_height);
            if region_fits(region, texture_width, texture_height) {
                reply == Ok::<Region, PinrayError>(region)
            } else {
                crate::error::is_invalid_config(
                    reply,
                    exceeds_text(region, texture_width, texture_height),
                )
            }
        }),
{
    let region: Region = match crop {
        Some(rect) => Region {
            x: if rect.x >= 0 { rect.x as u32 } else { 0 },
            y: if rect.y >= 0 { rect.y as u32 } else { 0 },
            width: rect.width,
            height: rect.height,
        },
        None => Region { x: 0, y: 0, width: texture_width, height: texture_height },
    };
    if region.x + region.width > texture_width || region.y + region.height > texture_height {
        return Err(
            PinrayError::InvalidConfig(exceeds_message(region, texture_width, texture_height)),
        );
    }
    Ok(region)
}

/// A texture's pixels in host memory, rows without padding.
#[derive(Debug)]
pub struct HostCopy {
    pub data: Vec<u8>,
    pub width: u32,
    pub height: u32,
    pub stride: u32,
}

impl HostCopy {
    /// The copy as a frame.
    pub fn into_frame(self, stream_time_ns: i64, sequence: u64, pixel_format: PixelFormat) -> (frame:
        VideoFrame)
        ensures
            frame == (VideoFrame {
                stream_time_ns,
                sequence,
                width: self.width,
                height: self.height,
                stride: self.stride,
                pixel_format,
                color_space: None,
                data: FrameData::Host(self.data),
                damage: None,
            }),
    {
        VideoFrame {
            stream_time_ns,
            sequence,
            width: self.width,
            height: self.height,
            stride: self.stride,
            pixel_format,
            color_space: None,
            data: FrameData::Host(self.data),
            damage: None,
        }
    }
}

/// The pixels of a mapped BGRA texture as `format` wants them.
pub open spec fn staged_bytes(
    mapped: Seq<u8>,
    row_pitch: u32,
    width: u32,
    height: u32,
    format: PixelFormat,
) -> Seq<u8> {
    crate::pixels::bgra_as(
        crate::pixels::packed_rows(mapped, row_pitch as int, width * 4, height as nat),
        format,
    )
}

/// Copies a mapped staging texture (BGRA, one row every `row_pitch` bytes)
/// into host memory, with an optional swizzle to RGBA.
pub fn texture_to_host(
    mapped: &[u8],
    row_pitch: u32,
    width: u32,
    height: u32,
    pixel_format: PixelFormat,
) -> (copy: HostCopy)
    requires
        width * 4 <= u32::MAX,
        crate::pixels::rows_fit(
            mapped@.len() as int,
            row_pitch as int,
            width * 4,
            height as int,
        ),
    ensures
        copy.data@ == staged_bytes(mapped@, row_pitch, width, height, pixel_format),
        copy.width == width,
        copy.height == height,
        copy.stride == width * 4,
{
    let stride: u32 = width * 4;
    let mut data: Vec<u8> = pack_rows(mapped, row_pitch as usize, stride as usize, height as usize);
    convert_bgra(&mut data, pixel_format);
    HostCopy { data, width, height, stride }
}

/// The copy of a whole texture has every one of its pixels, four bytes each.
pub proof fn staged_copies_are_complete(
    mapped: Seq<u8>,
    row_pitch: u32,
    width: u32,
    height: u32,
    format: PixelFormat,
)
    requires
        crate::pixels::rows_fit(
            mapped.len() as int,
            row_pitch as int,
            width * 4,
            height as int,
        ),
    ensures
        staged_bytes(mapped, row_pitch, width, height, format).len() == height * (width * 4),
{
    crate::pixels::packed_rows_length(mapped, row_pitch as int, width * 4, height as nat);
}

/// Without a crop the region of every texture is the whole texture.
pub proof fn whole_textures_are_never_refused(
    texture_width: u32,
    texture_height: u32,
    reply: Result<Region>,
)
    requires
        call_ensures(crop_region, (None::<Rect>, texture_width, texture_height), reply),
    ensures
        reply matches Ok(region) && region.x == 0 && region.y == 0 && region.width == texture_width
            && region.height == texture_height,
{
}

/// A crop is granted exactly if every pixel of it lies in the texture: those
/// from its corner on, or from the texture's edge on where the corner lies
/// before it, over its width and its height. What is granted is the crop.
pub proof fn crops_are_granted_if_all_their_pixels_exist(
    rect: Rect,
    texture_width: u32,
    texture_height: u32,
    reply: Result<Region>,
)
    requires
        call_ensures(crop_region, (Some(rect), texture_width, texture_height), reply),
        rect.width > 0,
        rect.height > 0,
    ensures
        reply is Ok <==> forall|px: int, py: int|
            #![trigger in_crop(rect, px, py)]
            in_crop(rect, px, py) ==> px < texture_width && py < texture_height,
        reply matches Ok(region) ==> {
            &&& region.width == rect.width
            &&& region.height == rect.height
            &&& region.x == if rect.x < 0 {
                0
            } else {
                rect.x as int
            }
            &&& region.y == if rect.y < 0 {
                0
            } else {
                rect.y as int
            }
        },
        reply matches Ok(region) ==> forall|px: int, py: int| #[trigger]
            in_crop(rect, px, py) <==> region.x <= px < region.x + region.width && region.y <= py
                < region.y + region.height,
        reply matches Err(problem) ==> problem is InvalidConfig,
{
    let x: int = if rect.x < 0 {
        0
    } else {
        rect.x as int
    };
    let y: int = if rect.y < 0 {
        0
    } else {
        rect.y as int
    };
    assert(in_crop(rect, x + rect.width - 1, y + rect.height - 1));
}

/// The pixel belongs to the crop.
pub open spec fn in_crop(rect: Rect, px: int, py: int) -> bool {
    &&& 0 <= px
    &&& 0 <= py
    &&& if rect.x < 0 {
        px < rect.width
    } else {
        rect.x <= px < rect.x + rect.width
    }
    &&& if rect.y < 0 {
        py < rect.height
    } else {
        rect.y <= py < rect.y + rect.height
    }
}

/// A refused crop is told with its place and its size, and with those of the
/// texture behind them.
pub proof fn refused_crops_are_told(
    rect: Rect,
    texture_width: u32,
    texture_height: u32,
    reply: Result<Region>,
)
    requires
        call_ensures(crop_region, (Some(rect), texture_width, texture_height), reply),
        rect.x >= 0,
        rect.y >= 0,
        rect.x + rect.width > texture_width || rect.y + rect.height > texture_height,
    ensures
        reply matches Err(PinrayError::InvalidConfig(message)) && message@ == "crop_rect "@
            + crate::text::decimal(rect.x as nat) + ","@ + crate::text::decimal(rect.y as nat)
            + " "@ + crate::text::decimal(rect.width as nat) + "x"@ + crate::text::decimal(
            rect.height as nat,
        ) + " exceeds source "@ + crate::text::decimal(texture_width as nat) + "x"@
            + crate::text::decimal(texture_height as nat),
{
}

/// The time of a counter value is the number of whole nanoseconds that its ticks
/// take: no nanosecond more has passed.
pub proof fn ticks_are_told_in_whole_nanoseconds(qpc: i64, freq: i64, nanos: i64)
    requires
        call_ensures(qpc_to_ns, (qpc, freq), nanos),
        freq > 0,
        qpc >= 0,
        qpc * 1_000_000_000 < freq * 0x7fff_ffff_ffff_ffff,
    ensures
        0 <= nanos,
        nanos * freq <= qpc * 1_000_000_000 < (nanos + 1) * freq,
{
    let ticks = qpc * 1_000_000_000;
    let f = freq as int;
    vstd::arithmetic::div_mod::lemma_fundamental_div_mod(ticks, f);
    vstd::arithmetic::div_mod::lemma_div_pos_is_pos(ticks, f);
    assert(ticks / f < 0x7fff_ffff_ffff_ffff) by (nonlinear_arith)
        requires
            ticks == f * (ticks / f) + ticks % f,
            0 <= ticks % f,
            ticks < f * 0x7fff_ffff_ffff_ffff,
            f > 0,
    ;
    counter_time_is_exact_within_range(qpc, freq);
    assert(nanos * f <= ticks < (nanos + 1) * f) by (nonlinear_arith)
        requires
            ticks == f * nanos + ticks % f,
            0 <= ticks % f < f,
    ;
}

/// A pixel of a copy is that of the texture in the same row and column: blue is
/// where the wanted format has it, and so is red, and green and alpha stay. The
/// copy has the size of the texture, and rows without padding.
pub proof fn copies_keep_every_pixel(
    mapped: &[u8],
    row_pitch: u32,
    width: u32,
    height: u32,
    pixel_format: PixelFormat,
    copy: HostCopy,
    row: int,
    column: int,
)
    requires
        call_ensures(texture_to_host, (mapped, row_pitch, width, height, pixel_format), copy),
        0 <= row < height,
        0 <= column < width,
        (height - 1) * row_pitch + width * 4 <= mapped@.len(),
    ensures
        copy.width == width,
        copy.height == height,
        copy.stride == width * 4,
        copy.data@.len() == height * (width * 4),
        ({
            let from = row * row_pitch + column * 4;
            let to = row * (width * 4) + column * 4;
            let rgba = pixel_format == PixelFormat::Rgba8888;
            &&& copy.data@[to + if rgba {
                2int
            } else {
                0
            }] == mapped@[from]
            &&& copy.data@[to + 1] == mapped@[from + 1]
            &&& copy.data@[to + if rgba {
                0int
            } else {
                2
            }] == mapped@[from + 2]
            &&& copy.data@[to + 3] == mapped@[from + 3]
        }),
{
    let pitch = row_pitch as int;
    let row_bytes = width * 4;
    staged_copies_are_complete(mapped@, row_pitch, width, height, pixel_format);
    crate::pixels::packed_rows_length(mapped@, pitch, row_bytes, height as nat);
    crate::pixels::packed_rows_keep_every_byte(
        mapped@,
        pitch,
        row_bytes,
        height as nat,
        row,
        column * 4,
    );
    crate::pixels::packed_rows_keep_every_byte(
        mapped@,
        pitch,
        row_bytes,
        height as nat,
        row,
        column * 4 + 1,
    );
    crate::pixels::packed_rows_keep_every_byte(
        mapped@,
        pitch,
        row_bytes,
        height as nat,
        row,
        column * 4 + 2,
    );
    crate::pixels::packed_rows_keep_every_byte(
        mapped@,
        pitch,
        row_bytes,
        height as nat,
        row,
        column * 4 + 3,
    );
    let to = row * row_bytes + column * 4;
    assert(to == 4 * (row * width + column) && height * row_bytes == 4 * (height * width)
        && row * width + column + 1 <= height * width && 0 <= row * width) by (nonlinear_arith)
        requires
            row_bytes == width * 4,
            to == row * row_bytes + column * 4,
            0 <= row,
            row + 1 <= height,
            0 <= column < width,
    ;
}

/// A copy becomes a frame of its size and with its bytes, which tells the time,
/// the number and the format that it is given, and nothing else.
pub proof fn copies_become_frames(
    copy: HostCopy,
    stream_time_ns: i64,
    sequence: u64,
    pixel_format: PixelFormat,
    frame: VideoFrame,
)
    requires
        call_ensures(
            HostCopy::into_frame,
            (copy, stream_time_ns, sequence, pixel_format),
            frame,
        ),
    ensures
        frame.width == copy.width,
        frame.height == copy.height,
        frame.stride == copy.stride,
        frame.data == FrameData::Host(copy.data),
        frame.stream_time_ns == stream_time_ns,
        frame.sequence == sequence,
        frame.pixel_format == pixel_format,
        frame.color_space is None,
        frame.damage is None,
{
}

/// A failed call is told by its name and what the system said.
pub proof fn failed_calls_are_told(context: &str, error: &str, problem: PinrayError)
    requires
        call_ensures(win_err, (context, error), problem),
    ensures
        problem matches PinrayError::Platform(message) && message@ == context@ + ": "@ + error@,
{
}

/// A counter value that is too far for the range is told by the low bits of its
/// whole nanoseconds, and one before the start of the clock is as far before it
/// as the opposite one is behind it.
pub proof fn far_ticks_wrap_around(qpc: i64, freq: i64, nanos: i64, opposite: i64)
    requires
        call_ensures(qpc_to_ns, (qpc, freq), nanos),
        call_ensures(qpc_to_ns, ((-qpc) as i64, freq), opposite),
        freq > 0,
        qpc >= 0,
    ensures
        exists|whole: int|
            {
                &&& #[trigger] (whole * freq) <= qpc * 1_000_000_000 < (whole + 1) * freq
                &&& (whole - nanos) % 0x1_0000_0000_0000_0000 == 0
                &&& (-whole - opposite) % 0x1_0000_0000_0000_0000 == 0
            },
{
    let ticks = qpc * 1_000_000_000;
    let f = freq as int;
    let whole = ticks / f;
    vstd::arithmetic::div_mod::lemma_fundamental_div_mod(ticks, f);
    assert(whole * f <= ticks < (whole + 1) * f) by (nonlinear_arith)
        requires
            ticks == f * whole + ticks % f,
            0 <= ticks % f < f,
    ;
    assert((-qpc) as i64 == -qpc);
    assert(crate::numbers::truncated_quotient(ticks, f) == whole);
    assert(-ticks == ((-qpc) as i64) * 1_000_000_000);
    assert(crate::numbers::truncated_quotient(-ticks, f) == -whole) by {
        if ticks == 0 {
            assert(0int / f == 0) by (nonlinear_arith)
                requires
                    f > 0,
            ;
        }
    }
    assert(whole * freq <= qpc * 1_000_000_000);
}

/// A crop is granted exactly if it ends within the texture both ways, counted
/// from its corner or, where that lies before the texture, from the edge.
pub proof fn crops_end_within_the_texture(
    rect: Rect,
    texture_width: u32,
    texture_height: u32,
    reply: Result<Region>,
)
    requires
        call_ensures(crop_region, (Some(rect), texture_width, texture_height), reply),
    ensures
        reply is Ok <==> rect.width <= texture_width && rect.height <= texture_height && rect.x
            + rect.width <= texture_width && rect.y + rect.height <= texture_height && rect.x
            <= texture_width && rect.y <= texture_height,
{
}

} // verus!
