//! PipeWire stream parameters and pixel-format normalization.
use vstd::prelude::*;

use crate::frame::PixelFormat;
use crate::pixels::swap_red_blue;

verus! {

/// Pixel layouts that a stream may be negotiated to.
#[derive(Debug, Clone, Copy, PartialEq, Eq, Structural)]
pub enum VideoFormat {
    Bgra,
    Bgrx,
    Rgba,
    Rgbx,
    Rgb,
    Nv12,
    /// A layout that capture knows nothing of.
    Other,
}

#[derive(Debug, Clone, Copy, PartialEq, Eq, Structural)]
pub struct VideoSize {
    pub width: u32,
    pub height: u32,
}

/// What a capture stream offers the compositor: any of four layouts, and ranges
/// of sizes and frame rates with a preference in each.
#[derive(Debug, Clone, Copy, PartialEq, Eq)]
pub struct StreamParams {
    /// The layout that is liked best, then the others.
    pub formats: (VideoFormat, VideoFormat, VideoFormat, VideoFormat),
    pub default_size: VideoSize,
    pub min_size: VideoSize,
    pub max_size: VideoSize,
    /// Frames per second.
    pub default_rate: u32,
    pub min_rate: u32,
    pub max_rate: u32,
}

/// The parameters that are offered for a source of this size, 1920 by 1080 if
/// it is not known.
pub open spec fn offered(frame_rate: u32, source_size: Option<VideoSize>) -> StreamParams {
    StreamParams {
        formats: (VideoFormat::Bgra, VideoFormat::Bgrx, VideoFormat::Rgba, VideoFormat::Rgbx),
        default_size: match source_size {
            Some(size) => size,
            None => VideoSize { width: 1920, height: 1080 },
        },
        min_size: VideoSize { width: 1, height: 1 },
        max_size: VideoSize { width: 7680, height: 4320 },
        default_rate: frame_rate,
        min_rate: 0,
        max_rate: frame_rate,
    }
}

/// The format parameters of a video capture stream.
///
/// The compositor's screencast node intersects these with its own advertised
/// formats and picks one. No modifier is asked for -- the compositor handles
/// format conversion internally.
pub fn build_stream_params(frame_rate: u32, source_size: Option<VideoSize>) -> (params: StreamParams)
    ensures
        params == offered(frame_rate, source_size),
{
    StreamParams {
        formats: (VideoFormat::Bgra, VideoFormat::Bgrx, VideoFormat::Rgba, VideoFormat::Rgbx),
        default_size: match source_size {
            Some(size) => size,
            None => VideoSize { width: 1920, height: 1080 },
        },
        min_size: VideoSize { width: 1, height: 1 },
        max_size: VideoSize { width: 7680, height: 4320 },
        default_rate: frame_rate,
        min_rate: 0,
        max_rate: frame_rate,
    }
}

/// The pixel format that a frame is delivered in. Layouts that are not known
/// go for BGRA, which is what compositors overwhelmingly deliver; plain RGB is
/// never anything else.
pub open spec fn delivered_format(source: VideoFormat, desired: PixelFormat) -> PixelFormat {
    match (source, desired) {
        (VideoFormat::Rgb, _) => PixelFormat::Rgb888,
        (VideoFormat::Bgra, PixelFormat::Rgba8888) => PixelFormat::Rgba8888,
        (VideoFormat::Bgrx, PixelFormat::Rgba8888) => PixelFormat::Rgba8888,
        (VideoFormat::Rgba, PixelFormat::Rgba8888) => PixelFormat::Rgba8888,
        (VideoFormat::Rgbx, PixelFormat::Rgba8888) => PixelFormat::Rgba8888,
        _ => PixelFormat::Bgra8888,
    }
}

/// The pixel format that the bytes of a layout are in; a byte without a meaning
/// stands where others have alpha.
pub open spec fn own_format(source: VideoFormat) -> Option<PixelFormat> {
    match source {
        VideoFormat::Bgra | VideoFormat::Bgrx => Some(PixelFormat::Bgra8888),
        VideoFormat::Rgba | VideoFormat::Rgbx => Some(PixelFormat::Rgba8888),
        VideoFormat::Rgb => Some(PixelFormat::Rgb888),
        VideoFormat::Nv12 | VideoFormat::Other => None,
    }
}

/// The channels change places on the way: the layout is known, and the frame is
/// delivered in another one.
pub open spec fn is_swizzled(source: VideoFormat, desired: PixelFormat) -> bool {
    match own_format(source) {
        Some(own) => own != delivered_format(source, desired),
        None => false,
    }
}

/// The bytes that a frame is delivered with.
pub open spec fn delivered_bytes(
    source: VideoFormat,
    raw: Seq<u8>,
    desired: PixelFormat,
) -> Seq<u8> {
    if is_swizzled(source, desired) {
        crate::pixels::red_blue_swapped(raw)
    } else {
        raw
    }
}

/// Converts a negotiated pixel format into the caller's desired `PixelFormat`,
/// swizzling channels where needed. What cannot be made into the desired format
/// is delivered as BGRA. Unknown layouts fall through as BGRA, which is what
/// compositors overwhelmingly deliver.
pub fn normalize_frame(source_format: VideoFormat, raw: &[u8], desired_format: PixelFormat) -> (frame: (
    PixelFormat,
    Vec<u8>,
))
    ensures
        frame.0 == delivered_format(source_format, desired_format),
        frame.1@ == delivered_bytes(source_format, raw@, desired_format),
{
    let mut data: Vec<u8> = vstd::slice::slice_to_vec(raw);
    match (source_format, desired_format) {
        (VideoFormat::Rgb, _) => (PixelFormat::Rgb888, data),
        (VideoFormat::Bgra, PixelFormat::Rgba8888) => {
            swap_red_blue(&mut data);
            (PixelFormat::Rgba8888, data)
        },
        (VideoFormat::Bgrx, PixelFormat::Rgba8888) => {
            swap_red_blue(&mut data);
            (PixelFormat::Rgba8888, data)
        },
        (VideoFormat::Rgba, PixelFormat::Rgba8888) => (PixelFormat::Rgba8888, data),
        (VideoFormat::Rgbx, PixelFormat::Rgba8888) => (PixelFormat::Rgba8888, data),
        (VideoFormat::Rgba, _) => {
            swap_red_blue(&mut data);
            (PixelFormat::Bgra8888, data)
        },
        (VideoFormat::Rgbx, _) => {
            swap_red_blue(&mut data);
            (PixelFormat::Bgra8888, data)
        },
        _ => (PixelFormat::Bgra8888, data),
    }
}

/// Normalization neither adds nor loses a byte.
pub proof fn normalization_keeps_the_size(source: VideoFormat, raw: Seq<u8>, desired: PixelFormat)
    ensures
        delivered_bytes(source, raw, desired).len() == raw.len(),
{
}

/// A frame in one of the layouts that a stream offers comes out the same
/// whichever of the two packed formats was asked for, but for the order of its
/// channels.
pub proof fn the_two_orders_mirror_each_other(source: VideoFormat, raw: Seq<u8>)
    requires
        source == VideoFormat::Bgra || source == VideoFormat::Bgrx || source == VideoFormat::Rgba
            || source == VideoFormat::Rgbx,
    ensures
        delivered_bytes(source, raw, PixelFormat::Rgba8888) == crate::pixels::red_blue_swapped(
            delivered_bytes(source, raw, PixelFormat::Bgra8888),
        ),
        delivered_format(source, PixelFormat::Rgba8888) == PixelFormat::Rgba8888,
        delivered_format(source, PixelFormat::Bgra8888) == PixelFormat::Bgra8888,
{
    crate::pixels::swapping_twice_restores(raw);
}

/// The format that a frame is labelled with is the one its bytes are in,
/// wherever the layout they came in is known: either they came in that format,
/// or red and blue changed places between the two packed ones.
pub proof fn labels_tell_the_layout(source: VideoFormat, raw: Seq<u8>, desired: PixelFormat)
    requires
        own_format(source) is Some,
    ensures
        ({
            let own = own_format(source)->0;
            let label = delivered_format(source, desired);
            &&& label == own ==> delivered_bytes(source, raw, desired) == raw
            &&& label != own ==> {
                &&& own == PixelFormat::Bgra8888 && label == PixelFormat::Rgba8888 || own
                    == PixelFormat::Rgba8888 && label == PixelFormat::Bgra8888
                &&& delivered_bytes(source, raw, desired) == crate::pixels::red_blue_swapped(raw)
            }
        }),
{
}

/// Where a packed format with four bytes a pixel has its blue byte; red stands at
/// the other end of the colours.
pub open spec fn blue_first(format: PixelFormat) -> bool {
    format == PixelFormat::Bgra8888
}

/// A frame in one of the layouts that a stream offers is delivered as RGBA to
/// those who ask for it, and as BGRA to all others. Blue, green and red of each
/// pixel stand where the delivered format has them, wherever the layout had them,
/// and the fourth byte stays.
pub proof fn colours_stand_where_the_label_says(
    source: VideoFormat,
    raw: &[u8],
    desired: PixelFormat,
    frame: (PixelFormat, Vec<u8>),
    pixel: int,
)
    requires
        call_ensures(normalize_frame, (source, raw, desired), frame),
        source == VideoFormat::Bgra || source == VideoFormat::Bgrx || source == VideoFormat::Rgba
            || source == VideoFormat::Rgbx,
        0 <= pixel,
        4 * pixel + 4 <= raw@.len(),
    ensures
        frame.0 == PixelFormat::Rgba8888 <==> desired == PixelFormat::Rgba8888,
        frame.0 == PixelFormat::Bgra8888 <==> desired != PixelFormat::Rgba8888,
        frame.1@.len() == raw@.len(),
        ({
            let at = 4 * pixel;
            let came_blue_first = source == VideoFormat::Bgra || source == VideoFormat::Bgrx;
            let blue = raw@[at + if came_blue_first {
                0int
            } else {
                2
            }];
            let red = raw@[at + if came_blue_first {
                2int
            } else {
                0
            }];
            &&& frame.1@[at + if blue_first(frame.0) {
                0int
            } else {
                2
            }] == blue
            &&& frame.1@[at + 1] == raw@[at + 1]
            &&& frame.1@[at + if blue_first(frame.0) {
                2int
            } else {
                0
            }] == red
            &&& frame.1@[at + 3] == raw@[at + 3]
        }),
{
}

/// A frame in any other layout is delivered as it came: plain RGB under its own
/// name, and what is not known as BGRA.
pub proof fn other_layouts_are_passed_through(
    source: VideoFormat,
    raw: &[u8],
    desired: PixelFormat,
    frame: (PixelFormat, Vec<u8>),
)
    requires
        call_ensures(normalize_frame, (source, raw, desired), frame),
        source == VideoFormat::Rgb || source == VideoFormat::Nv12 || source == VideoFormat::Other,
    ensures
        frame.1@ == raw@,
        frame.0 == if source == VideoFormat::Rgb {
            PixelFormat::Rgb888
        } else {
            PixelFormat::Bgra8888
        },
{
}

/// A stream offers the four layouts that keep their pixels' bytes, BGRA first. It
/// prefers the size of its source where that is known, and the rate that was
/// asked for, which is also the most that it takes. It takes every size up to
/// that of an 8K screen.
pub proof fn streams_prefer_what_was_asked_for(
    frame_rate: u32,
    source_size: Option<VideoSize>,
    params: StreamParams,
)
    requires
        call_ensures(build_stream_params, (frame_rate, source_size), params),
    ensures
        params.default_rate == frame_rate,
        params.max_rate == frame_rate,
        params.min_rate == 0,
        source_size matches Some(size) ==> params.default_size.width == size.width
            && params.default_size.height == size.height,
        source_size is None ==> params.default_size.width == 1920 && params.default_size.height
            == 1080,
        params.min_size.width == 1,
        params.min_size.height == 1,
        params.max_size.width == 7680,
        params.max_size.height == 4320,
        params.formats.0 == VideoFormat::Bgra,
        params.formats.1 == VideoFormat::Bgrx,
        params.formats.2 == VideoFormat::Rgba,
        params.formats.3 == VideoFormat::Rgbx,
{
}

} // verus!
