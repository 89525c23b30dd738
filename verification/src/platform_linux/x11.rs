//! Polling X11 video capture: what to ask the server for, when, and what its
//! answer is made into.
//!
//! This is fundamentally a polling screenshot loop — X11 has no damage-driven
//! streaming path comparable to other platforms — paced to the configured
//! frame rate.
//!
//! An image of the root window never has the pointer in it, so for display
//! capture with an embedded cursor the pointer is alpha-blended into the frame.
//!
//! Instants and durations are in nanoseconds.
use std::time::Duration;

use vstd::prelude::*;
use vstd::string::*;

use crate::backend::{BackendInfo, BackendKind};
use crate::config::{CursorMode, SessionConfig, VideoCaptureTarget};
use crate::error::{failure, PinrayError, Result};
use crate::frame::{CaptureEvent, FrameData, PixelFormat, Rect, VideoFrame};
use crate::pixels::{convert_bgra, make_opaque};
use crate::platform_linux::cursor::{blend_cursor, CursorImage};
use crate::platform_linux::x11_sources::{
    enumerate_monitors, find_monitor, parse_window_id, window_id, MonitorRegion, MonitorReport,
    MonitorTable,
};
use crate::platform_linux::{resolve_backend, LinuxPlan, VideoOrigin};
use crate::source::SourceId;
use crate::text::{decimal_text, joined};

verus! {

/// Plans a session whose video, if it has any, comes from the X server.
pub fn resolve_x11_backend(config: &SessionConfig) -> (reply: Result<LinuxPlan>)
    ensures
        crate::platform_linux::is_planned(reply, *config, VideoOrigin::X11),
{
    resolve_backend(config, VideoOrigin::X11)
}

/// What is captured.
#[derive(Debug, Clone, Copy, PartialEq, Eq, Structural)]
pub enum Target {
    /// Region of the root window (monitor capture). Cursor coordinates are
    /// root-relative, so the region origin doubles as the cursor offset.
    Root { root: u32, x: i16, y: i16, width: u16, height: u16 },
    /// A specific application window; its size is read anew for every frame
    /// since windows resize. Cursor embedding is not supported here.
    Window(u32),
}

/// The id of the display that a session means where it means one.
pub open spec fn wanted_display(target: Option<VideoCaptureTarget>) -> Seq<char> {
    match target {
        Some(VideoCaptureTarget::Display(id)) => id.0@,
        _ => "auto"@,
    }
}

/// What a session captures: the window that it names, or else the region of the
/// root window that the monitor it means occupies. The monitors are not looked
/// at for a window.
pub fn capture_target(
    target: &Option<VideoCaptureTarget>,
    root: u32,
    monitors: &MonitorTable,
) -> (reply: Result<Target>)
    requires
        monitors.well_formed(),
    ensures
        match *target {
            Some(VideoCaptureTarget::Window(id)) => match crate::platform_linux::x11_sources::window_of(
                id.0@,
            ) {
                Some(window) => reply == Ok::<Target, PinrayError>(Target::Window(window as u32)),
                None => crate::error::is_invalid_config(
                    reply,
                    "invalid window source id: "@ + id.0@,
                ),
            },
            _ => match reply {
                Ok(found) => exists|index: int| #[trigger]
                    crate::source::picks(monitors.sources@, wanted_display(*target), index)
                        && found == region_of(root, monitors.regions@[index]),
                Err(_) => {
                    &&& forall|index: int|
                        !crate::source::picks(monitors.sources@, wanted_display(*target), index)
                    &&& crate::source::picks_nothing(monitors.sources@, wanted_display(*target))
                    &&& crate::error::is_invalid_config(
                        reply,
                        "display source not found: "@ + wanted_display(*target),
                    )
                },
            },
        },
{
    let id: SourceId = match target {
        Some(VideoCaptureTarget::Window(id)) => {
            return match parse_window_id(id) {
                Ok(window) => Ok(Target::Window(window)),
                Err(error) => Err(error),
            };
        },
        Some(VideoCaptureTarget::Display(id)) => SourceId::new(id.0.as_str()),
        None => SourceId::new("auto"),
    };
    assert(id.0@ == wanted_display(*target));
    match find_monitor(monitors, &id) {
        Ok(region) => Ok(
            Target::Root {
                root,
                x: region.x,
                y: region.y,
                width: region.width,
                height: region.height,
            },
        ),
        Err(error) => Err(error),
    }
}

/// A monitor's region of the root window.
pub open spec fn region_of(root: u32, region: MonitorRegion) -> Target {
    Target::Root {
        root,
        x: region.x,
        y: region.y,
        width: region.width,
        height: region.height,
    }
}

/// The error for a request that the server did not answer: which, and what was
/// said.
pub fn x11_error(context: &str, error: &str) -> (problem: PinrayError)
    ensures
        problem matches PinrayError::Platform(message) && message@ == crate::error::failure_text(
            context@,
            error@,
        ),
{
    PinrayError::Platform(failure(context, error))
}

/// The size of a window.
#[derive(Debug, Clone, Copy, PartialEq, Eq, Structural)]
pub struct WindowSize {
    pub width: u16,
    pub height: u16,
}

/// The part of a window that one frame shows.
#[derive(Debug, Clone, Copy, PartialEq, Eq, Structural)]
pub struct FrameRegion {
    pub drawable: u32,
    pub x: i16,
    pub y: i16,
    pub width: u16,
    pub height: u16,
}

/// How far into a region a crop starts along one axis. One that starts before
/// the region starts with it. The protocol counts in sixteen bits, and of a
/// coordinate that has more the low ones are taken.
pub open spec fn offset_of(coordinate: i32) -> int {
    crate::numbers::larger(coordinate as int, 0) % 0x1_0000
}

/// The number that the low 16 bits of `x` stand for in two's complement.
pub open spec fn wrapped_to_i16(x: int) -> int {
    let low = x % 0x1_0000;
    if low >= 0x8000 {
        low - 0x1_0000
    } else {
        low
    }
}

/// The crop lies within a region of this size.
pub open spec fn crop_fits(crop: Rect, width: u16, height: u16) -> bool {
    offset_of(crop.x) + crop.width <= width && offset_of(crop.y) + crop.height <= height
}

/// The error for a crop that leaves the captured region.
pub open spec fn crop_text(width: u16, height: u16) -> Seq<char> {
    "crop_rect exceeds capture region "@ + crate::text::decimal(width as nat) + "x"@
        + crate::text::decimal(height as nat)
}

fn offset(coordinate: i32) -> (offset: u16)
    ensures
        offset == offset_of(coordinate),
{
    if coordinate >= 0 {
        (coordinate % 0x1_0000) as u16
    } else {
        0
    }
}

/// The coordinate `offset` further on. The protocol has sixteen bits for it; a
/// coordinate that they do not reach wraps around to one outside of the root,
/// which the server refuses.
fn coordinate(base: i16, offset: u16) -> (at: i16)
    ensures
        at == wrapped_to_i16(base + offset),
{
    let exact: i32 = base as i32 + offset as i32;
    if exact > i16::MAX as i32 {
        (exact - 0x1_0000) as i16
    } else {
        exact as i16
    }
}

/// Resolves the capture rectangle for a frame: monitor region or current
/// window geometry (`geometry` is the window's present size), with the crop
/// applied on top.
pub fn frame_region(target: Target, geometry: Option<WindowSize>, crop: Option<Rect>) -> (reply: Result<
    FrameRegion,
>)
    ensures
        target is Window && geometry is None ==> crate::error::is_platform(
            reply,
            "window disappeared during capture"@,
        ),
        target is Root || geometry is Some ==> {
            let base = base_region(target, geometry);
            match crop {
                None => reply == Ok::<FrameRegion, PinrayError>(base),
                Some(rect) => if crop_fits(rect, base.width, base.height) {
                    reply == Ok::<FrameRegion, PinrayError>(
                        FrameRegion {
                            drawable: base.drawable,
                            x: wrapped_to_i16(base.x + offset_of(rect.x)) as i16,
                            y: wrapped_to_i16(base.y + offset_of(rect.y)) as i16,
                            width: rect.width as u16,
                            height: rect.height as u16,
                        },
                    )
                } else {
                    crate::error::is_invalid_config(reply, crop_text(base.width, base.height))
                },
            }
        },
{
    let base: FrameRegion = match target {
        Target::Root { root, x, y, width, height } => FrameRegion {
            drawable: root,
            x,
            y,
            width,
            height,
        },
        Target::Window(window) => match geometry {
            Some(size) => FrameRegion {
                drawable: window,
                x: 0,
                y: 0,
                width: size.width,
                height: size.height,
            },
            None => {
                return Err(
                    PinrayError::Platform("window disappeared during capture".to_owned()),
                );
            },
        },
    };
    match crop {
        None => Ok(base),
        Some(rect) => {
            let cx: u16 = offset(rect.x);
            let cy: u16 = offset(rect.y);
            if cx as u64 + rect.width as u64 > base.width as u64 || cy as u64 + rect.height as u64
                > base.height as u64 {
                let mut message: String = joined(
                    "crop_rect exceeds capture region ",
                    decimal_text(base.width as u64).as_str(),
                );
                message.append("x");
                message.append(decimal_text(base.height as u64).as_str());
                return Err(PinrayError::InvalidConfig(message));
            }
            Ok(
                FrameRegion {
                    drawable: base.drawable,
                    x: coordinate(base.x, cx),
                    y: coordinate(base.y, cy),
                    width: rect.width as u16,
                    height: rect.height as u16,
                },
            )
        },
    }
}

/// The region that a target shows as a whole.
pub open spec fn base_region(target: Target, geometry: Option<WindowSize>) -> FrameRegion {
    match target {
        Target::Root { root, x, y, width, height } => FrameRegion {
            drawable: root,
            x,
            y,
            width,
            height,
        },
        Target::Window(window) => FrameRegion {
            drawable: window,
            x: 0,
            y: 0,
            width: geometry->0.width,
            height: geometry->0.height,
        },
    }
}

/// A frame never shows more than its target: a crop only makes it smaller, and
/// starts where it says, as far as coordinates reach.
pub proof fn a_crop_stays_within_its_target(
    target: Target,
    geometry: Option<WindowSize>,
    rect: Rect,
)
    requires
        crop_fits(
            rect,
            base_region(target, geometry).width,
            base_region(target, geometry).height,
        ),
    ensures
        rect.width <= base_region(target, geometry).width,
        rect.height <= base_region(target, geometry).height,
        0 <= offset_of(rect.x) <= base_region(target, geometry).width - rect.width,
        0 <= offset_of(rect.y) <= base_region(target, geometry).height - rect.height,
        0 <= rect.x <= u16::MAX ==> offset_of(rect.x) == rect.x,
        0 <= rect.y <= u16::MAX ==> offset_of(rect.y) == rect.y,
        ({
            let x = base_region(target, geometry).x + offset_of(rect.x);
            x <= i16::MAX ==> wrapped_to_i16(x) == x
        }),
        ({
            let y = base_region(target, geometry).y + offset_of(rect.y);
            y <= i16::MAX ==> wrapped_to_i16(y) == y
        }),
{
}

/// X11 polling capture, as it describes itself.
pub open spec fn x11_backend() -> BackendInfo {
    BackendInfo {
        kind: BackendKind::LinuxX11,
        supports_audio: false,
        zero_copy: false,
        notes: "X11 polling capture via GetImage (frame_rate-paced, not damage-driven)",
    }
}

pub fn backend_info() -> (info: BackendInfo)
    ensures
        info == x11_backend(),
{
    BackendInfo {
        kind: BackendKind::LinuxX11,
        supports_audio: false,
        zero_copy: false,
        notes: "X11 polling capture via GetImage (frame_rate-paced, not damage-driven)",
    }
}

/// The spacing of frames that a rate asks for: 30 a second unless it is set.
pub open spec fn interval_of(frame_rate: Option<u32>) -> int {
    1_000_000_000int / crate::numbers::larger(
        match frame_rate {
            Some(fps) => fps as int,
            None => 30,
        },
        1,
    )
}

/// What a poll has to do about the schedule.
#[derive(Debug, Clone, Copy, PartialEq, Eq, Structural)]
pub enum Poll {
    /// Sleep for as long as the caller waits, and give up.
    TimeOut,
    /// Sleep this long, then capture.
    CaptureAfter(u64),
}

/// The answer to a caller whose timeout ran out before the next frame was due.
pub fn timed_out(limit: Duration) -> (reply: Result<CaptureEvent>)
    ensures
        reply == Err::<CaptureEvent, PinrayError>(PinrayError::Timeout(limit)),
{
    Err(PinrayError::Timeout(limit))
}

/// The server's answer to a request for an image.
#[derive(Debug)]
pub struct ImageReply {
    /// Bits per pixel that carry colour or alpha.
    pub depth: u8,
    pub data: Vec<u8>,
}

/// Why an image cannot be made into a frame.
pub enum ImageProblem {
    Depth,
    TooShort,
}

/// The first thing that is wrong with an image of `w` by `h` pixels.
pub open spec fn image_problem(image: ImageReply, w: u16, h: u16) -> Option<ImageProblem> {
    if image.depth != 24 && image.depth != 32 {
        Some(ImageProblem::Depth)
    } else if image.data@.len() < w * h * 4 {
        Some(ImageProblem::TooShort)
    } else {
        None
    }
}

/// How a problem is reported.
pub open spec fn is_problem<T>(
    reply: Result<T>,
    image: ImageReply,
    w: u16,
    h: u16,
    problem: ImageProblem,
) -> bool {
    match problem {
        ImageProblem::Depth => crate::error::is_unsupported(
            reply,
            "x11 visual depth "@ + crate::text::decimal(image.depth as nat)
                + " not supported (need 24/32-bit truecolor)"@,
        ),
        ImageProblem::TooShort => crate::error::is_platform(
            reply,
            "get_image returned "@ + crate::text::decimal(image.data@.len() as nat)
                + " bytes, expected "@ + crate::text::decimal((w * h * 4) as nat),
        ),
    }
}

/// Looks whether an image of `w` by `h` pixels can be made into a frame.
pub fn check_image(image: &ImageReply, w: u16, h: u16) -> (reply: Result<()>)
    ensures
        match image_problem(*image, w, h) {
            Some(problem) => is_problem(reply, *image, w, h, problem),
            None => reply is Ok,
        },
{
    if image.depth != 24 && image.depth != 32 {
        let mut message: String = joined(
            "x11 visual depth ",
            decimal_text(image.depth as u64).as_str(),
        );
        message.append(" not supported (need 24/32-bit truecolor)");
        return Err(PinrayError::Unsupported(message));
    }
    proof {
        assert(0 <= w * h <= 0xffff * 0xffff) by (nonlinear_arith)
            requires
                0 <= w <= 0xffff,
                0 <= h <= 0xffff,
        ;
    }
    let expected: u64 = w as u64 * h as u64 * 4;
    if (image.data.len() as u64) < expected {
        let mut message: String = joined(
            "get_image returned ",
            decimal_text(image.data.len() as u64).as_str(),
        );
        message.append(" bytes, expected ");
        message.append(decimal_text(expected).as_str());
        return Err(PinrayError::Platform(message));
    }
    Ok(())
}

/// The pixels of an image in BGRA: those of the region alone, opaque where the
/// alpha bytes have no meaning.
pub open spec fn bgra_pixels(image: ImageReply, w: u16, h: u16) -> Seq<u8> {
    let pixels = image.data@.subrange(0, w * h * 4);
    if image.depth == 24 {
        crate::pixels::made_opaque(pixels)
    } else {
        pixels
    }
}

/// The bytes of the frame that an image is made into: the pointer, where it is
/// embedded, is drawn before the channels change places.
pub open spec fn frame_bytes(
    image: ImageReply,
    region: FrameRegion,
    cursor: Option<CursorImage>,
    format: PixelFormat,
) -> Seq<u8> {
    let pixels = bgra_pixels(image, region.width, region.height);
    let drawn = match cursor {
        Some(pointer) => crate::platform_linux::cursor::blended(
            pixels,
            region.width as int,
            pointer,
            region.x as int,
            region.y as int,
        ),
        None => pixels,
    };
    crate::pixels::bgra_as(drawn, format)
}

/// The pointer that goes into a frame.
pub open spec fn pointer_shown(
    embed_cursor: bool,
    cursor: Option<CursorImage>,
) -> Option<CursorImage> {
    if embed_cursor {
        cursor
    } else {
        None
    }
}

/// The state of a polling capture.
#[derive(Debug)]
pub struct X11Stream {
    pub target: Target,
    pub crop: Option<Rect>,
    pub pixel_format: PixelFormat,
    pub embed_cursor: bool,
    pub frame_interval: u64,
    pub next_due: Option<u64>,
    pub sequence: u64,
    pub running: bool,
}

impl X11Stream {
    /// A capture of `target` as `config` wants it. The pointer is embedded in
    /// captures of the root window only.
    pub fn new(target: Target, config: &SessionConfig) -> (stream: Self)
        ensures
            stream == (X11Stream {
                target,
                crop: config.crop_rect,
                pixel_format: config.pixel_format,
                embed_cursor: config.cursor_mode == CursorMode::Embedded && target is Root,
                frame_interval: interval_of(config.frame_rate) as u64,
                next_due: None,
                sequence: 0,
                running: false,
            }),
    {
        let rate: u64 = match config.frame_rate {
            Some(fps) => if fps >= 1 {
                fps as u64
            } else {
                1
            },
            None => 30,
        };
        let on_root: bool = match target {
            Target::Root { .. } => true,
            Target::Window(_) => false,
        };
        X11Stream {
            target,
            crop: config.crop_rect,
            pixel_format: config.pixel_format,
            embed_cursor: config.cursor_mode == CursorMode::Embedded && on_root,
            frame_interval: 1_000_000_000 / rate,
            next_due: None,
            sequence: 0,
            running: false,
        }
    }

    /// Starts the capture, with a new schedule.
    pub fn start(&mut self)
        ensures
            *final(self) == (X11Stream { running: true, next_due: None, ..*old(self) }),
    {
        self.running = true;
        self.next_due = None;
    }

    pub fn stop(&mut self)
        ensures
            *final(self) == (X11Stream { running: false, ..*old(self) }),
    {
        self.running = false;
    }

    /// When the frame that is polled for at `now` is due.
    pub open spec fn due(&self, now: u64) -> u64 {
        match self.next_due {
            Some(due) => due,
            None => now,
        }
    }

    /// How long a poll at `now` has to wait for its frame.
    pub open spec fn wait(&self, now: u64) -> int {
        crate::numbers::larger(self.due(now) - now, 0)
    }

    /// Paces a poll to the configured frame rate; a caller that waits no longer
    /// than `patience` is not kept longer, and leaves the schedule as it was.
    pub fn pace(&mut self, now: u64, patience: Option<u64>) -> (reply: Result<Poll>)
        requires
            old(self).running && !(patience is Some && old(self).wait(now) > patience->0)
                ==> crate::numbers::larger(old(self).due(now) as int, now as int) + old(
                self,
            ).frame_interval <= u64::MAX,
        ensures
            !old(self).running ==> crate::error::is_platform(reply, "x11 backend not started"@)
                && *final(self) == *old(self),
            old(self).running ==> if patience is Some && old(self).wait(now) > patience->0 {
                reply == Ok::<Poll, PinrayError>(Poll::TimeOut) && *final(self) == *old(self)
            } else {
                &&& reply == Ok::<Poll, PinrayError>(
                    Poll::CaptureAfter(old(self).wait(now) as u64),
                )
                &&& *final(self) == (X11Stream {
                    next_due: Some(
                        (crate::numbers::larger(old(self).due(now) as int, now as int) + old(
                            self,
                        ).frame_interval) as u64,
                    ),
                    ..*old(self)
                })
            },
    {
        if !self.running {
            return Err(PinrayError::Platform("x11 backend not started".to_owned()));
        }
        let due: u64 = match self.next_due {
            Some(due) => due,
            None => now,
        };
        let wait: u64 = if due > now {
            due - now
        } else {
            0
        };
        if let Some(limit) = patience {
            if wait > limit {
                return Ok(Poll::TimeOut);
            }
        }
        let later: u64 = if due > now {
            due
        } else {
            now
        };
        self.next_due = Some(later + self.frame_interval);
        Ok(Poll::CaptureAfter(wait))
    }

    /// The error for a request for an image that the server refused.
    /// A refusal of the root window is the rootless-Xwayland signature: the
    /// root exists but has no readable backing.
    pub fn image_refused(&self, error: &str) -> (failure: PinrayError)
        ensures
            self.target is Root ==> (failure matches PinrayError::BackendUnavailable(message)
                && message@ == "GetImage on the root window failed ("@ + error@
                + "); if this is a Wayland session, the Xwayland root is not readable — use the Wayland backend"@),
            self.target is Window ==> (failure matches PinrayError::Platform(message) && message@
                == "get_image reply: "@ + error@),
    {
        match self.target {
            Target::Root { .. } => {
                let mut message: String = joined("GetImage on the root window failed (", error);
                message.append(
                    "); if this is a Wayland session, the Xwayland root is not readable — use the Wayland backend",
                );
                PinrayError::BackendUnavailable(message)
            },
            Target::Window(_) => PinrayError::Platform(joined("get_image reply: ", error)),
        }
    }

    /// Makes the server's image of `region` into a frame. `cursor` is the
    /// pointer, where the server gave it.
    pub fn assemble(
        &mut self,
        image: ImageReply,
        region: FrameRegion,
        cursor: Option<CursorImage>,
        stream_time_ns: i64,
    ) -> (reply: Result<CaptureEvent>)
        requires
            image_problem(image, region.width, region.height) is None ==> {
                &&& old(self).sequence < u64::MAX
                &&& old(self).embed_cursor ==> (cursor matches Some(pointer) ==> pointer.covers(
                    region.x as int,
                    region.y as int,
                    region.width as int,
                    region.height as int,
                ))
            },
        ensures
            match image_problem(image, region.width, region.height) {
                Some(problem) => is_problem(reply, image, region.width, region.height, problem)
                    && *final(self) == *old(self),
                None => {
                    &&& reply matches Ok(CaptureEvent::Video(frame)) && {
                        &&& frame.stream_time_ns == stream_time_ns
                        &&& frame.sequence == old(self).sequence
                        &&& frame.width == region.width
                        &&& frame.height == region.height
                        &&& frame.stride == region.width * 4
                        &&& frame.pixel_format == crate::pixels::made_of_bgra(
                            old(self).pixel_format,
                        )
                        &&& frame.color_space is None
                        &&& frame.damage is None
                        &&& frame.data matches FrameData::Host(bytes) && bytes@ == frame_bytes(
                            image,
                            region,
                            pointer_shown(old(self).embed_cursor, cursor),
                            old(self).pixel_format,
                        )
                    }
                    &&& *final(self) == (X11Stream {
                        sequence: (old(self).sequence + 1) as u64,
                        ..*old(self)
                    })
                },
            },
    {
        let w: u16 = region.width;
        let h: u16 = region.height;
        if let Err(error) = check_image(&image, w, h) {
            return Err(error);
        }
        let len: usize = image.data.len();
        proof {
            assert(0 <= w * h <= w * h * 4) by (nonlinear_arith)
                requires
                    w >= 0,
                    h >= 0,
            ;
            assert(w * h * 4 <= len);
        }
        let expected: usize = w as usize * h as usize * 4;
        let depth: u8 = image.depth;
        let mut data: Vec<u8> = image.data;
        data.truncate(expected);
        assert(data@ =~= image.data@.subrange(0, w * h * 4));
        // The pixels are effectively BGRx; without an alpha channel the alpha
        // bytes are undefined, so force them opaque.
        if depth == 24 {
            make_opaque(&mut data);
        }
        if self.embed_cursor {
            if let Some(pointer) = &cursor {
                blend_cursor(&mut data, pointer, region.x, region.y, w, h);
            }
        }
        let pixel_format: PixelFormat = convert_bgra(&mut data, self.pixel_format);
        let sequence: u64 = self.sequence;
        self.sequence += 1;
        Ok(
            CaptureEvent::Video(
                VideoFrame {
                    stream_time_ns,
                    sequence,
                    width: w as u32,
                    height: h as u32,
                    stride: w as u32 * 4,
                    pixel_format,
                    color_space: None,
                    data: FrameData::Host(data),
                    damage: None,
                },
            ),
        )
    }
}

/// The frames of a poll loop: each was polled for at `asked[i]` and captured
/// once its wait was over, and the schedule carried on from one to the next.
pub open spec fn polled(asked: Seq<int>, interval: int) -> Option<int>
    decreases asked.len(),
{
    if asked.len() == 0 {
        None
    } else {
        let due = match polled(asked.drop_last(), interval) {
            Some(due) => due,
            None => asked.last(),
        };
        Some(crate::numbers::larger(due, asked.last()) + interval)
    }
}

/// When the last frame of a poll loop was captured.
pub open spec fn captured_at(asked: Seq<int>, interval: int) -> int
    recommends
        asked.len() > 0,
{
    match polled(asked.drop_last(), interval) {
        Some(due) => crate::numbers::larger(due, asked.last()),
        None => asked.last(),
    }
}

/// The rate is a ceiling: however fast the caller polls, the n-th frame after
/// the first is captured no sooner than n intervals after it.
pub proof fn polling_never_exceeds_the_rate(asked: Seq<int>, interval: int)
    requires
        asked.len() > 0,
        interval >= 0,
    ensures
        captured_at(asked, interval) >= asked[0] + (asked.len() - 1) * interval,
        polled(asked, interval) == Some(captured_at(asked, interval) + interval),
    decreases asked.len(),
{
    let before = asked.drop_last();
    if before.len() > 0 {
        polling_never_exceeds_the_rate(before, interval);
        assert((before.len() - 1) * interval + interval == (asked.len() - 1) * interval)
            by (nonlinear_arith)
            requires
                asked.len() == before.len() + 1,
        ;
    } else {
        assert(polled(before, interval) is None);
        assert((asked.len() - 1) * interval == 0) by (nonlinear_arith)
            requires
                asked.len() == 1,
        ;
    }
}

/// The pixels of a frame fill it exactly, whatever else the server sent.
pub proof fn frames_have_every_pixel(
    image: ImageReply,
    region: FrameRegion,
    cursor: Option<CursorImage>,
    format: PixelFormat,
)
    requires
        image_problem(image, region.width, region.height) is None,
    ensures
        frame_bytes(image, region, cursor, format).len() == region.width * region.height * 4,
{
    assert(region.width * region.height * 4 >= 0) by (nonlinear_arith)
        requires
            region.width >= 0,
            region.height >= 0,
    ;
}

/// A capture of a display without a crop shows it in the size that it is listed
/// with, from where the server says that it lies: the display that the session
/// names, or for `auto` the first primary one.
pub proof fn displays_are_captured_in_their_listed_size(
    reports: &Vec<MonitorReport>,
    table: MonitorTable,
    id: SourceId,
    root: u32,
    found: Target,
    geometry: Option<WindowSize>,
    reply: Result<FrameRegion>,
)
    requires
        call_ensures(enumerate_monitors, (reports,), table),
        call_ensures(
            capture_target,
            (&Some(VideoCaptureTarget::Display(id)), root, &table),
            Ok(found),
        ),
        call_ensures(frame_region, (found, geometry, None::<Rect>), reply),
    ensures
        exists|i: int|
            {
                &&& 0 <= i < reports@.len()
                &&& id.0@ != "auto"@ ==> (#[trigger] table.sources@[i]).id.0@ == id.0@
                &&& id.0@ == "auto"@ ==> table.sources@[i].is_primary || i == 0
                &&& reply matches Ok(region) && {
                    &&& region.drawable == root
                    &&& region.width == table.sources@[i].width
                    &&& region.height == table.sources@[i].height
                    &&& region.width == reports@[i].width
                    &&& region.height == reports@[i].height
                    &&& region.x == reports@[i].x
                    &&& region.y == reports@[i].y
                }
            },
{
    let i = choose|i: int| #[trigger]
        crate::source::picks(table.sources@, id.0@, i) && found == region_of(
            root,
            table.regions@[i],
        );
    assert(crate::source::picks(table.sources@, id.0@, i));
    crate::platform_linux::x11_sources::monitors_are_listed_as_they_are_captured(
        reports,
        table,
        i,
    );
    assert(0 <= i < table.sources@.len());
    assert(table.sources@[i].width == reports@[i].width);
}

/// A session captures the window that it names, whatever monitors there are.
pub proof fn windows_are_captured_by_their_number(
    root: u32,
    monitors: &MonitorTable,
    window: u32,
    id: SourceId,
    reply: Result<Target>,
)
    requires
        call_ensures(window_id, (window,), id),
        call_ensures(
            capture_target,
            (&Some(VideoCaptureTarget::Window(id)), root, monitors),
            reply,
        ),
    ensures
        reply == Ok::<Target, PinrayError>(Target::Window(window)),
{
    crate::platform_linux::x11_sources::listed_windows_are_found_again(window);
}

/// Where no window is meant, the capture is a part of the root window, and fails
/// only if there is no monitor that is meant.
pub proof fn displays_are_parts_of_the_root(
    target: Option<VideoCaptureTarget>,
    root: u32,
    monitors: &MonitorTable,
    reply: Result<Target>,
)
    requires
        call_ensures(capture_target, (&target, root, monitors), reply),
        !(target matches Some(VideoCaptureTarget::Window(_))),
    ensures
        reply matches Ok(found) ==> (found matches Target::Root { root: of, .. } && of == root),
        target is None && monitors.sources@.len() > 0 ==> reply is Ok,
        reply is Err ==> forall|i: int|
            0 <= i < monitors.sources@.len() ==> (target matches Some(
                VideoCaptureTarget::Display(id),
            ) && id.0@ != (#[trigger] monitors.sources@[i]).id.0@),
{
    if reply is Err {
        if wanted_display(target) == "auto"@ {
            if monitors.sources@.len() > 0 {
                let i = crate::source::auto_always_picks(monitors.sources@);
                assert(crate::source::picks(monitors.sources@, wanted_display(target), i));
            }
        } else if exists|j: int|
            0 <= j < monitors.sources@.len() && (#[trigger] monitors.sources@[j]).id.0@
                == wanted_display(target) {
            let i = crate::source::lemma_first_named(
                monitors.sources@,
                wanted_display(target),
                monitors.sources@.len() as int,
            );
            assert(crate::source::picks(monitors.sources@, wanted_display(target), i));
        }
    }
}

/// A window is captured in its present size and from its own corner, and a
/// capture of one that is gone fails.
pub proof fn windows_are_captured_in_their_present_size(
    window: u32,
    geometry: Option<WindowSize>,
    reply: Result<FrameRegion>,
)
    requires
        call_ensures(frame_region, (Target::Window(window), geometry, None::<Rect>), reply),
    ensures
        geometry matches Some(size) ==> (reply matches Ok(region) && region.drawable == window
            && region.x == 0 && region.y == 0 && region.width == size.width && region.height
            == size.height),
        geometry is None ==> reply is Err,
{
}

/// A crop is granted exactly if every pixel of it lies in what is captured, and
/// shows those pixels: from its corner on, or from the edge on where the corner
/// lies before it. Of a monitor's region, they lie that far from its place in
/// the root window.
pub proof fn crops_show_the_pixels_they_ask_for(
    target: Target,
    geometry: Option<WindowSize>,
    rect: Rect,
    whole: FrameRegion,
    reply: Result<FrameRegion>,
)
    requires
        call_ensures(frame_region, (target, geometry, None::<Rect>), Ok(whole)),
        call_ensures(frame_region, (target, geometry, Some(rect)), reply),
        rect.x < 0x1_0000,
        rect.y < 0x1_0000,
    ensures
        ({
            let cx: int = if rect.x < 0 {
                0
            } else {
                rect.x as int
            };
            let cy: int = if rect.y < 0 {
                0
            } else {
                rect.y as int
            };
            &&& reply is Ok <==> cx + rect.width <= whole.width && cy + rect.height <= whole.height
            &&& reply matches Ok(region) ==> {
                &&& region.drawable == whole.drawable
                &&& region.width == rect.width
                &&& region.height == rect.height
                &&& whole.x + cx <= i16::MAX ==> region.x == whole.x + cx
                &&& whole.y + cy <= i16::MAX ==> region.y == whole.y + cy
            }
            &&& reply matches Err(problem) ==> (problem matches PinrayError::InvalidConfig(message)
                && message@ == "crop_rect exceeds capture region "@ + crate::text::decimal(
                whole.width as nat,
            ) + "x"@ + crate::text::decimal(whole.height as nat))
        }),
{
    lemma_offset(rect.x);
    lemma_offset(rect.y);
    let base = base_region(target, geometry);
    assert(whole == base);
    if crop_fits(rect, base.width, base.height) {
        lemma_reached(base.x + offset_of(rect.x));
        lemma_reached(base.y + offset_of(rect.y));
    }
}

/// A crop that does not start beyond what the protocol counts starts where it
/// says, or with the region.
proof fn lemma_offset(coordinate: i32)
    requires
        coordinate < 0x1_0000,
    ensures
        offset_of(coordinate) == if coordinate < 0 {
            0
        } else {
            coordinate as int
        },
{
}

/// A coordinate within the protocol's bits is kept.
proof fn lemma_reached(at: int)
    ensures
        i16::MIN <= at <= i16::MAX ==> wrapped_to_i16(at) == at,
{
}

/// The captures of one target and crop in two places differ by the way between
/// the places alone.
pub proof fn moved_monitors_move_their_captures(
    root: u32,
    x: i16,
    y: i16,
    width: u16,
    height: u16,
    rect: Rect,
    here: FrameRegion,
    there: FrameRegion,
)
    requires
        call_ensures(
            frame_region,
            (Target::Root { root, x: 0, y: 0, width, height }, None::<WindowSize>, Some(rect)),
            Ok(here),
        ),
        call_ensures(
            frame_region,
            (Target::Root { root, x, y, width, height }, None::<WindowSize>, Some(rect)),
            Ok(there),
        ),
        0 <= x + here.x <= i16::MAX,
        0 <= y + here.y <= i16::MAX,
        here.x >= 0,
        here.y >= 0,
    ensures
        there.x == x + here.x,
        there.y == y + here.y,
        there.width == here.width,
        there.height == here.height,
        there.drawable == root,
{
}

/// A capture has the crop, the format and the rate of its configuration: as many
/// frames as it says make up a second, or thirty. The pointer is drawn exactly
/// into captures of the root window whose configuration has it embedded. No
/// frame has been captured yet.
pub proof fn captures_are_as_configured(target: Target, config: &SessionConfig, stream: X11Stream)
    requires
        call_ensures(X11Stream::new, (target, config), stream),
    ensures
        stream.target == target,
        stream.crop == config.crop_rect,
        stream.pixel_format == config.pixel_format,
        stream.embed_cursor <==> config.cursor_mode == CursorMode::Embedded && !(
        target matches Target::Window(_)),
        stream.sequence == 0,
        stream.next_due is None,
        !stream.running,
        config.frame_rate is None ==> stream.frame_interval == 33_333_333,
        config.frame_rate matches Some(fps) ==> {
            &&& fps == 0 ==> stream.frame_interval == 1_000_000_000
            &&& fps > 0 ==> stream.frame_interval * fps <= 1_000_000_000 < (stream.frame_interval
                + 1) * fps
        },
{
    assert(1_000_000_000int / 30 == 33_333_333);
    assert(1_000_000_000int / 1 == 1_000_000_000);
    assert(crate::numbers::larger(30, 1) == 30);
    if let Some(fps) = config.frame_rate {
        assert(crate::numbers::larger(0, 1) == 1);
        if fps > 0 {
            let f = fps as int;
            assert(crate::numbers::larger(f, 1) == f);
            let interval = 1_000_000_000int / f;
            vstd::arithmetic::div_mod::lemma_fundamental_div_mod(1_000_000_000, f);
            vstd::arithmetic::div_mod::lemma_div_pos_is_pos(1_000_000_000, f);
            assert(interval * f <= 1_000_000_000 < (interval + 1) * f && interval
                <= 1_000_000_000) by (nonlinear_arith)
                requires
                    1_000_000_000 == f * interval + 1_000_000_000int % f,
                    0 <= 1_000_000_000int % f < f,
                    interval >= 0,
                    f >= 1,
            ;
        }
    }
}

/// A capture that starts has no frame due at any time, runs, and is otherwise as
/// it was; one that stops does not run.
pub proof fn starting_begins_a_new_schedule(stream: &mut X11Stream)
    requires
        call_ensures(X11Stream::start, (stream,), ()),
    ensures
        final(stream).running,
        final(stream).next_due is None,
        final(stream).target == old(stream).target,
        final(stream).crop == old(stream).crop,
        final(stream).pixel_format == old(stream).pixel_format,
        final(stream).embed_cursor == old(stream).embed_cursor,
        final(stream).frame_interval == old(stream).frame_interval,
        final(stream).sequence == old(stream).sequence,
{
}

/// Stopping only stops.
pub proof fn stopping_keeps_the_rest(stream: &mut X11Stream)
    requires
        call_ensures(X11Stream::stop, (stream,), ()),
    ensures
        !final(stream).running,
        final(stream).next_due == old(stream).next_due,
        final(stream).target == old(stream).target,
        final(stream).crop == old(stream).crop,
        final(stream).pixel_format == old(stream).pixel_format,
        final(stream).embed_cursor == old(stream).embed_cursor,
        final(stream).frame_interval == old(stream).frame_interval,
        final(stream).sequence == old(stream).sequence,
{
}

/// A poll of a running capture waits until its frame is due and not longer, and
/// the next one is due an interval after that. One that cannot wait so long
/// leaves the schedule as it is. The first frame is due at once. A capture that
/// does not run is not polled.
pub proof fn frames_are_captured_when_due(
    stream: &mut X11Stream,
    now: u64,
    patience: Option<u64>,
    reply: Result<Poll>,
)
    requires
        call_ensures(X11Stream::pace, (stream, now, patience), reply),
    ensures
        reply is Err <==> !old(stream).running,
        reply is Err ==> *final(stream) == *old(stream),
        reply matches Ok(Poll::CaptureAfter(wait)) ==> {
            &&& old(stream).next_due matches Some(due) ==> {
                &&& due >= now ==> now + wait == due
                &&& due < now ==> wait == 0
            }
            &&& old(stream).next_due is None ==> wait == 0
            &&& patience matches Some(limit) ==> wait <= limit
            &&& now + wait + old(stream).frame_interval <= u64::MAX ==> final(stream).next_due
                == Some((now + wait + old(stream).frame_interval) as u64)
        },
        reply matches Ok(Poll::TimeOut) ==> {
            &&& patience matches Some(limit) && (old(stream).next_due matches Some(due) && due
                > now + limit)
            &&& *final(stream) == *old(stream)
        },
        final(stream).running == old(stream).running,
        final(stream).frame_interval == old(stream).frame_interval,
        final(stream).sequence == old(stream).sequence,
        final(stream).target == old(stream).target,
        final(stream).crop == old(stream).crop,
        final(stream).pixel_format == old(stream).pixel_format,
        final(stream).embed_cursor == old(stream).embed_cursor,
{
}

/// The server's refusal is told as a backend that is not there if it concerns
/// the root window, and else as a failure.
pub proof fn refusals_of_the_root_blame_the_backend(
    stream: &X11Stream,
    error: &str,
    failure: PinrayError,
)
    requires
        call_ensures(X11Stream::image_refused, (stream, error), failure),
    ensures
        stream.target matches Target::Root { .. } ==> failure is BackendUnavailable,
        stream.target matches Target::Window(_) ==> (failure matches PinrayError::Platform(message)
            && message@ == "get_image reply: "@ + error@),
{
}

/// An image is made into a frame exactly if it has four bytes for each pixel and
/// a depth of 24 or 32 bits.
pub proof fn whole_truecolour_images_are_accepted(
    image: &ImageReply,
    w: u16,
    h: u16,
    reply: Result<()>,
)
    requires
        call_ensures(check_image, (image, w, h), reply),
    ensures
        reply is Ok <==> (image.depth == 24 || image.depth == 32) && image.data@.len() >= 4 * (w
            * h),
        reply matches Err(problem) ==> {
            &&& problem is Unsupported <==> image.depth != 24 && image.depth != 32
            &&& problem is Platform <==> image.depth == 24 || image.depth == 32
        },
{
}

/// A frame tells the region's size, the time that it is given and the next
/// number, and its label is the format that was asked for if that is RGBA, and
/// else BGRA. Only the number goes on, and only with a frame.
pub proof fn frames_are_numbered_in_order(
    stream: &mut X11Stream,
    image: ImageReply,
    region: FrameRegion,
    cursor: Option<CursorImage>,
    stream_time_ns: i64,
    reply: Result<CaptureEvent>,
)
    requires
        call_ensures(
            X11Stream::assemble,
            (stream, image, region, cursor, stream_time_ns),
            reply,
        ),
        old(stream).sequence < u64::MAX,
    ensures
        reply is Ok <==> (image.depth == 24 || image.depth == 32) && image.data@.len() >= 4 * (
        region.width * region.height),
        reply is Err ==> *final(stream) == *old(stream),
        reply matches Ok(event) ==> {
            &&& event matches CaptureEvent::Video(frame) && {
                &&& frame.width == region.width
                &&& frame.height == region.height
                &&& frame.stride == region.width * 4
                &&& frame.sequence == old(stream).sequence
                &&& frame.stream_time_ns == stream_time_ns
                &&& frame.pixel_format == PixelFormat::Rgba8888 <==> old(stream).pixel_format
                    == PixelFormat::Rgba8888
                &&& frame.pixel_format == PixelFormat::Bgra8888 <==> old(stream).pixel_format
                    != PixelFormat::Rgba8888
                &&& frame.color_space is None
                &&& frame.damage is None
                &&& frame.data matches FrameData::Host(bytes) && bytes@.len() == 4 * (region.width
                    * region.height)
            }
            &&& final(stream).sequence == old(stream).sequence + 1
            &&& final(stream).target == old(stream).target
            &&& final(stream).crop == old(stream).crop
            &&& final(stream).pixel_format == old(stream).pixel_format
            &&& final(stream).embed_cursor == old(stream).embed_cursor
            &&& final(stream).frame_interval == old(stream).frame_interval
            &&& final(stream).next_due == old(stream).next_due
            &&& final(stream).running == old(stream).running
        },
{
    if reply is Ok {
        frames_have_every_pixel(
            image,
            region,
            pointer_shown(old(stream).embed_cursor, cursor),
            old(stream).pixel_format,
        );
    }
}

/// Where no pointer is drawn, a pixel of the frame is that of the image: blue
/// and red are where the frame's format has them, and an image without alpha is
/// opaque.
pub proof fn frames_show_the_image(
    stream: &mut X11Stream,
    image: ImageReply,
    region: FrameRegion,
    cursor: Option<CursorImage>,
    stream_time_ns: i64,
    frame: VideoFrame,
    pixel: int,
)
    requires
        call_ensures(
            X11Stream::assemble,
            (stream, image, region, cursor, stream_time_ns),
            Ok(CaptureEvent::Video(frame)),
        ),
        old(stream).sequence < u64::MAX,
        !old(stream).embed_cursor || cursor is None,
        0 <= pixel < region.width * region.height,
    ensures
        frame.data matches FrameData::Host(bytes) && {
            let rgba = frame.pixel_format == PixelFormat::Rgba8888;
            let at = 4 * pixel;
            &&& bytes@[at + if rgba {
                2int
            } else {
                0
            }] == image.data@[at]
            &&& bytes@[at + 1] == image.data@[at + 1]
            &&& bytes@[at + if rgba {
                0int
            } else {
                2
            }] == image.data@[at + 2]
            &&& bytes@[at + 3] == if image.depth == 24 {
                255
            } else {
                image.data@[at + 3]
            }
        },
{
    assert(region.width * region.height * 4 >= 0) by (nonlinear_arith)
        requires
            region.width >= 0,
            region.height >= 0,
    ;
}

/// The pointer is seen where the configuration has it: an opaque pixel of its
/// image stands in the frame where it lies on the screen, seen from the frame's
/// corner. Its blue and red are where the frame's format has them.
pub proof fn frames_show_the_pointer(
    stream: &mut X11Stream,
    image: ImageReply,
    region: FrameRegion,
    cursor: CursorImage,
    stream_time_ns: i64,
    frame: VideoFrame,
    row: int,
    col: int,
)
    requires
        call_ensures(
            X11Stream::assemble,
            (stream, image, region, Some(cursor), stream_time_ns),
            Ok(CaptureEvent::Video(frame)),
        ),
        old(stream).sequence < u64::MAX,
        old(stream).embed_cursor,
        0 <= row < cursor.height,
        0 <= col < cursor.width,
        0 <= cursor.x + col - cursor.xhot - region.x < region.width,
        0 <= cursor.y + row - cursor.yhot - region.y < region.height,
        cursor.pixels@[row * cursor.width + col] >= 0xff00_0000,
    ensures
        frame.data matches FrameData::Host(bytes) && {
            let rgba = frame.pixel_format == PixelFormat::Rgba8888;
            let x = cursor.x + col - cursor.xhot - region.x;
            let y = cursor.y + row - cursor.yhot - region.y;
            let at = 4 * (y * region.width + x);
            let pixel = cursor.pixels@[row * cursor.width + col] as int;
            &&& bytes@[at + if rgba {
                2int
            } else {
                0
            }] == pixel % 0x100
            &&& bytes@[at + 1] == pixel / 0x100 % 0x100
            &&& bytes@[at + if rgba {
                0int
            } else {
                2
            }] == pixel / 0x1_0000 % 0x100
            &&& bytes@[at + 3] == 255
        },
{
    let x = cursor.x + col - cursor.xhot - region.x;
    let y = cursor.y + row - cursor.yhot - region.y;
    let pixels = bgra_pixels(image, region.width, region.height);
    assert(region.width * region.height * 4 >= 0) by (nonlinear_arith)
        requires
            region.width >= 0,
            region.height >= 0,
    ;
    crate::platform_linux::cursor::opaque_pixels_are_seen(
        pixels,
        region.width as int,
        region.height as int,
        cursor,
        region.x as int,
        region.y as int,
        row,
        col,
    );
}

/// What the backend says of itself.
pub proof fn the_backend_has_no_audio(info: BackendInfo)
    requires
        call_ensures(backend_info, (), info),
    ensures
        info.kind == BackendKind::LinuxX11,
        !info.supports_audio,
        !info.zero_copy,
        info.notes@
            == "X11 polling capture via GetImage (frame_rate-paced, not damage-driven)"@,
{
}

/// A poll that ran out of time is answered with its own timeout.
pub proof fn a_late_poll_is_told_its_timeout(limit: Duration, reply: Result<CaptureEvent>)
    requires
        call_ensures(timed_out, (limit,), reply),
    ensures
        reply matches Err(PinrayError::Timeout(told)) && told == limit,
{
}

/// Every refusal tells why.
pub proof fn refusals_tell_why(
    window: u32,
    crop: Option<Rect>,
    gone: Result<FrameRegion>,
    id: SourceId,
    root: u32,
    monitors: &MonitorTable,
    unknown: Result<Target>,
    context: &str,
    error: &str,
    problem: PinrayError,
)
    requires
        call_ensures(frame_region, (Target::Window(window), None::<WindowSize>, crop), gone),
        call_ensures(
            capture_target,
            (&Some(VideoCaptureTarget::Display(id)), root, monitors),
            unknown,
        ),
        call_ensures(x11_error, (context, error), problem),
    ensures
        gone matches Err(PinrayError::Platform(message)) && message@
            == "window disappeared during capture"@,
        unknown matches Err(error) ==> (error matches PinrayError::InvalidConfig(message)
            && message@ == "display source not found: "@ + id.0@),
        problem matches PinrayError::Platform(message) && message@ == context@ + ": "@ + error@,
{
}

/// Every image that cannot be made into a frame is told for what it is, and so is
/// a poll of a capture that does not run.
pub proof fn bad_images_are_told(
    image: &ImageReply,
    w: u16,
    h: u16,
    reply: Result<()>,
    stream: &mut X11Stream,
    now: u64,
    patience: Option<u64>,
    poll: Result<Poll>,
    refused: PinrayError,
    error: &str,
)
    requires
        call_ensures(check_image, (image, w, h), reply),
        call_ensures(X11Stream::pace, (stream, now, patience), poll),
        call_ensures(X11Stream::image_refused, (final(stream), error), refused),
    ensures
        reply matches Err(PinrayError::Unsupported(message)) ==> message@ == "x11 visual depth "@
            + crate::text::decimal(image.depth as nat)
            + " not supported (need 24/32-bit truecolor)"@,
        reply matches Err(PinrayError::Platform(message)) ==> message@ == "get_image returned "@
            + crate::text::decimal(image.data@.len()) + " bytes, expected "@
            + crate::text::decimal((w * h * 4) as nat),
        poll matches Err(problem) ==> (problem matches PinrayError::Platform(message) && message@
            == "x11 backend not started"@),
        refused matches PinrayError::BackendUnavailable(message) ==> message@
            == "GetImage on the root window failed ("@ + error@
            + "); if this is a Wayland session, the Xwayland root is not readable — use the Wayland backend"@,
{
}

/// The protocol counts in sixteen bits: crops whose corners lie apart by as many
/// as those can count are the same, and a place that they do not reach is told by
/// its low bits.
pub proof fn places_count_in_sixteen_bits(
    target: Target,
    geometry: Option<WindowSize>,
    rect: Rect,
    far: Rect,
    whole: FrameRegion,
    near_reply: Result<FrameRegion>,
    far_reply: Result<FrameRegion>,
)
    requires
        call_ensures(frame_region, (target, geometry, None::<Rect>), Ok(whole)),
        call_ensures(frame_region, (target, geometry, Some(rect)), near_reply),
        call_ensures(frame_region, (target, geometry, Some(far)), far_reply),
        0 <= rect.x < 0x1_0000,
        0 <= rect.y < 0x1_0000,
        far.x >= 0,
        far.y >= 0,
        far.x % 0x1_0000 == rect.x,
        far.y % 0x1_0000 == rect.y,
        far.width == rect.width,
        far.height == rect.height,
    ensures
        near_reply is Ok <==> far_reply is Ok,
        near_reply matches Ok(region) ==> far_reply == Ok::<FrameRegion, PinrayError>(region),
        near_reply matches Ok(region) ==> (region.x - (whole.x + rect.x)) % 0x1_0000 == 0 && (
        region.y - (whole.y + rect.y)) % 0x1_0000 == 0,
{
    let base = base_region(target, geometry);
    assert(whole == base);
    assert(offset_of(far.x) == offset_of(rect.x));
    assert(offset_of(far.y) == offset_of(rect.y));
    lemma_offset(rect.x);
    lemma_offset(rect.y);
    lemma_low_bits(base.x + rect.x);
    lemma_low_bits(base.y + rect.y);
}

proof fn lemma_low_bits(at: int)
    ensures
        i16::MIN <= wrapped_to_i16(at) <= i16::MAX,
        (wrapped_to_i16(at) - at) % 0x1_0000 == 0,
{
}

} // verus!
