//! Drawing the pointer into a frame.
//!
//! The X server hands the pointer over as premultiplied ARGB pixels around a
//! hot spot. Frames are BGRA at this point.
use vstd::arithmetic::div_mod::lemma_fundamental_div_mod_converse;
use vstd::prelude::*;

verus! {

/// The pointer's image and place. `x` and `y` are the pointer's position in
/// root coordinates; the image is anchored so that its hot spot lies there.
#[derive(Debug)]
pub struct CursorImage {
    pub x: i16,
    pub y: i16,
    pub width: u16,
    pub height: u16,
    pub xhot: u16,
    pub yhot: u16,
    /// Rows of premultiplied ARGB pixels, alpha in the highest byte.
    pub pixels: Vec<u32>,
}

impl CursorImage {
    /// The image's left edge in a frame that starts at `region_x`.
    pub open spec fn origin_x(&self, region_x: int) -> int {
        self.x - self.xhot - region_x
    }

    /// The image's upper edge in a frame that starts at `region_y`.
    pub open spec fn origin_y(&self, region_y: int) -> int {
        self.y - self.yhot - region_y
    }

    /// The place in `pixels` of the pixel in this row and column.
    pub open spec fn index(&self, row: int, col: int) -> int {
        row * self.width + col
    }

    /// The image has a pixel in this row and column.
    pub open spec fn has(&self, row: int, col: int) -> bool {
        0 <= row < self.height && 0 <= col < self.width
    }

    /// Every pixel of the image that falls into the frame is there, at a place
    /// that a 32-bit index reaches.
    pub open spec fn covers(&self, region_x: int, region_y: int, w: int, h: int) -> bool {
        forall|row: int, col: int|
            self.has(row, col) && 0 <= self.origin_x(region_x) + col < w && 0 <= self.origin_y(
                region_y,
            ) + row < h ==> 0 <= #[trigger] self.index(row, col) < self.pixels@.len()
                && self.index(row, col) <= i32::MAX
    }
}

/// How much a premultiplied pixel covers what is behind it.
pub open spec fn alpha(pixel: u32) -> int {
    pixel as int / 0x100_0000
}

/// What a pixel adds to byte `channel` of a BGRA pixel.
pub open spec fn colour(pixel: u32, channel: int) -> int {
    if channel == 0 {
        pixel as int % 0x100
    } else if channel == 1 {
        (pixel as int / 0x100) % 0x100
    } else {
        (pixel as int / 0x1_0000) % 0x100
    }
}

/// Byte `channel` of a BGRA pixel with `pixel` laid over it: the source plus
/// what the destination shows through, kept to a byte.
pub open spec fn laid_over(pixel: u32, channel: int, behind: u8) -> u8 {
    if alpha(pixel) == 0 {
        behind
    } else if channel == 3 {
        255
    } else {
        ((colour(pixel, channel) + behind as int * (255 - alpha(pixel)) / 255) % 0x100) as u8
    }
}

/// The column of the pixel that byte `i` belongs to, in rows of `w` pixels.
pub open spec fn column_of(i: int, w: int) -> int {
    (i / 4) % w
}

/// The row of the pixel that byte `i` belongs to, in rows of `w` pixels.
pub open spec fn row_of(i: int, w: int) -> int {
    (i / 4) / w
}

/// Byte `i` of a frame with the pointer drawn into it.
pub open spec fn blended_byte(
    frame: Seq<u8>,
    w: int,
    cursor: CursorImage,
    region_x: int,
    region_y: int,
    i: int,
) -> u8 {
    let row = row_of(i, w) - cursor.origin_y(region_y);
    let col = column_of(i, w) - cursor.origin_x(region_x);
    if cursor.has(row, col) {
        laid_over(cursor.pixels@[cursor.index(row, col)], i % 4, frame[i])
    } else {
        frame[i]
    }
}

/// A frame of rows of `w` pixels with the pointer drawn into it.
pub open spec fn blended(
    frame: Seq<u8>,
    w: int,
    cursor: CursorImage,
    region_x: int,
    region_y: int,
) -> Seq<u8> {
    Seq::new(frame.len(), |i: int| blended_byte(frame, w, cursor, region_x, region_y, i))
}

/// The drawing, row by row and pixel by pixel, has come past byte `i`.
spec fn drawn(i: int, w: int, origin_x: int, origin_y: int, row: int, col: int) -> bool {
    let r = row_of(i, w) - origin_y;
    r < row || (r == row && column_of(i, w) - origin_x < col)
}

/// Where the bytes of the pixel at (`x`, `y`) stand, and no others.
proof fn lemma_pixel_place(x: int, y: int, w: int, i: int)
    requires
        0 <= x < w,
        0 <= y,
        0 <= i,
    ensures
        column_of(i, w) == x && row_of(i, w) == y <==> (y * w + x) * 4 <= i < (y * w + x) * 4 + 4,
{
    let p = y * w + x;
    assert(p >= 0) by (nonlinear_arith)
        requires
            p == y * w + x,
            x >= 0,
            y >= 0,
            w >= 0,
    ;
    lemma_fundamental_div_mod_converse(p, w, y, x);
    if column_of(i, w) == x && row_of(i, w) == y {
        vstd::arithmetic::div_mod::lemma_fundamental_div_mod(i / 4, w);
        assert(w * y == y * w) by (nonlinear_arith);
        assert(i / 4 == p);
    }
    if p * 4 <= i < p * 4 + 4 {
        assert(i / 4 == p);
    }
}

fn channels_of(pixel: u32) -> (channels: (u32, u32, u32, u32))
    ensures
        channels.0 == colour(pixel, 0),
        channels.1 == colour(pixel, 1),
        channels.2 == colour(pixel, 2),
        channels.3 == alpha(pixel),
        channels.0 < 256,
        channels.1 < 256,
        channels.2 < 256,
        channels.3 < 256,
{
    assert(pixel & 0xff == pixel % 0x100 && (pixel >> 8) & 0xff == (pixel / 0x100) % 0x100 && (pixel
        >> 16) & 0xff == (pixel / 0x1_0000) % 0x100 && (pixel >> 24) & 0xff == pixel / 0x100_0000)
        by (bit_vector);
    (pixel & 0xff, (pixel >> 8) & 0xff, (pixel >> 16) & 0xff, (pixel >> 24) & 0xff)
}

/// What shows of `behind` through a pixel of this alpha, with `source` added,
/// kept to a byte.
fn mix(source: u32, behind: u8, a: u32) -> (byte: u8)
    requires
        source < 256,
        a < 256,
    ensures
        byte == (source + behind as int * (255 - a) / 255) % 0x100,
{
    assert(behind as int * (255 - a) <= 255 * 255) by (nonlinear_arith)
        requires
            0 <= behind <= 255,
            0 <= a <= 255,
    ;
    assert(behind as int * (255 - a) >= 0) by (nonlinear_arith)
        requires
            0 <= behind <= 255,
            0 <= a <= 255,
    ;
    let sum: u32 = source + behind as u32 * (255 - a) / 255;
    assert(sum as u8 == sum % 0x100) by (bit_vector);
    #[verifier::truncate]
    (sum as u8)
}

/// Lays one pixel over the four bytes at `at`.
fn lay_over(frame: &mut Vec<u8>, at: usize, pixel: u32)
    requires
        at + 4 <= old(frame)@.len(),
    ensures
        final(frame)@.len() == old(frame)@.len(),
        forall|i: int|
            0 <= i < old(frame)@.len() ==> #[trigger] final(frame)@[i] == if at <= i < at + 4 {
                laid_over(pixel, i - at, old(frame)@[i])
            } else {
                old(frame)@[i]
            },
{
    let len: usize = frame.len();
    assert(at + 4 <= len);
    let (blue, green, red, a) = channels_of(pixel);
    if a == 0 {
        return ;
    }
    let first: u8 = frame[at];
    let second: u8 = frame[at + 1];
    let third: u8 = frame[at + 2];
    frame[at] = mix(blue, first, a);
    frame[at + 1] = mix(green, second, a);
    frame[at + 2] = mix(red, third, a);
    frame[at + 3] = 255;
}

/// Draws the pointer into a BGRA frame of `w` by `h` pixels that shows the
/// root window from (`region_x`, `region_y`) on.
pub fn blend_cursor(
    frame: &mut Vec<u8>,
    cursor: &CursorImage,
    region_x: i16,
    region_y: i16,
    w: u16,
    h: u16,
)
    requires
        old(frame)@.len() == w * h * 4,
        cursor.covers(region_x as int, region_y as int, w as int, h as int),
    ensures
        final(frame)@ == blended(
            old(frame)@,
            w as int,
            *cursor,
            region_x as int,
            region_y as int,
        ),
{
    let origin_x: i32 = cursor.x as i32 - cursor.xhot as i32 - region_x as i32;
    let origin_y: i32 = cursor.y as i32 - cursor.yhot as i32 - region_y as i32;
    let ghost before = frame@;
    let ghost target = blended(before, w as int, *cursor, region_x as int, region_y as int);
    let ghost (ox, oy) = (origin_x as int, origin_y as int);
    if w == 0 {
        proof {
            assert(before.len() == 0) by (nonlinear_arith)
                requires
                    before.len() == w * h * 4,
                    w == 0,
            ;
            assert(frame@ =~= target);
        }
        return ;
    }
    let len: usize = frame.len();
    let mut row: i32 = 0;
    while row < cursor.height as i32
        invariant
            w > 0,
            0 <= row <= cursor.height,
            frame@.len() == before.len() == w * h * 4,
            len == before.len(),
            ox == origin_x == cursor.origin_x(region_x as int),
            oy == origin_y == cursor.origin_y(region_y as int),
            target == blended(before, w as int, *cursor, region_x as int, region_y as int),
            cursor.covers(region_x as int, region_y as int, w as int, h as int),
            forall|i: int|
                0 <= i < before.len() ==> #[trigger] frame@[i] == if drawn(
                    i,
                    w as int,
                    ox,
                    oy,
                    row as int,
                    0,
                ) {
                    target[i]
                } else {
                    before[i]
                },
        decreases cursor.height - row,
    {
        let fy: i32 = origin_y + row;
        let mut col: i32 = 0;
        if fy < 0 || fy >= h as i32 {
            proof {
                assert forall|i: int| 0 <= i < before.len() implies #[trigger] frame@[i] == if drawn(
                    i,
                    w as int,
                    ox,
                    oy,
                    row + 1,
                    0,
                ) {
                    target[i]
                } else {
                    before[i]
                } by {
                    lemma_row_in_frame(i, w as int, h as int);
                }
            }
            row += 1;
            continue ;
        }
        while col < cursor.width as i32
            invariant
                w > 0,
                0 <= row < cursor.height,
                0 <= col <= cursor.width,
                0 <= fy < h,
                fy == origin_y + row,
                frame@.len() == before.len() == w * h * 4,
                len == before.len(),
                ox == origin_x == cursor.origin_x(region_x as int),
                oy == origin_y == cursor.origin_y(region_y as int),
                target == blended(before, w as int, *cursor, region_x as int, region_y as int),
                cursor.covers(region_x as int, region_y as int, w as int, h as int),
                forall|i: int|
                    0 <= i < before.len() ==> #[trigger] frame@[i] == if drawn(
                        i,
                        w as int,
                        ox,
                        oy,
                        row as int,
                        col as int,
                    ) {
                        target[i]
                    } else {
                        before[i]
                    },
            decreases cursor.width - col,
        {
            let fx: i32 = origin_x + col;
            if fx >= 0 && fx < w as i32 {
                assert(cursor.has(row as int, col as int));
                let ghost place = cursor.index(row as int, col as int);
                proof {
                    lemma_index_grows(*cursor, row as int, col as int);
                    lemma_pixel_fits(fx as int, fy as int, w as int, h as int);
                }
                let pixel: u32 = cursor.pixels[(row * cursor.width as i32 + col) as usize];
                let at: usize = (fy as usize * w as usize + fx as usize) * 4;
                let ghost drawing = frame@;
                lay_over(frame, at, pixel);
                proof {
                    assert forall|i: int| 0 <= i < before.len() implies #[trigger] frame@[i]
                        == if drawn(i, w as int, ox, oy, row as int, col + 1) {
                        target[i]
                    } else {
                        before[i]
                    } by {
                        lemma_pixel_place(fx as int, fy as int, w as int, i);
                        assert(drawing[i] == if drawn(
                            i,
                            w as int,
                            ox,
                            oy,
                            row as int,
                            col as int,
                        ) {
                            target[i]
                        } else {
                            before[i]
                        });
                        if at <= i < at + 4 {
                            assert(i % 4 == i - at);
                        }
                    }
                }
            } else {
                proof {
                    assert forall|i: int| 0 <= i < before.len() implies #[trigger] frame@[i]
                        == if drawn(i, w as int, ox, oy, row as int, col + 1) {
                        target[i]
                    } else {
                        before[i]
                    } by {
                        assert(0 <= column_of(i, w as int) < w) by (nonlinear_arith)
                            requires
                                w > 0,
                                column_of(i, w as int) == (i / 4) % (w as int),
                        ;
                    }
                }
            }
            col += 1;
        }
        row += 1;
    }
    proof {
        assert forall|i: int| 0 <= i < before.len() implies #[trigger] frame@[i] == target[i] by {}
        assert(frame@ =~= target);
    }
}

/// The bytes of a frame belong to its rows.
proof fn lemma_row_in_frame(i: int, w: int, h: int)
    requires
        w > 0,
        0 <= i < w * h * 4,
    ensures
        0 <= row_of(i, w) < h,
{
    let p = i / 4;
    assert(0 <= p < w * h);
    assert(0 <= p / w < h) by (nonlinear_arith)
        requires
            0 <= p < w * h,
            w > 0,
    ;
}

/// The bytes of a pixel of a frame lie within the frame.
proof fn lemma_pixel_fits(x: int, y: int, w: int, h: int)
    requires
        0 <= x < w <= u16::MAX,
        0 <= y < h <= u16::MAX,
    ensures
        0 <= y * w <= y * w + x,
        (y * w + x) * 4 + 4 <= w * h * 4,
{
    assert(0 <= y * w && y * w + w <= w * h) by (nonlinear_arith)
        requires
            0 <= y,
            y + 1 <= h,
            0 < w,
    ;
}

/// An index into the pointer's image is never negative.
proof fn lemma_index_grows(cursor: CursorImage, row: int, col: int)
    requires
        cursor.has(row, col),
    ensures
        0 <= row * cursor.width <= cursor.index(row, col),
{
    assert(0 <= row * cursor.width) by (nonlinear_arith)
        requires
            row >= 0,
            cursor.width >= 0,
    ;
}

/// Pixels that the pointer does not reach are kept.
pub proof fn pixels_beside_the_pointer_are_kept(
    frame: Seq<u8>,
    w: int,
    cursor: CursorImage,
    region_x: int,
    region_y: int,
    i: int,
)
    requires
        0 <= i < frame.len(),
        !cursor.has(
            row_of(i, w) - cursor.origin_y(region_y),
            column_of(i, w) - cursor.origin_x(region_x),
        ),
    ensures
        blended(frame, w, cursor, region_x, region_y)[i] == frame[i],
{
}

/// A pointer without a visible pixel leaves the frame as it was.
pub proof fn a_transparent_pointer_changes_nothing(
    frame: Seq<u8>,
    w: int,
    cursor: CursorImage,
    region_x: int,
    region_y: int,
)
    requires
        forall|row: int, col: int|
            cursor.has(row, col) ==> alpha(cursor.pixels@[#[trigger] cursor.index(row, col)]) == 0,
    ensures
        blended(frame, w, cursor, region_x, region_y) == frame,
{
    assert(blended(frame, w, cursor, region_x, region_y) =~= frame);
}

/// Where the pointer is opaque, it alone is seen.
pub proof fn an_opaque_pointer_hides_the_frame(pixel: u32, channel: int, behind: u8)
    requires
        alpha(pixel) == 255,
        0 <= channel < 4,
    ensures
        laid_over(pixel, channel, behind) == if channel == 3 {
            255
        } else {
            colour(pixel, channel)
        },
{
    assert(behind as int * (255 - alpha(pixel)) == 0) by (nonlinear_arith)
        requires
            alpha(pixel) == 255,
    ;
}

/// Where the pixel in row `row` and column `col` of the pointer's image is seen:
/// in a frame that starts at (`region_x`, `region_y`) the hot spot lies at the
/// pointer's position, and the image around it. There, blue, green and red are
/// those of the pixel with what shows of the frame through it: nothing of the
/// frame if the pixel is opaque, nothing of the pixel if it is transparent.
pub proof fn the_hot_spot_lies_at_the_pointer(
    frame: &mut Vec<u8>,
    cursor: &CursorImage,
    region_x: i16,
    region_y: i16,
    w: u16,
    h: u16,
    row: int,
    col: int,
)
    requires
        call_ensures(blend_cursor, (frame, cursor, region_x, region_y, w, h), ()),
        old(frame)@.len() == w * h * 4,
        0 <= row < cursor.height,
        0 <= col < cursor.width,
        0 <= cursor.x + col - cursor.xhot - region_x < w,
        0 <= cursor.y + row - cursor.yhot - region_y < h,
    ensures
        ({
            let x = cursor.x + col - cursor.xhot - region_x;
            let y = cursor.y + row - cursor.yhot - region_y;
            let at = (y * w + x) * 4;
            let pixel = cursor.pixels@[row * cursor.width + col] as int;
            let opacity = pixel / 0x100_0000;
            let shown = final(frame)@;
            let behind = old(frame)@;
            &&& 0 <= at
            &&& at + 4 <= shown.len()
            &&& shown.len() == behind.len()
            &&& opacity == 255 ==> {
                &&& shown[at] == pixel % 0x100
                &&& shown[at + 1] == pixel / 0x100 % 0x100
                &&& shown[at + 2] == pixel / 0x1_0000 % 0x100
                &&& shown[at + 3] == 255
            }
            &&& opacity == 0 ==> {
                &&& shown[at] == behind[at]
                &&& shown[at + 1] == behind[at + 1]
                &&& shown[at + 2] == behind[at + 2]
                &&& shown[at + 3] == behind[at + 3]
            }
            &&& opacity > 0 ==> {
                &&& shown[at] == (pixel % 0x100 + behind[at] as int * (255 - opacity) / 255) % 0x100
                &&& shown[at + 1] == (pixel / 0x100 % 0x100 + behind[at + 1] as int * (255
                    - opacity) / 255) % 0x100
                &&& shown[at + 2] == (pixel / 0x1_0000 % 0x100 + behind[at + 2] as int * (255
                    - opacity) / 255) % 0x100
                &&& shown[at + 3] == 255
            }
        }),
{
    let x = cursor.x + col - cursor.xhot - region_x;
    let y = cursor.y + row - cursor.yhot - region_y;
    let at = (y * w + x) * 4;
    lemma_pixel_fits(x, y, w as int, h as int);
    lemma_pixel_place(x, y, w as int, at);
    lemma_pixel_place(x, y, w as int, at + 1);
    lemma_pixel_place(x, y, w as int, at + 2);
    lemma_pixel_place(x, y, w as int, at + 3);
    assert(at % 4 == 0);
    let pixel = cursor.pixels@[row * cursor.width + col];
    if pixel as int / 0x100_0000 == 255 {
        an_opaque_pointer_hides_the_frame(pixel, 0, old(frame)@[at]);
        an_opaque_pointer_hides_the_frame(pixel, 1, old(frame)@[at + 1]);
        an_opaque_pointer_hides_the_frame(pixel, 2, old(frame)@[at + 2]);
    }
}

/// A pixel of the frame that no pixel of the pointer's image falls on is kept.
pub proof fn the_pointer_touches_nothing_else(
    frame: &mut Vec<u8>,
    cursor: &CursorImage,
    region_x: i16,
    region_y: i16,
    w: u16,
    h: u16,
    x: int,
    y: int,
    channel: int,
)
    requires
        call_ensures(blend_cursor, (frame, cursor, region_x, region_y, w, h), ()),
        old(frame)@.len() == w * h * 4,
        0 <= x < w,
        0 <= y < h,
        0 <= channel < 4,
        x < cursor.x - cursor.xhot - region_x || x >= cursor.x - cursor.xhot - region_x
            + cursor.width || y < cursor.y - cursor.yhot - region_y || y >= cursor.y - cursor.yhot
            - region_y + cursor.height,
    ensures
        final(frame)@[(y * w + x) * 4 + channel] == old(frame)@[(y * w + x) * 4 + channel],
{
    lemma_pixel_fits(x, y, w as int, h as int);
    lemma_pixel_place(x, y, w as int, (y * w + x) * 4 + channel);
}

/// An opaque pixel of the pointer's image is what the frame shows where the
/// pixel lies.
pub proof fn opaque_pixels_are_seen(
    frame: Seq<u8>,
    w: int,
    h: int,
    cursor: CursorImage,
    region_x: int,
    region_y: int,
    row: int,
    col: int,
)
    requires
        frame.len() == w * h * 4,
        0 <= w <= u16::MAX,
        0 <= h <= u16::MAX,
        0 <= row < cursor.height,
        0 <= col < cursor.width,
        0 <= cursor.x + col - cursor.xhot - region_x < w,
        0 <= cursor.y + row - cursor.yhot - region_y < h,
        cursor.pixels@[row * cursor.width + col] >= 0xff00_0000,
    ensures
        ({
            let at = 4 * ((cursor.y + row - cursor.yhot - region_y) * w + (cursor.x + col
                - cursor.xhot - region_x));
            let pixel = cursor.pixels@[row * cursor.width + col] as int;
            let shown = blended(frame, w, cursor, region_x, region_y);
            &&& 0 <= at
            &&& at + 4 <= frame.len()
            &&& shown.len() == frame.len()
            &&& shown[at] == pixel % 0x100
            &&& shown[at + 1] == pixel / 0x100 % 0x100
            &&& shown[at + 2] == pixel / 0x1_0000 % 0x100
            &&& shown[at + 3] == 255
        }),
{
    let x = cursor.x + col - cursor.xhot - region_x;
    let y = cursor.y + row - cursor.yhot - region_y;
    let at = 4 * (y * w + x);
    lemma_pixel_fits(x, y, w, h);
    lemma_pixel_place(x, y, w, at);
    lemma_pixel_place(x, y, w, at + 1);
    lemma_pixel_place(x, y, w, at + 2);
    lemma_pixel_place(x, y, w, at + 3);
    let pixel = cursor.pixels@[row * cursor.width + col];
    an_opaque_pointer_hides_the_frame(pixel, 0, frame[at]);
    an_opaque_pointer_hides_the_frame(pixel, 1, frame[at + 1]);
    an_opaque_pointer_hides_the_frame(pixel, 2, frame[at + 2]);
}

} // verus!
