//! Pixel buffers: channel order, opacity and row padding.
use vstd::prelude::*;

use crate::frame::PixelFormat;

verus! {

/// `index` lies in one of the whole 4-byte pixels of a buffer of `len` bytes;
/// the up to three bytes behind the last of them belong to no pixel.
pub open spec fn in_whole_pixel(index: int, len: int) -> bool {
    0 <= index < len - len % 4
}

/// `bytes` with the first and the third byte of every pixel exchanged, which
/// turns BGRA into RGBA and back.
pub open spec fn red_blue_swapped(bytes: Seq<u8>) -> Seq<u8> {
    Seq::new(
        bytes.len(),
        |i: int|
            if !in_whole_pixel(i, bytes.len() as int) {
                bytes[i]
            } else if i % 4 == 0 {
                bytes[i + 2]
            } else if i % 4 == 2 {
                bytes[i - 2]
            } else {
                bytes[i]
            },
    )
}

/// `bytes` with the fourth byte of every pixel set to 255.
pub open spec fn made_opaque(bytes: Seq<u8>) -> Seq<u8> {
    Seq::new(
        bytes.len(),
        |i: int|
            if in_whole_pixel(i, bytes.len() as int) && i % 4 == 3 {
                255u8
            } else {
                bytes[i]
            },
    )
}

/// The first `row_bytes` bytes of each of the first `rows` rows of `bytes`,
/// one after the other. Row `r` starts at byte `r * stride`.
pub open spec fn packed_rows(bytes: Seq<u8>, stride: int, row_bytes: int, rows: nat) -> Seq<u8>
    decreases rows,
{
    if rows == 0 {
        Seq::empty()
    } else {
        let start = (rows - 1) * stride;
        packed_rows(bytes, stride, row_bytes, (rows - 1) as nat) + bytes.subrange(
            start,
            start + row_bytes,
        )
    }
}

/// Row `row`, `row_bytes` long, ends within a buffer of `len` bytes.
pub open spec fn row_fits(len: int, stride: int, row_bytes: int, row: int) -> bool {
    row * stride + row_bytes <= len
}

/// All of the first `rows` rows end within a buffer of `len` bytes.
pub open spec fn rows_fit(len: int, stride: int, row_bytes: int, rows: int) -> bool {
    rows > 0 ==> row_fits(len, stride, row_bytes, rows - 1)
}

/// Exchanges the first and the third byte of every pixel.
pub fn swap_red_blue(data: &mut Vec<u8>)
    ensures
        final(data)@ == red_blue_swapped(old(data)@),
{
    let len: usize = data.len();
    let whole: usize = len - len % 4;
    let ghost before = data@;
    let mut i: usize = 0;
    while i < whole
        invariant
            len == before.len(),
            whole == len - len % 4,
            data@.len() == len,
            i % 4 == 0,
            i <= whole,
            forall|j: int| 0 <= j < i ==> data@[j] == red_blue_swapped(before)[j],
            forall|j: int| i <= j < len ==> data@[j] == before[j],
        decreases whole - i,
    {
        let first: u8 = data[i];
        let third: u8 = data[i + 2];
        data[i] = third;
        data[i + 2] = first;
        i += 4;
    }
    assert(data@ =~= red_blue_swapped(before));
}

/// Sets the fourth byte of every pixel to 255.
pub fn make_opaque(data: &mut Vec<u8>)
    ensures
        final(data)@ == made_opaque(old(data)@),
{
    let len: usize = data.len();
    let whole: usize = len - len % 4;
    let ghost before = data@;
    let mut i: usize = 0;
    while i < whole
        invariant
            len == before.len(),
            whole == len - len % 4,
            data@.len() == len,
            i % 4 == 0,
            i <= whole,
            forall|j: int| 0 <= j < i ==> data@[j] == made_opaque(before)[j],
            forall|j: int| i <= j < len ==> data@[j] == before[j],
        decreases whole - i,
    {
        data[i + 3] = 255;
        i += 4;
    }
    assert(data@ =~= made_opaque(before));
}

/// The format that BGRA bytes are delivered in to a consumer of `format`: RGBA
/// is made of them, nothing else is.
pub open spec fn made_of_bgra(format: PixelFormat) -> PixelFormat {
    if format == PixelFormat::Rgba8888 {
        PixelFormat::Rgba8888
    } else {
        PixelFormat::Bgra8888
    }
}

/// BGRA bytes as they are delivered to a consumer of `format`.
pub open spec fn bgra_as(bytes: Seq<u8>, format: PixelFormat) -> Seq<u8> {
    if format == PixelFormat::Rgba8888 {
        red_blue_swapped(bytes)
    } else {
        bytes
    }
}

/// Turns BGRA bytes into what is delivered to a consumer of `format`, and says
/// which format they are in now: RGBA is made on the CPU, everything else is
/// left as it came.
pub fn convert_bgra(data: &mut Vec<u8>, format: PixelFormat) -> (label: PixelFormat)
    ensures
        final(data)@ == bgra_as(old(data)@, format),
        label == made_of_bgra(format),
{
    if format == PixelFormat::Rgba8888 {
        swap_red_blue(data);
        PixelFormat::Rgba8888
    } else {
        PixelFormat::Bgra8888
    }
}

/// Rows that all fit do so one by one.
pub proof fn lemma_row_fits(len: int, stride: int, row_bytes: int, rows: int, row: int)
    requires
        rows_fit(len, stride, row_bytes, rows),
        0 <= row < rows,
        stride >= 0,
    ensures
        row_fits(len, stride, row_bytes, row),
{
    assert(row * stride <= (rows - 1) * stride) by (nonlinear_arith)
        requires
            row <= rows - 1,
            stride >= 0,
    ;
}

/// Copies the rows out of a padded buffer.
pub fn pack_rows(bytes: &[u8], stride: usize, row_bytes: usize, rows: usize) -> (packed: Vec<u8>)
    requires
        rows_fit(bytes@.len() as int, stride as int, row_bytes as int, rows as int),
    ensures
        packed@ == packed_rows(bytes@, stride as int, row_bytes as int, rows as nat),
{
    let len: usize = bytes.len();
    let mut packed: Vec<u8> = Vec::new();
    let mut start: usize = 0;
    let mut row: usize = 0;
    while row < rows
        invariant
            len == bytes@.len(),
            rows_fit(bytes@.len() as int, stride as int, row_bytes as int, rows as int),
            row <= rows,
            row < rows ==> start == row * stride,
            packed@ == packed_rows(bytes@, stride as int, row_bytes as int, row as nat),
        decreases rows - row,
    {
        proof {
            lemma_row_fits(
                bytes@.len() as int,
                stride as int,
                row_bytes as int,
                rows as int,
                row as int,
            );
        }
        packed.extend_from_slice(vstd::slice::slice_subrange(bytes, start, start + row_bytes));
        row += 1;
        proof {
            assert((row - 1) * stride + stride == row * stride) by (nonlinear_arith);
            assert(packed@ =~= packed_rows(bytes@, stride as int, row_bytes as int, row as nat));
        }
        if row < rows {
            proof {
                lemma_row_fits(
                    bytes@.len() as int,
                    stride as int,
                    row_bytes as int,
                    rows as int,
                    row as int,
                );
            }
            start += stride;
        }
    }
    packed
}

/// Packed rows are `rows * row_bytes` bytes long.
pub proof fn packed_rows_length(bytes: Seq<u8>, stride: int, row_bytes: int, rows: nat)
    requires
        rows_fit(bytes.len() as int, stride, row_bytes, rows as int),
        stride >= 0,
        row_bytes >= 0,
    ensures
        packed_rows(bytes, stride, row_bytes, rows).len() == rows * row_bytes,
    decreases rows,
{
    if rows > 0 {
        lemma_row_fits(bytes.len() as int, stride, row_bytes, rows as int, rows - 1);
        if rows > 1 {
            lemma_row_fits(bytes.len() as int, stride, row_bytes, rows as int, rows - 2);
        }
        let fewer = (rows - 1) as nat;
        packed_rows_length(bytes, stride, row_bytes, fewer);
        assert(fewer * row_bytes + row_bytes == rows * row_bytes) by (nonlinear_arith)
            requires
                fewer == rows - 1,
        ;
        assert(fewer * stride >= 0) by (nonlinear_arith)
            requires
                fewer >= 0,
                stride >= 0,
        ;
        assert(bytes.subrange(fewer * stride, fewer * stride + row_bytes).len() == row_bytes);
    } else {
        assert(rows * row_bytes == 0) by (nonlinear_arith)
            requires
                rows == 0,
        ;
    }
}

/// Byte `column` of row `row` is found at the same row and column once the
/// padding is gone.
pub proof fn packed_rows_keep_every_byte(
    bytes: Seq<u8>,
    stride: int,
    row_bytes: int,
    rows: nat,
    row: int,
    column: int,
)
    requires
        rows_fit(bytes.len() as int, stride, row_bytes, rows as int),
        stride >= 0,
        0 <= row < rows,
        0 <= column < row_bytes,
    ensures
        packed_rows(bytes, stride, row_bytes, rows)[row * row_bytes + column] == bytes[row * stride
            + column],
    decreases rows,
{
    let fewer = (rows - 1) as nat;
    if fewer > 0 {
        lemma_row_fits(bytes.len() as int, stride, row_bytes, rows as int, fewer - 1);
    }
    packed_rows_length(bytes, stride, row_bytes, fewer);
    assert(0 <= row * row_bytes) by (nonlinear_arith)
        requires
            row >= 0,
            row_bytes >= 0,
    ;
    assert(fewer * stride >= 0) by (nonlinear_arith)
        requires
            fewer >= 0,
            stride >= 0,
    ;
    if row < fewer {
        packed_rows_keep_every_byte(bytes, stride, row_bytes, fewer, row, column);
        assert(row * row_bytes + column < fewer * row_bytes) by (nonlinear_arith)
            requires
                row + 1 <= fewer,
                0 <= column < row_bytes,
        ;
    }
}

/// Rows that carry no padding are the buffer's own bytes.
pub proof fn unpadded_rows_are_kept(bytes: Seq<u8>, row_bytes: int, rows: nat)
    requires
        row_bytes >= 0,
        rows * row_bytes <= bytes.len(),
    ensures
        packed_rows(bytes, row_bytes, row_bytes, rows) == bytes.subrange(0, rows * row_bytes),
    decreases rows,
{
    if rows > 0 {
        let fewer = (rows - 1) as nat;
        assert(fewer * row_bytes + row_bytes == rows * row_bytes) by (nonlinear_arith)
            requires
                fewer == rows - 1,
        ;
        assert(fewer * row_bytes >= 0) by (nonlinear_arith)
            requires
                fewer >= 0,
                row_bytes >= 0,
        ;
        unpadded_rows_are_kept(bytes, row_bytes, fewer);
    } else {
        assert(rows * row_bytes == 0) by (nonlinear_arith)
            requires
                rows == 0,
        ;
    }
    assert(packed_rows(bytes, row_bytes, row_bytes, rows) =~= bytes.subrange(0, rows * row_bytes));
}

/// Swapping red and blue twice gives every pixel back.
pub proof fn swapping_twice_restores(bytes: Seq<u8>)
    ensures
        red_blue_swapped(red_blue_swapped(bytes)) == bytes,
{
    assert(red_blue_swapped(red_blue_swapped(bytes)) =~= bytes);
}

/// Forcing opacity and swapping red and blue do not disturb each other.
pub proof fn opacity_commutes_with_swapping(bytes: Seq<u8>)
    ensures
        red_blue_swapped(made_opaque(bytes)) == made_opaque(red_blue_swapped(bytes)),
{
    assert(red_blue_swapped(made_opaque(bytes)) =~= made_opaque(red_blue_swapped(bytes)));
}

/// Swapping red and blue exchanges the first and the third byte of every whole
/// pixel, and keeps all others.
pub proof fn swapping_exchanges_the_outer_colours(data: &mut Vec<u8>, pixel: int)
    requires
        call_ensures(swap_red_blue, (data,), ()),
        0 <= pixel,
        4 * pixel + 4 <= old(data)@.len(),
    ensures
        final(data)@.len() == old(data)@.len(),
        final(data)@[4 * pixel] == old(data)@[4 * pixel + 2],
        final(data)@[4 * pixel + 1] == old(data)@[4 * pixel + 1],
        final(data)@[4 * pixel + 2] == old(data)@[4 * pixel],
        final(data)@[4 * pixel + 3] == old(data)@[4 * pixel + 3],
        forall|i: int|
            old(data)@.len() - old(data)@.len() % 4 <= i < old(data)@.len() ==> #[trigger]
                final(data)@[i] == old(data)@[i],
{
}

/// Making a picture opaque sets the fourth byte of every whole pixel, and keeps
/// its colours.
pub proof fn opacity_keeps_the_colours(data: &mut Vec<u8>, pixel: int)
    requires
        call_ensures(make_opaque, (data,), ()),
        0 <= pixel,
        4 * pixel + 4 <= old(data)@.len(),
    ensures
        final(data)@.len() == old(data)@.len(),
        final(data)@[4 * pixel] == old(data)@[4 * pixel],
        final(data)@[4 * pixel + 1] == old(data)@[4 * pixel + 1],
        final(data)@[4 * pixel + 2] == old(data)@[4 * pixel + 2],
        final(data)@[4 * pixel + 3] == 255,
        forall|i: int|
            old(data)@.len() - old(data)@.len() % 4 <= i < old(data)@.len() ==> #[trigger]
                final(data)@[i] == old(data)@[i],
{
}

/// Converted BGRA bytes are in the format that they are labelled with: blue
/// stands where the label has it, and red, and the two other bytes stay. RGBA is
/// delivered exactly to those who ask for it.
pub proof fn converted_pixels_match_their_label(
    data: &mut Vec<u8>,
    format: PixelFormat,
    label: PixelFormat,
    pixel: int,
)
    requires
        call_ensures(convert_bgra, (data, format), label),
        0 <= pixel,
        4 * pixel + 4 <= old(data)@.len(),
    ensures
        label == PixelFormat::Rgba8888 <==> format == PixelFormat::Rgba8888,
        label == PixelFormat::Bgra8888 <==> format != PixelFormat::Rgba8888,
        final(data)@.len() == old(data)@.len(),
        final(data)@[4 * pixel + if label == PixelFormat::Bgra8888 {
            0int
        } else {
            2
        }] == old(data)@[4 * pixel],
        final(data)@[4 * pixel + 1] == old(data)@[4 * pixel + 1],
        final(data)@[4 * pixel + if label == PixelFormat::Bgra8888 {
            2int
        } else {
            0
        }] == old(data)@[4 * pixel + 2],
        final(data)@[4 * pixel + 3] == old(data)@[4 * pixel + 3],
{
}

/// Rows fit a buffer exactly if every one of their bytes lies in it.
pub proof fn rows_fit_if_all_their_bytes_do(len: int, stride: int, row_bytes: int, rows: int)
    requires
        stride >= 0,
        row_bytes > 0,
        rows >= 0,
    ensures
        rows_fit(len, stride, row_bytes, rows) <==> forall|row: int, column: int|
            0 <= row < rows && 0 <= column < row_bytes ==> #[trigger] (row * stride + column) < len,
{
    if rows_fit(len, stride, row_bytes, rows) {
        assert forall|row: int, column: int|
            0 <= row < rows && 0 <= column < row_bytes implies #[trigger] (row * stride + column)
            < len by {
            lemma_row_fits(len, stride, row_bytes, rows, row);
        }
    } else {
        let last = (rows - 1) * stride + (row_bytes - 1);
        assert(last >= len);
    }
}

/// Packed rows are the rows of the buffer, one behind the other: each byte is
/// the one in the same row and column, and there are no others.
pub proof fn packing_only_removes_the_padding(
    bytes: &[u8],
    stride: usize,
    row_bytes: usize,
    rows: usize,
    packed: Vec<u8>,
    row: int,
    column: int,
)
    requires
        call_ensures(pack_rows, (bytes, stride, row_bytes, rows), packed),
        rows > 0,
        (rows - 1) * stride + row_bytes <= bytes@.len(),
        0 <= row < rows,
        0 <= column < row_bytes,
    ensures
        packed@.len() == rows * row_bytes,
        packed@[row * row_bytes + column] == bytes@[row * stride + column],
{
    packed_rows_length(bytes@, stride as int, row_bytes as int, rows as nat);
    packed_rows_keep_every_byte(
        bytes@,
        stride as int,
        row_bytes as int,
        rows as nat,
        row,
        column,
    );
}

} // verus!
