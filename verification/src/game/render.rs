//! The test picture: a blue/green gradient that scrolls with the game state.
use vstd::prelude::*;

use crate::grid::{
    lemma_cell_of_four, lemma_cells_fit, lemma_grid_position, lemma_grid_split,
    lemma_past_whole_rows, lemma_whole_rows,
};

verus! {

/// Whether `v` is a value of `i32`.
pub open spec fn fits_i32(v: int) -> bool {
    i32::MIN <= v <= i32::MAX
}

/// One colour channel of the gradient: the low byte of the pixel's
/// coordinate (taken as an `i32`) plus the scroll offset.
pub open spec fn gradient_channel(coord: int, offset: i32) -> u8 {
    ((((coord as i32) + offset) as i32) & 0xFFi32) as u8
}

/// Byte `k` of the 32-bit XRGB pixel at column `x`, row `y`, stored little
/// endian: blue from the column, green from the row, red and padding zero.
pub open spec fn gradient_byte(x: int, y: int, k: int, x_offset: i32, y_offset: i32) -> u8 {
    if k == 0 {
        gradient_channel(x, x_offset)
    } else if k == 1 {
        gradient_channel(y, y_offset)
    } else {
        0
    }
}

/// Number of whole rows of `pitch` bytes in `len` bytes.
pub open spec fn whole_rows(len: int, pitch: int) -> int {
    len / pitch
}

/// Number of whole pixels of `bytes_per_pixel` bytes in a row of `pitch` bytes.
pub open spec fn whole_pixels(pitch: int, bytes_per_pixel: int) -> int {
    pitch / bytes_per_pixel
}

/// The inputs on which drawing the gradient completes: a row stride that is not
/// zero, a pixel size that is not zero once there is a row, pixels of four bytes
/// once there is a pixel, and no `i32` overflow when a coordinate is added to its
/// offset.
pub open spec fn gradient_drawable(len: int, pitch: int, bytes_per_pixel: int, x_offset: i32, y_offset: i32) -> bool {
    &&& pitch > 0
    &&& whole_rows(len, pitch) > 0 ==> bytes_per_pixel > 0
    &&& (whole_rows(len, pitch) > 0 && whole_pixels(pitch, bytes_per_pixel) > 0) ==> {
        &&& bytes_per_pixel == 4
        &&& forall|x: int| 0 <= x < whole_pixels(pitch, bytes_per_pixel)
            ==> #[trigger] fits_i32((x as i32) + x_offset)
        &&& forall|y: int| 0 <= y < whole_rows(len, pitch)
            ==> #[trigger] fits_i32((y as i32) + y_offset)
    }
}

/// The byte at index `i` after the gradient is drawn over `before`: bytes of whole
/// pixels in whole rows hold the gradient; the rest of the buffer (the tail
/// of a row past its last whole pixel, and any tail past the last whole row)
/// keeps its before content.
pub open spec fn gradient_result_byte(before: Seq<u8>, i: int, pitch: int, bytes_per_pixel: int, x_offset: i32, y_offset: i32) -> u8 {
    let row = i / pitch;
    let col = i % pitch;
    if row < whole_rows(before.len() as int, pitch)
        && col < whole_pixels(pitch, bytes_per_pixel) * bytes_per_pixel {
        gradient_byte(col / bytes_per_pixel, row, col % bytes_per_pixel, x_offset, y_offset)
    } else {
        before[i]
    }
}

/// The whole buffer after the gradient is drawn over `before`.
pub open spec fn gradient_result(before: Seq<u8>, pitch: int, bytes_per_pixel: int, x_offset: i32, y_offset: i32) -> Seq<u8> {
    Seq::new(before.len(), |i: int| gradient_result_byte(before, i, pitch, bytes_per_pixel, x_offset, y_offset))
}

/// Draws the gradient into `memory`, a picture of rows of `pitch` bytes made of
/// pixels of `bytes_per_pixel` bytes, scrolled by `x_offset` and `y_offset`.
pub fn render_weird_gradient(memory: &mut [u8], pitch: usize, bytes_per_pixel: usize, x_offset: i32, y_offset: i32)
    requires
        gradient_drawable(old(memory)@.len() as int, pitch as int, bytes_per_pixel as int, x_offset, y_offset),
    ensures
        final(memory)@ == gradient_result(old(memory)@, pitch as int, bytes_per_pixel as int, x_offset, y_offset),
{
    let ghost old_bytes = memory@;
    let ghost p = pitch as int;
    let ghost target = gradient_result(old_bytes, pitch as int, bytes_per_pixel as int, x_offset, y_offset);
    let len = memory.len();
    let rows = len / pitch;
    if rows == 0 {
        proof {
            assert forall|i: int| 0 <= i < len implies #[trigger] target[i] == old_bytes[i] by {
                lemma_past_whole_rows(i, p, 0);
            }
        }
        assert(memory@ =~= target);
        return;
    }
    let cols = pitch / bytes_per_pixel;
    if cols == 0 {
        proof {
            assert forall|i: int| 0 <= i < len implies #[trigger] target[i] == old_bytes[i] by {
                lemma_grid_split(i, p);
            }
        }
        assert(memory@ =~= target);
        return;
    }
    proof {
        lemma_cells_fit(p);
    }
    let mut y: usize = 0;
    let mut row_start: usize = 0;
    while y < rows
        invariant
            len == memory@.len(),
            len == old_bytes.len(),
            p == pitch,
            p > 0,
            bytes_per_pixel == 4,
            rows == len / pitch,
            cols == pitch / 4,
            0 < cols,
            4 * cols <= pitch,
            y <= rows,
            row_start == y * pitch,
            target == gradient_result(old_bytes, pitch as int, 4, x_offset, y_offset),
            gradient_drawable(len as int, pitch as int, 4, x_offset, y_offset),
            forall|i: int| 0 <= i < len ==> #[trigger] memory@[i] == if i < row_start { target[i] } else { old_bytes[i] },
        decreases rows - y,
    {
        proof {
            lemma_whole_rows(len as int, p, y as int);
            assert(fits_i32((y as i32) + y_offset));
        }
        let green: u8 = (((y as i32) + y_offset) & 0xFF) as u8;
        let mut x: usize = 0;
        let mut at: usize = row_start;
        while x < cols
            invariant
                len == memory@.len(),
                len == old_bytes.len(),
                p == pitch,
                p > 0,
                bytes_per_pixel == 4,
                rows == len / pitch,
                cols == pitch / 4,
                4 * cols <= pitch,
                y < rows,
                row_start == y * pitch,
                row_start + pitch <= len,
                x <= cols,
                at == row_start + 4 * x,
                green == gradient_channel(y as int, y_offset),
                target == gradient_result(old_bytes, pitch as int, 4, x_offset, y_offset),
                gradient_drawable(len as int, pitch as int, 4, x_offset, y_offset),
                forall|i: int| 0 <= i < len ==> #[trigger] memory@[i] == if i < at { target[i] } else { old_bytes[i] },
            decreases cols - x,
        {
            proof {
                assert(fits_i32((x as i32) + x_offset));
            }
            let blue: u8 = (((x as i32) + x_offset) & 0xFF) as u8;
            let ghost before = memory@;
            memory[at] = blue;
            memory[at + 1] = green;
            memory[at + 2] = 0;
            memory[at + 3] = 0;
            proof {
                assert forall|i: int| 0 <= i < len implies #[trigger] memory@[i] == if i < at + 4 { target[i] } else { old_bytes[i] } by {
                    if at <= i < at + 4 {
                        let k = i - at;
                        lemma_grid_position(y as int, p, 4 * x + k);
                        lemma_cell_of_four(x as int, k);
                        assert(i == y * p + (4 * x + k));
                    } else {
                        assert(memory@[i] == before[i]);
                    }
                }
            }
            x = x + 1;
            at = at + 4;
        }
        proof {
            assert forall|i: int| 0 <= i < len implies #[trigger] memory@[i] == if i < row_start + pitch { target[i] } else { old_bytes[i] } by {
                if at <= i < row_start + pitch {
                    lemma_grid_position(y as int, p, i - row_start);
                }
            }
            lemma_whole_rows(len as int, p, y as int);
        }
        y = y + 1;
        row_start = row_start + pitch;
    }
    proof {
        assert forall|i: int| 0 <= i < len implies #[trigger] memory@[i] == target[i] by {
            if i >= row_start {
                lemma_past_whole_rows(i, p, rows as int);
            }
        }
    }
    assert(memory@ =~= target);
}

/// Whether adding `offset` to every coordinate below `count` (taken as an
/// `i32`) stays within `i32`.
pub fn coords_fit(count: usize, offset: i32) -> (r: bool)
    ensures
        r == forall|x: int| 0 <= x < count ==> #[trigger] fits_i32((x as i32) + offset),
{
    if count == 0 {
        return true;
    }
    let last: usize = count - 1;
    if last <= i32::MAX as usize {
        let fits = (offset as i64) + (last as i64) <= i32::MAX as i64;
        proof {
            if fits {
                assert forall|x: int| 0 <= x < count implies #[trigger] fits_i32((x as i32) + offset) by {
                    assert((x as i32) as int == x);
                }
            } else {
                assert((last as int as i32) as int == last as int);
                assert(!fits_i32((last as int as i32) + offset));
            }
        }
        fits
    } else {
        let fits = offset == 0;
        proof {
            if fits {
                assert forall|x: int| 0 <= x < count implies #[trigger] fits_i32((x as i32) + offset) by {
                }
            } else {
                lemma_wrapped_coords();
                assert(0 <= 0x7fff_ffffint < count);
                assert(0 <= 0x8000_0000int < count);
                if offset > 0 {
                    assert(!fits_i32((0x7fff_ffffint as i32) + offset));
                } else {
                    assert(!fits_i32((0x8000_0000int as i32) + offset));
                }
            }
        }
        fits
    }
}

proof fn lemma_wrapped_coords()
    ensures
        (0x7fff_ffffint as i32) as int == 0x7fff_ffffint,
        (0x8000_0000int as i32) as int == -0x8000_0000int,
{
    let v: u64 = 0x8000_0000;
    assert(v as i32 == -0x8000_0000i32) by (bit_vector)
        requires
            v == 0x8000_0000u64,
    ;
    assert((v as int) == 0x8000_0000int);
}

/// Whether drawing the gradient completes on these inputs.
pub fn gradient_fits(len: usize, pitch: usize, bytes_per_pixel: usize, x_offset: i32, y_offset: i32) -> (r: bool)
    ensures
        r == gradient_drawable(len as int, pitch as int, bytes_per_pixel as int, x_offset, y_offset),
{
    if pitch == 0 {
        return false;
    }
    let rows = len / pitch;
    if rows == 0 {
        return true;
    }
    if bytes_per_pixel == 0 {
        return false;
    }
    let cols = pitch / bytes_per_pixel;
    if cols == 0 {
        return true;
    }
    bytes_per_pixel == 4 && coords_fit(cols, x_offset) && coords_fit(rows, y_offset)
}

/// The gradient repeats every 256 pixels, and drawing it covers every whole
/// pixel whatever the buffer held before: drawing it over any two buffers of
/// the same length, scrolled by any multiples of 256 pixels along each axis,
/// gives the same bytes in every whole pixel of every whole row.
pub proof fn law_gradient_repeats(
    before1: Seq<u8>,
    before2: Seq<u8>,
    pitch: int,
    bytes_per_pixel: int,
    x_offset: i32,
    y_offset: i32,
    k: int,
    j: int,
)
    requires
        before1.len() == before2.len(),
        bytes_per_pixel >= 0,
        fits_i32(x_offset + 256 * k),
        fits_i32(y_offset + 256 * j),
        gradient_drawable(before1.len() as int, pitch, bytes_per_pixel, x_offset, y_offset),
        gradient_drawable(
            before1.len() as int,
            pitch,
            bytes_per_pixel,
            (x_offset + 256 * k) as i32,
            (y_offset + 256 * j) as i32,
        ),
    ensures
        forall|i: int|
            0 <= i < before1.len() && i / pitch < whole_rows(before1.len() as int, pitch) && i % pitch
                < whole_pixels(pitch, bytes_per_pixel) * bytes_per_pixel ==> #[trigger] gradient_result(
                before1,
                pitch,
                bytes_per_pixel,
                x_offset,
                y_offset,
            )[i] == gradient_result(
                before2,
                pitch,
                bytes_per_pixel,
                (x_offset + 256 * k) as i32,
                (y_offset + 256 * j) as i32,
            )[i],
{
    let x_offset2 = (x_offset + 256 * k) as i32;
    let y_offset2 = (y_offset + 256 * j) as i32;
    let a = gradient_result(before1, pitch, bytes_per_pixel, x_offset, y_offset);
    let b = gradient_result(before2, pitch, bytes_per_pixel, x_offset2, y_offset2);
    assert forall|i: int|
        0 <= i < before1.len() && i / pitch < whole_rows(before1.len() as int, pitch) && i % pitch
            < whole_pixels(pitch, bytes_per_pixel) * bytes_per_pixel implies #[trigger] a[i] == b[i] by {
        lemma_grid_split(i, pitch);
        let row = i / pitch;
        let col = i % pitch;
        if bytes_per_pixel == 0 {
            assert(whole_pixels(pitch, bytes_per_pixel) * bytes_per_pixel == 0);
        } else {
            vstd::arithmetic::div_mod::lemma_div_pos_is_pos(col, bytes_per_pixel);
            let x = col / bytes_per_pixel;
            assert(0 <= x < whole_pixels(pitch, bytes_per_pixel)) by {
                vstd::arithmetic::div_mod::lemma_div_by_multiple_is_strongly_ordered(
                    col, whole_pixels(pitch, bytes_per_pixel) * bytes_per_pixel,
                    whole_pixels(pitch, bytes_per_pixel), bytes_per_pixel);
                vstd::arithmetic::div_mod::lemma_div_pos_is_pos(pitch, bytes_per_pixel);
                vstd::arithmetic::div_mod::lemma_div_by_multiple(whole_pixels(pitch, bytes_per_pixel), bytes_per_pixel);
            }
            assert(whole_rows(before1.len() as int, pitch) > 0);
            assert(whole_pixels(pitch, bytes_per_pixel) > 0);
            assert(x_offset2 as int == x_offset + 256 * k);
            assert(y_offset2 as int == y_offset + 256 * j);
            assert(fits_i32((x as i32) + x_offset));
            assert(fits_i32((x as i32) + x_offset2));
            assert(fits_i32((row as i32) + y_offset));
            assert(fits_i32((row as i32) + y_offset2));
            lemma_channel_period(x, x_offset, k);
            lemma_channel_period(row, y_offset, j);
        }
    }
}

/// Moving the offset by `k` steps of 256 leaves a channel as it was, as long
/// as both ends stay within `i32`.
proof fn lemma_channel_period(coord: int, offset: i32, k: int)
    requires
        fits_i32(offset + 256 * k),
        fits_i32((coord as i32) + offset),
        fits_i32((coord as i32) + offset + 256 * k),
    ensures
        gradient_channel(coord, offset) == gradient_channel(coord, (offset + 256 * k) as i32),
    decreases if k >= 0 { k } else { -k },
{
    if k > 0 {
        lemma_channel_period(coord, offset, k - 1);
        let o1 = (offset + 256 * (k - 1)) as i32;
        let o2 = (offset + 256 * k) as i32;
        lemma_channel_repeats(coord, o1, o2);
    } else if k < 0 {
        lemma_channel_period(coord, offset, k + 1);
        let o1 = (offset + 256 * (k + 1)) as i32;
        let o2 = (offset + 256 * k) as i32;
        lemma_channel_repeats(coord, o2, o1);
    }
}

proof fn lemma_channel_repeats(coord: int, offset: i32, offset2: i32)
    requires
        offset2 as int == offset as int + 256,
        fits_i32((coord as i32) + offset),
        fits_i32((coord as i32) + offset2),
    ensures
        gradient_channel(coord, offset) == gradient_channel(coord, offset2),
{
    let v: i32 = ((coord as i32) + offset) as i32;
    let w: i32 = ((coord as i32) + offset2) as i32;
    assert(w as int == v as int + 256);
    assert((v & 0xFFi32) == (w & 0xFFi32)) by (bit_vector)
        requires
            w as int == v as int + 256,
    ;
}

/// Scrolling moves the picture: with the offset one larger, a pixel shows
/// what its right-hand (or lower) neighbour showed before.
pub proof fn law_gradient_scrolls(coord: int, offset: i32)
    requires
        0 <= coord,
        coord + 1 <= i32::MAX,
        offset < i32::MAX,
        fits_i32(coord + 1 + offset),
    ensures
        gradient_channel(coord, (offset + 1) as i32) == gradient_channel(coord + 1, offset),
{
}

} // verus!
