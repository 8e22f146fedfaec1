//! LORES rendering: each page byte holds two 4-bit color indices, the
//! low nibble on top.

use vstd::prelude::*;

use crate::display::color::{spec_color_from_nibble, Color};

verus! {

/// Columns of the byte grid.
pub const W: usize = 40;

/// Rows of the color grid; each cell is half a byte row tall.
pub const H: usize = 48;

/// Dots per color cell, horizontally.
pub const BLOCK_W: usize = 7;

/// Dots per color cell, vertically.
pub const BLOCK_H: usize = 4;

/// The byte at row `r`, column `c` of the unscrambled 24x40 grid of a
/// 1 KiB page: the page stores the grid as eight interleaved thirds.
pub open spec fn spec_page_byte(page: Seq<u8>, r: int, c: int) -> u8 {
    page[(r % 8) * 0x80 + (r / 8) * 40 + c]
}

/// The color nibble at row `y` of 48, column `x` of 40: the low nibble
/// of the byte for the top half of the cell, the high nibble for the
/// bottom half.
pub open spec fn spec_lores_nibble(page: Seq<u8>, y: int, x: int) -> u8 {
    let b = spec_page_byte(page, y / 2, x);
    if y % 2 == 0 {
        b & 0xf
    } else {
        b >> 4
    }
}

/// The color of the dot at `(y, x)` of the 192x280 LORES frame.
pub open spec fn spec_gr_pixel(page: Seq<u8>, y: int, x: int) -> Color {
    spec_color_from_nibble(spec_lores_nibble(page, y / 4, x / 7))
}

/// Undo the scanline interleave of a 1 KiB page: a 24x40 byte grid.
pub fn unscramble_bytes(page: &[u8]) -> (out: Vec<Vec<u8>>)
    requires
        page@.len() == 0x400,
    ensures
        out@.len() == 24,
        forall|r: int| 0 <= r < 24 ==> #[trigger] out@[r]@.len() == 40,
        forall|r: int, c: int|
            0 <= r < 24 && 0 <= c < 40 ==> #[trigger] out@[r]@[c] == spec_page_byte(page@, r, c),
{
    let mut out: Vec<Vec<u8>> = Vec::new();
    let mut r: usize = 0;
    while r < 24
        invariant
            r <= 24,
            page@.len() == 0x400,
            out@.len() == r,
            forall|rr: int| 0 <= rr < r ==> #[trigger] out@[rr]@.len() == 40,
            forall|rr: int, cc: int|
                0 <= rr < r && 0 <= cc < 40 ==> #[trigger] out@[rr]@[cc] == spec_page_byte(
                    page@,
                    rr,
                    cc,
                ),
        decreases 24 - r,
    {
        let mut row: Vec<u8> = Vec::new();
        let mut c: usize = 0;
        while c < 40
            invariant
                c <= 40,
                r < 24,
                page@.len() == 0x400,
                row@.len() == c,
                forall|cc: int|
                    0 <= cc < c ==> #[trigger] row@[cc] == spec_page_byte(page@, r as int, cc),
            decreases 40 - c,
        {
            let idx: usize = (r % 8) * 0x80 + (r / 8) * 40 + c;
            row.push(*vstd::slice::slice_index_get(page, idx));
            c = c + 1;
        }
        out.push(row);
        r = r + 1;
    }
    out
}

/// The 48x40 grid of LORES color cells of a 1 KiB page.
pub fn color_grid(page: &[u8]) -> (out: Vec<Vec<Color>>)
    requires
        page@.len() == 0x400,
    ensures
        out@.len() == 48,
        forall|y: int| 0 <= y < 48 ==> #[trigger] out@[y]@.len() == 40,
        forall|y: int, x: int|
            0 <= y < 48 && 0 <= x < 40 ==> #[trigger] out@[y]@[x] == spec_color_from_nibble(
                spec_lores_nibble(page@, y, x),
            ),
{
    let bytes = unscramble_bytes(page);
    let mut out: Vec<Vec<Color>> = Vec::new();
    let mut y: usize = 0;
    while y < 48
        invariant
            y <= 48,
            page@.len() == 0x400,
            bytes@.len() == 24,
            forall|r: int| 0 <= r < 24 ==> #[trigger] bytes@[r]@.len() == 40,
            forall|r: int, c: int|
                0 <= r < 24 && 0 <= c < 40 ==> #[trigger] bytes@[r]@[c] == spec_page_byte(
                    page@,
                    r,
                    c,
                ),
            out@.len() == y,
            forall|yy: int| 0 <= yy < y ==> #[trigger] out@[yy]@.len() == 40,
            forall|yy: int, x: int|
                0 <= yy < y && 0 <= x < 40 ==> #[trigger] out@[yy]@[x] == spec_color_from_nibble(
                    spec_lores_nibble(page@, yy, x),
                ),
        decreases 48 - y,
    {
        let mut row: Vec<Color> = Vec::new();
        let mut x: usize = 0;
        while x < 40
            invariant
                x <= 40,
                y < 48,
                page@.len() == 0x400,
                bytes@.len() == 24,
                forall|r: int| 0 <= r < 24 ==> #[trigger] bytes@[r]@.len() == 40,
                forall|r: int, c: int|
                    0 <= r < 24 && 0 <= c < 40 ==> #[trigger] bytes@[r]@[c] == spec_page_byte(
                        page@,
                        r,
                        c,
                    ),
                row@.len() == x,
                forall|xx: int|
                    0 <= xx < x ==> #[trigger] row@[xx] == spec_color_from_nibble(
                        spec_lores_nibble(page@, y as int, xx),
                    ),
            decreases 40 - x,
        {
            let b = bytes[y / 2][x];
            let nib = if y % 2 == 0 {
                b & 0xf
            } else {
                b >> 4
            };
            proof {
                let bb = b;
                assert(bb & 0xf < 0x10 && bb >> 4 < 0x10) by (bit_vector);
            }
            row.push(Color::from_nibble(nib));
            x = x + 1;
        }
        out.push(row);
        y = y + 1;
    }
    out
}

/// Render a 1 KiB LORES page as the 192x280 frame: each color cell
/// covers 7x4 dots.
pub fn dots(page: &[u8]) -> (out: Vec<Vec<Color>>)
    requires
        page@.len() == 0x400,
    ensures
        out@.len() == 192,
        forall|y: int| 0 <= y < 192 ==> #[trigger] out@[y]@.len() == 280,
        forall|y: int, x: int|
            0 <= y < 192 && 0 <= x < 280 ==> #[trigger] out@[y]@[x] == spec_gr_pixel(page@, y, x),
{
    let blocks = color_grid(page);
    let mut out: Vec<Vec<Color>> = Vec::new();
    let mut y: usize = 0;
    while y < 192
        invariant
            y <= 192,
            page@.len() == 0x400,
            blocks@.len() == 48,
            forall|r: int| 0 <= r < 48 ==> #[trigger] blocks@[r]@.len() == 40,
            forall|r: int, c: int|
                0 <= r < 48 && 0 <= c < 40 ==> #[trigger] blocks@[r]@[c] == spec_color_from_nibble(
                    spec_lores_nibble(page@, r, c),
                ),
            out@.len() == y,
            forall|yy: int| 0 <= yy < y ==> #[trigger] out@[yy]@.len() == 280,
            forall|yy: int, x: int|
                0 <= yy < y && 0 <= x < 280 ==> #[trigger] out@[yy]@[x] == spec_gr_pixel(
                    page@,
                    yy,
                    x,
                ),
        decreases 192 - y,
    {
        let mut row: Vec<Color> = Vec::new();
        let mut x: usize = 0;
        while x < 280
            invariant
                x <= 280,
                y < 192,
                page@.len() == 0x400,
                blocks@.len() == 48,
                forall|r: int| 0 <= r < 48 ==> #[trigger] blocks@[r]@.len() == 40,
                forall|r: int, c: int|
                    0 <= r < 48 && 0 <= c < 40 ==> #[trigger] blocks@[r]@[c]
                        == spec_color_from_nibble(spec_lores_nibble(page@, r, c)),
                row@.len() == x,
                forall|xx: int|
                    0 <= xx < x ==> #[trigger] row@[xx] == spec_gr_pixel(page@, y as int, xx),
            decreases 280 - x,
        {
            row.push(blocks[y / 4][x / 7]);
            x = x + 1;
        }
        out.push(row);
        y = y + 1;
    }
    out
}

/// Render LORES page 1 of a full 64 KiB memory image.
pub fn gr_to_280x192(mem: &[u8]) -> (out: Vec<Vec<Color>>)
    requires
        mem@.len() == 0x10000,
    ensures
        out@.len() == 192,
        forall|y: int| 0 <= y < 192 ==> #[trigger] out@[y]@.len() == 280,
        forall|y: int, x: int|
            0 <= y < 192 && 0 <= x < 280 ==> #[trigger] out@[y]@[x] == spec_gr_pixel(
                mem@.subrange(0x400, 0x800),
                y,
                x,
            ),
{
    let page = vstd::slice::slice_subrange(mem, 0x400, 0x800);
    dots(page)
}

} // verus!
