//! HIRES rendering: each byte paints seven dots; adjacent dot pairs
//! pick a color, with bit 7 of the contributing byte selecting between
//! the two palette pairs.

pub mod memory_mapping;

use vstd::prelude::*;

use crate::display::color::Color;

verus! {

/// Dots per row.
pub const W: usize = 280;

/// Rows per frame.
pub const H: usize = 192;

/// The byte that paints row `y`, byte column `c` of an 8 KiB HIRES
/// page: the page is eight 1 KiB sheets woven row-wise, each sheet
/// interleaved like a text page.
pub open spec fn spec_hires_byte(page: Seq<u8>, y: int, c: int) -> u8 {
    page[(y % 8) * 0x400 + ((y / 8) % 8) * 0x80 + (y / 64) * 40 + c]
}

/// Whether the dot at row `y`, dot column `k` of the 192x280 dot grid
/// is lit: bit `k mod 7` of its byte.
pub open spec fn spec_hires_dot(page: Seq<u8>, y: int, k: int) -> bool {
    (spec_hires_byte(page, y, k / 7) >> ((k % 7) as u8)) & 1 == 1
}

/// The palette flag of the byte that paints row `y`, dot column `k`.
pub open spec fn spec_hires_flag(page: Seq<u8>, y: int, k: int) -> bool {
    spec_hires_byte(page, y, k / 7) >= 0x80
}

/// The color of dot pair `p` in row `y`. A lone lit dot takes the flag
/// of the byte that contributed it; otherwise the left byte's flag
/// rules. The flag selects {Purple, Green} or {Blue, Orange}.
pub open spec fn spec_hires_pair_color(page: Seq<u8>, y: int, p: int) -> Color {
    let d0 = spec_hires_dot(page, y, 2 * p);
    let d1 = spec_hires_dot(page, y, 2 * p + 1);
    let flag = if d0 && !d1 {
        spec_hires_flag(page, y, 2 * p)
    } else if d1 && !d0 {
        spec_hires_flag(page, y, 2 * p + 1)
    } else {
        spec_hires_flag(page, y, 2 * p)
    };
    if !d0 && !d1 {
        Color::Black
    } else if d0 && d1 {
        Color::White
    } else if d0 {
        if flag {
            Color::MediumBlue
        } else {
            Color::Purple
        }
    } else {
        if flag {
            Color::Orange
        } else {
            Color::Green
        }
    }
}

/// The color of the dot at `(y, x)` of the 192x280 HIRES color frame.
pub open spec fn spec_hires_pixel(page: Seq<u8>, y: int, x: int) -> Color {
    spec_hires_pair_color(page, y, x / 2)
}

/// The black-and-white reading of the dot at `(y, x)`.
pub open spec fn spec_hires_pixel_bw(page: Seq<u8>, y: int, x: int) -> Color {
    if spec_hires_dot(page, y, x) {
        Color::White
    } else {
        Color::Black
    }
}

/// The 192x280 grid of raw HIRES dots of an 8 KiB page.
pub fn dots(page: &[u8]) -> (out: Vec<Vec<bool>>)
    requires
        page@.len() == 0x2000,
    ensures
        out@.len() == 192,
        forall|y: int| 0 <= y < 192 ==> #[trigger] out@[y]@.len() == 280,
        forall|y: int, k: int|
            0 <= y < 192 && 0 <= k < 280 ==> #[trigger] out@[y]@[k] == spec_hires_dot(page@, y, k),
{
    let mut out: Vec<Vec<bool>> = Vec::new();
    let mut y: usize = 0;
    while y < 192
        invariant
            y <= 192,
            page@.len() == 0x2000,
            out@.len() == y,
            forall|yy: int| 0 <= yy < y ==> #[trigger] out@[yy]@.len() == 280,
            forall|yy: int, k: int|
                0 <= yy < y && 0 <= k < 280 ==> #[trigger] out@[yy]@[k] == spec_hires_dot(
                    page@,
                    yy,
                    k,
                ),
        decreases 192 - y,
    {
        let mut row: Vec<bool> = Vec::new();
        let mut k: usize = 0;
        while k < 280
            invariant
                k <= 280,
                y < 192,
                page@.len() == 0x2000,
                row@.len() == k,
                forall|kk: int|
                    0 <= kk < k ==> #[trigger] row@[kk] == spec_hires_dot(page@, y as int, kk),
            decreases 280 - k,
        {
            let idx: usize = (y % 8) * 0x400 + (y / 8 % 8) * 0x80 + (y / 64) * 40 + k / 7;
            let b = *vstd::slice::slice_index_get(page, idx);
            row.push((b >> ((k % 7) as u8)) & 1 == 1);
            k = k + 1;
        }
        out.push(row);
        y = y + 1;
    }
    out
}

/// Render an 8 KiB HIRES page in black and white.
pub fn dots_bw(page: &[u8]) -> (out: Vec<Vec<Color>>)
    requires
        page@.len() == 0x2000,
    ensures
        out@.len() == 192,
        forall|y: int| 0 <= y < 192 ==> #[trigger] out@[y]@.len() == 280,
        forall|y: int, x: int|
            0 <= y < 192 && 0 <= x < 280 ==> #[trigger] out@[y]@[x] == spec_hires_pixel_bw(
                page@,
                y,
                x,
            ),
{
    let raw = dots(page);
    let mut out: Vec<Vec<Color>> = Vec::new();
    let mut y: usize = 0;
    while y < 192
        invariant
            y <= 192,
            page@.len() == 0x2000,
            raw@.len() == 192,
            forall|yy: int| 0 <= yy < 192 ==> #[trigger] raw@[yy]@.len() == 280,
            forall|yy: int, k: int|
                0 <= yy < 192 && 0 <= k < 280 ==> #[trigger] raw@[yy]@[k] == spec_hires_dot(
                    page@,
                    yy,
                    k,
                ),
            out@.len() == y,
            forall|yy: int| 0 <= yy < y ==> #[trigger] out@[yy]@.len() == 280,
            forall|yy: int, x: int|
                0 <= yy < y && 0 <= x < 280 ==> #[trigger] out@[yy]@[x] == spec_hires_pixel_bw(
                    page@,
                    yy,
                    x,
                ),
        decreases 192 - y,
    {
        let mut row: Vec<Color> = Vec::new();
        let mut x: usize = 0;
        while x < 280
            invariant
                x <= 280,
                y < 192,
                page@.len() == 0x2000,
                raw@.len() == 192,
                forall|yy: int| 0 <= yy < 192 ==> #[trigger] raw@[yy]@.len() == 280,
                forall|yy: int, k: int|
                    0 <= yy < 192 && 0 <= k < 280 ==> #[trigger] raw@[yy]@[k] == spec_hires_dot(
                        page@,
                        yy,
                        k,
                    ),
                row@.len() == x,
                forall|xx: int|
                    0 <= xx < x ==> #[trigger] row@[xx] == spec_hires_pixel_bw(
                        page@,
                        y as int,
                        xx,
                    ),
            decreases 280 - x,
        {
            row.push(
                if raw[y][x] {
                    Color::White
                } else {
                    Color::Black
                },
            );
            x = x + 1;
        }
        out.push(row);
        y = y + 1;
    }
    out
}

/// Render an 8 KiB HIRES page in color, two dots per pair.
pub fn dots_color(page: &[u8]) -> (out: Vec<Vec<Color>>)
    requires
        page@.len() == 0x2000,
    ensures
        out@.len() == 192,
        forall|y: int| 0 <= y < 192 ==> #[trigger] out@[y]@.len() == 280,
        forall|y: int, x: int|
            0 <= y < 192 && 0 <= x < 280 ==> #[trigger] out@[y]@[x] == spec_hires_pixel(
                page@,
                y,
                x,
            ),
{
    let raw = dots(page);
    let mut out: Vec<Vec<Color>> = Vec::new();
    let mut y: usize = 0;
    while y < 192
        invariant
            y <= 192,
            page@.len() == 0x2000,
            raw@.len() == 192,
            forall|yy: int| 0 <= yy < 192 ==> #[trigger] raw@[yy]@.len() == 280,
            forall|yy: int, k: int|
                0 <= yy < 192 && 0 <= k < 280 ==> #[trigger] raw@[yy]@[k] == spec_hires_dot(
                    page@,
                    yy,
                    k,
                ),
            out@.len() == y,
            forall|yy: int| 0 <= yy < y ==> #[trigger] out@[yy]@.len() == 280,
            forall|yy: int, x: int|
                0 <= yy < y && 0 <= x < 280 ==> #[trigger] out@[yy]@[x] == spec_hires_pixel(
                    page@,
                    yy,
                    x,
                ),
        decreases 192 - y,
    {
        let mut row: Vec<Color> = Vec::new();
        let mut p: usize = 0;
        while p < 140
            invariant
                p <= 140,
                y < 192,
                page@.len() == 0x2000,
                raw@.len() == 192,
                forall|yy: int| 0 <= yy < 192 ==> #[trigger] raw@[yy]@.len() == 280,
                forall|yy: int, k: int|
                    0 <= yy < 192 && 0 <= k < 280 ==> #[trigger] raw@[yy]@[k] == spec_hires_dot(
                        page@,
                        yy,
                        k,
                    ),
                row@.len() == 2 * p,
                forall|xx: int|
                    0 <= xx < 2 * p ==> #[trigger] row@[xx] == spec_hires_pixel(
                        page@,
                        y as int,
                        xx,
                    ),
            decreases 140 - p,
        {
            let d0 = raw[y][2 * p];
            let d1 = raw[y][2 * p + 1];
            let flag = if d0 && !d1 {
                hires_flag(page, y, 2 * p)
            } else if d1 && !d0 {
                hires_flag(page, y, 2 * p + 1)
            } else {
                hires_flag(page, y, 2 * p)
            };
            let color = if !d0 && !d1 {
                Color::Black
            } else if d0 && d1 {
                Color::White
            } else if d0 {
                if flag {
                    Color::MediumBlue
                } else {
                    Color::Purple
                }
            } else {
                if flag {
                    Color::Orange
                } else {
                    Color::Green
                }
            };
            row.push(color);
            row.push(color);
            proof {
                assert(forall|xx: int|
                    0 <= xx < 2 * (p + 1) ==> #[trigger] row@[xx] == spec_hires_pixel(
                        page@,
                        y as int,
                        xx,
                    ));
            }
            p = p + 1;
        }
        out.push(row);
        y = y + 1;
    }
    out
}

/// The palette flag of the byte that paints row `y`, dot column `k`.
fn hires_flag(page: &[u8], y: usize, k: usize) -> (r: bool)
    requires
        page@.len() == 0x2000,
        y < 192,
        k < 280,
    ensures
        r == spec_hires_flag(page@, y as int, k as int),
{
    let idx: usize = (y % 8) * 0x400 + (y / 8 % 8) * 0x80 + (y / 64) * 40 + k / 7;
    *vstd::slice::slice_index_get(page, idx) >= 0x80
}

/// The raw dot grid of HIRES page 1 of a full 64 KiB memory image.
pub fn ram_to_dots(mem: &[u8]) -> (out: Vec<Vec<bool>>)
    requires
        mem@.len() == 0x10000,
    ensures
        out@.len() == 192,
        forall|y: int| 0 <= y < 192 ==> #[trigger] out@[y]@.len() == 280,
        forall|y: int, k: int|
            0 <= y < 192 && 0 <= k < 280 ==> #[trigger] out@[y]@[k] == spec_hires_dot(
                mem@.subrange(0x2000, 0x4000),
                y,
                k,
            ),
{
    let page = vstd::slice::slice_subrange(mem, 0x2000, 0x4000);
    dots(page)
}

/// HIRES page 1 of a full 64 KiB memory image, in black and white.
pub fn ram_to_dots_bw(mem: &[u8]) -> (out: Vec<Vec<Color>>)
    requires
        mem@.len() == 0x10000,
    ensures
        out@.len() == 192,
        forall|y: int| 0 <= y < 192 ==> #[trigger] out@[y]@.len() == 280,
        forall|y: int, x: int|
            0 <= y < 192 && 0 <= x < 280 ==> #[trigger] out@[y]@[x] == spec_hires_pixel_bw(
                mem@.subrange(0x2000, 0x4000),
                y,
                x,
            ),
{
    let page = vstd::slice::slice_subrange(mem, 0x2000, 0x4000);
    dots_bw(page)
}

/// HIRES page 1 of a full 64 KiB memory image, in color.
pub fn ram_to_dots_color(mem: &[u8]) -> (out: Vec<Vec<Color>>)
    requires
        mem@.len() == 0x10000,
    ensures
        out@.len() == 192,
        forall|y: int| 0 <= y < 192 ==> #[trigger] out@[y]@.len() == 280,
        forall|y: int, x: int|
            0 <= y < 192 && 0 <= x < 280 ==> #[trigger] out@[y]@[x] == spec_hires_pixel(
                mem@.subrange(0x2000, 0x4000),
                y,
                x,
            ),
{
    let page = vstd::slice::slice_subrange(mem, 0x2000, 0x4000);
    dots_color(page)
}

/// A row of bytes whose seven dot bits are all set renders all white,
/// and one whose dot bits are all clear renders all black, whatever the
/// flag bits hold.
pub proof fn lemma_hires_row_extremes(page: Seq<u8>, y: int, x: int)
    requires
        page.len() == 0x2000,
        0 <= y < 192,
        0 <= x < 280,
    ensures
        (forall|c: int| 0 <= c < 40 ==> #[trigger] spec_hires_byte(page, y, c) & 0x7f == 0x7f)
            ==> spec_hires_pixel(page, y, x) == Color::White,
        (forall|c: int| 0 <= c < 40 ==> #[trigger] spec_hires_byte(page, y, c) & 0x7f == 0)
            ==> spec_hires_pixel(page, y, x) == Color::Black,
{
    let p = x / 2;
    let k0 = 2 * p;
    let k1 = 2 * p + 1;
    assert(0 <= k0 / 7 < 40);
    assert(0 <= k1 / 7 < 40);
    let b0 = spec_hires_byte(page, y, k0 / 7);
    let b1 = spec_hires_byte(page, y, k1 / 7);
    let s0 = (k0 % 7) as u8;
    let s1 = (k1 % 7) as u8;
    assert(b0 & 0x7f == 0x7f && s0 < 7 ==> (b0 >> s0) & 1 == 1) by (bit_vector);
    assert(b1 & 0x7f == 0x7f && s1 < 7 ==> (b1 >> s1) & 1 == 1) by (bit_vector);
    assert(b0 & 0x7f == 0 && s0 < 7 ==> (b0 >> s0) & 1 == 0) by (bit_vector);
    assert(b1 & 0x7f == 0 && s1 < 7 ==> (b1 >> s1) & 1 == 0) by (bit_vector);
}

} // verus!
