//! TEXT rendering: each page byte is a glyph code drawn as a 7x8 cell
//! of white-on-black dots from the sprite table.

pub mod spritesheet;

use vstd::prelude::*;

use crate::display::color::Color;
use crate::display::gr::{spec_page_byte, unscramble_bytes};
use spritesheet::{sprite_bit, SpriteSheet};

verus! {

/// Columns of the glyph grid.
pub const W: usize = 40;

/// Rows of the glyph grid.
pub const H: usize = 24;

/// Dots per glyph cell, horizontally.
pub const CELL_W: usize = 7;

/// Dots per glyph cell, vertically.
pub const CELL_H: usize = 8;

/// What a page byte displays: a printable character, or the
/// checkerboard block used as a cursor.
#[derive(Clone, Copy, Debug, PartialEq, Eq, Structural)]
pub enum Glyph {
    /// 0x20..=0x7e
    PrintableAscii(u8),
    /// Checkerboard block, often used as a cursor when typing text.
    Cursor,
}

/// The glyph a page byte displays: bit 7 is a display attribute and is
/// dropped; control codes and DEL show as the cursor block.
pub open spec fn spec_glyph_from_byte(b: u8) -> Glyph {
    let low = if b >= 0x80 {
        (b - 0x80) as u8
    } else {
        b
    };
    if 0x20 <= low && low <= 0x7e {
        Glyph::PrintableAscii(low)
    } else {
        Glyph::Cursor
    }
}

/// The sprite-table code of a glyph.
pub open spec fn spec_glyph_to_byte(g: Glyph) -> u8 {
    match g {
        Glyph::PrintableAscii(b) => b | 0x80,
        Glyph::Cursor => 0xff,
    }
}

/// The color of the dot at `(y, x)` of the 192x280 TEXT frame: white
/// where the glyph's sprite has a set dot, black elsewhere.
pub open spec fn spec_text_pixel(page: Seq<u8>, sheet: Seq<bool>, y: int, x: int) -> Color {
    let code = spec_glyph_to_byte(spec_glyph_from_byte(spec_page_byte(page, y / 8, x / 7)));
    if sprite_bit(sheet, code, y % 8, x % 7) {
        Color::White
    } else {
        Color::Black
    }
}

impl Glyph {
    /// The glyph a page byte displays.
    pub fn from_byte(b: u8) -> (r: Glyph)
        ensures
            r == spec_glyph_from_byte(b),
    {
        let low = if b >= 0x80 {
            b - 0x80
        } else {
            b
        };
        if 0x20 <= low && low <= 0x7e {
            Glyph::PrintableAscii(low)
        } else {
            Glyph::Cursor
        }
    }

    /// The sprite-table code of the glyph.
    pub fn to_byte(self) -> (r: u8)
        ensures
            r == spec_glyph_to_byte(self),
    {
        match self {
            Glyph::PrintableAscii(b) => b | 0x80,
            Glyph::Cursor => 0xff,
        }
    }

    /// The glyph's 8 rows of 7 dots from the sprite table.
    pub fn dots(self, sheet: &SpriteSheet) -> (out: Vec<Vec<bool>>)
        requires
            sheet.wf(),
        ensures
            out@.len() == 8,
            forall|dy: int| 0 <= dy < 8 ==> #[trigger] out@[dy]@.len() == 7,
            forall|dy: int, dx: int|
                0 <= dy < 8 && 0 <= dx < 7 ==> #[trigger] out@[dy]@[dx] == sprite_bit(
                    sheet@,
                    spec_glyph_to_byte(self),
                    dy,
                    dx,
                ),
    {
        let code = self.to_byte();
        let mut out: Vec<Vec<bool>> = Vec::new();
        let mut dy: usize = 0;
        while dy < 8
            invariant
                dy <= 8,
                sheet.wf(),
                code == spec_glyph_to_byte(self),
                out@.len() == dy,
                forall|r: int| 0 <= r < dy ==> #[trigger] out@[r]@.len() == 7,
                forall|r: int, c: int|
                    0 <= r < dy && 0 <= c < 7 ==> #[trigger] out@[r]@[c] == sprite_bit(
                        sheet@,
                        code,
                        r,
                        c,
                    ),
            decreases 8 - dy,
        {
            let mut row: Vec<bool> = Vec::new();
            let mut dx: usize = 0;
            while dx < 7
                invariant
                    dx <= 7,
                    dy < 8,
                    sheet.wf(),
                    code == spec_glyph_to_byte(self),
                    row@.len() == dx,
                    forall|c: int|
                        0 <= c < dx ==> #[trigger] row@[c] == sprite_bit(
                            sheet@,
                            code,
                            dy as int,
                            c,
                        ),
                decreases 7 - dx,
            {
                row.push(sheet.bit(code, dy, dx));
                dx = dx + 1;
            }
            out.push(row);
            dy = dy + 1;
        }
        out
    }
}

/// The 24x40 glyph grid of text page 1 of a full 64 KiB memory image.
pub fn ram_to_text(mem: &[u8]) -> (out: Vec<Vec<Glyph>>)
    requires
        mem@.len() == 0x10000,
    ensures
        out@.len() == 24,
        forall|r: int| 0 <= r < 24 ==> #[trigger] out@[r]@.len() == 40,
        forall|r: int, c: int|
            0 <= r < 24 && 0 <= c < 40 ==> #[trigger] out@[r]@[c] == spec_glyph_from_byte(
                spec_page_byte(mem@.subrange(0x400, 0x800), r, c),
            ),
{
    let page = vstd::slice::slice_subrange(mem, 0x400, 0x800);
    let bytes = unscramble_bytes(page);
    let mut out: Vec<Vec<Glyph>> = Vec::new();
    let mut r: usize = 0;
    while r < 24
        invariant
            r <= 24,
            bytes@.len() == 24,
            forall|rr: int| 0 <= rr < 24 ==> #[trigger] bytes@[rr]@.len() == 40,
            forall|rr: int, cc: int|
                0 <= rr < 24 && 0 <= cc < 40 ==> #[trigger] bytes@[rr]@[cc] == spec_page_byte(
                    mem@.subrange(0x400, 0x800),
                    rr,
                    cc,
                ),
            out@.len() == r,
            forall|rr: int| 0 <= rr < r ==> #[trigger] out@[rr]@.len() == 40,
            forall|rr: int, cc: int|
                0 <= rr < r && 0 <= cc < 40 ==> #[trigger] out@[rr]@[cc] == spec_glyph_from_byte(
                    spec_page_byte(mem@.subrange(0x400, 0x800), rr, cc),
                ),
        decreases 24 - r,
    {
        let mut row: Vec<Glyph> = Vec::new();
        let mut c: usize = 0;
        while c < 40
            invariant
                c <= 40,
                r < 24,
                bytes@.len() == 24,
                forall|rr: int| 0 <= rr < 24 ==> #[trigger] bytes@[rr]@.len() == 40,
                forall|rr: int, cc: int|
                    0 <= rr < 24 && 0 <= cc < 40 ==> #[trigger] bytes@[rr]@[cc] == spec_page_byte(
                        mem@.subrange(0x400, 0x800),
                        rr,
                        cc,
                    ),
                row@.len() == c,
                forall|cc: int|
                    0 <= cc < c ==> #[trigger] row@[cc] == spec_glyph_from_byte(
                        spec_page_byte(mem@.subrange(0x400, 0x800), r as int, cc),
                    ),
            decreases 40 - c,
        {
            row.push(Glyph::from_byte(bytes[r][c]));
            c = c + 1;
        }
        out.push(row);
        r = r + 1;
    }
    out
}

/// Render a 1 KiB text page as the 192x280 frame, drawing each glyph
/// from the sprite table.
pub fn dots(page: &[u8], sheet: &SpriteSheet) -> (out: Vec<Vec<Color>>)
    requires
        page@.len() == 0x400,
        sheet.wf(),
    ensures
        out@.len() == 192,
        forall|y: int| 0 <= y < 192 ==> #[trigger] out@[y]@.len() == 280,
        forall|y: int, x: int|
            0 <= y < 192 && 0 <= x < 280 ==> #[trigger] out@[y]@[x] == spec_text_pixel(
                page@,
                sheet@,
                y,
                x,
            ),
{
    let mut out: Vec<Vec<Color>> = Vec::new();
    let mut y: usize = 0;
    while y < 192
        invariant
            y <= 192,
            page@.len() == 0x400,
            sheet.wf(),
            out@.len() == y,
            forall|yy: int| 0 <= yy < y ==> #[trigger] out@[yy]@.len() == 280,
            forall|yy: int, x: int|
                0 <= yy < y && 0 <= x < 280 ==> #[trigger] out@[yy]@[x] == spec_text_pixel(
                    page@,
                    sheet@,
                    yy,
                    x,
                ),
        decreases 192 - y,
    {
        let mut row: Vec<Color> = Vec::new();
        let mut x: usize = 0;
        while x < 280
            invariant
                x <= 280,
                y < 192,
                page@.len() == 0x400,
                sheet.wf(),
                row@.len() == x,
                forall|xx: int|
                    0 <= xx < x ==> #[trigger] row@[xx] == spec_text_pixel(
                        page@,
                        sheet@,
                        y as int,
                        xx,
                    ),
            decreases 280 - x,
        {
            let idx: usize = (y / 8 % 8) * 0x80 + (y / 8 / 8) * 40 + x / 7;
            let b = *vstd::slice::slice_index_get(page, idx);
            let code = Glyph::from_byte(b).to_byte();
            let on = sheet.bit(code, y % 8, x % 7);
            row.push(
                if on {
                    Color::White
                } else {
                    Color::Black
                },
            );
            x = x + 1;
        }
        out.push(row);
        y = y + 1;
    }
    out
}

} // verus!
