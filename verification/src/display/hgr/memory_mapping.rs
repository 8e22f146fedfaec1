//! The HIRES page unscrambled into rows of decoded bytes: seven dot
//! bits and a palette flag each.

use vstd::prelude::*;

use crate::display::hgr::{spec_hires_byte, spec_hires_dot, spec_hires_flag};

verus! {

/// One HIRES screen byte, decoded: a palette flag and seven dots,
/// left to right.
#[derive(Debug, Clone)]
pub struct Byte {
    /// Selects the "color palette".
    pub flag_bit: bool,
    /// Left-to-right.
    pub bits: Vec<bool>,
}

impl Byte {
    /// Decode one screen byte: bit 7 is the flag, bits 0..6 the dots.
    pub fn new(byte: u8) -> (r: Byte)
        ensures
            r.flag_bit == (byte >= 0x80),
            r.bits@.len() == 7,
            forall|i: int| 0 <= i < 7 ==> #[trigger] r.bits@[i] == ((byte >> (i as u8)) & 1 == 1),
    {
        let mut bits: Vec<bool> = Vec::new();
        let mut i: usize = 0;
        while i < 7
            invariant
                i <= 7,
                bits@.len() == i,
                forall|j: int| 0 <= j < i ==> #[trigger] bits@[j] == ((byte >> (j as u8)) & 1 == 1),
            decreases 7 - i,
        {
            bits.push((byte >> (i as u8)) & 1 == 1);
            i = i + 1;
        }
        Byte { flag_bit: byte >= 0x80, bits }
    }
}

/// Unscramble HIRES page 1 of a full 64 KiB memory image into its 192
/// rows of 40 decoded bytes.
pub fn unscramble(mem: &[u8]) -> (out: Vec<Vec<Byte>>)
    requires
        mem@.len() == 0x10000,
    ensures
        out@.len() == 192,
        forall|y: int| 0 <= y < 192 ==> #[trigger] out@[y]@.len() == 40,
        forall|y: int, c: int|
            0 <= y < 192 && 0 <= c < 40 ==> #[trigger] out@[y]@[c].flag_bit == spec_hires_flag(
                mem@.subrange(0x2000, 0x4000),
                y,
                7 * c,
            ),
        forall|y: int, c: int|
            0 <= y < 192 && 0 <= c < 40 ==> #[trigger] out@[y]@[c].bits@.len() == 7,
        forall|y: int, c: int, i: int|
            0 <= y < 192 && 0 <= c < 40 && 0 <= i < 7 ==> #[trigger] out@[y]@[c].bits@[i]
                == spec_hires_dot(mem@.subrange(0x2000, 0x4000), y, 7 * c + i),
{
    let page = vstd::slice::slice_subrange(mem, 0x2000, 0x4000);
    let ghost pg = mem@.subrange(0x2000, 0x4000);
    let mut out: Vec<Vec<Byte>> = Vec::new();
    let mut y: usize = 0;
    while y < 192
        invariant
            y <= 192,
            page@ == pg,
            pg.len() == 0x2000,
            out@.len() == y,
            forall|yy: int| 0 <= yy < y ==> #[trigger] out@[yy]@.len() == 40,
            forall|yy: int, c: int|
                0 <= yy < y && 0 <= c < 40 ==> #[trigger] out@[yy]@[c].flag_bit == spec_hires_flag(
                    pg,
                    yy,
                    7 * c,
                ),
            forall|yy: int, c: int|
                0 <= yy < y && 0 <= c < 40 ==> #[trigger] out@[yy]@[c].bits@.len() == 7,
            forall|yy: int, c: int, i: int|
                0 <= yy < y && 0 <= c < 40 && 0 <= i < 7 ==> #[trigger] out@[yy]@[c].bits@[i]
                    == spec_hires_dot(pg, yy, 7 * c + i),
        decreases 192 - y,
    {
        let mut row: Vec<Byte> = Vec::new();
        let mut c: usize = 0;
        while c < 40
            invariant
                c <= 40,
                y < 192,
                page@ == pg,
                pg.len() == 0x2000,
                row@.len() == c,
                forall|cc: int|
                    0 <= cc < c ==> #[trigger] row@[cc].flag_bit == spec_hires_flag(
                        pg,
                        y as int,
                        7 * cc,
                    ),
                forall|cc: int| 0 <= cc < c ==> #[trigger] row@[cc].bits@.len() == 7,
                forall|cc: int, i: int|
                    0 <= cc < c && 0 <= i < 7 ==> #[trigger] row@[cc].bits@[i] == spec_hires_dot(
                        pg,
                        y as int,
                        7 * cc + i,
                    ),
            decreases 40 - c,
        {
            let idx: usize = (y % 8) * 0x400 + (y / 8 % 8) * 0x80 + (y / 64) * 40 + c;
            let b = *vstd::slice::slice_index_get(page, idx);
            let decoded = Byte::new(b);
            proof {
                assert(spec_hires_byte(pg, y as int, (7 * c + 0) / 7) == pg[(y % 8) * 0x400 + ((y
                    / 8) % 8) * 0x80 + (y / 64) * 40 + c]);
                assert(forall|i: int|
                    0 <= i < 7 ==> #[trigger] ((7 * c + i) / 7) == c && (7 * c + i) % 7 == i);
            }
            row.push(decoded);
            c = c + 1;
        }
        out.push(row);
        y = y + 1;
    }
    out
}

} // verus!
