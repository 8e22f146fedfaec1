//! The glyph sprite table: 256 glyphs of 7x8 dots each.

use vstd::prelude::*;

verus! {

/// Dots per glyph row.
pub const CELL_W: usize = 7;

/// Rows per glyph.
pub const CELL_H: usize = 8;

/// Dots in the whole table: 256 glyphs of 7x8 dots.
pub const SHEET_LEN: usize = 14336;

/// The dot at `(dy, dx)` of the glyph with the given code.
pub open spec fn sprite_bit(sheet: Seq<bool>, code: u8, dy: int, dx: int) -> bool {
    sheet[code * 56 + dy * 7 + dx]
}

/// The glyph sprite table: for each of the 256 glyph codes, 8 rows of 7
/// dots, flattened row by row.
pub struct SpriteSheet {
    pub bits: Vec<bool>,
}

impl View for SpriteSheet {
    type V = Seq<bool>;

    open spec fn view(&self) -> Seq<bool> {
        self.bits@
    }
}

impl SpriteSheet {
    pub open spec fn wf(self) -> bool {
        self@.len() == SHEET_LEN
    }

    /// An all-blank table; every glyph renders as an empty cell until a
    /// real table is installed.
    pub fn blank() -> (r: SpriteSheet)
        ensures
            r.wf(),
            r@ == Seq::new(SHEET_LEN as nat, |i: int| false),
    {
        let mut bits: Vec<bool> = Vec::new();
        let mut i: usize = 0;
        while i < SHEET_LEN
            invariant
                i <= SHEET_LEN,
                bits@ =~= Seq::new(i as nat, |j: int| false),
            decreases SHEET_LEN - i,
        {
            bits.push(false);
            proof {
                assert(bits@ =~= Seq::new((i + 1) as nat, |j: int| false));
            }
            i = i + 1;
        }
        proof {
            assert(bits@ =~= Seq::new(SHEET_LEN as nat, |i: int| false));
        }
        SpriteSheet { bits }
    }

    /// Build the table from one byte per dot: 0 for clear, 1 for set.
    /// Succeeds exactly when the input has one byte per dot of the 256
    /// glyphs and every byte is 0 or 1.
    pub fn new(raw: &[u8]) -> (r: Option<SpriteSheet>)
        ensures
            match r {
                Some(sheet) => {
                    &&& raw@.len() == SHEET_LEN
                    &&& forall|i: int| 0 <= i < raw@.len() ==> raw@[i] <= 1
                    &&& sheet.wf()
                    &&& sheet@ == Seq::new(SHEET_LEN as nat, |i: int| raw@[i] == 1)
                },
                None => {
                    ||| raw@.len() != SHEET_LEN
                    ||| exists|i: int| 0 <= i < raw@.len() && raw@[i] > 1
                },
            },
    {
        if raw.len() != SHEET_LEN {
            return None;
        }
        let mut bits: Vec<bool> = Vec::new();
        let mut i: usize = 0;
        while i < SHEET_LEN
            invariant
                i <= SHEET_LEN,
                raw@.len() == SHEET_LEN,
                bits@ =~= Seq::new(i as nat, |j: int| raw@[j] == 1),
                forall|j: int| 0 <= j < i ==> raw@[j] <= 1,
            decreases SHEET_LEN - i,
        {
            let b = *vstd::slice::slice_index_get(raw, i);
            if b > 1 {
                return None;
            }
            bits.push(b == 1);
            proof {
                assert(bits@ =~= Seq::new((i + 1) as nat, |j: int| raw@[j] == 1));
            }
            i = i + 1;
        }
        proof {
            assert(bits@ =~= Seq::new(SHEET_LEN as nat, |i: int| raw@[i] == 1));
        }
        Some(SpriteSheet { bits })
    }

    /// The dot at `(dy, dx)` of the glyph with the given code.
    pub fn bit(&self, code: u8, dy: usize, dx: usize) -> (r: bool)
        requires
            self.wf(),
            dy < CELL_H,
            dx < CELL_W,
        ensures
            r == sprite_bit(self@, code, dy as int, dx as int),
    {
        self.bits[code as usize * 56 + dy * 7 + dx]
    }
}

} // verus!
