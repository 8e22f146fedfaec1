//! The 16-color Apple II palette.

use vstd::prelude::*;

verus! {

/// One of the 16 colors the display hardware can produce.
#[derive(Clone, Copy, Debug, PartialEq, Eq, Structural)]
pub enum Color {
    Black,
    Magenta,
    DarkBlue,
    Purple,
    DarkGreen,
    Grey1,
    MediumBlue,
    LightBlue,
    Brown,
    Orange,
    Grey2,
    Pink,
    Green,
    Yellow,
    Aqua,
    White,
}

/// The color a low nibble names, in hardware order.
pub open spec fn spec_color_from_nibble(b: u8) -> Color {
    match b {
        0x0 => Color::Black,
        0x1 => Color::Magenta,
        0x2 => Color::DarkBlue,
        0x3 => Color::Purple,
        0x4 => Color::DarkGreen,
        0x5 => Color::Grey1,
        0x6 => Color::MediumBlue,
        0x7 => Color::LightBlue,
        0x8 => Color::Brown,
        0x9 => Color::Orange,
        0xa => Color::Grey2,
        0xb => Color::Pink,
        0xc => Color::Green,
        0xd => Color::Yellow,
        0xe => Color::Aqua,
        _ => Color::White,
    }
}

/// The canonical sRGB triple of each color: the fixed YUV triples used
/// on the Apple II, taken through the standard YUV-to-RGB transform and
/// rounded to bytes. Grey1 and Grey2 share one value.
pub open spec fn spec_rgb(c: Color) -> Seq<u8> {
    match c {
        Color::Black => seq![0u8, 0u8, 0u8],
        Color::Magenta => seq![195u8, 0u8, 64u8],
        Color::DarkBlue => seq![64u8, 18u8, 255u8],
        Color::Purple => seq![255u8, 16u8, 255u8],
        Color::DarkGreen => seq![0u8, 130u8, 64u8],
        Color::Grey1 => seq![128u8, 128u8, 128u8],
        Color::MediumBlue => seq![0u8, 149u8, 255u8],
        Color::LightBlue => seq![191u8, 146u8, 255u8],
        Color::Brown => seq![64u8, 109u8, 0u8],
        Color::Orange => seq![255u8, 106u8, 0u8],
        Color::Grey2 => seq![128u8, 128u8, 128u8],
        Color::Pink => seq![255u8, 125u8, 191u8],
        Color::Green => seq![0u8, 239u8, 0u8],
        Color::Yellow => seq![191u8, 237u8, 0u8],
        Color::Aqua => seq![60u8, 255u8, 191u8],
        Color::White => seq![255u8, 255u8, 255u8],
    }
}

impl Color {
    /// The color a low nibble names.
    pub fn from_nibble(b: u8) -> (r: Color)
        requires
            b < 0x10,
        ensures
            r == spec_color_from_nibble(b),
    {
        match b {
            0x0 => Color::Black,
            0x1 => Color::Magenta,
            0x2 => Color::DarkBlue,
            0x3 => Color::Purple,
            0x4 => Color::DarkGreen,
            0x5 => Color::Grey1,
            0x6 => Color::MediumBlue,
            0x7 => Color::LightBlue,
            0x8 => Color::Brown,
            0x9 => Color::Orange,
            0xa => Color::Grey2,
            0xb => Color::Pink,
            0xc => Color::Green,
            0xd => Color::Yellow,
            0xe => Color::Aqua,
            _ => Color::White,
        }
    }

    /// The canonical sRGB triple of the color.
    pub fn rgb(self) -> (r: [u8; 3])
        ensures
            r@ == spec_rgb(self),
    {
        let r = match self {
            Color::Black => [0u8, 0u8, 0u8],
            Color::Magenta => [195u8, 0u8, 64u8],
            Color::DarkBlue => [64u8, 18u8, 255u8],
            Color::Purple => [255u8, 16u8, 255u8],
            Color::DarkGreen => [0u8, 130u8, 64u8],
            Color::Grey1 => [128u8, 128u8, 128u8],
            Color::MediumBlue => [0u8, 149u8, 255u8],
            Color::LightBlue => [191u8, 146u8, 255u8],
            Color::Brown => [64u8, 109u8, 0u8],
            Color::Orange => [255u8, 106u8, 0u8],
            Color::Grey2 => [128u8, 128u8, 128u8],
            Color::Pink => [255u8, 125u8, 191u8],
            Color::Green => [0u8, 239u8, 0u8],
            Color::Yellow => [191u8, 237u8, 0u8],
            Color::Aqua => [60u8, 255u8, 191u8],
            Color::White => [255u8, 255u8, 255u8],
        };
        proof {
            assert(r@ =~= spec_rgb(self));
        }
        r
    }
}

} // verus!
