use apple_ii_emulator::display::color::Color;
use apple_ii_emulator::display::text::spritesheet::SpriteSheet;
use apple_ii_emulator::display::text::Glyph;
use apple_ii_emulator::display::{gr, hgr, pack_rgb, text};
use apple_ii_emulator::memory::AddressSpace;

/// A synthetic glyph table: dot (dy, dx) of glyph `code` is set when
/// `code + dy * 7 + dx` is even.
fn test_sheet_raw() -> Vec<u8> {
    let mut raw = Vec::new();
    for code in 0..256usize {
        for dy in 0..8usize {
            for dx in 0..7usize {
                raw.push(((code + dy * 7 + dx) % 2 == 0) as u8);
            }
        }
    }
    raw
}

fn sheet_bit(code: u8, dy: usize, dx: usize) -> bool {
    (code as usize + dy * 7 + dx) % 2 == 0
}

#[test]
fn colors_have_fixed_rgb() {
    assert_eq!(Color::Black.rgb(), [0, 0, 0]);
    assert_eq!(Color::White.rgb(), [255, 255, 255]);
    assert_eq!(Color::Purple.rgb(), [255, 16, 255]);
    assert_eq!(Color::Green.rgb(), [0, 239, 0]);
    assert_eq!(Color::MediumBlue.rgb(), [0, 149, 255]);
    assert_eq!(Color::Orange.rgb(), [255, 106, 0]);
    // The two greys share one value.
    assert_eq!(Color::Grey1.rgb(), Color::Grey2.rgb());
}

#[test]
fn pack_rgb_packs_bytes() {
    assert_eq!(pack_rgb([0x12, 0x34, 0x56]), 0x123456);
    assert_eq!(pack_rgb([0, 0, 0]), 0);
    assert_eq!(pack_rgb([255, 255, 255]), 0xffffff);
}

#[test]
fn unscramble_interleaved_thirds() {
    // Page byte at i*0x80 + j*40 + c belongs to grid row j*8 + i.
    let mut page = vec![0u8; 0x400];
    for i in 0..8 {
        for j in 0..3 {
            for c in 0..40 {
                page[i * 0x80 + j * 40 + c] = (i * 40 + j + c) as u8;
            }
        }
    }
    let grid = gr::unscramble_bytes(&page);
    assert_eq!(grid.len(), 24);
    for r in 0..24 {
        assert_eq!(grid[r].len(), 40);
        for c in 0..40 {
            let i = r % 8;
            let j = r / 8;
            assert_eq!(grid[r][c], (i * 40 + j + c) as u8);
        }
    }
}

#[test]
fn lores_nibbles_color_cells() {
    let mut page = vec![0u8; 0x400];
    // Grid row 0, column 0: low nibble 1 (Magenta) on top, high nibble
    // 0xC (Green) below.
    page[0] = 0xc1;
    let frame = gr::dots(&page);
    assert_eq!(frame.len(), 192);
    assert_eq!(frame[0].len(), 280);
    for y in 0..4 {
        for x in 0..7 {
            assert_eq!(frame[y][x], Color::Magenta);
        }
    }
    for y in 4..8 {
        for x in 0..7 {
            assert_eq!(frame[y][x], Color::Green);
        }
    }
    assert_eq!(frame[0][7], Color::Black);
}

#[test]
fn hires_all_ones_white_all_zeros_black() {
    // Row 0 of the dot grid comes from page bytes 0..40. Whatever the
    // flag bits, all-one dot bits render white and all-zero black.
    let mut page = vec![0u8; 0x2000];
    for c in 0..40 {
        // Alternate the flag bit to show it does not matter.
        page[c] = if c % 2 == 0 { 0x7f } else { 0xff };
    }
    let frame = hgr::dots_color(&page);
    for x in 0..280 {
        assert_eq!(frame[0][x], Color::White);
    }

    let mut page = vec![0u8; 0x2000];
    for c in 0..40 {
        page[c] = if c % 2 == 0 { 0x00 } else { 0x80 };
    }
    let frame = hgr::dots_color(&page);
    for x in 0..280 {
        assert_eq!(frame[0][x], Color::Black);
    }
}

#[test]
fn hires_flag_selects_palette() {
    // One lone dot pair: bits 0..1 of the first byte of row 0.
    let mut page = vec![0u8; 0x2000];
    page[0] = 0x01;  // dot 0 set, flag clear -> Purple
    let frame = hgr::dots_color(&page);
    assert_eq!(frame[0][0], Color::Purple);
    assert_eq!(frame[0][1], Color::Purple);

    page[0] = 0x81;  // same dot, flag set -> Blue
    let frame = hgr::dots_color(&page);
    assert_eq!(frame[0][0], Color::MediumBlue);

    page[0] = 0x02;  // second dot of the pair, flag clear -> Green
    let frame = hgr::dots_color(&page);
    assert_eq!(frame[0][0], Color::Green);

    page[0] = 0x82;  // second dot, flag set -> Orange
    let frame = hgr::dots_color(&page);
    assert_eq!(frame[0][0], Color::Orange);
}

#[test]
fn hires_bw_reads_dot_bits() {
    let mut mem = vec![0u8; 0x10000];
    mem[0x2000] = 0x05;  // dots 0 and 2 of row 0
    let frame = hgr::ram_to_dots_bw(&mem);
    assert_eq!(frame[0][0], Color::White);
    assert_eq!(frame[0][1], Color::Black);
    assert_eq!(frame[0][2], Color::White);
    assert_eq!(frame[0][3], Color::Black);

    let raw = hgr::ram_to_dots(&mem);
    assert!(raw[0][0] && !raw[0][1] && raw[0][2]);
}

#[test]
fn hires_rows_weave_sheets() {
    let mut mem = vec![0u8; 0x10000];
    // Sheet 1 (bytes $2400..) holds output rows 1, 9, 17, ...
    mem[0x2400] = 0x01;
    let raw = hgr::ram_to_dots(&mem);
    assert!(raw[1][0]);
    assert!(!raw[0][0]);
    let decoded = apple_ii_emulator::display::hgr::memory_mapping::unscramble(&mem);
    assert!(decoded[1][0].bits[0]);
    assert!(!decoded[1][0].flag_bit);
}

#[test]
fn glyph_dots_come_from_the_sheet() {
    let sheet = SpriteSheet::new(&test_sheet_raw()).unwrap();
    let glyph = Glyph::PrintableAscii(0x48);
    let dots = glyph.dots(&sheet);
    assert_eq!(dots.len(), 8);
    for (dy, row) in dots.iter().enumerate() {
        assert_eq!(row.len(), 7);
        for (dx, on) in row.iter().enumerate() {
            assert_eq!(*on, sheet_bit(0xc8, dy, dx));
        }
    }
}

#[test]
fn text_glyph_mapping() {
    assert_eq!(Glyph::from_byte(0xc8), Glyph::PrintableAscii(0x48));
    assert_eq!(Glyph::from_byte(0x41), Glyph::PrintableAscii(0x41));
    assert_eq!(Glyph::from_byte(0x07), Glyph::Cursor);
    assert_eq!(Glyph::from_byte(0xff), Glyph::Cursor);
    assert_eq!(Glyph::PrintableAscii(0x48).to_byte(), 0xc8);
    assert_eq!(Glyph::Cursor.to_byte(), 0xff);
}

#[test]
fn text_frame_from_0400() {
    // "HELLO" with the attribute bit set, at unscrambled row 0.
    let mut mem = AddressSpace::new(&[], 0);
    let sheet = SpriteSheet::new(&test_sheet_raw()).unwrap();
    mem.set_sprites(sheet);
    let msg = [0xc8u8, 0xc5, 0xcc, 0xcc, 0xcf];
    for (i, b) in msg.iter().enumerate() {
        mem.write(0x400 + i as u16, *b);
    }
    // Turn the TEXT switch on.
    mem.read(0xc051);
    let frame = mem.display();
    assert_eq!(frame.len(), 192);
    for y in 0..8 {
        for x in 0..35 {
            let code = msg[x / 7];
            let expect = if sheet_bit(code, y, x % 7) {
                Color::White
            } else {
                Color::Black
            };
            assert_eq!(frame[y][x], expect, "at ({y}, {x})");
        }
    }
}

#[test]
fn text_cells_derive_from_unscrambled_grid() {
    // A glyph at unscrambled row 3, column 5 sits at page offset
    // (3 % 8) * 0x80 + (3 / 8) * 40 + 5.
    let mut mem = AddressSpace::new(&[], 0);
    let sheet = SpriteSheet::new(&test_sheet_raw()).unwrap();
    mem.set_sprites(sheet);
    mem.write(0x400 + (3 % 8) * 0x80 + (3 / 8) * 40 + 5, 0xc1);
    mem.read(0xc051);
    let frame = mem.display();
    for dy in 0..8 {
        for dx in 0..7 {
            let expect = if sheet_bit(0xc1, dy, dx) {
                Color::White
            } else {
                Color::Black
            };
            assert_eq!(frame[3 * 8 + dy][5 * 7 + dx], expect);
        }
    }
}

#[test]
fn draw_screen_is_pure() {
    let mut mem = AddressSpace::new(&[], 0);
    mem.write(0x400, 0xc8);
    mem.read(0xc051);
    let a = mem.display();
    let b = mem.display();
    assert_eq!(a, b);
}

#[test]
fn mixed_mode_overlays_text_rows() {
    let mut mem = AddressSpace::new(&[], 0);
    let sheet = SpriteSheet::new(&test_sheet_raw()).unwrap();
    mem.set_sprites(sheet);
    // LORES with MIXED: text page cell at row 20 (scan lines 160..168).
    let row = 20u16;
    mem.write(0x400 + (row % 8) * 0x80 + (row / 8) * 40, 0xc1);
    mem.read(0xc050);  // TEXT off
    mem.read(0xc053);  // MIXED on
    let frame = mem.display();
    for dx in 0..7 {
        let expect = if sheet_bit(0xc1, 0, dx) {
            Color::White
        } else {
            Color::Black
        };
        assert_eq!(frame[160][dx], expect);
    }
    // Above the overlay, LORES still shows: the same byte is also a
    // LORES cell, nibble 1 of $C1.
    assert_eq!(frame[0][0], Color::Black);
}

#[test]
fn lores_full_memory_view() {
    let mut mem = vec![0u8; 0x10000];
    mem[0x400] = 0x01;
    let frame = gr::gr_to_280x192(&mem);
    assert_eq!(frame[0][0], Color::Magenta);

    let glyphs = text::ram_to_text(&mem);
    assert_eq!(glyphs.len(), 24);
    assert_eq!(glyphs[0][0], text::Glyph::Cursor);
}
