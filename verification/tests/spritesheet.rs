use apple_ii_emulator::display::text::spritesheet::{SpriteSheet, SHEET_LEN};

#[test]
fn spritesheet_all_bool() {
    // A glyph table is one byte per dot, and every byte must be 0 or 1.
    let raw: Vec<u8> = (0..SHEET_LEN).map(|i| (i % 2) as u8).collect();
    assert!(raw.iter().all(|byte| [0, 1].contains(byte)));
    let sheet = SpriteSheet::new(&raw).unwrap();
    assert!(sheet.bits.len() == SHEET_LEN);

    // A byte outside {0, 1} is refused.
    let mut bad = raw.clone();
    bad[7] = 2;
    assert!(SpriteSheet::new(&bad).is_none());

    // A short table is refused.
    assert!(SpriteSheet::new(&raw[..SHEET_LEN - 1]).is_none());
}

#[test]
fn sprite_bits_index_by_code_row_column() {
    let raw: Vec<u8> = (0..SHEET_LEN).map(|i| (i % 2) as u8).collect();
    let sheet = SpriteSheet::new(&raw).unwrap();
    for code in [0u8, 1, 0x41, 0xff] {
        for dy in 0..8 {
            for dx in 0..7 {
                let flat = code as usize * 56 + dy * 7 + dx;
                assert_eq!(sheet.bit(code, dy, dx), flat % 2 == 1);
            }
        }
    }
}
