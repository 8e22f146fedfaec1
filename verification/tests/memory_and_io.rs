use apple_ii_emulator::memory::io::soft_switches::SoftSwitch;
use apple_ii_emulator::memory::{AddressSpace, LoadError};
use apple_ii_emulator::Emulator;

/// The loader error for an image, which must fail to load.
fn load_err(image: &[u8]) -> LoadError {
    match AddressSpace::from_memory_image(image) {
        Err(e) => e,
        Ok(_) => panic!("expected a loader error"),
    }
}

#[test]
fn ram_write_read_round_trip() {
    let mut mem = AddressSpace::new(&[], 0);
    for addr in [0x0000u16, 0x0001, 0x01ff, 0x0400, 0x2000, 0xbfff] {
        mem.write(addr, 0x5a);
        assert_eq!(mem.read(addr), 0x5a);
        mem.write(addr, 0xa5);
        assert_eq!(mem.read(addr), 0xa5);
    }
}

#[test]
fn rom_writes_are_discarded() {
    let mut mem = AddressSpace::new(&[], 0);
    let before = mem.read(0xd123);
    mem.write(0xd123, 0x77);
    assert_eq!(mem.read(0xd123), before);
}

#[test]
fn keyboard_latch() {
    let mut mem = AddressSpace::new(&[], 0);
    mem.key_down(0x41);
    assert_eq!(mem.read(0xc000), 0xc1);
    assert_eq!(mem.read(0xc010), 0x80);
    assert_eq!(mem.read(0xc000), 0x41);
    mem.all_keys_up();
    assert_eq!(mem.read(0xc010), 0x00);
}

#[test]
fn soft_switch_set_clear_query() {
    let mut mem = AddressSpace::new(&[], 0);
    assert!(!mem.io.soft_switch(SoftSwitch::Text));
    // Reading $C051 sets TEXT; $C050 clears it; $C01A queries it.
    mem.read(0xc051);
    assert!(mem.io.soft_switch(SoftSwitch::Text));
    assert_eq!(mem.read(0xc01a), 0x80);
    mem.read(0xc050);
    assert!(!mem.io.soft_switch(SoftSwitch::Text));
    assert_eq!(mem.read(0xc01a), 0x00);

    // An undefined switch address reads as zero and changes nothing.
    assert_eq!(mem.read(0xc015), 0);
    assert_eq!(mem.read(0xc01a), 0x00);
}

#[test]
fn bank_select_switches() {
    let mut mem = AddressSpace::new(&[], 0);
    // $C080: bank 2, read RAM, write protect.
    mem.read(0xc080);
    assert!(mem.io.soft_switch(SoftSwitch::Bnk2));
    assert!(mem.io.soft_switch(SoftSwitch::Lcram));
    assert!(mem.io.soft_switch(SoftSwitch::WriteProtect));

    // $C081: bank 2, read ROM, write enabled.
    mem.read(0xc081);
    assert!(mem.io.soft_switch(SoftSwitch::Bnk2));
    assert!(!mem.io.soft_switch(SoftSwitch::Lcram));
    assert!(!mem.io.soft_switch(SoftSwitch::WriteProtect));

    // $C08B: bank 1, read RAM, write enabled.
    mem.read(0xc08b);
    assert!(!mem.io.soft_switch(SoftSwitch::Bnk2));
    assert!(mem.io.soft_switch(SoftSwitch::Lcram));
    assert!(!mem.io.soft_switch(SoftSwitch::WriteProtect));
}

#[test]
fn language_card_ram_overlays_rom() {
    let mut mem = AddressSpace::new(&[], 0);
    // Write-enable and read-enable language card RAM, bank 1.
    mem.read(0xc08b);
    mem.write(0xe123, 0x42);
    assert_eq!(mem.read(0xe123), 0x42);
    // Back to ROM reads: the ROM byte shows again.
    mem.read(0xc082);
    assert_eq!(mem.read(0xe123), 0x00);
}

#[test]
fn set_softev_writes_warm_start_vector() {
    let mut mem = AddressSpace::new(&[], 0);
    let pc = mem.set_softev(0x1234);
    assert_eq!(pc, 0xfa62);
    assert_eq!(mem.read(0x03f2), 0x34);
    assert_eq!(mem.read(0x03f3), 0x12);
    assert_eq!(mem.read(0x03f4), 0xa5 ^ 0x12);
}

#[test]
fn memory_image_blocks_load() {
    // One RAM block at $0200 and a reset-vector block naming $0203.
    let image = [
        0x00, 0x02, 0x03, 0x00, 0xaa, 0xbb, 0xcc,  // block at $0200
        0xfa, 0xff, 0x06, 0x00, 0x00, 0x00, 0x03, 0x02, 0x00, 0x00,  // reset vector
    ];
    let (mut mem, start) = AddressSpace::from_memory_image(&image).unwrap();
    assert_eq!(start, 0x0203);
    assert_eq!(mem.read(0x0200), 0xaa);
    assert_eq!(mem.read(0x0201), 0xbb);
    assert_eq!(mem.read(0x0202), 0xcc);
    // The loader initialises the stack-page bounds.
    assert_eq!(mem.read(0x0000), 0x00);
    assert_eq!(mem.read(0x0001), 0xc0);
}

#[test]
fn memory_image_zero_length_block_is_legal() {
    let image = [
        0x00, 0x02, 0x00, 0x00,  // empty block
        0xfa, 0xff, 0x06, 0x00, 0x00, 0x00, 0x00, 0x02, 0x00, 0x00,
    ];
    let (_, start) = AddressSpace::from_memory_image(&image).unwrap();
    assert_eq!(start, 0x0200);
}

#[test]
fn memory_image_errors() {
    assert_eq!(load_err(&[1, 2, 3]), LoadError::TruncatedHeader);
    assert_eq!(load_err(&[0x00, 0x02, 0x05, 0x00, 0x01]), LoadError::TruncatedBlock);
    assert_eq!(load_err(&[0xff, 0xbf, 0x02, 0x00, 0x01, 0x02]), LoadError::BlockOutOfRange);
    let overlapping = [
        0x00, 0x02, 0x02, 0x00, 0x01, 0x02,  // $0200..$0202
        0x01, 0x02, 0x01, 0x00, 0x03,  // $0201 again
    ];
    assert_eq!(load_err(&overlapping), LoadError::Overlap);
    let bad_vector = [0xfa, 0xff, 0x06, 0x00, 0x09, 0x00, 0x03, 0x02, 0x00, 0x00];
    assert_eq!(load_err(&bad_vector), LoadError::BadResetVector);
    assert_eq!(load_err(&[0x00, 0x02, 0x01, 0x00, 0x07]), LoadError::NoStartAddr);
}

#[test]
fn emulator_from_memory_image() {
    let image = [
        0x00, 0x02, 0x01, 0x00, 0xea,  // NOP at $0200
        0xfa, 0xff, 0x06, 0x00, 0x00, 0x00, 0x00, 0x02, 0x00, 0x00,
    ];
    let emu = match Emulator::from_memory_image(&image, vec![]) {
        Ok(emu) => emu,
        Err(e) => panic!("load failed: {e:?}"),
    };
    assert_eq!(emu.cpu.pc, 0xfa62);
    assert!(!emu.halted);

    // A block over the warm-start vector is refused.
    let clash = [
        0xf2, 0x03, 0x01, 0x00, 0x01,  // writes $03F2
        0xfa, 0xff, 0x06, 0x00, 0x00, 0x00, 0x00, 0x02, 0x00, 0x00,
    ];
    match Emulator::from_memory_image(&clash, vec![]) {
        Err(e) => assert_eq!(e, LoadError::SoftevInUse),
        Ok(_) => panic!("expected a loader error"),
    }
}
