use apple_ii_emulator::debugger_commands::{format_range, parse_line, Command, Reply};
use apple_ii_emulator::hex;
use apple_ii_emulator::Emulator;

#[test]
fn hex_ok() {
    assert_eq!(hex::decode_u16("0000"), Ok(0x0));
    assert_eq!(hex::decode_u16("1234"), Ok(0x1234));
    assert_eq!(hex::decode_u16("0x1234"), Ok(0x1234));
    assert_eq!(hex::decode_u16("$1234"), Ok(0x1234));
    assert_eq!(hex::decode_u16("abcd"), Ok(0xabcd));
    assert_eq!(hex::decode_u16("ffff"), Ok(0xffff));
    assert_eq!(hex::decode_u16("aBcD"), Ok(0xabcd));
    assert_eq!(hex::decode_u16("abc"), Ok(0x0abc));
    assert_eq!(hex::decode_u16("9"), Ok(0x9));
    assert_eq!(hex::decode_u16("$1"), Ok(0x1));
}

#[test]
fn hex_err() {
    for s in ["", "0X1234", "12345", "123456", "123g", "123G", "12 34", " 1234", "1234 ", " ", "$", "0x"] {
        assert!(hex::decode_u16(s).is_err(), "{s:?} should not parse");
    }
}

#[test]
fn hex_byte_pairs() {
    assert_eq!(hex::hex_to_byte("ab"), Ok(0xab));
    assert_eq!(hex::hex_to_byte("00"), Ok(0x00));
    assert_eq!(hex::hex_to_byte("fF"), Ok(0xff));
    assert!(hex::hex_to_byte("a").is_err());
    assert!(hex::hex_to_byte("abc").is_err());
    assert!(hex::hex_to_byte("gg").is_err());
}

#[test]
fn command_keywords() {
    assert_eq!(Command::parse("h"), Ok(Command::Halt));
    assert_eq!(Command::parse("halt"), Ok(Command::Halt));
    assert_eq!(Command::parse(" c "), Ok(Command::Continue));
    assert_eq!(Command::parse("continue"), Ok(Command::Continue));
    assert_eq!(Command::parse("i"), Ok(Command::CpuInfo));
    assert_eq!(Command::parse("info"), Ok(Command::CpuInfo));
    assert_eq!(Command::parse("s"), Ok(Command::Step));
    assert_eq!(Command::parse("step"), Ok(Command::Step));
    assert_eq!(Command::parse("f"), Ok(Command::Finish));
    assert_eq!(Command::parse("finish"), Ok(Command::Finish));
}

#[test]
fn command_breakpoints_and_addresses() {
    assert_eq!(
        Command::parse("b 1234"),
        Ok(Command::ToggleBreakpoint { addr: 0x1234 })
    );
    assert_eq!(
        Command::parse("break $ff"),
        Ok(Command::ToggleBreakpoint { addr: 0xff })
    );
    assert!(Command::parse("b").is_err());
    assert!(Command::parse("b 12 34").is_err());
    assert!(Command::parse("b zz").is_err());

    assert_eq!(Command::parse("c000"), Ok(Command::ShowByte { addr: 0xc000 }));
    assert_eq!(
        Command::parse("400.40f"),
        Ok(Command::ShowRange { start: 0x400, end_inclusive: 0x40f })
    );
    assert!(Command::parse("40f.400").is_err());
    assert!(Command::parse("pq").is_err());
    assert!(Command::parse("").is_err());
}

#[test]
fn empty_line_steps() {
    assert_eq!(parse_line(""), Ok(Command::Step));
    assert_eq!(parse_line("   "), Ok(Command::Step));
    assert_eq!(parse_line("halt"), Ok(Command::Halt));
}

fn fresh_emulator() -> Emulator {
    // An in-place JMP at $0000, so the driver halts right away.
    let prog = [0x4c, 0x00, 0x00];
    Emulator::new(&prog, 0, 0, vec![])
}

#[test]
fn control_halt_continue() {
    let mut emu = fresh_emulator();
    assert!(matches!(emu.control(Command::Halt), Reply::Halted));
    assert!(matches!(emu.control(Command::Halt), Reply::AlreadyHalted));
    assert!(matches!(emu.control(Command::Continue), Reply::Resumed));
    assert!(matches!(emu.control(Command::Continue), Reply::AlreadyRunning));
}

#[test]
fn control_toggle_breakpoint() {
    let mut emu = fresh_emulator();
    assert!(matches!(
        emu.control(Command::ToggleBreakpoint { addr: 0x1234 }),
        Reply::BreakpointSet { addr: 0x1234 }
    ));
    assert_eq!(emu.breakpoints, vec![0x1234]);
    assert!(matches!(
        emu.control(Command::ToggleBreakpoint { addr: 0x1234 }),
        Reply::BreakpointCleared { addr: 0x1234 }
    ));
    assert!(emu.breakpoints.is_empty());
}

#[test]
fn control_show_byte_and_range() {
    let mut emu = fresh_emulator();
    match emu.control(Command::ShowByte { addr: 0x0000 }) {
        Reply::Byte { addr, value } => {
            assert_eq!(addr, 0x0000);
            assert_eq!(value, 0x4c);
        },
        other => panic!("unexpected reply: {other:?}"),
    }
    match emu.control(Command::ShowRange { start: 0x0000, end_inclusive: 0x0002 }) {
        Reply::Range { start, end_inclusive, bytes } => {
            assert_eq!(start, 0x0000);
            assert_eq!(end_inclusive, 0x0002);
            assert_eq!(bytes, vec![0x4c, 0x00, 0x00]);
        },
        other => panic!("unexpected reply: {other:?}"),
    }
}

#[test]
fn format_range_layout() {
    // Three bytes from $0007: the row is aligned to $0000, blanks pad
    // the columns before the range, and the gap sits at column 8.
    let bytes = vec![0xab, 0xcd, 0xef];
    let text = format_range(0x0007, 0x0009, &bytes);
    assert_eq!(
        String::from_utf8(text).unwrap(),
        "                     ab  cd ef\n"
    );

    // A full row plus one byte: the second row starts on a new line.
    let bytes: Vec<u8> = (0..17).collect();
    let text = format_range(0x0000, 0x0010, &bytes);
    assert_eq!(
        String::from_utf8(text).unwrap(),
        "00 01 02 03 04 05 06 07  08 09 0a 0b 0c 0d 0e 0f\n10\n"
    );
}

#[test]
fn control_cpu_info_and_step() {
    let mut emu = fresh_emulator();
    match emu.control(Command::CpuInfo) {
        Reply::CpuInfo { cpu } => assert_eq!(cpu.pc, 0xfa62),
        other => panic!("unexpected reply: {other:?}"),
    }
    // Stepping executes one instruction and halts the driver; the ROM
    // area is zeroed here, so the CPU faults on BRK and stays put.
    assert!(matches!(emu.control(Command::Step), Reply::Stepped));
    assert!(emu.halted);
}

#[test]
fn finish_requires_halt() {
    let mut emu = fresh_emulator();
    assert!(matches!(emu.control(Command::Finish), Reply::AlreadyRunning));
    emu.control(Command::Halt);
    assert!(matches!(
        emu.control(Command::Finish),
        Reply::Finishing { was_finishing: false }
    ));
    assert!(!emu.halted);
    assert_eq!(emu.finish_state, Some(0));
}

#[test]
fn driver_halts_on_in_place_jump() {
    let prog = [0x4c, 0x00, 0x00];
    let mut emu = Emulator::new(&prog, 0, 0, vec![]);
    emu.cpu.pc = 0;  // run the test program, not the ROM reset routine
    emu.sim_1000_instrs();
    assert!(emu.halted);
    assert_eq!(emu.cpu.pc, 0);
    assert_eq!(emu.num_instructions_executed, 0);
}

#[test]
fn driver_stops_at_breakpoint() {
    // NOP; NOP; JMP $0002
    let prog = [0xea, 0xea, 0x4c, 0x02, 0x00];
    let mut emu = Emulator::new(&prog, 0, 0, vec![0x0001]);
    emu.cpu.pc = 0;
    emu.sim_1000_instrs();
    assert!(emu.halted);
    assert_eq!(emu.cpu.pc, 0x0001);
    assert_eq!(emu.num_instructions_executed, 1);
}

#[test]
fn key_events_reach_the_latch() {
    let mut emu = fresh_emulator();
    emu.key_down(0x0d);
    assert_eq!(emu.mem.read(0xc000), 0x8d);
    emu.all_keys_up();
    assert_eq!(emu.mem.read(0xc010), 0x00);
}
