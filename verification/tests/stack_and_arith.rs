use apple_ii_emulator::cpu::arith;
use apple_ii_emulator::cpu::flags::{Flag, Flags};
use apple_ii_emulator::cpu::Cpu;
use apple_ii_emulator::memory::AddressSpace;

#[test]
fn push_pop_round_trip() {
    let mut mem = AddressSpace::new(&[], 0);
    let mut cpu = Cpu::new(0);
    cpu.push(&mut mem, 0x42);
    assert_eq!(cpu.sp, 0xfe);
    assert_eq!(cpu.pop(&mut mem), 0x42);
    assert_eq!(cpu.sp, 0xff);
}

#[test]
fn push2_pop2_round_trip() {
    let mut mem = AddressSpace::new(&[], 0);
    let mut cpu = Cpu::new(0);
    for w in [0x0000u16, 0x1234, 0xffff, 0x00ff, 0xff00] {
        cpu.push2(&mut mem, w);
        assert_eq!(cpu.pop2(&mut mem), w);
        assert_eq!(cpu.sp, 0xff);
    }
}

#[test]
fn push2_lays_out_little_endian() {
    let mut mem = AddressSpace::new(&[], 0);
    let mut cpu = Cpu::new(0);
    cpu.push2(&mut mem, 0x1234);
    assert_eq!(mem.read(0x01fe), 0x34);
    assert_eq!(mem.read(0x01ff), 0x12);
}

#[test]
fn push_pop_sequences_reverse() {
    let mut mem = AddressSpace::new(&[], 0);
    let mut cpu = Cpu::new(0);
    let vs = [1u8, 2, 3, 4, 5];
    for v in vs {
        cpu.push(&mut mem, v);
    }
    for expect in vs.iter().rev() {
        assert_eq!(cpu.pop(&mut mem), *expect);
    }
    assert_eq!(cpu.sp, 0xff);
}

#[test]
fn stack_pointer_wraps() {
    let mut mem = AddressSpace::new(&[], 0);
    let mut cpu = Cpu::new(0);
    cpu.sp = 0x00;
    cpu.push(&mut mem, 0x99);
    assert_eq!(cpu.sp, 0xff);
    assert_eq!(cpu.pop(&mut mem), 0x99);
    assert_eq!(cpu.sp, 0x00);
}

#[test]
fn update_nz_flags() {
    for v in 0..=255u8 {
        let mut flags = Flags { bits: 0b0101_0101 };
        let out = flags.nz(v);
        assert_eq!(out, v);
        assert_eq!(flags.is_set(Flag::Zero), v == 0);
        assert_eq!(flags.is_set(Flag::Negative), v >= 0x80);
        // The other six flags keep their old values.
        assert_eq!(flags.bits & 0x7d, 0b0101_0101 & 0x7d);
    }
}

#[test]
fn add_matches_the_formulas() {
    let cases = [
        (0x00u8, 0x00u8, false),
        (0x01, 0x01, false),
        (0xff, 0x01, false),
        (0xff, 0xff, true),
        (0x50, 0x50, false),
        (0x80, 0x80, false),
        (0x7f, 0x01, true),
    ];
    for (x, y, c) in cases {
        let r = arith::add(x, y, c);
        let total = x as u16 + y as u16 + c as u16;
        assert_eq!(r.sum, (total % 256) as u8);
        assert_eq!(r.carry, total >= 256);
        let expect_v = ((x ^ r.sum) & (y ^ r.sum)) & 0x80 != 0;
        assert_eq!(r.overflow, expect_v);
    }
}

#[test]
fn shifts_report_lost_bits() {
    assert_eq!(arith::overflowing_shl(0x80, 1), (0x00, true));
    assert_eq!(arith::overflowing_shl(0x40, 1), (0x80, false));
    assert_eq!(arith::overflowing_shr(0x01, 1), (0x00, true));
    assert_eq!(arith::overflowing_shr(0x02, 1), (0x01, false));
}
