use apple_ii_emulator::cpu::flags::Flag;
use apple_ii_emulator::cpu::operand::Operand;
use apple_ii_emulator::cpu::{Cpu, CpuError};
use apple_ii_emulator::memory::AddressSpace;

/// Run until the CPU sits on an in-place loop, with a step budget.
fn run_until_halt(cpu: &mut Cpu, mem: &mut AddressSpace, max_steps: usize) -> usize {
    let mut steps = 0;
    while !cpu.would_halt(mem) {
        cpu.step(mem).unwrap();
        steps += 1;
        assert!(steps <= max_steps, "no halt within {max_steps} steps");
    }
    steps
}

#[test]
fn add_1_plus_1() {
    let prog = [0xa9, 0x01, 0x18, 0x69, 0x01, 0x85, 0x00, 0x4c, 0x07, 0x00];
    let mut mem = AddressSpace::new(&prog, 0);
    let mut cpu = Cpu::new(0);
    run_until_halt(&mut cpu, &mut mem, 100);
    assert_eq!(mem.read(0x0000), 2);
    assert_eq!(cpu.a, 2);
    assert!(!cpu.flags.is_set(Flag::Carry));
    assert!(!cpu.flags.is_set(Flag::Zero));
    assert!(!cpu.flags.is_set(Flag::Negative));
}

#[test]
fn counting_loop() {
    let prog = [0xa2, 0x00, 0xe8, 0xd0, 0xfd, 0x4c, 0x05, 0x00];
    let mut mem = AddressSpace::new(&prog, 0);
    let mut cpu = Cpu::new(0);
    let steps = run_until_halt(&mut cpu, &mut mem, 2000);
    assert_eq!(cpu.pc, 0x0005);
    assert_eq!(cpu.x, 0);
    // LDX once, then 256 rounds of INX plus BNE.
    assert_eq!(steps, 513);
}

#[test]
fn stack_round_trip() {
    let prog = [0xa9, 0xaa, 0x48, 0xa9, 0x55, 0x68, 0x4c, 0x06, 0x00];
    let mut mem = AddressSpace::new(&prog, 0);
    let mut cpu = Cpu::new(0);
    run_until_halt(&mut cpu, &mut mem, 100);
    assert_eq!(cpu.a, 0xaa);
    assert_eq!(cpu.sp, 0xff);
}

#[test]
fn jsr_rts() {
    let prog = [0x20, 0x06, 0x00, 0x4c, 0x03, 0x00, 0x60];
    let mut mem = AddressSpace::new(&prog, 0);
    let mut cpu = Cpu::new(0);

    // One JSR: the return address minus one, little-endian, on the stack.
    cpu.step(&mut mem).unwrap();
    assert_eq!(cpu.pc, 0x0006);
    assert_eq!(cpu.sp, 0xfd);
    assert_eq!(mem.read(0x01fe), 0x02);
    assert_eq!(mem.read(0x01ff), 0x00);

    // RTS: back to the JMP at $0003.
    cpu.step(&mut mem).unwrap();
    assert_eq!(cpu.pc, 0x0003);
    assert_eq!(cpu.sp, 0xff);

    // The in-place JMP $0003 trap is recognised.
    run_until_halt(&mut cpu, &mut mem, 10);
    assert_eq!(cpu.pc, 0x0003);
}

#[test]
fn pha_pla_restores_a_and_sp() {
    for v in [0x00u8, 0x01, 0x7f, 0x80, 0xff] {
        // LDA #v; PHA; LDA #$33; PLA; JMP $0007
        let prog = [0xa9, v, 0x48, 0xa9, 0x33, 0x68, 0x4c, 0x06, 0x00];
        let mut mem = AddressSpace::new(&prog, 0);
        let mut cpu = Cpu::new(0);
        run_until_halt(&mut cpu, &mut mem, 100);
        assert_eq!(cpu.a, v);
        assert_eq!(cpu.sp, 0xff);
    }
}

#[test]
fn push2_layout_matches_two_pushes() {
    // JSR pushes a word; PHA-ing the high byte then the low byte writes
    // the same two stack bytes.
    let prog = [0x20, 0x08, 0x00, 0x4c, 0x03, 0x00, 0x00, 0x00, 0x60];
    let mut mem = AddressSpace::new(&prog, 0);
    let mut cpu = Cpu::new(0);
    cpu.step(&mut mem).unwrap();
    let jsr_hi = mem.read(0x01ff);
    let jsr_lo = mem.read(0x01fe);

    // LDA #$00; PHA; LDA #$02; PHA  (high byte of $0002, then low)
    let prog2 = [0xa9, 0x00, 0x48, 0xa9, 0x02, 0x48, 0x4c, 0x06, 0x00];
    let mut mem2 = AddressSpace::new(&prog2, 0);
    let mut cpu2 = Cpu::new(0);
    for _ in 0..4 {
        cpu2.step(&mut mem2).unwrap();
    }
    assert_eq!(mem2.read(0x01ff), jsr_hi);
    assert_eq!(mem2.read(0x01fe), jsr_lo);
    assert_eq!(cpu2.sp, 0xfd);
}

#[test]
fn inx_wraps_and_sets_flags() {
    // INX at $0000 from X = $FF.
    let prog = [0xe8];
    let mut mem = AddressSpace::new(&prog, 0);
    let mut cpu = Cpu::new(0);
    cpu.x = 0xff;
    cpu.step(&mut mem).unwrap();
    assert_eq!(cpu.x, 0x00);
    assert!(cpu.flags.is_set(Flag::Zero));
    assert!(!cpu.flags.is_set(Flag::Negative));

    let mut mem = AddressSpace::new(&prog, 0);
    let mut cpu = Cpu::new(0);
    cpu.x = 0x7f;
    cpu.step(&mut mem).unwrap();
    assert_eq!(cpu.x, 0x80);
    assert!(!cpu.flags.is_set(Flag::Zero));
    assert!(cpu.flags.is_set(Flag::Negative));
}

#[test]
fn branch_minus_two_halts() {
    // BEQ -2 with the zero flag set points back at its own opcode.
    let prog = [0xf0, 0xfe];
    let mut mem = AddressSpace::new(&prog, 0);
    let mut cpu = Cpu::new(0);
    cpu.flags.set(Flag::Zero);
    assert!(cpu.would_halt(&mut mem));

    // Not taken: no halt.
    let mut mem = AddressSpace::new(&prog, 0);
    let mut cpu = Cpu::new(0);
    assert!(!cpu.would_halt(&mut mem));
}

#[test]
fn jmp_to_self_halts() {
    let prog = [0x4c, 0x00, 0x00];
    let mut mem = AddressSpace::new(&prog, 0);
    let mut cpu = Cpu::new(0);
    assert!(cpu.would_halt(&mut mem));

    // A JMP elsewhere is no halt.
    let prog = [0x4c, 0x03, 0x00];
    let mut mem = AddressSpace::new(&prog, 0);
    let mut cpu = Cpu::new(0);
    assert!(!cpu.would_halt(&mut mem));
}

#[test]
fn step_errors() {
    // An unmapped opcode byte.
    let prog = [0x02];
    let mut mem = AddressSpace::new(&prog, 0);
    let mut cpu = Cpu::new(0);
    assert_eq!(cpu.step(&mut mem), Err(CpuError::InvalidOpcode(0x02)));

    // BRK is fatal to the interpreter.
    let prog = [0x00];
    let mut mem = AddressSpace::new(&prog, 0);
    let mut cpu = Cpu::new(0);
    assert_eq!(cpu.step(&mut mem), Err(CpuError::Brk));

    // LDA $FFFF,X with X = 1 runs past the top of the address space.
    let prog = [0xa2, 0x01, 0xbd, 0xff, 0xff];
    let mut mem = AddressSpace::new(&prog, 0);
    let mut cpu = Cpu::new(0);
    cpu.step(&mut mem).unwrap();
    assert_eq!(cpu.step(&mut mem), Err(CpuError::AddrOverflow));

    // An absent operand cannot be read.
    let mut mem = AddressSpace::new(&[], 0);
    let cpu = Cpu::new(0);
    assert_eq!(Operand::Nothing.get(&cpu, &mut mem), Err(CpuError::BadOperand));
}

#[test]
fn adc_carry_and_overflow() {
    // CLC; LDA #$50; ADC #$50 -> $A0, V set, C clear.
    let prog = [0x18, 0xa9, 0x50, 0x69, 0x50];
    let mut mem = AddressSpace::new(&prog, 0);
    let mut cpu = Cpu::new(0);
    for _ in 0..3 {
        cpu.step(&mut mem).unwrap();
    }
    assert_eq!(cpu.a, 0xa0);
    assert!(cpu.flags.is_set(Flag::Overflow));
    assert!(!cpu.flags.is_set(Flag::Carry));
    assert!(cpu.flags.is_set(Flag::Negative));

    // SEC; LDA #$FF; ADC #$01 -> $01 with carry out.
    let prog = [0x38, 0xa9, 0xff, 0x69, 0x01];
    let mut mem = AddressSpace::new(&prog, 0);
    let mut cpu = Cpu::new(0);
    for _ in 0..3 {
        cpu.step(&mut mem).unwrap();
    }
    assert_eq!(cpu.a, 0x01);
    assert!(cpu.flags.is_set(Flag::Carry));
    assert!(!cpu.flags.is_set(Flag::Overflow));
}

#[test]
fn pc_advances_by_instruction_length() {
    // NOP (1 byte), LDA #imm (2 bytes), LDA abs (3 bytes).
    let prog = [0xea, 0xa9, 0x07, 0xad, 0x00, 0x10];
    let mut mem = AddressSpace::new(&prog, 0);
    let mut cpu = Cpu::new(0);
    cpu.step(&mut mem).unwrap();
    assert_eq!(cpu.pc, 1);
    cpu.step(&mut mem).unwrap();
    assert_eq!(cpu.pc, 3);
    cpu.step(&mut mem).unwrap();
    assert_eq!(cpu.pc, 6);
}
