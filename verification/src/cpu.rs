pub mod arith;
pub mod flags;
pub mod instr;
pub mod operand;

use vstd::prelude::*;

use crate::memory::{spec_read_post, spec_read_val, spec_write, AddressSpace, MemV};
use flags::{spec_assign, spec_nz, Flag, Flags};
use instr::{spec_decode, spec_instr_len, Instr, Mode};
use operand::{spec_get, spec_operand, spec_set, Operand};

verus! {

/// Why the interpreter cannot carry on: an unmapped opcode byte, a BRK
/// (treated as a fatal user breakpoint), operand arithmetic past the top
/// of the address space, or an operand used in a way its kind forbids.
#[derive(Clone, Copy, Debug, PartialEq, Eq, Structural)]
pub enum CpuError {
    InvalidOpcode(u8),
    Brk,
    AddrOverflow,
    BadOperand,
}

/// The 6502 register file.
#[derive(Clone, Copy, Debug, PartialEq, Eq, Structural)]
pub struct Cpu {
    pub pc: u16,
    pub sp: u8,
    pub flags: Flags,
    pub a: u8,
    pub x: u8,
    pub y: u8,
}

/// The flags register after a negative-zero update.
pub open spec fn spec_nzf(f: Flags, value: u8) -> Flags {
    Flags { bits: spec_nz(f.bits, value) }
}

/// The flags register with one flag forced.
pub open spec fn spec_assignf(f: Flags, flag: Flag, on: bool) -> Flags {
    Flags { bits: spec_assign(f.bits, flag, on) }
}

/// The CPU and memory after pushing one byte: the byte lands at
/// $0100 + SP and SP steps down, wrapping within the stack page.
pub open spec fn spec_push(c: Cpu, m: MemV, value: u8) -> (Cpu, MemV) {
    (
        Cpu { sp: (((c.sp + 256) - 1) % 256) as u8, ..c },
        spec_write(m, (0x100 + c.sp) as u16, value),
    )
}

/// The CPU, memory and value after popping one byte: SP steps up first,
/// wrapping within the stack page, then the byte at $0100 + SP is read.
pub open spec fn spec_pop(c: Cpu, m: MemV) -> (Cpu, MemV, u8) {
    let sp1 = ((c.sp + 1) % 256) as u8;
    (
        Cpu { sp: sp1, ..c },
        spec_read_post(m, (0x100 + sp1) as u16),
        spec_read_val(m, (0x100 + sp1) as u16),
    )
}

/// Pushing a word pushes the high byte first, so the two bytes sit
/// little-endian in RAM.
pub open spec fn spec_push2(c: Cpu, m: MemV, word: u16) -> (Cpu, MemV) {
    let hi = (word / 256) as u8;
    let lo = (word % 256) as u8;
    let s1 = spec_push(c, m, hi);
    spec_push(s1.0, s1.1, lo)
}

/// Popping a word pops the low byte first.
pub open spec fn spec_pop2(c: Cpu, m: MemV) -> (Cpu, MemV, u16) {
    let p1 = spec_pop(c, m);
    let p2 = spec_pop(p1.0, p1.1);
    (p2.0, p2.1, (p1.2 + p2.2 * 256) as u16)
}

/// The CPU after an add-with-carry of the two bytes: the accumulator
/// takes the sum; N and Z follow the sum; C and V follow the addition.
pub open spec fn spec_adc(c: Cpu, arg1: u8, arg2: u8) -> Cpu {
    let cv: int = if c.flags.spec_is_set(Flag::Carry) {
        1
    } else {
        0
    };
    let sum = ((arg1 + arg2 + cv) % 256) as u8;
    let carry = arg1 + arg2 + cv >= 256;
    let overflow = arith::spec_overflow(arg1, arg2, sum);
    Cpu {
        a: sum,
        flags: spec_assignf(
            spec_assignf(spec_nzf(c.flags, sum), Flag::Carry, carry),
            Flag::Overflow,
            overflow,
        ),
        ..c
    }
}

/// The CPU after a compare: the register minus the operand drives N, Z
/// and C, computed as `reg + !operand + 1`; nothing else changes.
pub open spec fn spec_cmp(c: Cpu, arg1: u8, arg2: u8) -> Cpu {
    let inv = !arg2;
    let sum = ((arg1 + inv + 1) % 256) as u8;
    let carry = arg1 + inv + 1 >= 256;
    Cpu { flags: spec_assignf(spec_nzf(c.flags, sum), Flag::Carry, carry), ..c }
}

/// The CPU and result byte of a rotate left: the byte shifts left, the
/// old carry enters bit 0, and the bit shifted out becomes the carry.
pub open spec fn spec_rol(c: Cpu, arg: u8) -> (Cpu, u8) {
    let shifted = arg << 1;
    let out = if c.flags.spec_is_set(Flag::Carry) {
        shifted | 1
    } else {
        shifted
    };
    let carry = arg >> 7 != 0;
    (Cpu { flags: spec_assignf(spec_nzf(c.flags, out), Flag::Carry, carry), ..c }, out)
}

/// The CPU and result byte of a rotate right: the byte shifts right, the
/// old carry enters bit 7, and the bit shifted out becomes the carry.
pub open spec fn spec_ror(c: Cpu, arg: u8) -> (Cpu, u8) {
    let shifted = arg >> 1;
    let out = if c.flags.spec_is_set(Flag::Carry) {
        shifted | 0x80
    } else {
        shifted
    };
    let carry = arg & 1 != 0;
    (Cpu { flags: spec_assignf(spec_nzf(c.flags, out), Flag::Carry, carry), ..c }, out)
}

/// Whether the instruction is one of the eight conditional branches.
pub open spec fn spec_is_branch(i: Instr) -> bool {
    match i {
        Instr::Bpl | Instr::Bmi | Instr::Bvc | Instr::Bvs | Instr::Bcc | Instr::Bcs | Instr::Bne
            | Instr::Beq => true,
        _ => false,
    }
}

/// Whether the branch is taken under the given flags.
pub open spec fn spec_would_branch(branch: Instr, f: Flags) -> bool {
    match branch {
        Instr::Bpl => !f.spec_is_set(Flag::Negative),
        Instr::Bmi => f.spec_is_set(Flag::Negative),
        Instr::Bvc => !f.spec_is_set(Flag::Overflow),
        Instr::Bvs => f.spec_is_set(Flag::Overflow),
        Instr::Bcc => !f.spec_is_set(Flag::Carry),
        Instr::Bcs => f.spec_is_set(Flag::Carry),
        Instr::Bne => !f.spec_is_set(Flag::Zero),
        Instr::Beq => f.spec_is_set(Flag::Zero),
        _ => false,
    }
}

/// Whether the instruction is one of the eight conditional branches.
pub fn is_branch(i: Instr) -> (r: bool)
    ensures
        r == spec_is_branch(i),
{
    match i {
        Instr::Bpl | Instr::Bmi | Instr::Bvc | Instr::Bvs | Instr::Bcc | Instr::Bcs | Instr::Bne
            | Instr::Beq => true,
        _ => false,
    }
}

/// Whether the branch is taken under the given flags.
pub fn would_branch(branch: Instr, flags: Flags) -> (r: bool)
    requires
        spec_is_branch(branch),
    ensures
        r == spec_would_branch(branch, flags),
{
    match branch {
        Instr::Bpl => !flags.is_set(Flag::Negative),
        Instr::Bmi => flags.is_set(Flag::Negative),
        Instr::Bvc => !flags.is_set(Flag::Overflow),
        Instr::Bvs => flags.is_set(Flag::Overflow),
        Instr::Bcc => !flags.is_set(Flag::Carry),
        Instr::Bcs => flags.is_set(Flag::Carry),
        Instr::Bne => !flags.is_set(Flag::Zero),
        Instr::Beq => flags.is_set(Flag::Zero),
        _ => false,
    }
}

/// What fetching and decoding the instruction at the program counter
/// yields, and the memory state after the fetch reads.
pub open spec fn spec_next_instr(c: Cpu, m: MemV) -> (Result<(Instr, Mode, Operand), CpuError>, MemV) {
    let opcode = spec_read_val(m, c.pc);
    let m1 = spec_read_post(m, c.pc);
    match spec_decode(opcode) {
        None => (Err(CpuError::InvalidOpcode(opcode)), m1),
        Some((i, mo)) => {
            let (res, m2) = spec_operand(c, m1, mo);
            match res {
                Err(e) => (Err(e), m2),
                Ok(op) => (Ok((i, mo, op)), m2),
            }
        },
    }
}

impl Cpu {
    /// A fresh CPU about to execute at `start_addr`: empty stack, all
    /// flags clear, zeroed registers.
    pub open spec fn spec_started(start_addr: u16) -> Cpu {
        Cpu { pc: start_addr, sp: 0xff, flags: Flags { bits: 0 }, a: 0, x: 0, y: 0 }
    }

    /// A fresh CPU about to execute at `start_addr`: empty stack, all
    /// flags clear, zeroed registers.
    pub fn new(start_addr: u16) -> (r: Cpu)
        ensures
            r == (Cpu {
                pc: start_addr,
                sp: 0xff,
                flags: Flags { bits: 0 },
                a: 0,
                x: 0,
                y: 0,
            }),
    {
        Cpu { pc: start_addr, sp: 0xff, flags: Flags { bits: 0 }, a: 0, x: 0, y: 0 }
    }

    pub fn pc(&self) -> (r: u16)
        ensures
            r == self.pc,
    {
        self.pc
    }

    /// Fetch, decode and resolve the instruction at the program counter,
    /// without executing it. The fetch reads can have I/O side effects.
    pub fn next_instr(&self, mem: &mut AddressSpace) -> (r: Result<(Instr, Mode, Operand), CpuError>)
        requires
            old(mem)@.wf(),
        ensures
            r == spec_next_instr(*self, old(mem)@).0,
            final(mem)@ == spec_next_instr(*self, old(mem)@).1,
            final(mem)@.wf(),
    {
        let opcode = mem.read(self.pc);
        let (i, mo) = match instr::decode(opcode) {
            Ok(pair) => pair,
            Err(e) => {
                return Err(e);
            },
        };
        let op = match Operand::new(self, mem, mo) {
            Ok(op) => op,
            Err(e) => {
                return Err(e);
            },
        };
        Ok((i, mo, op))
    }
}

/// Stack operations.
impl Cpu {
    /// Push one byte: it lands at $0100 + SP, then SP steps down.
    pub fn push(&mut self, mem: &mut AddressSpace, value: u8)
        requires
            old(mem)@.wf(),
        ensures
            *final(self) == spec_push(*old(self), old(mem)@, value).0,
            final(mem)@ == spec_push(*old(self), old(mem)@, value).1,
            final(mem)@.wf(),
    {
        mem.write(0x100 + self.sp as u16, value);
        self.sp = if self.sp == 0 {
            0xff
        } else {
            self.sp - 1
        };
    }

    /// Pop one byte: SP steps up, then the byte at $0100 + SP is read.
    pub fn pop(&mut self, mem: &mut AddressSpace) -> (r: u8)
        requires
            old(mem)@.wf(),
        ensures
            *final(self) == spec_pop(*old(self), old(mem)@).0,
            final(mem)@ == spec_pop(*old(self), old(mem)@).1,
            r == spec_pop(*old(self), old(mem)@).2,
            final(mem)@.wf(),
    {
        self.sp = if self.sp == 0xff {
            0
        } else {
            self.sp + 1
        };
        mem.read(0x100 + self.sp as u16)
    }

    /// Push a word, high byte first, so it sits little-endian in RAM.
    pub fn push2(&mut self, mem: &mut AddressSpace, word: u16)
        requires
            old(mem)@.wf(),
        ensures
            *final(self) == spec_push2(*old(self), old(mem)@, word).0,
            final(mem)@ == spec_push2(*old(self), old(mem)@, word).1,
            final(mem)@.wf(),
    {
        let hi = (word / 256) as u8;
        let lo = (word % 256) as u8;
        // The stack grows down, so this stores the bytes in little-endian
        // order in RAM.
        self.push(mem, hi);
        self.push(mem, lo);
    }

    /// Pop a word, low byte first.
    pub fn pop2(&mut self, mem: &mut AddressSpace) -> (r: u16)
        requires
            old(mem)@.wf(),
        ensures
            *final(self) == spec_pop2(*old(self), old(mem)@).0,
            final(mem)@ == spec_pop2(*old(self), old(mem)@).1,
            r == spec_pop2(*old(self), old(mem)@).2,
            final(mem)@.wf(),
    {
        let lo = self.pop(mem);
        let hi = self.pop(mem);
        lo as u16 + hi as u16 * 256
    }
}

/// Arithmetic and shift instructions, shared by several mnemonics.
impl Cpu {
    /// Add with carry into the accumulator; ADC and SBC share this.
    fn adc(&mut self, arg1: u8, arg2: u8)
        ensures
            *final(self) == spec_adc(*old(self), arg1, arg2),
    {
        let ret = arith::add(arg1, arg2, self.flags.is_set(Flag::Carry));
        self.a = self.flags.nz(ret.sum);
        self.flags.assign(Flag::Carry, ret.carry);
        self.flags.assign(Flag::Overflow, ret.overflow);
    }

    /// Compare a register byte against an operand byte.
    fn cmp(&mut self, arg1: u8, arg2: u8)
        ensures
            *final(self) == spec_cmp(*old(self), arg1, arg2),
    {
        let ret = arith::add(arg1, !arg2, true);
        let _ = self.flags.nz(ret.sum);
        self.flags.assign(Flag::Carry, ret.carry);
    }

    /// Rotate left through the carry; ASL clears the carry first.
    fn rol(&mut self, arg: u8) -> (out: u8)
        ensures
            *final(self) == spec_rol(*old(self), arg).0,
            out == spec_rol(*old(self), arg).1,
    {
        let r = arith::overflowing_shl(arg, 1);
        let mut out = r.0;
        if self.flags.is_set(Flag::Carry) {
            out = out | 1;
        }
        let _ = self.flags.nz(out);
        self.flags.assign(Flag::Carry, r.1);
        proof {
            assert(arg >> (8 - 1) as u8 == arg >> 7) by (bit_vector);
        }
        out
    }

    /// Rotate right through the carry; LSR clears the carry first.
    fn ror(&mut self, arg: u8) -> (out: u8)
        ensures
            *final(self) == spec_ror(*old(self), arg).0,
            out == spec_ror(*old(self), arg).1,
    {
        let r = arith::overflowing_shr(arg, 1);
        let mut out = r.0;
        if self.flags.is_set(Flag::Carry) {
            out = out | 0x80;
        }
        let _ = self.flags.nz(out);
        self.flags.assign(Flag::Carry, r.1);
        proof {
            assert((((1u8 << 1) - 1) as u8) == 1) by (bit_vector);
        }
        out
    }
}


/// What executing one decoded instruction does to the CPU and memory.
/// An error leaves both exactly as they were after the fetch.
pub open spec fn spec_instr_body(c: Cpu, m: MemV, instr: Instr, arg: Operand) -> Result<
    (Cpu, MemV),
    CpuError,
> {
    match instr {
        Instr::Brk | Instr::Nop | Instr::Tax | Instr::Txa | Instr::Tay | Instr::Tya | Instr::Txs | Instr::Tsx => spec_body_reg(c, m, instr, arg),
        Instr::Pha | Instr::Pla | Instr::Php | Instr::Plp => spec_body_stack(c, m, instr, arg),
        Instr::Lda | Instr::Ldx | Instr::Ldy | Instr::Sta | Instr::Stx | Instr::Sty => spec_body_load_store(c, m, instr, arg),
        Instr::Inx | Instr::Dex | Instr::Iny | Instr::Dey => spec_body_reg_inc_dec(c, m, instr, arg),
        Instr::Inc | Instr::Dec => spec_body_mem_inc_dec(c, m, instr, arg),
        Instr::Clc | Instr::Sec | Instr::Cli | Instr::Sei | Instr::Clv | Instr::Cld | Instr::Sed => spec_body_flag(c, m, instr, arg),
        Instr::And | Instr::Ora | Instr::Eor => spec_body_logic(c, m, instr, arg),
        Instr::Adc | Instr::Sbc | Instr::Cmp | Instr::Cpx | Instr::Cpy | Instr::Bit => spec_body_arith(c, m, instr, arg),
        Instr::Asl | Instr::Lsr | Instr::Rol | Instr::Ror => spec_body_shift(c, m, instr, arg),
        Instr::Bpl | Instr::Bmi | Instr::Bvc | Instr::Bvs | Instr::Bcc | Instr::Bcs | Instr::Bne | Instr::Beq => spec_body_branch(c, m, instr, arg),
        Instr::Jmp | Instr::Jsr | Instr::Rts | Instr::Rti => spec_body_jump(c, m, instr, arg),
    }
}

/// BRK, NOP and the register transfers.
#[verifier::opaque]
pub open spec fn spec_body_reg(c: Cpu, m: MemV, instr: Instr, arg: Operand) -> Result<
    (Cpu, MemV),
    CpuError,
> {
    let taken = spec_is_branch(instr) && spec_would_branch(instr, c.flags);
    match instr {
        Instr::Brk => Err(CpuError::Brk),
        Instr::Nop => Ok((c, m)),
        Instr::Tax => Ok((Cpu { x: c.a, flags: spec_nzf(c.flags, c.a), ..c }, m)),
        Instr::Txa => Ok((Cpu { a: c.x, flags: spec_nzf(c.flags, c.x), ..c }, m)),
        Instr::Tay => Ok((Cpu { y: c.a, flags: spec_nzf(c.flags, c.a), ..c }, m)),
        Instr::Tya => Ok((Cpu { a: c.y, flags: spec_nzf(c.flags, c.y), ..c }, m)),
        Instr::Txs => Ok((Cpu { sp: c.x, ..c }, m)),
        Instr::Tsx => Ok((Cpu { x: c.sp, flags: spec_nzf(c.flags, c.sp), ..c }, m)),
        _ => Err(CpuError::BadOperand),
    }
}

/// The four stack push and pop instructions.
#[verifier::opaque]
pub open spec fn spec_body_stack(c: Cpu, m: MemV, instr: Instr, arg: Operand) -> Result<
    (Cpu, MemV),
    CpuError,
> {
    let taken = spec_is_branch(instr) && spec_would_branch(instr, c.flags);
    match instr {
        Instr::Pha => Ok(spec_push(c, m, c.a)),
        Instr::Pla => {
            let p = spec_pop(c, m);
            Ok((Cpu { a: p.2, flags: spec_nzf(p.0.flags, p.2), ..p.0 }, p.1))
        },
        Instr::Php => Ok(spec_push(c, m, (c.flags.bits | 0x10) | 0x20)),
        Instr::Plp => {
            let p = spec_pop(c, m);
            Ok((Cpu { flags: Flags { bits: p.2 }, ..p.0 }, p.1))
        },
        _ => Err(CpuError::BadOperand),
    }
}

/// Loads and stores.
#[verifier::opaque]
pub open spec fn spec_body_load_store(c: Cpu, m: MemV, instr: Instr, arg: Operand) -> Result<
    (Cpu, MemV),
    CpuError,
> {
    let taken = spec_is_branch(instr) && spec_would_branch(instr, c.flags);
    match instr {
        Instr::Lda => match spec_get(arg, c, m) {
            Err(e) => Err(e),
            Ok((v, m2)) => Ok((Cpu { a: v, flags: spec_nzf(c.flags, v), ..c }, m2)),
        },
        Instr::Ldx => match spec_get(arg, c, m) {
            Err(e) => Err(e),
            Ok((v, m2)) => Ok((Cpu { x: v, flags: spec_nzf(c.flags, v), ..c }, m2)),
        },
        Instr::Ldy => match spec_get(arg, c, m) {
            Err(e) => Err(e),
            Ok((v, m2)) => Ok((Cpu { y: v, flags: spec_nzf(c.flags, v), ..c }, m2)),
        },
        Instr::Sta => spec_set(arg, c, m, c.a),
        Instr::Stx => spec_set(arg, c, m, c.x),
        Instr::Sty => spec_set(arg, c, m, c.y),
        _ => Err(CpuError::BadOperand),
    }
}

/// The register increments and decrements.
#[verifier::opaque]
pub open spec fn spec_body_reg_inc_dec(c: Cpu, m: MemV, instr: Instr, arg: Operand) -> Result<
    (Cpu, MemV),
    CpuError,
> {
    let taken = spec_is_branch(instr) && spec_would_branch(instr, c.flags);
    match instr {
        Instr::Inx => {
            let v = ((c.x + 1) % 256) as u8;
            Ok((Cpu { x: v, flags: spec_nzf(c.flags, v), ..c }, m))
        },
        Instr::Dex => {
            let v = ((c.x + 255) % 256) as u8;
            Ok((Cpu { x: v, flags: spec_nzf(c.flags, v), ..c }, m))
        },
        Instr::Iny => {
            let v = ((c.y + 1) % 256) as u8;
            Ok((Cpu { y: v, flags: spec_nzf(c.flags, v), ..c }, m))
        },
        Instr::Dey => {
            let v = ((c.y + 255) % 256) as u8;
            Ok((Cpu { y: v, flags: spec_nzf(c.flags, v), ..c }, m))
        },
        _ => Err(CpuError::BadOperand),
    }
}

/// Increment and decrement through an operand.
#[verifier::opaque]
pub open spec fn spec_body_mem_inc_dec(c: Cpu, m: MemV, instr: Instr, arg: Operand) -> Result<
    (Cpu, MemV),
    CpuError,
> {
    let taken = spec_is_branch(instr) && spec_would_branch(instr, c.flags);
    match instr {
        Instr::Inc => match spec_get(arg, c, m) {
            Err(e) => Err(e),
            Ok((v, m2)) => {
                if arg is Literal {
                    Err(CpuError::BadOperand)
                } else {
                    let v2 = ((v + 1) % 256) as u8;
                    spec_set(arg, Cpu { flags: spec_nzf(c.flags, v2), ..c }, m2, v2)
                }
            },
        },
        Instr::Dec => match spec_get(arg, c, m) {
            Err(e) => Err(e),
            Ok((v, m2)) => {
                if arg is Literal {
                    Err(CpuError::BadOperand)
                } else {
                    let v2 = ((v + 255) % 256) as u8;
                    spec_set(arg, Cpu { flags: spec_nzf(c.flags, v2), ..c }, m2, v2)
                }
            },
        },
        _ => Err(CpuError::BadOperand),
    }
}

/// The flag set and clear instructions.
#[verifier::opaque]
pub open spec fn spec_body_flag(c: Cpu, m: MemV, instr: Instr, arg: Operand) -> Result<
    (Cpu, MemV),
    CpuError,
> {
    let taken = spec_is_branch(instr) && spec_would_branch(instr, c.flags);
    match instr {
        Instr::Clc => Ok((Cpu { flags: spec_assignf(c.flags, Flag::Carry, false), ..c }, m)),
        Instr::Sec => Ok((Cpu { flags: spec_assignf(c.flags, Flag::Carry, true), ..c }, m)),
        Instr::Cli => Ok((Cpu { flags: spec_assignf(c.flags, Flag::Interrupt, false), ..c }, m)),
        Instr::Sei => Ok((Cpu { flags: spec_assignf(c.flags, Flag::Interrupt, true), ..c }, m)),
        Instr::Clv => Ok((Cpu { flags: spec_assignf(c.flags, Flag::Overflow, false), ..c }, m)),
        Instr::Cld => Ok((Cpu { flags: spec_assignf(c.flags, Flag::Decimal, false), ..c }, m)),
        Instr::Sed => Ok((Cpu { flags: spec_assignf(c.flags, Flag::Decimal, true), ..c }, m)),
        _ => Err(CpuError::BadOperand),
    }
}

/// The three bitwise accumulator instructions.
#[verifier::opaque]
pub open spec fn spec_body_logic(c: Cpu, m: MemV, instr: Instr, arg: Operand) -> Result<
    (Cpu, MemV),
    CpuError,
> {
    let taken = spec_is_branch(instr) && spec_would_branch(instr, c.flags);
    match instr {
        Instr::And => match spec_get(arg, c, m) {
            Err(e) => Err(e),
            Ok((v, m2)) => {
                let v2 = c.a & v;
                Ok((Cpu { a: v2, flags: spec_nzf(c.flags, v2), ..c }, m2))
            },
        },
        Instr::Ora => match spec_get(arg, c, m) {
            Err(e) => Err(e),
            Ok((v, m2)) => {
                let v2 = c.a | v;
                Ok((Cpu { a: v2, flags: spec_nzf(c.flags, v2), ..c }, m2))
            },
        },
        Instr::Eor => match spec_get(arg, c, m) {
            Err(e) => Err(e),
            Ok((v, m2)) => {
                let v2 = c.a ^ v;
                Ok((Cpu { a: v2, flags: spec_nzf(c.flags, v2), ..c }, m2))
            },
        },
        _ => Err(CpuError::BadOperand),
    }
}

/// Add, subtract, compare and BIT.
#[verifier::opaque]
pub open spec fn spec_body_arith(c: Cpu, m: MemV, instr: Instr, arg: Operand) -> Result<
    (Cpu, MemV),
    CpuError,
> {
    let taken = spec_is_branch(instr) && spec_would_branch(instr, c.flags);
    match instr {
        Instr::Adc => match spec_get(arg, c, m) {
            Err(e) => Err(e),
            Ok((v, m2)) => Ok((spec_adc(c, c.a, v), m2)),
        },
        Instr::Sbc => match spec_get(arg, c, m) {
            Err(e) => Err(e),
            Ok((v, m2)) => Ok((spec_adc(c, c.a, !v), m2)),
        },
        Instr::Cmp => match spec_get(arg, c, m) {
            Err(e) => Err(e),
            Ok((v, m2)) => Ok((spec_cmp(c, c.a, v), m2)),
        },
        Instr::Cpx => match spec_get(arg, c, m) {
            Err(e) => Err(e),
            Ok((v, m2)) => Ok((spec_cmp(c, c.x, v), m2)),
        },
        Instr::Cpy => match spec_get(arg, c, m) {
            Err(e) => Err(e),
            Ok((v, m2)) => Ok((spec_cmp(c, c.y, v), m2)),
        },
        Instr::Bit => match spec_get(arg, c, m) {
            Err(e) => Err(e),
            Ok((v, m2)) => {
                let f1 = spec_assignf(c.flags, Flag::Negative, v & 0x80 != 0);
                let f2 = spec_assignf(f1, Flag::Overflow, v & 0x40 != 0);
                let f3 = spec_assignf(f2, Flag::Zero, v & c.a == 0);
                Ok((Cpu { flags: f3, ..c }, m2))
            },
        },
        _ => Err(CpuError::BadOperand),
    }
}

/// The four shifts and rotates.
#[verifier::opaque]
pub open spec fn spec_body_shift(c: Cpu, m: MemV, instr: Instr, arg: Operand) -> Result<
    (Cpu, MemV),
    CpuError,
> {
    let taken = spec_is_branch(instr) && spec_would_branch(instr, c.flags);
    match instr {
        Instr::Asl => match spec_get(arg, c, m) {
            Err(e) => Err(e),
            Ok((v, m2)) => {
                if arg is Literal {
                    Err(CpuError::BadOperand)
                } else {
                    let c1 = Cpu { flags: spec_assignf(c.flags, Flag::Carry, false), ..c };
                    let r = spec_rol(c1, v);
                    spec_set(arg, r.0, m2, r.1)
                }
            },
        },
        Instr::Lsr => match spec_get(arg, c, m) {
            Err(e) => Err(e),
            Ok((v, m2)) => {
                if arg is Literal {
                    Err(CpuError::BadOperand)
                } else {
                    let c1 = Cpu { flags: spec_assignf(c.flags, Flag::Carry, false), ..c };
                    let r = spec_ror(c1, v);
                    spec_set(arg, r.0, m2, r.1)
                }
            },
        },
        Instr::Rol => match spec_get(arg, c, m) {
            Err(e) => Err(e),
            Ok((v, m2)) => {
                if arg is Literal {
                    Err(CpuError::BadOperand)
                } else {
                    let r = spec_rol(c, v);
                    spec_set(arg, r.0, m2, r.1)
                }
            },
        },
        Instr::Ror => match spec_get(arg, c, m) {
            Err(e) => Err(e),
            Ok((v, m2)) => {
                if arg is Literal {
                    Err(CpuError::BadOperand)
                } else {
                    let r = spec_ror(c, v);
                    spec_set(arg, r.0, m2, r.1)
                }
            },
        },
        _ => Err(CpuError::BadOperand),
    }
}

/// The eight conditional branches.
#[verifier::opaque]
pub open spec fn spec_body_branch(c: Cpu, m: MemV, instr: Instr, arg: Operand) -> Result<
    (Cpu, MemV),
    CpuError,
> {
    let taken = spec_is_branch(instr) && spec_would_branch(instr, c.flags);
    match instr {
        Instr::Bpl | Instr::Bmi | Instr::Bvc | Instr::Bvs | Instr::Bcc | Instr::Bcs | Instr::Bne
            | Instr::Beq => {
            if taken {
                match arg {
                    Operand::Memory { addr } => Ok((Cpu { pc: addr, ..c }, m)),
                    _ => Err(CpuError::BadOperand),
                }
            } else {
                Ok((c, m))
            }
        },
        _ => Err(CpuError::BadOperand),
    }
}

/// Jumps, subroutine call and the two returns.
#[verifier::opaque]
pub open spec fn spec_body_jump(c: Cpu, m: MemV, instr: Instr, arg: Operand) -> Result<
    (Cpu, MemV),
    CpuError,
> {
    let taken = spec_is_branch(instr) && spec_would_branch(instr, c.flags);
    match instr {
        Instr::Jmp => match arg {
            Operand::Memory { addr } => Ok((Cpu { pc: addr, ..c }, m)),
            _ => Err(CpuError::BadOperand),
        },
        Instr::Jsr => {
            if c.pc + 2 > 0xffff {
                Err(CpuError::AddrOverflow)
            } else {
                match arg {
                    Operand::Memory { addr } => {
                        let s = spec_push2(c, m, (c.pc + 2) as u16);
                        Ok((Cpu { pc: addr, ..s.0 }, s.1))
                    },
                    _ => Err(CpuError::BadOperand),
                }
            }
        },
        Instr::Rts => {
            let sp1 = ((c.sp + 1) % 256) as u8;
            let sp2 = ((c.sp + 2) % 256) as u8;
            let a1 = (0x100 + sp1) as u16;
            let a2 = (0x100 + sp2) as u16;
            let lo = spec_read_val(m, a1);
            let m1 = spec_read_post(m, a1);
            let hi = spec_read_val(m1, a2);
            let m2 = spec_read_post(m1, a2);
            let w = lo + hi * 256;
            if w == 0xffff {
                Err(CpuError::AddrOverflow)
            } else {
                Ok((Cpu { sp: sp2, pc: (w + 1) as u16, ..c }, m2))
            }
        },
        Instr::Rti => {
            let p = spec_pop(c, m);
            let c1 = Cpu { flags: Flags { bits: p.2 }, ..p.0 };
            let q = spec_pop2(c1, p.1);
            // Note that unlike RTS, there is no off-by-one here.
            Ok((Cpu { pc: q.2, ..q.0 }, q.1))
        },
        _ => Err(CpuError::BadOperand),
    }
}


/// What executing one decoded instruction does, with the program counter
/// stepped past the instruction unless the instruction transferred
/// control. An error leaves CPU and memory as they stood after the fetch.
pub open spec fn spec_exec_instr(c: Cpu, m: MemV, instr: Instr, mode: Mode, arg: Operand) -> (
    Cpu,
    MemV,
    Result<(), CpuError>,
) {
    let len = spec_instr_len(mode);
    let taken = spec_is_branch(instr) && spec_would_branch(instr, c.flags);
    let advances = !(instr == Instr::Brk || instr == Instr::Jmp || instr == Instr::Jsr || instr
        == Instr::Rts || instr == Instr::Rti) && !taken;
    if advances && c.pc + len > 0xffff {
        (c, m, Err(CpuError::AddrOverflow))
    } else {
        match spec_instr_body(c, m, instr, arg) {
            Err(e) => (c, m, Err(e)),
            Ok((c2, m2)) => if advances {
                (Cpu { pc: (c.pc + len) as u16, ..c2 }, m2, Ok(()))
            } else {
                (c2, m2, Ok(()))
            },
        }
    }
}

/// One whole step: fetch, decode, resolve and execute the instruction at
/// the program counter. An error leaves the registers untouched and the
/// memory as it stood after the fetch reads.
pub open spec fn spec_step(c: Cpu, m: MemV) -> (Cpu, MemV, Result<(), CpuError>) {
    let f = spec_next_instr(c, m);
    match f.0 {
        Err(e) => (c, f.1, Err(e)),
        Ok((instr, mode, arg)) => spec_exec_instr(c, f.1, instr, mode, arg),
    }
}

impl Cpu {
    /// BRK, NOP and the register transfers.
    #[verifier::spinoff_prover]
    #[verifier::rlimit(100)]
    fn step_reg(&mut self, mem: &mut AddressSpace, instr: Instr, mode: Mode, arg: Operand) -> (r:
        Result<(), CpuError>)
        requires
            old(mem)@.wf(),
            instr == Instr::Brk || instr == Instr::Nop || instr == Instr::Tax || instr == Instr::Txa || instr == Instr::Tay || instr == Instr::Tya || instr == Instr::Txs || instr == Instr::Tsx,
        ensures
            ({
                let s = spec_exec_instr(*old(self), old(mem)@, instr, mode, arg);
                &&& *final(self) == s.0
                &&& final(mem)@ == s.1
                &&& r == s.2
            }),
            final(mem)@.wf(),
    {
        proof {
            reveal(spec_body_reg);
        }
        let len = mode.instr_len();
        let taken = is_branch(instr) && would_branch(instr, self.flags);
        let advances = !(matches!(
            instr,
            Instr::Brk | Instr::Jmp | Instr::Jsr | Instr::Rts | Instr::Rti
        )) && !taken;
        if advances && self.pc > 0xffff - len {
            return Err(CpuError::AddrOverflow);
        }
        match instr {
            Instr::Brk => {
                return Err(CpuError::Brk);
            },
            Instr::Nop => (),

            Instr::Tax => {
                self.x = self.flags.nz(self.a);
            },
            Instr::Txa => {
                self.a = self.flags.nz(self.x);
            },
            Instr::Tay => {
                self.y = self.flags.nz(self.a);
            },
            Instr::Tya => {
                self.a = self.flags.nz(self.y);
            },
            Instr::Txs => {
                self.sp = self.x;
            },
            Instr::Tsx => {
                self.x = self.flags.nz(self.sp);
            },

            _ => {
                return Err(CpuError::BadOperand);
            },
        }
        if advances {
            self.pc = self.pc + len;
        }
        Ok(())
    }
    /// The four stack push and pop instructions.
    #[verifier::spinoff_prover]
    #[verifier::rlimit(100)]
    fn step_stack(&mut self, mem: &mut AddressSpace, instr: Instr, mode: Mode, arg: Operand) -> (r:
        Result<(), CpuError>)
        requires
            old(mem)@.wf(),
            instr == Instr::Pha || instr == Instr::Pla || instr == Instr::Php || instr == Instr::Plp,
        ensures
            ({
                let s = spec_exec_instr(*old(self), old(mem)@, instr, mode, arg);
                &&& *final(self) == s.0
                &&& final(mem)@ == s.1
                &&& r == s.2
            }),
            final(mem)@.wf(),
    {
        proof {
            reveal(spec_body_stack);
        }
        let len = mode.instr_len();
        let taken = is_branch(instr) && would_branch(instr, self.flags);
        let advances = !(matches!(
            instr,
            Instr::Brk | Instr::Jmp | Instr::Jsr | Instr::Rts | Instr::Rti
        )) && !taken;
        if advances && self.pc > 0xffff - len {
            return Err(CpuError::AddrOverflow);
        }
        match instr {
            Instr::Pha => {
                let va = self.a;
                self.push(mem, va);
            },
            Instr::Pla => {
                let v = self.pop(mem);
                self.a = self.flags.nz(v);
            },
            Instr::Php => {
                let bits = (self.flags.bits | 0x10) | 0x20;
                self.push(mem, bits);
            },
            Instr::Plp => {
                let v = self.pop(mem);
                self.flags = Flags { bits: v };
            },

            _ => {
                return Err(CpuError::BadOperand);
            },
        }
        if advances {
            self.pc = self.pc + len;
        }
        Ok(())
    }
    /// Loads and stores.
    #[verifier::spinoff_prover]
    #[verifier::rlimit(100)]
    fn step_load_store(&mut self, mem: &mut AddressSpace, instr: Instr, mode: Mode, arg: Operand) -> (r:
        Result<(), CpuError>)
        requires
            old(mem)@.wf(),
            instr == Instr::Lda || instr == Instr::Ldx || instr == Instr::Ldy || instr == Instr::Sta || instr == Instr::Stx || instr == Instr::Sty,
        ensures
            ({
                let s = spec_exec_instr(*old(self), old(mem)@, instr, mode, arg);
                &&& *final(self) == s.0
                &&& final(mem)@ == s.1
                &&& r == s.2
            }),
            final(mem)@.wf(),
    {
        proof {
            reveal(spec_body_load_store);
        }
        let len = mode.instr_len();
        let taken = is_branch(instr) && would_branch(instr, self.flags);
        let advances = !(matches!(
            instr,
            Instr::Brk | Instr::Jmp | Instr::Jsr | Instr::Rts | Instr::Rti
        )) && !taken;
        if advances && self.pc > 0xffff - len {
            return Err(CpuError::AddrOverflow);
        }
        match instr {
            Instr::Lda => {
                let v = match arg.get(self, mem) {
                    Ok(v) => v,
                    Err(e) => {
                        return Err(e);
                    },
                };
                self.a = self.flags.nz(v);
            },
            Instr::Ldx => {
                let v = match arg.get(self, mem) {
                    Ok(v) => v,
                    Err(e) => {
                        return Err(e);
                    },
                };
                self.x = self.flags.nz(v);
            },
            Instr::Ldy => {
                let v = match arg.get(self, mem) {
                    Ok(v) => v,
                    Err(e) => {
                        return Err(e);
                    },
                };
                self.y = self.flags.nz(v);
            },
            Instr::Sta => {
                let va = self.a;
                match arg.set(self, mem, va) {
                    Ok(()) => (),
                    Err(e) => {
                        return Err(e);
                    },
                }
            },
            Instr::Stx => {
                let vx = self.x;
                match arg.set(self, mem, vx) {
                    Ok(()) => (),
                    Err(e) => {
                        return Err(e);
                    },
                }
            },
            Instr::Sty => {
                let vy = self.y;
                match arg.set(self, mem, vy) {
                    Ok(()) => (),
                    Err(e) => {
                        return Err(e);
                    },
                }
            },

            _ => {
                return Err(CpuError::BadOperand);
            },
        }
        if advances {
            self.pc = self.pc + len;
        }
        Ok(())
    }
    /// The register increments and decrements.
    #[verifier::spinoff_prover]
    #[verifier::rlimit(100)]
    fn step_reg_inc_dec(&mut self, mem: &mut AddressSpace, instr: Instr, mode: Mode, arg: Operand) -> (r:
        Result<(), CpuError>)
        requires
            old(mem)@.wf(),
            instr == Instr::Inx || instr == Instr::Dex || instr == Instr::Iny || instr == Instr::Dey,
        ensures
            ({
                let s = spec_exec_instr(*old(self), old(mem)@, instr, mode, arg);
                &&& *final(self) == s.0
                &&& final(mem)@ == s.1
                &&& r == s.2
            }),
            final(mem)@.wf(),
    {
        proof {
            reveal(spec_body_reg_inc_dec);
        }
        let len = mode.instr_len();
        let taken = is_branch(instr) && would_branch(instr, self.flags);
        let advances = !(matches!(
            instr,
            Instr::Brk | Instr::Jmp | Instr::Jsr | Instr::Rts | Instr::Rti
        )) && !taken;
        if advances && self.pc > 0xffff - len {
            return Err(CpuError::AddrOverflow);
        }
        match instr {
            Instr::Inx => {
                let v = if self.x == 0xff {
                    0
                } else {
                    self.x + 1
                };
                self.x = self.flags.nz(v);
            },
            Instr::Dex => {
                let v = if self.x == 0 {
                    0xff
                } else {
                    self.x - 1
                };
                self.x = self.flags.nz(v);
            },
            Instr::Iny => {
                let v = if self.y == 0xff {
                    0
                } else {
                    self.y + 1
                };
                self.y = self.flags.nz(v);
            },
            Instr::Dey => {
                let v = if self.y == 0 {
                    0xff
                } else {
                    self.y - 1
                };
                self.y = self.flags.nz(v);
            },
            _ => {
                return Err(CpuError::BadOperand);
            },
        }
        if advances {
            self.pc = self.pc + len;
        }
        Ok(())
    }
    /// Increment through an operand.
    #[verifier::spinoff_prover]
    #[verifier::rlimit(100)]
    fn step_mem_inc(&mut self, mem: &mut AddressSpace, instr: Instr, mode: Mode, arg: Operand) -> (r:
        Result<(), CpuError>)
        requires
            old(mem)@.wf(),
            instr == Instr::Inc,
        ensures
            ({
                let s = spec_exec_instr(*old(self), old(mem)@, instr, mode, arg);
                &&& *final(self) == s.0
                &&& final(mem)@ == s.1
                &&& r == s.2
            }),
            final(mem)@.wf(),
    {
        proof {
            reveal(spec_body_mem_inc_dec);
        }
        let len = mode.instr_len();
        let taken = is_branch(instr) && would_branch(instr, self.flags);
        let advances = !(matches!(
            instr,
            Instr::Brk | Instr::Jmp | Instr::Jsr | Instr::Rts | Instr::Rti
        )) && !taken;
        if advances && self.pc > 0xffff - len {
            return Err(CpuError::AddrOverflow);
        }
        match instr {
            Instr::Inc => {
                let v = match arg.get(self, mem) {
                    Ok(v) => v,
                    Err(e) => {
                        return Err(e);
                    },
                };
                if matches!(arg, Operand::Literal { .. }) {
                    return Err(CpuError::BadOperand);
                }
                let v2 = if v == 0xff {
                    0
                } else {
                    v + 1
                };
                let _ = self.flags.nz(v2);
                match arg.set(self, mem, v2) {
                    Ok(()) => (),
                    Err(e) => {
                        return Err(e);
                    },
                }
            },
            _ => {
                return Err(CpuError::BadOperand);
            },
        }
        if advances {
            self.pc = self.pc + len;
        }
        Ok(())
    }
    /// Decrement through an operand.
    #[verifier::spinoff_prover]
    #[verifier::rlimit(100)]
    fn step_mem_dec(&mut self, mem: &mut AddressSpace, instr: Instr, mode: Mode, arg: Operand) -> (r:
        Result<(), CpuError>)
        requires
            old(mem)@.wf(),
            instr == Instr::Dec,
        ensures
            ({
                let s = spec_exec_instr(*old(self), old(mem)@, instr, mode, arg);
                &&& *final(self) == s.0
                &&& final(mem)@ == s.1
                &&& r == s.2
            }),
            final(mem)@.wf(),
    {
        proof {
            reveal(spec_body_mem_inc_dec);
        }
        let len = mode.instr_len();
        let taken = is_branch(instr) && would_branch(instr, self.flags);
        let advances = !(matches!(
            instr,
            Instr::Brk | Instr::Jmp | Instr::Jsr | Instr::Rts | Instr::Rti
        )) && !taken;
        if advances && self.pc > 0xffff - len {
            return Err(CpuError::AddrOverflow);
        }
        match instr {
            Instr::Dec => {
                let v = match arg.get(self, mem) {
                    Ok(v) => v,
                    Err(e) => {
                        return Err(e);
                    },
                };
                if matches!(arg, Operand::Literal { .. }) {
                    return Err(CpuError::BadOperand);
                }
                let v2 = if v == 0 {
                    0xff
                } else {
                    v - 1
                };
                let _ = self.flags.nz(v2);
                match arg.set(self, mem, v2) {
                    Ok(()) => (),
                    Err(e) => {
                        return Err(e);
                    },
                }
            },
            _ => {
                return Err(CpuError::BadOperand);
            },
        }
        if advances {
            self.pc = self.pc + len;
        }
        Ok(())
    }
    /// The flag set and clear instructions.
    #[verifier::spinoff_prover]
    #[verifier::rlimit(100)]
    fn step_flag(&mut self, mem: &mut AddressSpace, instr: Instr, mode: Mode, arg: Operand) -> (r:
        Result<(), CpuError>)
        requires
            old(mem)@.wf(),
            instr == Instr::Clc || instr == Instr::Sec || instr == Instr::Cli || instr == Instr::Sei || instr == Instr::Clv || instr == Instr::Cld || instr == Instr::Sed,
        ensures
            ({
                let s = spec_exec_instr(*old(self), old(mem)@, instr, mode, arg);
                &&& *final(self) == s.0
                &&& final(mem)@ == s.1
                &&& r == s.2
            }),
            final(mem)@.wf(),
    {
        proof {
            reveal(spec_body_flag);
        }
        let len = mode.instr_len();
        let taken = is_branch(instr) && would_branch(instr, self.flags);
        let advances = !(matches!(
            instr,
            Instr::Brk | Instr::Jmp | Instr::Jsr | Instr::Rts | Instr::Rti
        )) && !taken;
        if advances && self.pc > 0xffff - len {
            return Err(CpuError::AddrOverflow);
        }
        match instr {
            Instr::Clc => self.flags.clear(Flag::Carry),
            Instr::Sec => self.flags.set(Flag::Carry),
            Instr::Cli => self.flags.clear(Flag::Interrupt),
            Instr::Sei => self.flags.set(Flag::Interrupt),
            Instr::Clv => self.flags.clear(Flag::Overflow),
            Instr::Cld => self.flags.clear(Flag::Decimal),
            Instr::Sed => self.flags.set(Flag::Decimal),

            _ => {
                return Err(CpuError::BadOperand);
            },
        }
        if advances {
            self.pc = self.pc + len;
        }
        Ok(())
    }
    /// The three bitwise accumulator instructions.
    #[verifier::spinoff_prover]
    #[verifier::rlimit(100)]
    fn step_logic(&mut self, mem: &mut AddressSpace, instr: Instr, mode: Mode, arg: Operand) -> (r:
        Result<(), CpuError>)
        requires
            old(mem)@.wf(),
            instr == Instr::And || instr == Instr::Ora || instr == Instr::Eor,
        ensures
            ({
                let s = spec_exec_instr(*old(self), old(mem)@, instr, mode, arg);
                &&& *final(self) == s.0
                &&& final(mem)@ == s.1
                &&& r == s.2
            }),
            final(mem)@.wf(),
    {
        proof {
            reveal(spec_body_logic);
        }
        let len = mode.instr_len();
        let taken = is_branch(instr) && would_branch(instr, self.flags);
        let advances = !(matches!(
            instr,
            Instr::Brk | Instr::Jmp | Instr::Jsr | Instr::Rts | Instr::Rti
        )) && !taken;
        if advances && self.pc > 0xffff - len {
            return Err(CpuError::AddrOverflow);
        }
        match instr {
            Instr::And => {
                let v = match arg.get(self, mem) {
                    Ok(v) => v,
                    Err(e) => {
                        return Err(e);
                    },
                };
                let v2 = self.a & v;
                self.a = self.flags.nz(v2);
            },
            Instr::Ora => {
                let v = match arg.get(self, mem) {
                    Ok(v) => v,
                    Err(e) => {
                        return Err(e);
                    },
                };
                let v2 = self.a | v;
                self.a = self.flags.nz(v2);
            },
            Instr::Eor => {
                let v = match arg.get(self, mem) {
                    Ok(v) => v,
                    Err(e) => {
                        return Err(e);
                    },
                };
                let v2 = self.a ^ v;
                self.a = self.flags.nz(v2);
            },

            _ => {
                return Err(CpuError::BadOperand);
            },
        }
        if advances {
            self.pc = self.pc + len;
        }
        Ok(())
    }
    /// Add, subtract, compare and BIT.
    #[verifier::spinoff_prover]
    #[verifier::rlimit(100)]
    fn step_arith(&mut self, mem: &mut AddressSpace, instr: Instr, mode: Mode, arg: Operand) -> (r:
        Result<(), CpuError>)
        requires
            old(mem)@.wf(),
            instr == Instr::Adc || instr == Instr::Sbc || instr == Instr::Cmp || instr == Instr::Cpx || instr == Instr::Cpy || instr == Instr::Bit,
        ensures
            ({
                let s = spec_exec_instr(*old(self), old(mem)@, instr, mode, arg);
                &&& *final(self) == s.0
                &&& final(mem)@ == s.1
                &&& r == s.2
            }),
            final(mem)@.wf(),
    {
        proof {
            reveal(spec_body_arith);
        }
        let len = mode.instr_len();
        let taken = is_branch(instr) && would_branch(instr, self.flags);
        let advances = !(matches!(
            instr,
            Instr::Brk | Instr::Jmp | Instr::Jsr | Instr::Rts | Instr::Rti
        )) && !taken;
        if advances && self.pc > 0xffff - len {
            return Err(CpuError::AddrOverflow);
        }
        match instr {
            Instr::Adc => {
                let v = match arg.get(self, mem) {
                    Ok(v) => v,
                    Err(e) => {
                        return Err(e);
                    },
                };
                let va = self.a;
                self.adc(va, v);
            },
            Instr::Sbc => {
                let v = match arg.get(self, mem) {
                    Ok(v) => v,
                    Err(e) => {
                        return Err(e);
                    },
                };
                let va = self.a;
                self.adc(va, !v);
            },
            Instr::Cmp => {
                let v = match arg.get(self, mem) {
                    Ok(v) => v,
                    Err(e) => {
                        return Err(e);
                    },
                };
                let va = self.a;
                self.cmp(va, v);
            },
            Instr::Cpx => {
                let v = match arg.get(self, mem) {
                    Ok(v) => v,
                    Err(e) => {
                        return Err(e);
                    },
                };
                let vx = self.x;
                self.cmp(vx, v);
            },
            Instr::Cpy => {
                let v = match arg.get(self, mem) {
                    Ok(v) => v,
                    Err(e) => {
                        return Err(e);
                    },
                };
                let vy = self.y;
                self.cmp(vy, v);
            },

            Instr::Bit => {
                let v = match arg.get(self, mem) {
                    Ok(v) => v,
                    Err(e) => {
                        return Err(e);
                    },
                };
                let va = self.a;
                self.flags.assign(Flag::Negative, v & 0x80 != 0);
                self.flags.assign(Flag::Overflow, v & 0x40 != 0);
                self.flags.assign(Flag::Zero, v & va == 0);
            },

            _ => {
                return Err(CpuError::BadOperand);
            },
        }
        if advances {
            self.pc = self.pc + len;
        }
        Ok(())
    }
    /// The four shifts and rotates.
    #[verifier::spinoff_prover]
    #[verifier::rlimit(100)]
    fn step_shift(&mut self, mem: &mut AddressSpace, instr: Instr, mode: Mode, arg: Operand) -> (r:
        Result<(), CpuError>)
        requires
            old(mem)@.wf(),
            instr == Instr::Asl || instr == Instr::Lsr || instr == Instr::Rol || instr == Instr::Ror,
        ensures
            ({
                let s = spec_exec_instr(*old(self), old(mem)@, instr, mode, arg);
                &&& *final(self) == s.0
                &&& final(mem)@ == s.1
                &&& r == s.2
            }),
            final(mem)@.wf(),
    {
        proof {
            reveal(spec_body_shift);
        }
        let len = mode.instr_len();
        let taken = is_branch(instr) && would_branch(instr, self.flags);
        let advances = !(matches!(
            instr,
            Instr::Brk | Instr::Jmp | Instr::Jsr | Instr::Rts | Instr::Rti
        )) && !taken;
        if advances && self.pc > 0xffff - len {
            return Err(CpuError::AddrOverflow);
        }
        match instr {
            Instr::Asl => {
                let v = match arg.get(self, mem) {
                    Ok(v) => v,
                    Err(e) => {
                        return Err(e);
                    },
                };
                if matches!(arg, Operand::Literal { .. }) {
                    return Err(CpuError::BadOperand);
                }
                self.flags.clear(Flag::Carry);
                let out = self.rol(v);
                match arg.set(self, mem, out) {
                    Ok(()) => (),
                    Err(e) => {
                        return Err(e);
                    },
                }
            },
            Instr::Lsr => {
                let v = match arg.get(self, mem) {
                    Ok(v) => v,
                    Err(e) => {
                        return Err(e);
                    },
                };
                if matches!(arg, Operand::Literal { .. }) {
                    return Err(CpuError::BadOperand);
                }
                self.flags.clear(Flag::Carry);
                let out = self.ror(v);
                match arg.set(self, mem, out) {
                    Ok(()) => (),
                    Err(e) => {
                        return Err(e);
                    },
                }
            },
            Instr::Rol => {
                let v = match arg.get(self, mem) {
                    Ok(v) => v,
                    Err(e) => {
                        return Err(e);
                    },
                };
                if matches!(arg, Operand::Literal { .. }) {
                    return Err(CpuError::BadOperand);
                }
                let out = self.rol(v);
                match arg.set(self, mem, out) {
                    Ok(()) => (),
                    Err(e) => {
                        return Err(e);
                    },
                }
            },
            Instr::Ror => {
                let v = match arg.get(self, mem) {
                    Ok(v) => v,
                    Err(e) => {
                        return Err(e);
                    },
                };
                if matches!(arg, Operand::Literal { .. }) {
                    return Err(CpuError::BadOperand);
                }
                let out = self.ror(v);
                match arg.set(self, mem, out) {
                    Ok(()) => (),
                    Err(e) => {
                        return Err(e);
                    },
                }
            },

            _ => {
                return Err(CpuError::BadOperand);
            },
        }
        if advances {
            self.pc = self.pc + len;
        }
        Ok(())
    }
    /// The eight conditional branches.
    #[verifier::spinoff_prover]
    #[verifier::rlimit(100)]
    fn step_branch(&mut self, mem: &mut AddressSpace, instr: Instr, mode: Mode, arg: Operand) -> (r:
        Result<(), CpuError>)
        requires
            old(mem)@.wf(),
            instr == Instr::Bpl || instr == Instr::Bmi || instr == Instr::Bvc || instr == Instr::Bvs || instr == Instr::Bcc || instr == Instr::Bcs || instr == Instr::Bne || instr == Instr::Beq,
        ensures
            ({
                let s = spec_exec_instr(*old(self), old(mem)@, instr, mode, arg);
                &&& *final(self) == s.0
                &&& final(mem)@ == s.1
                &&& r == s.2
            }),
            final(mem)@.wf(),
    {
        proof {
            reveal(spec_body_branch);
        }
        let len = mode.instr_len();
        let taken = is_branch(instr) && would_branch(instr, self.flags);
        let advances = !(matches!(
            instr,
            Instr::Brk | Instr::Jmp | Instr::Jsr | Instr::Rts | Instr::Rti
        )) && !taken;
        if advances && self.pc > 0xffff - len {
            return Err(CpuError::AddrOverflow);
        }
        match instr {
            Instr::Bpl | Instr::Bmi | Instr::Bvc | Instr::Bvs | Instr::Bcc | Instr::Bcs
                | Instr::Bne | Instr::Beq => {
                if taken {
                    match arg {
                        Operand::Memory { addr } => {
                            self.pc = addr;
                        },
                        _ => {
                            return Err(CpuError::BadOperand);
                        },
                    }
                }
            },

            _ => {
                return Err(CpuError::BadOperand);
            },
        }
        if advances {
            self.pc = self.pc + len;
        }
        Ok(())
    }
    /// Jumps, subroutine call and the two returns.
    #[verifier::spinoff_prover]
    #[verifier::rlimit(100)]
    fn step_jump(&mut self, mem: &mut AddressSpace, instr: Instr, mode: Mode, arg: Operand) -> (r:
        Result<(), CpuError>)
        requires
            old(mem)@.wf(),
            instr == Instr::Jmp || instr == Instr::Jsr || instr == Instr::Rts || instr == Instr::Rti,
        ensures
            ({
                let s = spec_exec_instr(*old(self), old(mem)@, instr, mode, arg);
                &&& *final(self) == s.0
                &&& final(mem)@ == s.1
                &&& r == s.2
            }),
            final(mem)@.wf(),
    {
        proof {
            reveal(spec_body_jump);
        }
        let len = mode.instr_len();
        let taken = is_branch(instr) && would_branch(instr, self.flags);
        let advances = !(matches!(
            instr,
            Instr::Brk | Instr::Jmp | Instr::Jsr | Instr::Rts | Instr::Rti
        )) && !taken;
        if advances && self.pc > 0xffff - len {
            return Err(CpuError::AddrOverflow);
        }
        match instr {
            Instr::Jmp => {
                match arg {
                    Operand::Memory { addr } => {
                        self.pc = addr;
                    },
                    _ => {
                        return Err(CpuError::BadOperand);
                    },
                }
            },
            Instr::Jsr => {
                if self.pc > 0xfffd {
                    return Err(CpuError::AddrOverflow);
                }
                let target = match arg {
                    Operand::Memory { addr } => addr,
                    _ => {
                        return Err(CpuError::BadOperand);
                    },
                };
                let return_addr_minus_one = self.pc + 2;
                self.push2(mem, return_addr_minus_one);
                self.pc = target;
            },
            Instr::Rts => {
                let sp1 = if self.sp == 0xff {
                    0
                } else {
                    self.sp + 1
                };
                let sp2 = if sp1 == 0xff {
                    0
                } else {
                    sp1 + 1
                };
                let lo = mem.read(0x100 + sp1 as u16);
                let hi = mem.read(0x100 + sp2 as u16);
                let w = lo as u16 + hi as u16 * 256;
                if w == 0xffff {
                    return Err(CpuError::AddrOverflow);
                }
                self.sp = sp2;
                self.pc = w + 1;
            },
            Instr::Rti => {
                let v = self.pop(mem);
                self.flags = Flags { bits: v };
                // Note that unlike RTS, there is no off-by-one here.
                let w = self.pop2(mem);
                self.pc = w;
            },
            _ => {
                return Err(CpuError::BadOperand);
            },
        }
        if advances {
            self.pc = self.pc + len;
        }
        Ok(())
    }

    /// Execute the instruction at the program counter.
    pub fn step(&mut self, mem: &mut AddressSpace) -> (r: Result<(), CpuError>)
        requires
            old(mem)@.wf(),
        ensures
            ({
                let s = spec_step(*old(self), old(mem)@);
                &&& *final(self) == s.0
                &&& final(mem)@ == s.1
                &&& r == s.2
            }),
            final(mem)@.wf(),
    {
        let (instr, mode, arg) = match self.next_instr(mem) {
            Ok(t) => t,
            Err(e) => {
                return Err(e);
            },
        };
        match instr {
            Instr::Brk | Instr::Nop | Instr::Tax | Instr::Txa | Instr::Tay | Instr::Tya | Instr::Txs | Instr::Tsx => self.step_reg(mem, instr, mode, arg),
            Instr::Pha | Instr::Pla | Instr::Php | Instr::Plp => self.step_stack(mem, instr, mode, arg),
            Instr::Lda | Instr::Ldx | Instr::Ldy | Instr::Sta | Instr::Stx | Instr::Sty => self.step_load_store(mem, instr, mode, arg),
            Instr::Inx | Instr::Dex | Instr::Iny | Instr::Dey => self.step_reg_inc_dec(mem, instr, mode, arg),
            Instr::Inc => self.step_mem_inc(mem, instr, mode, arg),
            Instr::Dec => self.step_mem_dec(mem, instr, mode, arg),
            Instr::Clc | Instr::Sec | Instr::Cli | Instr::Sei | Instr::Clv | Instr::Cld | Instr::Sed => self.step_flag(mem, instr, mode, arg),
            Instr::And | Instr::Ora | Instr::Eor => self.step_logic(mem, instr, mode, arg),
            Instr::Adc | Instr::Sbc | Instr::Cmp | Instr::Cpx | Instr::Cpy | Instr::Bit => self.step_arith(mem, instr, mode, arg),
            Instr::Asl | Instr::Lsr | Instr::Rol | Instr::Ror => self.step_shift(mem, instr, mode, arg),
            Instr::Bpl | Instr::Bmi | Instr::Bvc | Instr::Bvs | Instr::Bcc | Instr::Bcs | Instr::Bne | Instr::Beq => self.step_branch(mem, instr, mode, arg),
            Instr::Jmp | Instr::Jsr | Instr::Rts | Instr::Rti => self.step_jump(mem, instr, mode, arg),
        }
    }
}


/// Whether the next instruction is an infinite loop in place: an
/// absolute JMP to the current program counter, or a taken branch with
/// displacement back to its own opcode.
pub open spec fn spec_would_halt(c: Cpu, m: MemV) -> bool {
    match spec_next_instr(c, m).0 {
        Err(_) => false,
        Ok((instr, mode, arg)) => {
            let abs_jmp = instr == Instr::Jmp && mode == Mode::Absolute;
            let active_branch = mode == Mode::Relative && spec_is_branch(instr)
                && spec_would_branch(instr, c.flags);
            (abs_jmp || active_branch) && match arg {
                Operand::Memory { addr } => addr == c.pc,
                _ => false,
            }
        },
    }
}

/// A snapshot of the CPU and the decoded next instruction, for a
/// frontend to format as a diagnostic.
pub struct DbgNextInstr {
    pub cpu: Cpu,
    pub instr: Instr,
    pub mode: Mode,
    pub operand: Operand,
    pub next_instr_bytes: Vec<u8>,
}

/// The raw bytes of the next instruction, read front to back, and the
/// memory state after those reads; bytes past the top of the address
/// space are left out.
pub open spec fn spec_dbg_bytes(m: MemV, pc: u16, len: u16) -> (Seq<u8>, MemV) {
    let b0 = spec_read_val(m, pc);
    let m1 = spec_read_post(m, pc);
    if len >= 2 && pc < 0xffff {
        let b1 = spec_read_val(m1, (pc + 1) as u16);
        let m2 = spec_read_post(m1, (pc + 1) as u16);
        if len >= 3 && pc < 0xfffe {
            let b2 = spec_read_val(m2, (pc + 2) as u16);
            let m3 = spec_read_post(m2, (pc + 2) as u16);
            (seq![b0, b1, b2], m3)
        } else {
            (seq![b0, b1], m2)
        }
    } else {
        (seq![b0], m1)
    }
}

impl Cpu {
    /// Detect a "halt" instruction: an absolute JMP to the current
    /// program counter, or a taken branch straight back to itself. This
    /// is a diagnostic: it never changes the CPU, though the fetch reads
    /// can have I/O side effects on memory.
    pub fn would_halt(&self, mem: &mut AddressSpace) -> (r: bool)
        requires
            old(mem)@.wf(),
        ensures
            r == spec_would_halt(*self, old(mem)@),
            final(mem)@ == spec_next_instr(*self, old(mem)@).1,
            final(mem)@.wf(),
    {
        let (instr, mode, arg) = match self.next_instr(mem) {
            Ok(t) => t,
            Err(_) => {
                return false;
            },
        };
        let abs_jmp = matches!(instr, Instr::Jmp) && matches!(mode, Mode::Absolute);
        let active_branch = matches!(mode, Mode::Relative) && is_branch(instr) && would_branch(
            instr,
            self.flags,
        );
        if abs_jmp || active_branch {
            match arg {
                Operand::Memory { addr } => addr == self.pc,
                _ => false,
            }
        } else {
            false
        }
    }

    /// Snapshot the CPU and the decoded next instruction for display.
    pub fn dbg_next_instr(&self, mem: &mut AddressSpace) -> (r: Result<DbgNextInstr, CpuError>)
        requires
            old(mem)@.wf(),
        ensures
            ({
                let f = spec_next_instr(*self, old(mem)@);
                match f.0 {
                    Err(e) => r == Err::<DbgNextInstr, CpuError>(e) && final(mem)@ == f.1,
                    Ok((instr, mode, arg)) => match r {
                        Err(_) => false,
                        Ok(d) => {
                            let bs = spec_dbg_bytes(f.1, self.pc, spec_instr_len(mode));
                            &&& d.cpu == *self
                            &&& d.instr == instr
                            &&& d.mode == mode
                            &&& d.operand == arg
                            &&& d.next_instr_bytes@ == bs.0
                            &&& final(mem)@ == bs.1
                        },
                    },
                }
            }),
            final(mem)@.wf(),
    {
        let (instr, mode, arg) = match self.next_instr(mem) {
            Ok(t) => t,
            Err(e) => {
                return Err(e);
            },
        };
        let len = mode.instr_len();
        let mut next_instr_bytes: Vec<u8> = Vec::new();
        next_instr_bytes.push(mem.read(self.pc));
        if len >= 2 && self.pc < 0xffff {
            next_instr_bytes.push(mem.read(self.pc + 1));
            if len >= 3 && self.pc < 0xfffe {
                next_instr_bytes.push(mem.read(self.pc + 2));
            }
        }
        proof {
            let bs = spec_dbg_bytes(spec_next_instr(*self, old(mem)@).1, self.pc, spec_instr_len(mode));
            assert(next_instr_bytes@ =~= bs.0);
        }
        Ok(DbgNextInstr { cpu: *self, instr, mode, operand: arg, next_instr_bytes })
    }
}

/// Popping right after pushing yields the pushed byte and restores the
/// registers, the stack pointer included.
pub proof fn lemma_push_pop(c: Cpu, m: MemV, value: u8)
    requires
        m.wf(),
    ensures
        ({
            let p = spec_push(c, m, value);
            let q = spec_pop(p.0, p.1);
            &&& q.2 == value
            &&& q.0 == c
            &&& q.1 == p.1
        }),
{
    let p = spec_push(c, m, value);
    assert(((((c.sp + 256) - 1) % 256) + 1) % 256 == c.sp);
    crate::memory::lemma_ram_write_read(m, (0x100 + c.sp) as u16, value);
}

/// Popping a word right after pushing it yields the word back and
/// restores the registers, the stack pointer included.
pub proof fn lemma_push2_pop2(c: Cpu, m: MemV, word: u16)
    requires
        m.wf(),
    ensures
        ({
            let p = spec_push2(c, m, word);
            let q = spec_pop2(p.0, p.1);
            &&& q.2 == word
            &&& q.0 == c
            &&& q.1 == p.1
        }),
{
    let hi = (word / 256) as u8;
    let lo = (word % 256) as u8;
    let a_hi = (0x100 + c.sp) as u16;
    let sp1 = (((c.sp + 256) - 1) % 256) as u8;
    let a_lo = (0x100 + sp1) as u16;
    assert(a_hi != a_lo);
    assert(lo + hi * 256 == word);
}

/// Pushing a word is exactly pushing its high byte and then its low
/// byte, and it lays the two bytes out little-endian in the stack page.
pub proof fn lemma_push2_layout(c: Cpu, m: MemV, word: u16)
    requires
        m.wf(),
    ensures
        ({
            let hi_push = spec_push(c, m, (word / 256) as u8);
            spec_push2(c, m, word) == spec_push(hi_push.0, hi_push.1, (word % 256) as u8)
        }),
        ({
            let p = spec_push2(c, m, word);
            let lo_addr = 0x100 + ((c.sp + 256) - 1) % 256;
            &&& p.1.main_ram[lo_addr] == word % 256
            &&& p.1.main_ram[0x100 + c.sp] == word / 256
        }),
{
    assert(0x100 + ((c.sp + 256) - 1) % 256 != 0x100 + c.sp);
}

/// A successful step advances the program counter by exactly the
/// instruction's length, unless the instruction is JMP, JSR, RTS, RTI,
/// BRK, or a taken branch.
pub proof fn lemma_step_pc_advance(c: Cpu, m: MemV, instr: Instr, mode: Mode, arg: Operand)
    requires
        spec_next_instr(c, m).0 == Ok::<(Instr, Mode, Operand), CpuError>((instr, mode, arg)),
        instr != Instr::Jmp,
        instr != Instr::Jsr,
        instr != Instr::Rts,
        instr != Instr::Rti,
        instr != Instr::Brk,
        !(spec_is_branch(instr) && spec_would_branch(instr, c.flags)),
        spec_step(c, m).2 is Ok,
    ensures
        spec_step(c, m).0.pc == c.pc + spec_instr_len(mode),
{
}

/// An absolute JMP pointing at its own address is recognised as a halt.
pub proof fn lemma_would_halt_jmp(c: Cpu, m: MemV)
    requires
        m.wf(),
        c.pc + 2 < 0xc000,
        m.main_ram[c.pc as int] == 0x4c,
        m.main_ram[c.pc + 1] == c.pc % 256,
        m.main_ram[c.pc + 2] == c.pc / 256,
    ensures
        spec_would_halt(c, m),
{
    reveal(instr::spec_decode);
    reveal(operand::spec_operand);
    reveal(operand::spec_operand_mode);
    assert(spec_read_val(m, c.pc) == 0x4c);
    assert(c.pc % 256 + (c.pc / 256) * 256 == c.pc);
}

/// A taken branch with displacement -2, pointing back at its own
/// opcode, is recognised as a halt.
pub proof fn lemma_would_halt_branch(c: Cpu, m: MemV, instr: Instr)
    requires
        m.wf(),
        c.pc + 1 < 0xc000,
        instr::spec_decode(m.main_ram[c.pc as int]) == Some((instr, Mode::Relative)),
        spec_is_branch(instr),
        spec_would_branch(instr, c.flags),
        m.main_ram[c.pc + 1] == 0xfe,
    ensures
        spec_would_halt(c, m),
{
    reveal(operand::spec_operand);
    reveal(operand::spec_operand_mode);
    assert(spec_read_val(m, c.pc) == m.main_ram[c.pc as int]);
    assert((c.pc + 2) - (0x100 - 0xfe) == c.pc);
}

/// INX wraps: from $FF it yields 0 and sets the zero flag; from $7F it
/// yields $80 and sets the negative flag.
pub proof fn lemma_inx(c: Cpu, m: MemV)
    requires
        m.wf(),
        c.pc < 0xc000,
        m.main_ram[c.pc as int] == 0xe8,
    ensures
        spec_step(c, m).2 is Ok,
        spec_step(c, m).0.x == (c.x + 1) % 256,
        spec_step(c, m).0.flags.spec_is_set(Flag::Zero) <==> c.x == 0xff,
        spec_step(c, m).0.flags.spec_is_set(Flag::Negative) <==> (c.x + 1) % 256 >= 0x80,
        spec_step(c, m).0.pc == c.pc + 1,
{
    reveal(instr::spec_decode);
    reveal(operand::spec_operand);
    reveal(operand::spec_operand_mode);
    reveal(spec_body_reg_inc_dec);
    let v = ((c.x + 1) % 256) as u8;
    flags::lemma_nz_bits(c.flags.bits, v);
}


/// PHA then PLA leaves the accumulator as it was and restores the stack
/// pointer, whatever byte was pushed. The two opcodes must sit in RAM
/// and the stack slot must not overlap them.
pub proof fn lemma_pha_pla(c: Cpu, m: MemV)
    requires
        m.wf(),
        c.pc + 1 < 0xc000,
        m.main_ram[c.pc as int] == 0x48,
        m.main_ram[c.pc + 1] == 0x68,
        0x100 + c.sp != c.pc,
        0x100 + c.sp != c.pc + 1,
    ensures
        ({
            let s1 = spec_step(c, m);
            let s2 = spec_step(s1.0, s1.1);
            &&& s1.2 is Ok
            &&& s2.2 is Ok
            &&& s2.0.a == c.a
            &&& s2.0.sp == c.sp
            &&& s2.0.pc == c.pc + 2
        }),
{
    reveal(instr::spec_decode);
    reveal(operand::spec_operand);
    reveal(operand::spec_operand_mode);
    reveal(spec_body_stack);
    let s1 = spec_step(c, m);
    assert(spec_read_val(m, c.pc) == 0x48);
    let p = spec_push(c, m, c.a);
    assert(s1.2 is Ok);
    assert(s1.0 == Cpu { pc: (c.pc + 1) as u16, sp: p.0.sp, ..c });
    assert(s1.1 == p.1);
    assert(p.1.main_ram[c.pc + 1] == 0x68);
    let s2 = spec_step(s1.0, s1.1);
    assert(spec_read_val(p.1, (c.pc + 1) as u16) == 0x68);
    let q = spec_pop(Cpu { pc: (c.pc + 1) as u16, sp: p.0.sp, ..c }, p.1);
    assert(((((c.sp + 256) - 1) % 256) + 1) % 256 == c.sp);
    assert(q.2 == p.1.main_ram[0x100 + c.sp]);
    assert(q.2 == c.a);
    assert(s2.2 is Ok);
}


/// The CPU and memory after pushing a whole sequence of bytes, first
/// element first.
pub open spec fn spec_push_all(c: Cpu, m: MemV, vs: Seq<u8>) -> (Cpu, MemV)
    decreases vs.len(),
{
    if vs.len() == 0 {
        (c, m)
    } else {
        let p = spec_push(c, m, vs[0]);
        spec_push_all(p.0, p.1, vs.skip(1))
    }
}

/// The CPU, memory and popped bytes after `n` pops, in pop order.
pub open spec fn spec_pop_all(c: Cpu, m: MemV, n: nat) -> (Cpu, MemV, Seq<u8>)
    decreases n,
{
    if n == 0 {
        (c, m, Seq::empty())
    } else {
        let p = spec_pop(c, m);
        let r = spec_pop_all(p.0, p.1, (n - 1) as nat);
        (r.0, r.1, seq![p.2] + r.2)
    }
}

/// Pushing a sequence is pushing all but the last byte, then the last.
proof fn lemma_push_all_snoc(c: Cpu, m: MemV, vs: Seq<u8>, v: u8)
    ensures
        spec_push_all(c, m, vs.push(v)) == ({
            let s = spec_push_all(c, m, vs);
            spec_push(s.0, s.1, v)
        }),
    decreases vs.len(),
{
    reveal_with_fuel(spec_push_all, 3);
    if vs.len() == 0 {
        assert(vs.push(v)[0] == v);
        assert(vs.push(v).skip(1) =~= Seq::<u8>::empty());
    } else {
        let p = spec_push(c, m, vs[0]);
        assert(vs.push(v)[0] == vs[0]);
        assert(vs.push(v).skip(1) =~= vs.skip(1).push(v));
        lemma_push_all_snoc(p.0, p.1, vs.skip(1), v);
    }
}

/// Pushing any sequence keeps the memory well formed: every push
/// writes one RAM byte.
proof fn lemma_push_all_wf(c: Cpu, m: MemV, vs: Seq<u8>)
    requires
        m.wf(),
    ensures
        spec_push_all(c, m, vs).1.wf(),
    decreases vs.len(),
{
    if vs.len() > 0 {
        let p = spec_push(c, m, vs[0]);
        assert(p.1.wf());
        lemma_push_all_wf(p.0, p.1, vs.skip(1));
    }
}

/// Pops never change memory, and their results depend only on the
/// bytes in the stack slots they read.
proof fn lemma_pop_all_agree(c: Cpu, m1: MemV, m2: MemV, n: nat)
    requires
        m1.wf(),
        m2.wf(),
        n <= 256,
        forall|j: int|
            1 <= j <= n ==> m1.main_ram[0x100 + (#[trigger] ((c.sp + j) % 256))] == m2.main_ram[
                0x100 + ((c.sp + j) % 256)],
    ensures
        spec_pop_all(c, m1, n).0 == spec_pop_all(c, m2, n).0,
        spec_pop_all(c, m1, n).1 == m1,
        spec_pop_all(c, m2, n).1 == m2,
        spec_pop_all(c, m1, n).2 == spec_pop_all(c, m2, n).2,
    decreases n,
{
    if n > 0 {
        let sp1 = ((c.sp + 1) % 256) as u8;
        let p1 = spec_pop(c, m1);
        let p2 = spec_pop(c, m2);
        assert(p1.2 == p2.2);
        assert(p1.0 == p2.0);
        assert(forall|j: int|
            1 <= j <= n - 1 ==> #[trigger] ((sp1 + j) % 256) == (c.sp + (j + 1)) % 256);
        lemma_pop_all_agree(p1.0, m1, m2, (n - 1) as nat);
    }
}

/// Pushing any sequence of bytes and then popping just as many yields
/// exactly those bytes in reverse and restores every register, the
/// stack pointer included, as long as the sequence fits in the
/// 256-byte stack page. (Pushing more wraps around and overwrites the
/// oldest slots, so the earliest bytes cannot come back.)
pub proof fn lemma_push_pop_seq(c: Cpu, m: MemV, vs: Seq<u8>)
    requires
        m.wf(),
        1 <= vs.len() <= 256,
    ensures
        ({
            let s = spec_push_all(c, m, vs);
            let t = spec_pop_all(s.0, s.1, vs.len());
            &&& t.2 == vs.reverse()
            &&& t.0 == c
            &&& t.1 == s.1
        }),
    decreases vs.len(),
{
    reveal_with_fuel(spec_pop_all, 3);
    reveal_with_fuel(spec_push_all, 3);
    let w = vs.drop_last();
    let v = vs.last();
    assert(w.push(v) =~= vs);
    lemma_push_all_snoc(c, m, w, v);
    lemma_push_all_wf(c, m, w);
    let s_pre = spec_push_all(c, m, w);
    let s = spec_push(s_pre.0, s_pre.1, v);
    lemma_push_pop(s_pre.0, s_pre.1, v);
    let p = spec_pop(s.0, s.1);
    assert(p.0 == s_pre.0 && p.2 == v && p.1 == s.1);
    assert(s.1.wf());
    if vs.len() == 1 {
        assert(spec_pop_all(s.0, s.1, 1).2 =~= vs.reverse());
    } else {
        lemma_push_pop_seq(c, m, w);
        // The last push writes below the slots the remaining pops
        // read, so those pops see the same bytes.
        assert(forall|j: int|
            1 <= j <= w.len() ==> #[trigger] ((s_pre.0.sp + j) % 256) != s_pre.0.sp);
        assert(forall|j: int|
            1 <= j <= w.len() ==> s_pre.1.main_ram[0x100 + (#[trigger] ((s_pre.0.sp + j) % 256))]
                == s.1.main_ram[0x100 + ((s_pre.0.sp + j) % 256)]);
        lemma_pop_all_agree(s_pre.0, s_pre.1, s.1, w.len());
        let t = spec_pop_all(s.0, s.1, vs.len());
        assert(t.2 =~= seq![v] + spec_pop_all(s_pre.0, s.1, w.len()).2);
        assert(seq![v] + w.reverse() =~= vs.reverse());
    }
}

} // verus!
