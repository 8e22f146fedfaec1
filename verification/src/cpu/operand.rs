//! Resolving an addressing mode to the place an instruction's operand
//! lives: a memory address, an immediate byte, the accumulator, or
//! nowhere.

use vstd::prelude::*;

use crate::cpu::instr::{spec_instr_len, Mode};
use crate::cpu::{Cpu, CpuError};
use crate::memory::{spec_read_post, spec_read_val, AddressSpace, MemV};

verus! {

/// Where an instruction's operand lives.
#[derive(Clone, Copy, Debug, PartialEq, Eq, Structural)]
pub enum Operand {
    Memory { addr: u16 },
    Literal { value: u8 },
    Accumulator,
    Nothing,
}

/// The little-endian word read at `addr` and `addr + 1`.
pub open spec fn spec_read_word_val(m: MemV, addr: u16) -> u16 {
    (spec_read_val(m, addr) + spec_read_val(spec_read_post(m, addr), (addr + 1) as u16) * 256) as u16
}

/// The memory state after reading the word at `addr` and `addr + 1`.
pub open spec fn spec_read_word_post(m: MemV, addr: u16) -> MemV {
    spec_read_post(spec_read_post(m, addr), (addr + 1) as u16)
}

/// Read a little-endian word, with any I/O side effects of the two reads.
pub fn read_word(mem: &mut AddressSpace, addr: u16) -> (r: u16)
    requires
        old(mem)@.wf(),
        addr < 0xffff,
    ensures
        r == spec_read_word_val(old(mem)@, addr),
        final(mem)@ == spec_read_word_post(old(mem)@, addr),
        final(mem)@.wf(),
{
    let lo = mem.read(addr);
    let hi = mem.read(addr + 1);
    lo as u16 + hi as u16 * 256
}

/// What resolving the given addressing mode at the current program
/// counter produces, and the memory state after the argument reads.
#[verifier::opaque]
pub open spec fn spec_operand(c: Cpu, m: MemV, mode: Mode) -> (Result<Operand, CpuError>, MemV) {
    let arg_len = spec_instr_len(mode) - 1;
    if arg_len == 1 && c.pc == 0xffff {
        (Err(CpuError::AddrOverflow), m)
    } else if arg_len == 2 && c.pc >= 0xfffe {
        (Err(CpuError::AddrOverflow), m)
    } else {
        let arg: u16 = if arg_len == 1 {
            spec_read_val(m, (c.pc + 1) as u16) as u16
        } else if arg_len == 2 {
            spec_read_word_val(m, (c.pc + 1) as u16)
        } else {
            0
        };
        let m1 = if arg_len == 1 {
            spec_read_post(m, (c.pc + 1) as u16)
        } else if arg_len == 2 {
            spec_read_word_post(m, (c.pc + 1) as u16)
        } else {
            m
        };
        spec_operand_mode(c, m1, mode, arg)
    }
}

/// The mode dispatch itself, once the argument bytes have been read.
#[verifier::opaque]
pub open spec fn spec_operand_mode(c: Cpu, m: MemV, mode: Mode, arg: u16) -> (Result<
    Operand,
    CpuError,
>, MemV) {
    match mode {
        Mode::Implied => (Ok(Operand::Nothing), m),
        Mode::Accumulator => (Ok(Operand::Accumulator), m),
        Mode::Immediate => (Ok(Operand::Literal { value: (arg % 256) as u8 }), m),
        Mode::Relative => {
            if c.pc + 2 > 0xffff {
                (Err(CpuError::AddrOverflow), m)
            } else {
                let base = c.pc + 2;
                if arg < 0x80 {
                    if base + arg > 0xffff {
                        (Err(CpuError::AddrOverflow), m)
                    } else {
                        (Ok(Operand::Memory { addr: (base + arg) as u16 }), m)
                    }
                } else {
                    if base < 0x100 - arg {
                        (Err(CpuError::AddrOverflow), m)
                    } else {
                        (Ok(Operand::Memory { addr: (base - (0x100 - arg)) as u16 }), m)
                    }
                }
            }
        },
        Mode::ZeroPage => (Ok(Operand::Memory { addr: arg }), m),
        Mode::ZeroPageX => (Ok(Operand::Memory { addr: ((arg % 256 + c.x) % 256) as u16 }), m),
        Mode::ZeroPageY => (Ok(Operand::Memory { addr: ((arg % 256 + c.y) % 256) as u16 }), m),
        Mode::Absolute => (Ok(Operand::Memory { addr: arg }), m),
        Mode::AbsoluteX => {
            if arg + c.x > 0xffff {
                (Err(CpuError::AddrOverflow), m)
            } else {
                (Ok(Operand::Memory { addr: (arg + c.x) as u16 }), m)
            }
        },
        Mode::AbsoluteY => {
            if arg + c.y > 0xffff {
                (Err(CpuError::AddrOverflow), m)
            } else {
                (Ok(Operand::Memory { addr: (arg + c.y) as u16 }), m)
            }
        },
        Mode::Indirect => {
            if arg == 0xffff {
                (Err(CpuError::AddrOverflow), m)
            } else {
                (
                    Ok(Operand::Memory { addr: spec_read_word_val(m, arg) }),
                    spec_read_word_post(m, arg),
                )
            }
        },
        Mode::XIndirect => {
            let zp = ((arg % 256 + c.x) % 256) as u16;
            (Ok(Operand::Memory { addr: spec_read_word_val(m, zp) }), spec_read_word_post(m, zp))
        },
        Mode::IndirectY => {
            if arg == 0xffff {
                (Err(CpuError::AddrOverflow), m)
            } else {
                let w = spec_read_word_val(m, arg);
                let m1 = spec_read_word_post(m, arg);
                if w + c.y > 0xffff {
                    (Err(CpuError::AddrOverflow), m1)
                } else {
                    (Ok(Operand::Memory { addr: (w + c.y) as u16 }), m1)
                }
            }
        },
    }
}

/// The value an operand read yields, and the memory state after it; the
/// read of a memory operand can have I/O side effects.
pub open spec fn spec_get(op: Operand, c: Cpu, m: MemV) -> Result<(u8, MemV), CpuError> {
    match op {
        Operand::Memory { addr } => Ok((spec_read_val(m, addr), spec_read_post(m, addr))),
        Operand::Literal { value } => Ok((value, m)),
        Operand::Accumulator => Ok((c.a, m)),
        Operand::Nothing => Err(CpuError::BadOperand),
    }
}

/// The CPU and memory after an operand write.
pub open spec fn spec_set(op: Operand, c: Cpu, m: MemV, value: u8) -> Result<
    (Cpu, MemV),
    CpuError,
> {
    match op {
        Operand::Memory { addr } => Ok((c, crate::memory::spec_write(m, addr, value))),
        Operand::Accumulator => Ok((Cpu { a: value, ..c }, m)),
        _ => Err(CpuError::BadOperand),
    }
}

impl Operand {
    /// Resolve the operand for the instruction at the program counter,
    /// reading its argument bytes.
    pub fn new(cpu: &Cpu, mem: &mut AddressSpace, mode: Mode) -> (r: Result<Operand, CpuError>)
        requires
            old(mem)@.wf(),
        ensures
            r == spec_operand(*cpu, old(mem)@, mode).0,
            final(mem)@ == spec_operand(*cpu, old(mem)@, mode).1,
            final(mem)@.wf(),
    {
        proof {
            reveal(spec_operand);
            reveal(spec_operand_mode);
        }
        let arg_len = mode.instr_len() - 1;
        let arg: u16 = if arg_len == 1 {
            if cpu.pc == 0xffff {
                return Err(CpuError::AddrOverflow);
            }
            mem.read(cpu.pc + 1) as u16
        } else if arg_len == 2 {
            if cpu.pc >= 0xfffe {
                return Err(CpuError::AddrOverflow);
            }
            read_word(mem, cpu.pc + 1)
        } else {
            0
        };

        match mode {
            Mode::Implied => Ok(Operand::Nothing),
            Mode::Accumulator => Ok(Operand::Accumulator),
            Mode::Immediate => Ok(Operand::Literal { value: (arg % 256) as u8 }),
            Mode::Relative => {
                // Note: branch offset is relative to the *next* instruction,
                // not the current one.
                if cpu.pc > 0xfffd {
                    return Err(CpuError::AddrOverflow);
                }
                let base = cpu.pc + 2;
                if arg < 0x80 {
                    if base > 0xffff - arg {
                        Err(CpuError::AddrOverflow)
                    } else {
                        Ok(Operand::Memory { addr: base + arg })
                    }
                } else {
                    if base < 0x100 - arg {
                        Err(CpuError::AddrOverflow)
                    } else {
                        Ok(Operand::Memory { addr: base - (0x100 - arg) })
                    }
                }
            },
            Mode::ZeroPage => Ok(Operand::Memory { addr: arg }),
            Mode::ZeroPageX => Ok(Operand::Memory { addr: (arg % 256 + cpu.x as u16) % 256 }),
            Mode::ZeroPageY => Ok(Operand::Memory { addr: (arg % 256 + cpu.y as u16) % 256 }),
            Mode::Absolute => Ok(Operand::Memory { addr: arg }),
            Mode::AbsoluteX => {
                if arg > 0xffff - cpu.x as u16 {
                    Err(CpuError::AddrOverflow)
                } else {
                    Ok(Operand::Memory { addr: arg + cpu.x as u16 })
                }
            },
            Mode::AbsoluteY => {
                if arg > 0xffff - cpu.y as u16 {
                    Err(CpuError::AddrOverflow)
                } else {
                    Ok(Operand::Memory { addr: arg + cpu.y as u16 })
                }
            },
            Mode::Indirect => {
                if arg == 0xffff {
                    Err(CpuError::AddrOverflow)
                } else {
                    Ok(Operand::Memory { addr: read_word(mem, arg) })
                }
            },
            Mode::XIndirect => {
                let zp = (arg % 256 + cpu.x as u16) % 256;
                Ok(Operand::Memory { addr: read_word(mem, zp) })
            },
            Mode::IndirectY => {
                if arg == 0xffff {
                    Err(CpuError::AddrOverflow)
                } else {
                    let w = read_word(mem, arg);
                    if w > 0xffff - cpu.y as u16 {
                        Err(CpuError::AddrOverflow)
                    } else {
                        Ok(Operand::Memory { addr: w + cpu.y as u16 })
                    }
                }
            },
        }
    }

    /// Read the operand's value, with any I/O side effects.
    pub fn get(self, cpu: &Cpu, mem: &mut AddressSpace) -> (r: Result<u8, CpuError>)
        requires
            old(mem)@.wf(),
        ensures
            match spec_get(self, *cpu, old(mem)@) {
                Ok(pair) => r == Ok::<u8, CpuError>(pair.0) && final(mem)@ == pair.1,
                Err(e) => r == Err::<u8, CpuError>(e) && final(mem)@ == old(mem)@,
            },
            final(mem)@.wf(),
    {
        match self {
            Operand::Memory { addr } => Ok(mem.read(addr)),
            Operand::Literal { value } => Ok(value),
            Operand::Accumulator => Ok(cpu.a),
            Operand::Nothing => Err(CpuError::BadOperand),
        }
    }

    /// Write the operand's place.
    pub fn set(self, cpu: &mut Cpu, mem: &mut AddressSpace, value: u8) -> (r: Result<
        (),
        CpuError,
    >)
        requires
            old(mem)@.wf(),
        ensures
            match spec_set(self, *old(cpu), old(mem)@, value) {
                Ok(pair) => r == Ok::<(), CpuError>(()) && *final(cpu) == pair.0 && final(mem)@
                    == pair.1,
                Err(e) => r == Err::<(), CpuError>(e) && *final(cpu) == *old(cpu) && final(mem)@
                    == old(mem)@,
            },
            final(mem)@.wf(),
    {
        match self {
            Operand::Memory { addr } => {
                mem.write(addr, value);
                Ok(())
            },
            Operand::Accumulator => {
                cpu.a = value;
                Ok(())
            },
            Operand::Literal { .. } => Err(CpuError::BadOperand),
            Operand::Nothing => Err(CpuError::BadOperand),
        }
    }

    /// The address of a memory operand.
    pub fn addr(self) -> (r: u16)
        requires
            self is Memory,
        ensures
            self == (Operand::Memory { addr: r }),
    {
        match self {
            Operand::Memory { addr } => addr,
            _ => 0,
        }
    }
}

} // verus!
