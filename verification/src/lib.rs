//! An Apple IIe core: a 6502 interpreter, the machine's memory address
//! space with its soft-switch I/O page, and the derivation of display
//! frames from RAM.

pub mod cpu;
pub mod debugger_commands;
pub mod display;
pub mod hex;
pub mod memory;

use vstd::prelude::*;

use cpu::instr::Instr;
use cpu::{spec_next_instr, spec_step, spec_would_halt, Cpu};
use debugger_commands::Command;
use display::color::Color;
use itertools::Itertools;
use memory::{spec_image_result, spec_mem_new, AddressSpace, LoadError, MemV};

verus! {

/// Ghost image of the whole emulator.
pub ghost struct EmuV {
    pub cpu: Cpu,
    pub mem: MemV,
    pub halted: bool,
    pub num_instructions_executed: u64,
    pub breakpoints: Seq<u16>,
    pub finish_state: Option<u64>,
}

/// The emulator: a CPU, the address space, and the driver state the
/// debugger steers.
pub struct Emulator {
    pub cpu: Cpu,
    pub mem: AddressSpace,
    pub halted: bool,
    pub num_instructions_executed: u64,
    pub breakpoints: Vec<u16>,
    /// If a `finish` command is ongoing, the current subroutine depth:
    /// 0 until the routine being finished calls something, and counted
    /// back down on each return.
    pub finish_state: Option<u64>,
}

impl View for Emulator {
    type V = EmuV;

    open spec fn view(&self) -> EmuV {
        EmuV {
            cpu: self.cpu,
            mem: self.mem@,
            halted: self.halted,
            num_instructions_executed: self.num_instructions_executed,
            breakpoints: self.breakpoints@,
            finish_state: self.finish_state,
        }
    }
}

/// The counter bumped by one, stopping at the top of its range.
pub open spec fn spec_sat_inc(n: u64) -> u64 {
    if n == 0xffff_ffff_ffff_ffff {
        n
    } else {
        (n + 1) as u64
    }
}

/// Whether the driver should stop before executing the next
/// instruction, and the emulator state after the checks: the next
/// opcode is BRK or undecodable, the next instruction is a halt loop,
/// the program counter sits on a breakpoint, or an ongoing `finish`
/// sees its subroutine return. The fetches the checks make can have
/// I/O side effects, and the `finish` bookkeeping steps the CPU over
/// the final RTS.
pub open spec fn spec_check_breakpoints(e: EmuV) -> (EmuV, bool) {
    let f1 = spec_next_instr(e.cpu, e.mem);
    let e1 = EmuV { mem: f1.1, ..e };
    if f1.0 is Err || (f1.0 matches Ok((i, _, _)) && i == Instr::Brk) {
        (e1, true)
    } else {
        let halt = spec_would_halt(e1.cpu, e1.mem);
        let e2 = EmuV { mem: spec_next_instr(e1.cpu, e1.mem).1, ..e1 };
        if halt {
            (e2, true)
        } else if e.breakpoints.contains(e.cpu.pc) {
            (e2, true)
        } else {
            match e.finish_state {
                None => (e2, false),
                Some(depth) => {
                    let f3 = spec_next_instr(e2.cpu, e2.mem);
                    let e3 = EmuV { mem: f3.1, ..e2 };
                    match f3.0 {
                        Ok((i, _, _)) => {
                            if i == Instr::Jsr {
                                (EmuV { finish_state: Some(spec_sat_inc(depth)), ..e3 }, false)
                            } else if i == Instr::Rts {
                                if depth == 0 {
                                    let s = spec_step(e3.cpu, e3.mem);
                                    if s.2 is Ok {
                                        (
                                            EmuV {
                                                cpu: s.0,
                                                mem: s.1,
                                                num_instructions_executed: spec_sat_inc(
                                                    e3.num_instructions_executed,
                                                ),
                                                finish_state: None,
                                                ..e3
                                            },
                                            true,
                                        )
                                    } else {
                                        (
                                            EmuV { cpu: s.0, mem: s.1, finish_state: None, ..e3 },
                                            true,
                                        )
                                    }
                                } else {
                                    (
                                        EmuV {
                                            finish_state: Some((depth - 1) as u64),
                                            ..e3
                                        },
                                        false,
                                    )
                                }
                            } else {
                                (e3, false)
                            }
                        },
                        Err(_) => (e3, false),
                    }
                },
            }
        }
    }
}

/// One driver step: nothing if halted; otherwise run the breakpoint
/// checks and either halt or execute one instruction. A CPU fault also
/// halts the emulator.
pub open spec fn spec_emu_step(e: EmuV) -> EmuV {
    if e.halted {
        e
    } else {
        let c = spec_check_breakpoints(e);
        if c.1 {
            EmuV { halted: true, ..c.0 }
        } else {
            let s = spec_step(c.0.cpu, c.0.mem);
            if s.2 is Ok {
                EmuV {
                    cpu: s.0,
                    mem: s.1,
                    num_instructions_executed: spec_sat_inc(c.0.num_instructions_executed),
                    ..c.0
                }
            } else {
                EmuV { cpu: s.0, mem: s.1, halted: true, ..c.0 }
            }
        }
    }
}

/// The emulator after `n` driver steps.
pub open spec fn spec_emu_steps(e: EmuV, n: nat) -> EmuV
    decreases n,
{
    if n == 0 {
        e
    } else {
        spec_emu_steps(spec_emu_step(e), (n - 1) as nat)
    }
}

/// Relies on itertools' `find_position`: the index and element of the
/// first element satisfying the predicate, here equality with `target`.
#[verifier::external_body]
pub(crate) fn find_position_u16(v: &Vec<u16>, target: u16) -> (r: Option<usize>)
    ensures
        match r {
            Some(i) => i < v@.len() && v@[i as int] == target && forall|j: int|
                0 <= j < i ==> #[trigger] v@[j] != target,
            None => forall|j: int| 0 <= j < v@.len() ==> #[trigger] v@[j] != target,
        },
{
    v.iter().find_position(|&&a| a == target).map(|(i, _)| i)
}

impl Emulator {
    /// Build a machine with `program` in RAM at `load_addr`, the
    /// warm-start vector pointed at `start_addr`, and execution about
    /// to begin at the monitor RESET entry.
    pub fn new(program: &[u8], load_addr: u16, start_addr: u16, breakpoints: Vec<u16>) -> (r:
        Emulator)
        requires
            load_addr + program@.len() <= 0xc000,
            spec_mem_new(program@, load_addr).main_ram[0x3f2] == 0,
            spec_mem_new(program@, load_addr).main_ram[0x3f3] == 0,
            spec_mem_new(program@, load_addr).main_ram[0x3f4] == 0,
        ensures
            r@.cpu == cpu::Cpu::spec_started(0xfa62),
            r@.mem == (MemV {
                main_ram: spec_mem_new(program@, load_addr).main_ram.update(
                    0x3f2,
                    (start_addr % 256) as u8,
                ).update(0x3f3, (start_addr / 256) as u8).update(
                    0x3f4,
                    (0xa5 ^ (start_addr / 256)) as u8,
                ),
                ..spec_mem_new(program@, load_addr)
            }),
            r@.halted == false,
            r@.num_instructions_executed == 0,
            r@.breakpoints == breakpoints@,
            r@.finish_state is None,
            r@.mem.wf(),
    {
        let mut mem = AddressSpace::new(program, load_addr);
        let pc = mem.set_softev(start_addr);

        Emulator {
            cpu: Cpu::new(pc),
            mem,
            halted: false,
            num_instructions_executed: 0,
            breakpoints,
            finish_state: None,
        }
    }

    /// Load an llvm-mos memory image and build a machine from it, with
    /// the warm-start vector pointed at the image's start address and
    /// execution about to begin at the monitor RESET entry.
    pub fn from_memory_image(image: &[u8], breakpoints: Vec<u16>) -> (r: Result<
        Emulator,
        LoadError,
    >)
        ensures
            match spec_image_result(image@) {
                Err(e) => r == Err::<Emulator, LoadError>(e),
                Ok(p) => {
                    if p.0[0x3f2] != 0 || p.0[0x3f3] != 0 || p.0[0x3f4] != 0 {
                        r == Err::<Emulator, LoadError>(LoadError::SoftevInUse)
                    } else {
                        match r {
                            Err(_) => false,
                            Ok(emu) => {
                                &&& emu@.cpu == cpu::Cpu::spec_started(0xfa62)
                                &&& emu@.mem == (MemV {
                                    main_ram: p.0.update(0x3f2, (p.1 % 256) as u8).update(
                                        0x3f3,
                                        (p.1 / 256) as u8,
                                    ).update(0x3f4, (0xa5 ^ (p.1 / 256)) as u8),
                                    ..spec_mem_new(Seq::empty(), 0)
                                })
                                &&& emu@.halted == false
                                &&& emu@.num_instructions_executed == 0
                                &&& emu@.breakpoints == breakpoints@
                                &&& emu@.finish_state is None
                                &&& emu@.mem.wf()
                            },
                        }
                    }
                },
            },
    {
        let (mut mem, start_addr) = match AddressSpace::from_memory_image(image) {
            Ok(pair) => pair,
            Err(e) => {
                return Err(e);
            },
        };
        if mem.main_ram[0x3f2] != 0 || mem.main_ram[0x3f3] != 0 || mem.main_ram[0x3f4] != 0 {
            return Err(LoadError::SoftevInUse);
        }
        let pc = mem.set_softev(start_addr);
        Ok(
            Emulator {
                cpu: Cpu::new(pc),
                mem,
                halted: false,
                num_instructions_executed: 0,
                breakpoints,
                finish_state: None,
            },
        )
    }

    /// Run up to 1000 instructions; the CPU driver calls this at about
    /// 300 Hz.
    pub fn sim_1000_instrs(&mut self)
        requires
            old(self)@.mem.wf(),
        ensures
            final(self)@ == spec_emu_steps(old(self)@, 1000),
            final(self)@.mem.wf(),
    {
        let mut i: usize = 0;
        while i < 1000
            invariant
                i <= 1000,
                self@ == spec_emu_steps(old(self)@, i as nat),
                self@.mem.wf(),
            decreases 1000 - i,
        {
            proof {
                lemma_emu_steps_unfold(old(self)@, i as nat);
            }
            self.step();
            i = i + 1;
        }
    }

    /// One driver step: check for break conditions, then execute one
    /// instruction unless halted.
    pub fn step(&mut self)
        requires
            old(self)@.mem.wf(),
        ensures
            final(self)@ == spec_emu_step(old(self)@),
            final(self)@.mem.wf(),
    {
        if self.halted {
            return;
        }

        if self.check_breakpoints() {
            self.halted = true;
            return;
        }

        match self.cpu.step(&mut self.mem) {
            Ok(()) => {
                if self.num_instructions_executed < 0xffff_ffff_ffff_ffff {
                    self.num_instructions_executed = self.num_instructions_executed + 1;
                }
            },
            Err(_) => {
                self.halted = true;
            },
        }
    }

    /// Whether the driver should stop before the next instruction,
    /// with the side effects `spec_check_breakpoints` describes.
    fn check_breakpoints(&mut self) -> (r: bool)
        requires
            old(self)@.mem.wf(),
        ensures
            final(self)@ == spec_check_breakpoints(old(self)@).0,
            r == spec_check_breakpoints(old(self)@).1,
            final(self)@.mem.wf(),
    {
        match self.cpu.next_instr(&mut self.mem) {
            Err(_) => {
                return true;
            },
            Ok((i, _, _)) => {
                if matches!(i, Instr::Brk) {
                    return true;
                }
            },
        }

        if self.cpu.would_halt(&mut self.mem) {
            return true;
        }

        if find_position_u16(&self.breakpoints, self.cpu.pc()).is_some() {
            return true;
        }

        let depth = match self.finish_state {
            None => {
                return false;
            },
            Some(d) => d,
        };
        match self.cpu.next_instr(&mut self.mem) {
            Ok((Instr::Jsr, _, _)) => {
                let bumped = if depth < 0xffff_ffff_ffff_ffff {
                    depth + 1
                } else {
                    depth
                };
                self.finish_state = Some(bumped);
                false
            },
            Ok((Instr::Rts, _, _)) => {
                if depth == 0 {
                    match self.cpu.step(&mut self.mem) {
                        Ok(()) => {
                            if self.num_instructions_executed < 0xffff_ffff_ffff_ffff {
                                self.num_instructions_executed = self.num_instructions_executed
                                    + 1;
                            }
                        },
                        Err(_) => {},
                    }
                    self.finish_state = None;
                    true
                } else {
                    self.finish_state = Some(depth - 1);
                    false
                }
            },
            _ => false,
        }
    }

    /// Derive the frame the machine currently shows; the frame driver
    /// calls this at 60 Hz. Pure: a function of RAM, the soft switches
    /// and the glyph table alone.
    pub fn draw_screen(&self) -> (out: Vec<Vec<Color>>)
        requires
            self@.mem.wf(),
        ensures
            out@.len() == 192,
            forall|y: int| 0 <= y < 192 ==> #[trigger] out@[y]@.len() == 280,
            forall|y: int, x: int|
                0 <= y < 192 && 0 <= x < 280 ==> #[trigger] out@[y]@[x]
                    == memory::spec_display_pixel(self@.mem, y, x),
    {
        self.mem.display()
    }

    /// Latch a key press.
    pub fn key_down(&mut self, ascii_code: u8)
        requires
            old(self)@.mem.wf(),
            ascii_code < 0x80,
        ensures
            final(self)@ == (EmuV {
                mem: MemV {
                    io: memory::io::IoV {
                        most_recent_key: ascii_code,
                        strobe_bit: true,
                        any_key_down: true,
                        ..old(self)@.mem.io
                    },
                    ..old(self)@.mem
                },
                ..old(self)@
            }),
            final(self)@.mem.wf(),
    {
        self.mem.key_down(ascii_code);
    }

    /// Note that no key is held down any more.
    pub fn all_keys_up(&mut self)
        requires
            old(self)@.mem.wf(),
        ensures
            final(self)@ == (EmuV {
                mem: MemV {
                    io: memory::io::IoV { any_key_down: false, ..old(self)@.mem.io },
                    ..old(self)@.mem
                },
                ..old(self)@
            }),
            final(self)@.mem.wf(),
    {
        self.mem.all_keys_up();
    }

    /// Execute a "debugger" command.
    pub fn control(&mut self, cmd: Command) -> (r: debugger_commands::Reply)
        requires
            old(self)@.mem.wf(),
        ensures
            final(self)@ == debugger_commands::spec_execute(old(self)@, cmd).0,
            r@ == debugger_commands::spec_execute(old(self)@, cmd).1,
            final(self)@.mem.wf(),
    {
        cmd.execute(self)
    }
}

/// Unfolding one more driver step at the end of a run.
pub proof fn lemma_emu_steps_unfold(e: EmuV, n: nat)
    ensures
        spec_emu_steps(e, n + 1) == spec_emu_step(spec_emu_steps(e, n)),
    decreases n,
{
    reveal_with_fuel(spec_emu_steps, 3);
    if n > 0 {
        lemma_emu_steps_unfold(spec_emu_step(e), (n - 1) as nat);
    } else {
        assert(spec_emu_steps(e, 1) == spec_emu_step(e));
    }
}

} // verus!
