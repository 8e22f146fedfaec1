//! The I/O page $C000..$D000: keyboard latch, soft switches, and the
//! peripheral-card ROM windows.

pub mod soft_switches;

use vstd::prelude::*;

use soft_switches::{spec_access, spec_access_read_val, spec_switch_get, spec_switches_new,
    AccessType, SoftSwitch, SoftSwitches};

verus! {

/// A sequence of `n` zero bytes.
pub open spec fn spec_zeros(n: nat) -> Seq<u8> {
    Seq::new(n, |i: int| 0u8)
}

/// Ghost image of the I/O page state.
pub ghost struct IoV {
    /// $c100..$c400
    pub c100_rom: Seq<u8>,
    /// $c400..$c800
    pub self_test_rom: Seq<u8>,
    /// $c800..=$cffe
    pub c800_rom: Seq<u8>,
    /// $c000 (without hibit)
    pub most_recent_key: u8,
    /// $c000 hibit
    pub strobe_bit: bool,
    /// $c010 hibit
    pub any_key_down: bool,
    /// $c000..$c100
    pub switches: SoftSwitches,
}

/// The I/O page $C000..$D000.
pub struct Io {
    /// $c100..$c400
    pub c100_rom: Vec<u8>,
    /// $c400..$c800
    pub self_test_rom: Vec<u8>,
    /// $c800..=$cffe
    pub c800_rom: Vec<u8>,
    /// $c000 (without hibit)
    pub most_recent_key: u8,
    /// $c000 hibit
    pub strobe_bit: bool,
    /// $c010 hibit
    pub any_key_down: bool,
    /// $c000..$c100
    pub switches: SoftSwitches,
}

impl View for Io {
    type V = IoV;

    open spec fn view(&self) -> IoV {
        IoV {
            c100_rom: self.c100_rom@,
            self_test_rom: self.self_test_rom@,
            c800_rom: self.c800_rom@,
            most_recent_key: self.most_recent_key,
            strobe_bit: self.strobe_bit,
            any_key_down: self.any_key_down,
            switches: self.switches,
        }
    }
}

impl IoV {
    /// The sizes of the three ROM windows, and a 7-bit key latch.
    pub open spec fn wf(self) -> bool {
        &&& self.c100_rom.len() == 0x300
        &&& self.self_test_rom.len() == 0x400
        &&& self.c800_rom.len() == 0x7ff
        &&& self.most_recent_key < 0x80
    }
}

/// The I/O page of a cold machine: ROM windows zeroed until loaded, no key
/// latched, every switch off.
pub open spec fn spec_io_new() -> IoV {
    IoV {
        c100_rom: spec_zeros(0x300),
        self_test_rom: spec_zeros(0x400),
        c800_rom: spec_zeros(0x7ff),
        most_recent_key: 0,
        strobe_bit: false,
        any_key_down: false,
        switches: spec_switches_new(),
    }
}

/// The byte a read of the I/O page returns.
#[verifier::opaque]
pub open spec fn spec_io_read_val(io: IoV, addr: u16) -> u8 {
    if addr == 0xc000 {
        if io.strobe_bit {
            io.most_recent_key | 0x80
        } else {
            io.most_recent_key
        }
    } else if addr == 0xc010 {
        if io.any_key_down {
            0x80
        } else {
            0
        }
    } else if addr <= 0xc0ff {
        spec_access_read_val(io.switches, (addr - 0xc000) as u8)
    } else if addr == 0xcfff {
        0
    } else if addr < 0xc400 {
        io.c100_rom[addr - 0xc100]
    } else if addr < 0xc800 {
        io.self_test_rom[addr - 0xc400]
    } else {
        io.c800_rom[addr - 0xc800]
    }
}

/// The I/O page state after a read: reading $C010 clears the strobe, and
/// reading the switch page can flip switches.
#[verifier::opaque]
pub open spec fn spec_io_read_post(io: IoV, addr: u16) -> IoV {
    if addr == 0xc000 {
        io
    } else if addr == 0xc010 {
        IoV { strobe_bit: false, ..io }
    } else if addr <= 0xc0ff {
        IoV { switches: spec_access(io.switches, (addr - 0xc000) as u8, AccessType::Read).0, ..io }
    } else {
        io
    }
}

/// The I/O page state after a write. Writes to the ROM windows are
/// ignored; the value written is ignored throughout.
#[verifier::opaque]
pub open spec fn spec_io_write_post(io: IoV, addr: u16) -> IoV {
    if addr == 0xc010 {
        IoV { strobe_bit: false, ..io }
    } else if addr <= 0xc0ff {
        IoV { switches: spec_access(io.switches, (addr - 0xc000) as u8, AccessType::Write).0, ..io }
    } else {
        io
    }
}

impl Io {
    /// A cold I/O page. The ROM windows start zeroed; `load_roms` fills
    /// them.
    pub fn new() -> (r: Io)
        ensures
            r@ == spec_io_new(),
            r@.wf(),
    {
        Io {
            c100_rom: zero_bytes(0x300),
            self_test_rom: zero_bytes(0x400),
            c800_rom: zero_bytes(0x7ff),
            most_recent_key: 0,
            strobe_bit: false,
            any_key_down: false,
            switches: SoftSwitches::new(),
        }
    }

    /// Install the peripheral-card ROM bytes: $C100..$C400, $C400..$C800
    /// and $C800..$CFFF.
    pub fn load_roms(&mut self, c100: &[u8], self_test: &[u8], c800: &[u8])
        requires
            c100@.len() == 0x300,
            self_test@.len() == 0x400,
            c800@.len() == 0x7ff,
        ensures
            final(self)@ == (IoV {
                c100_rom: c100@,
                self_test_rom: self_test@,
                c800_rom: c800@,
                ..old(self)@
            }),
            old(self)@.wf() ==> final(self)@.wf(),
    {
        self.c100_rom = vstd::slice::slice_to_vec(c100);
        self.self_test_rom = vstd::slice::slice_to_vec(self_test);
        self.c800_rom = vstd::slice::slice_to_vec(c800);
    }

    pub fn soft_switch(&self, switch: SoftSwitch) -> (r: bool)
        ensures
            r == spec_switch_get(self@.switches, switch),
    {
        self.switches.is_set(switch)
    }

    /// Latch a key press: remember the 7-bit code, raise the strobe, and
    /// note that a key is down.
    pub fn key_down(&mut self, ascii_code: u8)
        requires
            ascii_code < 0x80,
        ensures
            final(self)@ == (IoV {
                most_recent_key: ascii_code,
                strobe_bit: true,
                any_key_down: true,
                ..old(self)@
            }),
            old(self)@.wf() ==> final(self)@.wf(),
    {
        self.most_recent_key = ascii_code;
        self.strobe_bit = true;
        self.any_key_down = true;
    }

    /// Note that no key is held down any more.
    pub fn all_keys_up(&mut self)
        ensures
            final(self)@ == (IoV { any_key_down: false, ..old(self)@ }),
            old(self)@.wf() ==> final(self)@.wf(),
    {
        self.any_key_down = false;
    }

    /// One read of the I/O page, with its side effects.
    pub fn read(&mut self, addr: u16) -> (r: u8)
        requires
            0xc000 <= addr <= 0xcfff,
            old(self)@.wf(),
        ensures
            r == spec_io_read_val(old(self)@, addr),
            final(self)@ == spec_io_read_post(old(self)@, addr),
            final(self)@.wf(),
    {
        proof {
            reveal(spec_io_read_val);
            reveal(spec_io_read_post);
        }
        if addr == 0xc000 {
            let mut byte = self.most_recent_key;
            if self.strobe_bit {
                byte = byte | 0x80;
            }
            byte
        } else if addr == 0xc010 {
            self.strobe_bit = false;
            if self.any_key_down {
                0x80
            } else {
                0
            }
        } else if addr <= 0xc0ff {
            self.switches.read(addr)
        } else if addr == 0xcfff {
            0
        } else if addr < 0xc400 {
            self.c100_rom[(addr - 0xc100) as usize]
        } else if addr < 0xc800 {
            self.self_test_rom[(addr - 0xc400) as usize]
        } else {
            self.c800_rom[(addr - 0xc800) as usize]
        }
    }

    /// One write to the I/O page. The ROM windows ignore writes.
    pub fn write(&mut self, addr: u16, value: u8)
        requires
            0xc000 <= addr <= 0xcfff,
            old(self)@.wf(),
        ensures
            final(self)@ == spec_io_write_post(old(self)@, addr),
            final(self)@.wf(),
    {
        proof {
            reveal(spec_io_write_post);
        }
        let _ = value;
        if addr == 0xc010 {
            self.strobe_bit = false;
        } else if addr <= 0xc0ff {
            self.switches.write(addr);
        }
    }
}

/// A vector of `n` zero bytes.
pub fn zero_bytes(n: usize) -> (r: Vec<u8>)
    ensures
        r@ == spec_zeros(n as nat),
{
    let mut r: Vec<u8> = Vec::new();
    let mut i: usize = 0;
    while i < n
        invariant
            i <= n,
            r@ =~= spec_zeros(i as nat),
        decreases n - i,
    {
        r.push(0);
        proof {
            assert(r@ =~= spec_zeros((i + 1) as nat));
        }
        i = i + 1;
    }
    r
}

} // verus!
