//! The motherboard ROM banks at $D000..=$FFFF.

use vstd::prelude::*;

use crate::memory::io::{spec_zeros, zero_bytes};

verus! {

/// Ghost image of the ROM banks.
pub ghost struct RomV {
    /// $d000..$f800
    pub applesoft: Seq<u8>,
    /// $f800..=$ffff
    pub f8: Seq<u8>,
}

/// The ROM banks at $D000..=$FFFF: the BASIC ROM and the monitor ROM.
pub struct Rom {
    /// $d000..$f800
    pub applesoft: Vec<u8>,
    /// $f800..=$ffff
    pub f8: Vec<u8>,
}

impl View for Rom {
    type V = RomV;

    open spec fn view(&self) -> RomV {
        RomV { applesoft: self.applesoft@, f8: self.f8@ }
    }
}

impl RomV {
    pub open spec fn wf(self) -> bool {
        &&& self.applesoft.len() == 0x2800
        &&& self.f8.len() == 0x800
    }
}

/// The byte a ROM read returns.
pub open spec fn spec_rom_read(r: RomV, addr: u16) -> u8 {
    if addr < 0xf800 {
        r.applesoft[addr - 0xd000]
    } else {
        r.f8[addr - 0xf800]
    }
}

impl Rom {
    /// Cold ROM banks, zeroed until `load` fills them.
    pub fn new() -> (r: Rom)
        ensures
            r@.applesoft == spec_zeros(0x2800),
            r@.f8 == spec_zeros(0x800),
            r@.wf(),
    {
        Rom { applesoft: zero_bytes(0x2800), f8: zero_bytes(0x800) }
    }

    /// Install the ROM contents: 10 KiB of BASIC ROM and 2 KiB of monitor
    /// ROM.
    pub fn load(&mut self, applesoft: &[u8], f8: &[u8])
        requires
            applesoft@.len() == 0x2800,
            f8@.len() == 0x800,
        ensures
            final(self)@ == (RomV { applesoft: applesoft@, f8: f8@ }),
            final(self)@.wf(),
    {
        self.applesoft = vstd::slice::slice_to_vec(applesoft);
        self.f8 = vstd::slice::slice_to_vec(f8);
    }

    pub fn read(&self, addr: u16) -> (r: u8)
        requires
            0xd000 <= addr,
            self@.wf(),
        ensures
            r == spec_rom_read(self@, addr),
    {
        if addr < 0xf800 {
            self.applesoft[(addr - 0xd000) as usize]
        } else {
            self.f8[(addr - 0xf800) as usize]
        }
    }
}

} // verus!
