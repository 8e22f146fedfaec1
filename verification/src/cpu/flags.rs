use vstd::prelude::*;

verus! {

/// One of the eight bits of the 6502 status register.
#[derive(Clone, Copy, Debug, PartialEq, Eq, Structural)]
pub enum Flag {
    Carry,
    Zero,
    Interrupt,
    Decimal,
    Break,
    Reserved,
    Overflow,
    Negative,
}

/// The bit mask of a flag inside the packed status byte:
/// C=bit 0, Z=1, I=2, D=3, B=4, Reserved=5, V=6, N=7.
pub open spec fn spec_mask(f: Flag) -> u8 {
    match f {
        Flag::Carry => 0x01,
        Flag::Zero => 0x02,
        Flag::Interrupt => 0x04,
        Flag::Decimal => 0x08,
        Flag::Break => 0x10,
        Flag::Reserved => 0x20,
        Flag::Overflow => 0x40,
        Flag::Negative => 0x80,
    }
}

impl Flag {
    pub fn mask(self) -> (m: u8)
        ensures
            m == spec_mask(self),
    {
        match self {
            Flag::Carry => 0x01,
            Flag::Zero => 0x02,
            Flag::Interrupt => 0x04,
            Flag::Decimal => 0x08,
            Flag::Break => 0x10,
            Flag::Reserved => 0x20,
            Flag::Overflow => 0x40,
            Flag::Negative => 0x80,
        }
    }
}

/// The packed 8-bit status register.
#[derive(Clone, Copy, Debug, PartialEq, Eq, Structural)]
pub struct Flags {
    pub bits: u8,
}

/// The status byte with one flag forced to the given setting.
pub open spec fn spec_assign(bits: u8, f: Flag, on: bool) -> u8 {
    if on {
        bits | spec_mask(f)
    } else {
        bits & !spec_mask(f)
    }
}

/// The status byte after the negative and zero flags have been updated
/// against `value`, as a load or arithmetic result does.
pub open spec fn spec_nz(bits: u8, value: u8) -> u8 {
    spec_assign(spec_assign(bits, Flag::Zero, value == 0), Flag::Negative, value >= 0x80)
}

impl Flags {
    pub open spec fn spec_is_set(self, f: Flag) -> bool {
        self.bits & spec_mask(f) != 0
    }

    pub fn set(&mut self, flag: Flag)
        ensures
            final(self).bits == spec_assign(old(self).bits, flag, true),
    {
        self.bits = self.bits | flag.mask();
    }

    pub fn clear(&mut self, flag: Flag)
        ensures
            final(self).bits == spec_assign(old(self).bits, flag, false),
    {
        self.bits = self.bits & !flag.mask();
    }

    pub fn assign(&mut self, flag: Flag, setting: bool)
        ensures
            final(self).bits == spec_assign(old(self).bits, flag, setting),
    {
        if setting {
            self.set(flag)
        } else {
            self.clear(flag)
        }
    }

    pub fn is_set(&self, flag: Flag) -> (r: bool)
        ensures
            r == self.spec_is_set(flag),
    {
        self.bits & flag.mask() != 0
    }

    /// Update the negative and zero flags against `value`, leaving every
    /// other flag alone, and hand `value` back so loads can chain on it.
    pub fn nz(&mut self, value: u8) -> (r: u8)
        ensures
            r == value,
            final(self).bits == spec_nz(old(self).bits, value),
            final(self).spec_is_set(Flag::Zero) <==> value == 0,
            final(self).spec_is_set(Flag::Negative) <==> value >= 0x80,
            final(self).bits & 0x7d == old(self).bits & 0x7d,
    {
        self.assign(Flag::Zero, value == 0);
        self.assign(Flag::Negative, value >= 0x80);
        proof {
            lemma_nz_bits(old(self).bits, value);
        }
        value
    }
}

/// The negative-zero update sets the zero bit exactly when the value is 0,
/// sets the negative bit exactly when bit 7 of the value is set, and leaves
/// the other six flag bits untouched.
pub proof fn lemma_nz_bits(bits: u8, value: u8)
    ensures
        spec_nz(bits, value) & 0x02 != 0 <==> value == 0,
        spec_nz(bits, value) & 0x80 != 0 <==> value >= 0x80,
        spec_nz(bits, value) & 0x7d == bits & 0x7d,
{
    let z = value == 0;
    let n = value >= 0x80;
    assert({
        let b1 = if z {
            bits | 0x02
        } else {
            bits & !0x02
        };
        let b2 = if n {
            b1 | 0x80
        } else {
            b1 & !0x80
        };
        &&& (b2 & 0x02 != 0 <==> z)
        &&& (b2 & 0x80 != 0 <==> n)
        &&& b2 & 0x7d == bits & 0x7d
    }) by (bit_vector);
}

} // verus!
