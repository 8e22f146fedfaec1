//! Arithmetic helpers for the CPU operations.

use vstd::prelude::*;

verus! {

/// Result of an 8-bit addition with carry-in.
pub struct Add {
    pub sum: u8,
    pub carry: bool,
    pub overflow: bool,
}

/// The carry-in as a number.
pub open spec fn carry_val(carry_in: bool) -> int {
    if carry_in {
        1
    } else {
        0
    }
}

/// Signed overflow of an 8-bit addition: both operands share the sign bit
/// and the sum flips it.
pub open spec fn spec_overflow(x: u8, y: u8, sum: u8) -> bool {
    ((x ^ sum) & (y ^ sum)) & 0x80 != 0
}

/// Perform 8-bit addition with carry-in, reporting the carry-out and the
/// signed-overflow condition.
pub fn add(x: u8, y: u8, carry_in: bool) -> (r: Add)
    ensures
        r.sum == (x + y + carry_val(carry_in)) % 256,
        r.carry == (x + y + carry_val(carry_in) >= 256),
        r.overflow == spec_overflow(x, y, r.sum),
{
    let carry_num: u16 = if carry_in {
        1
    } else {
        0
    };
    let total: u16 = x as u16 + y as u16 + carry_num;
    let sum: u8 = (total % 256) as u8;
    let carry = total >= 256;

    let same_sign = x & 0x80 == y & 0x80;
    let flipped = sum & 0x80 != x & 0x80;
    let overflow = same_sign && flipped;

    proof {
        lemma_overflow_forms(x, y, sum);
    }

    Add { sum, carry, overflow }
}

/// The two readings of signed overflow agree: "same sign in, flipped sign
/// out" is the xor-mask formula.
pub proof fn lemma_overflow_forms(x: u8, y: u8, sum: u8)
    ensures
        spec_overflow(x, y, sum) == ((x & 0x80 == y & 0x80) && (sum & 0x80 != x & 0x80)),
{
    assert((((x ^ sum) & (y ^ sum)) & 0x80 != 0) == ((x & 0x80 == y & 0x80) && (sum & 0x80 != x
        & 0x80))) by (bit_vector);
}

/// Shift left, reporting whether any set bit fell off the top.
pub fn overflowing_shl(x: u8, shift_amount: u8) -> (r: (u8, bool))
    requires
        shift_amount < 8,
    ensures
        r.0 == x << shift_amount,
        r.1 == (if shift_amount == 0 {
            false
        } else {
            x >> ((8 - shift_amount) as u8) != 0
        }),
{
    let out = x << shift_amount;
    if shift_amount == 0 {
        (out, false)
    } else {
        let lost = x >> (8 - shift_amount);
        (out, lost != 0)
    }
}

/// Shift right, reporting whether any set bit fell off the bottom.
pub fn overflowing_shr(x: u8, shift_amount: u8) -> (r: (u8, bool))
    requires
        shift_amount < 8,
    ensures
        r.0 == x >> shift_amount,
        r.1 == (x & (((1u8 << shift_amount) - 1) as u8) != 0),
{
    let out = x >> shift_amount;
    proof {
        let s = shift_amount;
        assert(s < 8 ==> 1u8 << s >= 1) by (bit_vector);
    }
    let mask = (1u8 << shift_amount) - 1;
    (out, x & mask != 0)
}

} // verus!
