//! The four condition flags and their packed-byte form.

use vstd::prelude::*;

verus! {

/// The four condition flags of the processor. In the packed flags byte they
/// occupy bits 7 (zero), 6 (subtract), 5 (half-carry) and 4 (carry); bits 0
/// through 3 are always zero.
#[derive(Clone, Copy, Debug, PartialEq, Eq, Structural)]
pub struct Flags {
    pub zero: bool,
    pub subtract: bool,
    pub half_carry: bool,
    pub carry: bool,
}

impl Flags {
    /// The packed byte: each flag contributes its bit, low nibble zero.
    pub open spec fn spec_to_byte(self) -> u8 {
        ((if self.zero { 0x80int } else { 0int })
            + (if self.subtract { 0x40int } else { 0int })
            + (if self.half_carry { 0x20int } else { 0int })
            + (if self.carry { 0x10int } else { 0int })) as u8
    }

    /// Unpacking reads bits 7, 6, 5 and 4; the low nibble is ignored.
    pub open spec fn spec_from_byte(b: u8) -> Flags {
        Flags {
            zero: (b / 0x80) % 2 == 1,
            subtract: (b / 0x40) % 2 == 1,
            half_carry: (b / 0x20) % 2 == 1,
            carry: (b / 0x10) % 2 == 1,
        }
    }

    pub fn all_clear() -> (r: Flags)
        ensures
            r == (Flags { zero: false, subtract: false, half_carry: false, carry: false }),
    {
        Flags { zero: false, subtract: false, half_carry: false, carry: false }
    }

    pub fn to_byte(self) -> (r: u8)
        ensures
            r == self.spec_to_byte(),
    {
        let z: u8 = if self.zero { 0x80 } else { 0 };
        let n: u8 = if self.subtract { 0x40 } else { 0 };
        let h: u8 = if self.half_carry { 0x20 } else { 0 };
        let c: u8 = if self.carry { 0x10 } else { 0 };
        z + n + h + c
    }

    pub fn from_byte(b: u8) -> (r: Flags)
        ensures
            r == Flags::spec_from_byte(b),
    {
        Flags {
            zero: (b / 0x80) % 2 == 1,
            subtract: (b / 0x40) % 2 == 1,
            half_carry: (b / 0x20) % 2 == 1,
            carry: (b / 0x10) % 2 == 1,
        }
    }
}

/// The packed byte keeps its low nibble zero: the four flags sit in the high
/// nibble only.
pub proof fn lemma_flags_byte_low_nibble_zero(f: Flags)
    ensures
        f.spec_to_byte() % 16 == 0,
{
}

/// Packing and then unpacking the flags yields the flags unchanged.
pub proof fn lemma_flags_byte_round_trip(f: Flags)
    ensures
        Flags::spec_from_byte(f.spec_to_byte()) == f,
{
}

} // verus!
