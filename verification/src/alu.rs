//! The arithmetic/logic unit: pure operations from two 8-bit inputs (and the
//! current carry flag where relevant) to a result value and the four flags.
//!
//! All arithmetic is 8-bit wrapping (two's-complement modulo 256); there is
//! no arithmetic error condition. The zero flag is `new value == 0` for every
//! operation; the half-carry flags speak of the low nibble, written here as
//! `x % 16`.

use vstd::prelude::*;

use crate::flags::Flags;

verus! {

/// What an ALU operation yields: the value that would be written, and the
/// four flags.
#[derive(Clone, Copy, Debug, PartialEq, Eq, Structural)]
pub struct AluOut {
    pub value: u8,
    pub flags: Flags,
}

pub open spec fn spec_add(a: u8, v: u8) -> AluOut {
    let value = ((a + v) % 256) as u8;
    AluOut {
        value,
        flags: Flags {
            zero: value == 0,
            subtract: false,
            half_carry: a % 16 + v % 16 > 15,
            carry: a + v > 255,
        },
    }
}

pub open spec fn spec_adc(a: u8, v: u8, carry: bool) -> AluOut {
    let ci: int = if carry { 1 } else { 0 };
    let value = ((a + v + ci) % 256) as u8;
    AluOut {
        value,
        flags: Flags {
            zero: value == 0,
            subtract: false,
            half_carry: a % 16 + v % 16 + ci > 15,
            carry: a + v + ci > 255,
        },
    }
}

pub open spec fn spec_sub(a: u8, v: u8) -> AluOut {
    let value = ((a + 256 - v) % 256) as u8;
    AluOut {
        value,
        flags: Flags {
            zero: value == 0,
            subtract: true,
            half_carry: a % 16 < v % 16,
            carry: v > a,
        },
    }
}

pub open spec fn spec_sbc(a: u8, v: u8, carry: bool) -> AluOut {
    let ci: int = if carry { 1 } else { 0 };
    let value = ((a + 512 - v - ci) % 256) as u8;
    AluOut {
        value,
        flags: Flags {
            zero: value == 0,
            subtract: true,
            half_carry: (a % 16) < v % 16 + ci,
            carry: a < v + ci,
        },
    }
}

pub open spec fn spec_and(a: u8, v: u8) -> AluOut {
    let value = a & v;
    AluOut {
        value,
        flags: Flags { zero: value == 0, subtract: false, half_carry: true, carry: false },
    }
}

pub open spec fn spec_or(a: u8, v: u8) -> AluOut {
    let value = a | v;
    AluOut {
        value,
        flags: Flags { zero: value == 0, subtract: false, half_carry: false, carry: false },
    }
}

pub open spec fn spec_xor(a: u8, v: u8) -> AluOut {
    let value = a ^ v;
    AluOut {
        value,
        flags: Flags { zero: value == 0, subtract: false, half_carry: false, carry: false },
    }
}

/// The flags of a compare: those of the subtraction, while the accumulator
/// keeps its value.
pub open spec fn spec_cp(a: u8, v: u8) -> Flags {
    spec_sub(a, v).flags
}

/// Increment: the carry flag passes through unchanged.
pub open spec fn spec_inc(v: u8, carry: bool) -> AluOut {
    let value = ((v + 1) % 256) as u8;
    AluOut {
        value,
        flags: Flags { zero: value == 0, subtract: false, half_carry: v % 16 == 15, carry },
    }
}

/// Decrement: the carry flag passes through unchanged.
pub open spec fn spec_dec(v: u8, carry: bool) -> AluOut {
    let value = ((v + 255) % 256) as u8;
    AluOut {
        value,
        flags: Flags { zero: value == 0, subtract: true, half_carry: v % 16 == 0, carry },
    }
}

/// Rotate left by one, bit 7 entering at bit 0 and becoming the carry.
pub open spec fn spec_rlc(v: u8) -> AluOut {
    let value = (v % 128 * 2 + v / 128) as u8;
    AluOut {
        value,
        flags: Flags { zero: value == 0, subtract: false, half_carry: false, carry: v >= 128 },
    }
}

pub fn add(a: u8, v: u8) -> (r: AluOut)
    ensures
        r == spec_add(a, v),
{
    let sum: u16 = a as u16 + v as u16;
    let value: u8 = (sum % 256) as u8;
    AluOut {
        value,
        flags: Flags {
            zero: value == 0,
            subtract: false,
            half_carry: a % 16 + v % 16 > 15,
            carry: sum > 255,
        },
    }
}

pub fn adc(a: u8, v: u8, carry: bool) -> (r: AluOut)
    ensures
        r == spec_adc(a, v, carry),
{
    let ci: u16 = if carry { 1 } else { 0 };
    let sum: u16 = a as u16 + v as u16 + ci;
    let value: u8 = (sum % 256) as u8;
    AluOut {
        value,
        flags: Flags {
            zero: value == 0,
            subtract: false,
            half_carry: (a % 16) as u16 + (v % 16) as u16 + ci > 15,
            carry: sum > 255,
        },
    }
}

pub fn sub(a: u8, v: u8) -> (r: AluOut)
    ensures
        r == spec_sub(a, v),
{
    let diff: u16 = a as u16 + 256 - v as u16;
    let value: u8 = (diff % 256) as u8;
    AluOut {
        value,
        flags: Flags {
            zero: value == 0,
            subtract: true,
            half_carry: a % 16 < v % 16,
            carry: v > a,
        },
    }
}

pub fn sbc(a: u8, v: u8, carry: bool) -> (r: AluOut)
    ensures
        r == spec_sbc(a, v, carry),
{
    let ci: u16 = if carry { 1 } else { 0 };
    let diff: u16 = a as u16 + 512 - v as u16 - ci;
    let value: u8 = (diff % 256) as u8;
    AluOut {
        value,
        flags: Flags {
            zero: value == 0,
            subtract: true,
            half_carry: ((a % 16) as u16) < ((v % 16) as u16) + ci,
            carry: (a as u16) < (v as u16) + ci,
        },
    }
}

pub fn and(a: u8, v: u8) -> (r: AluOut)
    ensures
        r == spec_and(a, v),
{
    let value: u8 = a & v;
    AluOut {
        value,
        flags: Flags { zero: value == 0, subtract: false, half_carry: true, carry: false },
    }
}

pub fn or(a: u8, v: u8) -> (r: AluOut)
    ensures
        r == spec_or(a, v),
{
    let value: u8 = a | v;
    AluOut {
        value,
        flags: Flags { zero: value == 0, subtract: false, half_carry: false, carry: false },
    }
}

pub fn xor(a: u8, v: u8) -> (r: AluOut)
    ensures
        r == spec_xor(a, v),
{
    let value: u8 = a ^ v;
    AluOut {
        value,
        flags: Flags { zero: value == 0, subtract: false, half_carry: false, carry: false },
    }
}

pub fn cp(a: u8, v: u8) -> (r: Flags)
    ensures
        r == spec_cp(a, v),
{
    let out = crate::alu::sub(a, v);
    out.flags
}

pub fn inc(v: u8, carry: bool) -> (r: AluOut)
    ensures
        r == spec_inc(v, carry),
{
    let sum: u16 = v as u16 + 1;
    let value: u8 = (sum % 256) as u8;
    AluOut {
        value,
        flags: Flags { zero: value == 0, subtract: false, half_carry: v % 16 == 15, carry },
    }
}

pub fn dec(v: u8, carry: bool) -> (r: AluOut)
    ensures
        r == spec_dec(v, carry),
{
    let sum: u16 = v as u16 + 255;
    let value: u8 = (sum % 256) as u8;
    AluOut {
        value,
        flags: Flags { zero: value == 0, subtract: true, half_carry: v % 16 == 0, carry },
    }
}

pub fn rlc(v: u8) -> (r: AluOut)
    ensures
        r == spec_rlc(v),
{
    let value: u8 = v % 128 * 2 + v / 128;
    AluOut {
        value,
        flags: Flags { zero: value == 0, subtract: false, half_carry: false, carry: v >= 128 },
    }
}

/// Addition: the value wraps modulo 256, the carry is the unsigned overflow,
/// the half-carry is the carry out of the low nibble, the zero flag follows
/// the value, and subtract is clear.
pub proof fn lemma_add_flags(a: u8, v: u8)
    ensures
        spec_add(a, v).value == (a + v) % 256,
        spec_add(a, v).flags.carry == (a + v > 255),
        spec_add(a, v).flags.half_carry == (a % 16 + v % 16 > 15),
        spec_add(a, v).flags.zero == (spec_add(a, v).value == 0),
        !spec_add(a, v).flags.subtract,
{
}

/// Subtraction: the value wraps modulo 256 (stated over the Euclidean
/// difference), the carry is the unsigned borrow, and the half-carry is the
/// unsigned comparison of the low nibbles.
pub proof fn lemma_sub_flags(a: u8, v: u8)
    ensures
        spec_sub(a, v).value == (a - v) % 256,
        spec_sub(a, v).flags.carry == (v > a),
        spec_sub(a, v).flags.half_carry == (a % 16 < v % 16),
        spec_sub(a, v).flags.zero == (spec_sub(a, v).value == 0),
        spec_sub(a, v).flags.subtract,
{
    assert((a + 256 - v) % 256 == (a - v) % 256);
}

/// The bitwise operations always clear the carry; AND always sets the
/// half-carry, OR and XOR always clear it.
pub proof fn lemma_bitwise_flags(a: u8, v: u8)
    ensures
        !spec_and(a, v).flags.carry,
        !spec_or(a, v).flags.carry,
        !spec_xor(a, v).flags.carry,
        spec_and(a, v).flags.half_carry,
        !spec_or(a, v).flags.half_carry,
        !spec_xor(a, v).flags.half_carry,
{
}

/// Increment and decrement never modify the carry flag, whatever the operand.
pub proof fn lemma_inc_dec_carry_unchanged(v: u8, carry: bool)
    ensures
        spec_inc(v, carry).flags.carry == carry,
        spec_dec(v, carry).flags.carry == carry,
{
}

} // verus!
