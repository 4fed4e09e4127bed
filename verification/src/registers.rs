//! The register file: eight 8-bit registers, the flags, and the paired
//! 16-bit views.

use vstd::prelude::*;

use crate::flags::Flags;

verus! {

/// The eight-bit registers.
#[derive(Clone, Copy, Debug, PartialEq, Eq, Structural)]
pub enum Reg8 {
    A,
    B,
    C,
    D,
    E,
    H,
    L,
}

/// The paired 16-bit views. High byte first letter, low byte second; the low
/// byte of AF is the packed flags byte.
#[derive(Clone, Copy, Debug, PartialEq, Eq, Structural)]
pub enum Pair {
    AF,
    BC,
    DE,
    HL,
}

/// Eight independent 8-bit fields plus the flags. The 16-bit pair accessors
/// are computed views over these fields: there is no separate 16-bit storage.
#[derive(Clone, Copy, Debug, PartialEq, Eq, Structural)]
pub struct Registers {
    pub a: u8,
    pub b: u8,
    pub c: u8,
    pub d: u8,
    pub e: u8,
    pub h: u8,
    pub l: u8,
    pub f: Flags,
}

impl Registers {
    pub open spec fn spec_get(self, r: Reg8) -> u8 {
        match r {
            Reg8::A => self.a,
            Reg8::B => self.b,
            Reg8::C => self.c,
            Reg8::D => self.d,
            Reg8::E => self.e,
            Reg8::H => self.h,
            Reg8::L => self.l,
        }
    }

    pub open spec fn spec_set(self, r: Reg8, v: u8) -> Registers {
        match r {
            Reg8::A => Registers { a: v, ..self },
            Reg8::B => Registers { b: v, ..self },
            Reg8::C => Registers { c: v, ..self },
            Reg8::D => Registers { d: v, ..self },
            Reg8::E => Registers { e: v, ..self },
            Reg8::H => Registers { h: v, ..self },
            Reg8::L => Registers { l: v, ..self },
        }
    }

    /// High byte times 256 plus low byte; AF packs the flags as its low byte.
    pub open spec fn spec_get_pair(self, p: Pair) -> u16 {
        match p {
            Pair::AF => (self.a * 256 + self.f.spec_to_byte()) as u16,
            Pair::BC => (self.b * 256 + self.c) as u16,
            Pair::DE => (self.d * 256 + self.e) as u16,
            Pair::HL => (self.h * 256 + self.l) as u16,
        }
    }

    pub open spec fn spec_set_pair(self, p: Pair, v: u16) -> Registers {
        let hi = (v / 256) as u8;
        let lo = (v % 256) as u8;
        match p {
            Pair::AF => Registers { a: hi, f: Flags::spec_from_byte(lo), ..self },
            Pair::BC => Registers { b: hi, c: lo, ..self },
            Pair::DE => Registers { d: hi, e: lo, ..self },
            Pair::HL => Registers { h: hi, l: lo, ..self },
        }
    }

    pub fn zeroed() -> (r: Registers)
        ensures
            r == (Registers {
                a: 0,
                b: 0,
                c: 0,
                d: 0,
                e: 0,
                h: 0,
                l: 0,
                f: Flags { zero: false, subtract: false, half_carry: false, carry: false },
            }),
    {
        Registers {
            a: 0,
            b: 0,
            c: 0,
            d: 0,
            e: 0,
            h: 0,
            l: 0,
            f: Flags { zero: false, subtract: false, half_carry: false, carry: false },
        }
    }

    pub fn get(&self, r: Reg8) -> (v: u8)
        ensures
            v == self.spec_get(r),
    {
        match r {
            Reg8::A => self.a,
            Reg8::B => self.b,
            Reg8::C => self.c,
            Reg8::D => self.d,
            Reg8::E => self.e,
            Reg8::H => self.h,
            Reg8::L => self.l,
        }
    }

    pub fn set(&mut self, r: Reg8, v: u8)
        ensures
            *final(self) == old(self).spec_set(r, v),
    {
        match r {
            Reg8::A => self.a = v,
            Reg8::B => self.b = v,
            Reg8::C => self.c = v,
            Reg8::D => self.d = v,
            Reg8::E => self.e = v,
            Reg8::H => self.h = v,
            Reg8::L => self.l = v,
        }
    }

    pub fn set_zero(&mut self, b: bool)
        ensures
            *final(self) == (Registers { f: Flags { zero: b, ..old(self).f }, ..*old(self) }),
    {
        self.f.zero = b;
    }

    pub fn set_subtract(&mut self, b: bool)
        ensures
            *final(self) == (Registers { f: Flags { subtract: b, ..old(self).f }, ..*old(self) }),
    {
        self.f.subtract = b;
    }

    pub fn set_half_carry(&mut self, b: bool)
        ensures
            *final(self) == (Registers {
                f: Flags { half_carry: b, ..old(self).f },
                ..*old(self)
            }),
    {
        self.f.half_carry = b;
    }

    pub fn set_carry(&mut self, b: bool)
        ensures
            *final(self) == (Registers { f: Flags { carry: b, ..old(self).f }, ..*old(self) }),
    {
        self.f.carry = b;
    }

    pub fn get_pair(&self, p: Pair) -> (v: u16)
        ensures
            v == self.spec_get_pair(p),
    {
        match p {
            Pair::AF => (self.a as u16) * 256 + (self.f.to_byte() as u16),
            Pair::BC => (self.b as u16) * 256 + (self.c as u16),
            Pair::DE => (self.d as u16) * 256 + (self.e as u16),
            Pair::HL => (self.h as u16) * 256 + (self.l as u16),
        }
    }

    pub fn set_pair(&mut self, p: Pair, v: u16)
        ensures
            *final(self) == old(self).spec_set_pair(p, v),
    {
        let hi: u8 = (v / 256) as u8;
        let lo: u8 = (v % 256) as u8;
        match p {
            Pair::AF => {
                self.a = hi;
                self.f = Flags::from_byte(lo);
            },
            Pair::BC => {
                self.b = hi;
                self.c = lo;
            },
            Pair::DE => {
                self.d = hi;
                self.e = lo;
            },
            Pair::HL => {
                self.h = hi;
                self.l = lo;
            },
        }
    }
}

/// Writing a register and reading the same register yields the value written.
pub proof fn lemma_register_set_get(regs: Registers, r: Reg8, v: u8)
    ensures
        regs.spec_set(r, v).spec_get(r) == v,
{
}

/// Writing a 16-bit pair other than AF and reading it back yields the value
/// written; for AF the low nibble of the flags byte reads back as zero.
pub proof fn lemma_pair_set_get(regs: Registers, p: Pair, v: u16)
    ensures
        p != Pair::AF ==> regs.spec_set_pair(p, v).spec_get_pair(p) == v,
        p == Pair::AF ==> regs.spec_set_pair(p, v).spec_get_pair(p) == v / 16 * 16,
{
    let w = regs.spec_set_pair(p, v);
    crate::flags::lemma_flags_byte_round_trip(w.f);
    if p == Pair::AF {
        let lo = (v % 256) as u8;
        let f = Flags::spec_from_byte(lo);
        assert(f.spec_to_byte() == lo / 16 * 16) by {
            assert((lo / 0x80) % 2 * 0x80 + (lo / 0x40) % 2 * 0x40 + (lo / 0x20) % 2 * 0x20 + (lo
                / 0x10) % 2 * 0x10 == lo / 16 * 16) by (bit_vector);
        }
    }
}

} // verus!
