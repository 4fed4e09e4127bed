//! Operand sources, instructions, and the total opcode decoder.

use vstd::prelude::*;

use crate::registers::{Pair, Reg8};

verus! {

/// Where an instruction obtains or stores an 8-bit value: a named register,
/// the immediate byte following the opcode, or the memory cell addressed by a
/// 16-bit register pair. `Immediate8` is read-only.
#[derive(Clone, Copy, Debug, PartialEq, Eq, Structural)]
pub enum OperandSource {
    Register(Reg8),
    Immediate8,
    IndirectViaPair(Pair),
}

/// An operation kind together with the operand sources it acts on. Pure data,
/// built once by the decoder and never mutated.
#[derive(Clone, Copy, Debug, PartialEq, Eq, Structural)]
pub enum Instruction {
    Nop,
    Halt,
    /// Destination first, then source.
    Load(OperandSource, OperandSource),
    Add(OperandSource),
    Adc(OperandSource),
    Sub(OperandSource),
    Sbc(OperandSource),
    Cp(OperandSource),
    And(OperandSource),
    Or(OperandSource),
    Xor(OperandSource),
    Inc(OperandSource),
    Dec(OperandSource),
    Rlc(OperandSource),
    /// An opcode with no mapping; policy is the interpreter's.
    Unknown(u8),
}

/// A source may be written through unless it is the immediate byte.
pub open spec fn spec_writable(s: OperandSource) -> bool {
    !(s is Immediate8)
}

/// The operand laid out in the low three bits of the classic opcode grid:
/// B, C, D, E, H, L, (HL), A in that order.
pub open spec fn spec_operand_column(i: int) -> OperandSource
    recommends
        0 <= i < 8,
{
    if i == 0 {
        OperandSource::Register(Reg8::B)
    } else if i == 1 {
        OperandSource::Register(Reg8::C)
    } else if i == 2 {
        OperandSource::Register(Reg8::D)
    } else if i == 3 {
        OperandSource::Register(Reg8::E)
    } else if i == 4 {
        OperandSource::Register(Reg8::H)
    } else if i == 5 {
        OperandSource::Register(Reg8::L)
    } else if i == 6 {
        OperandSource::IndirectViaPair(Pair::HL)
    } else {
        OperandSource::Register(Reg8::A)
    }
}

/// The eight arithmetic/logic rows of the opcode grid, in hardware order.
pub open spec fn spec_alu_row(row: int, src: OperandSource) -> Instruction
    recommends
        0 <= row < 8,
{
    if row == 0 {
        Instruction::Add(src)
    } else if row == 1 {
        Instruction::Adc(src)
    } else if row == 2 {
        Instruction::Sub(src)
    } else if row == 3 {
        Instruction::Sbc(src)
    } else if row == 4 {
        Instruction::And(src)
    } else if row == 5 {
        Instruction::Xor(src)
    } else if row == 6 {
        Instruction::Or(src)
    } else {
        Instruction::Cp(src)
    }
}

/// The closed opcode table as a total function: every byte maps to exactly
/// one instruction, unmapped bytes to `Unknown`.
pub open spec fn spec_decode(op: u8) -> Instruction {
    if op == 0x00 {
        Instruction::Nop
    } else if op == 0x07 {
        Instruction::Rlc(OperandSource::Register(Reg8::A))
    } else if op == 0x76 {
        Instruction::Halt
    } else if op < 0x40 && op % 8 == 4 {
        Instruction::Inc(spec_operand_column(op as int / 8))
    } else if op < 0x40 && op % 8 == 5 {
        Instruction::Dec(spec_operand_column(op as int / 8))
    } else if op < 0x40 && op % 8 == 6 {
        Instruction::Load(spec_operand_column(op as int / 8), OperandSource::Immediate8)
    } else if 0x40 <= op && op < 0x80 {
        Instruction::Load(spec_operand_column((op - 0x40) / 8), spec_operand_column(op as int % 8))
    } else if 0x80 <= op && op < 0xC0 {
        spec_alu_row((op - 0x80) / 8, spec_operand_column(op as int % 8))
    } else if op >= 0xC0 && op % 8 == 6 {
        spec_alu_row((op - 0xC0) / 8, OperandSource::Immediate8)
    } else {
        Instruction::Unknown(op)
    }
}

/// How many bytes of memory the instruction occupies: two when any operand is
/// the immediate byte, otherwise one.
pub open spec fn spec_uses_immediate(i: Instruction) -> bool {
    match i {
        Instruction::Nop => false,
        Instruction::Halt => false,
        Instruction::Load(d, s) => d is Immediate8 || s is Immediate8,
        Instruction::Add(s) => s is Immediate8,
        Instruction::Adc(s) => s is Immediate8,
        Instruction::Sub(s) => s is Immediate8,
        Instruction::Sbc(s) => s is Immediate8,
        Instruction::Cp(s) => s is Immediate8,
        Instruction::And(s) => s is Immediate8,
        Instruction::Or(s) => s is Immediate8,
        Instruction::Xor(s) => s is Immediate8,
        Instruction::Inc(t) => t is Immediate8,
        Instruction::Dec(t) => t is Immediate8,
        Instruction::Rlc(t) => t is Immediate8,
        Instruction::Unknown(_) => false,
    }
}

pub open spec fn spec_instruction_len(i: Instruction) -> u16 {
    if spec_uses_immediate(i) {
        2
    } else {
        1
    }
}

/// Every destination the decoder emits is writable: the write-to-immediate
/// failure can come only from hand-built instructions, never from decoding.
pub open spec fn spec_decoded_wf(i: Instruction) -> bool {
    match i {
        Instruction::Load(d, _) => spec_writable(d),
        Instruction::Inc(t) => spec_writable(t),
        Instruction::Dec(t) => spec_writable(t),
        Instruction::Rlc(t) => spec_writable(t),
        _ => true,
    }
}

pub proof fn lemma_decode_wf(op: u8)
    ensures
        spec_decoded_wf(spec_decode(op)),
{
    assert(forall|i: int| 0 <= i < 8 ==> spec_writable(#[trigger] spec_operand_column(i)));
}

pub fn operand_column(i: u8) -> (r: OperandSource)
    requires
        i < 8,
    ensures
        r == spec_operand_column(i as int),
{
    if i == 0 {
        OperandSource::Register(Reg8::B)
    } else if i == 1 {
        OperandSource::Register(Reg8::C)
    } else if i == 2 {
        OperandSource::Register(Reg8::D)
    } else if i == 3 {
        OperandSource::Register(Reg8::E)
    } else if i == 4 {
        OperandSource::Register(Reg8::H)
    } else if i == 5 {
        OperandSource::Register(Reg8::L)
    } else if i == 6 {
        OperandSource::IndirectViaPair(Pair::HL)
    } else {
        OperandSource::Register(Reg8::A)
    }
}

pub fn alu_row(row: u8, src: OperandSource) -> (r: Instruction)
    requires
        row < 8,
    ensures
        r == spec_alu_row(row as int, src),
{
    if row == 0 {
        Instruction::Add(src)
    } else if row == 1 {
        Instruction::Adc(src)
    } else if row == 2 {
        Instruction::Sub(src)
    } else if row == 3 {
        Instruction::Sbc(src)
    } else if row == 4 {
        Instruction::And(src)
    } else if row == 5 {
        Instruction::Xor(src)
    } else if row == 6 {
        Instruction::Or(src)
    } else {
        Instruction::Cp(src)
    }
}

pub fn decode(op: u8) -> (r: Instruction)
    ensures
        r == spec_decode(op),
{
    if op == 0x00 {
        Instruction::Nop
    } else if op == 0x07 {
        Instruction::Rlc(OperandSource::Register(Reg8::A))
    } else if op == 0x76 {
        Instruction::Halt
    } else if op < 0x40 && op % 8 == 4 {
        Instruction::Inc(operand_column(op / 8))
    } else if op < 0x40 && op % 8 == 5 {
        Instruction::Dec(operand_column(op / 8))
    } else if op < 0x40 && op % 8 == 6 {
        Instruction::Load(operand_column(op / 8), OperandSource::Immediate8)
    } else if 0x40 <= op && op < 0x80 {
        Instruction::Load(operand_column((op - 0x40) / 8), operand_column(op % 8))
    } else if 0x80 <= op && op < 0xC0 {
        alu_row((op - 0x80) / 8, operand_column(op % 8))
    } else if op >= 0xC0 && op % 8 == 6 {
        alu_row((op - 0xC0) / 8, OperandSource::Immediate8)
    } else {
        Instruction::Unknown(op)
    }
}

pub fn instruction_len(i: Instruction) -> (n: u16)
    ensures
        n == spec_instruction_len(i),
{
    let uses_immediate: bool = match i {
        Instruction::Nop => false,
        Instruction::Halt => false,
        Instruction::Load(d, s) => {
            matches!(d, OperandSource::Immediate8) || matches!(s, OperandSource::Immediate8)
        },
        Instruction::Add(s) => matches!(s, OperandSource::Immediate8),
        Instruction::Adc(s) => matches!(s, OperandSource::Immediate8),
        Instruction::Sub(s) => matches!(s, OperandSource::Immediate8),
        Instruction::Sbc(s) => matches!(s, OperandSource::Immediate8),
        Instruction::Cp(s) => matches!(s, OperandSource::Immediate8),
        Instruction::And(s) => matches!(s, OperandSource::Immediate8),
        Instruction::Or(s) => matches!(s, OperandSource::Immediate8),
        Instruction::Xor(s) => matches!(s, OperandSource::Immediate8),
        Instruction::Inc(t) => matches!(t, OperandSource::Immediate8),
        Instruction::Dec(t) => matches!(t, OperandSource::Immediate8),
        Instruction::Rlc(t) => matches!(t, OperandSource::Immediate8),
        Instruction::Unknown(_) => false,
    };
    if uses_immediate {
        2
    } else {
        1
    }
}

} // verus!
