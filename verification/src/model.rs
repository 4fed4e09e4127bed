//! The mathematical model of the machine and the meaning of one step.
//!
//! `CpuModel` is the view of the whole processor: the register file, the
//! program counter, the memory as a sequence of bytes, the halted state and
//! the unknown-opcode policy. The spec functions here say exactly what one
//! `execute` or `step` does to that view.

use vstd::prelude::*;

use crate::alu;
use crate::decode::{
    spec_decode, spec_instruction_len, spec_writable, Instruction, OperandSource,
};
use crate::error::CpuError;
use crate::flags::Flags;
use crate::registers::Registers;

verus! {

/// The whole machine as a mathematical value.
#[verifier::ext_equal]
pub ghost struct CpuModel {
    pub regs: Registers,
    pub pc: u16,
    pub mem: Seq<u8>,
    pub halted: bool,
    pub strict: bool,
}

impl CpuModel {
    /// The memory spans the full 16-bit address range, so every address a
    /// program can form is valid.
    pub open spec fn wf(self) -> bool {
        self.mem.len() == 0x10000
    }
}

/// The value an operand source yields: a register, the byte after the opcode
/// (with 16-bit wraparound), or the memory cell addressed by a register pair.
pub open spec fn spec_read_operand(c: CpuModel, s: OperandSource) -> u8 {
    match s {
        OperandSource::Register(r) => c.regs.spec_get(r),
        OperandSource::Immediate8 => c.mem[(c.pc + 1) % 0x10000],
        OperandSource::IndirectViaPair(p) => c.mem[c.regs.spec_get_pair(p) as int],
    }
}

/// The machine after a write through a writable operand source. Writing
/// through `Immediate8` is rejected before this function is reached.
pub open spec fn spec_write_operand(c: CpuModel, s: OperandSource, v: u8) -> CpuModel
    recommends
        spec_writable(s),
{
    match s {
        OperandSource::Register(r) => CpuModel { regs: c.regs.spec_set(r, v), ..c },
        OperandSource::IndirectViaPair(p) => CpuModel {
            mem: c.mem.update(c.regs.spec_get_pair(p) as int, v),
            ..c
        },
        OperandSource::Immediate8 => c,
    }
}

/// The accumulator and the flags take an ALU result.
pub open spec fn spec_with_acc(c: CpuModel, r: alu::AluOut) -> CpuModel {
    CpuModel { regs: Registers { a: r.value, f: r.flags, ..c.regs }, ..c }
}

/// Only the flags change.
pub open spec fn spec_with_flags(c: CpuModel, f: Flags) -> CpuModel {
    CpuModel { regs: Registers { f, ..c.regs }, ..c }
}

/// The effect of one decoded instruction on the machine, before the program
/// counter moves. `Unknown` is left to the policy in `spec_execute`.
pub open spec fn spec_apply(c: CpuModel, i: Instruction) -> CpuModel {
    match i {
        Instruction::Nop => c,
        Instruction::Halt => CpuModel { halted: true, ..c },
        Instruction::Load(d, s) => spec_write_operand(c, d, spec_read_operand(c, s)),
        Instruction::Add(s) => spec_with_acc(c, alu::spec_add(c.regs.a, spec_read_operand(c, s))),
        Instruction::Adc(s) => spec_with_acc(
            c,
            alu::spec_adc(c.regs.a, spec_read_operand(c, s), c.regs.f.carry),
        ),
        Instruction::Sub(s) => spec_with_acc(c, alu::spec_sub(c.regs.a, spec_read_operand(c, s))),
        Instruction::Sbc(s) => spec_with_acc(
            c,
            alu::spec_sbc(c.regs.a, spec_read_operand(c, s), c.regs.f.carry),
        ),
        Instruction::Cp(s) => spec_with_flags(c, alu::spec_cp(c.regs.a, spec_read_operand(c, s))),
        Instruction::And(s) => spec_with_acc(c, alu::spec_and(c.regs.a, spec_read_operand(c, s))),
        Instruction::Or(s) => spec_with_acc(c, alu::spec_or(c.regs.a, spec_read_operand(c, s))),
        Instruction::Xor(s) => spec_with_acc(c, alu::spec_xor(c.regs.a, spec_read_operand(c, s))),
        Instruction::Inc(t) => {
            let r = alu::spec_inc(spec_read_operand(c, t), c.regs.f.carry);
            spec_with_flags(spec_write_operand(c, t, r.value), r.flags)
        },
        Instruction::Dec(t) => {
            let r = alu::spec_dec(spec_read_operand(c, t), c.regs.f.carry);
            spec_with_flags(spec_write_operand(c, t, r.value), r.flags)
        },
        Instruction::Rlc(t) => {
            let r = alu::spec_rlc(spec_read_operand(c, t));
            spec_with_flags(spec_write_operand(c, t, r.value), r.flags)
        },
        Instruction::Unknown(_) => c,
    }
}

/// The program counter moves by the instruction's byte length with 16-bit
/// wraparound; when the unwrapped next value would leave the address space,
/// the machine also transitions to `Halted`.
pub open spec fn spec_advance(c: CpuModel, len: u16) -> CpuModel {
    CpuModel {
        pc: ((c.pc + len) % 0x10000) as u16,
        halted: c.halted || c.pc + len > 0xFFFF,
        ..c
    }
}

/// One dispatched opcode: unknown opcodes fail in strict mode with the
/// machine unchanged and act as a one-byte no-op otherwise; every mapped
/// opcode applies its effect and then advances the program counter.
pub open spec fn spec_execute(c: CpuModel, op: u8) -> (CpuModel, Option<CpuError>) {
    let i = spec_decode(op);
    match i {
        Instruction::Unknown(b) => if c.strict {
            (c, Some(CpuError::UnknownOpcode(b)))
        } else {
            (spec_advance(c, 1), None)
        },
        _ => (spec_advance(spec_apply(c, i), spec_instruction_len(i)), None),
    }
}

/// One step: a halted machine stays exactly as it is; otherwise the byte at
/// the program counter is fetched and dispatched.
pub open spec fn spec_step(c: CpuModel) -> (CpuModel, Option<CpuError>) {
    if c.halted {
        (c, None)
    } else {
        spec_execute(c, c.mem[c.pc as int])
    }
}

/// Writing a value through a `Register` operand source and reading the same
/// source back yields the value written.
pub proof fn lemma_register_operand_round_trip(c: CpuModel, r: crate::registers::Reg8, v: u8)
    ensures
        spec_read_operand(
            spec_write_operand(c, OperandSource::Register(r), v),
            OperandSource::Register(r),
        ) == v,
{
}

/// A step whose unwrapped next program counter would leave the 16-bit address
/// space halts the machine, and the registers and memory keep the state the
/// executed instruction left them in.
pub proof fn lemma_pc_overflow_halts(c: CpuModel)
    requires
        !c.halted,
        !(spec_decode(c.mem[c.pc as int]) is Unknown),
        c.pc + spec_instruction_len(spec_decode(c.mem[c.pc as int])) > 0xFFFF,
    ensures
        spec_step(c).0.halted,
        spec_step(c).1 is None,
        spec_step(c).0.regs == spec_apply(c, spec_decode(c.mem[c.pc as int])).regs,
        spec_step(c).0.mem == spec_apply(c, spec_decode(c.mem[c.pc as int])).mem,
{
}

} // verus!
