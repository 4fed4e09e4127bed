//! The interpreter: one register file, one memory bus, a 16-bit program
//! counter and a halted flag, stepped one instruction at a time.

use vstd::prelude::*;

use crate::decode::{
    decode, instruction_len, lemma_decode_wf, spec_writable, Instruction, OperandSource,
};
use crate::error::CpuError;
use crate::memory::MemoryBus;
use crate::model::{
    spec_advance, spec_execute, spec_read_operand, spec_step, spec_write_operand, CpuModel,
};
use crate::registers::{Pair, Registers};

verus! {

/// The processor. `step` is its only driver; `halted` is terminal under
/// `step`. In strict mode an unmapped opcode is an error, in permissive mode
/// a one-byte no-op.
pub struct CPU {
    pub registers: Registers,
    pub pc: u16,
    pub bus: MemoryBus,
    pub halted: bool,
    pub strict: bool,
}

impl View for CPU {
    type V = CpuModel;

    open spec fn view(&self) -> CpuModel {
        CpuModel {
            regs: self.registers,
            pc: self.pc,
            mem: self.bus@,
            halted: self.halted,
            strict: self.strict,
        }
    }
}

impl CPU {
    pub open spec fn wf(self) -> bool {
        self@.wf()
    }

    /// A fresh machine: registers and memory all zero, program counter zero,
    /// running, with the chosen unknown-opcode policy.
    pub fn new(strict: bool) -> (c: CPU)
        ensures
            c.wf(),
            c@.regs == (Registers {
                a: 0,
                b: 0,
                c: 0,
                d: 0,
                e: 0,
                h: 0,
                l: 0,
                f: crate::flags::Flags {
                    zero: false,
                    subtract: false,
                    half_carry: false,
                    carry: false,
                },
            }),
            c@.pc == 0,
            !c@.halted,
            c@.strict == strict,
            forall|i: int| 0 <= i < 0x10000 ==> c@.mem[i] == 0,
    {
        CPU {
            registers: Registers::zeroed(),
            pc: 0,
            bus: MemoryBus::new(),
            halted: false,
            strict,
        }
    }

    /// The value the operand source denotes in the current state.
    pub fn read_operand(&self, source: OperandSource) -> (v: u8)
        requires
            self.wf(),
        ensures
            v == spec_read_operand(self@, source),
    {
        match source {
            OperandSource::Register(r) => self.registers.get(r),
            OperandSource::Immediate8 => {
                let address: u16 = if self.pc == 0xFFFF {
                    0
                } else {
                    self.pc + 1
                };
                self.bus.read_byte(address)
            },
            OperandSource::IndirectViaPair(p) => {
                let address = self.registers.get_pair(p);
                self.bus.read_byte(address)
            },
        }
    }

    /// The write once the source is known writable.
    fn write_operand_resolved(&mut self, source: OperandSource, value: u8)
        requires
            old(self).wf(),
            spec_writable(source),
        ensures
            final(self).wf(),
            final(self)@ == spec_write_operand(old(self)@, source, value),
    {
        match source {
            OperandSource::Register(r) => self.registers.set(r, value),
            OperandSource::IndirectViaPair(p) => {
                let address = self.registers.get_pair(p);
                self.bus.write_byte(address, value);
            },
            OperandSource::Immediate8 => {},
        }
    }

    /// Writing through an operand source: total for registers and indirect
    /// cells, and rejected with `InvalidOperand` for the read-only immediate,
    /// with the machine unchanged.
    pub fn write_operand(&mut self, source: OperandSource, value: u8) -> (r: Result<(), CpuError>)
        requires
            old(self).wf(),
        ensures
            final(self).wf(),
            spec_writable(source) ==> r is Ok && final(self)@ == spec_write_operand(
                old(self)@,
                source,
                value,
            ),
            !spec_writable(source) ==> r == Err::<(), CpuError>(CpuError::InvalidOperand)
                && *final(self) == *old(self),
    {
        match source {
            OperandSource::Immediate8 => Err(CpuError::InvalidOperand),
            _ => {
                self.write_operand_resolved(source, value);
                Ok(())
            },
        }
    }

    /// Moves the program counter by the instruction length, halting when the
    /// unwrapped next value would leave the address space.
    fn advance_pc(&mut self, len: u16)
        requires
            old(self).wf(),
            len <= 2,
        ensures
            final(self).wf(),
            final(self)@ == spec_advance(old(self)@, len),
    {
        let next: u32 = self.pc as u32 + len as u32;
        if next > 0xFFFF {
            self.halted = true;
        }
        self.pc = (next % 0x10000) as u16;
    }

    /// Dispatches one opcode: decode, apply the effect, advance the program
    /// counter. Unknown opcodes follow the policy: an error in strict mode
    /// with the machine unchanged, a one-byte no-op otherwise.
    #[verifier::rlimit(50)]
    pub fn execute(&mut self, opcode: u8) -> (r: Result<(), CpuError>)
        requires
            old(self).wf(),
        ensures
            final(self).wf(),
            ({
                let (m, e) = spec_execute(old(self)@, opcode);
                final(self)@ == m && (match e {
                    None => r is Ok,
                    Some(err) => r == Err::<(), CpuError>(err),
                })
            }),
    {
        let instruction = decode(opcode);
        proof {
            lemma_decode_wf(opcode);
        }
        if let Instruction::Unknown(b) = instruction {
            if self.strict {
                return Err(CpuError::UnknownOpcode(b));
            }
            self.advance_pc(1);
            return Ok(());
        }
        let len = instruction_len(instruction);
        match instruction {
            Instruction::Nop => {},
            Instruction::Unknown(_) => {},
            Instruction::Halt => {
                self.halted = true;
            },
            Instruction::Load(dst, src) => {
                let v = self.read_operand(src);
                self.write_operand_resolved(dst, v);
            },
            Instruction::Add(src) => {
                let v = self.read_operand(src);
                let out = crate::alu::add(self.registers.a, v);
                self.registers.a = out.value;
                self.registers.f = out.flags;
            },
            Instruction::Adc(src) => {
                let v = self.read_operand(src);
                let out = crate::alu::adc(self.registers.a, v, self.registers.f.carry);
                self.registers.a = out.value;
                self.registers.f = out.flags;
            },
            Instruction::Sub(src) => {
                let v = self.read_operand(src);
                let out = crate::alu::sub(self.registers.a, v);
                self.registers.a = out.value;
                self.registers.f = out.flags;
            },
            Instruction::Sbc(src) => {
                let v = self.read_operand(src);
                let out = crate::alu::sbc(self.registers.a, v, self.registers.f.carry);
                self.registers.a = out.value;
                self.registers.f = out.flags;
            },
            Instruction::Cp(src) => {
                let v = self.read_operand(src);
                let flags = crate::alu::cp(self.registers.a, v);
                self.registers.f = flags;
            },
            Instruction::And(src) => {
                let v = self.read_operand(src);
                let out = crate::alu::and(self.registers.a, v);
                self.registers.a = out.value;
                self.registers.f = out.flags;
            },
            Instruction::Or(src) => {
                let v = self.read_operand(src);
                let out = crate::alu::or(self.registers.a, v);
                self.registers.a = out.value;
                self.registers.f = out.flags;
            },
            Instruction::Xor(src) => {
                let v = self.read_operand(src);
                let out = crate::alu::xor(self.registers.a, v);
                self.registers.a = out.value;
                self.registers.f = out.flags;
            },
            Instruction::Inc(target) => {
                let v = self.read_operand(target);
                let out = crate::alu::inc(v, self.registers.f.carry);
                self.write_operand_resolved(target, out.value);
                self.registers.f = out.flags;
            },
            Instruction::Dec(target) => {
                let v = self.read_operand(target);
                let out = crate::alu::dec(v, self.registers.f.carry);
                self.write_operand_resolved(target, out.value);
                self.registers.f = out.flags;
            },
            Instruction::Rlc(target) => {
                let v = self.read_operand(target);
                let out = crate::alu::rlc(v);
                self.write_operand_resolved(target, out.value);
                self.registers.f = out.flags;
            },
        }
        proof {
            assert(self@ == crate::model::spec_apply(old(self)@, crate::decode::spec_decode(opcode)));
        }
        self.advance_pc(len);
        Ok(())
    }

    /// One instruction: a no-op on a halted machine, otherwise fetch the byte
    /// at the program counter and dispatch it.
    pub fn step(&mut self) -> (r: Result<(), CpuError>)
        requires
            old(self).wf(),
        ensures
            final(self).wf(),
            ({
                let (m, e) = spec_step(old(self)@);
                final(self)@ == m && (match e {
                    None => r is Ok,
                    Some(err) => r == Err::<(), CpuError>(err),
                })
            }),
    {
        if self.halted {
            return Ok(());
        }
        let opcode = self.bus.read_byte(self.pc);
        self.execute(opcode)
    }

    /// Copies the value one operand source denotes into another. Fails with
    /// `InvalidOperand`, changing nothing, when the destination is the
    /// read-only immediate.
    pub fn load(&mut self, target: OperandSource, val: OperandSource) -> (r: Result<
        (),
        CpuError,
    >)
        requires
            old(self).wf(),
        ensures
            final(self).wf(),
            spec_writable(target) ==> r is Ok && final(self)@ == spec_write_operand(
                old(self)@,
                target,
                spec_read_operand(old(self)@, val),
            ),
            !spec_writable(target) ==> r == Err::<(), CpuError>(CpuError::InvalidOperand)
                && *final(self) == *old(self),
    {
        let value = self.read_operand(val);
        self.write_operand(target, value)
    }

    /// Copies the byte at the given address into an operand destination.
    pub fn load_address_into(&mut self, target: OperandSource, address: u16) -> (r: Result<
        (),
        CpuError,
    >)
        requires
            old(self).wf(),
        ensures
            final(self).wf(),
            spec_writable(target) ==> r is Ok && final(self)@ == spec_write_operand(
                old(self)@,
                target,
                old(self)@.mem[address as int],
            ),
            !spec_writable(target) ==> r == Err::<(), CpuError>(CpuError::InvalidOperand)
                && *final(self) == *old(self),
    {
        let value = self.bus.read_byte(address);
        self.write_operand(target, value)
    }

    /// Copies the value one operand source denotes into the cell at the given
    /// address. Total: every source can be read.
    pub fn load_into_address(&mut self, address: u16, source: OperandSource)
        requires
            old(self).wf(),
        ensures
            final(self).wf(),
            final(self)@ == (CpuModel {
                mem: old(self)@.mem.update(
                    address as int,
                    spec_read_operand(old(self)@, source),
                ),
                ..old(self)@
            }),
    {
        let value = self.read_operand(source);
        self.bus.write_byte(address, value);
    }

    /// Writes a 16-bit value through one of the paired register views.
    pub fn load_16(&mut self, target: Pair, value: u16)
        ensures
            final(self).registers == old(self).registers.spec_set_pair(target, value),
            final(self).pc == old(self).pc,
            final(self).bus == old(self).bus,
            final(self).halted == old(self).halted,
            final(self).strict == old(self).strict,
    {
        self.registers.set_pair(target, value);
    }
}

} // verus!
