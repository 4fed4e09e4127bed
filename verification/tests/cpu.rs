//! End-to-end behavior of the fetch-decode-execute stepper.

use gb_core::cpu::CPU;
use gb_core::decode::{decode, instruction_len, Instruction, OperandSource};
use gb_core::error::CpuError;
use gb_core::registers::{Pair, Reg8};

#[test]
fn register_operand_round_trip() {
    let regs8 = [Reg8::A, Reg8::B, Reg8::C, Reg8::D, Reg8::E, Reg8::H, Reg8::L];
    let mut cpu = CPU::new(true);
    for (k, r) in regs8.iter().enumerate() {
        let source = OperandSource::Register(*r);
        assert_eq!(cpu.write_operand(source, 0x21 + k as u8), Ok(()));
        assert_eq!(cpu.read_operand(source), 0x21 + k as u8);
    }
}

#[test]
fn writing_the_immediate_fails_and_changes_nothing() {
    let mut cpu = CPU::new(true);
    cpu.registers.a = 7;
    cpu.pc = 3;
    let r = cpu.write_operand(OperandSource::Immediate8, 0x99);
    assert_eq!(r, Err(CpuError::InvalidOperand));
    assert_eq!(cpu.registers.a, 7);
    assert_eq!(cpu.pc, 3);
    assert_eq!(cpu.bus.read_byte(4), 0);

    let r = cpu.load(OperandSource::Immediate8, OperandSource::Register(Reg8::A));
    assert_eq!(r, Err(CpuError::InvalidOperand));
}

#[test]
fn load_copies_between_sources() {
    let mut cpu = CPU::new(true);
    cpu.registers.b = 0x42;
    assert_eq!(
        cpu.load(OperandSource::Register(Reg8::A), OperandSource::Register(Reg8::B)),
        Ok(())
    );
    assert_eq!(cpu.registers.a, 0x42);
}

#[test]
fn load_address_into_and_back() {
    let mut cpu = CPU::new(true);
    cpu.bus.write_byte(0x2000, 0x5A);
    assert_eq!(
        cpu.load_address_into(OperandSource::Register(Reg8::C), 0x2000),
        Ok(())
    );
    assert_eq!(cpu.registers.c, 0x5A);

    cpu.registers.d = 0xA5;
    cpu.load_into_address(0x2001, OperandSource::Register(Reg8::D));
    assert_eq!(cpu.bus.read_byte(0x2001), 0xA5);
}

#[test]
fn load_16_writes_a_pair() {
    let mut cpu = CPU::new(true);
    cpu.load_16(Pair::HL, 0xC123);
    assert_eq!(cpu.registers.h, 0xC1);
    assert_eq!(cpu.registers.l, 0x23);
}

#[test]
fn three_instruction_program() {
    // LD A,0x05 / LD B,0x03 / ADD A,B
    let mut cpu = CPU::new(true);
    let image = vec![0x3Eu8, 0x05, 0x06, 0x03, 0x80];
    cpu.bus.load(0, &image);
    cpu.pc = 0;
    assert_eq!(cpu.step(), Ok(()));
    assert_eq!(cpu.registers.a, 5);
    assert_eq!(cpu.pc, 2);
    assert_eq!(cpu.step(), Ok(()));
    assert_eq!(cpu.registers.b, 3);
    assert_eq!(cpu.pc, 4);
    assert_eq!(cpu.step(), Ok(()));
    assert_eq!(cpu.registers.a, 8);
    assert!(!cpu.registers.f.zero);
    assert!(!cpu.registers.f.carry);
    assert!(!cpu.registers.f.half_carry);
    assert_eq!(cpu.pc, 5);
    assert!(!cpu.halted);
}

#[test]
fn inc_a_wraps_and_leaves_carry() {
    let mut cpu = CPU::new(true);
    cpu.registers.a = 0xFF;
    cpu.registers.f.carry = true;
    assert_eq!(cpu.execute(0x3C), Ok(()));
    assert_eq!(cpu.registers.a, 0x00);
    assert!(cpu.registers.f.zero);
    assert!(cpu.registers.f.half_carry);
    assert!(!cpu.registers.f.subtract);
    assert!(cpu.registers.f.carry);

    let mut cpu = CPU::new(true);
    cpu.registers.a = 0xFF;
    cpu.registers.f.carry = false;
    assert_eq!(cpu.execute(0x3C), Ok(()));
    assert!(!cpu.registers.f.carry);
}

#[test]
fn unknown_opcode_strict_fails_pc_unchanged() {
    let mut cpu = CPU::new(true);
    cpu.bus.write_byte(0, 0xFF);
    cpu.pc = 0;
    assert_eq!(cpu.step(), Err(CpuError::UnknownOpcode(0xFF)));
    assert_eq!(cpu.pc, 0);
    assert!(!cpu.halted);
}

#[test]
fn unknown_opcode_permissive_is_a_one_byte_no_op() {
    let mut cpu = CPU::new(false);
    cpu.bus.write_byte(0, 0xFF);
    cpu.registers.a = 9;
    cpu.pc = 0;
    assert_eq!(cpu.step(), Ok(()));
    assert_eq!(cpu.pc, 1);
    assert_eq!(cpu.registers.a, 9);
    assert!(!cpu.halted);
}

#[test]
fn pc_overflow_halts_and_keeps_the_instruction_effect() {
    // INC A at the very top of the address space: the increment lands, the
    // next program counter would be 0x10000, the machine halts.
    let mut cpu = CPU::new(true);
    cpu.bus.write_byte(0xFFFF, 0x3C);
    cpu.pc = 0xFFFF;
    cpu.registers.a = 1;
    assert_eq!(cpu.step(), Ok(()));
    assert_eq!(cpu.registers.a, 2);
    assert!(cpu.halted);
    assert_eq!(cpu.pc, 0);
}

#[test]
fn immediate_read_wraps_at_the_top() {
    // LD A,d8 at 0xFFFF takes its immediate from address 0.
    let mut cpu = CPU::new(true);
    cpu.bus.write_byte(0xFFFF, 0x3E);
    cpu.bus.write_byte(0x0000, 0x7E);
    cpu.pc = 0xFFFF;
    assert_eq!(cpu.step(), Ok(()));
    assert_eq!(cpu.registers.a, 0x7E);
    assert!(cpu.halted);
}

#[test]
fn halt_opcode_stops_the_machine() {
    let mut cpu = CPU::new(true);
    cpu.bus.write_byte(0, 0x76);
    cpu.pc = 0;
    assert_eq!(cpu.step(), Ok(()));
    assert!(cpu.halted);
    assert_eq!(cpu.pc, 1);
}

#[test]
fn step_on_a_halted_machine_is_a_no_op() {
    let mut cpu = CPU::new(true);
    cpu.bus.write_byte(0, 0x3C);
    cpu.halted = true;
    cpu.registers.a = 5;
    assert_eq!(cpu.step(), Ok(()));
    assert_eq!(cpu.registers.a, 5);
    assert_eq!(cpu.pc, 0);
    assert!(cpu.halted);
}

#[test]
fn indirect_loads_go_through_hl() {
    let mut cpu = CPU::new(true);
    cpu.registers.h = 0x30;
    cpu.registers.l = 0x00;
    cpu.bus.write_byte(0x3000, 0x66);
    // LD B,(HL)
    assert_eq!(cpu.execute(0x46), Ok(()));
    assert_eq!(cpu.registers.b, 0x66);
    // LD (HL),A
    cpu.registers.a = 0x99;
    assert_eq!(cpu.execute(0x77), Ok(()));
    assert_eq!(cpu.bus.read_byte(0x3000), 0x99);
}

#[test]
fn ld_hl_immediate_writes_memory() {
    // LD (HL),d8
    let mut cpu = CPU::new(true);
    let image = vec![0x36u8, 0xAB];
    cpu.bus.load(0, &image);
    cpu.registers.h = 0x40;
    cpu.registers.l = 0x05;
    cpu.pc = 0;
    assert_eq!(cpu.step(), Ok(()));
    assert_eq!(cpu.bus.read_byte(0x4005), 0xAB);
    assert_eq!(cpu.pc, 2);
}

#[test]
fn immediate_alu_advances_by_two() {
    // ADD A,d8 then SUB A,d8
    let mut cpu = CPU::new(true);
    let image = vec![0xC6u8, 0x0F, 0xD6, 0x10];
    cpu.bus.load(0, &image);
    cpu.registers.a = 1;
    cpu.pc = 0;
    assert_eq!(cpu.step(), Ok(()));
    assert_eq!(cpu.registers.a, 0x10);
    assert!(cpu.registers.f.half_carry);
    assert_eq!(cpu.pc, 2);
    assert_eq!(cpu.step(), Ok(()));
    assert_eq!(cpu.registers.a, 0x00);
    assert!(cpu.registers.f.zero);
    assert!(cpu.registers.f.subtract);
    assert_eq!(cpu.pc, 4);
}

#[test]
fn rlc_a_through_the_decoder() {
    let mut cpu = CPU::new(true);
    cpu.registers.a = 0x80;
    assert_eq!(cpu.execute(0x07), Ok(()));
    assert_eq!(cpu.registers.a, 0x01);
    assert!(cpu.registers.f.carry);
}

#[test]
fn decoder_maps_the_grid() {
    assert_eq!(decode(0x00), Instruction::Nop);
    assert_eq!(decode(0x76), Instruction::Halt);
    assert_eq!(
        decode(0x80),
        Instruction::Add(OperandSource::Register(Reg8::B))
    );
    assert_eq!(
        decode(0x86),
        Instruction::Add(OperandSource::IndirectViaPair(Pair::HL))
    );
    assert_eq!(
        decode(0x9F),
        Instruction::Sbc(OperandSource::Register(Reg8::A))
    );
    assert_eq!(
        decode(0xA1),
        Instruction::And(OperandSource::Register(Reg8::C))
    );
    assert_eq!(
        decode(0xAA),
        Instruction::Xor(OperandSource::Register(Reg8::D))
    );
    assert_eq!(
        decode(0xB3),
        Instruction::Or(OperandSource::Register(Reg8::E))
    );
    assert_eq!(
        decode(0xBC),
        Instruction::Cp(OperandSource::Register(Reg8::H))
    );
    assert_eq!(
        decode(0x65),
        Instruction::Load(
            OperandSource::Register(Reg8::H),
            OperandSource::Register(Reg8::L)
        )
    );
    assert_eq!(
        decode(0x2E),
        Instruction::Load(OperandSource::Register(Reg8::L), OperandSource::Immediate8)
    );
    assert_eq!(decode(0x35), Instruction::Dec(OperandSource::IndirectViaPair(Pair::HL)));
    assert_eq!(decode(0xFE), Instruction::Cp(OperandSource::Immediate8));
    assert_eq!(decode(0xFF), Instruction::Unknown(0xFF));
    assert_eq!(decode(0x01), Instruction::Unknown(0x01));

    assert_eq!(instruction_len(decode(0x80)), 1);
    assert_eq!(instruction_len(decode(0x3E)), 2);
    assert_eq!(instruction_len(decode(0xFE)), 2);
    assert_eq!(instruction_len(decode(0xFF)), 1);
}
