//! An 8-bit CPU instruction interpreter in the style of the Sharp LR35902:
//! a register file with condition flags, a byte-addressable memory bus, an
//! opcode decoder, an arithmetic/logic unit with exact flag semantics, and a
//! fetch-decode-execute stepper.

pub mod flags;
pub mod registers;
pub mod memory;
pub mod alu;
pub mod error;
pub mod decode;
pub mod model;
pub mod cpu;
