//! The failure taxonomy of the interpreter.

use vstd::prelude::*;

verus! {

/// The two ways an instruction can fail. Arithmetic and memory accesses are
/// total and never fail.
#[derive(Clone, Copy, Debug, PartialEq, Eq, Structural)]
pub enum CpuError {
    /// A write was attempted through a read-only operand source.
    InvalidOperand,
    /// The opcode byte has no decoder mapping and the interpreter runs in
    /// strict mode.
    UnknownOpcode(u8),
}

} // verus!
