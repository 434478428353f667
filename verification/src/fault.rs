//! The ways in which an operation of the machine can fail.

use vstd::prelude::*;

verus! {

/// A fault raised by the memory or by the interpreter. Every fault is final
/// for the operation that raised it: nothing is retried.
#[derive(Clone, Copy, Debug, PartialEq, Eq, Structural)]
pub enum Fault {
    /// A byte access at an address that is not below the capacity, or a word
    /// access whose second byte is not.
    OutOfBoundsAddress,
    /// An opcode byte that names no instruction.
    InvalidOpcode,
    /// An operand byte that should name a register and names none.
    InvalidRegisterId,
    /// An operand byte of the addition that is a register id but selects
    /// neither of the two registers that the addition takes.
    UnsupportedOperand,
}

} // verus!
