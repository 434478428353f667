//! The opcodes of the instruction set.
//!
//! An instruction is one opcode byte followed by its operand bytes, in the
//! order in which the interpreter consumes them. A 16-bit operand is stored
//! high byte first. A register operand is one byte, the register's id.

use vstd::prelude::*;

verus! {

/// Operands: a 16-bit literal, then a destination register.
/// The destination register receives the literal.
pub const MOV_LIT_REG: u8 = 0x10;

/// Operands: a source register, then a destination register.
/// The destination register receives the value of the source register.
pub const MOV_REG_REG: u8 = 0x11;

/// Operands: a source register, then a 16-bit address.
/// The word at the address receives the value of the source register.
pub const MOV_REG_MEM: u8 = 0x12;

/// Operands: a 16-bit address, then a destination register.
/// The destination register receives the word at the address.
pub const MOV_MEM_REG: u8 = 0x13;

/// Operands: two addend selectors, one byte each; 1 selects `R1` and 2
/// selects `R2`. The accumulator receives the sum of the two selected
/// registers, modulo 2^16.
pub const ADD_REG_REG: u8 = 0x14;

/// Operands: a 16-bit literal, then a 16-bit address.
/// If the literal differs from the accumulator, the instruction pointer
/// receives the address.
pub const JMP_NOT_EQ: u8 = 0x15;

/// Whether `byte` is the opcode of an instruction.
pub open spec fn is_opcode(byte: u8) -> bool {
    byte == MOV_LIT_REG || byte == MOV_REG_REG || byte == MOV_REG_MEM || byte == MOV_MEM_REG
        || byte == ADD_REG_REG || byte == JMP_NOT_EQ
}

} // verus!
