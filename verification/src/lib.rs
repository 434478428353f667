//! A minimal virtual processor: a byte-addressable memory, ten 16-bit
//! registers, and an interpreter that executes one instruction per step.
//!
//! Every operation that can go wrong returns a [`fault::Fault`] instead of
//! aborting, and every contract is stated over a mathematical model of the
//! machine: memory as a sequence of bytes, the register file as a total map
//! from register names to 16-bit values.
//!
//! - [`memory`]: the byte store, and what reading and writing mean.
//! - [`register`]: the register names and the register file.
//! - [`instruction`]: the opcodes.
//! - [`machine`]: the state of the machine and its operations, as
//!   mathematics.
//! - [`effects`]: what those operations amount to, proved.
//! - [`cpu`]: the interpreter itself.
//! - [`screen`]: the meaning of a word written to the screen device.

pub mod cpu;
pub mod effects;
pub mod fault;
pub mod instruction;
pub mod machine;
pub mod memory;
pub mod register;
pub mod screen;
