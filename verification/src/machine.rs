//! The machine as mathematics: its state, and what each operation of the
//! interpreter does to it.
//!
//! Every operation is a function from a state to a [`Transition`]: the state
//! it leaves and either its result or the fault that stopped it. An operation
//! that faults keeps what the fetches before the fault did to the instruction
//! pointer, and changes nothing else.

use vstd::prelude::*;
use crate::fault::Fault;
use crate::instruction::{
    ADD_REG_REG, JMP_NOT_EQ, MOV_LIT_REG, MOV_MEM_REG, MOV_REG_MEM, MOV_REG_REG,
};
use crate::memory::{read_byte, read_word, write_word};
use crate::register::RegisterName;

verus! {

/// The sum of two register values, modulo 2^16.
pub open spec fn wrapping_sum(a: u16, b: u16) -> u16 {
    ((a as int + b as int) % 0x1_0000) as u16
}

/// The register that an operand byte of the addition selects: 1 selects `R1`
/// and 2 selects `R2`. Any other byte that is a register id is an unsupported
/// operand, and a byte that is no register id at all is an invalid one.
pub open spec fn addend_register(selector: u8) -> Result<RegisterName, Fault> {
    if selector == 1 {
        Ok(RegisterName::R1)
    } else if selector == 2 {
        Ok(RegisterName::R2)
    } else if RegisterName::from_id(selector) is Some {
        Err(Fault::UnsupportedOperand)
    } else {
        Err(Fault::InvalidRegisterId)
    }
}

/// The register that an operand byte names, or the fault for a byte that
/// names none.
pub open spec fn operand_register(id: u8) -> Result<RegisterName, Fault> {
    match RegisterName::from_id(id) {
        Some(name) => Ok(name),
        None => Err(Fault::InvalidRegisterId),
    }
}

/// The whole state of the machine: the value of every register and the
/// content of the memory.
#[verifier::ext_equal]
pub struct Machine {
    pub registers: Map<RegisterName, u16>,
    pub memory: Seq<u8>,
}

/// What an operation leaves behind: the state after it, and its result or
/// the fault that stopped it.
#[verifier::ext_equal]
pub struct Transition<T> {
    pub next: Machine,
    pub result: Result<T, Fault>,
}

impl Machine {
    /// The state of a machine that has just been given `memory`: every
    /// register holds 0.
    pub open spec fn initial(memory: Seq<u8>) -> Machine {
        Machine { registers: Map::total(|name: RegisterName| 0u16), memory }
    }

    /// The value of the register `name`.
    pub open spec fn register(self, name: RegisterName) -> u16 {
        self.registers[name]
    }

    /// The instruction pointer.
    pub open spec fn ip(self) -> u16 {
        self.register(RegisterName::Ip)
    }

    /// The value that the addend selector `selector` selects, or the fault
    /// for a selector that the addition does not take.
    pub open spec fn addend(self, selector: u8) -> Result<u16, Fault> {
        match addend_register(selector) {
            Ok(name) => Ok(self.register(name)),
            Err(fault) => Err(fault),
        }
    }

    /// This state with the register `name` overwritten.
    pub open spec fn with_register(self, name: RegisterName, value: u16) -> Machine {
        Machine { registers: self.registers.insert(name, value), memory: self.memory }
    }

    /// This state with the memory replaced.
    pub open spec fn with_memory(self, memory: Seq<u8>) -> Machine {
        Machine { registers: self.registers, memory }
    }

    /// This state with the instruction pointer moved forward by `count`
    /// bytes, modulo 2^16.
    pub open spec fn advanced(self, count: u16) -> Machine {
        self.with_register(RegisterName::Ip, wrapping_sum(self.ip(), count))
    }

    /// Whether `self` and `other` differ at most in the instruction pointer.
    pub open spec fn same_but_ip(self, other: Machine) -> bool {
        &&& self.memory == other.memory
        &&& forall|name: RegisterName|
            name != RegisterName::Ip ==> #[trigger] self.register(name) == other.register(name)
    }

    /// The operation succeeded in this state with `value`.
    pub open spec fn done<T>(self, value: T) -> Transition<T> {
        Transition { next: self, result: Ok(value) }
    }

    /// The operation stopped in this state with `fault`.
    pub open spec fn stopped<T>(self, fault: Fault) -> Transition<T> {
        Transition { next: self, result: Err(fault) }
    }

    /// Fetching a byte: reads the byte at the instruction pointer, then moves
    /// the pointer one byte forward. Outside the memory nothing changes.
    pub open spec fn fetch(self) -> Transition<u8> {
        match read_byte(self.memory, self.ip() as int) {
            Ok(byte) => self.advanced(1).done(byte),
            Err(fault) => self.stopped(fault),
        }
    }

    /// Fetching a word: reads the word at the instruction pointer, then moves
    /// the pointer two bytes forward. Unless both bytes lie inside the memory
    /// nothing changes.
    pub open spec fn fetch_word(self) -> Transition<u16> {
        match read_word(self.memory, self.ip() as int) {
            Ok(word) => self.advanced(2).done(word),
            Err(fault) => self.stopped(fault),
        }
    }

    /// `MOV_LIT_REG`, after its opcode: fetches a literal and a register id,
    /// and gives the register the literal.
    pub open spec fn mov_lit_reg(self) -> Transition<()> {
        let literal = self.fetch_word();
        match literal.result {
            Err(fault) => literal.next.stopped(fault),
            Ok(value) => {
                let id = literal.next.fetch();
                match id.result {
                    Err(fault) => id.next.stopped(fault),
                    Ok(dest_id) => match operand_register(dest_id) {
                        Err(fault) => id.next.stopped(fault),
                        Ok(dest) => id.next.with_register(dest, value).done(()),
                    },
                }
            },
        }
    }

    /// `MOV_REG_REG`, after its opcode: fetches two register ids, and gives
    /// the second register the value of the first.
    pub open spec fn mov_reg_reg(self) -> Transition<()> {
        let first = self.fetch();
        match first.result {
            Err(fault) => first.next.stopped(fault),
            Ok(src_id) => {
                let second = first.next.fetch();
                match second.result {
                    Err(fault) => second.next.stopped(fault),
                    Ok(dest_id) => match (operand_register(src_id), operand_register(dest_id)) {
                        (Err(fault), _) => second.next.stopped(fault),
                        (Ok(_), Err(fault)) => second.next.stopped(fault),
                        (Ok(src), Ok(dest)) => second.next.with_register(
                            dest,
                            second.next.register(src),
                        ).done(()),
                    },
                }
            },
        }
    }

    /// `MOV_REG_MEM`, after its opcode: fetches a register id and an address,
    /// and writes the register's value to the word at the address. An invalid
    /// register id stops the instruction before the address is fetched.
    pub open spec fn mov_reg_mem(self) -> Transition<()> {
        let id = self.fetch();
        match id.result {
            Err(fault) => id.next.stopped(fault),
            Ok(src_id) => match operand_register(src_id) {
                Err(fault) => id.next.stopped(fault),
                Ok(src) => {
                    let address = id.next.fetch_word();
                    match address.result {
                        Err(fault) => address.next.stopped(fault),
                        Ok(target) => match write_word(
                            address.next.memory,
                            target as int,
                            address.next.register(src),
                        ) {
                            Err(fault) => address.next.stopped(fault),
                            Ok(memory) => address.next.with_memory(memory).done(()),
                        },
                    }
                },
            },
        }
    }

    /// `MOV_MEM_REG`, after its opcode: fetches an address and a register id,
    /// and gives the register the word at the address.
    pub open spec fn mov_mem_reg(self) -> Transition<()> {
        let address = self.fetch_word();
        match address.result {
            Err(fault) => address.next.stopped(fault),
            Ok(source) => {
                let id = address.next.fetch();
                match id.result {
                    Err(fault) => id.next.stopped(fault),
                    Ok(dest_id) => match operand_register(dest_id) {
                        Err(fault) => id.next.stopped(fault),
                        Ok(dest) => match read_word(id.next.memory, source as int) {
                            Err(fault) => id.next.stopped(fault),
                            Ok(value) => id.next.with_register(dest, value).done(()),
                        },
                    },
                }
            },
        }
    }

    /// `ADD_REG_REG`, after its opcode: fetches two addend selectors, and
    /// gives the accumulator the sum of the selected registers, modulo 2^16.
    pub open spec fn add_reg_reg(self) -> Transition<()> {
        let first = self.fetch();
        match first.result {
            Err(fault) => first.next.stopped(fault),
            Ok(left) => {
                let second = first.next.fetch();
                match second.result {
                    Err(fault) => second.next.stopped(fault),
                    Ok(right) => match (second.next.addend(left), second.next.addend(right)) {
                        (Err(fault), _) => second.next.stopped(fault),
                        (Ok(_), Err(fault)) => second.next.stopped(fault),
                        (Ok(a), Ok(b)) => second.next.with_register(
                            RegisterName::Acc,
                            wrapping_sum(a, b),
                        ).done(()),
                    },
                }
            },
        }
    }

    /// `JMP_NOT_EQ`, after its opcode: fetches a literal and an address, and
    /// moves the instruction pointer to the address if the literal differs
    /// from the accumulator. Otherwise the pointer stays behind the
    /// instruction.
    pub open spec fn jmp_not_eq(self) -> Transition<()> {
        let literal = self.fetch_word();
        match literal.result {
            Err(fault) => literal.next.stopped(fault),
            Ok(value) => {
                let address = literal.next.fetch_word();
                match address.result {
                    Err(fault) => address.next.stopped(fault),
                    Ok(target) => if value != address.next.register(RegisterName::Acc) {
                        address.next.with_register(RegisterName::Ip, target).done(())
                    } else {
                        address.next.done(())
                    },
                }
            },
        }
    }

    /// Executing the instruction whose opcode has just been fetched. A byte
    /// that is no opcode is a fault, and changes nothing.
    pub open spec fn execute(self, opcode: u8) -> Transition<()> {
        if opcode == MOV_LIT_REG {
            self.mov_lit_reg()
        } else if opcode == MOV_REG_REG {
            self.mov_reg_reg()
        } else if opcode == MOV_REG_MEM {
            self.mov_reg_mem()
        } else if opcode == MOV_MEM_REG {
            self.mov_mem_reg()
        } else if opcode == ADD_REG_REG {
            self.add_reg_reg()
        } else if opcode == JMP_NOT_EQ {
            self.jmp_not_eq()
        } else {
            self.stopped(Fault::InvalidOpcode)
        }
    }

    /// One step: fetches an opcode and executes its instruction.
    pub open spec fn step(self) -> Transition<()> {
        let opcode = self.fetch();
        match opcode.result {
            Err(fault) => opcode.next.stopped(fault),
            Ok(byte) => opcode.next.execute(byte),
        }
    }
}

} // verus!
