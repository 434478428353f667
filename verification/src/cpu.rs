//! The interpreter: a register file and a memory, driven one instruction at a
//! time.

use vstd::prelude::*;
use crate::fault::Fault;
use crate::instruction::{
    ADD_REG_REG, JMP_NOT_EQ, MOV_LIT_REG, MOV_MEM_REG, MOV_REG_MEM, MOV_REG_REG,
};
use crate::machine::{operand_register, Machine};
use crate::memory::Memory;
use crate::register::{RegisterFile, RegisterName};

verus! {

/// The interpreter. It owns its memory for as long as it runs.
pub struct CPU {
    registers: RegisterFile,
    memory: Memory,
}

impl View for CPU {
    type V = Machine;

    closed spec fn view(&self) -> Machine {
        Machine { registers: self.registers@, memory: self.memory@ }
    }
}

impl CPU {
    /// An interpreter over `memory`, with every register at 0.
    pub fn new(memory: Memory) -> (cpu: CPU)
        ensures
            cpu@ == Machine::initial(memory@),
            forall|name: RegisterName| cpu@.register(name) == 0,
    {
        CPU { registers: RegisterFile::new(), memory }
    }

    /// The value of the register `name`.
    pub fn get_register_value(&self, name: RegisterName) -> (value: u16)
        ensures
            value == self@.register(name),
    {
        self.registers.get(name)
    }

    /// Overwrites the register `name` with `value`. Nothing else changes.
    pub fn set_register_value(&mut self, name: RegisterName, value: u16)
        ensures
            final(self)@ == old(self)@.with_register(name, value),
    {
        self.registers.set(name, value);
    }

    /// The memory, to look at.
    pub fn memory(&self) -> (memory: &Memory)
        ensures
            memory@ == self@.memory,
    {
        &self.memory
    }

    /// The values of all registers, as they are now.
    pub fn registers(&self) -> (file: RegisterFile)
        ensures
            file@ == self@.registers,
    {
        self.registers
    }

    /// Gives the memory back and ends the run.
    pub fn into_memory(self) -> (memory: Memory)
        ensures
            memory@ == self@.memory,
    {
        self.memory
    }

    /// Reads the byte at the instruction pointer and moves the pointer one
    /// byte forward, modulo 2^16. Outside the memory it faults and changes
    /// nothing.
    pub fn fetch(&mut self) -> (r: Result<u8, Fault>)
        ensures
            final(self)@ == old(self)@.fetch().next,
            r == old(self)@.fetch().result,
            r is Ok <==> old(self)@.ip() < old(self)@.memory.len(),
            r is Ok ==> final(self)@.ip() as int == (old(self)@.ip() + 1) % 0x1_0000,
            r is Ok ==> final(self)@.same_but_ip(old(self)@),
            r is Err ==> final(self)@ == old(self)@,
    {
        let ip = self.registers.get(RegisterName::Ip);
        let byte = self.memory.get_memory_u8(ip as usize)?;
        self.registers.set(RegisterName::Ip, ip.wrapping_add(1));
        Ok(byte)
    }

    /// Reads the word at the instruction pointer and moves the pointer two
    /// bytes forward, modulo 2^16. Unless both bytes lie inside the memory it
    /// faults and changes nothing.
    pub fn fetch_16(&mut self) -> (r: Result<u16, Fault>)
        ensures
            final(self)@ == old(self)@.fetch_word().next,
            r == old(self)@.fetch_word().result,
            r is Ok <==> old(self)@.ip() + 1 < old(self)@.memory.len(),
            r is Ok ==> final(self)@.ip() as int == (old(self)@.ip() + 2) % 0x1_0000,
            r is Ok ==> final(self)@.same_but_ip(old(self)@),
            r is Err ==> final(self)@ == old(self)@,
    {
        let ip = self.registers.get(RegisterName::Ip);
        let word = self.memory.get_memory_u16(ip as usize)?;
        self.registers.set(RegisterName::Ip, ip.wrapping_add(2));
        Ok(word)
    }

    /// The register that the operand byte `num` names.
    pub fn number_to_register(num: u8) -> (r: Result<RegisterName, Fault>)
        ensures
            r == operand_register(num),
    {
        match num {
            0x00 => Ok(RegisterName::Ip),
            0x01 => Ok(RegisterName::Acc),
            0x02 => Ok(RegisterName::R1),
            0x03 => Ok(RegisterName::R2),
            0x04 => Ok(RegisterName::R3),
            0x05 => Ok(RegisterName::R4),
            0x06 => Ok(RegisterName::R5),
            0x07 => Ok(RegisterName::R6),
            0x08 => Ok(RegisterName::R7),
            0x09 => Ok(RegisterName::R8),
            _ => Err(Fault::InvalidRegisterId),
        }
    }

    /// The value of the register that the addend selector `num` selects.
    pub fn u8_to_register_value(&self, num: u8) -> (r: Result<u16, Fault>)
        ensures
            r == self@.addend(num),
    {
        match num {
            0x01 => Ok(self.get_register_value(RegisterName::R1)),
            0x02 => Ok(self.get_register_value(RegisterName::R2)),
            0x00 | 0x03..=0x09 => Err(Fault::UnsupportedOperand),
            _ => Err(Fault::InvalidRegisterId),
        }
    }

    /// `MOV_LIT_REG`, after its opcode.
    fn mov_lit_reg(&mut self) -> (r: Result<(), Fault>)
        ensures
            final(self)@ == old(self)@.mov_lit_reg().next,
            r == old(self)@.mov_lit_reg().result,
    {
        let literal = self.fetch_16()?;
        let register_number = self.fetch()?;
        let register = Self::number_to_register(register_number)?;
        self.set_register_value(register, literal);
        Ok(())
    }

    /// `MOV_REG_REG`, after its opcode.
    fn mov_reg_reg(&mut self) -> (r: Result<(), Fault>)
        ensures
            final(self)@ == old(self)@.mov_reg_reg().next,
            r == old(self)@.mov_reg_reg().result,
    {
        let from_register_number = self.fetch()?;
        let to_register_number = self.fetch()?;
        let from_register = Self::number_to_register(from_register_number)?;
        let to_register = Self::number_to_register(to_register_number)?;
        let value_from_register = self.get_register_value(from_register);
        self.set_register_value(to_register, value_from_register);
        Ok(())
    }

    /// `MOV_REG_MEM`, after its opcode.
    fn mov_reg_mem(&mut self) -> (r: Result<(), Fault>)
        ensures
            final(self)@ == old(self)@.mov_reg_mem().next,
            r == old(self)@.mov_reg_mem().result,
    {
        let from_register_number = self.fetch()?;
        let from_register = Self::number_to_register(from_register_number)?;
        let memory_address = self.fetch_16()?;
        let value_from_register = self.get_register_value(from_register);
        self.memory.set_memory_u16(memory_address as usize, value_from_register)?;
        Ok(())
    }

    /// `MOV_MEM_REG`, after its opcode.
    fn mov_mem_reg(&mut self) -> (r: Result<(), Fault>)
        ensures
            final(self)@ == old(self)@.mov_mem_reg().next,
            r == old(self)@.mov_mem_reg().result,
    {
        let memory_address = self.fetch_16()?;
        let to_register_number = self.fetch()?;
        let to_register = Self::number_to_register(to_register_number)?;
        let memory_value = self.memory.get_memory_u16(memory_address as usize)?;
        self.set_register_value(to_register, memory_value);
        Ok(())
    }

    /// `ADD_REG_REG`, after its opcode.
    fn add_reg_reg(&mut self) -> (r: Result<(), Fault>)
        ensures
            final(self)@ == old(self)@.add_reg_reg().next,
            r == old(self)@.add_reg_reg().result,
    {
        let left = self.fetch()?;
        let right = self.fetch()?;
        let left_value = self.u8_to_register_value(left)?;
        let right_value = self.u8_to_register_value(right)?;
        let sum = left_value.wrapping_add(right_value);
        self.set_register_value(RegisterName::Acc, sum);
        Ok(())
    }

    /// `JMP_NOT_EQ`, after its opcode.
    fn jmp_not_eq(&mut self) -> (r: Result<(), Fault>)
        ensures
            final(self)@ == old(self)@.jmp_not_eq().next,
            r == old(self)@.jmp_not_eq().result,
    {
        let value = self.fetch_16()?;
        let address = self.fetch_16()?;
        if value != self.get_register_value(RegisterName::Acc) {
            self.set_register_value(RegisterName::Ip, address);
        }
        Ok(())
    }

    /// Executes the instruction whose opcode `instruction` has just been
    /// fetched: consumes its operands, then applies its effect. A byte that
    /// is no opcode is an invalid opcode, and changes nothing. An instruction
    /// that faults has consumed the operands before the fault and written
    /// nothing.
    pub fn execute(&mut self, instruction: u8) -> (r: Result<(), Fault>)
        ensures
            final(self)@ == old(self)@.execute(instruction).next,
            r == old(self)@.execute(instruction).result,
            r is Err ==> final(self)@.same_but_ip(old(self)@),
            final(self)@.memory.len() == old(self)@.memory.len(),
    {
        proof {
            self@.lemma_execute_frame(instruction);
        }
        if instruction == MOV_LIT_REG {
            self.mov_lit_reg()
        } else if instruction == MOV_REG_REG {
            self.mov_reg_reg()
        } else if instruction == MOV_REG_MEM {
            self.mov_reg_mem()
        } else if instruction == MOV_MEM_REG {
            self.mov_mem_reg()
        } else if instruction == ADD_REG_REG {
            self.add_reg_reg()
        } else if instruction == JMP_NOT_EQ {
            self.jmp_not_eq()
        } else {
            Err(Fault::InvalidOpcode)
        }
    }

    /// Executes one instruction: fetches the opcode at the instruction
    /// pointer, then executes the instruction it names.
    pub fn step(&mut self) -> (r: Result<(), Fault>)
        ensures
            final(self)@ == old(self)@.step().next,
            r == old(self)@.step().result,
            r is Err ==> final(self)@.same_but_ip(old(self)@),
            final(self)@.memory.len() == old(self)@.memory.len(),
    {
        proof {
            self@.lemma_step_frame();
        }
        let instruction = self.fetch()?;
        self.execute(instruction)
    }
}

} // verus!
