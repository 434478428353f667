//! What the operations of the machine amount to: each instruction of the
//! table in closed form, and what holds of every fetch, every step and every
//! fault.

use vstd::prelude::*;
use crate::fault::Fault;
use crate::instruction::{
    is_opcode, ADD_REG_REG, JMP_NOT_EQ, MOV_LIT_REG, MOV_MEM_REG, MOV_REG_MEM, MOV_REG_REG,
};
use crate::machine::{addend_register, wrapping_sum, Machine};
use crate::memory::{byte_in_bounds, with_word, word_at, word_in_bounds};
use crate::register::RegisterName;

verus! {

impl Machine {
    /// The byte `offset` bytes after the instruction pointer.
    pub open spec fn operand(self, offset: int) -> u8 {
        self.memory[self.ip() + offset]
    }

    /// The word whose bytes lie `offset` and `offset + 1` bytes after the
    /// instruction pointer.
    pub open spec fn operand_word(self, offset: int) -> u16 {
        word_at(self.memory, self.ip() + offset)
    }

    /// Whether an instruction of `length` bytes with the opcode `opcode`
    /// stands at the instruction pointer: all its bytes lie inside the memory,
    /// at addresses that 16 bits can hold.
    pub open spec fn encodes(self, opcode: u8, length: int) -> bool {
        &&& self.ip() + length <= self.memory.len()
        &&& self.ip() + length <= 0x1_0000
        &&& self.operand(0) == opcode
    }

    /// Whether a whole instruction stands at the instruction pointer and can
    /// be carried out: its opcode is one of the six, its bytes lie inside the
    /// memory, its register operands name registers that it takes, and the
    /// word that it reads or writes lies inside the memory.
    pub open spec fn runnable(self) -> bool {
        ||| {
            &&& self.encodes(MOV_LIT_REG, 4)
            &&& RegisterName::from_id(self.operand(3)) is Some
        }
        ||| {
            &&& self.encodes(MOV_REG_REG, 3)
            &&& RegisterName::from_id(self.operand(1)) is Some
            &&& RegisterName::from_id(self.operand(2)) is Some
        }
        ||| {
            &&& self.encodes(MOV_REG_MEM, 4)
            &&& RegisterName::from_id(self.operand(1)) is Some
            &&& word_in_bounds(self.memory, self.operand_word(2) as int)
        }
        ||| {
            &&& self.encodes(MOV_MEM_REG, 4)
            &&& RegisterName::from_id(self.operand(3)) is Some
            &&& word_in_bounds(self.memory, self.operand_word(1) as int)
        }
        ||| {
            &&& self.encodes(ADD_REG_REG, 3)
            &&& addend_register(self.operand(1)) is Ok
            &&& addend_register(self.operand(2)) is Ok
        }
        ||| self.encodes(JMP_NOT_EQ, 5)
    }

    /// A fetch succeeds exactly when the instruction pointer lies inside the
    /// memory. It then returns the byte there and moves the pointer forward
    /// by one, modulo 2^16, whatever the byte is; nothing else changes. A
    /// fetch that faults changes nothing at all.
    pub proof fn lemma_fetch_advances_by_one(self)
        ensures
            self.fetch().result is Ok <==> byte_in_bounds(self.memory, self.ip() as int),
            self.fetch().result is Ok ==> self.fetch().result == Ok::<u8, Fault>(self.operand(0)),
            self.fetch().result is Ok ==> self.fetch().next.ip() as int == (self.ip() + 1)
                % 0x1_0000,
            self.fetch().result is Ok && self.ip() < 0xFFFF ==> self.fetch().next.ip()
                == self.ip() + 1,
            self.fetch().result is Ok ==> self.fetch().next.same_but_ip(self),
            self.fetch().result is Err ==> self.fetch() == self.stopped::<u8>(
                Fault::OutOfBoundsAddress,
            ),
    {
    }

    /// A word fetch succeeds exactly when the word at the instruction pointer
    /// lies inside the memory. It then returns that word and moves the
    /// pointer forward by two, modulo 2^16; nothing else changes. A word
    /// fetch that faults changes nothing at all.
    pub proof fn lemma_fetch_word_advances_by_two(self)
        ensures
            self.fetch_word().result is Ok <==> word_in_bounds(self.memory, self.ip() as int),
            self.fetch_word().result is Ok ==> self.fetch_word().result == Ok::<u16, Fault>(
                self.operand_word(0),
            ),
            self.fetch_word().result is Ok ==> self.fetch_word().next.ip() as int == (self.ip()
                + 2) % 0x1_0000,
            self.fetch_word().result is Ok && self.ip() < 0xFFFE ==> self.fetch_word().next.ip()
                == self.ip() + 2,
            self.fetch_word().result is Ok ==> self.fetch_word().next.same_but_ip(self),
            self.fetch_word().result is Err ==> self.fetch_word() == self.stopped::<u16>(
                Fault::OutOfBoundsAddress,
            ),
    {
    }

    /// Moving the instruction pointer forward twice is moving it forward once
    /// by the sum, as long as the sum fits in 16 bits.
    pub proof fn lemma_advanced_twice(self, first: u16, second: u16)
        requires
            first + second <= 0xFFFF,
        ensures
            self.advanced(first).advanced(second) == self.advanced((first + second) as u16),
    {
        assert(self.advanced(first).advanced(second).registers =~= self.advanced(
            (first + second) as u16,
        ).registers);
    }

    /// A step whose opcode byte lies outside the memory faults and changes
    /// nothing.
    pub proof fn lemma_step_outside_memory(self)
        requires
            !byte_in_bounds(self.memory, self.ip() as int),
        ensures
            self.step() == self.stopped::<()>(Fault::OutOfBoundsAddress),
    {
    }

    /// A step on a byte that is no opcode faults with an invalid opcode. It
    /// has moved the instruction pointer past that one byte and changed
    /// nothing else: no other register, and no byte of the memory.
    pub proof fn lemma_step_unknown_opcode(self)
        requires
            byte_in_bounds(self.memory, self.ip() as int),
            !is_opcode(self.operand(0)),
        ensures
            self.step() == self.advanced(1).stopped::<()>(Fault::InvalidOpcode),
            self.step().next.same_but_ip(self),
    {
    }

    /// `MOV_LIT_REG` keeps the capacity, and changes only the instruction pointer
    /// when it faults.
    proof fn lemma_mov_lit_reg_frame(self)
        ensures
            self.mov_lit_reg().next.memory.len() == self.memory.len(),
            self.mov_lit_reg().result is Err ==> self.mov_lit_reg().next.same_but_ip(self),
    {
    }

    /// `MOV_REG_REG` keeps the capacity, and changes only the instruction pointer
    /// when it faults.
    proof fn lemma_mov_reg_reg_frame(self)
        ensures
            self.mov_reg_reg().next.memory.len() == self.memory.len(),
            self.mov_reg_reg().result is Err ==> self.mov_reg_reg().next.same_but_ip(self),
    {
    }

    /// `MOV_REG_MEM` keeps the capacity, and changes only the instruction pointer
    /// when it faults.
    proof fn lemma_mov_reg_mem_frame(self)
        ensures
            self.mov_reg_mem().next.memory.len() == self.memory.len(),
            self.mov_reg_mem().result is Err ==> self.mov_reg_mem().next.same_but_ip(self),
    {
    }

    /// `MOV_MEM_REG` keeps the capacity, and changes only the instruction pointer
    /// when it faults.
    proof fn lemma_mov_mem_reg_frame(self)
        ensures
            self.mov_mem_reg().next.memory.len() == self.memory.len(),
            self.mov_mem_reg().result is Err ==> self.mov_mem_reg().next.same_but_ip(self),
    {
    }

    /// `ADD_REG_REG` keeps the capacity, and changes only the instruction pointer
    /// when it faults.
    proof fn lemma_add_reg_reg_frame(self)
        ensures
            self.add_reg_reg().next.memory.len() == self.memory.len(),
            self.add_reg_reg().result is Err ==> self.add_reg_reg().next.same_but_ip(self),
    {
    }

    /// `JMP_NOT_EQ` keeps the capacity, and changes only the instruction pointer
    /// when it faults.
    proof fn lemma_jmp_not_eq_frame(self)
        ensures
            self.jmp_not_eq().next.memory.len() == self.memory.len(),
            self.jmp_not_eq().result is Err ==> self.jmp_not_eq().next.same_but_ip(self),
    {
    }

    /// No instruction changes the capacity of the memory, and an instruction
    /// that faults has changed neither the memory nor any register but the
    /// instruction pointer.
    pub proof fn lemma_execute_frame(self, opcode: u8)
        ensures
            self.execute(opcode).next.memory.len() == self.memory.len(),
            self.execute(opcode).result is Err ==> self.execute(opcode).next.same_but_ip(self),
    {
        self.lemma_mov_lit_reg_frame();
        self.lemma_mov_reg_reg_frame();
        self.lemma_mov_reg_mem_frame();
        self.lemma_mov_mem_reg_frame();
        self.lemma_add_reg_reg_frame();
        self.lemma_jmp_not_eq_frame();
    }

    /// No step changes the capacity of the memory, and a step that faults has
    /// changed neither the memory nor any register but the instruction
    /// pointer.
    pub proof fn lemma_step_frame(self)
        ensures
            self.step().next.memory.len() == self.memory.len(),
            self.step().result is Err ==> self.step().next.same_but_ip(self),
    {
        let opcode = self.fetch();
        if opcode.result is Ok {
            opcode.next.lemma_execute_frame(opcode.result->Ok_0);
        }
    }

    /// As long as the instruction pointer is five bytes or more from the end
    /// of the addresses that 16 bits can hold, a step succeeds exactly when a
    /// whole instruction that can be carried out stands at the pointer.
    pub proof fn lemma_step_succeeds_exactly_when_runnable(self)
        requires
            self.ip() + 5 <= 0x1_0000,
        ensures
            self.step().result is Ok <==> self.runnable(),
    {
        if byte_in_bounds(self.memory, self.ip() as int) {
            let after = self.advanced(1);
            assert(after.ip() == self.ip() + 1);
            assert(after.memory == self.memory);
            assert(self.step() == after.execute(self.operand(0)));
            after.lemma_mov_lit_reg_succeeds();
            after.lemma_mov_reg_reg_succeeds();
            after.lemma_mov_reg_mem_succeeds();
            after.lemma_mov_mem_reg_succeeds();
            after.lemma_add_reg_reg_succeeds();
            after.lemma_jmp_not_eq_succeeds();
        }
    }

    /// When `MOV_LIT_REG` succeeds, given the bytes after its opcode.
    proof fn lemma_mov_lit_reg_succeeds(self)
        requires
            self.ip() + 3 <= 0x1_0000,
        ensures
            self.mov_lit_reg().result is Ok <==> ({
                &&& self.ip() + 3 <= self.memory.len()
                &&& RegisterName::from_id(self.operand(2)) is Some
            }),
    {
    }

    /// When `MOV_REG_REG` succeeds, given the bytes after its opcode.
    proof fn lemma_mov_reg_reg_succeeds(self)
        requires
            self.ip() + 2 <= 0x1_0000,
        ensures
            self.mov_reg_reg().result is Ok <==> ({
                &&& self.ip() + 2 <= self.memory.len()
                &&& RegisterName::from_id(self.operand(0)) is Some
                &&& RegisterName::from_id(self.operand(1)) is Some
            }),
    {
    }

    /// When `MOV_REG_MEM` succeeds, given the bytes after its opcode.
    proof fn lemma_mov_reg_mem_succeeds(self)
        requires
            self.ip() + 3 <= 0x1_0000,
        ensures
            self.mov_reg_mem().result is Ok <==> ({
                &&& self.ip() + 3 <= self.memory.len()
                &&& RegisterName::from_id(self.operand(0)) is Some
                &&& word_in_bounds(self.memory, self.operand_word(1) as int)
            }),
    {
    }

    /// When `MOV_MEM_REG` succeeds, given the bytes after its opcode.
    proof fn lemma_mov_mem_reg_succeeds(self)
        requires
            self.ip() + 3 <= 0x1_0000,
        ensures
            self.mov_mem_reg().result is Ok <==> ({
                &&& self.ip() + 3 <= self.memory.len()
                &&& RegisterName::from_id(self.operand(2)) is Some
                &&& word_in_bounds(self.memory, self.operand_word(0) as int)
            }),
    {
    }

    /// When `ADD_REG_REG` succeeds, given the bytes after its opcode.
    proof fn lemma_add_reg_reg_succeeds(self)
        requires
            self.ip() + 2 <= 0x1_0000,
        ensures
            self.add_reg_reg().result is Ok <==> ({
                &&& self.ip() + 2 <= self.memory.len()
                &&& addend_register(self.operand(0)) is Ok
                &&& addend_register(self.operand(1)) is Ok
            }),
    {
    }

    /// When `JMP_NOT_EQ` succeeds, given the bytes after its opcode.
    proof fn lemma_jmp_not_eq_succeeds(self)
        requires
            self.ip() + 4 <= 0x1_0000,
        ensures
            self.jmp_not_eq().result is Ok <==> self.ip() + 4 <= self.memory.len(),
    {
    }

    /// `MOV_LIT_REG` with a valid destination: the destination receives the
    /// literal, and the instruction pointer has moved past the four bytes
    /// unless it is itself the destination.
    pub proof fn lemma_step_mov_lit_reg(self, dest: RegisterName)
        requires
            self.encodes(MOV_LIT_REG, 4),
            self.operand(3) == dest.spec_id(),
        ensures
            self.step() == self.advanced(4).with_register(dest, self.operand_word(1)).done(()),
    {
        dest.lemma_id_names_register(self.operand(3));
        self.lemma_advanced_twice(1, 2);
        self.lemma_advanced_twice(3, 1);
    }

    /// `MOV_REG_REG` with valid registers: the destination receives the value
    /// of the source, read after the instruction pointer has moved past the
    /// three bytes.
    pub proof fn lemma_step_mov_reg_reg(self, src: RegisterName, dest: RegisterName)
        requires
            self.encodes(MOV_REG_REG, 3),
            self.operand(1) == src.spec_id(),
            self.operand(2) == dest.spec_id(),
        ensures
            self.step() == self.advanced(3).with_register(
                dest,
                self.advanced(3).register(src),
            ).done(()),
    {
        src.lemma_id_names_register(self.operand(1));
        dest.lemma_id_names_register(self.operand(2));
        self.lemma_advanced_twice(1, 1);
        self.lemma_advanced_twice(2, 1);
    }

    /// `MOV_REG_MEM` with a valid source: the word at the address receives the
    /// value of the source, read after the instruction pointer has moved past
    /// the four bytes. If the word at the address does not lie inside the
    /// memory, the step faults behind the instruction and writes nothing.
    pub proof fn lemma_step_mov_reg_mem(self, src: RegisterName)
        requires
            self.encodes(MOV_REG_MEM, 4),
            self.operand(1) == src.spec_id(),
        ensures
            word_in_bounds(self.memory, self.operand_word(2) as int) ==> self.step()
                == self.advanced(4).with_memory(
                with_word(
                    self.memory,
                    self.operand_word(2) as int,
                    self.advanced(4).register(src),
                ),
            ).done(()),
            !word_in_bounds(self.memory, self.operand_word(2) as int) ==> self.step()
                == self.advanced(4).stopped::<()>(Fault::OutOfBoundsAddress),
    {
        src.lemma_id_names_register(self.operand(1));
        self.lemma_advanced_twice(1, 1);
        self.lemma_advanced_twice(2, 2);
    }

    /// `MOV_MEM_REG` with a valid destination: the destination receives the
    /// word at the address. If that word does not lie inside the memory, the
    /// step faults behind the instruction and writes no register.
    pub proof fn lemma_step_mov_mem_reg(self, dest: RegisterName)
        requires
            self.encodes(MOV_MEM_REG, 4),
            self.operand(3) == dest.spec_id(),
        ensures
            word_in_bounds(self.memory, self.operand_word(1) as int) ==> self.step()
                == self.advanced(4).with_register(
                dest,
                word_at(self.memory, self.operand_word(1) as int),
            ).done(()),
            !word_in_bounds(self.memory, self.operand_word(1) as int) ==> self.step()
                == self.advanced(4).stopped::<()>(Fault::OutOfBoundsAddress),
    {
        dest.lemma_id_names_register(self.operand(3));
        self.lemma_advanced_twice(1, 2);
        self.lemma_advanced_twice(3, 1);
    }

    /// `ADD_REG_REG` with two selectors that the addition takes: the
    /// accumulator receives the sum of the selected registers, modulo 2^16,
    /// and the instruction pointer has moved past the three bytes. The
    /// selected registers are `R1` or `R2`.
    pub proof fn lemma_step_add_reg_reg(self, left: RegisterName, right: RegisterName)
        requires
            self.encodes(ADD_REG_REG, 3),
            addend_register(self.operand(1)) == Ok::<RegisterName, Fault>(left),
            addend_register(self.operand(2)) == Ok::<RegisterName, Fault>(right),
        ensures
            self.step() == self.advanced(3).with_register(
                RegisterName::Acc,
                wrapping_sum(self.register(left), self.register(right)),
            ).done(()),
            left == RegisterName::R1 || left == RegisterName::R2,
            right == RegisterName::R1 || right == RegisterName::R2,
    {
        self.lemma_advanced_twice(1, 1);
        self.lemma_advanced_twice(2, 1);
    }

    /// `JMP_NOT_EQ`: if the literal differs from the accumulator, the
    /// instruction pointer receives the address; if they are equal, it has
    /// moved past the five bytes. Nothing else changes.
    pub proof fn lemma_step_jmp_not_eq(self)
        requires
            self.encodes(JMP_NOT_EQ, 5),
        ensures
            self.operand_word(1) != self.register(RegisterName::Acc) ==> self.step()
                == self.with_register(RegisterName::Ip, self.operand_word(3)).done(()),
            self.operand_word(1) == self.register(RegisterName::Acc) ==> self.step()
                == self.advanced(5).done(()),
            self.step().next.same_but_ip(self),
    {
        self.lemma_advanced_twice(1, 2);
        self.lemma_advanced_twice(3, 2);
    }
}

} // verus!
