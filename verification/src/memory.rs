//! A fixed-capacity store of bytes, read and written one byte or one
//! big-endian 16-bit word at a time.
//!
//! The store is modelled as a sequence of bytes. An access is either inside
//! the store or a fault: no address is clamped or wrapped.

use vstd::prelude::*;
use crate::fault::Fault;

verus! {

/// The word whose high byte is `high` and whose low byte is `low`.
pub open spec fn word_from_bytes(high: u8, low: u8) -> u16 {
    (high as int * 256 + low as int) as u16
}

/// The high byte of a word.
pub open spec fn high_byte(value: u16) -> u8 {
    (value as int / 256) as u8
}

/// The low byte of a word.
pub open spec fn low_byte(value: u16) -> u8 {
    (value as int % 256) as u8
}

/// Whether a byte at `addr` lies inside `mem`.
pub open spec fn byte_in_bounds(mem: Seq<u8>, addr: int) -> bool {
    0 <= addr < mem.len()
}

/// Whether both bytes of a word at `addr` lie inside `mem`.
pub open spec fn word_in_bounds(mem: Seq<u8>, addr: int) -> bool {
    0 <= addr && addr + 1 < mem.len()
}

/// The word stored at `addr`: its high byte is the byte at `addr`, its low
/// byte the one after it.
pub open spec fn word_at(mem: Seq<u8>, addr: int) -> u16 {
    word_from_bytes(mem[addr], mem[addr + 1])
}

/// `mem` with `value` stored at `addr`: the high byte at `addr`, the low byte
/// after it.
pub open spec fn with_word(mem: Seq<u8>, addr: int, value: u16) -> Seq<u8> {
    mem.update(addr, high_byte(value)).update(addr + 1, low_byte(value))
}

/// Reading one byte: the byte at `addr`, or a fault outside the store.
pub open spec fn read_byte(mem: Seq<u8>, addr: int) -> Result<u8, Fault> {
    if byte_in_bounds(mem, addr) {
        Ok(mem[addr])
    } else {
        Err(Fault::OutOfBoundsAddress)
    }
}

/// Reading one word: the word at `addr`, or a fault unless both its bytes lie
/// inside the store.
pub open spec fn read_word(mem: Seq<u8>, addr: int) -> Result<u16, Fault> {
    if word_in_bounds(mem, addr) {
        Ok(word_at(mem, addr))
    } else {
        Err(Fault::OutOfBoundsAddress)
    }
}

/// Writing one byte: the store with the byte at `addr` replaced, or a fault
/// outside the store.
pub open spec fn write_byte(mem: Seq<u8>, addr: int, value: u8) -> Result<Seq<u8>, Fault> {
    if byte_in_bounds(mem, addr) {
        Ok(mem.update(addr, value))
    } else {
        Err(Fault::OutOfBoundsAddress)
    }
}

/// Writing one word: the store with the word at `addr` replaced, or a fault
/// unless both its bytes lie inside the store.
pub open spec fn write_word(mem: Seq<u8>, addr: int, value: u16) -> Result<Seq<u8>, Fault> {
    if word_in_bounds(mem, addr) {
        Ok(with_word(mem, addr, value))
    } else {
        Err(Fault::OutOfBoundsAddress)
    }
}

/// The two bytes of a word make up the word again, and the word made of two
/// bytes has them as its bytes.
pub proof fn lemma_word_bytes(value: u16, high: u8, low: u8)
    ensures
        word_from_bytes(high_byte(value), low_byte(value)) == value,
        high_byte(word_from_bytes(high, low)) == high,
        low_byte(word_from_bytes(high, low)) == low,
{
}

/// A byte written inside the store is the byte read back from its address.
/// The write changes no other byte, and not the capacity.
pub proof fn lemma_write_byte_then_read_byte(mem: Seq<u8>, addr: int, value: u8)
    requires
        byte_in_bounds(mem, addr),
    ensures
        write_byte(mem, addr, value) == Ok::<Seq<u8>, Fault>(mem.update(addr, value)),
        read_byte(mem.update(addr, value), addr) == Ok::<u8, Fault>(value),
        mem.update(addr, value).len() == mem.len(),
        forall|i: int| 0 <= i < mem.len() && i != addr ==> mem.update(addr, value)[i] == mem[i],
{
}

/// A word written inside the store is the word read back from its address,
/// whatever the address and the word. The write changes no byte but the two
/// of the word, and not the capacity.
pub proof fn lemma_write_word_then_read_word(mem: Seq<u8>, addr: int, value: u16)
    requires
        word_in_bounds(mem, addr),
    ensures
        write_word(mem, addr, value) == Ok::<Seq<u8>, Fault>(with_word(mem, addr, value)),
        read_word(with_word(mem, addr, value), addr) == Ok::<u16, Fault>(value),
        read_byte(with_word(mem, addr, value), addr) == Ok::<u8, Fault>(high_byte(value)),
        read_byte(with_word(mem, addr, value), addr + 1) == Ok::<u8, Fault>(low_byte(value)),
        with_word(mem, addr, value).len() == mem.len(),
        forall|i: int|
            0 <= i < mem.len() && i != addr && i != addr + 1 ==> with_word(mem, addr, value)[i]
                == mem[i],
{
    lemma_word_bytes(value, 0, 0);
}

/// A store of bytes whose capacity is fixed when it is made.
pub struct Memory {
    memory: Vec<u8>,
}

impl View for Memory {
    type V = Seq<u8>;

    closed spec fn view(&self) -> Seq<u8> {
        self.memory@
    }
}

impl Memory {
    /// A store of `capacity` bytes, all zero.
    pub fn new(capacity: usize) -> (m: Self)
        ensures
            m@.len() == capacity,
            forall|i: int| 0 <= i < capacity ==> m@[i] == 0,
    {
        Memory { memory: vec![0u8; capacity] }
    }

    /// The number of bytes in the store.
    pub fn capacity(&self) -> (n: usize)
        ensures
            n == self@.len(),
    {
        self.memory.len()
    }

    /// Stores one byte at `index`. Outside the store it faults and writes
    /// nothing.
    pub fn set_memory(&mut self, index: usize, value: u8) -> (r: Result<(), Fault>)
        ensures
            r is Ok <==> byte_in_bounds(old(self)@, index as int),
            r is Ok ==> final(self)@ == old(self)@.update(index as int, value),
            r is Err ==> r == Err::<(), Fault>(Fault::OutOfBoundsAddress),
            r is Err ==> final(self)@ == old(self)@,
    {
        if index < self.memory.len() {
            self.memory[index] = value;
            Ok(())
        } else {
            Err(Fault::OutOfBoundsAddress)
        }
    }

    /// Stores a word at `index` and `index + 1`, high byte first. Unless both
    /// bytes lie inside the store it faults and writes nothing.
    pub fn set_memory_u16(&mut self, index: usize, value: u16) -> (r: Result<(), Fault>)
        ensures
            r is Ok <==> word_in_bounds(old(self)@, index as int),
            r is Ok ==> final(self)@ == with_word(old(self)@, index as int, value),
            r is Err ==> r == Err::<(), Fault>(Fault::OutOfBoundsAddress),
            r is Err ==> final(self)@ == old(self)@,
    {
        let len = self.memory.len();
        if index < len && len - index >= 2 {
            let high = (value >> 8) as u8;
            let low = (value & 0x00ff) as u8;
            assert(high == high_byte(value)) by (bit_vector)
                requires
                    high == (value >> 8) as u8,
            ;
            assert(low == low_byte(value)) by (bit_vector)
                requires
                    low == (value & 0x00ff) as u8,
            ;
            self.memory[index] = high;
            self.memory[index + 1] = low;
            Ok(())
        } else {
            Err(Fault::OutOfBoundsAddress)
        }
    }

    /// The byte at `index`, or a fault outside the store.
    pub fn get_memory_u8(&self, index: usize) -> (r: Result<u8, Fault>)
        ensures
            r == read_byte(self@, index as int),
    {
        if index < self.memory.len() {
            Ok(self.memory[index])
        } else {
            Err(Fault::OutOfBoundsAddress)
        }
    }

    /// The word at `index` and `index + 1`, high byte first, or a fault unless
    /// both bytes lie inside the store.
    pub fn get_memory_u16(&self, index: usize) -> (r: Result<u16, Fault>)
        ensures
            r == read_word(self@, index as int),
    {
        let len = self.memory.len();
        if index < len && len - index >= 2 {
            let high = self.memory[index];
            let low = self.memory[index + 1];
            let word = ((high as u16) << 8) | (low as u16);
            assert(word == word_from_bytes(high, low)) by (bit_vector)
                requires
                    word == ((high as u16) << 8) | (low as u16),
            ;
            Ok(word)
        } else {
            Err(Fault::OutOfBoundsAddress)
        }
    }
}

} // verus!
