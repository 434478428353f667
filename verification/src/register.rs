//! The ten named 16-bit registers and the file that holds their values.

use vstd::prelude::*;

verus! {

/// The name of a register. The set is closed: no register is added or removed
/// while the machine runs.
#[derive(Clone, Copy, Debug, PartialEq, Eq, Hash, Structural)]
pub enum RegisterName {
    /// The instruction pointer: the address of the next byte to fetch.
    Ip,
    /// The accumulator: where arithmetic leaves its result.
    Acc,
    /// The first of the eight general-purpose registers, `R1` to `R8`.
    R1,
    R2,
    R3,
    R4,
    R5,
    R6,
    R7,
    R8,
}

/// How many registers there are.
pub const REGISTER_COUNT: usize = 10;

impl RegisterName {
    /// The byte that encodes this register in an instruction: `IP` is 0,
    /// `ACC` is 1, and `R1` to `R8` are 2 to 9.
    pub open spec fn spec_id(self) -> u8 {
        match self {
            RegisterName::Ip => 0,
            RegisterName::Acc => 1,
            RegisterName::R1 => 2,
            RegisterName::R2 => 3,
            RegisterName::R3 => 4,
            RegisterName::R4 => 5,
            RegisterName::R5 => 6,
            RegisterName::R6 => 7,
            RegisterName::R7 => 8,
            RegisterName::R8 => 9,
        }
    }

    /// The register that the byte `id` encodes, if it encodes one.
    pub open spec fn from_id(id: u8) -> Option<RegisterName> {
        if id == 0 {
            Some(RegisterName::Ip)
        } else if id == 1 {
            Some(RegisterName::Acc)
        } else if id == 2 {
            Some(RegisterName::R1)
        } else if id == 3 {
            Some(RegisterName::R2)
        } else if id == 4 {
            Some(RegisterName::R3)
        } else if id == 5 {
            Some(RegisterName::R4)
        } else if id == 6 {
            Some(RegisterName::R5)
        } else if id == 7 {
            Some(RegisterName::R6)
        } else if id == 8 {
            Some(RegisterName::R7)
        } else if id == 9 {
            Some(RegisterName::R8)
        } else {
            None
        }
    }

    /// The name of this register as it is written: `IP`, `ACC`, `R1` to `R8`.
    pub open spec fn spec_name(self) -> Seq<char> {
        match self {
            RegisterName::Ip => "IP"@,
            RegisterName::Acc => "ACC"@,
            RegisterName::R1 => "R1"@,
            RegisterName::R2 => "R2"@,
            RegisterName::R3 => "R3"@,
            RegisterName::R4 => "R4"@,
            RegisterName::R5 => "R5"@,
            RegisterName::R6 => "R6"@,
            RegisterName::R7 => "R7"@,
            RegisterName::R8 => "R8"@,
        }
    }

    /// The name of this register as it is written.
    pub fn name(&self) -> (name: &'static str)
        ensures
            name@ == self.spec_name(),
    {
        match self {
            RegisterName::Ip => "IP",
            RegisterName::Acc => "ACC",
            RegisterName::R1 => "R1",
            RegisterName::R2 => "R2",
            RegisterName::R3 => "R3",
            RegisterName::R4 => "R4",
            RegisterName::R5 => "R5",
            RegisterName::R6 => "R6",
            RegisterName::R7 => "R7",
            RegisterName::R8 => "R8",
        }
    }

    /// The byte that encodes this register in an instruction.
    #[verifier::when_used_as_spec(spec_id)]
    pub fn id(self) -> (id: u8)
        ensures
            id == self.spec_id(),
    {
        match self {
            RegisterName::Ip => 0,
            RegisterName::Acc => 1,
            RegisterName::R1 => 2,
            RegisterName::R2 => 3,
            RegisterName::R3 => 4,
            RegisterName::R4 => 5,
            RegisterName::R5 => 6,
            RegisterName::R6 => 7,
            RegisterName::R7 => 8,
            RegisterName::R8 => 9,
        }
    }

    /// Every register has an id below the register count, the id names the
    /// register again, and no other byte does.
    pub proof fn lemma_id_names_register(self, id: u8)
        ensures
            (self.spec_id() as int) < REGISTER_COUNT,
            RegisterName::from_id(self.spec_id()) == Some(self),
            RegisterName::from_id(id) == Some(self) <==> id == self.spec_id(),
            RegisterName::from_id(id) is Some <==> (id as int) < REGISTER_COUNT,
    {
    }
}

/// The values of all ten registers.
#[derive(Clone, Copy, Debug)]
pub struct RegisterFile {
    values: [u16; REGISTER_COUNT],
}

impl View for RegisterFile {
    type V = Map<RegisterName, u16>;

    closed spec fn view(&self) -> Map<RegisterName, u16> {
        Map::total(|name: RegisterName| self.values@[name.spec_id() as int])
    }
}

impl RegisterFile {
    /// Every register has a value, in every register file.
    pub proof fn lemma_every_register_has_a_value(&self)
        ensures
            forall|name: RegisterName| self@.dom().contains(name),
    {
    }

    /// A register file in which every register holds 0.
    pub fn new() -> (file: Self)
        ensures
            file@ == Map::total(|name: RegisterName| 0u16),
            forall|name: RegisterName| file@.dom().contains(name) && file@[name] == 0,
    {
        RegisterFile { values: [0u16; REGISTER_COUNT] }
    }

    /// The value of the register `name`.
    pub fn get(&self, name: RegisterName) -> (value: u16)
        ensures
            value == self@[name],
    {
        self.values[name.id() as usize]
    }

    /// Overwrites the register `name` with `value`; every other register keeps
    /// its value.
    pub fn set(&mut self, name: RegisterName, value: u16)
        ensures
            final(self)@ == old(self)@.insert(name, value),
    {
        self.values[name.id() as usize] = value;
    }
}

} // verus!
