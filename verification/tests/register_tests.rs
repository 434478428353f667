use vm::cpu::CPU;
use vm::fault::Fault;
use vm::memory::Memory;
use vm::register::{RegisterFile, RegisterName, REGISTER_COUNT};

const ALL: [RegisterName; 10] = [
    RegisterName::Ip,
    RegisterName::Acc,
    RegisterName::R1,
    RegisterName::R2,
    RegisterName::R3,
    RegisterName::R4,
    RegisterName::R5,
    RegisterName::R6,
    RegisterName::R7,
    RegisterName::R8,
];

#[test]
fn every_register_starts_at_zero() {
    let file = RegisterFile::new();
    let cpu = CPU::new(Memory::new(10));

    for name in ALL {
        assert_eq!(file.get(name), 0);
        assert_eq!(cpu.get_register_value(name), 0);
    }
}

#[test]
fn set_overwrites_one_register_only() {
    let mut file = RegisterFile::new();
    for (position, name) in ALL.iter().enumerate() {
        file.set(*name, 100 + position as u16);
    }

    file.set(RegisterName::R4, 0xFFFF);

    for (position, name) in ALL.iter().enumerate() {
        let expected = if *name == RegisterName::R4 { 0xFFFF } else { 100 + position as u16 };
        assert_eq!(file.get(*name), expected);
    }
}

#[test]
fn set_twice_keeps_the_last_value() {
    let mut file = RegisterFile::new();

    file.set(RegisterName::Acc, 7);
    file.set(RegisterName::Acc, 9);

    assert_eq!(file.get(RegisterName::Acc), 9);
}

#[test]
fn register_ids_count_from_ip() {
    assert_eq!(REGISTER_COUNT, 10);
    for (position, name) in ALL.iter().enumerate() {
        assert_eq!(name.id() as usize, position);
    }
}

#[test]
fn number_to_register_reads_every_id() {
    assert_eq!(CPU::number_to_register(0x00), Ok(RegisterName::Ip));
    assert_eq!(CPU::number_to_register(0x01), Ok(RegisterName::Acc));
    assert_eq!(CPU::number_to_register(0x02), Ok(RegisterName::R1));
    assert_eq!(CPU::number_to_register(0x03), Ok(RegisterName::R2));
    assert_eq!(CPU::number_to_register(0x04), Ok(RegisterName::R3));
    assert_eq!(CPU::number_to_register(0x05), Ok(RegisterName::R4));
    assert_eq!(CPU::number_to_register(0x06), Ok(RegisterName::R5));
    assert_eq!(CPU::number_to_register(0x07), Ok(RegisterName::R6));
    assert_eq!(CPU::number_to_register(0x08), Ok(RegisterName::R7));
    assert_eq!(CPU::number_to_register(0x09), Ok(RegisterName::R8));
}

#[test]
fn number_to_register_refuses_every_other_byte() {
    for byte in 0x0A..=0xFF_u8 {
        assert_eq!(CPU::number_to_register(byte), Err(Fault::InvalidRegisterId));
    }
}

#[test]
fn number_to_register_inverts_id() {
    for name in ALL {
        assert_eq!(CPU::number_to_register(name.id()), Ok(name));
    }
}

#[test]
fn registers_are_written_as_their_names() {
    assert_eq!(RegisterName::Ip.name(), "IP");
    assert_eq!(RegisterName::Acc.name(), "ACC");
    assert_eq!(RegisterName::R1.name(), "R1");
    assert_eq!(RegisterName::R2.name(), "R2");
    assert_eq!(RegisterName::R3.name(), "R3");
    assert_eq!(RegisterName::R4.name(), "R4");
    assert_eq!(RegisterName::R5.name(), "R5");
    assert_eq!(RegisterName::R6.name(), "R6");
    assert_eq!(RegisterName::R7.name(), "R7");
    assert_eq!(RegisterName::R8.name(), "R8");
}

#[test]
fn addend_selectors_pick_r1_and_r2() {
    let mut cpu = CPU::new(Memory::new(10));
    cpu.set_register_value(RegisterName::Acc, 1);
    cpu.set_register_value(RegisterName::R1, 5);
    cpu.set_register_value(RegisterName::R2, 6);

    assert_eq!(cpu.u8_to_register_value(0x01), Ok(5));
    assert_eq!(cpu.u8_to_register_value(0x02), Ok(6));
}

#[test]
fn addend_selectors_refuse_every_other_byte() {
    let cpu = CPU::new(Memory::new(10));

    assert_eq!(cpu.u8_to_register_value(0x00), Err(Fault::UnsupportedOperand));
    for byte in 0x03..=0x09_u8 {
        assert_eq!(cpu.u8_to_register_value(byte), Err(Fault::UnsupportedOperand));
    }
    for byte in 0x0A..=0xFF_u8 {
        assert_eq!(cpu.u8_to_register_value(byte), Err(Fault::InvalidRegisterId));
    }
}

#[test]
fn snapshot_holds_the_values_of_its_moment() {
    let mut cpu = CPU::new(Memory::new(10));
    cpu.set_register_value(RegisterName::R3, 33);

    let snapshot = cpu.registers();
    cpu.set_register_value(RegisterName::R3, 44);

    assert_eq!(snapshot.get(RegisterName::R3), 33);
    assert_eq!(cpu.get_register_value(RegisterName::R3), 44);
}
