use sm83::cpu::Cpu;
use sm83::instruction::Instruction;
use sm83::memory::Memory;

#[test]
fn test_store_a_to_bc() {
    let mut memory = Memory::new();
    let mut cpu = Cpu::new(&mut memory);
    let address: u16 = 0x100;
    let expected_value: u8 = 0x12;

    cpu.a = expected_value;
    cpu.b = (address >> 8) as u8;
    cpu.c = (address & 0xFF) as u8;

    cpu.set_byte_in_memory(cpu.pc, Instruction::StoreBcA.opcode());
    cpu.execute_instruction().unwrap();
    cpu.execute_instruction().unwrap();

    assert_eq!(cpu.memory.get_data(address), expected_value);
}

#[test]
fn test_store_a_to_de() {
    let mut memory = Memory::new();
    let mut cpu = Cpu::new(&mut memory);
    let address: u16 = 0x100;
    let expected_value: u8 = 0x12;

    cpu.a = expected_value;
    cpu.d = (address >> 8) as u8;
    cpu.e = (address & 0xFF) as u8;

    cpu.set_byte_in_memory(cpu.pc, Instruction::StoreDeA.opcode());
    cpu.execute_instruction().unwrap();
    cpu.execute_instruction().unwrap();

    assert_eq!(cpu.memory.get_data(address), expected_value);
}

#[test]
fn test_store_a_to_hl_plus() {
    let mut memory = Memory::new();
    let mut cpu = Cpu::new(&mut memory);
    let address: u16 = 0x100;
    let expected_value: u8 = 0x12;

    cpu.a = expected_value;
    cpu.h = (address >> 8) as u8;
    cpu.l = (address & 0xFF) as u8;
    let initial_hl: u16 = cpu.get_hl();

    cpu.set_byte_in_memory(cpu.pc, Instruction::StoreHlPlusA.opcode());
    cpu.execute_instruction().unwrap();
    cpu.execute_instruction().unwrap();

    assert_eq!(cpu.memory.get_data(address), expected_value);
    assert_eq!(cpu.get_hl(), initial_hl + 1);
}

#[test]
fn test_store_a_to_hl_minus() {
    let mut memory = Memory::new();
    let mut cpu = Cpu::new(&mut memory);
    let address: u16 = 0x100;
    let expected_value: u8 = 0x12;

    cpu.a = expected_value;
    cpu.h = (address >> 8) as u8;
    cpu.l = (address & 0xFF) as u8;
    let initial_hl: u16 = cpu.get_hl();

    cpu.set_byte_in_memory(cpu.pc, Instruction::StoreHlMinusA.opcode());
    cpu.execute_instruction().unwrap();
    cpu.execute_instruction().unwrap();

    assert_eq!(cpu.memory.get_data(address), expected_value);
    assert_eq!(cpu.get_hl(), initial_hl - 1);
}
