use sm83::cpu::Cpu;
use sm83::flags::CpuFlags;
use sm83::instruction::Instruction;
use sm83::memory::Memory;

#[test]
fn test_xor_aa_non_zero() {
    let expected_value: u8 = 0x00;
    let expected_flags = CpuFlags {
        zero: true,
        subtraction: false,
        half_carry: false,
        carry: false,
    };
    let mut memory = Memory::new();
    let mut cpu = Cpu::new(&mut memory);

    cpu.a = 0x01;
    cpu.set_byte_in_memory(cpu.pc, Instruction::XorAA.opcode());
    cpu.execute_instruction().unwrap();

    assert_eq!(cpu.a, expected_value);
    assert_eq!(cpu.flags, expected_flags);
}

#[test]
fn test_xor_aa_zero() {
    let expected_value: u8 = 0x00;
    let expected_flags = CpuFlags {
        zero: true,
        subtraction: false,
        half_carry: false,
        carry: false,
    };
    let mut memory = Memory::new();
    let mut cpu = Cpu::new(&mut memory);

    cpu.a = expected_value;
    cpu.set_byte_in_memory(cpu.pc, Instruction::XorAA.opcode());
    cpu.execute_instruction().unwrap();

    assert_eq!(cpu.a, expected_value);
    assert_eq!(cpu.flags, expected_flags);
}

#[test]
fn test_xor_ab_non_zero() {
    let expected_value: u8 = 0xF0;
    let expected_flags = CpuFlags::empty();
    let mut memory = Memory::new();
    let mut cpu = Cpu::new(&mut memory);

    cpu.a = 0xFF;
    cpu.b = 0x0F;
    cpu.set_byte_in_memory(cpu.pc, Instruction::XorAB.opcode());
    cpu.execute_instruction().unwrap();

    assert_eq!(cpu.a, expected_value);
    assert_eq!(cpu.flags, expected_flags);
}

#[test]
fn test_xor_ab_zero() {
    let expected_value: u8 = 0x00;
    let expected_flags = CpuFlags {
        zero: true,
        subtraction: false,
        half_carry: false,
        carry: false,
    };
    let mut memory = Memory::new();
    let mut cpu = Cpu::new(&mut memory);

    cpu.a = 0x00;
    cpu.b = 0x00;
    cpu.set_byte_in_memory(cpu.pc, Instruction::XorAB.opcode());
    cpu.execute_instruction().unwrap();

    assert_eq!(cpu.a, expected_value);
    assert_eq!(cpu.flags, expected_flags);
}

#[test]
fn test_xor_ac_non_zero() {
    let expected_value: u8 = 0xF0;
    let expected_flags = CpuFlags::empty();
    let mut memory = Memory::new();
    let mut cpu = Cpu::new(&mut memory);

    cpu.a = 0xFF;
    cpu.c = 0x0F;
    cpu.set_byte_in_memory(cpu.pc, Instruction::XorAC.opcode());
    cpu.execute_instruction().unwrap();

    assert_eq!(cpu.a, expected_value);
    assert_eq!(cpu.flags, expected_flags);
}

#[test]
fn test_xor_ac_zero() {
    let expected_value: u8 = 0x00;
    let expected_flags = CpuFlags {
        zero: true,
        subtraction: false,
        half_carry: false,
        carry: false,
    };
    let mut memory = Memory::new();
    let mut cpu = Cpu::new(&mut memory);

    cpu.a = 0x00;
    cpu.c = 0x00;
    cpu.set_byte_in_memory(cpu.pc, Instruction::XorAC.opcode());
    cpu.execute_instruction().unwrap();

    assert_eq!(cpu.a, expected_value);
    assert_eq!(cpu.flags, expected_flags);
}

#[test]
fn test_xor_ad_non_zero() {
    let expected_value: u8 = 0xF0;
    let expected_flags = CpuFlags::empty();
    let mut memory = Memory::new();
    let mut cpu = Cpu::new(&mut memory);

    cpu.a = 0xFF;
    cpu.d = 0x0F;
    cpu.set_byte_in_memory(cpu.pc, Instruction::XorAD.opcode());
    cpu.execute_instruction().unwrap();

    assert_eq!(cpu.a, expected_value);
    assert_eq!(cpu.flags, expected_flags);
}

#[test]
fn test_xor_ad_zero() {
    let expected_value: u8 = 0x00;
    let expected_flags = CpuFlags {
        zero: true,
        subtraction: false,
        half_carry: false,
        carry: false,
    };
    let mut memory = Memory::new();
    let mut cpu = Cpu::new(&mut memory);

    cpu.a = 0x00;
    cpu.d = 0x00;
    cpu.set_byte_in_memory(cpu.pc, Instruction::XorAD.opcode());
    cpu.execute_instruction().unwrap();

    assert_eq!(cpu.a, expected_value);
    assert_eq!(cpu.flags, expected_flags);
}

#[test]
fn test_xor_ae_non_zero() {
    let expected_value: u8 = 0xF0;
    let expected_flags = CpuFlags::empty();
    let mut memory = Memory::new();
    let mut cpu = Cpu::new(&mut memory);

    cpu.a = 0xFF;
    cpu.e = 0x0F;
    cpu.set_byte_in_memory(cpu.pc, Instruction::XorAE.opcode());
    cpu.execute_instruction().unwrap();

    assert_eq!(cpu.a, expected_value);
    assert_eq!(cpu.flags, expected_flags);
}

#[test]
fn test_xor_ae_zero() {
    let expected_value: u8 = 0x00;
    let expected_flags = CpuFlags {
        zero: true,
        subtraction: false,
        half_carry: false,
        carry: false,
    };
    let mut memory = Memory::new();
    let mut cpu = Cpu::new(&mut memory);

    cpu.a = 0x00;
    cpu.e = 0x00;
    cpu.set_byte_in_memory(cpu.pc, Instruction::XorAE.opcode());
    cpu.execute_instruction().unwrap();

    assert_eq!(cpu.a, expected_value);
    assert_eq!(cpu.flags, expected_flags);
}

#[test]
fn test_xor_ah_non_zero() {
    let expected_value: u8 = 0xF0;
    let expected_flags = CpuFlags::empty();
    let mut memory = Memory::new();
    let mut cpu = Cpu::new(&mut memory);

    cpu.a = 0xFF;
    cpu.h = 0x0F;
    cpu.set_byte_in_memory(cpu.pc, Instruction::XorAH.opcode());
    cpu.execute_instruction().unwrap();

    assert_eq!(cpu.a, expected_value);
    assert_eq!(cpu.flags, expected_flags);
}

#[test]
fn test_xor_ah_zero() {
    let expected_value: u8 = 0x00;
    let expected_flags = CpuFlags {
        zero: true,
        subtraction: false,
        half_carry: false,
        carry: false,
    };
    let mut memory = Memory::new();
    let mut cpu = Cpu::new(&mut memory);

    cpu.a = 0x00;
    cpu.h = 0x00;
    cpu.set_byte_in_memory(cpu.pc, Instruction::XorAH.opcode());
    cpu.execute_instruction().unwrap();

    assert_eq!(cpu.a, expected_value);
    assert_eq!(cpu.flags, expected_flags);
}

#[test]
fn test_xor_al_non_zero() {
    let expected_value: u8 = 0xF0;
    let expected_flags = CpuFlags::empty();
    let mut memory = Memory::new();
    let mut cpu = Cpu::new(&mut memory);

    cpu.a = 0xFF;
    cpu.l = 0x0F;
    cpu.set_byte_in_memory(cpu.pc, Instruction::XorAL.opcode());
    cpu.execute_instruction().unwrap();

    assert_eq!(cpu.a, expected_value);
    assert_eq!(cpu.flags, expected_flags);
}

#[test]
fn test_xor_al_zero() {
    let expected_value: u8 = 0x00;
    let expected_flags = CpuFlags {
        zero: true,
        subtraction: false,
        half_carry: false,
        carry: false,
    };
    let mut memory = Memory::new();
    let mut cpu = Cpu::new(&mut memory);

    cpu.a = 0x00;
    cpu.l = 0x00;
    cpu.set_byte_in_memory(cpu.pc, Instruction::XorAL.opcode());
    cpu.execute_instruction().unwrap();

    assert_eq!(cpu.a, expected_value);
    assert_eq!(cpu.flags, expected_flags);
}
