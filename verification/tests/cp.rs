use sm83::cpu::Cpu;
use sm83::flags::CpuFlags;
use sm83::instruction::Instruction;
use sm83::memory::Memory;

#[test]
fn test_cp_aa() {
    let expected_value: u8 = 0xFF;
    let expected_flags = CpuFlags {
        zero: true,
        subtraction: true,
        half_carry: false,
        carry: false,
    };
    let mut memory = Memory::new();
    let mut cpu = Cpu::new(&mut memory);

    cpu.a = expected_value;
    cpu.set_byte_in_memory(cpu.pc, Instruction::CpAA.opcode());
    cpu.execute_instruction().unwrap();

    assert_eq!(cpu.a, expected_value);
    assert_eq!(cpu.flags, expected_flags);
}

#[test]
fn test_cp_ab() {
    let expected_value: u8 = 0xFF;
    let expected_flags = CpuFlags {
        zero: true,
        subtraction: true,
        half_carry: false,
        carry: false,
    };
    let mut memory = Memory::new();
    let mut cpu = Cpu::new(&mut memory);

    cpu.a = expected_value;
    cpu.b = cpu.a;
    cpu.set_byte_in_memory(cpu.pc, Instruction::CpAB.opcode());
    cpu.execute_instruction().unwrap();

    assert_eq!(cpu.a, expected_value);
    assert_eq!(cpu.flags, expected_flags);
}

#[test]
fn test_cp_ac() {
    let expected_value: u8 = 0xFF;
    let expected_flags = CpuFlags {
        zero: true,
        subtraction: true,
        half_carry: false,
        carry: false,
    };
    let mut memory = Memory::new();
    let mut cpu = Cpu::new(&mut memory);

    cpu.a = expected_value;
    cpu.c = cpu.a;
    cpu.set_byte_in_memory(cpu.pc, Instruction::CpAC.opcode());
    cpu.execute_instruction().unwrap();

    assert_eq!(cpu.a, expected_value);
    assert_eq!(cpu.flags, expected_flags);
}

#[test]
fn test_cp_ad() {
    let expected_value: u8 = 0xFF;
    let expected_flags = CpuFlags {
        zero: true,
        subtraction: true,
        half_carry: false,
        carry: false,
    };
    let mut memory = Memory::new();
    let mut cpu = Cpu::new(&mut memory);

    cpu.a = expected_value;
    cpu.d = cpu.a;
    cpu.set_byte_in_memory(cpu.pc, Instruction::CpAD.opcode());
    cpu.execute_instruction().unwrap();

    assert_eq!(cpu.a, expected_value);
    assert_eq!(cpu.flags, expected_flags);
}

#[test]
fn test_cp_ae() {
    let expected_value: u8 = 0xFF;
    let expected_flags = CpuFlags {
        zero: true,
        subtraction: true,
        half_carry: false,
        carry: false,
    };
    let mut memory = Memory::new();
    let mut cpu = Cpu::new(&mut memory);

    cpu.a = expected_value;
    cpu.e = cpu.a;
    cpu.set_byte_in_memory(cpu.pc, Instruction::CpAE.opcode());
    cpu.execute_instruction().unwrap();

    assert_eq!(cpu.a, expected_value);
    assert_eq!(cpu.flags, expected_flags);
}

#[test]
fn test_cp_ah() {
    let expected_value: u8 = 0xFF;
    let expected_flags = CpuFlags {
        zero: true,
        subtraction: true,
        half_carry: false,
        carry: false,
    };
    let mut memory = Memory::new();
    let mut cpu = Cpu::new(&mut memory);

    cpu.a = expected_value;
    cpu.h = cpu.a;
    cpu.set_byte_in_memory(cpu.pc, Instruction::CpAH.opcode());
    cpu.execute_instruction().unwrap();

    assert_eq!(cpu.a, expected_value);
    assert_eq!(cpu.flags, expected_flags);
}

#[test]
fn test_cp_al() {
    let expected_value: u8 = 0xFF;
    let expected_flags = CpuFlags {
        zero: true,
        subtraction: true,
        half_carry: false,
        carry: false,
    };
    let mut memory = Memory::new();
    let mut cpu = Cpu::new(&mut memory);

    cpu.a = expected_value;
    cpu.l = cpu.a;
    cpu.set_byte_in_memory(cpu.pc, Instruction::CpAL.opcode());
    cpu.execute_instruction().unwrap();

    assert_eq!(cpu.a, expected_value);
    assert_eq!(cpu.flags, expected_flags);
}
