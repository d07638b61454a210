use sm83::alu::AluOperation;
use sm83::instruction::{Instruction, Operation, PointerStep};
use sm83::registers::{EightBitRegister, SixteenBitRegister};

#[test]
fn the_opcode_map_has_one_hundred_and_eighteen_entries() {
    let mut count: u32 = 0;
    for byte in 0u8..=0xFF {
        if Instruction::from_u8(byte).is_some() {
            count += 1;
        }
    }
    assert_eq!(count, 118);
}

#[test]
fn decoding_inverts_encoding_on_every_byte() {
    for byte in 0u8..=0xFF {
        if let Some(instruction) = Instruction::from_u8(byte) {
            assert_eq!(instruction.opcode(), byte);
            assert_eq!(Instruction::from_u8(instruction.opcode()), Some(instruction));
        }
    }
}

#[test]
fn opcodes_of_some_instructions() {
    assert_eq!(Instruction::NOP.opcode(), 0x00);
    assert_eq!(Instruction::LoadBcTwoByteImmediate.opcode(), 0x01);
    assert_eq!(Instruction::LoadSpTwoByteImmediate.opcode(), 0x31);
    assert_eq!(Instruction::StoreHlPlusA.opcode(), 0x22);
    assert_eq!(Instruction::StoreHlMinusA.opcode(), 0x32);
    assert_eq!(Instruction::IncSp.opcode(), 0x33);
    assert_eq!(Instruction::IncA.opcode(), 0x3C);
    assert_eq!(Instruction::LoadBB.opcode(), 0x40);
    assert_eq!(Instruction::LoadLA.opcode(), 0x6F);
    assert_eq!(Instruction::AddAB.opcode(), 0x80);
    assert_eq!(Instruction::AdcAA.opcode(), 0x8F);
    assert_eq!(Instruction::SubAB.opcode(), 0x90);
    assert_eq!(Instruction::SbcAB.opcode(), 0x98);
    assert_eq!(Instruction::AndAB.opcode(), 0xA0);
    assert_eq!(Instruction::XorAB.opcode(), 0xA8);
    assert_eq!(Instruction::OrAB.opcode(), 0xB0);
    assert_eq!(Instruction::CpAA.opcode(), 0xBF);
}

#[test]
fn bytes_without_an_entry_decode_to_none() {
    for byte in [0x05u8, 0x06, 0x34, 0x46, 0x70, 0x76, 0x78, 0x7F, 0x86, 0xBE, 0xC0, 0xCB, 0xFF] {
        assert_eq!(Instruction::from_u8(byte), None);
    }
}

#[test]
fn operations_of_some_instructions() {
    assert_eq!(Instruction::NOP.operation(), Operation::Nop);
    assert_eq!(
        Instruction::LoadDeTwoByteImmediate.operation(),
        Operation::LoadPairImmediate { pair: SixteenBitRegister::De }
    );
    assert_eq!(
        Instruction::StoreBcA.operation(),
        Operation::StoreAccumulator { pointer: SixteenBitRegister::Bc, step: PointerStep::Stay }
    );
    assert_eq!(
        Instruction::StoreHlPlusA.operation(),
        Operation::StoreAccumulator {
            pointer: SixteenBitRegister::Hl,
            step: PointerStep::Increment
        }
    );
    assert_eq!(
        Instruction::StoreHlMinusA.operation(),
        Operation::StoreAccumulator {
            pointer: SixteenBitRegister::Hl,
            step: PointerStep::Decrement
        }
    );
    assert_eq!(
        Instruction::IncSp.operation(),
        Operation::IncrementPair { pair: SixteenBitRegister::Sp }
    );
    assert_eq!(
        Instruction::IncL.operation(),
        Operation::Increment { register: EightBitRegister::L }
    );
    assert_eq!(
        Instruction::LoadHE.operation(),
        Operation::Load { destination: EightBitRegister::H, source: EightBitRegister::E }
    );
    assert_eq!(
        Instruction::XorAD.operation(),
        Operation::Arithmetic { operation: AluOperation::Xor, source: EightBitRegister::D }
    );
    assert_eq!(
        Instruction::CpAA.operation(),
        Operation::Arithmetic { operation: AluOperation::Cp, source: EightBitRegister::A }
    );
}

#[test]
fn operations_follow_the_fields_of_the_opcode() {
    let registers = [
        Some(EightBitRegister::B),
        Some(EightBitRegister::C),
        Some(EightBitRegister::D),
        Some(EightBitRegister::E),
        Some(EightBitRegister::H),
        Some(EightBitRegister::L),
        None,
        Some(EightBitRegister::A),
    ];
    let operations = [
        AluOperation::Add,
        AluOperation::Adc,
        AluOperation::Sub,
        AluOperation::Sbc,
        AluOperation::And,
        AluOperation::Xor,
        AluOperation::Or,
        AluOperation::Cp,
    ];
    for byte in 0x40u8..=0xBF {
        let middle = usize::from((byte >> 3) & 7);
        let low = usize::from(byte & 7);
        let decoded = Instruction::from_u8(byte).map(|instruction| instruction.operation());
        let expected = match (byte >> 6, registers[middle], registers[low]) {
            (1, Some(destination), Some(source)) => Some(Operation::Load { destination, source }),
            (2, _, Some(source)) => {
                Some(Operation::Arithmetic { operation: operations[middle], source })
            }
            _ => None,
        };
        if byte >> 6 == 1 && middle == 7 {
            assert_eq!(decoded, None);
        } else {
            assert_eq!(decoded, expected);
        }
    }
}
