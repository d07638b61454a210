//! The instruction set: opcodes, their names, and what each one does.

use crate::alu::AluOperation;
use crate::registers::{EightBitRegister, SixteenBitRegister};
use vstd::prelude::*;

verus! {

/// What the store instructions do to the pointer after the address is taken.
#[derive(Clone, Copy, Debug, PartialEq, Eq, Hash)]
pub enum PointerStep {
    Stay,
    Increment,
    Decrement,
}

/// What an instruction does, with its operands.
#[derive(Clone, Copy, Debug, PartialEq, Eq, Hash)]
pub enum Operation {
    /// Nothing.
    Nop,
    /// Load the two bytes that follow the opcode into `pair`, low byte first.
    LoadPairImmediate { pair: SixteenBitRegister },
    /// Store the accumulator at the address in `pointer`, then move `pointer`.
    StoreAccumulator { pointer: SixteenBitRegister, step: PointerStep },
    /// Add one to `pair`.
    IncrementPair { pair: SixteenBitRegister },
    /// Add one to `register`.
    Increment { register: EightBitRegister },
    /// Copy `source` into `destination`.
    Load { destination: EightBitRegister, source: EightBitRegister },
    /// Apply `operation` to the accumulator and `source`.
    Arithmetic { operation: AluOperation, source: EightBitRegister },
}

/// The register that a three-bit operand field of an opcode names. The
/// value 6 names no register; no instruction of the opcode map has it.
pub open spec fn operand_register(field: int) -> EightBitRegister {
    if field == 0 {
        EightBitRegister::B
    } else if field == 1 {
        EightBitRegister::C
    } else if field == 2 {
        EightBitRegister::D
    } else if field == 3 {
        EightBitRegister::E
    } else if field == 4 {
        EightBitRegister::H
    } else if field == 5 {
        EightBitRegister::L
    } else {
        EightBitRegister::A
    }
}

/// The 16-bit register that a two-bit operand field of an opcode names.
pub open spec fn operand_pair(field: int) -> SixteenBitRegister {
    if field == 0 {
        SixteenBitRegister::Bc
    } else if field == 1 {
        SixteenBitRegister::De
    } else if field == 2 {
        SixteenBitRegister::Hl
    } else {
        SixteenBitRegister::Sp
    }
}

/// The operation that the three-bit operation field of an arithmetic opcode
/// names.
pub open spec fn operand_operation(field: int) -> AluOperation {
    if field == 0 {
        AluOperation::Add
    } else if field == 1 {
        AluOperation::Adc
    } else if field == 2 {
        AluOperation::Sub
    } else if field == 3 {
        AluOperation::Sbc
    } else if field == 4 {
        AluOperation::And
    } else if field == 5 {
        AluOperation::Xor
    } else if field == 6 {
        AluOperation::Or
    } else {
        AluOperation::Cp
    }
}

/// An instruction of the processor, named after its mnemonic and operands.
#[derive(Clone, Copy, Debug, PartialEq, Eq, Hash)]
pub enum Instruction {
    NOP,
    // LD rr,nn
    LoadBcTwoByteImmediate,
    LoadDeTwoByteImmediate,
    LoadHlTwoByteImmediate,
    LoadSpTwoByteImmediate,
    // LD (rr),A
    StoreBcA,
    StoreDeA,
    StoreHlPlusA,
    StoreHlMinusA,
    // INC rr
    IncBc,
    IncDe,
    IncHl,
    IncSp,
    // INC r
    IncA,
    IncB,
    IncC,
    IncD,
    IncE,
    IncH,
    IncL,
    // LD B,r
    LoadBB,
    LoadBC,
    LoadBD,
    LoadBE,
    LoadBH,
    LoadBL,
    LoadBA,
    // LD C,r
    LoadCB,
    LoadCC,
    LoadCD,
    LoadCE,
    LoadCH,
    LoadCL,
    LoadCA,
    // LD D,r
    LoadDB,
    LoadDC,
    LoadDD,
    LoadDE,
    LoadDH,
    LoadDL,
    LoadDA,
    // LD E,r
    LoadEB,
    LoadEC,
    LoadED,
    LoadEE,
    LoadEH,
    LoadEL,
    LoadEA,
    // LD H,r
    LoadHB,
    LoadHC,
    LoadHD,
    LoadHE,
    LoadHH,
    LoadHL,
    LoadHA,
    // LD L,r
    LoadLB,
    LoadLC,
    LoadLD,
    LoadLE,
    LoadLH,
    LoadLL,
    LoadLA,
    // ADD A,r
    AddAB,
    AddAC,
    AddAD,
    AddAE,
    AddAH,
    AddAL,
    AddAA,
    // ADC A,r
    AdcAB,
    AdcAC,
    AdcAD,
    AdcAE,
    AdcAH,
    AdcAL,
    AdcAA,
    // SUB A,r
    SubAB,
    SubAC,
    SubAD,
    SubAE,
    SubAH,
    SubAL,
    SubAA,
    // SBC A,r
    SbcAB,
    SbcAC,
    SbcAD,
    SbcAE,
    SbcAH,
    SbcAL,
    SbcAA,
    // AND A,r
    AndAB,
    AndAC,
    AndAD,
    AndAE,
    AndAH,
    AndAL,
    AndAA,
    // XOR A,r
    XorAB,
    XorAC,
    XorAD,
    XorAE,
    XorAH,
    XorAL,
    XorAA,
    // OR A,r
    OrAB,
    OrAC,
    OrAD,
    OrAE,
    OrAH,
    OrAL,
    OrAA,
    // CP A,r
    CpAB,
    CpAC,
    CpAD,
    CpAE,
    CpAH,
    CpAL,
    CpAA,
}

impl Instruction {
    /// The opcode map: the byte that encodes each instruction.
    pub open spec fn spec_opcode(self) -> u8 {
        match self {
            Instruction::NOP => 0x00,
            // LD rr,nn
            Instruction::LoadBcTwoByteImmediate => 0x01,
            Instruction::LoadDeTwoByteImmediate => 0x11,
            Instruction::LoadHlTwoByteImmediate => 0x21,
            Instruction::LoadSpTwoByteImmediate => 0x31,
            // LD (rr),A
            Instruction::StoreBcA => 0x02,
            Instruction::StoreDeA => 0x12,
            Instruction::StoreHlPlusA => 0x22,
            Instruction::StoreHlMinusA => 0x32,
            // INC rr
            Instruction::IncBc => 0x03,
            Instruction::IncDe => 0x13,
            Instruction::IncHl => 0x23,
            Instruction::IncSp => 0x33,
            // INC r
            Instruction::IncA => 0x3C,
            Instruction::IncB => 0x04,
            Instruction::IncC => 0x0C,
            Instruction::IncD => 0x14,
            Instruction::IncE => 0x1C,
            Instruction::IncH => 0x24,
            Instruction::IncL => 0x2C,
            // LD B,r
            Instruction::LoadBB => 0x40,
            Instruction::LoadBC => 0x41,
            Instruction::LoadBD => 0x42,
            Instruction::LoadBE => 0x43,
            Instruction::LoadBH => 0x44,
            Instruction::LoadBL => 0x45,
            Instruction::LoadBA => 0x47,
            // LD C,r
            Instruction::LoadCB => 0x48,
            Instruction::LoadCC => 0x49,
            Instruction::LoadCD => 0x4A,
            Instruction::LoadCE => 0x4B,
            Instruction::LoadCH => 0x4C,
            Instruction::LoadCL => 0x4D,
            Instruction::LoadCA => 0x4F,
            // LD D,r
            Instruction::LoadDB => 0x50,
            Instruction::LoadDC => 0x51,
            Instruction::LoadDD => 0x52,
            Instruction::LoadDE => 0x53,
            Instruction::LoadDH => 0x54,
            Instruction::LoadDL => 0x55,
            Instruction::LoadDA => 0x57,
            // LD E,r
            Instruction::LoadEB => 0x58,
            Instruction::LoadEC => 0x59,
            Instruction::LoadED => 0x5A,
            Instruction::LoadEE => 0x5B,
            Instruction::LoadEH => 0x5C,
            Instruction::LoadEL => 0x5D,
            Instruction::LoadEA => 0x5F,
            // LD H,r
            Instruction::LoadHB => 0x60,
            Instruction::LoadHC => 0x61,
            Instruction::LoadHD => 0x62,
            Instruction::LoadHE => 0x63,
            Instruction::LoadHH => 0x64,
            Instruction::LoadHL => 0x65,
            Instruction::LoadHA => 0x67,
            // LD L,r
            Instruction::LoadLB => 0x68,
            Instruction::LoadLC => 0x69,
            Instruction::LoadLD => 0x6A,
            Instruction::LoadLE => 0x6B,
            Instruction::LoadLH => 0x6C,
            Instruction::LoadLL => 0x6D,
            Instruction::LoadLA => 0x6F,
            // ADD A,r
            Instruction::AddAB => 0x80,
            Instruction::AddAC => 0x81,
            Instruction::AddAD => 0x82,
            Instruction::AddAE => 0x83,
            Instruction::AddAH => 0x84,
            Instruction::AddAL => 0x85,
            Instruction::AddAA => 0x87,
            // ADC A,r
            Instruction::AdcAB => 0x88,
            Instruction::AdcAC => 0x89,
            Instruction::AdcAD => 0x8A,
            Instruction::AdcAE => 0x8B,
            Instruction::AdcAH => 0x8C,
            Instruction::AdcAL => 0x8D,
            Instruction::AdcAA => 0x8F,
            // SUB A,r
            Instruction::SubAB => 0x90,
            Instruction::SubAC => 0x91,
            Instruction::SubAD => 0x92,
            Instruction::SubAE => 0x93,
            Instruction::SubAH => 0x94,
            Instruction::SubAL => 0x95,
            Instruction::SubAA => 0x97,
            // SBC A,r
            Instruction::SbcAB => 0x98,
            Instruction::SbcAC => 0x99,
            Instruction::SbcAD => 0x9A,
            Instruction::SbcAE => 0x9B,
            Instruction::SbcAH => 0x9C,
            Instruction::SbcAL => 0x9D,
            Instruction::SbcAA => 0x9F,
            // AND A,r
            Instruction::AndAB => 0xA0,
            Instruction::AndAC => 0xA1,
            Instruction::AndAD => 0xA2,
            Instruction::AndAE => 0xA3,
            Instruction::AndAH => 0xA4,
            Instruction::AndAL => 0xA5,
            Instruction::AndAA => 0xA7,
            // XOR A,r
            Instruction::XorAB => 0xA8,
            Instruction::XorAC => 0xA9,
            Instruction::XorAD => 0xAA,
            Instruction::XorAE => 0xAB,
            Instruction::XorAH => 0xAC,
            Instruction::XorAL => 0xAD,
            Instruction::XorAA => 0xAF,
            // OR A,r
            Instruction::OrAB => 0xB0,
            Instruction::OrAC => 0xB1,
            Instruction::OrAD => 0xB2,
            Instruction::OrAE => 0xB3,
            Instruction::OrAH => 0xB4,
            Instruction::OrAL => 0xB5,
            Instruction::OrAA => 0xB7,
            // CP A,r
            Instruction::CpAB => 0xB8,
            Instruction::CpAC => 0xB9,
            Instruction::CpAD => 0xBA,
            Instruction::CpAE => 0xBB,
            Instruction::CpAH => 0xBC,
            Instruction::CpAL => 0xBD,
            Instruction::CpAA => 0xBF,
        }
    }

    /// The byte that encodes this instruction.
    #[verifier::when_used_as_spec(spec_opcode)]
    pub fn opcode(self) -> (byte: u8)
        ensures
            byte == self.spec_opcode(),
    {
        match self {
            Instruction::NOP => 0x00,
            // LD rr,nn
            Instruction::LoadBcTwoByteImmediate => 0x01,
            Instruction::LoadDeTwoByteImmediate => 0x11,
            Instruction::LoadHlTwoByteImmediate => 0x21,
            Instruction::LoadSpTwoByteImmediate => 0x31,
            // LD (rr),A
            Instruction::StoreBcA => 0x02,
            Instruction::StoreDeA => 0x12,
            Instruction::StoreHlPlusA => 0x22,
            Instruction::StoreHlMinusA => 0x32,
            // INC rr
            Instruction::IncBc => 0x03,
            Instruction::IncDe => 0x13,
            Instruction::IncHl => 0x23,
            Instruction::IncSp => 0x33,
            // INC r
            Instruction::IncA => 0x3C,
            Instruction::IncB => 0x04,
            Instruction::IncC => 0x0C,
            Instruction::IncD => 0x14,
            Instruction::IncE => 0x1C,
            Instruction::IncH => 0x24,
            Instruction::IncL => 0x2C,
            // LD B,r
            Instruction::LoadBB => 0x40,
            Instruction::LoadBC => 0x41,
            Instruction::LoadBD => 0x42,
            Instruction::LoadBE => 0x43,
            Instruction::LoadBH => 0x44,
            Instruction::LoadBL => 0x45,
            Instruction::LoadBA => 0x47,
            // LD C,r
            Instruction::LoadCB => 0x48,
            Instruction::LoadCC => 0x49,
            Instruction::LoadCD => 0x4A,
            Instruction::LoadCE => 0x4B,
            Instruction::LoadCH => 0x4C,
            Instruction::LoadCL => 0x4D,
            Instruction::LoadCA => 0x4F,
            // LD D,r
            Instruction::LoadDB => 0x50,
            Instruction::LoadDC => 0x51,
            Instruction::LoadDD => 0x52,
            Instruction::LoadDE => 0x53,
            Instruction::LoadDH => 0x54,
            Instruction::LoadDL => 0x55,
            Instruction::LoadDA => 0x57,
            // LD E,r
            Instruction::LoadEB => 0x58,
            Instruction::LoadEC => 0x59,
            Instruction::LoadED => 0x5A,
            Instruction::LoadEE => 0x5B,
            Instruction::LoadEH => 0x5C,
            Instruction::LoadEL => 0x5D,
            Instruction::LoadEA => 0x5F,
            // LD H,r
            Instruction::LoadHB => 0x60,
            Instruction::LoadHC => 0x61,
            Instruction::LoadHD => 0x62,
            Instruction::LoadHE => 0x63,
            Instruction::LoadHH => 0x64,
            Instruction::LoadHL => 0x65,
            Instruction::LoadHA => 0x67,
            // LD L,r
            Instruction::LoadLB => 0x68,
            Instruction::LoadLC => 0x69,
            Instruction::LoadLD => 0x6A,
            Instruction::LoadLE => 0x6B,
            Instruction::LoadLH => 0x6C,
            Instruction::LoadLL => 0x6D,
            Instruction::LoadLA => 0x6F,
            // ADD A,r
            Instruction::AddAB => 0x80,
            Instruction::AddAC => 0x81,
            Instruction::AddAD => 0x82,
            Instruction::AddAE => 0x83,
            Instruction::AddAH => 0x84,
            Instruction::AddAL => 0x85,
            Instruction::AddAA => 0x87,
            // ADC A,r
            Instruction::AdcAB => 0x88,
            Instruction::AdcAC => 0x89,
            Instruction::AdcAD => 0x8A,
            Instruction::AdcAE => 0x8B,
            Instruction::AdcAH => 0x8C,
            Instruction::AdcAL => 0x8D,
            Instruction::AdcAA => 0x8F,
            // SUB A,r
            Instruction::SubAB => 0x90,
            Instruction::SubAC => 0x91,
            Instruction::SubAD => 0x92,
            Instruction::SubAE => 0x93,
            Instruction::SubAH => 0x94,
            Instruction::SubAL => 0x95,
            Instruction::SubAA => 0x97,
            // SBC A,r
            Instruction::SbcAB => 0x98,
            Instruction::SbcAC => 0x99,
            Instruction::SbcAD => 0x9A,
            Instruction::SbcAE => 0x9B,
            Instruction::SbcAH => 0x9C,
            Instruction::SbcAL => 0x9D,
            Instruction::SbcAA => 0x9F,
            // AND A,r
            Instruction::AndAB => 0xA0,
            Instruction::AndAC => 0xA1,
            Instruction::AndAD => 0xA2,
            Instruction::AndAE => 0xA3,
            Instruction::AndAH => 0xA4,
            Instruction::AndAL => 0xA5,
            Instruction::AndAA => 0xA7,
            // XOR A,r
            Instruction::XorAB => 0xA8,
            Instruction::XorAC => 0xA9,
            Instruction::XorAD => 0xAA,
            Instruction::XorAE => 0xAB,
            Instruction::XorAH => 0xAC,
            Instruction::XorAL => 0xAD,
            Instruction::XorAA => 0xAF,
            // OR A,r
            Instruction::OrAB => 0xB0,
            Instruction::OrAC => 0xB1,
            Instruction::OrAD => 0xB2,
            Instruction::OrAE => 0xB3,
            Instruction::OrAH => 0xB4,
            Instruction::OrAL => 0xB5,
            Instruction::OrAA => 0xB7,
            // CP A,r
            Instruction::CpAB => 0xB8,
            Instruction::CpAC => 0xB9,
            Instruction::CpAD => 0xBA,
            Instruction::CpAE => 0xBB,
            Instruction::CpAH => 0xBC,
            Instruction::CpAL => 0xBD,
            Instruction::CpAA => 0xBF,
        }
    }

    /// What this instruction does, read off the fields of its opcode.
    ///
    /// Bits 7 and 6 select the block: 1 holds the register-to-register
    /// loads, with the destination in bits 5 to 3 and the source in bits 2
    /// to 0; 2 holds the arithmetic, with the operation in bits 5 to 3 and
    /// the source in bits 2 to 0. In block 0 the low nibble selects the
    /// family and bits 5 and 4 the 16-bit register, but for the 8-bit
    /// increments, which have their register in bits 5 to 3.
    pub open spec fn spec_operation(self) -> Operation {
        let opcode = self.opcode() as int;
        let block = opcode / 64;
        let middle = opcode / 8 % 8;
        let low = opcode % 8;
        let pair = opcode / 16 % 4;
        let family = opcode % 16;
        if block == 1 {
            Operation::Load {
                destination: operand_register(middle),
                source: operand_register(low),
            }
        } else if block == 2 {
            Operation::Arithmetic {
                operation: operand_operation(middle),
                source: operand_register(low),
            }
        } else if opcode == 0 {
            Operation::Nop
        } else if family == 1 {
            Operation::LoadPairImmediate { pair: operand_pair(pair) }
        } else if family == 2 {
            Operation::StoreAccumulator {
                pointer: if pair == 0 {
                    SixteenBitRegister::Bc
                } else if pair == 1 {
                    SixteenBitRegister::De
                } else {
                    SixteenBitRegister::Hl
                },
                step: if pair == 2 {
                    PointerStep::Increment
                } else if pair == 3 {
                    PointerStep::Decrement
                } else {
                    PointerStep::Stay
                },
            }
        } else if family == 3 {
            Operation::IncrementPair { pair: operand_pair(pair) }
        } else {
            Operation::Increment { register: operand_register(middle) }
        }
    }

    /// What this instruction does: the table that the dispatch goes by.
    #[verifier::when_used_as_spec(spec_operation)]
    pub fn operation(self) -> (operation: Operation)
        ensures
            operation == self.spec_operation(),
    {
        match self {
            Instruction::NOP => Operation::Nop,
            // LD rr,nn
            Instruction::LoadBcTwoByteImmediate => Operation::LoadPairImmediate { pair: SixteenBitRegister::Bc },
            Instruction::LoadDeTwoByteImmediate => Operation::LoadPairImmediate { pair: SixteenBitRegister::De },
            Instruction::LoadHlTwoByteImmediate => Operation::LoadPairImmediate { pair: SixteenBitRegister::Hl },
            Instruction::LoadSpTwoByteImmediate => Operation::LoadPairImmediate { pair: SixteenBitRegister::Sp },
            // LD (rr),A
            Instruction::StoreBcA => Operation::StoreAccumulator {
                pointer: SixteenBitRegister::Bc,
                step: PointerStep::Stay,
            },
            Instruction::StoreDeA => Operation::StoreAccumulator {
                pointer: SixteenBitRegister::De,
                step: PointerStep::Stay,
            },
            Instruction::StoreHlPlusA => Operation::StoreAccumulator {
                pointer: SixteenBitRegister::Hl,
                step: PointerStep::Increment,
            },
            Instruction::StoreHlMinusA => Operation::StoreAccumulator {
                pointer: SixteenBitRegister::Hl,
                step: PointerStep::Decrement,
            },
            // INC rr
            Instruction::IncBc => Operation::IncrementPair { pair: SixteenBitRegister::Bc },
            Instruction::IncDe => Operation::IncrementPair { pair: SixteenBitRegister::De },
            Instruction::IncHl => Operation::IncrementPair { pair: SixteenBitRegister::Hl },
            Instruction::IncSp => Operation::IncrementPair { pair: SixteenBitRegister::Sp },
            // INC r
            Instruction::IncA => Operation::Increment { register: EightBitRegister::A },
            Instruction::IncB => Operation::Increment { register: EightBitRegister::B },
            Instruction::IncC => Operation::Increment { register: EightBitRegister::C },
            Instruction::IncD => Operation::Increment { register: EightBitRegister::D },
            Instruction::IncE => Operation::Increment { register: EightBitRegister::E },
            Instruction::IncH => Operation::Increment { register: EightBitRegister::H },
            Instruction::IncL => Operation::Increment { register: EightBitRegister::L },
            // LD B,r
            Instruction::LoadBB => Operation::Load {
                destination: EightBitRegister::B,
                source: EightBitRegister::B,
            },
            Instruction::LoadBC => Operation::Load {
                destination: EightBitRegister::B,
                source: EightBitRegister::C,
            },
            Instruction::LoadBD => Operation::Load {
                destination: EightBitRegister::B,
                source: EightBitRegister::D,
            },
            Instruction::LoadBE => Operation::Load {
                destination: EightBitRegister::B,
                source: EightBitRegister::E,
            },
            Instruction::LoadBH => Operation::Load {
                destination: EightBitRegister::B,
                source: EightBitRegister::H,
            },
            Instruction::LoadBL => Operation::Load {
                destination: EightBitRegister::B,
                source: EightBitRegister::L,
            },
            Instruction::LoadBA => Operation::Load {
                destination: EightBitRegister::B,
                source: EightBitRegister::A,
            },
            // LD C,r
            Instruction::LoadCB => Operation::Load {
                destination: EightBitRegister::C,
                source: EightBitRegister::B,
            },
            Instruction::LoadCC => Operation::Load {
                destination: EightBitRegister::C,
                source: EightBitRegister::C,
            },
            Instruction::LoadCD => Operation::Load {
                destination: EightBitRegister::C,
                source: EightBitRegister::D,
            },
            Instruction::LoadCE => Operation::Load {
                destination: EightBitRegister::C,
                source: EightBitRegister::E,
            },
            Instruction::LoadCH => Operation::Load {
                destination: EightBitRegister::C,
                source: EightBitRegister::H,
            },
            Instruction::LoadCL => Operation::Load {
                destination: EightBitRegister::C,
                source: EightBitRegister::L,
            },
            Instruction::LoadCA => Operation::Load {
                destination: EightBitRegister::C,
                source: EightBitRegister::A,
            },
            // LD D,r
            Instruction::LoadDB => Operation::Load {
                destination: EightBitRegister::D,
                source: EightBitRegister::B,
            },
            Instruction::LoadDC => Operation::Load {
                destination: EightBitRegister::D,
                source: EightBitRegister::C,
            },
            Instruction::LoadDD => Operation::Load {
                destination: EightBitRegister::D,
                source: EightBitRegister::D,
            },
            Instruction::LoadDE => Operation::Load {
                destination: EightBitRegister::D,
                source: EightBitRegister::E,
            },
            Instruction::LoadDH => Operation::Load {
                destination: EightBitRegister::D,
                source: EightBitRegister::H,
            },
            Instruction::LoadDL => Operation::Load {
                destination: EightBitRegister::D,
                source: EightBitRegister::L,
            },
            Instruction::LoadDA => Operation::Load {
                destination: EightBitRegister::D,
                source: EightBitRegister::A,
            },
            // LD E,r
            Instruction::LoadEB => Operation::Load {
                destination: EightBitRegister::E,
                source: EightBitRegister::B,
            },
            Instruction::LoadEC => Operation::Load {
                destination: EightBitRegister::E,
                source: EightBitRegister::C,
            },
            Instruction::LoadED => Operation::Load {
                destination: EightBitRegister::E,
                source: EightBitRegister::D,
            },
            Instruction::LoadEE => Operation::Load {
                destination: EightBitRegister::E,
                source: EightBitRegister::E,
            },
            Instruction::LoadEH => Operation::Load {
                destination: EightBitRegister::E,
                source: EightBitRegister::H,
            },
            Instruction::LoadEL => Operation::Load {
                destination: EightBitRegister::E,
                source: EightBitRegister::L,
            },
            Instruction::LoadEA => Operation::Load {
                destination: EightBitRegister::E,
                source: EightBitRegister::A,
            },
            // LD H,r
            Instruction::LoadHB => Operation::Load {
                destination: EightBitRegister::H,
                source: EightBitRegister::B,
            },
            Instruction::LoadHC => Operation::Load {
                destination: EightBitRegister::H,
                source: EightBitRegister::C,
            },
            Instruction::LoadHD => Operation::Load {
                destination: EightBitRegister::H,
                source: EightBitRegister::D,
            },
            Instruction::LoadHE => Operation::Load {
                destination: EightBitRegister::H,
                source: EightBitRegister::E,
            },
            Instruction::LoadHH => Operation::Load {
                destination: EightBitRegister::H,
                source: EightBitRegister::H,
            },
            Instruction::LoadHL => Operation::Load {
                destination: EightBitRegister::H,
                source: EightBitRegister::L,
            },
            Instruction::LoadHA => Operation::Load {
                destination: EightBitRegister::H,
                source: EightBitRegister::A,
            },
            // LD L,r
            Instruction::LoadLB => Operation::Load {
                destination: EightBitRegister::L,
                source: EightBitRegister::B,
            },
            Instruction::LoadLC => Operation::Load {
                destination: EightBitRegister::L,
                source: EightBitRegister::C,
            },
            Instruction::LoadLD => Operation::Load {
                destination: EightBitRegister::L,
                source: EightBitRegister::D,
            },
            Instruction::LoadLE => Operation::Load {
                destination: EightBitRegister::L,
                source: EightBitRegister::E,
            },
            Instruction::LoadLH => Operation::Load {
                destination: EightBitRegister::L,
                source: EightBitRegister::H,
            },
            Instruction::LoadLL => Operation::Load {
                destination: EightBitRegister::L,
                source: EightBitRegister::L,
            },
            Instruction::LoadLA => Operation::Load {
                destination: EightBitRegister::L,
                source: EightBitRegister::A,
            },
            // ADD A,r
            Instruction::AddAB => Operation::Arithmetic {
                operation: AluOperation::Add,
                source: EightBitRegister::B,
            },
            Instruction::AddAC => Operation::Arithmetic {
                operation: AluOperation::Add,
                source: EightBitRegister::C,
            },
            Instruction::AddAD => Operation::Arithmetic {
                operation: AluOperation::Add,
                source: EightBitRegister::D,
            },
            Instruction::AddAE => Operation::Arithmetic {
                operation: AluOperation::Add,
                source: EightBitRegister::E,
            },
            Instruction::AddAH => Operation::Arithmetic {
                operation: AluOperation::Add,
                source: EightBitRegister::H,
            },
            Instruction::AddAL => Operation::Arithmetic {
                operation: AluOperation::Add,
                source: EightBitRegister::L,
            },
            Instruction::AddAA => Operation::Arithmetic {
                operation: AluOperation::Add,
                source: EightBitRegister::A,
            },
            // ADC A,r
            Instruction::AdcAB => Operation::Arithmetic {
                operation: AluOperation::Adc,
                source: EightBitRegister::B,
            },
            Instruction::AdcAC => Operation::Arithmetic {
                operation: AluOperation::Adc,
                source: EightBitRegister::C,
            },
            Instruction::AdcAD => Operation::Arithmetic {
                operation: AluOperation::Adc,
                source: EightBitRegister::D,
            },
            Instruction::AdcAE => Operation::Arithmetic {
                operation: AluOperation::Adc,
                source: EightBitRegister::E,
            },
            Instruction::AdcAH => Operation::Arithmetic {
                operation: AluOperation::Adc,
                source: EightBitRegister::H,
            },
            Instruction::AdcAL => Operation::Arithmetic {
                operation: AluOperation::Adc,
                source: EightBitRegister::L,
            },
            Instruction::AdcAA => Operation::Arithmetic {
                operation: AluOperation::Adc,
                source: EightBitRegister::A,
            },
            // SUB A,r
            Instruction::SubAB => Operation::Arithmetic {
                operation: AluOperation::Sub,
                source: EightBitRegister::B,
            },
            Instruction::SubAC => Operation::Arithmetic {
                operation: AluOperation::Sub,
                source: EightBitRegister::C,
            },
            Instruction::SubAD => Operation::Arithmetic {
                operation: AluOperation::Sub,
                source: EightBitRegister::D,
            },
            Instruction::SubAE => Operation::Arithmetic {
                operation: AluOperation::Sub,
                source: EightBitRegister::E,
            },
            Instruction::SubAH => Operation::Arithmetic {
                operation: AluOperation::Sub,
                source: EightBitRegister::H,
            },
            Instruction::SubAL => Operation::Arithmetic {
                operation: AluOperation::Sub,
                source: EightBitRegister::L,
            },
            Instruction::SubAA => Operation::Arithmetic {
                operation: AluOperation::Sub,
                source: EightBitRegister::A,
            },
            // SBC A,r
            Instruction::SbcAB => Operation::Arithmetic {
                operation: AluOperation::Sbc,
                source: EightBitRegister::B,
            },
            Instruction::SbcAC => Operation::Arithmetic {
                operation: AluOperation::Sbc,
                source: EightBitRegister::C,
            },
            Instruction::SbcAD => Operation::Arithmetic {
                operation: AluOperation::Sbc,
                source: EightBitRegister::D,
            },
            Instruction::SbcAE => Operation::Arithmetic {
                operation: AluOperation::Sbc,
                source: EightBitRegister::E,
            },
            Instruction::SbcAH => Operation::Arithmetic {
                operation: AluOperation::Sbc,
                source: EightBitRegister::H,
            },
            Instruction::SbcAL => Operation::Arithmetic {
                operation: AluOperation::Sbc,
                source: EightBitRegister::L,
            },
            Instruction::SbcAA => Operation::Arithmetic {
                operation: AluOperation::Sbc,
                source: EightBitRegister::A,
            },
            // AND A,r
            Instruction::AndAB => Operation::Arithmetic {
                operation: AluOperation::And,
                source: EightBitRegister::B,
            },
            Instruction::AndAC => Operation::Arithmetic {
                operation: AluOperation::And,
                source: EightBitRegister::C,
            },
            Instruction::AndAD => Operation::Arithmetic {
                operation: AluOperation::And,
                source: EightBitRegister::D,
            },
            Instruction::AndAE => Operation::Arithmetic {
                operation: AluOperation::And,
                source: EightBitRegister::E,
            },
            Instruction::AndAH => Operation::Arithmetic {
                operation: AluOperation::And,
                source: EightBitRegister::H,
            },
            Instruction::AndAL => Operation::Arithmetic {
                operation: AluOperation::And,
                source: EightBitRegister::L,
            },
            Instruction::AndAA => Operation::Arithmetic {
                operation: AluOperation::And,
                source: EightBitRegister::A,
            },
            // XOR A,r
            Instruction::XorAB => Operation::Arithmetic {
                operation: AluOperation::Xor,
                source: EightBitRegister::B,
            },
            Instruction::XorAC => Operation::Arithmetic {
                operation: AluOperation::Xor,
                source: EightBitRegister::C,
            },
            Instruction::XorAD => Operation::Arithmetic {
                operation: AluOperation::Xor,
                source: EightBitRegister::D,
            },
            Instruction::XorAE => Operation::Arithmetic {
                operation: AluOperation::Xor,
                source: EightBitRegister::E,
            },
            Instruction::XorAH => Operation::Arithmetic {
                operation: AluOperation::Xor,
                source: EightBitRegister::H,
            },
            Instruction::XorAL => Operation::Arithmetic {
                operation: AluOperation::Xor,
                source: EightBitRegister::L,
            },
            Instruction::XorAA => Operation::Arithmetic {
                operation: AluOperation::Xor,
                source: EightBitRegister::A,
            },
            // OR A,r
            Instruction::OrAB => Operation::Arithmetic {
                operation: AluOperation::Or,
                source: EightBitRegister::B,
            },
            Instruction::OrAC => Operation::Arithmetic {
                operation: AluOperation::Or,
                source: EightBitRegister::C,
            },
            Instruction::OrAD => Operation::Arithmetic {
                operation: AluOperation::Or,
                source: EightBitRegister::D,
            },
            Instruction::OrAE => Operation::Arithmetic {
                operation: AluOperation::Or,
                source: EightBitRegister::E,
            },
            Instruction::OrAH => Operation::Arithmetic {
                operation: AluOperation::Or,
                source: EightBitRegister::H,
            },
            Instruction::OrAL => Operation::Arithmetic {
                operation: AluOperation::Or,
                source: EightBitRegister::L,
            },
            Instruction::OrAA => Operation::Arithmetic {
                operation: AluOperation::Or,
                source: EightBitRegister::A,
            },
            // CP A,r
            Instruction::CpAB => Operation::Arithmetic {
                operation: AluOperation::Cp,
                source: EightBitRegister::B,
            },
            Instruction::CpAC => Operation::Arithmetic {
                operation: AluOperation::Cp,
                source: EightBitRegister::C,
            },
            Instruction::CpAD => Operation::Arithmetic {
                operation: AluOperation::Cp,
                source: EightBitRegister::D,
            },
            Instruction::CpAE => Operation::Arithmetic {
                operation: AluOperation::Cp,
                source: EightBitRegister::E,
            },
            Instruction::CpAH => Operation::Arithmetic {
                operation: AluOperation::Cp,
                source: EightBitRegister::H,
            },
            Instruction::CpAL => Operation::Arithmetic {
                operation: AluOperation::Cp,
                source: EightBitRegister::L,
            },
            Instruction::CpAA => Operation::Arithmetic {
                operation: AluOperation::Cp,
                source: EightBitRegister::A,
            },
        }
    }

    /// The instruction that `byte` encodes, if it encodes one.
    pub open spec fn decode(byte: u8) -> Option<Instruction> {
        if exists|instruction: Instruction| instruction.opcode() == byte {
            Some(choose|instruction: Instruction| instruction.opcode() == byte)
        } else {
            None
        }
    }

    /// The instruction that `byte` encodes, or `None` where the opcode map
    /// has no entry for `byte`.
    pub fn from_u8(byte: u8) -> (decoded: Option<Instruction>)
        ensures
            decoded == Instruction::decode(byte),
            decoded matches Some(instruction) ==> instruction.opcode() == byte,
            decoded is None ==> forall|instruction: Instruction| instruction.opcode() != byte,
    {
        let decoded = match byte {
            0x00 => Some(Instruction::NOP),
            // LD rr,nn
            0x01 => Some(Instruction::LoadBcTwoByteImmediate),
            0x11 => Some(Instruction::LoadDeTwoByteImmediate),
            0x21 => Some(Instruction::LoadHlTwoByteImmediate),
            0x31 => Some(Instruction::LoadSpTwoByteImmediate),
            // LD (rr),A
            0x02 => Some(Instruction::StoreBcA),
            0x12 => Some(Instruction::StoreDeA),
            0x22 => Some(Instruction::StoreHlPlusA),
            0x32 => Some(Instruction::StoreHlMinusA),
            // INC rr
            0x03 => Some(Instruction::IncBc),
            0x13 => Some(Instruction::IncDe),
            0x23 => Some(Instruction::IncHl),
            0x33 => Some(Instruction::IncSp),
            // INC r
            0x3C => Some(Instruction::IncA),
            0x04 => Some(Instruction::IncB),
            0x0C => Some(Instruction::IncC),
            0x14 => Some(Instruction::IncD),
            0x1C => Some(Instruction::IncE),
            0x24 => Some(Instruction::IncH),
            0x2C => Some(Instruction::IncL),
            // LD B,r
            0x40 => Some(Instruction::LoadBB),
            0x41 => Some(Instruction::LoadBC),
            0x42 => Some(Instruction::LoadBD),
            0x43 => Some(Instruction::LoadBE),
            0x44 => Some(Instruction::LoadBH),
            0x45 => Some(Instruction::LoadBL),
            0x47 => Some(Instruction::LoadBA),
            // LD C,r
            0x48 => Some(Instruction::LoadCB),
            0x49 => Some(Instruction::LoadCC),
            0x4A => Some(Instruction::LoadCD),
            0x4B => Some(Instruction::LoadCE),
            0x4C => Some(Instruction::LoadCH),
            0x4D => Some(Instruction::LoadCL),
            0x4F => Some(Instruction::LoadCA),
            // LD D,r
            0x50 => Some(Instruction::LoadDB),
            0x51 => Some(Instruction::LoadDC),
            0x52 => Some(Instruction::LoadDD),
            0x53 => Some(Instruction::LoadDE),
            0x54 => Some(Instruction::LoadDH),
            0x55 => Some(Instruction::LoadDL),
            0x57 => Some(Instruction::LoadDA),
            // LD E,r
            0x58 => Some(Instruction::LoadEB),
            0x59 => Some(Instruction::LoadEC),
            0x5A => Some(Instruction::LoadED),
            0x5B => Some(Instruction::LoadEE),
            0x5C => Some(Instruction::LoadEH),
            0x5D => Some(Instruction::LoadEL),
            0x5F => Some(Instruction::LoadEA),
            // LD H,r
            0x60 => Some(Instruction::LoadHB),
            0x61 => Some(Instruction::LoadHC),
            0x62 => Some(Instruction::LoadHD),
            0x63 => Some(Instruction::LoadHE),
            0x64 => Some(Instruction::LoadHH),
            0x65 => Some(Instruction::LoadHL),
            0x67 => Some(Instruction::LoadHA),
            // LD L,r
            0x68 => Some(Instruction::LoadLB),
            0x69 => Some(Instruction::LoadLC),
            0x6A => Some(Instruction::LoadLD),
            0x6B => Some(Instruction::LoadLE),
            0x6C => Some(Instruction::LoadLH),
            0x6D => Some(Instruction::LoadLL),
            0x6F => Some(Instruction::LoadLA),
            // ADD A,r
            0x80 => Some(Instruction::AddAB),
            0x81 => Some(Instruction::AddAC),
            0x82 => Some(Instruction::AddAD),
            0x83 => Some(Instruction::AddAE),
            0x84 => Some(Instruction::AddAH),
            0x85 => Some(Instruction::AddAL),
            0x87 => Some(Instruction::AddAA),
            // ADC A,r
            0x88 => Some(Instruction::AdcAB),
            0x89 => Some(Instruction::AdcAC),
            0x8A => Some(Instruction::AdcAD),
            0x8B => Some(Instruction::AdcAE),
            0x8C => Some(Instruction::AdcAH),
            0x8D => Some(Instruction::AdcAL),
            0x8F => Some(Instruction::AdcAA),
            // SUB A,r
            0x90 => Some(Instruction::SubAB),
            0x91 => Some(Instruction::SubAC),
            0x92 => Some(Instruction::SubAD),
            0x93 => Some(Instruction::SubAE),
            0x94 => Some(Instruction::SubAH),
            0x95 => Some(Instruction::SubAL),
            0x97 => Some(Instruction::SubAA),
            // SBC A,r
            0x98 => Some(Instruction::SbcAB),
            0x99 => Some(Instruction::SbcAC),
            0x9A => Some(Instruction::SbcAD),
            0x9B => Some(Instruction::SbcAE),
            0x9C => Some(Instruction::SbcAH),
            0x9D => Some(Instruction::SbcAL),
            0x9F => Some(Instruction::SbcAA),
            // AND A,r
            0xA0 => Some(Instruction::AndAB),
            0xA1 => Some(Instruction::AndAC),
            0xA2 => Some(Instruction::AndAD),
            0xA3 => Some(Instruction::AndAE),
            0xA4 => Some(Instruction::AndAH),
            0xA5 => Some(Instruction::AndAL),
            0xA7 => Some(Instruction::AndAA),
            // XOR A,r
            0xA8 => Some(Instruction::XorAB),
            0xA9 => Some(Instruction::XorAC),
            0xAA => Some(Instruction::XorAD),
            0xAB => Some(Instruction::XorAE),
            0xAC => Some(Instruction::XorAH),
            0xAD => Some(Instruction::XorAL),
            0xAF => Some(Instruction::XorAA),
            // OR A,r
            0xB0 => Some(Instruction::OrAB),
            0xB1 => Some(Instruction::OrAC),
            0xB2 => Some(Instruction::OrAD),
            0xB3 => Some(Instruction::OrAE),
            0xB4 => Some(Instruction::OrAH),
            0xB5 => Some(Instruction::OrAL),
            0xB7 => Some(Instruction::OrAA),
            // CP A,r
            0xB8 => Some(Instruction::CpAB),
            0xB9 => Some(Instruction::CpAC),
            0xBA => Some(Instruction::CpAD),
            0xBB => Some(Instruction::CpAE),
            0xBC => Some(Instruction::CpAH),
            0xBD => Some(Instruction::CpAL),
            0xBF => Some(Instruction::CpAA),
            _ => None,
        };
        proof {
            match decoded {
                Some(instruction) => {
                    assert(instruction.opcode() == byte);
                    lemma_opcode_is_injective(
                        instruction,
                        choose|other: Instruction| other.opcode() == byte,
                    );
                },
                None => {
                    assert forall|instruction: Instruction| instruction.opcode() != byte by {}
                },
            }
        }
        decoded
    }
}

/// No two instructions share an opcode.
pub proof fn lemma_opcode_is_injective(left: Instruction, right: Instruction)
    requires
        left.opcode() == right.opcode(),
    ensures
        left == right,
{
}

/// Decoding is the inverse of encoding: the opcode of an instruction decodes
/// to that instruction, and a byte that decodes to an instruction is its
/// opcode.
pub proof fn lemma_decode_inverts_opcode(instruction: Instruction, byte: u8)
    ensures
        Instruction::decode(instruction.opcode()) == Some(instruction),
        Instruction::decode(byte) == Some(instruction) <==> instruction.opcode() == byte,
{
    lemma_opcode_is_injective(
        instruction,
        choose|other: Instruction| other.opcode() == instruction.opcode(),
    );
    if instruction.opcode() == byte {
    } else if Instruction::decode(byte) is Some {
        let other = choose|other: Instruction| other.opcode() == byte;
        assert(other.opcode() == byte);
    }
}

} // verus!
