//! The arithmetic and logic operations on bytes: what each one computes and
//! which flags it leaves.

use crate::flags::CpuFlags;
use vstd::prelude::*;

verus! {

/// The operation that an arithmetic instruction applies to the accumulator
/// and its operand.
#[derive(Clone, Copy, Debug, PartialEq, Eq, Hash)]
pub enum AluOperation {
    Add,
    Adc,
    Sub,
    Sbc,
    And,
    Xor,
    Or,
    Cp,
}

/// What an operation hands back: the byte it computed and the flag register
/// it leaves. All four flags are computed afresh; none survives from before.
pub struct AluOutput {
    pub result: u8,
    pub flags: CpuFlags,
}

/// The lower four bits of a byte.
pub fn low_nibble(value: u8) -> (nibble: u8)
    ensures
        nibble == value & 0xF,
        nibble <= 0xF,
{
    let nibble: u8 = value & 0xF;
    assert(nibble <= 0xF) by (bit_vector)
        requires
            nibble == value & 0xF,
    ;
    nibble
}

/// The carry that enters an operation: 1 if the Carry flag is set, else 0.
pub open spec fn carry_in(flags: CpuFlags) -> int {
    if flags.carry {
        1
    } else {
        0
    }
}

/// Addition.
pub open spec fn add_output(x: u8, y: u8) -> AluOutput {
    let result = ((x + y) % 256) as u8;
    AluOutput {
        result,
        flags: CpuFlags {
            zero: result == 0,
            subtraction: false,
            half_carry: (x & 0xF) + (y & 0xF) > 0xF,
            carry: x + y > 255,
        },
    }
}

/// Addition with the incoming carry.
pub open spec fn adc_output(x: u8, y: u8, carry: int) -> AluOutput {
    let result = ((x + y + carry) % 256) as u8;
    AluOutput {
        result,
        flags: CpuFlags {
            zero: result == 0,
            subtraction: false,
            half_carry: (x & 0xF) + (y & 0xF) + carry > 0xF,
            carry: x + y + carry > 255,
        },
    }
}

/// Subtraction.
pub open spec fn sub_output(x: u8, y: u8) -> AluOutput {
    let result = ((x - y) % 256) as u8;
    AluOutput {
        result,
        flags: CpuFlags {
            zero: result == 0,
            subtraction: true,
            half_carry: (x & 0xF) < (y & 0xF),
            carry: x < y,
        },
    }
}

/// Subtraction with the incoming carry as a borrow.
pub open spec fn sbc_output(x: u8, y: u8, carry: int) -> AluOutput {
    let result = ((x - y - carry) % 256) as u8;
    let subtrahend = ((y - carry) % 256) as u8;
    AluOutput {
        result,
        flags: CpuFlags {
            zero: result == 0,
            subtraction: true,
            half_carry: (x & 0xF) < (subtrahend & 0xF),
            carry: result >= x,
        },
    }
}

/// Bitwise and. Half-Carry is always set.
pub open spec fn and_output(x: u8, y: u8) -> AluOutput {
    let result = x & y;
    AluOutput {
        result,
        flags: CpuFlags { zero: result == 0, subtraction: false, half_carry: true, carry: false },
    }
}

/// Bitwise or.
pub open spec fn or_output(x: u8, y: u8) -> AluOutput {
    let result = x | y;
    AluOutput {
        result,
        flags: CpuFlags { zero: result == 0, subtraction: false, half_carry: false, carry: false },
    }
}

/// Bitwise exclusive or.
pub open spec fn xor_output(x: u8, y: u8) -> AluOutput {
    let result = x ^ y;
    AluOutput {
        result,
        flags: CpuFlags { zero: result == 0, subtraction: false, half_carry: false, carry: false },
    }
}

/// The output of `operation` on `x` and `y` with the flags `flags` coming in.
/// A comparison computes what a subtraction computes; the instruction that
/// uses it keeps the flags and drops the result.
pub open spec fn alu_output(operation: AluOperation, x: u8, y: u8, flags: CpuFlags) -> AluOutput {
    match operation {
        AluOperation::Add => add_output(x, y),
        AluOperation::Adc => adc_output(x, y, carry_in(flags)),
        AluOperation::Sub => sub_output(x, y),
        AluOperation::Sbc => sbc_output(x, y, carry_in(flags)),
        AluOperation::And => and_output(x, y),
        AluOperation::Xor => xor_output(x, y),
        AluOperation::Or => or_output(x, y),
        AluOperation::Cp => sub_output(x, y),
    }
}

/// Subtracting a byte from itself gives zero, with Zero and Subtraction set
/// and Half-Carry and Carry clear.
pub proof fn lemma_sub_from_itself(x: u8)
    ensures
        sub_output(x, x) == (AluOutput {
            result: 0,
            flags: CpuFlags { zero: true, subtraction: true, half_carry: false, carry: false },
        }),
{
}

/// The and of a byte with itself is that byte. The and of any two bytes sets
/// Half-Carry, clears Subtraction and Carry, and sets Zero exactly when the
/// result is zero.
pub proof fn lemma_and_flags(x: u8, y: u8)
    ensures
        and_output(x, x).result == x,
        and_output(x, x).flags.zero <==> x == 0,
        and_output(x, y).flags.half_carry,
        !and_output(x, y).flags.subtraction,
        !and_output(x, y).flags.carry,
        and_output(x, y).flags.zero <==> and_output(x, y).result == 0,
{
    assert(x & x == x) by (bit_vector);
}

/// Or and exclusive or never set Subtraction, Half-Carry or Carry, and set
/// Zero exactly when the result is zero.
pub proof fn lemma_or_xor_flags(x: u8, y: u8)
    ensures
        or_output(x, y).flags == (CpuFlags {
            zero: or_output(x, y).result == 0,
            subtraction: false,
            half_carry: false,
            carry: false,
        }),
        xor_output(x, y).flags == (CpuFlags {
            zero: xor_output(x, y).result == 0,
            subtraction: false,
            half_carry: false,
            carry: false,
        }),
{
}

/// A comparison leaves the flags that the subtraction of the same bytes
/// leaves.
pub proof fn lemma_cp_flags_are_sub_flags(x: u8, y: u8, flags: CpuFlags)
    ensures
        alu_output(AluOperation::Cp, x, y, flags).flags == alu_output(
            AluOperation::Sub,
            x,
            y,
            flags,
        ).flags,
{
}

} // verus!
