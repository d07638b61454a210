//! Names of the registers, and the rule by which two 8-bit registers make
//! one 16-bit value.

use vstd::prelude::*;

verus! {

/// A slot that holds one byte. `S` and `P` are the upper and the lower half
/// of the stack pointer.
#[derive(Clone, Copy, Debug, PartialEq, Eq, Hash)]
pub enum EightBitRegister {
    A,
    B,
    D,
    H,
    F,
    C,
    E,
    L,
    S,
    P,
}

/// A 16-bit register: one of the three pairs, or the stack pointer.
#[derive(Clone, Copy, Debug, PartialEq, Eq, Hash)]
pub enum SixteenBitRegister {
    Bc,
    De,
    Hl,
    Sp,
}

impl SixteenBitRegister {
    /// The 8-bit slot that holds the upper byte of this register.
    pub open spec fn spec_high(self) -> EightBitRegister {
        match self {
            SixteenBitRegister::Bc => EightBitRegister::B,
            SixteenBitRegister::De => EightBitRegister::D,
            SixteenBitRegister::Hl => EightBitRegister::H,
            SixteenBitRegister::Sp => EightBitRegister::S,
        }
    }

    /// The 8-bit slot that holds the lower byte of this register.
    pub open spec fn spec_low(self) -> EightBitRegister {
        match self {
            SixteenBitRegister::Bc => EightBitRegister::C,
            SixteenBitRegister::De => EightBitRegister::E,
            SixteenBitRegister::Hl => EightBitRegister::L,
            SixteenBitRegister::Sp => EightBitRegister::P,
        }
    }

    /// The 8-bit slot that holds the upper byte of this register.
    #[verifier::when_used_as_spec(spec_high)]
    pub fn high(self) -> (half: EightBitRegister)
        ensures
            half == self.spec_high(),
    {
        match self {
            SixteenBitRegister::Bc => EightBitRegister::B,
            SixteenBitRegister::De => EightBitRegister::D,
            SixteenBitRegister::Hl => EightBitRegister::H,
            SixteenBitRegister::Sp => EightBitRegister::S,
        }
    }

    /// The 8-bit slot that holds the lower byte of this register.
    #[verifier::when_used_as_spec(spec_low)]
    pub fn low(self) -> (half: EightBitRegister)
        ensures
            half == self.spec_low(),
    {
        match self {
            SixteenBitRegister::Bc => EightBitRegister::C,
            SixteenBitRegister::De => EightBitRegister::E,
            SixteenBitRegister::Hl => EightBitRegister::L,
            SixteenBitRegister::Sp => EightBitRegister::P,
        }
    }
}

/// The 16-bit value of a pair: the high byte first, the low byte second.
pub open spec fn spec_join(high: u8, low: u8) -> u16 {
    (high * 256 + low) as u16
}

/// The upper byte of a 16-bit value.
pub open spec fn spec_high_byte(value: u16) -> u8 {
    (value / 256) as u8
}

/// The lower byte of a 16-bit value.
pub open spec fn spec_low_byte(value: u16) -> u8 {
    (value % 256) as u8
}

/// The 16-bit value of a pair: the high byte first, the low byte second.
#[verifier::when_used_as_spec(spec_join)]
pub fn join(high: u8, low: u8) -> (value: u16)
    ensures
        value == spec_join(high, low),
{
    let upper: u16 = (high as u16) << 8;
    assert(upper == high * 256) by (bit_vector)
        requires
            upper == (high as u16) << 8,
    ;
    upper + (low as u16)
}

/// The upper byte of a 16-bit value.
#[verifier::when_used_as_spec(spec_high_byte)]
pub fn high_byte(value: u16) -> (byte: u8)
    ensures
        byte == spec_high_byte(value),
{
    let upper: u16 = value >> 8;
    assert(upper == value / 256) by (bit_vector)
        requires
            upper == value >> 8,
    ;
    upper as u8
}

/// The lower byte of a 16-bit value.
#[verifier::when_used_as_spec(spec_low_byte)]
pub fn low_byte(value: u16) -> (byte: u8)
    ensures
        byte == spec_low_byte(value),
{
    let lower: u16 = value & 0xFF;
    assert(lower == value % 256) by (bit_vector)
        requires
            lower == value & 0xFF,
    ;
    lower as u8
}

/// Joining and splitting are the shift-and-mask formulas of the hardware.
pub proof fn lemma_join_is_shift_and_mask(high: u8, low: u8, value: u16)
    ensures
        join(high, low) == ((high as u16) << 8) | (low as u16),
        high_byte(value) == (value >> 8) as u8,
        low_byte(value) == (value & 0xFF) as u8,
{
    assert(high * 256 + low == ((high as u16) << 8) | (low as u16)) by (bit_vector);
    assert(value / 256 == value >> 8) by (bit_vector);
    assert(value % 256 == value & 0xFF) by (bit_vector);
}

/// Splitting a value and joining the halves gives the value back, and
/// joining two bytes and splitting the value gives the bytes back.
pub proof fn lemma_join_and_split_are_inverse(high: u8, low: u8, value: u16)
    ensures
        join(high_byte(value), low_byte(value)) == value,
        high_byte(join(high, low)) == high,
        low_byte(join(high, low)) == low,
{
}

} // verus!
