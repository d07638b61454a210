//! The condition flags of the processor.

use vstd::prelude::*;

verus! {

/// One of the four condition bits.
#[derive(Clone, Copy, Debug, PartialEq, Eq, Hash)]
pub enum Flag {
    /// The last result was zero.
    Zero,
    /// The last operation was a subtraction.
    Subtraction,
    /// The last operation carried or borrowed across the low nibble.
    HalfCarry,
    /// The last operation carried or borrowed across the whole byte.
    Carry,
}

/// Mask of the Zero flag inside the flag byte.
pub const ZERO_MASK: u8 = 0b1000_0000;

/// Mask of the Subtraction flag inside the flag byte.
pub const SUBTRACTION_MASK: u8 = 0b0100_0000;

/// Mask of the Half-Carry flag inside the flag byte.
pub const HALF_CARRY_MASK: u8 = 0b0010_0000;

/// Mask of the Carry flag inside the flag byte.
pub const CARRY_MASK: u8 = 0b0001_0000;

impl Flag {
    /// The bit that stands for this flag in the flag byte.
    pub open spec fn spec_mask(self) -> u8 {
        match self {
            Flag::Zero => ZERO_MASK,
            Flag::Subtraction => SUBTRACTION_MASK,
            Flag::HalfCarry => HALF_CARRY_MASK,
            Flag::Carry => CARRY_MASK,
        }
    }

    /// The bit that stands for this flag in the flag byte.
    #[verifier::when_used_as_spec(spec_mask)]
    pub fn mask(self) -> (mask: u8)
        ensures
            mask == self.spec_mask(),
    {
        match self {
            Flag::Zero => ZERO_MASK,
            Flag::Subtraction => SUBTRACTION_MASK,
            Flag::HalfCarry => HALF_CARRY_MASK,
            Flag::Carry => CARRY_MASK,
        }
    }
}

/// The flag register: four bits, each readable and writable on its own.
///
/// Every combination of the four bits is a valid value, so the type has no
/// invariant and the value is its own mathematical model.
#[derive(Clone, Copy, Debug, PartialEq, Eq, Hash)]
pub struct CpuFlags {
    pub zero: bool,
    pub subtraction: bool,
    pub half_carry: bool,
    pub carry: bool,
}

impl CpuFlags {
    /// The register with all four bits clear.
    pub open spec fn spec_empty() -> CpuFlags {
        CpuFlags { zero: false, subtraction: false, half_carry: false, carry: false }
    }

    /// Whether `flag` is set.
    pub open spec fn spec_contains(&self, flag: Flag) -> bool {
        match flag {
            Flag::Zero => self.zero,
            Flag::Subtraction => self.subtraction,
            Flag::HalfCarry => self.half_carry,
            Flag::Carry => self.carry,
        }
    }

    /// The register with `flag` made equal to `value` and the other three
    /// bits as they are.
    pub open spec fn with(self, flag: Flag, value: bool) -> CpuFlags {
        match flag {
            Flag::Zero => CpuFlags { zero: value, ..self },
            Flag::Subtraction => CpuFlags { subtraction: value, ..self },
            Flag::HalfCarry => CpuFlags { half_carry: value, ..self },
            Flag::Carry => CpuFlags { carry: value, ..self },
        }
    }

    /// The flag byte: the four bits in the upper nibble, the lower nibble zero.
    pub open spec fn spec_bits(&self) -> u8 {
        ((if self.zero { 0x80int } else { 0 })
            + (if self.subtraction { 0x40int } else { 0 })
            + (if self.half_carry { 0x20int } else { 0 })
            + (if self.carry { 0x10int } else { 0 })) as u8
    }

    /// A register with no flag set.
    #[verifier::when_used_as_spec(spec_empty)]
    pub fn empty() -> (flags: CpuFlags)
        ensures
            flags == CpuFlags::spec_empty(),
    {
        CpuFlags { zero: false, subtraction: false, half_carry: false, carry: false }
    }

    /// Clears all four bits.
    pub fn clear(&mut self)
        ensures
            *final(self) == CpuFlags::spec_empty(),
    {
        *self = CpuFlags::empty();
    }

    /// Makes `flag` equal to `value` and leaves the other bits alone.
    pub fn set(&mut self, flag: Flag, value: bool)
        ensures
            *final(self) == old(self).with(flag, value),
    {
        match flag {
            Flag::Zero => self.zero = value,
            Flag::Subtraction => self.subtraction = value,
            Flag::HalfCarry => self.half_carry = value,
            Flag::Carry => self.carry = value,
        }
    }

    /// Clears `flag` and leaves the other bits alone.
    pub fn remove(&mut self, flag: Flag)
        ensures
            *final(self) == old(self).with(flag, false),
    {
        self.set(flag, false);
    }

    /// Tests `flag`.
    #[verifier::when_used_as_spec(spec_contains)]
    pub fn contains(&self, flag: Flag) -> (set: bool)
        ensures
            set == self.spec_contains(flag),
    {
        match flag {
            Flag::Zero => self.zero,
            Flag::Subtraction => self.subtraction,
            Flag::HalfCarry => self.half_carry,
            Flag::Carry => self.carry,
        }
    }

    /// The flag byte as the hardware lays it out.
    #[verifier::when_used_as_spec(spec_bits)]
    pub fn bits(&self) -> (bits: u8)
        ensures
            bits == self.spec_bits(),
    {
        let mut bits: u8 = 0;
        if self.zero {
            bits = bits + ZERO_MASK;
        }
        if self.subtraction {
            bits = bits + SUBTRACTION_MASK;
        }
        if self.half_carry {
            bits = bits + HALF_CARRY_MASK;
        }
        if self.carry {
            bits = bits + CARRY_MASK;
        }
        bits
    }
}

/// A flag is set in a register exactly when its mask bit is set in the flag
/// byte, and the lower nibble of the flag byte is always zero.
pub proof fn lemma_bits_hold_the_flags(flags: CpuFlags, flag: Flag)
    ensures
        flags.contains(flag) <==> flags.bits() & flag.mask() == flag.mask(),
        flags.bits() & 0x0F == 0,
{
    let bits = flags.bits();
    assert({
        &&& bits & 0x80 == 0x80 <==> bits >= 0x80
        &&& bits & 0x40 == 0x40 <==> bits % 0x80 >= 0x40
        &&& bits & 0x20 == 0x20 <==> bits % 0x40 >= 0x20
        &&& bits & 0x10 == 0x10 <==> bits % 0x20 >= 0x10
        &&& bits % 0x10 == 0 ==> bits & 0x0F == 0
    }) by (bit_vector);
}

/// Two registers with the same flag byte are the same register.
pub proof fn lemma_bits_determine_the_flags(left: CpuFlags, right: CpuFlags)
    requires
        left.bits() == right.bits(),
    ensures
        left == right,
{
}

} // verus!
