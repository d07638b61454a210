//! The pending steps of an instruction that takes more than one bus cycle.

use crate::registers::{EightBitRegister, SixteenBitRegister};
use vstd::prelude::*;

verus! {

/// One step of a multi-cycle instruction: the work of one bus cycle.
#[derive(Clone, Copy, Debug, PartialEq, Eq, Hash)]
#[allow(inconsistent_fields)]
pub enum MicroOp {
    /// Read the byte at the program counter into `destination`.
    LoadImmediate { destination: EightBitRegister },
    /// Write `value` to the byte store at `address`.
    StoreToMemory { value: u8, address: u16 },
    /// Write `value` into `register`.
    StoreToSixteenBitRegister { register: SixteenBitRegister, value: u16 },
}

} // verus!
