//! The failures that stop the processor.

use vstd::prelude::*;

verus! {

/// Why a bus cycle could not be carried out. A failed cycle changes nothing.
#[derive(Clone, Copy, Debug, PartialEq, Eq, Hash)]
pub enum CpuError {
    /// The byte fetched as an opcode has no entry in the opcode map.
    UnknownOpcode { opcode: u8 },
    /// The byte store refused the address of a read or a write.
    AddressOutOfRange { address: u16 },
}

} // verus!
