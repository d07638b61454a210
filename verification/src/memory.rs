//! The byte store that the processor reads and writes by address.

use vstd::prelude::*;

verus! {

/// First address of the fixed ROM bank.
pub const ROM_BANK_0_START: u16 = 0x0000;

/// First address behind the fixed ROM bank; the switchable bank starts here.
pub const ROM_BANK_N_START: u16 = 0x4000;

/// Number of bytes in the fixed ROM bank.
pub const ROM_BANK_0_SIZE: usize = 0x4000;

/// The store was asked for an address that it does not serve.
#[derive(Clone, Copy, Debug, PartialEq, Eq, Hash)]
pub struct AddressOutOfRange {
    /// The address that was refused.
    pub address: u16,
}

/// A flat store of bytes. It serves the addresses of the fixed ROM bank and
/// refuses all others.
///
/// Its view is the sequence of the bytes it holds, indexed by address.
pub struct Memory {
    rom_bank_0: [u8; ROM_BANK_0_SIZE],
}

impl View for Memory {
    type V = Seq<u8>;

    closed spec fn view(&self) -> Seq<u8> {
        self.rom_bank_0@
    }
}

impl Memory {
    /// Whether the store serves `address`.
    pub open spec fn spec_is_mapped(address: u16) -> bool {
        ROM_BANK_0_START <= address < ROM_BANK_N_START
    }

    /// Whether the store serves `address`.
    #[verifier::when_used_as_spec(spec_is_mapped)]
    pub fn is_mapped(address: u16) -> (mapped: bool)
        ensures
            mapped == Memory::spec_is_mapped(address),
    {
        ROM_BANK_0_START <= address && address < ROM_BANK_N_START
    }

    /// The view holds one byte for each address of the fixed ROM bank.
    pub proof fn lemma_view_len(&self)
        ensures
            self@.len() == ROM_BANK_0_SIZE,
            forall|address: u16| Memory::is_mapped(address) <==> address < self@.len(),
    {
    }

    /// A store in which every byte is zero.
    pub fn new() -> (memory: Memory)
        ensures
            memory@ == Seq::new(ROM_BANK_0_SIZE as nat, |address: int| 0u8),
    {
        Memory { rom_bank_0: [0; ROM_BANK_0_SIZE] }
    }

    /// The byte at `address`.
    pub fn get_data(&self, address: u16) -> (data: u8)
        requires
            Memory::is_mapped(address),
        ensures
            data == self@[address as int],
    {
        let offset: u16 = ROM_BANK_0_START;
        self.rom_bank_0[(address - offset) as usize]
    }

    /// Puts `data` at `address` and leaves every other byte as it is.
    pub fn set_byte(&mut self, address: u16, data: u8)
        requires
            Memory::is_mapped(address),
        ensures
            final(self)@ == old(self)@.update(address as int, data),
    {
        let offset: u16 = ROM_BANK_0_START;
        self.rom_bank_0[(address - offset) as usize] = data;
    }

    /// The byte at `address`, or the refusal of an address that the store
    /// does not serve.
    pub fn read_byte(&self, address: u16) -> (outcome: Result<u8, AddressOutOfRange>)
        ensures
            match outcome {
                Ok(data) => Memory::is_mapped(address) && data == self@[address as int],
                Err(refusal) => !Memory::is_mapped(address) && refusal.address == address,
            },
    {
        if Memory::is_mapped(address) {
            Ok(self.get_data(address))
        } else {
            Err(AddressOutOfRange { address })
        }
    }

    /// Puts `data` at `address`, or refuses an address that the store does
    /// not serve and then changes nothing.
    pub fn write_byte(&mut self, address: u16, data: u8) -> (outcome: Result<(), AddressOutOfRange>)
        ensures
            match outcome {
                Ok(_) => Memory::is_mapped(address) && final(self)@ == old(self)@.update(
                    address as int,
                    data,
                ),
                Err(refusal) => !Memory::is_mapped(address) && refusal.address == address
                    && final(self)@ == old(self)@,
            },
    {
        if Memory::is_mapped(address) {
            self.set_byte(address, data);
            Ok(())
        } else {
            Err(AddressOutOfRange { address })
        }
    }
}

} // verus!
