use sm83::memory::{
    AddressOutOfRange, Memory, ROM_BANK_0_SIZE, ROM_BANK_0_START, ROM_BANK_N_START,
};

#[test]
fn a_new_store_is_all_zero() {
    let memory = Memory::new();
    for address in ROM_BANK_0_START..ROM_BANK_N_START {
        assert_eq!(memory.get_data(address), 0);
    }
}

#[test]
fn the_store_serves_the_fixed_rom_bank_only() {
    assert_eq!(ROM_BANK_0_SIZE, 0x4000);
    assert!(Memory::is_mapped(0x0000));
    assert!(Memory::is_mapped(0x0100));
    assert!(Memory::is_mapped(0x3FFF));
    assert!(!Memory::is_mapped(0x4000));
    assert!(!Memory::is_mapped(0x8000));
    assert!(!Memory::is_mapped(0xFFFF));
}

#[test]
fn set_byte_changes_one_byte() {
    let mut memory = Memory::new();
    memory.set_byte(0x3FFF, 0xAB);
    memory.set_byte(0x0000, 0xCD);
    assert_eq!(memory.get_data(0x3FFF), 0xAB);
    assert_eq!(memory.get_data(0x0000), 0xCD);
    assert_eq!(memory.get_data(0x0001), 0);
    assert_eq!(memory.get_data(0x3FFE), 0);
}

#[test]
fn read_byte_refuses_an_address_outside_the_bank() {
    let mut memory = Memory::new();
    memory.set_byte(0x0200, 0x42);
    assert_eq!(memory.read_byte(0x0200), Ok(0x42));
    assert_eq!(memory.read_byte(0x3FFF), Ok(0));
    assert_eq!(memory.read_byte(0x4000), Err(AddressOutOfRange { address: 0x4000 }));
    assert_eq!(memory.read_byte(0xFFFF), Err(AddressOutOfRange { address: 0xFFFF }));
}

#[test]
fn write_byte_refuses_an_address_outside_the_bank_and_changes_nothing() {
    let mut memory = Memory::new();
    assert_eq!(memory.write_byte(0x0200, 0x42), Ok(()));
    assert_eq!(memory.get_data(0x0200), 0x42);
    assert_eq!(memory.write_byte(0x4000, 0x99), Err(AddressOutOfRange { address: 0x4000 }));
    assert_eq!(memory.write_byte(0xC000, 0x99), Err(AddressOutOfRange { address: 0xC000 }));
    for address in ROM_BANK_0_START..ROM_BANK_N_START {
        let expected: u8 = if address == 0x0200 { 0x42 } else { 0 };
        assert_eq!(memory.get_data(address), expected);
    }
}
