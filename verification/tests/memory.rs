use sm83::memory::Memory;

#[test]
fn test_get_and_set_byte() {
    let pc: u16 = 0x100;
    let new_value: u8 = 10;
    let mut memory = Memory::new();
    assert_eq!(memory.get_data(pc), 0);
    memory.set_byte(pc, new_value);
    assert_eq!(memory.get_data(pc), new_value);
}
