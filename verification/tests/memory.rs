use nes::{Memory, SystemBus};

#[test]
fn test_read_and_write_to_ram() {
    let mut mem = Memory::default();

    mem.write_u8(0x0000u16, 0xffu8);
    assert_eq!(mem.read_u8(0x0000u16), 0xffu8);
    assert_eq!(mem.read_u8(0x0800u16), 0xffu8);

    mem.write_u8(0x0801u16, 0x0fu8);
    assert_eq!(mem.read_u8(0x0001u16), 0x0fu8);
    assert_eq!(mem.read_u8(0x0801u16), 0x0fu8);

    mem.write_u8(0x2004u16, 0xffu8);
    assert_eq!(mem.read_u8(0x2004u16), 0xffu8);
    assert!(mem.request_to_read_oam_data);
    assert!(mem.request_to_write_oam_data);

    mem.is_second_write = true;
    mem.write_u8(0x2006u16, 0x12u8);
    assert_eq!(mem.ppu_register_address_lower, 0x12u8);
    assert_eq!(mem.request_to_write_ppu_address, true);
    assert_eq!(mem.is_second_write, false);
    mem.write_u8(0x2006u16, 0x34u8);
    assert_eq!(mem.ppu_registers[0x06], 0x34u8);
    assert_eq!(mem.is_second_write, true);

    mem.write_u8(0x2007u16, 0x56u8);
    assert_eq!(mem.read_u8(0x2007u16), 0x56u8);
    assert_eq!(mem.request_to_read_ppu_data, true);
    assert_eq!(mem.request_to_write_ppu_data, true);
}
