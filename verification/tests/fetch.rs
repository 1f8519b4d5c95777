use nes::{AddressingMode, Cpu, Memory, SystemBus};

#[test]
fn test_fetch_u8() {
    let mut cpu = Cpu::default();
    let mut mem = Memory::default();

    cpu.pc = 0x0002u16;
    mem.write_u8(0x0002u16, 0xf0u8);

    let v = cpu.fetch_u8(&mut mem);
    assert_eq!(v, 0xf0u8);
    assert_eq!(cpu.pc, 0x0003u16);
}

#[test]
fn test_fetch_u16() {
    let mut cpu = Cpu::default();
    let mut mem = Memory::default();

    cpu.pc = 0x0002u16;
    mem.write_u8(0x0002u16, 0x34u8);
    mem.write_u8(0x0003u16, 0x12u8);

    let v = cpu.fetch_u16(&mut mem);
    assert_eq!(v, 0x1234u16);
    assert_eq!(cpu.pc, 0x0004u16);
}

#[test]
fn test_fetch_as_implied() {
    let mut cpu = Cpu::default();
    let mut mem = Memory::default();

    let v = cpu.fetch(&mut mem, AddressingMode::Implied);
    assert_eq!(v.address, 0x0000u16);
    assert_eq!(v.data, 0x00u8);
    assert_eq!(v.cycle, 0x00u8);
}

#[test]
fn test_fetch_as_accumulator() {
    let mut cpu = Cpu::default();
    let mut mem = Memory::default();

    let v = cpu.fetch(&mut mem, AddressingMode::Accumulator);
    assert_eq!(v.address, 0x0000u16);
    assert_eq!(v.data, 0x00u8);
    assert_eq!(v.cycle, 0x01u8);
}

#[test]
fn test_fetch_as_immediate() {
    let mut cpu = Cpu::default();
    let mut mem = Memory::default();

    cpu.pc = 0x0002u16;
    mem.write_u8(0x0002u16, 0xffu8);

    let v = cpu.fetch(&mut mem, AddressingMode::Immediate);
    assert_eq!(v.address, 0x0002u16);
    assert_eq!(v.data, 0xffu8);
    assert_eq!(v.cycle, 0x01u8);
    assert_eq!(cpu.pc, 0x0003u16);
}

#[test]
fn test_fetch_as_zero_page() {
    let mut cpu = Cpu::default();
    let mut mem = Memory::default();

    cpu.pc = 0x0002u16;
    mem.write_u8(0x0002u16, 0x42u8);
    mem.write_u8(0x0042u16, 0xeeu8);

    let v = cpu.fetch(&mut mem, AddressingMode::ZeroPage);
    assert_eq!(v.address, 0x0042u16);
    assert_eq!(v.data, 0xeeu8);
    assert_eq!(v.cycle, 0x02u8);
    assert_eq!(cpu.pc, 0x0003u16);
}

#[test]
fn test_fetch_as_zero_page_x() {
    let mut cpu = Cpu::default();
    let mut mem = Memory::default();

    cpu.x  = 0x03u8;
    cpu.pc = 0x0002u16;
    mem.write_u8(0x0002u16, 0x42u8);
    mem.write_u8(0x0042u16, 0xeeu8);
    mem.write_u8(0x0045u16, 0xaau8);

    let v = cpu.fetch(&mut mem, AddressingMode::ZeroPageX);
    assert_eq!(v.address, 0x0045u16);
    assert_eq!(v.data, 0xaau8);
    assert_eq!(v.cycle, 0x03u8);
    assert_eq!(cpu.pc, 0x0003u16);
}

#[test]
fn test_fetch_as_zero_page_y() {
    let mut cpu = Cpu::default();
    let mut mem = Memory::default();

    cpu.y  = 0x03u8;
    cpu.pc = 0x0002u16;
    mem.write_u8(0x0002u16, 0x42u8);
    mem.write_u8(0x0042u16, 0xeeu8);
    mem.write_u8(0x0045u16, 0xaau8);

    let v = cpu.fetch(&mut mem, AddressingMode::ZeroPageY);
    assert_eq!(v.address, 0x0045u16);
    assert_eq!(v.data, 0xaau8);
    assert_eq!(v.cycle, 0x03u8);
    assert_eq!(cpu.pc, 0x0003u16);
}

#[test]
fn test_fetch_as_absolute() {
    let mut cpu = Cpu::default();
    let mut mem = Memory::default();

    cpu.pc = 0x0002u16;
    mem.write_u8(0x0002u16, 0x42u8);
    mem.write_u8(0x0003u16, 0x16u8);
    mem.write_u8(0x1642u16, 0xbbu8);

    let v = cpu.fetch(&mut mem, AddressingMode::Absolute);
    assert_eq!(v.address, 0x1642u16);
    assert_eq!(v.data, 0xbbu8);
    assert_eq!(v.cycle, 0x03u8);
    assert_eq!(cpu.pc, 0x0004u16);
}

#[test]
fn test_fetch_as_absolute_x() {
    let mut cpu = Cpu::default();
    let mut mem = Memory::default();

    mem.write_u8(0x0002u16, 0x42u8);
    mem.write_u8(0x0003u16, 0x16u8);
    mem.write_u8(0x1642u16, 0xbbu8);
    mem.write_u8(0x1647u16, 0xddu8);
    mem.write_u8(0x16dcu16, 0xeeu8);

    for param in [
        (0x05u8, 0x1647u16, 0xddu8, 0x03u8),
        (0x9au8, 0x16dcu16, 0xeeu8, 0x03u8),
    ] {
        cpu.x = param.0;
        cpu.pc = 0x0002u16;

        let v = cpu.fetch(&mut mem, AddressingMode::AbsoluteX);
        assert_eq!(v.address, param.1);
        assert_eq!(v.data, param.2);
        assert_eq!(v.cycle, param.3);
        assert_eq!(cpu.pc, 0x0004u16);
    }
}

#[test]
fn test_fetch_as_absolute_y() {
    let mut cpu = Cpu::default();
    let mut mem = Memory::default();

    mem.write_u8(0x0002u16, 0x42u8);
    mem.write_u8(0x0003u16, 0x16u8);
    mem.write_u8(0x1642u16, 0xbbu8);
    mem.write_u8(0x1647u16, 0xddu8);
    mem.write_u8(0x16dcu16, 0xeeu8);

    for param in [
        (0x05u8, 0x1647u16, 0xddu8, 0x03u8),
        (0x9au8, 0x16dcu16, 0xeeu8, 0x03u8),
    ] {
        cpu.y = param.0;
        cpu.pc = 0x0002u16;

        let v = cpu.fetch(&mut mem, AddressingMode::AbsoluteY);
        assert_eq!(v.address, param.1);
        assert_eq!(v.data, param.2);
        assert_eq!(v.cycle, param.3);
        assert_eq!(cpu.pc, 0x0004u16);
    }
}

#[test]
fn test_fetch_as_indirect() {
    let mut cpu = Cpu::default();
    let mut mem = Memory::default();

    mem.write_u8(0x0002u16, 0xffu8);
    mem.write_u8(0x0003u16, 0x16u8);
    mem.write_u8(0x1234u16, 0x88u8);
    mem.write_u8(0x1600u16, 0x12u8);
    mem.write_u8(0x16ffu16, 0x34u8);

    cpu.pc = 0x0002u16;
    let v = cpu.fetch(&mut mem, AddressingMode::Indirect);
    assert_eq!(v.address, 0x1234u16);
    assert_eq!(v.data, 0x88u8);
    assert_eq!(v.cycle, 0x05u8);
    assert_eq!(cpu.pc, 0x0004u16);
}

#[test]
fn test_fetch_as_indirect_x() {
    let mut cpu = Cpu::default();
    let mut mem = Memory::default();

    mem.write_u8(0x0000u16, 0x12u8);
    mem.write_u8(0x0002u16, 0xfeu8);
    mem.write_u8(0x00ffu16, 0x34u8);
    mem.write_u8(0x1234u16, 0x66u8);

    cpu.x  = 0x01u8;
    cpu.pc = 0x0002u16;
    let v = cpu.fetch(&mut mem, AddressingMode::IndirectX);
    assert_eq!(v.address, 0x1234u16);
    assert_eq!(v.data, 0x66u8);
    assert_eq!(v.cycle, 0x05u8);
    assert_eq!(cpu.pc, 0x0003u16);
}

#[test]
fn test_fetch_as_indirect_y() {
    let mut cpu = Cpu::default();
    let mut mem = Memory::default();

    mem.write_u8(0x0000u16, 0x01u8);
    mem.write_u8(0x0002u16, 0xffu8);
    mem.write_u8(0x00ffu16, 0x80u8);
    mem.write_u8(0x0181u16, 0xaau8);
    mem.write_u8(0x027fu16, 0xbbu8);

    for param in [
        (0x01u8, 0x0181u16, 0xaau8, 0x04u8),
        (0xffu8, 0x027fu16, 0xbbu8, 0x05u8),
    ] {
        cpu.y = param.0;
        cpu.pc = 0x0002u16;

        let v = cpu.fetch(&mut mem, AddressingMode::IndirectY);
        assert_eq!(v.address, param.1);
        assert_eq!(v.data, param.2);
        assert_eq!(v.cycle, param.3);
        assert_eq!(cpu.pc, 0x0003u16);
    }
}
