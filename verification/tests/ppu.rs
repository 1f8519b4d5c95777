use nes::{Memory, Ppu, SystemBus, OAM_SIZE};

#[test]
fn reset()
{
    let mut ppu = Ppu::default();
    ppu.reset();

    assert_eq!(ppu.oam, vec![0u8; OAM_SIZE]);
    assert_eq!(ppu.fetch_scroll_x, 0);
    assert_eq!(ppu.fetch_scroll_y, 0);
}

#[test]
fn execute_step_to_read_scroll()
{
    let mut ppu = Ppu::default();
    let mut mem = Memory::default();

    mem.write_u8(0x2005, 0x12);
    mem.write_u8(0x2005, 0x34);
    ppu.step(0, &mut mem);

    assert_eq!(ppu.fetch_scroll_x, 0x12u8);
    assert_eq!(ppu.fetch_scroll_y, 0x34u8);
}

#[test]
fn execute_step_to_read_and_write_oam()
{
    {
        let mut ppu = Ppu::default();
        let mut mem = Memory::default();

        mem.ppu_registers[0x03] = 0xff;
        mem.write_u8(0x2004, 0x80);
        ppu.step(0, &mut mem);

        assert_eq!(ppu.oam[0xff], 0x80);
    }

    {
        let mut ppu = Ppu::default();
        let mut mem = Memory::default();

        ppu.oam[0xff] = 0x0f;
        mem.ppu_registers[0x03] = 0xff;
        mem.ppu_registers[0x04] = 0x80;
        mem.read_u8(0x2004);
        ppu.step(0, &mut mem);

        assert_eq!(mem.ppu_registers[0x04], 0x0f);
    }
}
