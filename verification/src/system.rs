use vstd::prelude::*;
use crate::memory::{
    Memory, MemV, mem_wf, mem_read_spec, mem_write_spec, CPU_RAM_SIZE, PPU_REGISTER_SIZE,
    PPU_REGISTER_BASE_ADDRESS, APU_IO_REGISTER_BASE_ADDRESS,
};

verus! {

/// The CPU-facing face of the bus.  Both operations may have side effects
/// beyond the returned byte or the written cell: their exact behaviour is
/// the transition stated over the implementor's bus model.
pub trait SystemBus: View<V = MemV> {
    fn read_u8(&mut self, address: u16) -> (r: u8)
        requires
            mem_wf(old(self)@),
        ensures
            mem_wf(final(self)@),
            ({
                let t = mem_read_spec(old(self)@, address);
                final(self)@ == t.0 && r == t.1
            }),
    ;

    fn write_u8(&mut self, address: u16, data: u8)
        requires
            mem_wf(old(self)@),
        ensures
            mem_wf(final(self)@),
            final(self)@ == mem_write_spec(old(self)@, address, data),
    ;
}

impl SystemBus for Memory {
    fn read_u8(&mut self, address: u16) -> (r: u8) {
        if address < PPU_REGISTER_BASE_ADDRESS {
            let index: usize = (address as usize) % CPU_RAM_SIZE;
            return self.ram[index];
        }
        if address < APU_IO_REGISTER_BASE_ADDRESS {
            let port: usize = ((address - PPU_REGISTER_BASE_ADDRESS) as usize) % PPU_REGISTER_SIZE;
            let value = self.ppu_registers[port];
            if port == 0x04 {
                self.request_to_read_oam_data = true;
            } else if port == 0x07 {
                self.request_to_read_ppu_data = true;
            } else if port == 0x02 {
                self.ppu_registers[port] = value & 0x7f;
                self.is_second_write = false;
            }
            return value;
        }
        let index: usize = (address as usize) % CPU_RAM_SIZE;
        return self.ram[index];
    }

    fn write_u8(&mut self, address: u16, data: u8) {
        if address < PPU_REGISTER_BASE_ADDRESS {
            let index: usize = (address as usize) % CPU_RAM_SIZE;
            self.ram[index] = data;
            return;
        }
        if address < APU_IO_REGISTER_BASE_ADDRESS {
            let port: usize = ((address - PPU_REGISTER_BASE_ADDRESS) as usize) % PPU_REGISTER_SIZE;
            if port == 0x04 {
                self.ppu_registers[port] = data;
                self.request_to_write_oam_data = true;
            } else if port == 0x05 {
                if self.is_second_write {
                    self.ppu_register_scroll_y = data;
                    self.request_to_write_ppu_scroll = true;
                    self.is_second_write = false;
                } else {
                    self.ppu_registers[port] = data;
                    self.is_second_write = true;
                }
            } else if port == 0x06 {
                if self.is_second_write {
                    self.ppu_register_address_lower = data;
                    self.request_to_write_ppu_address = true;
                    self.is_second_write = false;
                } else {
                    self.ppu_registers[port] = data;
                    self.is_second_write = true;
                }
            } else if port == 0x07 {
                self.ppu_registers[port] = data;
                self.request_to_write_ppu_data = true;
            } else if port != 0x02 {
                self.ppu_registers[port] = data;
            }
            return;
        }
        let index: usize = (address as usize) % CPU_RAM_SIZE;
        self.ram[index] = data;
    }
}

} // verus!
