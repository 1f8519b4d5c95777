use vstd::prelude::*;
use crate::memory::{Memory, MemV, mem_wf, mem_read_spec, mem_write_spec, PPU_REGISTER_SIZE};

verus! {

pub const PPU_CTRL: usize = 0x00;

pub const PPU_MASK: usize = 0x01;

pub const PPU_STATUS: usize = 0x02;

pub const OAM_ADDR: usize = 0x03;

pub const OAM_DATA: usize = 0x04;

pub const PPU_SCROLL: usize = 0x05;

pub const PPU_ADDR: usize = 0x06;

pub const PPU_DATA: usize = 0x07;

/// Result of draining a data port: the latched byte, whether a read was
/// requested, and whether a write was requested.  A write request takes
/// precedence and is the one cleared when both are up.
pub open spec fn drain_oam_data_spec(m: MemV) -> (MemV, (u8, bool, bool)) {
    let value = m.ppu_registers[OAM_DATA as int];
    if m.request_to_write_oam_data {
        (MemV { request_to_write_oam_data: false, ..m }, (value, false, true))
    } else if m.request_to_read_oam_data {
        (MemV { request_to_read_oam_data: false, ..m }, (value, true, false))
    } else {
        (m, (value, false, false))
    }
}

/// Drains the scroll port: latched X, captured Y, and whether a completed
/// double write was pending; the pending flag is cleared.
pub open spec fn drain_ppu_scroll_spec(m: MemV) -> (MemV, (u8, u8, bool)) {
    (
        MemV { request_to_write_ppu_scroll: false, ..m },
        (m.ppu_registers[PPU_SCROLL as int], m.ppu_register_scroll_y, m.request_to_write_ppu_scroll),
    )
}

/// The VRAM address held by the two halves of the 0x2006 double write.
pub open spec fn ppu_address_of(m: MemV) -> u16 {
    (((m.ppu_registers[PPU_ADDR as int] as u16) << 8) | (m.ppu_register_address_lower as u16)) as u16
}

/// Drains the address port: the reconstructed 16-bit address and whether a
/// completed double write was pending; the pending flag is cleared.
pub open spec fn drain_ppu_address_spec(m: MemV) -> (MemV, (u16, bool)) {
    (
        MemV { request_to_write_ppu_address: false, ..m },
        (ppu_address_of(m), m.request_to_write_ppu_address),
    )
}

pub open spec fn drain_ppu_data_spec(m: MemV) -> (MemV, (u8, bool, bool)) {
    let value = m.ppu_registers[PPU_DATA as int];
    if m.request_to_write_ppu_data {
        (MemV { request_to_write_ppu_data: false, ..m }, (value, false, true))
    } else if m.request_to_read_ppu_data {
        (MemV { request_to_read_ppu_data: false, ..m }, (value, true, false))
    } else {
        (m, (value, false, false))
    }
}

/// The VRAM address step selected by PPUCTRL bit 2.
pub open spec fn address_increment_of(m: MemV) -> u16 {
    if m.ppu_registers[PPU_CTRL as int] & 0x04 == 0x04 {
        32u16
    } else {
        1u16
    }
}

/// Adds the PPUCTRL-derived step to the reconstructed VRAM address and
/// writes the two halves back.
pub open spec fn increment_ppu_address_spec(m: MemV) -> MemV {
    let next = ppu_address_of(m).wrapping_add(address_increment_of(m));
    MemV {
        ppu_registers: m.ppu_registers.update(PPU_ADDR as int, (next >> 8) as u8),
        ppu_register_address_lower: (next & 0xff) as u8,
        ..m
    }
}

pub open spec fn store_oam_data_spec(m: MemV, data: u8) -> MemV {
    MemV { ppu_registers: m.ppu_registers.update(OAM_DATA as int, data), ..m }
}

pub open spec fn store_ppu_data_spec(m: MemV, data: u8) -> MemV {
    MemV { ppu_registers: m.ppu_registers.update(PPU_DATA as int, data), ..m }
}

/// Writes a single PPUSTATUS bit.
pub open spec fn store_status_bit_spec(m: MemV, mask: u8, on: bool) -> MemV {
    let value = m.ppu_registers[PPU_STATUS as int];
    let next = if on {
        value | mask
    } else {
        value & !mask
    };
    MemV { ppu_registers: m.ppu_registers.update(PPU_STATUS as int, next), ..m }
}


/// The double-write protocol of the address port.  With the latch
/// released, two consecutive writes to 0x2006 hand the PPU the address
/// `(first << 8) | second`: the first write raises no request, the second
/// raises exactly one, and draining it clears it again.  A PPUSTATUS read
/// between the two writes releases the latch, so the following write
/// counts as a first write again and raises no request.
pub proof fn lemma_ppu_address_double_write(m: MemV, first: u8, second: u8)
    requires
        mem_wf(m),
        !m.is_second_write,
        !m.request_to_write_ppu_address,
    ensures
        ({
            let m1 = mem_write_spec(m, 0x2006, first);
            let m2 = mem_write_spec(m1, 0x2006, second);
            let t = drain_ppu_address_spec(m2);
            &&& !m1.request_to_write_ppu_address
            &&& m2.request_to_write_ppu_address
            &&& t.1 == ((((first as u16) << 8) | (second as u16)) as u16, true)
            &&& !t.0.request_to_write_ppu_address
            &&& drain_ppu_address_spec(t.0).1.1 == false
        }),
        ({
            let m1 = mem_write_spec(m, 0x2006, first);
            let ms = mem_read_spec(m1, 0x2002).0;
            let m2 = mem_write_spec(ms, 0x2006, second);
            &&& m1.is_second_write
            &&& !ms.is_second_write
            &&& m2.is_second_write
            &&& !m2.request_to_write_ppu_address
            &&& m2.ppu_registers[PPU_ADDR as int] == second
        }),
{
}

/// The typed face of the eight PPU ports that the PPU itself consumes.
/// Getters decode PPUCTRL/PPUMASK/PPUSTATUS bits; the drain methods hand
/// over what the bus captured and clear the matching request flags.
pub trait PpuRegistersController: View<V = MemV> {
    fn name_table_base_address(&self) -> (r: u16)
        requires
            mem_wf(self@),
        ensures
            r == 0x2000 + 0x0400 * ((self@.ppu_registers[PPU_CTRL as int] & 0x03) as u16),
    ;

    fn address_increment(&self) -> (r: u8)
        requires
            mem_wf(self@),
        ensures
            r as u16 == address_increment_of(self@),
    ;

    fn sprite_pattern_table_address(&self) -> (r: u16)
        requires
            mem_wf(self@),
        ensures
            r == if self@.ppu_registers[PPU_CTRL as int] & 0x08 == 0x08 {
                0x1000u16
            } else {
                0x0000u16
            },
    ;

    fn bg_pattern_table_address(&self) -> (r: u16)
        requires
            mem_wf(self@),
        ensures
            r == if self@.ppu_registers[PPU_CTRL as int] & 0x10 == 0x10 {
                0x1000u16
            } else {
                0x0000u16
            },
    ;

    fn sprite_height(&self) -> (r: u8)
        requires
            mem_wf(self@),
        ensures
            r == if self@.ppu_registers[PPU_CTRL as int] & 0x20 == 0x20 {
                16u8
            } else {
                8u8
            },
    ;

    fn is_master(&self) -> (r: bool)
        requires
            mem_wf(self@),
        ensures
            r == (self@.ppu_registers[PPU_CTRL as int] & 0x40 == 0x40),
    ;

    fn is_nmi_enable(&self) -> (r: bool)
        requires
            mem_wf(self@),
        ensures
            r == (self@.ppu_registers[PPU_CTRL as int] & 0x80 == 0x80),
    ;

    fn is_monochrome(&self) -> (r: bool)
        requires
            mem_wf(self@),
        ensures
            r == (self@.ppu_registers[PPU_MASK as int] & 0x01 == 0x01),
    ;

    fn is_clip_bg(&self) -> (r: bool)
        requires
            mem_wf(self@),
        ensures
            r == (self@.ppu_registers[PPU_MASK as int] & 0x02 == 0x02),
    ;

    fn is_clip_sprite(&self) -> (r: bool)
        requires
            mem_wf(self@),
        ensures
            r == (self@.ppu_registers[PPU_MASK as int] & 0x04 == 0x04),
    ;

    fn is_write_bg(&self) -> (r: bool)
        requires
            mem_wf(self@),
        ensures
            r == (self@.ppu_registers[PPU_MASK as int] & 0x08 == 0x08),
    ;

    fn is_write_sprite(&self) -> (r: bool)
        requires
            mem_wf(self@),
        ensures
            r == (self@.ppu_registers[PPU_MASK as int] & 0x10 == 0x10),
    ;

    fn is_vblank(&self) -> (r: bool)
        requires
            mem_wf(self@),
        ensures
            r == (self@.ppu_registers[PPU_STATUS as int] & 0x80 == 0x80),
    ;

    fn on_vblank(&mut self, on: bool)
        requires
            mem_wf(old(self)@),
        ensures
            mem_wf(final(self)@),
            final(self)@ == store_status_bit_spec(old(self)@, 0x80, on),
    ;

    fn is_hit_sprite0(&self) -> (r: bool)
        requires
            mem_wf(self@),
        ensures
            r == (self@.ppu_registers[PPU_STATUS as int] & 0x40 == 0x40),
    ;

    fn on_hit_sprite0(&mut self, on: bool)
        requires
            mem_wf(old(self)@),
        ensures
            mem_wf(final(self)@),
            final(self)@ == store_status_bit_spec(old(self)@, 0x40, on),
    ;

    fn is_sprite_overflow(&self) -> (r: bool)
        requires
            mem_wf(self@),
        ensures
            r == (self@.ppu_registers[PPU_STATUS as int] & 0x20 == 0x20),
    ;

    fn on_sprite_overflow(&mut self, on: bool)
        requires
            mem_wf(old(self)@),
        ensures
            mem_wf(final(self)@),
            final(self)@ == store_status_bit_spec(old(self)@, 0x20, on),
    ;

    fn clear_ppu_status(&mut self)
        requires
            mem_wf(old(self)@),
        ensures
            mem_wf(final(self)@),
            final(self)@ == (MemV {
                ppu_registers: old(self)@.ppu_registers.update(PPU_STATUS as int, 0u8),
                ..old(self)@
            }),
    ;

    fn read_oam_address(&mut self) -> (r: u8)
        requires
            mem_wf(old(self)@),
        ensures
            mem_wf(final(self)@),
            final(self)@ == old(self)@,
            r == old(self)@.ppu_registers[OAM_ADDR as int],
    ;

    fn read_oam_data(&mut self) -> (r: (u8, bool, bool))
        requires
            mem_wf(old(self)@),
        ensures
            mem_wf(final(self)@),
            ({
                let t = drain_oam_data_spec(old(self)@);
                final(self)@ == t.0 && r == t.1
            }),
    ;

    fn write_oam_data(&mut self, data: u8)
        requires
            mem_wf(old(self)@),
        ensures
            mem_wf(final(self)@),
            final(self)@ == store_oam_data_spec(old(self)@, data),
    ;

    fn read_ppu_scroll(&mut self) -> (r: (u8, u8, bool))
        requires
            mem_wf(old(self)@),
        ensures
            mem_wf(final(self)@),
            ({
                let t = drain_ppu_scroll_spec(old(self)@);
                final(self)@ == t.0 && r == t.1
            }),
    ;

    fn read_ppu_address(&mut self) -> (r: (u16, bool))
        requires
            mem_wf(old(self)@),
        ensures
            mem_wf(final(self)@),
            ({
                let t = drain_ppu_address_spec(old(self)@);
                final(self)@ == t.0 && r == t.1
            }),
    ;

    fn read_ppu_data(&mut self) -> (r: (u8, bool, bool))
        requires
            mem_wf(old(self)@),
        ensures
            mem_wf(final(self)@),
            ({
                let t = drain_ppu_data_spec(old(self)@);
                final(self)@ == t.0 && r == t.1
            }),
    ;

    fn write_ppu_data(&mut self, data: u8)
        requires
            mem_wf(old(self)@),
        ensures
            mem_wf(final(self)@),
            final(self)@ == store_ppu_data_spec(old(self)@, data),
    ;

    fn increment_ppu_address(&mut self)
        requires
            mem_wf(old(self)@),
        ensures
            mem_wf(final(self)@),
            final(self)@ == increment_ppu_address_spec(old(self)@),
    ;
}

impl PpuRegistersController for Memory {
    fn name_table_base_address(&self) -> (r: u16) {
        let select = self.ppu_registers[PPU_CTRL] & 0x03u8;
        proof {
            let control = self.ppu_registers[PPU_CTRL as int];
            assert(control & 0x03u8 < 4) by (bit_vector);
        }
        0x2000u16 + 0x0400u16 * (select as u16)
    }

    fn address_increment(&self) -> (r: u8) {
        if (self.ppu_registers[PPU_CTRL] & 0x04u8) == 0x04u8 {
            32u8
        } else {
            1u8
        }
    }

    fn sprite_pattern_table_address(&self) -> (r: u16) {
        if (self.ppu_registers[PPU_CTRL] & 0x08u8) == 0x08u8 {
            0x1000u16
        } else {
            0x0000u16
        }
    }

    fn bg_pattern_table_address(&self) -> (r: u16) {
        if (self.ppu_registers[PPU_CTRL] & 0x10u8) == 0x10u8 {
            0x1000u16
        } else {
            0x0000u16
        }
    }

    fn sprite_height(&self) -> (r: u8) {
        if (self.ppu_registers[PPU_CTRL] & 0x20u8) == 0x20u8 {
            16
        } else {
            8
        }
    }

    fn is_master(&self) -> (r: bool) {
        (self.ppu_registers[PPU_CTRL] & 0x40u8) == 0x40u8
    }

    fn is_nmi_enable(&self) -> (r: bool) {
        (self.ppu_registers[PPU_CTRL] & 0x80u8) == 0x80u8
    }

    fn is_monochrome(&self) -> (r: bool) {
        (self.ppu_registers[PPU_MASK] & 0x01u8) == 0x01u8
    }

    fn is_clip_bg(&self) -> (r: bool) {
        (self.ppu_registers[PPU_MASK] & 0x02u8) == 0x02u8
    }

    fn is_clip_sprite(&self) -> (r: bool) {
        (self.ppu_registers[PPU_MASK] & 0x04u8) == 0x04u8
    }

    fn is_write_bg(&self) -> (r: bool) {
        (self.ppu_registers[PPU_MASK] & 0x08u8) == 0x08u8
    }

    fn is_write_sprite(&self) -> (r: bool) {
        (self.ppu_registers[PPU_MASK] & 0x10u8) == 0x10u8
    }

    fn is_vblank(&self) -> (r: bool) {
        (self.ppu_registers[PPU_STATUS] & 0x80u8) == 0x80u8
    }

    fn on_vblank(&mut self, on: bool) {
        let value = self.ppu_registers[PPU_STATUS];
        self.ppu_registers[PPU_STATUS] = if on {
            value | 0x80u8
        } else {
            value & (!0x80u8)
        };
    }

    fn is_hit_sprite0(&self) -> (r: bool) {
        (self.ppu_registers[PPU_STATUS] & 0x40u8) == 0x40u8
    }

    fn on_hit_sprite0(&mut self, on: bool) {
        let value = self.ppu_registers[PPU_STATUS];
        self.ppu_registers[PPU_STATUS] = if on {
            value | 0x40u8
        } else {
            value & (!0x40u8)
        };
    }

    fn is_sprite_overflow(&self) -> (r: bool) {
        (self.ppu_registers[PPU_STATUS] & 0x20u8) == 0x20u8
    }

    fn on_sprite_overflow(&mut self, on: bool) {
        let value = self.ppu_registers[PPU_STATUS];
        self.ppu_registers[PPU_STATUS] = if on {
            value | 0x20u8
        } else {
            value & (!0x20u8)
        };
    }

    fn clear_ppu_status(&mut self) {
        self.ppu_registers[PPU_STATUS] = 0x00;
    }

    fn read_oam_address(&mut self) -> (r: u8) {
        self.ppu_registers[OAM_ADDR]
    }

    fn read_oam_data(&mut self) -> (r: (u8, bool, bool)) {
        let reading = self.request_to_read_oam_data;
        let writing = self.request_to_write_oam_data;
        let value = self.ppu_registers[OAM_DATA];
        if writing {
            self.request_to_write_oam_data = false;
            (value, false, true)
        } else if reading {
            self.request_to_read_oam_data = false;
            (value, true, false)
        } else {
            (value, false, false)
        }
    }

    fn write_oam_data(&mut self, data: u8) {
        self.ppu_registers[OAM_DATA] = data;
    }

    fn read_ppu_scroll(&mut self) -> (r: (u8, u8, bool)) {
        let requested = self.request_to_write_ppu_scroll;
        self.request_to_write_ppu_scroll = false;
        (self.ppu_registers[PPU_SCROLL], self.ppu_register_scroll_y, requested)
    }

    fn read_ppu_address(&mut self) -> (r: (u16, bool)) {
        let hi: u16 = (self.ppu_registers[PPU_ADDR] as u16) << 8;
        let lo: u16 = self.ppu_register_address_lower as u16;
        let requested = self.request_to_write_ppu_address;
        self.request_to_write_ppu_address = false;
        (hi | lo, requested)
    }

    fn read_ppu_data(&mut self) -> (r: (u8, bool, bool)) {
        let reading = self.request_to_read_ppu_data;
        let writing = self.request_to_write_ppu_data;
        let value = self.ppu_registers[PPU_DATA];
        if writing {
            self.request_to_write_ppu_data = false;
            (value, false, true)
        } else if reading {
            self.request_to_read_ppu_data = false;
            (value, true, false)
        } else {
            (value, false, false)
        }
    }

    fn write_ppu_data(&mut self, data: u8) {
        self.ppu_registers[PPU_DATA] = data;
    }

    fn increment_ppu_address(&mut self) {
        let address: u16 = ((self.ppu_registers[PPU_ADDR] as u16) << 8)
            | (self.ppu_register_address_lower as u16);
        let step: u16 = if (self.ppu_registers[PPU_CTRL] & 0x04u8) == 0x04u8 {
            32u16
        } else {
            1u16
        };
        let next = address.wrapping_add(step);
        self.ppu_registers[PPU_ADDR] = (next >> 8) as u8;
        self.ppu_register_address_lower = (next & 0xff) as u8;
    }
}

} // verus!
