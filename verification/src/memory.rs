use vstd::prelude::*;

verus! {

pub const CPU_RAM_SIZE: usize = 0x0800;

pub const PPU_REGISTER_SIZE: usize = 0x0008;

pub const CPU_RAM_BASE_ADDRESS: u16 = 0x0000;

pub const PPU_REGISTER_BASE_ADDRESS: u16 = 0x2000;

pub const APU_IO_REGISTER_BASE_ADDRESS: u16 = 0x4000;

/// The memory-mapped system bus: 2 KiB of work RAM (mirrored through
/// 0x0000-0x1FFF), the eight PPU ports (mirrored through 0x2000-0x3FFF),
/// and the latches that capture double writes and read/write requests for
/// the PPU to drain later.
#[derive(Clone)]
pub struct Memory {
    pub ram: Vec<u8>,
    pub ppu_registers: Vec<u8>,
    pub request_to_read_oam_data: bool,
    pub request_to_read_ppu_data: bool,
    pub request_to_write_oam_data: bool,
    pub request_to_write_ppu_scroll: bool,
    pub request_to_write_ppu_address: bool,
    pub request_to_write_ppu_data: bool,
    pub is_second_write: bool,
    pub ppu_register_scroll_y: u8,
    pub ppu_register_address_lower: u8,
}

/// The mathematical model of the bus: the same state with the byte stores
/// abstracted to sequences.  All bus contracts are stated as transitions
/// over this model.
pub ghost struct MemV {
    pub ram: Seq<u8>,
    pub ppu_registers: Seq<u8>,
    pub request_to_read_oam_data: bool,
    pub request_to_read_ppu_data: bool,
    pub request_to_write_oam_data: bool,
    pub request_to_write_ppu_scroll: bool,
    pub request_to_write_ppu_address: bool,
    pub request_to_write_ppu_data: bool,
    pub is_second_write: bool,
    pub ppu_register_scroll_y: u8,
    pub ppu_register_address_lower: u8,
}

impl View for Memory {
    type V = MemV;

    open spec fn view(&self) -> MemV {
        MemV {
            ram: self.ram@,
            ppu_registers: self.ppu_registers@,
            request_to_read_oam_data: self.request_to_read_oam_data,
            request_to_read_ppu_data: self.request_to_read_ppu_data,
            request_to_write_oam_data: self.request_to_write_oam_data,
            request_to_write_ppu_scroll: self.request_to_write_ppu_scroll,
            request_to_write_ppu_address: self.request_to_write_ppu_address,
            request_to_write_ppu_data: self.request_to_write_ppu_data,
            is_second_write: self.is_second_write,
            ppu_register_scroll_y: self.ppu_register_scroll_y,
            ppu_register_address_lower: self.ppu_register_address_lower,
        }
    }
}

/// The two byte stores have their architectural sizes.
pub open spec fn mem_wf(m: MemV) -> bool {
    &&& m.ram.len() == CPU_RAM_SIZE
    &&& m.ppu_registers.len() == PPU_REGISTER_SIZE
}

/// RAM index reached by an address in the RAM or cartridge fall-through
/// regions: the 2 KiB store repeats every 0x0800 bytes.
pub open spec fn ram_index(address: u16) -> int {
    address as int % 0x0800
}

/// PPU port selected by an address in 0x2000-0x3FFF: the eight ports repeat
/// every 8 bytes.
pub open spec fn ppu_port(address: u16) -> int {
    (address - 0x2000) as int % 8
}

/// One bus read: the value returned and the successor bus state.  Reads of
/// 0x2002 clear the VBlank bit and the shared second-write latch; reads of
/// 0x2004 and 0x2007 raise the matching read-request flags.  Every other
/// address is free of side effects.  Addresses at and above 0x4000 fall
/// through to the mirrored RAM, standing in for cartridge space.
pub open spec fn mem_read_spec(m: MemV, address: u16) -> (MemV, u8) {
    if address < PPU_REGISTER_BASE_ADDRESS {
        (m, m.ram[ram_index(address)])
    } else if address < APU_IO_REGISTER_BASE_ADDRESS {
        let port = ppu_port(address);
        let value = m.ppu_registers[port];
        if port == 0x02 {
            (
                MemV {
                    ppu_registers: m.ppu_registers.update(0x02, value & 0x7f),
                    is_second_write: false,
                    ..m
                },
                value,
            )
        } else if port == 0x04 {
            (MemV { request_to_read_oam_data: true, ..m }, value)
        } else if port == 0x07 {
            (MemV { request_to_read_ppu_data: true, ..m }, value)
        } else {
            (m, value)
        }
    } else {
        (m, m.ram[ram_index(address)])
    }
}

/// One bus write.  Ports 0x2005 and 0x2006 share the second-write latch:
/// the first write stores the byte in the port slot, the second stores the
/// secondary byte (scroll Y, or the low address half), raises the matching
/// request flag, and releases the latch.  Writes to 0x2002 have no effect.
pub open spec fn mem_write_spec(m: MemV, address: u16, data: u8) -> MemV {
    if address < PPU_REGISTER_BASE_ADDRESS {
        MemV { ram: m.ram.update(ram_index(address), data), ..m }
    } else if address < APU_IO_REGISTER_BASE_ADDRESS {
        let port = ppu_port(address);
        if port == 0x02 {
            m
        } else if port == 0x04 {
            MemV {
                ppu_registers: m.ppu_registers.update(0x04, data),
                request_to_write_oam_data: true,
                ..m
            }
        } else if port == 0x05 {
            if m.is_second_write {
                MemV {
                    ppu_register_scroll_y: data,
                    request_to_write_ppu_scroll: true,
                    is_second_write: false,
                    ..m
                }
            } else {
                MemV { ppu_registers: m.ppu_registers.update(0x05, data), is_second_write: true, ..m }
            }
        } else if port == 0x06 {
            if m.is_second_write {
                MemV {
                    ppu_register_address_lower: data,
                    request_to_write_ppu_address: true,
                    is_second_write: false,
                    ..m
                }
            } else {
                MemV { ppu_registers: m.ppu_registers.update(0x06, data), is_second_write: true, ..m }
            }
        } else if port == 0x07 {
            MemV {
                ppu_registers: m.ppu_registers.update(0x07, data),
                request_to_write_ppu_data: true,
                ..m
            }
        } else {
            MemV { ppu_registers: m.ppu_registers.update(port, data), ..m }
        }
    } else {
        MemV { ram: m.ram.update(ram_index(address), data), ..m }
    }
}


/// Round trip through RAM: a write below 0x2000 is read back unchanged,
/// both at the written address and at any mirror 0x0800, 0x1000 or
/// 0x1800 bytes above it that still falls below 0x2000, and such reads
/// leave the bus untouched.
pub proof fn lemma_ram_round_trip(m: MemV, address: u16, data: u8, k: u16)
    requires
        mem_wf(m),
        address < PPU_REGISTER_BASE_ADDRESS,
        k <= 3,
        address + 0x0800 * k < PPU_REGISTER_BASE_ADDRESS,
    ensures
        ({
            let m1 = mem_write_spec(m, address, data);
            let mirror = (address + 0x0800 * k) as u16;
            &&& mem_read_spec(m1, address).1 == data
            &&& mem_read_spec(m1, address).0 == m1
            &&& mem_read_spec(m1, mirror).1 == data
            &&& mem_read_spec(m1, mirror).0 == m1
        }),
{
    let mirror = (address + 0x0800 * k) as u16;
    if k == 0 {
        assert(ram_index(mirror) == ram_index(address));
    } else if k == 1 {
        assert(ram_index(mirror) == ram_index(address));
    } else if k == 2 {
        assert(ram_index(mirror) == ram_index(address));
    } else {
        assert(ram_index(mirror) == ram_index(address));
    }
}

impl Memory {
    pub open spec fn wf(&self) -> bool {
        mem_wf(self@)
    }

    /// Reads the byte a bus read at this address would return, without
    /// performing the read's side effects.  The frame driver uses it to
    /// test that the next opcode byte is decodable before stepping the CPU.
    pub fn peek_u8(&self, address: u16) -> (r: u8)
        requires
            self.wf(),
        ensures
            r == mem_read_spec(self@, address).1,
    {
        if address < PPU_REGISTER_BASE_ADDRESS {
            let index: usize = (address as usize) % CPU_RAM_SIZE;
            self.ram[index]
        } else if address < APU_IO_REGISTER_BASE_ADDRESS {
            let port: usize = ((address - PPU_REGISTER_BASE_ADDRESS) as usize) % PPU_REGISTER_SIZE;
            self.ppu_registers[port]
        } else {
            let index: usize = (address as usize) % CPU_RAM_SIZE;
            self.ram[index]
        }
    }
}

impl Default for Memory {
    /// A bus with zeroed RAM and ports, all request flags down, and the
    /// second-write latch released.
    fn default() -> (r: Self)
        ensures
            r.wf(),
            r@.ram == Seq::new(CPU_RAM_SIZE as nat, |i: int| 0u8),
            r@.ppu_registers == Seq::new(PPU_REGISTER_SIZE as nat, |i: int| 0u8),
            !r@.request_to_read_oam_data,
            !r@.request_to_read_ppu_data,
            !r@.request_to_write_oam_data,
            !r@.request_to_write_ppu_scroll,
            !r@.request_to_write_ppu_address,
            !r@.request_to_write_ppu_data,
            !r@.is_second_write,
            r@.ppu_register_scroll_y == 0,
            r@.ppu_register_address_lower == 0,
    {
        let r = Memory {
            ram: vec![0u8; CPU_RAM_SIZE],
            ppu_registers: vec![0u8; PPU_REGISTER_SIZE],
            request_to_read_oam_data: false,
            request_to_read_ppu_data: false,
            request_to_write_oam_data: false,
            request_to_write_ppu_scroll: false,
            request_to_write_ppu_address: false,
            request_to_write_ppu_data: false,
            is_second_write: false,
            ppu_register_scroll_y: 0,
            ppu_register_address_lower: 0,
        };
        proof {
            assert(r.ram@ =~= Seq::new(CPU_RAM_SIZE as nat, |i: int| 0u8));
            assert(r.ppu_registers@ =~= Seq::new(PPU_REGISTER_SIZE as nat, |i: int| 0u8));
        }
        r
    }
}

} // verus!
