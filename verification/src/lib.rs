pub mod cpu;
pub mod errors;
pub mod fetch;
pub mod instruction;
pub mod memory;
pub mod ppu;
pub mod ppu_registers;
pub mod register;
pub mod rom;
pub mod system;
pub mod video;

pub use cpu::{Cpu, Interrupt};
pub use errors::EmulationError;
pub use fetch::Operand;
pub use instruction::{AddressingMode, Instruction, Opcode, Support};
pub use memory::Memory;
pub use ppu::{
    Ppu, ScanlineMode, CPU_CYCLES_PER_DRAW_FRAME, CPU_CYCLES_PER_LINE, OAM_SIZE,
    RENDER_SCREEN_AREA_HEIGHT, RENDER_SCREEN_AREA_WIDTH, VIDEO_RAM_SIZE,
};
pub use ppu_registers::PpuRegistersController;
pub use rom::Rom;
pub use system::SystemBus;
pub use video::VideoBus;

use vstd::prelude::*;
use cpu::{interrupt_spec, step_spec};
use instruction::{lemma_min_step_cycles, spec_instruction};
use memory::{mem_read_spec, MemV, CPU_RAM_SIZE, PPU_REGISTER_SIZE};
use ppu::{ppu_step_spec, PpuV};
use rom::rom_magic_ok;

verus! {

/// The assembled console: CPU, PPU, the shared bus, and what was read
/// from the cartridge header.
#[derive(Clone)]
pub struct Nes {
    pub cpu: Cpu,
    pub ppu: Ppu,
    pub mem: Memory,
    pub rom: Rom,
}

/// What `Nes::snapshot` reports of a loaded cartridge.
#[derive(Clone)]
pub struct Snapshot {
    pub prg_rom_bytes: usize,
    pub chr_rom_bytes: usize,
}

/// The machine a fresh cartridge load produces: every register, RAM
/// cell, port, latch and OAM byte zeroed, and the bank counts taken from
/// header bytes 4 and 5.
pub open spec fn nes_initial(data: Seq<u8>, n: Nes) -> bool {
    &&& n.cpu.a == 0 && n.cpu.x == 0 && n.cpu.y == 0 && n.cpu.p == 0 && n.cpu.pc == 0
        && n.cpu.sp == 0
    &&& n.ppu@.oam == Seq::new(OAM_SIZE as nat, |i: int| 0u8)
    &&& n.ppu@.video_ram == Seq::new(VIDEO_RAM_SIZE as nat, |i: int| 0u8)
    &&& n.ppu@.fetch_scroll_x == 0 && n.ppu@.fetch_scroll_y == 0
    &&& n.ppu@.cumulative_cpu_cycles == 0 && n.ppu@.scanline == 0
    &&& n.mem@.ram == Seq::new(CPU_RAM_SIZE as nat, |i: int| 0u8)
    &&& n.mem@.ppu_registers == Seq::new(PPU_REGISTER_SIZE as nat, |i: int| 0u8)
    &&& !n.mem@.request_to_read_oam_data && !n.mem@.request_to_read_ppu_data
    &&& !n.mem@.request_to_write_oam_data && !n.mem@.request_to_write_ppu_scroll
    &&& !n.mem@.request_to_write_ppu_address && !n.mem@.request_to_write_ppu_data
    &&& !n.mem@.is_second_write
    &&& n.mem@.ppu_register_scroll_y == 0 && n.mem@.ppu_register_address_lower == 0
    &&& n.rom.prg_rom_bytes == data[4] as usize
    &&& n.rom.chr_rom_bytes == data[5] as usize
}

/// One frame of emulation, starting with `total` cycles already spent.
/// Each round runs one CPU instruction, advances the PPU by its cycles,
/// and delivers the interrupt the PPU raised, if any, before the next
/// instruction.  The frame ends once the cycle budget is spent; an opcode
/// byte outside the published table ends it with nothing.
#[verifier::opaque]
pub open spec fn frame_spec(c: Cpu, p: PpuV, m: MemV, total: int) -> Option<(Cpu, PpuV, MemV)>
    decreases CPU_CYCLES_PER_DRAW_FRAME - total,
    via frame_spec_decreases
{
    if total >= CPU_CYCLES_PER_DRAW_FRAME {
        Some((c, p, m))
    } else {
        let op = mem_read_spec(m, c.pc).1;
        if spec_instruction(op).is_none() {
            None
        } else {
            let t = step_spec(c, m);
            let u = ppu_step_spec(p, t.2, t.1);
            let d = match u.2 {
                Some(i) => interrupt_spec(t.0, u.1, i),
                None => (t.0, u.1),
            };
            let total2 = total + t.2;
            if total2 >= CPU_CYCLES_PER_DRAW_FRAME {
                Some((d.0, u.0, d.1))
            } else {
                frame_spec(d.0, u.0, d.1, total2)
            }
        }
    }
}

#[via_fn]
proof fn frame_spec_decreases(c: Cpu, p: PpuV, m: MemV, total: int) {
    if total < CPU_CYCLES_PER_DRAW_FRAME {
        let op = mem_read_spec(m, c.pc).1;
        if spec_instruction(op).is_some() {
            cpu::lemma_step_spec_cycles(c, m);
        }
    }
}

impl Nes {
    pub open spec fn wf(&self) -> bool {
        self.mem.wf() && self.ppu.wf()
    }

    /// Loads an iNES image.  An image without the magic bytes, or too
    /// short to carry the two bank counts, is rejected as invalid; a
    /// valid one yields a zeroed machine holding the header's bank
    /// counts.
    pub fn from(data: &mut Vec<u8>) -> (r: Result<Nes, EmulationError>)
        ensures
            final(data)@ == old(data)@,
            (rom_magic_ok(old(data)@) && old(data)@.len() >= 6) == (r is Ok),
            (r matches Ok(n) ==> n.wf() && nes_initial(old(data)@, n)),
            (r is Err ==> r == Err::<Nes, EmulationError>(EmulationError::InvalidRom)),
    {
        if !Rom::is_valid(data) {
            return Err(EmulationError::InvalidRom);
        }
        if data.len() < 6 {
            return Err(EmulationError::InvalidRom);
        }
        let nes = Nes {
            cpu: Cpu::default(),
            ppu: Ppu::default(),
            mem: Memory::default(),
            rom: Rom::new(data),
        };
        Ok(nes)
    }

    /// Runs one frame's worth of CPU cycles, co-stepping the PPU after
    /// every instruction and delivering any interrupt it raises.  Stops
    /// with `UndefinedOpcode` if the instruction stream reaches a byte
    /// outside the published table; the machine is then left where the
    /// bad byte was found.
    #[verifier::spinoff_prover]
    #[verifier::rlimit(100)]
    pub fn step(&mut self) -> (r: Result<(), EmulationError>)
        requires
            old(self).wf(),
        ensures
            final(self).wf(),
            final(self).rom == old(self).rom,
            ({
                let f = frame_spec(old(self).cpu, old(self).ppu@, old(self).mem@, 0);
                match r {
                    Ok(_) => f == Some((final(self).cpu, final(self).ppu@, final(self).mem@)),
                    Err(e) => f is None && e == EmulationError::UndefinedOpcode,
                }
            }),
    {
        let mut total: usize = 0;
        proof {
            reveal_with_fuel(frame_spec, 1);
        }
        while total < CPU_CYCLES_PER_DRAW_FRAME
            invariant
                self.mem.wf(),
                self.ppu.wf(),
                self.rom == old(self).rom,
                total <= CPU_CYCLES_PER_DRAW_FRAME + 254,
                frame_spec(old(self).cpu, old(self).ppu@, old(self).mem@, 0) == frame_spec(
                    self.cpu,
                    self.ppu@,
                    self.mem@,
                    total as int,
                ),
            decreases (if total <= CPU_CYCLES_PER_DRAW_FRAME {
                CPU_CYCLES_PER_DRAW_FRAME - total
            } else {
                0
            }),
        {
            proof {
                reveal_with_fuel(frame_spec, 1);
            }
            let op = self.mem.peek_u8(self.cpu.pc);
            if Instruction::decode(op).is_none() {
                return Err(EmulationError::UndefinedOpcode);
            }
            let cpu_cycle = self.cpu.step(&mut self.mem);
            let interrupt = self.ppu.step(cpu_cycle, &mut self.mem);
            if let Some(request) = interrupt {
                self.cpu.interrupt(&mut self.mem, request);
            }
            proof {
                lemma_min_step_cycles(op);
                assert(2 <= cpu_cycle);
            }
            total = total + cpu_cycle as usize;
        }
        proof {
            reveal_with_fuel(frame_spec, 1);
        }
        Ok(())
    }

    /// The bank counts read from the cartridge header.
    pub fn snapshot(self) -> (r: Snapshot)
        ensures
            r.prg_rom_bytes == self.rom.prg_rom_bytes,
            r.chr_rom_bytes == self.rom.chr_rom_bytes,
    {
        Snapshot { prg_rom_bytes: self.rom.prg_rom_bytes, chr_rom_bytes: self.rom.chr_rom_bytes }
    }
}

} // verus!
