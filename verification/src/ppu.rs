use vstd::prelude::*;
use crate::cpu::Interrupt;
use crate::memory::{Memory, MemV, mem_wf};
use crate::ppu_registers::{
    drain_oam_data_spec, drain_ppu_address_spec, drain_ppu_data_spec, drain_ppu_scroll_spec,
    increment_ppu_address_spec, store_oam_data_spec, store_ppu_data_spec, store_status_bit_spec,
    PpuRegistersController, OAM_ADDR, PPU_CTRL,
};

verus! {

/// CPU cycles per scanline.
pub const CPU_CYCLES_PER_LINE: usize = 341 / 3;

/// Render screen area (width).
pub const RENDER_SCREEN_AREA_WIDTH: usize = 256;

/// Render screen area (height).
pub const RENDER_SCREEN_AREA_HEIGHT: usize = 240;

/// CPU cycles per drawn frame: the visible scanlines plus the post-render
/// line.
pub const CPU_CYCLES_PER_DRAW_FRAME: usize = CPU_CYCLES_PER_LINE * (RENDER_SCREEN_AREA_HEIGHT + 1);

pub const OAM_SIZE: usize = 0x0100;

/// Size of the PPU's own address space; VRAM addresses wrap inside it.
pub const VIDEO_RAM_SIZE: usize = 0x4000;

/// The last scanline of a field; the next one wraps to 0.
pub const LAST_SCANLINE: u16 = 261;

/// What the PPU is doing on a given scanline.
#[derive(PartialEq, Eq, Copy, Clone, Debug, Structural)]
pub enum ScanlineMode {
    Visible,
    PostRender,
    VerticalBlanking,
    PreRender,
}

/// The mode a scanline number falls in: 0-239 are drawn, 240 idles,
/// 241-260 are the vertical blank, 261 prepares the next field.
pub open spec fn scanline_mode_spec(line: u16) -> ScanlineMode {
    if line < 240 {
        ScanlineMode::Visible
    } else if line == 240 {
        ScanlineMode::PostRender
    } else if line < 261 {
        ScanlineMode::VerticalBlanking
    } else {
        ScanlineMode::PreRender
    }
}

/// The PPU skeleton: sprite memory, video memory for the PPUDATA
/// transfers, the scroll values it last observed, and its position in the
/// field as a scanline number plus a cycle remainder.
#[derive(Clone)]
pub struct Ppu {
    pub oam: Vec<u8>,
    pub video_ram: Vec<u8>,
    pub fetch_scroll_x: u8,
    pub fetch_scroll_y: u8,
    pub cumulative_cpu_cycles: u16,
    pub scanline: u16,
}

pub ghost struct PpuV {
    pub oam: Seq<u8>,
    pub video_ram: Seq<u8>,
    pub fetch_scroll_x: u8,
    pub fetch_scroll_y: u8,
    pub cumulative_cpu_cycles: u16,
    pub scanline: u16,
}

impl View for Ppu {
    type V = PpuV;

    open spec fn view(&self) -> PpuV {
        PpuV {
            oam: self.oam@,
            video_ram: self.video_ram@,
            fetch_scroll_x: self.fetch_scroll_x,
            fetch_scroll_y: self.fetch_scroll_y,
            cumulative_cpu_cycles: self.cumulative_cpu_cycles,
            scanline: self.scanline,
        }
    }
}

pub open spec fn ppu_wf(p: PpuV) -> bool {
    &&& p.oam.len() == OAM_SIZE
    &&& p.video_ram.len() == VIDEO_RAM_SIZE
    &&& p.scanline <= LAST_SCANLINE
    &&& p.cumulative_cpu_cycles < CPU_CYCLES_PER_LINE
}

/// Video memory cell reached by a VRAM address: the PPU's address space
/// wraps every 0x4000 bytes.
pub open spec fn video_index(address: u16) -> int {
    address as int % (VIDEO_RAM_SIZE as int)
}

/// One scanline boundary: the next line number, the status effects of
/// entering it, and the interrupt it raises.  Entering the vertical blank
/// sets the VBlank bit and raises an NMI when PPUCTRL enables it; entering
/// the pre-render line clears the VBlank bit.
pub open spec fn scanline_step_spec(line: u16, m: MemV) -> (u16, MemV, Option<Interrupt>) {
    let next = if line == LAST_SCANLINE {
        0u16
    } else {
        (line + 1) as u16
    };
    if next == 241 {
        let m1 = store_status_bit_spec(m, 0x80, true);
        if m.ppu_registers[PPU_CTRL as int] & 0x80 == 0x80 {
            (next, m1, Some(Interrupt::NMI))
        } else {
            (next, m1, None)
        }
    } else if next == LAST_SCANLINE {
        (next, store_status_bit_spec(m, 0x80, false), None)
    } else {
        (next, m, None)
    }
}

/// Advances the scanline clock by the cycles one instruction consumed.
/// Each full scanline's worth of cycles crosses one scanline boundary; an
/// 8-bit cycle count crosses at most three.
pub open spec fn advance_clock_spec(p: PpuV, m: MemV, cpu_cycles: u8) -> (
    PpuV,
    MemV,
    Option<Interrupt>,
) {
    let line_cycles = CPU_CYCLES_PER_LINE as int;
    let total = p.cumulative_cpu_cycles + cpu_cycles;
    if total < line_cycles {
        (PpuV { cumulative_cpu_cycles: total as u16, ..p }, m, None)
    } else {
        let t1 = scanline_step_spec(p.scanline, m);
        if total - line_cycles < line_cycles {
            (
                PpuV {
                    scanline: t1.0,
                    cumulative_cpu_cycles: (total - line_cycles) as u16,
                    ..p
                },
                t1.1,
                t1.2,
            )
        } else {
            let t2 = scanline_step_spec(t1.0, t1.1);
            let interrupt = if t2.2 is Some {
                t2.2
            } else {
                t1.2
            };
            if total - 2 * line_cycles < line_cycles {
                (
                    PpuV {
                        scanline: t2.0,
                        cumulative_cpu_cycles: (total - 2 * line_cycles) as u16,
                        ..p
                    },
                    t2.1,
                    interrupt,
                )
            } else {
                let t3 = scanline_step_spec(t2.0, t2.1);
                let interrupt3 = if t3.2 is Some {
                    t3.2
                } else {
                    interrupt
                };
                (
                    PpuV {
                        scanline: t3.0,
                        cumulative_cpu_cycles: (total - 3 * line_cycles) as u16,
                        ..p
                    },
                    t3.1,
                    interrupt3,
                )
            }
        }
    }
}

/// One PPU step.  The PPU drains what the bus captured since the last
/// step, in order: the scroll latch; the address latch; the VRAM data
/// port, where a drained write lands its byte in video memory at the
/// drained address and a drained read publishes the video byte at that
/// address on the port, either one moving the VRAM address along; and the
/// OAM port, where a drained write lands in OAM at OAMADDR and a drained
/// read publishes the OAM byte on the port.  It then advances its
/// scanline clock by the cycles the CPU spent and reports the interrupt,
/// if any, that a crossed scanline boundary raised.
#[verifier::opaque]
pub open spec fn ppu_step_spec(p: PpuV, cpu_cycles: u8, m: MemV) -> (PpuV, MemV, Option<Interrupt>) {
    let t1 = drain_ppu_scroll_spec(m);
    let p1 = PpuV { fetch_scroll_x: t1.1.0, fetch_scroll_y: t1.1.1, ..p };
    let t2 = drain_ppu_address_spec(t1.0);
    let vram_address = t2.1.0;
    let t3 = drain_ppu_data_spec(t2.0);
    let after_data = if t3.1.2 {
        (
            PpuV { video_ram: p1.video_ram.update(video_index(vram_address), t3.1.0), ..p1 },
            increment_ppu_address_spec(t3.0),
        )
    } else if t3.1.1 {
        (
            p1,
            increment_ppu_address_spec(
                store_ppu_data_spec(t3.0, p1.video_ram[video_index(vram_address)]),
            ),
        )
    } else {
        (p1, t3.0)
    };
    let p2 = after_data.0;
    let m3 = after_data.1;
    let oam_address = m3.ppu_registers[OAM_ADDR as int];
    let t4 = drain_oam_data_spec(m3);
    let after_oam = if t4.1.2 {
        (PpuV { oam: p2.oam.update(oam_address as int, t4.1.0), ..p2 }, t4.0)
    } else if t4.1.1 {
        (p2, store_oam_data_spec(t4.0, p2.oam[oam_address as int]))
    } else {
        (p2, t4.0)
    };
    advance_clock_spec(after_oam.0, after_oam.1, cpu_cycles)
}

impl Default for Ppu {
    /// A PPU with zeroed sprite memory, no latched scroll, and the clock
    /// at the top of the field.
    fn default() -> (r: Self)
        ensures
            r@.oam == Seq::new(OAM_SIZE as nat, |i: int| 0u8),
            r@.video_ram == Seq::new(VIDEO_RAM_SIZE as nat, |i: int| 0u8),
            r@.fetch_scroll_x == 0,
            r@.fetch_scroll_y == 0,
            r@.cumulative_cpu_cycles == 0,
            r@.scanline == 0,
            ppu_wf(r@),
    {
        let r = Ppu {
            oam: vec![0u8; OAM_SIZE],
            video_ram: vec![0u8; VIDEO_RAM_SIZE],
            fetch_scroll_x: 0,
            fetch_scroll_y: 0,
            cumulative_cpu_cycles: 0,
            scanline: 0,
        };
        proof {
            assert(r.oam@ =~= Seq::new(OAM_SIZE as nat, |i: int| 0u8));
            assert(r.video_ram@ =~= Seq::new(VIDEO_RAM_SIZE as nat, |i: int| 0u8));
        }
        r
    }
}

impl Ppu {
    pub open spec fn wf(&self) -> bool {
        ppu_wf(self@)
    }

    /// Clears sprite memory; the rest of the state is untouched.
    pub fn reset(&mut self)
        ensures
            final(self)@ == (PpuV { oam: Seq::new(OAM_SIZE as nat, |i: int| 0u8), ..old(self)@ }),
            ppu_wf(old(self)@) ==> ppu_wf(final(self)@),
    {
        self.oam = vec![0u8; OAM_SIZE];
        proof {
            assert(self.oam@ =~= Seq::new(OAM_SIZE as nat, |i: int| 0u8));
        }
    }

    /// The mode of the scanline the PPU is currently on.
    pub fn scanline_mode(&self) -> (r: ScanlineMode)
        ensures
            r == scanline_mode_spec(self@.scanline),
    {
        if self.scanline < 240 {
            ScanlineMode::Visible
        } else if self.scanline == 240 {
            ScanlineMode::PostRender
        } else if self.scanline < 261 {
            ScanlineMode::VerticalBlanking
        } else {
            ScanlineMode::PreRender
        }
    }

    pub fn read_oam_address(&mut self, control: &mut Memory) -> (r: u8)
        requires
            old(control).wf(),
        ensures
            final(control).wf(),
            *final(self) == *old(self),
            final(control)@ == old(control)@,
            r == old(control)@.ppu_registers[OAM_ADDR as int],
    {
        control.read_oam_address()
    }

    pub fn read_oam_data(&mut self, control: &mut Memory) -> (r: (u8, bool, bool))
        requires
            old(control).wf(),
        ensures
            final(control).wf(),
            *final(self) == *old(self),
            ({
                let t = drain_oam_data_spec(old(control)@);
                final(control)@ == t.0 && r == t.1
            }),
    {
        control.read_oam_data()
    }

    pub fn write_oam_data(&mut self, control: &mut Memory, data: u8)
        requires
            old(control).wf(),
        ensures
            final(control).wf(),
            *final(self) == *old(self),
            final(control)@ == store_oam_data_spec(old(control)@, data),
    {
        control.write_oam_data(data)
    }

    /// One scanline boundary crossing against the port surface.
    fn step_scanline(line: u16, registers: &mut Memory) -> (r: (u16, Option<Interrupt>))
        requires
            old(registers).wf(),
            line <= LAST_SCANLINE,
        ensures
            final(registers).wf(),
            ({
                let t = scanline_step_spec(line, old(registers)@);
                r.0 == t.0 && final(registers)@ == t.1 && r.1 == t.2
            }),
            r.0 <= LAST_SCANLINE,
    {
        let next: u16 = if line == LAST_SCANLINE {
            0
        } else {
            line + 1
        };
        if next == 241 {
            let nmi_enabled = registers.is_nmi_enable();
            registers.on_vblank(true);
            if nmi_enabled {
                (next, Some(Interrupt::NMI))
            } else {
                (next, None)
            }
        } else if next == LAST_SCANLINE {
            registers.on_vblank(false);
            (next, None)
        } else {
            (next, None)
        }
    }

    /// Drains the captured bus traffic, advances the scanline clock by the
    /// cycles the CPU just spent, and returns the interrupt to deliver, if
    /// a crossed scanline boundary raised one.
    pub fn step(&mut self, cpu_cycles: u8, registers: &mut Memory) -> (r: Option<Interrupt>)
        requires
            old(self).wf(),
            old(registers).wf(),
        ensures
            final(self).wf(),
            final(registers).wf(),
            ({
                let t = ppu_step_spec(old(self)@, cpu_cycles, old(registers)@);
                final(self)@ == t.0 && final(registers)@ == t.1 && r == t.2
            }),
    {
        proof {
            reveal(ppu_step_spec);
        }
        let scroll = registers.read_ppu_scroll();
        self.fetch_scroll_x = scroll.0;
        self.fetch_scroll_y = scroll.1;

        let address_drain = registers.read_ppu_address();
        let vram_index: usize = (address_drain.0 as usize) % VIDEO_RAM_SIZE;

        let data = registers.read_ppu_data();
        if data.2 {
            self.video_ram[vram_index] = data.0;
            registers.increment_ppu_address();
        } else if data.1 {
            let value = self.video_ram[vram_index];
            registers.write_ppu_data(value);
            registers.increment_ppu_address();
        }

        let oam_address = self.read_oam_address(registers);
        let oam = self.read_oam_data(registers);
        if oam.2 {
            self.oam[oam_address as usize] = oam.0;
        } else if oam.1 {
            let value = self.oam[oam_address as usize];
            self.write_oam_data(registers, value);
        }

        let line_cycles: u16 = CPU_CYCLES_PER_LINE as u16;
        let mut total: u16 = self.cumulative_cpu_cycles + cpu_cycles as u16;
        let mut line: u16 = self.scanline;
        let mut interrupt: Option<Interrupt> = None;
        if total >= line_cycles {
            let t = Ppu::step_scanline(line, registers);
            line = t.0;
            if t.1.is_some() {
                interrupt = t.1;
            }
            total = total - line_cycles;
        }
        if total >= line_cycles {
            let t = Ppu::step_scanline(line, registers);
            line = t.0;
            if t.1.is_some() {
                interrupt = t.1;
            }
            total = total - line_cycles;
        }
        if total >= line_cycles {
            let t = Ppu::step_scanline(line, registers);
            line = t.0;
            if t.1.is_some() {
                interrupt = t.1;
            }
            total = total - line_cycles;
        }
        self.cumulative_cpu_cycles = total;
        self.scanline = line;
        interrupt
    }
}

} // verus!
