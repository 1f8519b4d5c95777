use vstd::prelude::*;
use crate::cpu::Cpu;
use crate::instruction::{AddressingMode, mode_cycle_min, mode_cycle_max};
use crate::memory::{Memory, MemV, mem_read_spec};
use crate::system::SystemBus;

verus! {

/// Result of an addressing-mode fetch: the effective address, the byte
/// read there, and the cycles the fetch contributed, page-crossing
/// penalties included.
#[derive(Copy, Clone, Debug)]
pub struct Operand {
    pub address: u16,
    pub data: u8,
    pub cycle: u8,
}

/// One instruction-stream byte: reads at PC, then advances PC with wrap.
pub open spec fn fetch_u8_spec(c: Cpu, m: MemV) -> (Cpu, MemV, u8) {
    let t = mem_read_spec(m, c.pc);
    (Cpu { pc: c.pc.wrapping_add(1), ..c }, t.0, t.1)
}

/// Two instruction-stream bytes assembled little-endian.
pub open spec fn fetch_u16_spec(c: Cpu, m: MemV) -> (Cpu, MemV, u16) {
    let t1 = fetch_u8_spec(c, m);
    let t2 = fetch_u8_spec(t1.0, t1.1);
    (t2.0, t2.1, (t1.2 as u16) | ((t2.2 as u16) << 8))
}

/// One extra cycle exactly when the two addresses lie in different
/// 256-byte pages.
pub open spec fn page_cross_penalty(base: u16, address: u16) -> u8 {
    if (base & 0xff00) != (address & 0xff00) {
        1u8
    } else {
        0u8
    }
}

/// Address of the high half of a two-byte pointer kept in the zero page.
/// The increment wraps within the page: for 0xFF the high half is read
/// from 0x0000, never from 0x0100.
pub open spec fn zero_page_high_pointer(s: u8) -> u16 {
    s.wrapping_add(1) as u16
}

/// Address of the high half of an absolute two-byte pointer, with the 6502
/// page-wrap bug: only the low pointer byte is incremented, the high byte
/// stays, so a pointer at 0xXXFF reads its high half from 0xXX00.
pub open spec fn indirect_high_pointer(lo: u8, hi: u8) -> u16 {
    (lo.wrapping_add(1) as u16) | ((hi as u16) << 8)
}

/// Branch target: PC plus the sign-extended offset, wrapping mod 2^16.
pub open spec fn relative_target(pc: u16, offset: u8) -> u16 {
    if offset < 0x80 {
        pc.wrapping_add(offset as u16)
    } else {
        pc.wrapping_add(offset as u16).wrapping_sub(0x100)
    }
}

/// The operand an addressing-mode fetch produces, with the CPU and bus
/// states it leaves behind.  The accumulator mode carries no data of its
/// own: the executor reads A directly for accumulator-form instructions.
pub open spec fn fetch_spec(c: Cpu, m: MemV, mode: AddressingMode) -> (Cpu, MemV, Operand) {
    match mode {
        AddressingMode::Implied => (c, m, Operand { address: 0, data: 0, cycle: 0 }),
        AddressingMode::Accumulator => (c, m, Operand { address: 0, data: 0, cycle: 1 }),
        AddressingMode::Immediate => {
            let t = fetch_u8_spec(c, m);
            (t.0, t.1, Operand { address: c.pc, data: t.2, cycle: 1 })
        },
        AddressingMode::ZeroPage => {
            let t = fetch_u8_spec(c, m);
            let address = t.2 as u16;
            let d = mem_read_spec(t.1, address);
            (t.0, d.0, Operand { address, data: d.1, cycle: 2 })
        },
        AddressingMode::ZeroPageX => {
            let t = fetch_u8_spec(c, m);
            let address = t.2.wrapping_add(c.x) as u16;
            let d = mem_read_spec(t.1, address);
            (t.0, d.0, Operand { address, data: d.1, cycle: 3 })
        },
        AddressingMode::ZeroPageY => {
            let t = fetch_u8_spec(c, m);
            let address = t.2.wrapping_add(c.y) as u16;
            let d = mem_read_spec(t.1, address);
            (t.0, d.0, Operand { address, data: d.1, cycle: 3 })
        },
        AddressingMode::Absolute => {
            let t = fetch_u16_spec(c, m);
            let d = mem_read_spec(t.1, t.2);
            (t.0, d.0, Operand { address: t.2, data: d.1, cycle: 3 })
        },
        AddressingMode::AbsoluteX => {
            let t = fetch_u16_spec(c, m);
            let address = t.2.wrapping_add(c.x as u16);
            let d = mem_read_spec(t.1, address);
            (
                t.0,
                d.0,
                Operand { address, data: d.1, cycle: (3 + page_cross_penalty(t.2, address)) as u8 },
            )
        },
        AddressingMode::AbsoluteY => {
            let t = fetch_u16_spec(c, m);
            let address = t.2.wrapping_add(c.y as u16);
            let d = mem_read_spec(t.1, address);
            (
                t.0,
                d.0,
                Operand { address, data: d.1, cycle: (3 + page_cross_penalty(t.2, address)) as u8 },
            )
        },
        AddressingMode::Indirect => {
            let t1 = fetch_u8_spec(c, m);
            let t2 = fetch_u8_spec(t1.0, t1.1);
            let d1 = (t1.2 as u16) | ((t2.2 as u16) << 8);
            let d2 = indirect_high_pointer(t1.2, t2.2);
            let lo = mem_read_spec(t2.1, d1);
            let hi = mem_read_spec(lo.0, d2);
            let address = ((lo.1 as u16) | ((hi.1 as u16) << 8)) as u16;
            let d = mem_read_spec(hi.0, address);
            (t2.0, d.0, Operand { address, data: d.1, cycle: 5 })
        },
        AddressingMode::IndirectX => {
            let t = fetch_u8_spec(c, m);
            let s = t.2.wrapping_add(c.x);
            let lo = mem_read_spec(t.1, s as u16);
            let hi = mem_read_spec(lo.0, zero_page_high_pointer(s));
            let address = ((lo.1 as u16) | ((hi.1 as u16) << 8)) as u16;
            let d = mem_read_spec(hi.0, address);
            (t.0, d.0, Operand { address, data: d.1, cycle: 5 })
        },
        AddressingMode::IndirectY => {
            let t = fetch_u8_spec(c, m);
            let lo = mem_read_spec(t.1, t.2 as u16);
            let hi = mem_read_spec(lo.0, zero_page_high_pointer(t.2));
            let base = ((lo.1 as u16) | ((hi.1 as u16) << 8)) as u16;
            let address = base.wrapping_add(c.y as u16);
            let d = mem_read_spec(hi.0, address);
            (
                t.0,
                d.0,
                Operand {
                    address,
                    data: d.1,
                    cycle: (4 + page_cross_penalty(base, address)) as u8,
                },
            )
        },
        AddressingMode::Relative => {
            let t = fetch_u8_spec(c, m);
            (t.0, t.1, Operand { address: relative_target(t.0.pc, t.2), data: 0, cycle: 1 })
        },
    }
}



/// The 6502 pointer page-wrap bug, spelled out: when the low pointer
/// byte is 0xFF, the high half of the pointer is read from the bottom of
/// the same page, `(hi << 8) | 0x00`, never from `(hi << 8) + 0x100`; a
/// zero-page pointer at 0xFF reads its high half from 0x0000.
pub proof fn lemma_pointer_page_wrap(hi: u8)
    ensures
        indirect_high_pointer(0xff, hi) == (hi as u16) << 8,
        zero_page_high_pointer(0xff) == 0x0000,
{
    assert(0u16 | ((hi as u16) << 8) == ((hi as u16) << 8)) by (bit_vector);
}

/// The page-cross penalty is one extra cycle exactly when the high bytes
/// of the two addresses differ.
pub proof fn lemma_page_cross_penalty(base: u16, address: u16)
    ensures
        page_cross_penalty(base, address) == if base / 256 == address / 256 {
            0u8
        } else {
            1u8
        },
{
    assert(((base & 0xff00) == (address & 0xff00)) == (base / 256 == address / 256))
        by (bit_vector);
}

/// An addressing-mode fetch contributes a cycle count within the mode's
/// documented range.
pub proof fn lemma_fetch_spec_cycle(c: Cpu, m: MemV, mode: AddressingMode)
    ensures
        mode_cycle_min(mode) <= fetch_spec(c, m, mode).2.cycle <= mode_cycle_max(mode),
{
}


/// Page-cross penalty of the post-indexed mode: an IndirectY fetch costs
/// four cycles, plus one exactly when adding Y moved the address into a
/// different page than the base pointer read from the zero page.
pub proof fn lemma_indirect_y_page_penalty(c: Cpu, m: MemV)
    ensures
        ({
            let t = fetch_u8_spec(c, m);
            let lo = mem_read_spec(t.1, t.2 as u16);
            let hi = mem_read_spec(lo.0, zero_page_high_pointer(t.2));
            let base = ((lo.1 as u16) | ((hi.1 as u16) << 8)) as u16;
            let address = base.wrapping_add(c.y as u16);
            fetch_spec(c, m, AddressingMode::IndirectY).2.cycle == 4 + (
            if base / 256 == address / 256 {
                0int
            } else {
                1int
            })
        }),
{
    let t = fetch_u8_spec(c, m);
    let lo = mem_read_spec(t.1, t.2 as u16);
    let hi = mem_read_spec(lo.0, zero_page_high_pointer(t.2));
    let base = ((lo.1 as u16) | ((hi.1 as u16) << 8)) as u16;
    let address = base.wrapping_add(c.y as u16);
    lemma_page_cross_penalty(base, address);
}

/// Page-cross penalty of the absolute indexed modes: an AbsoluteX fetch
/// costs three cycles, plus one exactly when indexing by X moved the
/// address into a different page than the fetched base.
pub proof fn lemma_absolute_x_page_penalty(c: Cpu, m: MemV)
    ensures
        ({
            let t = fetch_u16_spec(c, m);
            let address = t.2.wrapping_add(c.x as u16);
            fetch_spec(c, m, AddressingMode::AbsoluteX).2.cycle == 3 + (
            if t.2 / 256 == address / 256 {
                0int
            } else {
                1int
            })
        }),
{
    let t = fetch_u16_spec(c, m);
    lemma_page_cross_penalty(t.2, t.2.wrapping_add(c.x as u16));
}

impl Cpu {
    pub fn fetch_u8(&mut self, system: &mut Memory) -> (r: u8)
        requires
            old(system).wf(),
        ensures
            final(system).wf(),
            ({
                let t = fetch_u8_spec(*old(self), old(system)@);
                *final(self) == t.0 && final(system)@ == t.1 && r == t.2
            }),
    {
        let v = system.read_u8(self.pc);
        self.pc = self.pc.wrapping_add(1);
        v
    }

    pub fn fetch_u16(&mut self, system: &mut Memory) -> (r: u16)
        requires
            old(system).wf(),
        ensures
            final(system).wf(),
            ({
                let t = fetch_u16_spec(*old(self), old(system)@);
                *final(self) == t.0 && final(system)@ == t.1 && r == t.2
            }),
    {
        let lo = self.fetch_u8(system);
        let hi = self.fetch_u8(system);
        (lo as u16) | ((hi as u16) << 8)
    }

    /// Fetches the operand for the given addressing mode, advancing PC over
    /// the operand bytes.  The zero-page modes never leave the zero page:
    /// an index that overflows the operand byte wraps within it.
    pub fn fetch(&mut self, system: &mut Memory, mode: AddressingMode) -> (r: Operand)
        requires
            old(system).wf(),
        ensures
            final(system).wf(),
            ({
                let t = fetch_spec(*old(self), old(system)@, mode);
                *final(self) == t.0 && final(system)@ == t.1 && r == t.2
            }),
            mode_cycle_min(mode) <= r.cycle <= mode_cycle_max(mode),
            mode == AddressingMode::ZeroPage || mode == AddressingMode::ZeroPageX || mode
                == AddressingMode::ZeroPageY ==> r.address < 0x0100,
    {
        match mode {
            AddressingMode::Implied => Operand { address: 0, data: 0, cycle: 0 },
            AddressingMode::Accumulator => Operand { address: 0, data: 0, cycle: 1 },
            AddressingMode::Immediate => {
                let address = self.pc;
                Operand { address, data: self.fetch_u8(system), cycle: 1 }
            },
            AddressingMode::ZeroPage => {
                let address = self.fetch_u8(system) as u16;
                Operand { address, data: system.read_u8(address), cycle: 2 }
            },
            AddressingMode::ZeroPageX => {
                let address = self.fetch_u8(system).wrapping_add(self.x) as u16;
                Operand { address, data: system.read_u8(address), cycle: 3 }
            },
            AddressingMode::ZeroPageY => {
                let address = self.fetch_u8(system).wrapping_add(self.y) as u16;
                Operand { address, data: system.read_u8(address), cycle: 3 }
            },
            AddressingMode::Absolute => {
                let address = self.fetch_u16(system);
                Operand { address, data: system.read_u8(address), cycle: 3 }
            },
            AddressingMode::AbsoluteX => {
                let base = self.fetch_u16(system);
                let address = base.wrapping_add(self.x as u16);
                let additional_cycle: u8 = if (base & 0xff00u16) != (address & 0xff00u16) {
                    1
                } else {
                    0
                };
                Operand { address, data: system.read_u8(address), cycle: 3 + additional_cycle }
            },
            AddressingMode::AbsoluteY => {
                let base = self.fetch_u16(system);
                let address = base.wrapping_add(self.y as u16);
                let additional_cycle: u8 = if (base & 0xff00u16) != (address & 0xff00u16) {
                    1
                } else {
                    0
                };
                Operand { address, data: system.read_u8(address), cycle: 3 + additional_cycle }
            },
            AddressingMode::Indirect => {
                let s1 = self.fetch_u8(system);
                let s2 = self.fetch_u8(system);
                let d1 = (s1 as u16) | ((s2 as u16) << 8);
                let d2 = (s1.wrapping_add(1) as u16) | ((s2 as u16) << 8);
                let lo = system.read_u8(d1) as u16;
                let hi = system.read_u8(d2) as u16;
                let address = lo | (hi << 8);
                Operand { address, data: system.read_u8(address), cycle: 5 }
            },
            AddressingMode::IndirectX => {
                let s = self.fetch_u8(system).wrapping_add(self.x);
                let lo = system.read_u8(s as u16) as u16;
                let hi = system.read_u8(s.wrapping_add(1) as u16) as u16;
                let address = lo | (hi << 8);
                Operand { address, data: system.read_u8(address), cycle: 5 }
            },
            AddressingMode::IndirectY => {
                let s = self.fetch_u8(system);
                let lo = system.read_u8(s as u16) as u16;
                let hi = system.read_u8(s.wrapping_add(1) as u16) as u16;
                let base = lo | (hi << 8);
                let address = base.wrapping_add(self.y as u16);
                let additional_cycle: u8 = if (base & 0xff00u16) != (address & 0xff00u16) {
                    1
                } else {
                    0
                };
                Operand { address, data: system.read_u8(address), cycle: 4 + additional_cycle }
            },
            AddressingMode::Relative => {
                let offset = self.fetch_u8(system);
                let address = if offset < 0x80 {
                    self.pc.wrapping_add(offset as u16)
                } else {
                    self.pc.wrapping_add(offset as u16).wrapping_sub(0x100)
                };
                Operand { address, data: 0, cycle: 1 }
            },
        }
    }
}

} // verus!
