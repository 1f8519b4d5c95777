use vstd::prelude::*;
use vstd::pervasive::unreached;
use crate::fetch::{fetch_spec, fetch_u8_spec, Operand};
use crate::instruction::{
    spec_instruction, min_step_cycles, max_step_cycles, AddressingMode, Instruction, Opcode,
};
use crate::memory::{Memory, MemV, mem_read_spec, mem_wf, mem_write_spec};
use crate::register::{
    flag_read, flag_write, regs_unchanged, update_zn, BREAK_FLAG, CARRY_FLAG, DECIMAL_FLAG,
    INTERRUPT_FLAG, NEGATIVE_FLAG, OVERFLOW_FLAG, ZERO_FLAG,
};
use crate::system::SystemBus;

verus! {

/// Architectural 6502 CPU state.  The status register P is laid out
/// `[N V 1 B D I Z C]` from bit 7 down to bit 0.  The stack pointer is kept
/// as a full 16-bit address whose low byte is the architectural S.
#[derive(Clone)]
pub struct Cpu {
    pub a: u8,
    pub x: u8,
    pub y: u8,
    pub p: u8,
    pub pc: u16,
    pub sp: u16,
}

#[derive(PartialEq, Eq, Copy, Clone, Debug, Structural)]
pub enum Interrupt {
    BRK,
    IRQ,
    NMI,
    RESET,
}

impl Default for Cpu {
    /// A CPU with every register zeroed.
    fn default() -> (r: Self)
        ensures
            r.a == 0 && r.x == 0 && r.y == 0 && r.p == 0 && r.pc == 0 && r.sp == 0,
    {
        Self { a: 0, x: 0, y: 0, p: 0, pc: 0, sp: 0 }
    }
}

/// The stack pointer one push later: the low byte steps down, wrapping
/// modulo 256; the high byte is untouched, so the stack never leaves its
/// page.
pub open spec fn stack_next_down(sp: u16) -> u16 {
    (sp & 0xff00) | ((((sp & 0x00ff) as u8).wrapping_sub(1)) as u16)
}

/// The stack pointer one pull later: the low byte steps up, wrapping
/// modulo 256 within the same page.
pub open spec fn stack_next_up(sp: u16) -> u16 {
    (sp & 0xff00) | ((((sp & 0x00ff) as u8).wrapping_add(1)) as u16)
}

/// A push writes at SP, then the low byte of SP moves down.
pub open spec fn stack_push_spec(c: Cpu, m: MemV, data: u8) -> (Cpu, MemV) {
    (Cpu { sp: stack_next_down(c.sp), ..c }, mem_write_spec(m, c.sp, data))
}

/// A pull moves the low byte of SP up first, then reads there.
pub open spec fn stack_pop_spec(c: Cpu, m: MemV) -> (Cpu, MemV, u8) {
    let sp = stack_next_up(c.sp);
    let t = mem_read_spec(m, sp);
    (Cpu { sp, ..c }, t.0, t.1)
}

/// Stack pointer movement stays within the stack page, and a pull undoes
/// a push.
pub proof fn lemma_stack_pointer_steps(sp: u16)
    ensures
        stack_next_down(sp) & 0xff00 == sp & 0xff00,
        stack_next_up(sp) & 0xff00 == sp & 0xff00,
        stack_next_up(stack_next_down(sp)) == sp,
{
    let down_low = (((sp & 0x00ff) as u8).wrapping_sub(1)) as u16;
    let up_low = (((sp & 0x00ff) as u8).wrapping_add(1)) as u16;
    assert(down_low <= 0xff ==> ((sp & 0xff00) | down_low) & 0xff00 == sp & 0xff00
        && ((sp & 0xff00) | down_low) & 0x00ff == down_low) by (bit_vector);
    assert(up_low <= 0xff ==> ((sp & 0xff00) | up_low) & 0xff00 == sp & 0xff00) by (bit_vector);
    assert((sp & 0xff00) | (sp & 0x00ff) == sp) by (bit_vector);
    assert(sp & 0x00ff <= 0xff) by (bit_vector);
}

/// Where each entry point loads its handler address from.
pub open spec fn interrupt_vector(request_type: Interrupt) -> (u16, u16) {
    match request_type {
        Interrupt::BRK => (0xfffeu16, 0xffffu16),
        Interrupt::IRQ => (0xfffeu16, 0xffffu16),
        Interrupt::NMI => (0xfffau16, 0xfffbu16),
        Interrupt::RESET => (0xfffcu16, 0xfffdu16),
    }
}

/// IRQ and BRK are held off while the interrupt-disable flag is up; NMI
/// and RESET are not.
pub open spec fn interrupt_masked(c: Cpu, request_type: Interrupt) -> bool {
    flag_read(c.p, INTERRUPT_FLAG) && (request_type == Interrupt::BRK || request_type
        == Interrupt::IRQ)
}

/// The common entry frame: push PC high byte, PC low byte, then P, and
/// raise the interrupt-disable flag.  The pushed status is P exactly as
/// it stands at that point (for BRK, with B already raised, so P 0x82
/// lands on the stack as 0x92); no bit is forced in the pushed copy, as
/// the BRK dispatch scenario requires.
pub open spec fn interrupt_frame_spec(c: Cpu, m: MemV) -> (Cpu, MemV) {
    let t1 = stack_push_spec(c, m, (c.pc >> 8) as u8);
    let t2 = stack_push_spec(t1.0, t1.1, (c.pc & 0xff) as u8);
    let t3 = stack_push_spec(t2.0, t2.1, c.p);
    (Cpu { p: flag_write(t3.0.p, INTERRUPT_FLAG, true), ..t3.0 }, t3.1)
}

/// One interrupt entry.  A masked request leaves the state untouched.
/// BRK first raises B and skips the padding byte after the opcode; IRQ and
/// NMI lower B; RESET pushes nothing.  The new PC is then read from the
/// entry point's vector.
#[verifier::opaque]
pub open spec fn interrupt_spec(c: Cpu, m: MemV, request_type: Interrupt) -> (Cpu, MemV) {
    if interrupt_masked(c, request_type) {
        (c, m)
    } else {
        let entered = match request_type {
            Interrupt::BRK => interrupt_frame_spec(
                Cpu { p: flag_write(c.p, BREAK_FLAG, true), pc: c.pc.wrapping_add(1), ..c },
                m,
            ),
            Interrupt::IRQ => interrupt_frame_spec(
                Cpu { p: flag_write(c.p, BREAK_FLAG, false), ..c },
                m,
            ),
            Interrupt::NMI => interrupt_frame_spec(
                Cpu { p: flag_write(c.p, BREAK_FLAG, false), ..c },
                m,
            ),
            Interrupt::RESET => (Cpu { p: flag_write(c.p, INTERRUPT_FLAG, true), ..c }, m),
        };
        let vector = interrupt_vector(request_type);
        let lo = mem_read_spec(entered.1, vector.0);
        let hi = mem_read_spec(lo.0, vector.1);
        (Cpu { pc: (lo.1 as u16) | ((hi.1 as u16) << 8), ..entered.0 }, hi.0)
    }
}

/// Branch resolution: a taken branch jumps to the operand address for one
/// extra cycle.
pub open spec fn branch_spec(c: Cpu, m: MemV, o: Operand, taken: bool) -> (Cpu, MemV, u8) {
    if taken {
        (Cpu { pc: o.address, ..c }, m, (2 + o.cycle) as u8)
    } else {
        (c, m, (1 + o.cycle) as u8)
    }
}

/// Common tail of the shift and rotate instructions: set C to the captured
/// bit, set ZN from the result, and land the result in A or in memory.
pub open spec fn shift_finish_spec(
    c: Cpu,
    m: MemV,
    o: Operand,
    mode: AddressingMode,
    result: u8,
    carry: bool,
) -> (Cpu, MemV, u8) {
    let p2 = update_zn(flag_write(c.p, CARRY_FLAG, carry), result);
    if mode == AddressingMode::Accumulator {
        (Cpu { a: result, p: p2, ..c }, m, (1 + o.cycle) as u8)
    } else {
        (Cpu { p: p2, ..c }, mem_write_spec(m, o.address, result), (3 + o.cycle) as u8)
    }
}

/// Binary subtract-with-borrow shared by SBC and ISC: the new A, carry and
/// overflow for `a - data - (1 - carry_in)`.
pub open spec fn sbc_core_spec(p: u8, a: u8, data: u8) -> (u8, bool, bool) {
    let borrow: u8 = if flag_read(p, CARRY_FLAG) {
        0u8
    } else {
        1u8
    };
    let v1 = a.wrapping_sub(data);
    let result = v1.wrapping_sub(borrow);
    let carry = !(a < data || v1 < borrow);
    let overflow = (a ^ data) & 0x80 == 0x80 && (a ^ result) & 0x80 == 0x80;
    (result, carry, overflow)
}

pub open spec fn adc_spec(c: Cpu, m: MemV, mode: AddressingMode) -> (Cpu, MemV, u8) {
    let t = fetch_spec(c, m, mode);
    let (c1, m1, o) = (t.0, t.1, t.2);
    let cin: u8 = if flag_read(c1.p, CARRY_FLAG) {
        1u8
    } else {
        0u8
    };
    let result = c1.a.wrapping_add(o.data).wrapping_add(cin);
    let carry = c1.a + o.data + cin > 0xff;
    let overflow = (c1.a ^ result) & (o.data ^ result) & 0x80 == 0x80;
    let p2 = update_zn(
        flag_write(flag_write(c1.p, CARRY_FLAG, carry), OVERFLOW_FLAG, overflow),
        result,
    );
    (Cpu { a: result, p: p2, ..c1 }, m1, (1 + o.cycle) as u8)
}

pub open spec fn and_spec(c: Cpu, m: MemV, mode: AddressingMode) -> (Cpu, MemV, u8) {
    let t = fetch_spec(c, m, mode);
    let result = t.0.a & t.2.data;
    (Cpu { a: result, p: update_zn(t.0.p, result), ..t.0 }, t.1, (1 + t.2.cycle) as u8)
}

/// What a shift or rotate works on: the accumulator in accumulator form,
/// the fetched operand byte otherwise.
pub open spec fn shift_input_spec(c: Cpu, o: Operand, mode: AddressingMode) -> u8 {
    if mode == AddressingMode::Accumulator {
        c.a
    } else {
        o.data
    }
}

pub open spec fn asl_spec(c: Cpu, m: MemV, mode: AddressingMode) -> (Cpu, MemV, u8) {
    let t = fetch_spec(c, m, mode);
    let input = shift_input_spec(t.0, t.2, mode);
    shift_finish_spec(t.0, t.1, t.2, mode, input << 1, input & 0x80 == 0x80)
}

pub open spec fn lsr_spec(c: Cpu, m: MemV, mode: AddressingMode) -> (Cpu, MemV, u8) {
    let t = fetch_spec(c, m, mode);
    let input = shift_input_spec(t.0, t.2, mode);
    shift_finish_spec(t.0, t.1, t.2, mode, input >> 1, input & 0x01 == 0x01)
}

pub open spec fn rol_spec(c: Cpu, m: MemV, mode: AddressingMode) -> (Cpu, MemV, u8) {
    let t = fetch_spec(c, m, mode);
    let input = shift_input_spec(t.0, t.2, mode);
    let cin: u8 = if flag_read(t.0.p, CARRY_FLAG) {
        0x01u8
    } else {
        0x00u8
    };
    shift_finish_spec(t.0, t.1, t.2, mode, (input << 1) | cin, input & 0x80 == 0x80)
}

pub open spec fn ror_spec(c: Cpu, m: MemV, mode: AddressingMode) -> (Cpu, MemV, u8) {
    let t = fetch_spec(c, m, mode);
    let input = shift_input_spec(t.0, t.2, mode);
    let cin: u8 = if flag_read(t.0.p, CARRY_FLAG) {
        0x80u8
    } else {
        0x00u8
    };
    shift_finish_spec(t.0, t.1, t.2, mode, (input >> 1) | cin, input & 0x01 == 0x01)
}

/// The eight conditional branches: taken when the selected flag has the
/// expected value.
pub open spec fn branch_on_spec(c: Cpu, m: MemV, mode: AddressingMode, mask: u8, expect: bool) -> (
    Cpu,
    MemV,
    u8,
) {
    let t = fetch_spec(c, m, mode);
    branch_spec(t.0, t.1, t.2, flag_read(t.0.p, mask) == expect)
}

pub open spec fn bit_spec(c: Cpu, m: MemV, mode: AddressingMode) -> (Cpu, MemV, u8) {
    let t = fetch_spec(c, m, mode);
    let p2 = update_zn(flag_write(t.0.p, OVERFLOW_FLAG, t.2.data & 0x40 == 0x40), t.2.data);
    (Cpu { p: p2, ..t.0 }, t.1, (1 + t.2.cycle) as u8)
}

/// CMP, CPX and CPY: `reg` is the compared register's value.  C is set
/// exactly when the register is at least the operand; ZN come from the
/// 8-bit difference.
pub open spec fn compare_spec(c: Cpu, m: MemV, mode: AddressingMode, reg: u8) -> (Cpu, MemV, u8) {
    let t = fetch_spec(c, m, mode);
    let result = reg.wrapping_sub(t.2.data);
    let p2 = update_zn(flag_write(t.0.p, CARRY_FLAG, reg >= t.2.data), result);
    (Cpu { p: p2, ..t.0 }, t.1, (1 + t.2.cycle) as u8)
}

pub open spec fn dec_spec(c: Cpu, m: MemV, mode: AddressingMode) -> (Cpu, MemV, u8) {
    let t = fetch_spec(c, m, mode);
    let result = t.2.data.wrapping_sub(1);
    (
        Cpu { p: update_zn(t.0.p, result), ..t.0 },
        mem_write_spec(t.1, t.2.address, result),
        (3 + t.2.cycle) as u8,
    )
}

pub open spec fn inc_spec(c: Cpu, m: MemV, mode: AddressingMode) -> (Cpu, MemV, u8) {
    let t = fetch_spec(c, m, mode);
    let result = t.2.data.wrapping_add(1);
    (
        Cpu { p: update_zn(t.0.p, result), ..t.0 },
        mem_write_spec(t.1, t.2.address, result),
        (3 + t.2.cycle) as u8,
    )
}

pub open spec fn eor_spec(c: Cpu, m: MemV, mode: AddressingMode) -> (Cpu, MemV, u8) {
    let t = fetch_spec(c, m, mode);
    let result = t.0.a ^ t.2.data;
    (Cpu { a: result, p: update_zn(t.0.p, result), ..t.0 }, t.1, (1 + t.2.cycle) as u8)
}

pub open spec fn ora_spec(c: Cpu, m: MemV, mode: AddressingMode) -> (Cpu, MemV, u8) {
    let t = fetch_spec(c, m, mode);
    let result = t.0.a | t.2.data;
    (Cpu { a: result, p: update_zn(t.0.p, result), ..t.0 }, t.1, (1 + t.2.cycle) as u8)
}

pub open spec fn jmp_spec(c: Cpu, m: MemV, mode: AddressingMode) -> (Cpu, MemV, u8) {
    let t = fetch_spec(c, m, mode);
    (Cpu { pc: t.2.address, ..t.0 }, t.1, t.2.cycle)
}

/// JSR pushes the address of its last operand byte, high half first.
pub open spec fn jsr_spec(c: Cpu, m: MemV, mode: AddressingMode, current_pc: u16) -> (
    Cpu,
    MemV,
    u8,
) {
    let t = fetch_spec(c, m, mode);
    let ret = current_pc.wrapping_add(2);
    let u1 = stack_push_spec(t.0, t.1, (ret >> 8) as u8);
    let u2 = stack_push_spec(u1.0, u1.1, (ret & 0xff) as u8);
    (Cpu { pc: t.2.address, ..u2.0 }, u2.1, 6)
}

pub open spec fn lda_spec(c: Cpu, m: MemV, mode: AddressingMode) -> (Cpu, MemV, u8) {
    let t = fetch_spec(c, m, mode);
    (Cpu { a: t.2.data, p: update_zn(t.0.p, t.2.data), ..t.0 }, t.1, (1 + t.2.cycle) as u8)
}

pub open spec fn ldx_spec(c: Cpu, m: MemV, mode: AddressingMode) -> (Cpu, MemV, u8) {
    let t = fetch_spec(c, m, mode);
    (Cpu { x: t.2.data, p: update_zn(t.0.p, t.2.data), ..t.0 }, t.1, (1 + t.2.cycle) as u8)
}

pub open spec fn ldy_spec(c: Cpu, m: MemV, mode: AddressingMode) -> (Cpu, MemV, u8) {
    let t = fetch_spec(c, m, mode);
    (Cpu { y: t.2.data, p: update_zn(t.0.p, t.2.data), ..t.0 }, t.1, (1 + t.2.cycle) as u8)
}

pub open spec fn pla_spec(c: Cpu, m: MemV) -> (Cpu, MemV, u8) {
    let t = stack_pop_spec(c, m);
    (Cpu { a: t.2, p: update_zn(t.0.p, t.2), ..t.0 }, t.1, 4)
}

pub open spec fn plp_spec(c: Cpu, m: MemV) -> (Cpu, MemV, u8) {
    let t = stack_pop_spec(c, m);
    (Cpu { p: t.2, ..t.0 }, t.1, 4)
}

/// RTI pulls P, then PC low, then PC high, without the RTS increment.
pub open spec fn rti_spec(c: Cpu, m: MemV) -> (Cpu, MemV, u8) {
    let t1 = stack_pop_spec(c, m);
    let t2 = stack_pop_spec(t1.0, t1.1);
    let t3 = stack_pop_spec(t2.0, t2.1);
    (Cpu { p: t1.2, pc: (t2.2 as u16) | ((t3.2 as u16) << 8), ..t3.0 }, t3.1, 6)
}

/// RTS pulls PC low then high and resumes one byte past the pulled
/// address.
pub open spec fn rts_spec(c: Cpu, m: MemV) -> (Cpu, MemV, u8) {
    let t1 = stack_pop_spec(c, m);
    let t2 = stack_pop_spec(t1.0, t1.1);
    (Cpu { pc: ((t1.2 as u16) | ((t2.2 as u16) << 8)).wrapping_add(1), ..t2.0 }, t2.1, 6)
}

pub open spec fn sbc_spec(c: Cpu, m: MemV, mode: AddressingMode) -> (Cpu, MemV, u8) {
    let t = fetch_spec(c, m, mode);
    let u = sbc_core_spec(t.0.p, t.0.a, t.2.data);
    let p2 = update_zn(flag_write(flag_write(t.0.p, CARRY_FLAG, u.1), OVERFLOW_FLAG, u.2), u.0);
    (Cpu { a: u.0, p: p2, ..t.0 }, t.1, (1 + t.2.cycle) as u8)
}

/// STA, STX, STY and SAX: `data` is the stored value.
pub open spec fn store_spec(c: Cpu, m: MemV, mode: AddressingMode, data: u8) -> (Cpu, MemV, u8) {
    let t = fetch_spec(c, m, mode);
    (t.0, mem_write_spec(t.1, t.2.address, data), (1 + t.2.cycle) as u8)
}

pub open spec fn alr_spec(c: Cpu, m: MemV, mode: AddressingMode) -> (Cpu, MemV, u8) {
    let t = fetch_spec(c, m, mode);
    let v = t.0.a & t.2.data;
    let result = v >> 1;
    let p2 = update_zn(flag_write(t.0.p, CARRY_FLAG, v & 0x01 == 0x01), result);
    (Cpu { a: result, p: p2, ..t.0 }, t.1, (1 + t.2.cycle) as u8)
}

pub open spec fn anc_spec(c: Cpu, m: MemV, mode: AddressingMode) -> (Cpu, MemV, u8) {
    let t = fetch_spec(c, m, mode);
    let result = t.0.a & t.2.data;
    let p2 = update_zn(flag_write(t.0.p, CARRY_FLAG, result & 0x80 == 0x80), result);
    (Cpu { a: result, p: p2, ..t.0 }, t.1, (1 + t.2.cycle) as u8)
}

pub open spec fn arr_spec(c: Cpu, m: MemV, mode: AddressingMode) -> (Cpu, MemV, u8) {
    let t = fetch_spec(c, m, mode);
    let v = t.0.a & t.2.data;
    let cin: u8 = if flag_read(t.0.p, CARRY_FLAG) {
        0x80u8
    } else {
        0x00u8
    };
    let result = (v >> 1) | cin;
    let overflow = ((result & 0x40) ^ ((result & 0x20) << 1)) == 0x40;
    let p2 = update_zn(
        flag_write(flag_write(t.0.p, CARRY_FLAG, result & 0x40 == 0x40), OVERFLOW_FLAG, overflow),
        result,
    );
    (Cpu { a: result, p: p2, ..t.0 }, t.1, (1 + t.2.cycle) as u8)
}

pub open spec fn axs_spec(c: Cpu, m: MemV, mode: AddressingMode) -> (Cpu, MemV, u8) {
    let t = fetch_spec(c, m, mode);
    let v = t.0.a & t.0.x;
    let result = v.wrapping_sub(t.2.data);
    let p2 = update_zn(flag_write(t.0.p, CARRY_FLAG, v >= t.2.data), result);
    (Cpu { x: result, p: p2, ..t.0 }, t.1, (1 + t.2.cycle) as u8)
}

pub open spec fn dcp_spec(c: Cpu, m: MemV, mode: AddressingMode) -> (Cpu, MemV, u8) {
    let t = fetch_spec(c, m, mode);
    let v = t.2.data.wrapping_sub(1);
    let result = t.0.a.wrapping_sub(v);
    let p2 = update_zn(flag_write(t.0.p, CARRY_FLAG, t.0.a >= v), result);
    (Cpu { p: p2, ..t.0 }, mem_write_spec(t.1, t.2.address, v), (3 + t.2.cycle) as u8)
}

pub open spec fn isc_spec(c: Cpu, m: MemV, mode: AddressingMode) -> (Cpu, MemV, u8) {
    let t = fetch_spec(c, m, mode);
    let v = t.2.data.wrapping_add(1);
    let u = sbc_core_spec(t.0.p, t.0.a, v);
    let p2 = update_zn(flag_write(flag_write(t.0.p, CARRY_FLAG, u.1), OVERFLOW_FLAG, u.2), u.0);
    (Cpu { a: u.0, p: p2, ..t.0 }, mem_write_spec(t.1, t.2.address, v), (3 + t.2.cycle) as u8)
}

pub open spec fn lax_spec(c: Cpu, m: MemV, mode: AddressingMode) -> (Cpu, MemV, u8) {
    let t = fetch_spec(c, m, mode);
    (Cpu { a: t.2.data, x: t.2.data, p: update_zn(t.0.p, t.2.data), ..t.0 }, t.1, (1
        + t.2.cycle) as u8)
}

pub open spec fn rla_spec(c: Cpu, m: MemV, mode: AddressingMode) -> (Cpu, MemV, u8) {
    let t = fetch_spec(c, m, mode);
    let cin: u8 = if flag_read(t.0.p, CARRY_FLAG) {
        0x01u8
    } else {
        0x00u8
    };
    let v = (t.2.data << 1) | cin;
    let result = t.0.a & v;
    let p2 = update_zn(flag_write(t.0.p, CARRY_FLAG, t.2.data & 0x80 == 0x80), result);
    (Cpu { a: result, p: p2, ..t.0 }, mem_write_spec(t.1, t.2.address, v), (3 + t.2.cycle) as u8)
}

/// IGN and SKB fetch and discard their operand, advancing PC by the mode's
/// width.
pub open spec fn skip_spec(c: Cpu, m: MemV, mode: AddressingMode) -> (Cpu, MemV, u8) {
    let t = fetch_spec(c, m, mode);
    (t.0, t.1, (1 + t.2.cycle) as u8)
}

/// Execution of one decoded instruction, starting from the state just
/// after the opcode byte was fetched.  `current_pc` is the address the
/// opcode byte was fetched from.
pub open spec fn instruction_spec(c: Cpu, m: MemV, ins: Instruction, current_pc: u16) -> (
    Cpu,
    MemV,
    u8,
) {
    let mode = ins.addressing_mode;
    match ins.opcode {
        Opcode::ADC => adc_spec(c, m, mode),
        Opcode::AND => and_spec(c, m, mode),
        Opcode::ASL => asl_spec(c, m, mode),
        Opcode::BCC => branch_on_spec(c, m, mode, CARRY_FLAG, false),
        Opcode::BCS => branch_on_spec(c, m, mode, CARRY_FLAG, true),
        Opcode::BEQ => branch_on_spec(c, m, mode, ZERO_FLAG, true),
        Opcode::BIT => bit_spec(c, m, mode),
        Opcode::BMI => branch_on_spec(c, m, mode, NEGATIVE_FLAG, true),
        Opcode::BNE => branch_on_spec(c, m, mode, ZERO_FLAG, false),
        Opcode::BPL => branch_on_spec(c, m, mode, NEGATIVE_FLAG, false),
        Opcode::BRK => {
            let t = interrupt_spec(c, m, Interrupt::BRK);
            (t.0, t.1, 7)
        },
        Opcode::BVC => branch_on_spec(c, m, mode, OVERFLOW_FLAG, false),
        Opcode::BVS => branch_on_spec(c, m, mode, OVERFLOW_FLAG, true),
        Opcode::CLC => (Cpu { p: flag_write(c.p, CARRY_FLAG, false), ..c }, m, 2),
        Opcode::CLD => (Cpu { p: flag_write(c.p, DECIMAL_FLAG, false), ..c }, m, 2),
        Opcode::CLI => (Cpu { p: flag_write(c.p, INTERRUPT_FLAG, false), ..c }, m, 2),
        Opcode::CLV => (Cpu { p: flag_write(c.p, OVERFLOW_FLAG, false), ..c }, m, 2),
        Opcode::CMP => compare_spec(c, m, mode, c.a),
        Opcode::CPX => compare_spec(c, m, mode, c.x),
        Opcode::CPY => compare_spec(c, m, mode, c.y),
        Opcode::DEC => dec_spec(c, m, mode),
        Opcode::DEX => {
            let result = c.x.wrapping_sub(1);
            (Cpu { x: result, p: update_zn(c.p, result), ..c }, m, 2)
        },
        Opcode::DEY => {
            let result = c.y.wrapping_sub(1);
            (Cpu { y: result, p: update_zn(c.p, result), ..c }, m, 2)
        },
        Opcode::EOR => eor_spec(c, m, mode),
        Opcode::INC => inc_spec(c, m, mode),
        Opcode::INX => {
            let result = c.x.wrapping_add(1);
            (Cpu { x: result, p: update_zn(c.p, result), ..c }, m, 2)
        },
        Opcode::INY => {
            let result = c.y.wrapping_add(1);
            (Cpu { y: result, p: update_zn(c.p, result), ..c }, m, 2)
        },
        Opcode::JMP => jmp_spec(c, m, mode),
        Opcode::JSR => jsr_spec(c, m, mode, current_pc),
        Opcode::LDA => lda_spec(c, m, mode),
        Opcode::LDX => ldx_spec(c, m, mode),
        Opcode::LDY => ldy_spec(c, m, mode),
        Opcode::LSR => lsr_spec(c, m, mode),
        Opcode::NOP => (c, m, 2),
        Opcode::ORA => ora_spec(c, m, mode),
        Opcode::PHA => {
            let t = stack_push_spec(c, m, c.a);
            (t.0, t.1, 3)
        },
        Opcode::PHP => {
            let t = stack_push_spec(c, m, c.p);
            (t.0, t.1, 3)
        },
        Opcode::PLA => pla_spec(c, m),
        Opcode::PLP => plp_spec(c, m),
        Opcode::ROL => rol_spec(c, m, mode),
        Opcode::ROR => ror_spec(c, m, mode),
        Opcode::RTI => rti_spec(c, m),
        Opcode::RTS => rts_spec(c, m),
        Opcode::SBC => sbc_spec(c, m, mode),
        Opcode::SEC => (Cpu { p: flag_write(c.p, CARRY_FLAG, true), ..c }, m, 2),
        Opcode::SED => (Cpu { p: flag_write(c.p, DECIMAL_FLAG, true), ..c }, m, 2),
        Opcode::SEI => (Cpu { p: flag_write(c.p, INTERRUPT_FLAG, true), ..c }, m, 2),
        Opcode::STA => store_spec(c, m, mode, c.a),
        Opcode::STX => store_spec(c, m, mode, c.x),
        Opcode::STY => store_spec(c, m, mode, c.y),
        Opcode::TAX => (Cpu { x: c.a, p: update_zn(c.p, c.a), ..c }, m, 2),
        Opcode::TAY => (Cpu { y: c.a, p: update_zn(c.p, c.a), ..c }, m, 2),
        Opcode::TSX => {
            let result = (c.sp & 0x00ff) as u8;
            (Cpu { x: result, p: update_zn(c.p, result), ..c }, m, 2)
        },
        Opcode::TXA => (Cpu { a: c.x, p: update_zn(c.p, c.x), ..c }, m, 2),
        Opcode::TXS => (Cpu { sp: (c.x as u16) | 0x0100, ..c }, m, 2),
        Opcode::TYA => (Cpu { a: c.y, p: update_zn(c.p, c.y), ..c }, m, 2),
        Opcode::ALR => alr_spec(c, m, mode),
        Opcode::ANC => anc_spec(c, m, mode),
        Opcode::ARR => arr_spec(c, m, mode),
        Opcode::AXS => axs_spec(c, m, mode),
        Opcode::DCP => dcp_spec(c, m, mode),
        Opcode::ISC => isc_spec(c, m, mode),
        Opcode::LAX => lax_spec(c, m, mode),
        Opcode::RLA => rla_spec(c, m, mode),
        Opcode::SAX => store_spec(c, m, mode, c.a & c.x),
        Opcode::IGN => skip_spec(c, m, mode),
        Opcode::SKB => skip_spec(c, m, mode),
    }
}

/// One CPU step: fetch the opcode byte at PC, decode it, and run the
/// instruction.  Defined only for bytes of the published table; for an
/// undefined byte the third component is a dummy that no verified caller
/// relies on.
#[verifier::opaque]
pub open spec fn step_spec(c: Cpu, m: MemV) -> (Cpu, MemV, u8) {
    let t = fetch_u8_spec(c, m);
    match spec_instruction(t.2) {
        Some(ins) => instruction_spec(t.0, t.1, ins, c.pc),
        None => (t.0, t.1, 0),
    }
}


#[verifier::spinoff_prover]
#[verifier::rlimit(100)]
proof fn lemma_instruction_spec_cycles_a(c: Cpu, m: MemV, ins: Instruction, current_pc: u16)
    requires
        ins.opcode == Opcode::ADC || ins.opcode == Opcode::AND || ins.opcode == Opcode::ASL
            || ins.opcode == Opcode::BCC || ins.opcode == Opcode::BCS || ins.opcode == Opcode::BEQ
            || ins.opcode == Opcode::BIT || ins.opcode == Opcode::BMI || ins.opcode == Opcode::BNE
            || ins.opcode == Opcode::BPL || ins.opcode == Opcode::BRK || ins.opcode == Opcode::BVC
            || ins.opcode == Opcode::BVS || ins.opcode == Opcode::CLC || ins.opcode == Opcode::CLD
            || ins.opcode == Opcode::CLI || ins.opcode == Opcode::CLV,
    ensures
        min_step_cycles(ins) <= instruction_spec(c, m, ins, current_pc).2 <= max_step_cycles(ins),
{
    crate::fetch::lemma_fetch_spec_cycle(c, m, ins.addressing_mode);
}

#[verifier::spinoff_prover]
#[verifier::rlimit(100)]
proof fn lemma_instruction_spec_cycles_b(c: Cpu, m: MemV, ins: Instruction, current_pc: u16)
    requires
        ins.opcode == Opcode::CMP || ins.opcode == Opcode::CPX || ins.opcode == Opcode::CPY
            || ins.opcode == Opcode::DEC || ins.opcode == Opcode::DEX || ins.opcode == Opcode::DEY
            || ins.opcode == Opcode::EOR || ins.opcode == Opcode::INC || ins.opcode == Opcode::INX
            || ins.opcode == Opcode::INY || ins.opcode == Opcode::JMP || ins.opcode == Opcode::JSR
            || ins.opcode == Opcode::LDA || ins.opcode == Opcode::LDX || ins.opcode == Opcode::LDY
            || ins.opcode == Opcode::LSR || ins.opcode == Opcode::NOP,
    ensures
        min_step_cycles(ins) <= instruction_spec(c, m, ins, current_pc).2 <= max_step_cycles(ins),
{
    crate::fetch::lemma_fetch_spec_cycle(c, m, ins.addressing_mode);
}

#[verifier::spinoff_prover]
#[verifier::rlimit(100)]
proof fn lemma_instruction_spec_cycles_c(c: Cpu, m: MemV, ins: Instruction, current_pc: u16)
    requires
        ins.opcode == Opcode::ORA || ins.opcode == Opcode::PHA || ins.opcode == Opcode::PHP
            || ins.opcode == Opcode::PLA || ins.opcode == Opcode::PLP || ins.opcode == Opcode::ROL
            || ins.opcode == Opcode::ROR || ins.opcode == Opcode::RTI || ins.opcode == Opcode::RTS
            || ins.opcode == Opcode::SBC || ins.opcode == Opcode::SEC || ins.opcode == Opcode::SED
            || ins.opcode == Opcode::SEI || ins.opcode == Opcode::STA || ins.opcode == Opcode::STX
            || ins.opcode == Opcode::STY || ins.opcode == Opcode::TAX,
    ensures
        min_step_cycles(ins) <= instruction_spec(c, m, ins, current_pc).2 <= max_step_cycles(ins),
{
    crate::fetch::lemma_fetch_spec_cycle(c, m, ins.addressing_mode);
}

#[verifier::spinoff_prover]
#[verifier::rlimit(100)]
proof fn lemma_instruction_spec_cycles_d(c: Cpu, m: MemV, ins: Instruction, current_pc: u16)
    requires
        ins.opcode == Opcode::TAY || ins.opcode == Opcode::TSX || ins.opcode == Opcode::TXA
            || ins.opcode == Opcode::TXS || ins.opcode == Opcode::TYA || ins.opcode == Opcode::ALR
            || ins.opcode == Opcode::ANC || ins.opcode == Opcode::ARR || ins.opcode == Opcode::AXS
            || ins.opcode == Opcode::DCP || ins.opcode == Opcode::ISC || ins.opcode == Opcode::LAX
            || ins.opcode == Opcode::RLA || ins.opcode == Opcode::SAX || ins.opcode == Opcode::IGN
            || ins.opcode == Opcode::SKB,
    ensures
        min_step_cycles(ins) <= instruction_spec(c, m, ins, current_pc).2 <= max_step_cycles(ins),
{
    crate::fetch::lemma_fetch_spec_cycle(c, m, ins.addressing_mode);
}

/// A step of any decoded instruction consumes a cycle count within the
/// documented range for its mnemonic and mode.
pub proof fn lemma_instruction_spec_cycles(c: Cpu, m: MemV, ins: Instruction, current_pc: u16)
    ensures
        min_step_cycles(ins) <= instruction_spec(c, m, ins, current_pc).2 <= max_step_cycles(ins),
{
    match ins.opcode {
        Opcode::ADC | Opcode::AND | Opcode::ASL | Opcode::BCC | Opcode::BCS | Opcode::BEQ |
            Opcode::BIT | Opcode::BMI | Opcode::BNE | Opcode::BPL | Opcode::BRK |
            Opcode::BVC | Opcode::BVS | Opcode::CLC | Opcode::CLD | Opcode::CLI |
            Opcode::CLV => lemma_instruction_spec_cycles_a(
            c,
            m,
            ins,
            current_pc,
        ),
        Opcode::CMP | Opcode::CPX | Opcode::CPY | Opcode::DEC | Opcode::DEX | Opcode::DEY |
            Opcode::EOR | Opcode::INC | Opcode::INX | Opcode::INY | Opcode::JMP |
            Opcode::JSR | Opcode::LDA | Opcode::LDX | Opcode::LDY | Opcode::LSR |
            Opcode::NOP => lemma_instruction_spec_cycles_b(
            c,
            m,
            ins,
            current_pc,
        ),
        Opcode::ORA | Opcode::PHA | Opcode::PHP | Opcode::PLA | Opcode::PLP | Opcode::ROL |
            Opcode::ROR | Opcode::RTI | Opcode::RTS | Opcode::SBC | Opcode::SEC |
            Opcode::SED | Opcode::SEI | Opcode::STA | Opcode::STX | Opcode::STY |
            Opcode::TAX => lemma_instruction_spec_cycles_c(
            c,
            m,
            ins,
            current_pc,
        ),
        Opcode::TAY | Opcode::TSX | Opcode::TXA | Opcode::TXS | Opcode::TYA | Opcode::ALR |
            Opcode::ANC | Opcode::ARR | Opcode::AXS | Opcode::DCP | Opcode::ISC |
            Opcode::LAX | Opcode::RLA | Opcode::SAX | Opcode::IGN | Opcode::SKB => lemma_instruction_spec_cycles_d(
            c,
            m,
            ins,
            current_pc,
        ),
    }
}


/// A step of any decodable opcode byte takes at least two cycles; the
/// frame driver's termination rests on this.
pub proof fn lemma_step_spec_cycles(c: Cpu, m: MemV)
    requires
        spec_instruction(fetch_u8_spec(c, m).2).is_some(),
    ensures
        2 <= step_spec(c, m).2,
{
    reveal(step_spec);
    let t = fetch_u8_spec(c, m);
    lemma_instruction_spec_cycles(t.0, t.1, spec_instruction(t.2).unwrap(), c.pc);
    crate::instruction::lemma_min_step_cycles(t.2);
}

/// Push/pull round trip for the accumulator: a PHA; PLA pair leaves A
/// and SP where they were and moves PC over the two opcode bytes.  Both
/// opcodes must sit in low RAM, the stack cell must land in RAM, and the
/// pushed byte must not overwrite the PLA opcode through the mirrors.
#[verifier::spinoff_prover]
#[verifier::rlimit(100)]
pub proof fn lemma_push_pull_accumulator(c: Cpu, m: MemV)
    requires
        mem_wf(m),
        c.pc < 0x1fff,
        c.sp < 0x2000,
        c.sp as int % 0x0800 != (c.pc + 1) as int % 0x0800,
        mem_read_spec(m, c.pc).1 == 0x48,
        mem_read_spec(m, (c.pc + 1) as u16).1 == 0x68,
    ensures
        ({
            let t1 = step_spec(c, m);
            let t2 = step_spec(t1.0, t1.1);
            t2.0.a == c.a && t2.0.sp == c.sp && t2.0.pc == c.pc + 2
        }),
{
    reveal(step_spec);
    lemma_stack_pointer_steps(c.sp);
}

/// Push/pull round trip for the status register: a PHP; PLP pair
/// restores every bit of P, with the same aliasing conditions as the
/// accumulator round trip.
#[verifier::spinoff_prover]
#[verifier::rlimit(100)]
pub proof fn lemma_push_pull_status(c: Cpu, m: MemV)
    requires
        mem_wf(m),
        c.pc < 0x1fff,
        c.sp < 0x2000,
        c.sp as int % 0x0800 != (c.pc + 1) as int % 0x0800,
        mem_read_spec(m, c.pc).1 == 0x08,
        mem_read_spec(m, (c.pc + 1) as u16).1 == 0x28,
    ensures
        ({
            let t1 = step_spec(c, m);
            let t2 = step_spec(t1.0, t1.1);
            t2.0.p == c.p && t2.0.sp == c.sp && t2.0.pc == c.pc + 2
        }),
{
    reveal(step_spec);
    lemma_stack_pointer_steps(c.sp);
}

impl Cpu {
    /// Sets Z exactly when the result is zero and N to the result's top
    /// bit, leaving every other flag alone.
    pub fn check_zero_and_negative_flag(&mut self, value: u8)
        ensures
            final(self).p == update_zn(old(self).p, value),
            regs_unchanged(*old(self), *final(self)),
            flag_read(final(self).p, ZERO_FLAG) == (value == 0),
            flag_read(final(self).p, NEGATIVE_FLAG) == (value & 0x80 == 0x80),
    {
        self.write_zero_flag(value == 0);
        self.write_negative_flag((value & 0x80) == 0x80);
        proof {
            let p0 = old(self).p;
            let zero = value == 0;
            let negative = value & 0x80 == 0x80;
            assert(({
                let pz = if zero {
                    p0 | 0x02u8
                } else {
                    p0 & !0x02u8
                };
                let pn = if negative {
                    pz | 0x80u8
                } else {
                    pz & !0x80u8
                };
                (pn & 0x02u8 == 0x02u8) == zero && (pn & 0x80u8 == 0x80u8) == negative
            })) by (bit_vector);
        }
    }

    fn stack_push(&mut self, system: &mut Memory, data: u8)
        requires
            old(system).wf(),
        ensures
            final(system).wf(),
            ({
                let t = stack_push_spec(*old(self), old(system)@, data);
                *final(self) == t.0 && final(system)@ == t.1
            }),
            final(self).sp & 0xff00 == old(self).sp & 0xff00,
    {
        system.write_u8(self.sp, data);
        let low = (self.sp & 0x00ff) as u8;
        self.sp = (self.sp & 0xff00) | (low.wrapping_sub(1) as u16);
        proof {
            lemma_stack_pointer_steps(old(self).sp);
        }
    }

    fn stack_pop(&mut self, system: &mut Memory) -> (r: u8)
        requires
            old(system).wf(),
        ensures
            final(system).wf(),
            ({
                let t = stack_pop_spec(*old(self), old(system)@);
                *final(self) == t.0 && final(system)@ == t.1 && r == t.2
            }),
            final(self).sp & 0xff00 == old(self).sp & 0xff00,
    {
        let low = (self.sp & 0x00ff) as u8;
        self.sp = (self.sp & 0xff00) | (low.wrapping_add(1) as u16);
        proof {
            lemma_stack_pointer_steps(old(self).sp);
        }
        system.read_u8(self.sp)
    }

    /// Enters an interrupt handler: pushes the return frame (except for
    /// RESET), raises the interrupt-disable flag, and loads PC from the
    /// entry point's vector.  A BRK or IRQ request is ignored while the
    /// interrupt-disable flag is up.
    pub fn interrupt(&mut self, system: &mut Memory, request_type: Interrupt)
        requires
            old(system).wf(),
        ensures
            final(system).wf(),
            ({
                let t = interrupt_spec(*old(self), old(system)@, request_type);
                *final(self) == t.0 && final(system)@ == t.1
            }),
            final(self).sp & 0xff00 == old(self).sp & 0xff00,
    {
        proof {
            reveal(interrupt_spec);
        }
        let is_multilevel_interrupt = self.read_interrupt_flag();
        if is_multilevel_interrupt && (request_type == Interrupt::BRK || request_type
            == Interrupt::IRQ) {
            return ;
        }
        let address: (u16, u16) = match request_type {
            Interrupt::BRK => {
                self.write_break_flag(true);
                self.pc = self.pc.wrapping_add(1);
                let hi = (self.pc >> 8) as u8;
                let lo = (self.pc & 0xff) as u8;
                self.stack_push(system, hi);
                self.stack_push(system, lo);
                self.stack_push(system, self.p);
                self.write_interrupt_flag(true);
                (0xfffeu16, 0xffffu16)
            },
            Interrupt::IRQ => {
                self.write_break_flag(false);
                let hi = (self.pc >> 8) as u8;
                let lo = (self.pc & 0xff) as u8;
                self.stack_push(system, hi);
                self.stack_push(system, lo);
                self.stack_push(system, self.p);
                self.write_interrupt_flag(true);
                (0xfffeu16, 0xffffu16)
            },
            Interrupt::NMI => {
                self.write_break_flag(false);
                let hi = (self.pc >> 8) as u8;
                let lo = (self.pc & 0xff) as u8;
                self.stack_push(system, hi);
                self.stack_push(system, lo);
                self.stack_push(system, self.p);
                self.write_interrupt_flag(true);
                (0xfffau16, 0xfffbu16)
            },
            Interrupt::RESET => {
                self.write_interrupt_flag(true);
                (0xfffcu16, 0xfffdu16)
            },
        };
        let lo = system.read_u8(address.0);
        let hi = system.read_u8(address.1);
        self.pc = (lo as u16) | ((hi as u16) << 8);
    }

    /// Executes the instruction at PC and returns the cycles it consumed.
    /// The byte at PC must decode; an undefined opcode is fatal, so callers
    /// test with `Instruction::decode` first.  The cycle count always lies
    /// in the documented range for the decoded mnemonic and mode, and a
    /// step that finds the stack pointer inside the stack page leaves it
    /// there: stack arithmetic moves the low byte of SP alone.
    pub fn step(&mut self, system: &mut Memory) -> (r: u8)
        requires
            old(system).wf(),
            spec_instruction(mem_read_spec(old(system)@, old(self).pc).1).is_some(),
        ensures
            final(system).wf(),
            ({
                let t = step_spec(*old(self), old(system)@);
                *final(self) == t.0 && final(system)@ == t.1 && r == t.2
            }),
            ({
                let ins = spec_instruction(mem_read_spec(old(system)@, old(self).pc).1).unwrap();
                min_step_cycles(ins) <= r <= max_step_cycles(ins)
            }),
            old(self).sp & 0xff00 == 0x0100 ==> final(self).sp & 0xff00 == 0x0100,
    {
        proof {
            reveal(step_spec);
        }
        let current_pc = self.pc;
        let raw_opcode = self.fetch_u8(system);
        let instruction = Instruction::from(raw_opcode);
        // The dispatch is split into four helpers so that each solver
        // query covers a quarter of the instruction set.
        match instruction.opcode {
            Opcode::ADC | Opcode::AND | Opcode::ASL | Opcode::BCC | Opcode::BCS |
                Opcode::BEQ | Opcode::BIT | Opcode::BMI | Opcode::BNE | Opcode::BPL |
                Opcode::BRK | Opcode::BVC | Opcode::BVS | Opcode::CLC | Opcode::CLD |
                Opcode::CLI | Opcode::CLV => self.step_group_a(
                system,
                instruction,
                current_pc,
            ),
            Opcode::CMP | Opcode::CPX | Opcode::CPY | Opcode::DEC | Opcode::DEX |
                Opcode::DEY | Opcode::EOR | Opcode::INC | Opcode::INX | Opcode::INY |
                Opcode::JMP | Opcode::JSR | Opcode::LDA | Opcode::LDX | Opcode::LDY |
                Opcode::LSR | Opcode::NOP => self.step_group_b(
                system,
                instruction,
                current_pc,
            ),
            Opcode::ORA | Opcode::PHA | Opcode::PHP | Opcode::PLA | Opcode::PLP |
                Opcode::ROL | Opcode::ROR | Opcode::RTI | Opcode::RTS | Opcode::SBC |
                Opcode::SEC | Opcode::SED | Opcode::SEI | Opcode::STA | Opcode::STX |
                Opcode::STY | Opcode::TAX => self.step_group_c(
                system,
                instruction,
                current_pc,
            ),
            Opcode::TAY | Opcode::TSX | Opcode::TXA | Opcode::TXS | Opcode::TYA |
                Opcode::ALR | Opcode::ANC | Opcode::ARR | Opcode::AXS | Opcode::DCP |
                Opcode::ISC | Opcode::LAX | Opcode::RLA | Opcode::SAX | Opcode::IGN |
                Opcode::SKB => self.step_group_d(
                system,
                instruction,
                current_pc,
            ),
        }
    }

    #[verifier::spinoff_prover]
    #[verifier::rlimit(100)]
    fn step_group_a(&mut self, system: &mut Memory, instruction: Instruction, current_pc: u16) -> (r: u8)
        requires
            old(system).wf(),
            instruction.opcode == Opcode::ADC || instruction.opcode == Opcode::AND
                || instruction.opcode == Opcode::ASL || instruction.opcode == Opcode::BCC
                || instruction.opcode == Opcode::BCS || instruction.opcode == Opcode::BEQ
                || instruction.opcode == Opcode::BIT || instruction.opcode == Opcode::BMI
                || instruction.opcode == Opcode::BNE || instruction.opcode == Opcode::BPL
                || instruction.opcode == Opcode::BRK || instruction.opcode == Opcode::BVC
                || instruction.opcode == Opcode::BVS || instruction.opcode == Opcode::CLC
                || instruction.opcode == Opcode::CLD || instruction.opcode == Opcode::CLI
                || instruction.opcode == Opcode::CLV,
        ensures
            final(system).wf(),
            ({
                let t = instruction_spec(*old(self), old(system)@, instruction, current_pc);
                *final(self) == t.0 && final(system)@ == t.1 && r == t.2
            }),
            min_step_cycles(instruction) <= r <= max_step_cycles(instruction),
            old(self).sp & 0xff00 == 0x0100 ==> final(self).sp & 0xff00 == 0x0100,
    {
        let mode = instruction.addressing_mode;
        match instruction.opcode {
            Opcode::ADC => {
                let operand = self.fetch(system, mode);
                let cin: u8 = if self.read_carry_flag() {
                    1
                } else {
                    0
                };
                let result = self.a.wrapping_add(operand.data).wrapping_add(cin);
                let sum: u16 = self.a as u16 + operand.data as u16 + cin as u16;
                let overflow = ((self.a ^ result) & (operand.data ^ result) & 0x80u8) == 0x80u8;
                self.write_carry_flag(sum > 0x00ff);
                self.write_overflow_flag(overflow);
                self.check_zero_and_negative_flag(result);
                self.a = result;
                1 + operand.cycle
            },
            Opcode::AND => {
                let operand = self.fetch(system, mode);
                let result = self.a & operand.data;
                self.check_zero_and_negative_flag(result);
                self.a = result;
                1 + operand.cycle
            },
            Opcode::ASL => {
                let operand = self.fetch(system, mode);
                let input = if mode == AddressingMode::Accumulator {
                    self.a
                } else {
                    operand.data
                };
                let result = input << 1;
                self.write_carry_flag((input & 0x80) == 0x80);
                self.check_zero_and_negative_flag(result);
                if mode == AddressingMode::Accumulator {
                    self.a = result;
                    1 + operand.cycle
                } else {
                    system.write_u8(operand.address, result);
                    3 + operand.cycle
                }
            },
            Opcode::BCC => {
                let operand = self.fetch(system, mode);
                if !self.read_carry_flag() {
                    self.pc = operand.address;
                    2 + operand.cycle
                } else {
                    1 + operand.cycle
                }
            },
            Opcode::BCS => {
                let operand = self.fetch(system, mode);
                if self.read_carry_flag() {
                    self.pc = operand.address;
                    2 + operand.cycle
                } else {
                    1 + operand.cycle
                }
            },
            Opcode::BEQ => {
                let operand = self.fetch(system, mode);
                if self.read_zero_flag() {
                    self.pc = operand.address;
                    2 + operand.cycle
                } else {
                    1 + operand.cycle
                }
            },
            Opcode::BIT => {
                let operand = self.fetch(system, mode);
                let v = operand.data;
                self.write_overflow_flag((v & 0x40) == 0x40);
                self.check_zero_and_negative_flag(v);
                1 + operand.cycle
            },
            Opcode::BMI => {
                let operand = self.fetch(system, mode);
                if self.read_negative_flag() {
                    self.pc = operand.address;
                    2 + operand.cycle
                } else {
                    1 + operand.cycle
                }
            },
            Opcode::BNE => {
                let operand = self.fetch(system, mode);
                if !self.read_zero_flag() {
                    self.pc = operand.address;
                    2 + operand.cycle
                } else {
                    1 + operand.cycle
                }
            },
            Opcode::BPL => {
                let operand = self.fetch(system, mode);
                if !self.read_negative_flag() {
                    self.pc = operand.address;
                    2 + operand.cycle
                } else {
                    1 + operand.cycle
                }
            },
            Opcode::BRK => {
                self.interrupt(system, Interrupt::BRK);
                proof {
                    reveal(interrupt_spec);
                }
                7
            },
            Opcode::BVC => {
                let operand = self.fetch(system, mode);
                if !self.read_overflow_flag() {
                    self.pc = operand.address;
                    2 + operand.cycle
                } else {
                    1 + operand.cycle
                }
            },
            Opcode::BVS => {
                let operand = self.fetch(system, mode);
                if self.read_overflow_flag() {
                    self.pc = operand.address;
                    2 + operand.cycle
                } else {
                    1 + operand.cycle
                }
            },
            Opcode::CLC => {
                self.write_carry_flag(false);
                2
            },
            Opcode::CLD => {
                self.write_decimal_flag(false);
                2
            },
            Opcode::CLI => {
                self.write_interrupt_flag(false);
                2
            },
            Opcode::CLV => {
                self.write_overflow_flag(false);
                2
            },
            _ => unreached(),
        }
    }

    #[verifier::spinoff_prover]
    #[verifier::rlimit(100)]
    fn step_group_b(&mut self, system: &mut Memory, instruction: Instruction, current_pc: u16) -> (r: u8)
        requires
            old(system).wf(),
            instruction.opcode == Opcode::CMP || instruction.opcode == Opcode::CPX
                || instruction.opcode == Opcode::CPY || instruction.opcode == Opcode::DEC
                || instruction.opcode == Opcode::DEX || instruction.opcode == Opcode::DEY
                || instruction.opcode == Opcode::EOR || instruction.opcode == Opcode::INC
                || instruction.opcode == Opcode::INX || instruction.opcode == Opcode::INY
                || instruction.opcode == Opcode::JMP || instruction.opcode == Opcode::JSR
                || instruction.opcode == Opcode::LDA || instruction.opcode == Opcode::LDX
                || instruction.opcode == Opcode::LDY || instruction.opcode == Opcode::LSR
                || instruction.opcode == Opcode::NOP,
        ensures
            final(system).wf(),
            ({
                let t = instruction_spec(*old(self), old(system)@, instruction, current_pc);
                *final(self) == t.0 && final(system)@ == t.1 && r == t.2
            }),
            min_step_cycles(instruction) <= r <= max_step_cycles(instruction),
            old(self).sp & 0xff00 == 0x0100 ==> final(self).sp & 0xff00 == 0x0100,
    {
        let mode = instruction.addressing_mode;
        match instruction.opcode {
            Opcode::CMP => {
                let operand = self.fetch(system, mode);
                let result = self.a.wrapping_sub(operand.data);
                self.write_carry_flag(self.a >= operand.data);
                self.check_zero_and_negative_flag(result);
                1 + operand.cycle
            },
            Opcode::CPX => {
                let operand = self.fetch(system, mode);
                let result = self.x.wrapping_sub(operand.data);
                self.write_carry_flag(self.x >= operand.data);
                self.check_zero_and_negative_flag(result);
                1 + operand.cycle
            },
            Opcode::CPY => {
                let operand = self.fetch(system, mode);
                let result = self.y.wrapping_sub(operand.data);
                self.write_carry_flag(self.y >= operand.data);
                self.check_zero_and_negative_flag(result);
                1 + operand.cycle
            },
            Opcode::DEC => {
                let operand = self.fetch(system, mode);
                let result = operand.data.wrapping_sub(1);
                self.check_zero_and_negative_flag(result);
                system.write_u8(operand.address, result);
                3 + operand.cycle
            },
            Opcode::DEX => {
                let result = self.x.wrapping_sub(1);
                self.check_zero_and_negative_flag(result);
                self.x = result;
                2
            },
            Opcode::DEY => {
                let result = self.y.wrapping_sub(1);
                self.check_zero_and_negative_flag(result);
                self.y = result;
                2
            },
            Opcode::EOR => {
                let operand = self.fetch(system, mode);
                let result = self.a ^ operand.data;
                self.check_zero_and_negative_flag(result);
                self.a = result;
                1 + operand.cycle
            },
            Opcode::INC => {
                let operand = self.fetch(system, mode);
                let result = operand.data.wrapping_add(1);
                self.check_zero_and_negative_flag(result);
                system.write_u8(operand.address, result);
                3 + operand.cycle
            },
            Opcode::INX => {
                let result = self.x.wrapping_add(1);
                self.check_zero_and_negative_flag(result);
                self.x = result;
                2
            },
            Opcode::INY => {
                let result = self.y.wrapping_add(1);
                self.check_zero_and_negative_flag(result);
                self.y = result;
                2
            },
            Opcode::JMP => {
                let operand = self.fetch(system, mode);
                self.pc = operand.address;
                operand.cycle
            },
            Opcode::JSR => {
                let operand = self.fetch(system, mode);
                let address = current_pc.wrapping_add(2);
                self.stack_push(system, (address >> 8) as u8);
                self.stack_push(system, (address & 0xff) as u8);
                self.pc = operand.address;
                6
            },
            Opcode::LDA => {
                let operand = self.fetch(system, mode);
                let result = operand.data;
                self.check_zero_and_negative_flag(result);
                self.a = result;
                1 + operand.cycle
            },
            Opcode::LDX => {
                let operand = self.fetch(system, mode);
                let result = operand.data;
                self.check_zero_and_negative_flag(result);
                self.x = result;
                1 + operand.cycle
            },
            Opcode::LDY => {
                let operand = self.fetch(system, mode);
                let result = operand.data;
                self.check_zero_and_negative_flag(result);
                self.y = result;
                1 + operand.cycle
            },
            Opcode::LSR => {
                let operand = self.fetch(system, mode);
                let input = if mode == AddressingMode::Accumulator {
                    self.a
                } else {
                    operand.data
                };
                let result = input >> 1;
                self.write_carry_flag((input & 0x01) == 0x01);
                self.check_zero_and_negative_flag(result);
                if mode == AddressingMode::Accumulator {
                    self.a = result;
                    1 + operand.cycle
                } else {
                    system.write_u8(operand.address, result);
                    3 + operand.cycle
                }
            },
            Opcode::NOP => {
                2
            },
            _ => unreached(),
        }
    }

    #[verifier::spinoff_prover]
    #[verifier::rlimit(100)]
    fn step_group_c(&mut self, system: &mut Memory, instruction: Instruction, current_pc: u16) -> (r: u8)
        requires
            old(system).wf(),
            instruction.opcode == Opcode::ORA || instruction.opcode == Opcode::PHA
                || instruction.opcode == Opcode::PHP || instruction.opcode == Opcode::PLA
                || instruction.opcode == Opcode::PLP || instruction.opcode == Opcode::ROL
                || instruction.opcode == Opcode::ROR || instruction.opcode == Opcode::RTI
                || instruction.opcode == Opcode::RTS || instruction.opcode == Opcode::SBC
                || instruction.opcode == Opcode::SEC || instruction.opcode == Opcode::SED
                || instruction.opcode == Opcode::SEI || instruction.opcode == Opcode::STA
                || instruction.opcode == Opcode::STX || instruction.opcode == Opcode::STY
                || instruction.opcode == Opcode::TAX,
        ensures
            final(system).wf(),
            ({
                let t = instruction_spec(*old(self), old(system)@, instruction, current_pc);
                *final(self) == t.0 && final(system)@ == t.1 && r == t.2
            }),
            min_step_cycles(instruction) <= r <= max_step_cycles(instruction),
            old(self).sp & 0xff00 == 0x0100 ==> final(self).sp & 0xff00 == 0x0100,
    {
        let mode = instruction.addressing_mode;
        match instruction.opcode {
            Opcode::ORA => {
                let operand = self.fetch(system, mode);
                let result = self.a | operand.data;
                self.check_zero_and_negative_flag(result);
                self.a = result;
                1 + operand.cycle
            },
            Opcode::PHA => {
                self.stack_push(system, self.a);
                3
            },
            Opcode::PHP => {
                self.stack_push(system, self.p);
                3
            },
            Opcode::PLA => {
                let result = self.stack_pop(system);
                self.check_zero_and_negative_flag(result);
                self.a = result;
                4
            },
            Opcode::PLP => {
                let result = self.stack_pop(system);
                self.p = result;
                4
            },
            Opcode::ROL => {
                let operand = self.fetch(system, mode);
                let input = if mode == AddressingMode::Accumulator {
                    self.a
                } else {
                    operand.data
                };
                let cin: u8 = if self.read_carry_flag() {
                    0x01
                } else {
                    0x00
                };
                let result = (input << 1) | cin;
                self.write_carry_flag((input & 0x80) == 0x80);
                self.check_zero_and_negative_flag(result);
                if mode == AddressingMode::Accumulator {
                    self.a = result;
                    1 + operand.cycle
                } else {
                    system.write_u8(operand.address, result);
                    3 + operand.cycle
                }
            },
            Opcode::ROR => {
                let operand = self.fetch(system, mode);
                let input = if mode == AddressingMode::Accumulator {
                    self.a
                } else {
                    operand.data
                };
                let cin: u8 = if self.read_carry_flag() {
                    0x80
                } else {
                    0x00
                };
                let result = (input >> 1) | cin;
                self.write_carry_flag((input & 0x01) == 0x01);
                self.check_zero_and_negative_flag(result);
                if mode == AddressingMode::Accumulator {
                    self.a = result;
                    1 + operand.cycle
                } else {
                    system.write_u8(operand.address, result);
                    3 + operand.cycle
                }
            },
            Opcode::RTI => {
                let status = self.stack_pop(system);
                let lo = self.stack_pop(system);
                let hi = self.stack_pop(system);
                self.p = status;
                self.pc = (lo as u16) | ((hi as u16) << 8);
                6
            },
            Opcode::RTS => {
                let lo = self.stack_pop(system);
                let hi = self.stack_pop(system);
                self.pc = ((lo as u16) | ((hi as u16) << 8)).wrapping_add(1);
                6
            },
            Opcode::SBC => {
                let operand = self.fetch(system, mode);
                let borrow: u8 = if self.read_carry_flag() {
                    0
                } else {
                    1
                };
                let v1 = self.a.wrapping_sub(operand.data);
                let borrowed1 = self.a < operand.data;
                let result = v1.wrapping_sub(borrow);
                let borrowed2 = v1 < borrow;
                let overflow = ((self.a ^ operand.data) & 0x80u8) == 0x80u8 && ((self.a ^ result)
                    & 0x80u8) == 0x80u8;
                self.write_carry_flag(!(borrowed1 || borrowed2));
                self.write_overflow_flag(overflow);
                self.check_zero_and_negative_flag(result);
                self.a = result;
                1 + operand.cycle
            },
            Opcode::SEC => {
                self.write_carry_flag(true);
                2
            },
            Opcode::SED => {
                self.write_decimal_flag(true);
                2
            },
            Opcode::SEI => {
                self.write_interrupt_flag(true);
                2
            },
            Opcode::STA => {
                let operand = self.fetch(system, mode);
                system.write_u8(operand.address, self.a);
                1 + operand.cycle
            },
            Opcode::STX => {
                let operand = self.fetch(system, mode);
                system.write_u8(operand.address, self.x);
                1 + operand.cycle
            },
            Opcode::STY => {
                let operand = self.fetch(system, mode);
                system.write_u8(operand.address, self.y);
                1 + operand.cycle
            },
            Opcode::TAX => {
                self.check_zero_and_negative_flag(self.a);
                self.x = self.a;
                2
            },
            _ => unreached(),
        }
    }

    #[verifier::spinoff_prover]
    #[verifier::rlimit(100)]
    fn step_group_d(&mut self, system: &mut Memory, instruction: Instruction, current_pc: u16) -> (r: u8)
        requires
            old(system).wf(),
            instruction.opcode == Opcode::TAY || instruction.opcode == Opcode::TSX
                || instruction.opcode == Opcode::TXA || instruction.opcode == Opcode::TXS
                || instruction.opcode == Opcode::TYA || instruction.opcode == Opcode::ALR
                || instruction.opcode == Opcode::ANC || instruction.opcode == Opcode::ARR
                || instruction.opcode == Opcode::AXS || instruction.opcode == Opcode::DCP
                || instruction.opcode == Opcode::ISC || instruction.opcode == Opcode::LAX
                || instruction.opcode == Opcode::RLA || instruction.opcode == Opcode::SAX
                || instruction.opcode == Opcode::IGN || instruction.opcode == Opcode::SKB,
        ensures
            final(system).wf(),
            ({
                let t = instruction_spec(*old(self), old(system)@, instruction, current_pc);
                *final(self) == t.0 && final(system)@ == t.1 && r == t.2
            }),
            min_step_cycles(instruction) <= r <= max_step_cycles(instruction),
            old(self).sp & 0xff00 == 0x0100 ==> final(self).sp & 0xff00 == 0x0100,
    {
        let mode = instruction.addressing_mode;
        match instruction.opcode {
            Opcode::TAY => {
                self.check_zero_and_negative_flag(self.a);
                self.y = self.a;
                2
            },
            Opcode::TSX => {
                let result = (self.sp & 0x00ff) as u8;
                self.check_zero_and_negative_flag(result);
                self.x = result;
                2
            },
            Opcode::TXA => {
                self.check_zero_and_negative_flag(self.x);
                self.a = self.x;
                2
            },
            Opcode::TXS => {
                self.sp = (self.x as u16) | 0x0100u16;
                proof {
                    let xv = old(self).x;
                    assert(((xv as u16) | 0x0100u16) & 0xff00u16 == 0x0100u16) by (bit_vector);
                }
                2
            },
            Opcode::TYA => {
                self.check_zero_and_negative_flag(self.y);
                self.a = self.y;
                2
            },
            Opcode::ALR => {
                let operand = self.fetch(system, mode);
                let v = self.a & operand.data;
                let result = v >> 1;
                self.write_carry_flag((v & 0x01) == 0x01);
                self.check_zero_and_negative_flag(result);
                self.a = result;
                1 + operand.cycle
            },
            Opcode::ANC => {
                let operand = self.fetch(system, mode);
                let result = self.a & operand.data;
                self.write_carry_flag((result & 0x80) == 0x80);
                self.check_zero_and_negative_flag(result);
                self.a = result;
                1 + operand.cycle
            },
            Opcode::ARR => {
                let operand = self.fetch(system, mode);
                let v = self.a & operand.data;
                let cin: u8 = if self.read_carry_flag() {
                    0x80
                } else {
                    0x00
                };
                let result = (v >> 1) | cin;
                let overflow = ((result & 0x40u8) ^ ((result & 0x20u8) << 1)) == 0x40u8;
                self.write_carry_flag((result & 0x40) == 0x40);
                self.write_overflow_flag(overflow);
                self.check_zero_and_negative_flag(result);
                self.a = result;
                1 + operand.cycle
            },
            Opcode::AXS => {
                let operand = self.fetch(system, mode);
                let v = self.a & self.x;
                let result = v.wrapping_sub(operand.data);
                self.write_carry_flag(v >= operand.data);
                self.check_zero_and_negative_flag(result);
                self.x = result;
                1 + operand.cycle
            },
            Opcode::DCP => {
                let operand = self.fetch(system, mode);
                let v = operand.data.wrapping_sub(1);
                let result = self.a.wrapping_sub(v);
                self.write_carry_flag(self.a >= v);
                self.check_zero_and_negative_flag(result);
                system.write_u8(operand.address, v);
                3 + operand.cycle
            },
            Opcode::ISC => {
                let operand = self.fetch(system, mode);
                let v = operand.data.wrapping_add(1);
                let borrow: u8 = if self.read_carry_flag() {
                    0
                } else {
                    1
                };
                let v1 = self.a.wrapping_sub(v);
                let borrowed1 = self.a < v;
                let result = v1.wrapping_sub(borrow);
                let borrowed2 = v1 < borrow;
                let overflow = ((self.a ^ v) & 0x80u8) == 0x80u8 && ((self.a ^ result) & 0x80u8)
                    == 0x80u8;
                self.write_carry_flag(!(borrowed1 || borrowed2));
                self.write_overflow_flag(overflow);
                self.check_zero_and_negative_flag(result);
                self.a = result;
                system.write_u8(operand.address, v);
                3 + operand.cycle
            },
            Opcode::LAX => {
                let operand = self.fetch(system, mode);
                let result = operand.data;
                self.check_zero_and_negative_flag(result);
                self.a = result;
                self.x = result;
                1 + operand.cycle
            },
            Opcode::RLA => {
                let operand = self.fetch(system, mode);
                let cin: u8 = if self.read_carry_flag() {
                    0x01
                } else {
                    0x00
                };
                let v = (operand.data << 1) | cin;
                let result = self.a & v;
                self.write_carry_flag((operand.data & 0x80) == 0x80);
                self.check_zero_and_negative_flag(result);
                self.a = result;
                system.write_u8(operand.address, v);
                3 + operand.cycle
            },
            Opcode::SAX => {
                let operand = self.fetch(system, mode);
                let result = self.a & self.x;
                system.write_u8(operand.address, result);
                1 + operand.cycle
            },
            Opcode::IGN => {
                let operand = self.fetch(system, mode);
                1 + operand.cycle
            },
            Opcode::SKB => {
                let operand = self.fetch(system, mode);
                1 + operand.cycle
            },
            _ => unreached(),
        }
    }
}

} // verus!
