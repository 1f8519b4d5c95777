use vstd::prelude::*;
use crate::cpu::Cpu;

verus! {

pub const CARRY_FLAG: u8 = 0x01u8;

pub const ZERO_FLAG: u8 = 0x02u8;

pub const INTERRUPT_FLAG: u8 = 0x04u8;

pub const DECIMAL_FLAG: u8 = 0x08u8;

pub const BREAK_FLAG: u8 = 0x10u8;

pub const RESERVED_FLAG: u8 = 0x20u8;

pub const OVERFLOW_FLAG: u8 = 0x40u8;

pub const NEGATIVE_FLAG: u8 = 0x80u8;

/// The status byte with the given flag bits raised or lowered.
pub open spec fn flag_write(p: u8, status: u8, is_active: bool) -> u8 {
    if is_active {
        p | status
    } else {
        p & !status
    }
}

/// Whether all of the given flag bits are raised in the status byte.
pub open spec fn flag_read(p: u8, status: u8) -> bool {
    p & status == status
}

/// The status byte after an ALU result: Z reflects whether the result is
/// zero, N mirrors its top bit.
pub open spec fn update_zn(p: u8, value: u8) -> u8 {
    flag_write(flag_write(p, ZERO_FLAG, value == 0), NEGATIVE_FLAG, value & 0x80 == 0x80)
}

impl Cpu {
    pub fn write_carry_flag(&mut self, is_active: bool)
        ensures
            final(self).p == flag_write(old(self).p, CARRY_FLAG, is_active),
            regs_unchanged(*old(self), *final(self)),
    {
        self.write_status_flag(CARRY_FLAG, is_active);
    }

    pub fn read_carry_flag(&mut self) -> (r: bool)
        ensures
            *final(self) == *old(self),
            r == flag_read(old(self).p, CARRY_FLAG),
    {
        self.read_status_flag(CARRY_FLAG)
    }

    pub fn write_zero_flag(&mut self, is_active: bool)
        ensures
            final(self).p == flag_write(old(self).p, ZERO_FLAG, is_active),
            regs_unchanged(*old(self), *final(self)),
    {
        self.write_status_flag(ZERO_FLAG, is_active);
    }

    pub fn read_zero_flag(&mut self) -> (r: bool)
        ensures
            *final(self) == *old(self),
            r == flag_read(old(self).p, ZERO_FLAG),
    {
        self.read_status_flag(ZERO_FLAG)
    }

    pub fn write_interrupt_flag(&mut self, is_active: bool)
        ensures
            final(self).p == flag_write(old(self).p, INTERRUPT_FLAG, is_active),
            regs_unchanged(*old(self), *final(self)),
    {
        self.write_status_flag(INTERRUPT_FLAG, is_active);
    }

    pub fn read_interrupt_flag(&mut self) -> (r: bool)
        ensures
            *final(self) == *old(self),
            r == flag_read(old(self).p, INTERRUPT_FLAG),
    {
        self.read_status_flag(INTERRUPT_FLAG)
    }

    pub fn write_decimal_flag(&mut self, is_active: bool)
        ensures
            final(self).p == flag_write(old(self).p, DECIMAL_FLAG, is_active),
            regs_unchanged(*old(self), *final(self)),
    {
        self.write_status_flag(DECIMAL_FLAG, is_active);
    }

    pub fn read_decimal_flag(&mut self) -> (r: bool)
        ensures
            *final(self) == *old(self),
            r == flag_read(old(self).p, DECIMAL_FLAG),
    {
        self.read_status_flag(DECIMAL_FLAG)
    }

    pub fn write_break_flag(&mut self, is_active: bool)
        ensures
            final(self).p == flag_write(old(self).p, BREAK_FLAG, is_active),
            regs_unchanged(*old(self), *final(self)),
    {
        self.write_status_flag(BREAK_FLAG, is_active);
    }

    pub fn read_break_flag(&mut self) -> (r: bool)
        ensures
            *final(self) == *old(self),
            r == flag_read(old(self).p, BREAK_FLAG),
    {
        self.read_status_flag(BREAK_FLAG)
    }

    pub fn write_reserved_flag(&mut self, is_active: bool)
        ensures
            final(self).p == flag_write(old(self).p, RESERVED_FLAG, is_active),
            regs_unchanged(*old(self), *final(self)),
    {
        self.write_status_flag(RESERVED_FLAG, is_active);
    }

    pub fn read_reserved_flag(&mut self) -> (r: bool)
        ensures
            *final(self) == *old(self),
            r == flag_read(old(self).p, RESERVED_FLAG),
    {
        self.read_status_flag(RESERVED_FLAG)
    }

    pub fn write_overflow_flag(&mut self, is_active: bool)
        ensures
            final(self).p == flag_write(old(self).p, OVERFLOW_FLAG, is_active),
            regs_unchanged(*old(self), *final(self)),
    {
        self.write_status_flag(OVERFLOW_FLAG, is_active);
    }

    pub fn read_overflow_flag(&mut self) -> (r: bool)
        ensures
            *final(self) == *old(self),
            r == flag_read(old(self).p, OVERFLOW_FLAG),
    {
        self.read_status_flag(OVERFLOW_FLAG)
    }

    pub fn write_negative_flag(&mut self, is_active: bool)
        ensures
            final(self).p == flag_write(old(self).p, NEGATIVE_FLAG, is_active),
            regs_unchanged(*old(self), *final(self)),
    {
        self.write_status_flag(NEGATIVE_FLAG, is_active);
    }

    pub fn read_negative_flag(&mut self) -> (r: bool)
        ensures
            *final(self) == *old(self),
            r == flag_read(old(self).p, NEGATIVE_FLAG),
    {
        self.read_status_flag(NEGATIVE_FLAG)
    }

    fn read_status_flag(&mut self, status: u8) -> (r: bool)
        ensures
            *final(self) == *old(self),
            r == flag_read(old(self).p, status),
    {
        (self.p & status) == status
    }

    fn write_status_flag(&mut self, status: u8, is_active: bool)
        ensures
            final(self).p == flag_write(old(self).p, status, is_active),
            regs_unchanged(*old(self), *final(self)),
    {
        if is_active {
            self.p = self.p | status;
        } else {
            self.p = self.p & (!status);
        }
    }
}

/// Everything but the status register is the same in both states.
pub open spec fn regs_unchanged(c1: Cpu, c2: Cpu) -> bool {
    c1.a == c2.a && c1.x == c2.x && c1.y == c2.y && c1.pc == c2.pc && c1.sp == c2.sp
}

} // verus!
