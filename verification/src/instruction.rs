use vstd::prelude::*;
use vstd::pervasive::unreached;

verus! {

/// The 6502 mnemonics the decoder produces: the 56 official ones followed
/// by the documented illegal ones.
#[derive(PartialEq, Eq, Copy, Clone, Debug, Structural)]
pub enum Opcode {
    ADC,
    AND,
    ASL,
    BCC,
    BCS,
    BEQ,
    BIT,
    BMI,
    BNE,
    BPL,
    BRK,
    BVC,
    BVS,
    CLC,
    CLD,
    CLI,
    CLV,
    CMP,
    CPX,
    CPY,
    DEC,
    DEX,
    DEY,
    EOR,
    INC,
    INX,
    INY,
    JMP,
    JSR,
    LDA,
    LDX,
    LDY,
    LSR,
    NOP,
    ORA,
    PHA,
    PHP,
    PLA,
    PLP,
    ROL,
    ROR,
    RTI,
    RTS,
    SBC,
    SEC,
    SED,
    SEI,
    STA,
    STX,
    STY,
    TAX,
    TAY,
    TSX,
    TXA,
    TXS,
    TYA,
    ALR,
    ANC,
    ARR,
    AXS,
    DCP,
    ISC,
    LAX,
    RLA,
    SAX,
    IGN,
    SKB,
}

#[derive(PartialEq, Eq, Copy, Clone, Debug, Structural)]
pub enum AddressingMode {
    Implied,
    Accumulator,
    Immediate,
    ZeroPage,
    ZeroPageX,
    ZeroPageY,
    Absolute,
    AbsoluteX,
    AbsoluteY,
    Indirect,
    IndirectX,
    IndirectY,
    Relative,
}

/// Whether an opcode byte belongs to the official instruction set or to the
/// documented illegal one.
#[derive(PartialEq, Eq, Copy, Clone, Debug, Structural)]
pub enum Support {
    Official,
    Illegal,
}

#[derive(PartialEq, Eq, Copy, Clone, Debug, Structural)]
pub struct Instruction {
    pub opcode: Opcode,
    pub addressing_mode: AddressingMode,
    pub support: Support,
}

/// The mnemonic column of the published opcode table.
pub open spec fn spec_opcode(op: u8) -> Option<Opcode> {
    match op {
        0x61 | 0x65 | 0x69 | 0x6d | 0x71 | 0x75 | 0x79 | 0x7d => Some(Opcode::ADC),
        0x21 | 0x25 | 0x29 | 0x2d | 0x31 | 0x35 | 0x39 | 0x3d => Some(Opcode::AND),
        0x06 | 0x0a | 0x0e | 0x16 | 0x1e => Some(Opcode::ASL),
        0x90 => Some(Opcode::BCC),
        0xb0 => Some(Opcode::BCS),
        0xf0 => Some(Opcode::BEQ),
        0x24 | 0x2c => Some(Opcode::BIT),
        0x30 => Some(Opcode::BMI),
        0xd0 => Some(Opcode::BNE),
        0x10 => Some(Opcode::BPL),
        0x00 => Some(Opcode::BRK),
        0x50 => Some(Opcode::BVC),
        0x70 => Some(Opcode::BVS),
        0x18 => Some(Opcode::CLC),
        0xd8 => Some(Opcode::CLD),
        0x58 => Some(Opcode::CLI),
        0xb8 => Some(Opcode::CLV),
        0xc1 | 0xc5 | 0xc9 | 0xcd | 0xd1 | 0xd5 | 0xd9 | 0xdd => Some(Opcode::CMP),
        0xe0 | 0xe4 | 0xec => Some(Opcode::CPX),
        0xc0 | 0xc4 | 0xcc => Some(Opcode::CPY),
        0xc6 | 0xce | 0xd6 | 0xde => Some(Opcode::DEC),
        0xca => Some(Opcode::DEX),
        0x88 => Some(Opcode::DEY),
        0x41 | 0x45 | 0x49 | 0x4d | 0x51 | 0x55 | 0x59 | 0x5d => Some(Opcode::EOR),
        0xe6 | 0xee | 0xf6 | 0xfe => Some(Opcode::INC),
        0xe8 => Some(Opcode::INX),
        0xc8 => Some(Opcode::INY),
        0x4c | 0x6c => Some(Opcode::JMP),
        0x20 => Some(Opcode::JSR),
        0xa1 | 0xa5 | 0xa9 | 0xad | 0xb1 | 0xb5 | 0xb9 | 0xbd => Some(Opcode::LDA),
        0xa2 | 0xa6 | 0xae | 0xb6 | 0xbe => Some(Opcode::LDX),
        0xa0 | 0xa4 | 0xac | 0xb4 | 0xbc => Some(Opcode::LDY),
        0x46 | 0x4a | 0x4e | 0x56 | 0x5e => Some(Opcode::LSR),
        0x1a | 0x3a | 0x5a | 0x7a | 0xda | 0xea | 0xfa => Some(Opcode::NOP),
        0x01 | 0x05 | 0x09 | 0x0d | 0x11 | 0x15 | 0x19 | 0x1d => Some(Opcode::ORA),
        0x48 => Some(Opcode::PHA),
        0x08 => Some(Opcode::PHP),
        0x68 => Some(Opcode::PLA),
        0x28 => Some(Opcode::PLP),
        0x26 | 0x2a | 0x2e | 0x36 | 0x3e => Some(Opcode::ROL),
        0x66 | 0x6a | 0x6e | 0x76 | 0x7e => Some(Opcode::ROR),
        0x40 => Some(Opcode::RTI),
        0x60 => Some(Opcode::RTS),
        0xe1 | 0xe5 | 0xe9 | 0xed | 0xf1 | 0xf5 | 0xf9 | 0xfd => Some(Opcode::SBC),
        0x38 => Some(Opcode::SEC),
        0xf8 => Some(Opcode::SED),
        0x78 => Some(Opcode::SEI),
        0x81 | 0x85 | 0x8d | 0x91 | 0x95 | 0x99 | 0x9d => Some(Opcode::STA),
        0x86 | 0x8e | 0x96 => Some(Opcode::STX),
        0x84 | 0x8c | 0x94 => Some(Opcode::STY),
        0xaa => Some(Opcode::TAX),
        0xa8 => Some(Opcode::TAY),
        0xba => Some(Opcode::TSX),
        0x8a => Some(Opcode::TXA),
        0x9a => Some(Opcode::TXS),
        0x98 => Some(Opcode::TYA),
        0x4b => Some(Opcode::ALR),
        0x0b => Some(Opcode::ANC),
        0x6b => Some(Opcode::ARR),
        0xcb => Some(Opcode::AXS),
        0xc3 | 0xc7 | 0xcf | 0xd3 | 0xd7 | 0xdb | 0xdf => Some(Opcode::DCP),
        0xe3 | 0xe7 | 0xef | 0xf3 | 0xf7 | 0xfb | 0xff => Some(Opcode::ISC),
        0xa3 | 0xa7 | 0xaf | 0xb3 | 0xb7 | 0xbf => Some(Opcode::LAX),
        0x23 | 0x27 | 0x2f | 0x33 | 0x37 | 0x3b | 0x3f => Some(Opcode::RLA),
        0x83 | 0x87 | 0x8f | 0x97 => Some(Opcode::SAX),
        0x04 | 0x0c | 0x14 | 0x1c | 0x34 | 0x3c | 0x44 | 0x54 | 0x5c | 0x64 | 0x74 | 0x7c | 0xd4 | 0xdc | 0xf4 | 0xfc => Some(Opcode::IGN),
        0x80 | 0x82 | 0x89 | 0xc2 | 0xe2 => Some(Opcode::SKB),
        _ => None,
    }
}

/// The addressing-mode column of the published opcode table.
pub open spec fn spec_addressing_mode(op: u8) -> Option<AddressingMode> {
    match op {
        0x00 | 0x08 | 0x18 | 0x1a | 0x28 | 0x38 | 0x3a | 0x40 | 0x48 | 0x58 | 0x5a | 0x60 | 0x68 | 0x78 | 0x7a | 0x88 | 0x8a | 0x98 | 0x9a | 0xa8 | 0xaa | 0xb8 | 0xba | 0xc8 | 0xca | 0xd8 | 0xda | 0xe8 | 0xea | 0xf8 | 0xfa => Some(AddressingMode::Implied),
        0x0a | 0x2a | 0x4a | 0x6a => Some(AddressingMode::Accumulator),
        0x09 | 0x0b | 0x29 | 0x49 | 0x4b | 0x69 | 0x6b | 0x80 | 0x82 | 0x89 | 0xa0 | 0xa2 | 0xa9 | 0xc0 | 0xc2 | 0xc9 | 0xcb | 0xe0 | 0xe2 | 0xe9 => Some(AddressingMode::Immediate),
        0x04 | 0x05 | 0x06 | 0x24 | 0x25 | 0x26 | 0x27 | 0x44 | 0x45 | 0x46 | 0x64 | 0x65 | 0x66 | 0x84 | 0x85 | 0x86 | 0x87 | 0xa4 | 0xa5 | 0xa6 | 0xa7 | 0xc4 | 0xc5 | 0xc6 | 0xc7 | 0xe4 | 0xe5 | 0xe6 | 0xe7 => Some(AddressingMode::ZeroPage),
        0x14 | 0x15 | 0x16 | 0x34 | 0x35 | 0x36 | 0x37 | 0x54 | 0x55 | 0x56 | 0x74 | 0x75 | 0x76 | 0x94 | 0x95 | 0xb4 | 0xb5 | 0xd4 | 0xd5 | 0xd6 | 0xd7 | 0xf4 | 0xf5 | 0xf6 | 0xf7 => Some(AddressingMode::ZeroPageX),
        0x96 | 0x97 | 0xb6 | 0xb7 => Some(AddressingMode::ZeroPageY),
        0x0c | 0x0d | 0x0e | 0x20 | 0x2c | 0x2d | 0x2e | 0x2f | 0x4c | 0x4d | 0x4e | 0x6d | 0x6e | 0x8c | 0x8d | 0x8e | 0x8f | 0xac | 0xad | 0xae | 0xaf | 0xcc | 0xcd | 0xce | 0xcf | 0xec | 0xed | 0xee | 0xef => Some(AddressingMode::Absolute),
        0x1c | 0x1d | 0x1e | 0x3c | 0x3d | 0x3e | 0x3f | 0x5c | 0x5d | 0x5e | 0x7c | 0x7d | 0x7e | 0x9d | 0xbc | 0xbd | 0xdc | 0xdd | 0xde | 0xdf | 0xfc | 0xfd | 0xfe | 0xff => Some(AddressingMode::AbsoluteX),
        0x19 | 0x39 | 0x3b | 0x59 | 0x79 | 0x99 | 0xb9 | 0xbe | 0xbf | 0xd9 | 0xdb | 0xf9 | 0xfb => Some(AddressingMode::AbsoluteY),
        0x6c => Some(AddressingMode::Indirect),
        0x01 | 0x21 | 0x23 | 0x41 | 0x61 | 0x81 | 0x83 | 0xa1 | 0xa3 | 0xc1 | 0xc3 | 0xe1 | 0xe3 => Some(AddressingMode::IndirectX),
        0x11 | 0x31 | 0x33 | 0x51 | 0x71 | 0x91 | 0xb1 | 0xb3 | 0xd1 | 0xd3 | 0xf1 | 0xf3 => Some(AddressingMode::IndirectY),
        0x10 | 0x30 | 0x50 | 0x70 | 0x90 | 0xb0 | 0xd0 | 0xf0 => Some(AddressingMode::Relative),
        _ => None,
    }
}

pub open spec fn spec_support(op: u8) -> Support {
    match op {
        0x04 | 0x0b | 0x0c | 0x14 | 0x1a | 0x1c | 0x23 | 0x27 | 0x2f | 0x33 | 0x34 | 0x37 | 0x3a | 0x3b | 0x3c | 0x3f | 0x44 | 0x4b | 0x54 | 0x5a | 0x5c | 0x64 | 0x6b | 0x74 | 0x7a | 0x7c | 0x80 | 0x82 | 0x83 | 0x87 | 0x89 | 0x8f | 0x97 | 0xa3 | 0xa7 | 0xaf | 0xb3 | 0xb7 | 0xbf | 0xc2 | 0xc3 | 0xc7 | 0xcb | 0xcf | 0xd3 | 0xd4 | 0xd7 | 0xda | 0xdb | 0xdc | 0xdf | 0xe2 | 0xe3 | 0xe7 | 0xef | 0xf3 | 0xf4 | 0xf7 | 0xfa | 0xfb | 0xfc | 0xff => Support::Illegal,
        _ => Support::Official,
    }
}

/// Total decode function: the instruction for a byte of the published
/// table, and nothing for the bytes outside it.
pub open spec fn spec_instruction(op: u8) -> Option<Instruction> {
    match (spec_opcode(op), spec_addressing_mode(op)) {
        (Some(opcode), Some(addressing_mode)) => Some(
            Instruction { opcode, addressing_mode, support: spec_support(op) },
        ),
        _ => None,
    }
}

/// Fewest cycles an addressing-mode fetch can contribute.
pub open spec fn mode_cycle_min(mode: AddressingMode) -> int {
    match mode {
        AddressingMode::Implied => 0,
        AddressingMode::Accumulator => 1,
        AddressingMode::Immediate => 1,
        AddressingMode::ZeroPage => 2,
        AddressingMode::ZeroPageX => 3,
        AddressingMode::ZeroPageY => 3,
        AddressingMode::Absolute => 3,
        AddressingMode::AbsoluteX => 3,
        AddressingMode::AbsoluteY => 3,
        AddressingMode::Indirect => 5,
        AddressingMode::IndirectX => 5,
        AddressingMode::IndirectY => 4,
        AddressingMode::Relative => 1,
    }
}

/// Most cycles an addressing-mode fetch can contribute; the indexed modes
/// may add one page-crossing penalty cycle.
pub open spec fn mode_cycle_max(mode: AddressingMode) -> int {
    match mode {
        AddressingMode::AbsoluteX => 4,
        AddressingMode::AbsoluteY => 4,
        AddressingMode::IndirectY => 5,
        _ => mode_cycle_min(mode),
    }
}

/// Fewest cycles a step of this instruction can take: the documented range
/// for each mnemonic and mode.
pub open spec fn min_step_cycles(i: Instruction) -> int {
    match i.opcode {
        Opcode::BRK => 7,
        Opcode::JSR | Opcode::RTS | Opcode::RTI => 6,
        Opcode::PHA | Opcode::PHP => 3,
        Opcode::PLA | Opcode::PLP => 4,
        Opcode::CLC | Opcode::CLD | Opcode::CLI | Opcode::CLV | Opcode::SEC | Opcode::SED
            | Opcode::SEI | Opcode::NOP | Opcode::TAX | Opcode::TAY | Opcode::TSX | Opcode::TXA
            | Opcode::TXS | Opcode::TYA | Opcode::INX | Opcode::INY | Opcode::DEX
            | Opcode::DEY => 2,
        Opcode::JMP => mode_cycle_min(i.addressing_mode),
        Opcode::BCC | Opcode::BCS | Opcode::BEQ | Opcode::BMI | Opcode::BNE | Opcode::BPL
            | Opcode::BVC | Opcode::BVS => 1 + mode_cycle_min(i.addressing_mode),
        Opcode::ASL | Opcode::LSR | Opcode::ROL | Opcode::ROR => if i.addressing_mode
            == AddressingMode::Accumulator {
            1 + mode_cycle_min(i.addressing_mode)
        } else {
            3 + mode_cycle_min(i.addressing_mode)
        },
        Opcode::DEC | Opcode::INC | Opcode::DCP | Opcode::ISC | Opcode::RLA => 3
            + mode_cycle_min(i.addressing_mode),
        _ => 1 + mode_cycle_min(i.addressing_mode),
    }
}

/// Most cycles a step of this instruction can take: branches may add one
/// taken-branch cycle, the indexed modes one page-crossing cycle.
pub open spec fn max_step_cycles(i: Instruction) -> int {
    match i.opcode {
        Opcode::BRK => 7,
        Opcode::JSR | Opcode::RTS | Opcode::RTI => 6,
        Opcode::PHA | Opcode::PHP => 3,
        Opcode::PLA | Opcode::PLP => 4,
        Opcode::CLC | Opcode::CLD | Opcode::CLI | Opcode::CLV | Opcode::SEC | Opcode::SED
            | Opcode::SEI | Opcode::NOP | Opcode::TAX | Opcode::TAY | Opcode::TSX | Opcode::TXA
            | Opcode::TXS | Opcode::TYA | Opcode::INX | Opcode::INY | Opcode::DEX
            | Opcode::DEY => 2,
        Opcode::JMP => mode_cycle_max(i.addressing_mode),
        Opcode::BCC | Opcode::BCS | Opcode::BEQ | Opcode::BMI | Opcode::BNE | Opcode::BPL
            | Opcode::BVC | Opcode::BVS => 2 + mode_cycle_max(i.addressing_mode),
        Opcode::ASL | Opcode::LSR | Opcode::ROL | Opcode::ROR => if i.addressing_mode
            == AddressingMode::Accumulator {
            1 + mode_cycle_max(i.addressing_mode)
        } else {
            3 + mode_cycle_max(i.addressing_mode)
        },
        Opcode::DEC | Opcode::INC | Opcode::DCP | Opcode::ISC | Opcode::RLA => 3
            + mode_cycle_max(i.addressing_mode),
        _ => 1 + mode_cycle_max(i.addressing_mode),
    }
}


/// No instruction of the published table finishes in under two cycles.
#[verifier::spinoff_prover]
#[verifier::rlimit(100)]
pub proof fn lemma_min_step_cycles(op: u8)
    requires
        spec_instruction(op).is_some(),
    ensures
        2 <= min_step_cycles(spec_instruction(op).unwrap()),
{
}

impl Instruction {
    /// Decodes a byte of the published table.  A byte outside the table is
    /// excluded by the precondition: decoding one is fatal, so callers test
    /// with `decode` first.
    pub fn from(op: u8) -> (r: Instruction)
        requires
            spec_instruction(op).is_some(),
        ensures
            r == spec_instruction(op).unwrap(),
    {
        let opcode = Instruction::make_opcode(op);
        let addressing_mode = Instruction::make_addressing_mode(op);
        let support = Instruction::make_support(op);
        Instruction { opcode, addressing_mode, support }
    }

    /// Total decoder: the instruction for a byte of the published table,
    /// `None` for an undefined byte.
    pub fn decode(op: u8) -> (r: Option<Instruction>)
        ensures
            r == spec_instruction(op),
    {
        if Instruction::is_defined(op) {
            Some(Instruction::from(op))
        } else {
            None
        }
    }

    /// Whether a byte is in the published table.
    pub fn is_defined(op: u8) -> (r: bool)
        ensures
            r == spec_instruction(op).is_some(),
    {
        match op {
            0x00 | 0x01 | 0x04 | 0x05 | 0x06 | 0x08 | 0x09 | 0x0a | 0x0b | 0x0c | 0x0d | 0x0e | 0x10 | 0x11 | 0x14 | 0x15 | 0x16 | 0x18 | 0x19 | 0x1a | 0x1c | 0x1d | 0x1e | 0x20 | 0x21 | 0x23 | 0x24 | 0x25 | 0x26 | 0x27 | 0x28 | 0x29 | 0x2a | 0x2c | 0x2d | 0x2e | 0x2f | 0x30 | 0x31 | 0x33 | 0x34 | 0x35 | 0x36 | 0x37 | 0x38 | 0x39 | 0x3a | 0x3b | 0x3c | 0x3d | 0x3e | 0x3f | 0x40 | 0x41 | 0x44 | 0x45 | 0x46 | 0x48 | 0x49 | 0x4a | 0x4b | 0x4c | 0x4d | 0x4e | 0x50 | 0x51 | 0x54 | 0x55 | 0x56 | 0x58 | 0x59 | 0x5a | 0x5c | 0x5d | 0x5e | 0x60 | 0x61 | 0x64 | 0x65 | 0x66 | 0x68 | 0x69 | 0x6a | 0x6b | 0x6c | 0x6d | 0x6e | 0x70 | 0x71 | 0x74 | 0x75 | 0x76 | 0x78 | 0x79 | 0x7a | 0x7c | 0x7d | 0x7e | 0x80 | 0x81 | 0x82 | 0x83 | 0x84 | 0x85 | 0x86 | 0x87 | 0x88 | 0x89 | 0x8a | 0x8c | 0x8d | 0x8e | 0x8f | 0x90 | 0x91 | 0x94 | 0x95 | 0x96 | 0x97 | 0x98 | 0x99 | 0x9a | 0x9d | 0xa0 | 0xa1 | 0xa2 | 0xa3 | 0xa4 | 0xa5 | 0xa6 | 0xa7 | 0xa8 | 0xa9 | 0xaa | 0xac | 0xad | 0xae | 0xaf | 0xb0 | 0xb1 | 0xb3 | 0xb4 | 0xb5 | 0xb6 | 0xb7 | 0xb8 | 0xb9 | 0xba | 0xbc | 0xbd | 0xbe | 0xbf | 0xc0 | 0xc1 | 0xc2 | 0xc3 | 0xc4 | 0xc5 | 0xc6 | 0xc7 | 0xc8 | 0xc9 | 0xca | 0xcb | 0xcc | 0xcd | 0xce | 0xcf | 0xd0 | 0xd1 | 0xd3 | 0xd4 | 0xd5 | 0xd6 | 0xd7 | 0xd8 | 0xd9 | 0xda | 0xdb | 0xdc | 0xdd | 0xde | 0xdf | 0xe0 | 0xe1 | 0xe2 | 0xe3 | 0xe4 | 0xe5 | 0xe6 | 0xe7 | 0xe8 | 0xe9 | 0xea | 0xec | 0xed | 0xee | 0xef | 0xf0 | 0xf1 | 0xf3 | 0xf4 | 0xf5 | 0xf6 | 0xf7 | 0xf8 | 0xf9 | 0xfa | 0xfb | 0xfc | 0xfd | 0xfe | 0xff => true,
            _ => false,
        }
    }

    fn make_opcode(op: u8) -> (r: Opcode)
        requires
            spec_opcode(op).is_some(),
        ensures
            r == spec_opcode(op).unwrap(),
    {
        match op {
        0x61 | 0x65 | 0x69 | 0x6d | 0x71 | 0x75 | 0x79 | 0x7d => Opcode::ADC,
        0x21 | 0x25 | 0x29 | 0x2d | 0x31 | 0x35 | 0x39 | 0x3d => Opcode::AND,
        0x06 | 0x0a | 0x0e | 0x16 | 0x1e => Opcode::ASL,
        0x90 => Opcode::BCC,
        0xb0 => Opcode::BCS,
        0xf0 => Opcode::BEQ,
        0x24 | 0x2c => Opcode::BIT,
        0x30 => Opcode::BMI,
        0xd0 => Opcode::BNE,
        0x10 => Opcode::BPL,
        0x00 => Opcode::BRK,
        0x50 => Opcode::BVC,
        0x70 => Opcode::BVS,
        0x18 => Opcode::CLC,
        0xd8 => Opcode::CLD,
        0x58 => Opcode::CLI,
        0xb8 => Opcode::CLV,
        0xc1 | 0xc5 | 0xc9 | 0xcd | 0xd1 | 0xd5 | 0xd9 | 0xdd => Opcode::CMP,
        0xe0 | 0xe4 | 0xec => Opcode::CPX,
        0xc0 | 0xc4 | 0xcc => Opcode::CPY,
        0xc6 | 0xce | 0xd6 | 0xde => Opcode::DEC,
        0xca => Opcode::DEX,
        0x88 => Opcode::DEY,
        0x41 | 0x45 | 0x49 | 0x4d | 0x51 | 0x55 | 0x59 | 0x5d => Opcode::EOR,
        0xe6 | 0xee | 0xf6 | 0xfe => Opcode::INC,
        0xe8 => Opcode::INX,
        0xc8 => Opcode::INY,
        0x4c | 0x6c => Opcode::JMP,
        0x20 => Opcode::JSR,
        0xa1 | 0xa5 | 0xa9 | 0xad | 0xb1 | 0xb5 | 0xb9 | 0xbd => Opcode::LDA,
        0xa2 | 0xa6 | 0xae | 0xb6 | 0xbe => Opcode::LDX,
        0xa0 | 0xa4 | 0xac | 0xb4 | 0xbc => Opcode::LDY,
        0x46 | 0x4a | 0x4e | 0x56 | 0x5e => Opcode::LSR,
        0x1a | 0x3a | 0x5a | 0x7a | 0xda | 0xea | 0xfa => Opcode::NOP,
        0x01 | 0x05 | 0x09 | 0x0d | 0x11 | 0x15 | 0x19 | 0x1d => Opcode::ORA,
        0x48 => Opcode::PHA,
        0x08 => Opcode::PHP,
        0x68 => Opcode::PLA,
        0x28 => Opcode::PLP,
        0x26 | 0x2a | 0x2e | 0x36 | 0x3e => Opcode::ROL,
        0x66 | 0x6a | 0x6e | 0x76 | 0x7e => Opcode::ROR,
        0x40 => Opcode::RTI,
        0x60 => Opcode::RTS,
        0xe1 | 0xe5 | 0xe9 | 0xed | 0xf1 | 0xf5 | 0xf9 | 0xfd => Opcode::SBC,
        0x38 => Opcode::SEC,
        0xf8 => Opcode::SED,
        0x78 => Opcode::SEI,
        0x81 | 0x85 | 0x8d | 0x91 | 0x95 | 0x99 | 0x9d => Opcode::STA,
        0x86 | 0x8e | 0x96 => Opcode::STX,
        0x84 | 0x8c | 0x94 => Opcode::STY,
        0xaa => Opcode::TAX,
        0xa8 => Opcode::TAY,
        0xba => Opcode::TSX,
        0x8a => Opcode::TXA,
        0x9a => Opcode::TXS,
        0x98 => Opcode::TYA,
        0x4b => Opcode::ALR,
        0x0b => Opcode::ANC,
        0x6b => Opcode::ARR,
        0xcb => Opcode::AXS,
        0xc3 | 0xc7 | 0xcf | 0xd3 | 0xd7 | 0xdb | 0xdf => Opcode::DCP,
        0xe3 | 0xe7 | 0xef | 0xf3 | 0xf7 | 0xfb | 0xff => Opcode::ISC,
        0xa3 | 0xa7 | 0xaf | 0xb3 | 0xb7 | 0xbf => Opcode::LAX,
        0x23 | 0x27 | 0x2f | 0x33 | 0x37 | 0x3b | 0x3f => Opcode::RLA,
        0x83 | 0x87 | 0x8f | 0x97 => Opcode::SAX,
        0x04 | 0x0c | 0x14 | 0x1c | 0x34 | 0x3c | 0x44 | 0x54 | 0x5c | 0x64 | 0x74 | 0x7c | 0xd4 | 0xdc | 0xf4 | 0xfc => Opcode::IGN,
        0x80 | 0x82 | 0x89 | 0xc2 | 0xe2 => Opcode::SKB,
        _ => unreached(),
        }
    }

    fn make_addressing_mode(op: u8) -> (r: AddressingMode)
        requires
            spec_addressing_mode(op).is_some(),
        ensures
            r == spec_addressing_mode(op).unwrap(),
    {
        match op {
        0x00 | 0x08 | 0x18 | 0x1a | 0x28 | 0x38 | 0x3a | 0x40 | 0x48 | 0x58 | 0x5a | 0x60 | 0x68 | 0x78 | 0x7a | 0x88 | 0x8a | 0x98 | 0x9a | 0xa8 | 0xaa | 0xb8 | 0xba | 0xc8 | 0xca | 0xd8 | 0xda | 0xe8 | 0xea | 0xf8 | 0xfa => AddressingMode::Implied,
        0x0a | 0x2a | 0x4a | 0x6a => AddressingMode::Accumulator,
        0x09 | 0x0b | 0x29 | 0x49 | 0x4b | 0x69 | 0x6b | 0x80 | 0x82 | 0x89 | 0xa0 | 0xa2 | 0xa9 | 0xc0 | 0xc2 | 0xc9 | 0xcb | 0xe0 | 0xe2 | 0xe9 => AddressingMode::Immediate,
        0x04 | 0x05 | 0x06 | 0x24 | 0x25 | 0x26 | 0x27 | 0x44 | 0x45 | 0x46 | 0x64 | 0x65 | 0x66 | 0x84 | 0x85 | 0x86 | 0x87 | 0xa4 | 0xa5 | 0xa6 | 0xa7 | 0xc4 | 0xc5 | 0xc6 | 0xc7 | 0xe4 | 0xe5 | 0xe6 | 0xe7 => AddressingMode::ZeroPage,
        0x14 | 0x15 | 0x16 | 0x34 | 0x35 | 0x36 | 0x37 | 0x54 | 0x55 | 0x56 | 0x74 | 0x75 | 0x76 | 0x94 | 0x95 | 0xb4 | 0xb5 | 0xd4 | 0xd5 | 0xd6 | 0xd7 | 0xf4 | 0xf5 | 0xf6 | 0xf7 => AddressingMode::ZeroPageX,
        0x96 | 0x97 | 0xb6 | 0xb7 => AddressingMode::ZeroPageY,
        0x0c | 0x0d | 0x0e | 0x20 | 0x2c | 0x2d | 0x2e | 0x2f | 0x4c | 0x4d | 0x4e | 0x6d | 0x6e | 0x8c | 0x8d | 0x8e | 0x8f | 0xac | 0xad | 0xae | 0xaf | 0xcc | 0xcd | 0xce | 0xcf | 0xec | 0xed | 0xee | 0xef => AddressingMode::Absolute,
        0x1c | 0x1d | 0x1e | 0x3c | 0x3d | 0x3e | 0x3f | 0x5c | 0x5d | 0x5e | 0x7c | 0x7d | 0x7e | 0x9d | 0xbc | 0xbd | 0xdc | 0xdd | 0xde | 0xdf | 0xfc | 0xfd | 0xfe | 0xff => AddressingMode::AbsoluteX,
        0x19 | 0x39 | 0x3b | 0x59 | 0x79 | 0x99 | 0xb9 | 0xbe | 0xbf | 0xd9 | 0xdb | 0xf9 | 0xfb => AddressingMode::AbsoluteY,
        0x6c => AddressingMode::Indirect,
        0x01 | 0x21 | 0x23 | 0x41 | 0x61 | 0x81 | 0x83 | 0xa1 | 0xa3 | 0xc1 | 0xc3 | 0xe1 | 0xe3 => AddressingMode::IndirectX,
        0x11 | 0x31 | 0x33 | 0x51 | 0x71 | 0x91 | 0xb1 | 0xb3 | 0xd1 | 0xd3 | 0xf1 | 0xf3 => AddressingMode::IndirectY,
        0x10 | 0x30 | 0x50 | 0x70 | 0x90 | 0xb0 | 0xd0 | 0xf0 => AddressingMode::Relative,
        _ => unreached(),
        }
    }

    fn make_support(op: u8) -> (r: Support)
        ensures
            r == spec_support(op),
    {
        match op {
            0x04 | 0x0b | 0x0c | 0x14 | 0x1a | 0x1c | 0x23 | 0x27 | 0x2f | 0x33 | 0x34 | 0x37 | 0x3a | 0x3b | 0x3c | 0x3f | 0x44 | 0x4b | 0x54 | 0x5a | 0x5c | 0x64 | 0x6b | 0x74 | 0x7a | 0x7c | 0x80 | 0x82 | 0x83 | 0x87 | 0x89 | 0x8f | 0x97 | 0xa3 | 0xa7 | 0xaf | 0xb3 | 0xb7 | 0xbf | 0xc2 | 0xc3 | 0xc7 | 0xcb | 0xcf | 0xd3 | 0xd4 | 0xd7 | 0xda | 0xdb | 0xdc | 0xdf | 0xe2 | 0xe3 | 0xe7 | 0xef | 0xf3 | 0xf4 | 0xf7 | 0xfa | 0xfb | 0xfc | 0xff => Support::Illegal,
            _ => Support::Official,
        }
    }
}

} // verus!
