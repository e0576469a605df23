//! The opcode table: for each of the 256 opcode bytes, the instruction and
//! addressing mode it selects, its length in bytes, its base cycle cost and
//! the extra cycles charged when an indexed access or a taken branch crosses
//! a page. Opcodes outside the official instruction set decode to nothing.
use vstd::prelude::*;

verus! {

/// An instruction mnemonic of the official instruction set.
#[derive(Clone, Copy, Debug, PartialEq, Eq, Structural)]
pub enum Op {
    ADC,
    AND,
    ASL,
    BCC,
    BCS,
    BEQ,
    BIT,
    BMI,
    BNE,
    BPL,
    BRK,
    BVC,
    BVS,
    CLC,
    CLD,
    CLI,
    CLV,
    CMP,
    CPX,
    CPY,
    DEC,
    DEX,
    DEY,
    EOR,
    INC,
    INX,
    INY,
    JMP,
    JSR,
    LDA,
    LDX,
    LDY,
    LSR,
    NOP,
    ORA,
    PHA,
    PHP,
    PLA,
    PLP,
    ROL,
    ROR,
    RTI,
    RTS,
    SBC,
    SEC,
    SED,
    SEI,
    STA,
    STX,
    STY,
    TAX,
    TAY,
    TSX,
    TXA,
    TXS,
    TYA,
}

/// How an instruction finds its operand.
#[derive(Clone, Copy, Debug, PartialEq, Eq, Structural)]
pub enum Mode {
    Implied,
    Accumulator,
    Immediate,
    ZeroPage,
    ZeroPageX,
    ZeroPageY,
    Absolute,
    AbsoluteX,
    AbsoluteY,
    Indirect,
    IndexedIndirect,
    IndirectIndexed,
    Relative,
}

/// One entry of the opcode table.
#[derive(Clone, Copy, Debug, PartialEq, Eq, Structural)]
pub struct OpInfo {
    pub op: Op,
    pub mode: Mode,
    /// Length of the instruction in bytes, opcode included.
    pub size: u8,
    /// Base cycle cost.
    pub cycles: u8,
    /// Extra cycles when a page boundary is crossed.
    pub page_cycles: u8,
}

/// The table entry of opcode `op`; `None` for an opcode outside the
/// official instruction set.
pub open spec fn opcode_info(op: u8) -> Option<OpInfo> {
    match op {
        0x00 => Some(OpInfo { op: Op::BRK, mode: Mode::Implied, size: 1, cycles: 7, page_cycles: 0 }),
        0x01 => Some(OpInfo { op: Op::ORA, mode: Mode::IndexedIndirect, size: 2, cycles: 6, page_cycles: 0 }),
        0x05 => Some(OpInfo { op: Op::ORA, mode: Mode::ZeroPage, size: 2, cycles: 3, page_cycles: 0 }),
        0x06 => Some(OpInfo { op: Op::ASL, mode: Mode::ZeroPage, size: 2, cycles: 5, page_cycles: 0 }),
        0x08 => Some(OpInfo { op: Op::PHP, mode: Mode::Implied, size: 1, cycles: 3, page_cycles: 0 }),
        0x09 => Some(OpInfo { op: Op::ORA, mode: Mode::Immediate, size: 2, cycles: 2, page_cycles: 0 }),
        0x0A => Some(OpInfo { op: Op::ASL, mode: Mode::Accumulator, size: 1, cycles: 2, page_cycles: 0 }),
        0x0D => Some(OpInfo { op: Op::ORA, mode: Mode::Absolute, size: 3, cycles: 4, page_cycles: 0 }),
        0x0E => Some(OpInfo { op: Op::ASL, mode: Mode::Absolute, size: 3, cycles: 6, page_cycles: 0 }),
        0x10 => Some(OpInfo { op: Op::BPL, mode: Mode::Relative, size: 2, cycles: 2, page_cycles: 1 }),
        0x11 => Some(OpInfo { op: Op::ORA, mode: Mode::IndirectIndexed, size: 2, cycles: 5, page_cycles: 1 }),
        0x15 => Some(OpInfo { op: Op::ORA, mode: Mode::ZeroPageX, size: 2, cycles: 4, page_cycles: 0 }),
        0x16 => Some(OpInfo { op: Op::ASL, mode: Mode::ZeroPageX, size: 2, cycles: 6, page_cycles: 0 }),
        0x18 => Some(OpInfo { op: Op::CLC, mode: Mode::Implied, size: 1, cycles: 2, page_cycles: 0 }),
        0x19 => Some(OpInfo { op: Op::ORA, mode: Mode::AbsoluteY, size: 3, cycles: 4, page_cycles: 1 }),
        0x1D => Some(OpInfo { op: Op::ORA, mode: Mode::AbsoluteX, size: 3, cycles: 4, page_cycles: 1 }),
        0x1E => Some(OpInfo { op: Op::ASL, mode: Mode::AbsoluteX, size: 3, cycles: 7, page_cycles: 0 }),
        0x20 => Some(OpInfo { op: Op::JSR, mode: Mode::Absolute, size: 3, cycles: 6, page_cycles: 0 }),
        0x21 => Some(OpInfo { op: Op::AND, mode: Mode::IndexedIndirect, size: 2, cycles: 6, page_cycles: 0 }),
        0x24 => Some(OpInfo { op: Op::BIT, mode: Mode::ZeroPage, size: 2, cycles: 3, page_cycles: 0 }),
        0x25 => Some(OpInfo { op: Op::AND, mode: Mode::ZeroPage, size: 2, cycles: 3, page_cycles: 0 }),
        0x26 => Some(OpInfo { op: Op::ROL, mode: Mode::ZeroPage, size: 2, cycles: 5, page_cycles: 0 }),
        0x28 => Some(OpInfo { op: Op::PLP, mode: Mode::Implied, size: 1, cycles: 4, page_cycles: 0 }),
        0x29 => Some(OpInfo { op: Op::AND, mode: Mode::Immediate, size: 2, cycles: 2, page_cycles: 0 }),
        0x2A => Some(OpInfo { op: Op::ROL, mode: Mode::Accumulator, size: 1, cycles: 2, page_cycles: 0 }),
        0x2C => Some(OpInfo { op: Op::BIT, mode: Mode::Absolute, size: 3, cycles: 4, page_cycles: 0 }),
        0x2D => Some(OpInfo { op: Op::AND, mode: Mode::Absolute, size: 3, cycles: 4, page_cycles: 0 }),
        0x2E => Some(OpInfo { op: Op::ROL, mode: Mode::Absolute, size: 3, cycles: 6, page_cycles: 0 }),
        0x30 => Some(OpInfo { op: Op::BMI, mode: Mode::Relative, size: 2, cycles: 2, page_cycles: 1 }),
        0x31 => Some(OpInfo { op: Op::AND, mode: Mode::IndirectIndexed, size: 2, cycles: 5, page_cycles: 1 }),
        0x35 => Some(OpInfo { op: Op::AND, mode: Mode::ZeroPageX, size: 2, cycles: 4, page_cycles: 0 }),
        0x36 => Some(OpInfo { op: Op::ROL, mode: Mode::ZeroPageX, size: 2, cycles: 6, page_cycles: 0 }),
        0x38 => Some(OpInfo { op: Op::SEC, mode: Mode::Implied, size: 1, cycles: 2, page_cycles: 0 }),
        0x39 => Some(OpInfo { op: Op::AND, mode: Mode::AbsoluteY, size: 3, cycles: 4, page_cycles: 1 }),
        0x3D => Some(OpInfo { op: Op::AND, mode: Mode::AbsoluteX, size: 3, cycles: 4, page_cycles: 1 }),
        0x3E => Some(OpInfo { op: Op::ROL, mode: Mode::AbsoluteX, size: 3, cycles: 7, page_cycles: 0 }),
        0x40 => Some(OpInfo { op: Op::RTI, mode: Mode::Implied, size: 1, cycles: 6, page_cycles: 0 }),
        0x41 => Some(OpInfo { op: Op::EOR, mode: Mode::IndexedIndirect, size: 2, cycles: 6, page_cycles: 0 }),
        0x45 => Some(OpInfo { op: Op::EOR, mode: Mode::ZeroPage, size: 2, cycles: 3, page_cycles: 0 }),
        0x46 => Some(OpInfo { op: Op::LSR, mode: Mode::ZeroPage, size: 2, cycles: 5, page_cycles: 0 }),
        0x48 => Some(OpInfo { op: Op::PHA, mode: Mode::Implied, size: 1, cycles: 3, page_cycles: 0 }),
        0x49 => Some(OpInfo { op: Op::EOR, mode: Mode::Immediate, size: 2, cycles: 2, page_cycles: 0 }),
        0x4A => Some(OpInfo { op: Op::LSR, mode: Mode::Accumulator, size: 1, cycles: 2, page_cycles: 0 }),
        0x4C => Some(OpInfo { op: Op::JMP, mode: Mode::Absolute, size: 3, cycles: 3, page_cycles: 0 }),
        0x4D => Some(OpInfo { op: Op::EOR, mode: Mode::Absolute, size: 3, cycles: 4, page_cycles: 0 }),
        0x4E => Some(OpInfo { op: Op::LSR, mode: Mode::Absolute, size: 3, cycles: 6, page_cycles: 0 }),
        0x50 => Some(OpInfo { op: Op::BVC, mode: Mode::Relative, size: 2, cycles: 2, page_cycles: 1 }),
        0x51 => Some(OpInfo { op: Op::EOR, mode: Mode::IndirectIndexed, size: 2, cycles: 5, page_cycles: 1 }),
        0x55 => Some(OpInfo { op: Op::EOR, mode: Mode::ZeroPageX, size: 2, cycles: 4, page_cycles: 0 }),
        0x56 => Some(OpInfo { op: Op::LSR, mode: Mode::ZeroPageX, size: 2, cycles: 6, page_cycles: 0 }),
        0x58 => Some(OpInfo { op: Op::CLI, mode: Mode::Implied, size: 1, cycles: 2, page_cycles: 0 }),
        0x59 => Some(OpInfo { op: Op::EOR, mode: Mode::AbsoluteY, size: 3, cycles: 4, page_cycles: 1 }),
        0x5D => Some(OpInfo { op: Op::EOR, mode: Mode::AbsoluteX, size: 3, cycles: 4, page_cycles: 1 }),
        0x5E => Some(OpInfo { op: Op::LSR, mode: Mode::AbsoluteX, size: 3, cycles: 7, page_cycles: 0 }),
        0x60 => Some(OpInfo { op: Op::RTS, mode: Mode::Implied, size: 1, cycles: 6, page_cycles: 0 }),
        0x61 => Some(OpInfo { op: Op::ADC, mode: Mode::IndexedIndirect, size: 2, cycles: 6, page_cycles: 0 }),
        0x65 => Some(OpInfo { op: Op::ADC, mode: Mode::ZeroPage, size: 2, cycles: 3, page_cycles: 0 }),
        0x66 => Some(OpInfo { op: Op::ROR, mode: Mode::ZeroPage, size: 2, cycles: 5, page_cycles: 0 }),
        0x68 => Some(OpInfo { op: Op::PLA, mode: Mode::Implied, size: 1, cycles: 4, page_cycles: 0 }),
        0x69 => Some(OpInfo { op: Op::ADC, mode: Mode::Immediate, size: 2, cycles: 2, page_cycles: 0 }),
        0x6A => Some(OpInfo { op: Op::ROR, mode: Mode::Accumulator, size: 1, cycles: 2, page_cycles: 0 }),
        0x6C => Some(OpInfo { op: Op::JMP, mode: Mode::Indirect, size: 3, cycles: 5, page_cycles: 0 }),
        0x6D => Some(OpInfo { op: Op::ADC, mode: Mode::Absolute, size: 3, cycles: 4, page_cycles: 0 }),
        0x6E => Some(OpInfo { op: Op::ROR, mode: Mode::Absolute, size: 3, cycles: 6, page_cycles: 0 }),
        0x70 => Some(OpInfo { op: Op::BVS, mode: Mode::Relative, size: 2, cycles: 2, page_cycles: 1 }),
        0x71 => Some(OpInfo { op: Op::ADC, mode: Mode::IndirectIndexed, size: 2, cycles: 5, page_cycles: 1 }),
        0x75 => Some(OpInfo { op: Op::ADC, mode: Mode::ZeroPageX, size: 2, cycles: 4, page_cycles: 0 }),
        0x76 => Some(OpInfo { op: Op::ROR, mode: Mode::ZeroPageX, size: 2, cycles: 6, page_cycles: 0 }),
        0x78 => Some(OpInfo { op: Op::SEI, mode: Mode::Implied, size: 1, cycles: 2, page_cycles: 0 }),
        0x79 => Some(OpInfo { op: Op::ADC, mode: Mode::AbsoluteY, size: 3, cycles: 4, page_cycles: 1 }),
        0x7D => Some(OpInfo { op: Op::ADC, mode: Mode::AbsoluteX, size: 3, cycles: 4, page_cycles: 1 }),
        0x7E => Some(OpInfo { op: Op::ROR, mode: Mode::AbsoluteX, size: 3, cycles: 7, page_cycles: 0 }),
        0x81 => Some(OpInfo { op: Op::STA, mode: Mode::IndexedIndirect, size: 2, cycles: 6, page_cycles: 0 }),
        0x84 => Some(OpInfo { op: Op::STY, mode: Mode::ZeroPage, size: 2, cycles: 3, page_cycles: 0 }),
        0x85 => Some(OpInfo { op: Op::STA, mode: Mode::ZeroPage, size: 2, cycles: 3, page_cycles: 0 }),
        0x86 => Some(OpInfo { op: Op::STX, mode: Mode::ZeroPage, size: 2, cycles: 3, page_cycles: 0 }),
        0x88 => Some(OpInfo { op: Op::DEY, mode: Mode::Implied, size: 1, cycles: 2, page_cycles: 0 }),
        0x8A => Some(OpInfo { op: Op::TXA, mode: Mode::Implied, size: 1, cycles: 2, page_cycles: 0 }),
        0x8C => Some(OpInfo { op: Op::STY, mode: Mode::Absolute, size: 3, cycles: 4, page_cycles: 0 }),
        0x8D => Some(OpInfo { op: Op::STA, mode: Mode::Absolute, size: 3, cycles: 4, page_cycles: 0 }),
        0x8E => Some(OpInfo { op: Op::STX, mode: Mode::Absolute, size: 3, cycles: 4, page_cycles: 0 }),
        0x90 => Some(OpInfo { op: Op::BCC, mode: Mode::Relative, size: 2, cycles: 2, page_cycles: 1 }),
        0x91 => Some(OpInfo { op: Op::STA, mode: Mode::IndirectIndexed, size: 2, cycles: 6, page_cycles: 0 }),
        0x94 => Some(OpInfo { op: Op::STY, mode: Mode::ZeroPageX, size: 2, cycles: 4, page_cycles: 0 }),
        0x95 => Some(OpInfo { op: Op::STA, mode: Mode::ZeroPageX, size: 2, cycles: 4, page_cycles: 0 }),
        0x96 => Some(OpInfo { op: Op::STX, mode: Mode::ZeroPageY, size: 2, cycles: 4, page_cycles: 0 }),
        0x98 => Some(OpInfo { op: Op::TYA, mode: Mode::Implied, size: 1, cycles: 2, page_cycles: 0 }),
        0x99 => Some(OpInfo { op: Op::STA, mode: Mode::AbsoluteY, size: 3, cycles: 5, page_cycles: 0 }),
        0x9A => Some(OpInfo { op: Op::TXS, mode: Mode::Implied, size: 1, cycles: 2, page_cycles: 0 }),
        0x9D => Some(OpInfo { op: Op::STA, mode: Mode::AbsoluteX, size: 3, cycles: 5, page_cycles: 0 }),
        0xA0 => Some(OpInfo { op: Op::LDY, mode: Mode::Immediate, size: 2, cycles: 2, page_cycles: 0 }),
        0xA1 => Some(OpInfo { op: Op::LDA, mode: Mode::IndexedIndirect, size: 2, cycles: 6, page_cycles: 0 }),
        0xA2 => Some(OpInfo { op: Op::LDX, mode: Mode::Immediate, size: 2, cycles: 2, page_cycles: 0 }),
        0xA4 => Some(OpInfo { op: Op::LDY, mode: Mode::ZeroPage, size: 2, cycles: 3, page_cycles: 0 }),
        0xA5 => Some(OpInfo { op: Op::LDA, mode: Mode::ZeroPage, size: 2, cycles: 3, page_cycles: 0 }),
        0xA6 => Some(OpInfo { op: Op::LDX, mode: Mode::ZeroPage, size: 2, cycles: 3, page_cycles: 0 }),
        0xA8 => Some(OpInfo { op: Op::TAY, mode: Mode::Implied, size: 1, cycles: 2, page_cycles: 0 }),
        0xA9 => Some(OpInfo { op: Op::LDA, mode: Mode::Immediate, size: 2, cycles: 2, page_cycles: 0 }),
        0xAA => Some(OpInfo { op: Op::TAX, mode: Mode::Implied, size: 1, cycles: 2, page_cycles: 0 }),
        0xAC => Some(OpInfo { op: Op::LDY, mode: Mode::Absolute, size: 3, cycles: 4, page_cycles: 0 }),
        0xAD => Some(OpInfo { op: Op::LDA, mode: Mode::Absolute, size: 3, cycles: 4, page_cycles: 0 }),
        0xAE => Some(OpInfo { op: Op::LDX, mode: Mode::Absolute, size: 3, cycles: 4, page_cycles: 0 }),
        0xB0 => Some(OpInfo { op: Op::BCS, mode: Mode::Relative, size: 2, cycles: 2, page_cycles: 1 }),
        0xB1 => Some(OpInfo { op: Op::LDA, mode: Mode::IndirectIndexed, size: 2, cycles: 5, page_cycles: 1 }),
        0xB4 => Some(OpInfo { op: Op::LDY, mode: Mode::ZeroPageX, size: 2, cycles: 4, page_cycles: 0 }),
        0xB5 => Some(OpInfo { op: Op::LDA, mode: Mode::ZeroPageX, size: 2, cycles: 4, page_cycles: 0 }),
        0xB6 => Some(OpInfo { op: Op::LDX, mode: Mode::ZeroPageY, size: 2, cycles: 4, page_cycles: 0 }),
        0xB8 => Some(OpInfo { op: Op::CLV, mode: Mode::Implied, size: 1, cycles: 2, page_cycles: 0 }),
        0xB9 => Some(OpInfo { op: Op::LDA, mode: Mode::AbsoluteY, size: 3, cycles: 4, page_cycles: 1 }),
        0xBA => Some(OpInfo { op: Op::TSX, mode: Mode::Implied, size: 1, cycles: 2, page_cycles: 0 }),
        0xBC => Some(OpInfo { op: Op::LDY, mode: Mode::AbsoluteX, size: 3, cycles: 4, page_cycles: 1 }),
        0xBD => Some(OpInfo { op: Op::LDA, mode: Mode::AbsoluteX, size: 3, cycles: 4, page_cycles: 1 }),
        0xBE => Some(OpInfo { op: Op::LDX, mode: Mode::AbsoluteY, size: 3, cycles: 4, page_cycles: 1 }),
        0xC0 => Some(OpInfo { op: Op::CPY, mode: Mode::Immediate, size: 2, cycles: 2, page_cycles: 0 }),
        0xC1 => Some(OpInfo { op: Op::CMP, mode: Mode::IndexedIndirect, size: 2, cycles: 6, page_cycles: 0 }),
        0xC4 => Some(OpInfo { op: Op::CPY, mode: Mode::ZeroPage, size: 2, cycles: 3, page_cycles: 0 }),
        0xC5 => Some(OpInfo { op: Op::CMP, mode: Mode::ZeroPage, size: 2, cycles: 3, page_cycles: 0 }),
        0xC6 => Some(OpInfo { op: Op::DEC, mode: Mode::ZeroPage, size: 2, cycles: 5, page_cycles: 0 }),
        0xC8 => Some(OpInfo { op: Op::INY, mode: Mode::Implied, size: 1, cycles: 2, page_cycles: 0 }),
        0xC9 => Some(OpInfo { op: Op::CMP, mode: Mode::Immediate, size: 2, cycles: 2, page_cycles: 0 }),
        0xCA => Some(OpInfo { op: Op::DEX, mode: Mode::Implied, size: 1, cycles: 2, page_cycles: 0 }),
        0xCC => Some(OpInfo { op: Op::CPY, mode: Mode::Absolute, size: 3, cycles: 4, page_cycles: 0 }),
        0xCD => Some(OpInfo { op: Op::CMP, mode: Mode::Absolute, size: 3, cycles: 4, page_cycles: 0 }),
        0xCE => Some(OpInfo { op: Op::DEC, mode: Mode::Absolute, size: 3, cycles: 6, page_cycles: 0 }),
        0xD0 => Some(OpInfo { op: Op::BNE, mode: Mode::Relative, size: 2, cycles: 2, page_cycles: 1 }),
        0xD1 => Some(OpInfo { op: Op::CMP, mode: Mode::IndirectIndexed, size: 2, cycles: 5, page_cycles: 1 }),
        0xD5 => Some(OpInfo { op: Op::CMP, mode: Mode::ZeroPageX, size: 2, cycles: 4, page_cycles: 0 }),
        0xD6 => Some(OpInfo { op: Op::DEC, mode: Mode::ZeroPageX, size: 2, cycles: 6, page_cycles: 0 }),
        0xD8 => Some(OpInfo { op: Op::CLD, mode: Mode::Implied, size: 1, cycles: 2, page_cycles: 0 }),
        0xD9 => Some(OpInfo { op: Op::CMP, mode: Mode::AbsoluteY, size: 3, cycles: 4, page_cycles: 1 }),
        0xDD => Some(OpInfo { op: Op::CMP, mode: Mode::AbsoluteX, size: 3, cycles: 4, page_cycles: 1 }),
        0xDE => Some(OpInfo { op: Op::DEC, mode: Mode::AbsoluteX, size: 3, cycles: 7, page_cycles: 0 }),
        0xE0 => Some(OpInfo { op: Op::CPX, mode: Mode::Immediate, size: 2, cycles: 2, page_cycles: 0 }),
        0xE1 => Some(OpInfo { op: Op::SBC, mode: Mode::IndexedIndirect, size: 2, cycles: 6, page_cycles: 0 }),
        0xE4 => Some(OpInfo { op: Op::CPX, mode: Mode::ZeroPage, size: 2, cycles: 3, page_cycles: 0 }),
        0xE5 => Some(OpInfo { op: Op::SBC, mode: Mode::ZeroPage, size: 2, cycles: 3, page_cycles: 0 }),
        0xE6 => Some(OpInfo { op: Op::INC, mode: Mode::ZeroPage, size: 2, cycles: 5, page_cycles: 0 }),
        0xE8 => Some(OpInfo { op: Op::INX, mode: Mode::Implied, size: 1, cycles: 2, page_cycles: 0 }),
        0xE9 => Some(OpInfo { op: Op::SBC, mode: Mode::Immediate, size: 2, cycles: 2, page_cycles: 0 }),
        0xEA => Some(OpInfo { op: Op::NOP, mode: Mode::Implied, size: 1, cycles: 2, page_cycles: 0 }),
        0xEC => Some(OpInfo { op: Op::CPX, mode: Mode::Absolute, size: 3, cycles: 4, page_cycles: 0 }),
        0xED => Some(OpInfo { op: Op::SBC, mode: Mode::Absolute, size: 3, cycles: 4, page_cycles: 0 }),
        0xEE => Some(OpInfo { op: Op::INC, mode: Mode::Absolute, size: 3, cycles: 6, page_cycles: 0 }),
        0xF0 => Some(OpInfo { op: Op::BEQ, mode: Mode::Relative, size: 2, cycles: 2, page_cycles: 1 }),
        0xF1 => Some(OpInfo { op: Op::SBC, mode: Mode::IndirectIndexed, size: 2, cycles: 5, page_cycles: 1 }),
        0xF5 => Some(OpInfo { op: Op::SBC, mode: Mode::ZeroPageX, size: 2, cycles: 4, page_cycles: 0 }),
        0xF6 => Some(OpInfo { op: Op::INC, mode: Mode::ZeroPageX, size: 2, cycles: 6, page_cycles: 0 }),
        0xF8 => Some(OpInfo { op: Op::SED, mode: Mode::Implied, size: 1, cycles: 2, page_cycles: 0 }),
        0xF9 => Some(OpInfo { op: Op::SBC, mode: Mode::AbsoluteY, size: 3, cycles: 4, page_cycles: 1 }),
        0xFD => Some(OpInfo { op: Op::SBC, mode: Mode::AbsoluteX, size: 3, cycles: 4, page_cycles: 1 }),
        0xFE => Some(OpInfo { op: Op::INC, mode: Mode::AbsoluteX, size: 3, cycles: 7, page_cycles: 0 }),
        _ => None,
    }
}

/// Looks up opcode `op` in the table.
pub fn decode(op: u8) -> (r: Option<OpInfo>)
    ensures
        r == opcode_info(op),
{
    match op {
        0x00 => Some(OpInfo { op: Op::BRK, mode: Mode::Implied, size: 1, cycles: 7, page_cycles: 0 }),
        0x01 => Some(OpInfo { op: Op::ORA, mode: Mode::IndexedIndirect, size: 2, cycles: 6, page_cycles: 0 }),
        0x05 => Some(OpInfo { op: Op::ORA, mode: Mode::ZeroPage, size: 2, cycles: 3, page_cycles: 0 }),
        0x06 => Some(OpInfo { op: Op::ASL, mode: Mode::ZeroPage, size: 2, cycles: 5, page_cycles: 0 }),
        0x08 => Some(OpInfo { op: Op::PHP, mode: Mode::Implied, size: 1, cycles: 3, page_cycles: 0 }),
        0x09 => Some(OpInfo { op: Op::ORA, mode: Mode::Immediate, size: 2, cycles: 2, page_cycles: 0 }),
        0x0A => Some(OpInfo { op: Op::ASL, mode: Mode::Accumulator, size: 1, cycles: 2, page_cycles: 0 }),
        0x0D => Some(OpInfo { op: Op::ORA, mode: Mode::Absolute, size: 3, cycles: 4, page_cycles: 0 }),
        0x0E => Some(OpInfo { op: Op::ASL, mode: Mode::Absolute, size: 3, cycles: 6, page_cycles: 0 }),
        0x10 => Some(OpInfo { op: Op::BPL, mode: Mode::Relative, size: 2, cycles: 2, page_cycles: 1 }),
        0x11 => Some(OpInfo { op: Op::ORA, mode: Mode::IndirectIndexed, size: 2, cycles: 5, page_cycles: 1 }),
        0x15 => Some(OpInfo { op: Op::ORA, mode: Mode::ZeroPageX, size: 2, cycles: 4, page_cycles: 0 }),
        0x16 => Some(OpInfo { op: Op::ASL, mode: Mode::ZeroPageX, size: 2, cycles: 6, page_cycles: 0 }),
        0x18 => Some(OpInfo { op: Op::CLC, mode: Mode::Implied, size: 1, cycles: 2, page_cycles: 0 }),
        0x19 => Some(OpInfo { op: Op::ORA, mode: Mode::AbsoluteY, size: 3, cycles: 4, page_cycles: 1 }),
        0x1D => Some(OpInfo { op: Op::ORA, mode: Mode::AbsoluteX, size: 3, cycles: 4, page_cycles: 1 }),
        0x1E => Some(OpInfo { op: Op::ASL, mode: Mode::AbsoluteX, size: 3, cycles: 7, page_cycles: 0 }),
        0x20 => Some(OpInfo { op: Op::JSR, mode: Mode::Absolute, size: 3, cycles: 6, page_cycles: 0 }),
        0x21 => Some(OpInfo { op: Op::AND, mode: Mode::IndexedIndirect, size: 2, cycles: 6, page_cycles: 0 }),
        0x24 => Some(OpInfo { op: Op::BIT, mode: Mode::ZeroPage, size: 2, cycles: 3, page_cycles: 0 }),
        0x25 => Some(OpInfo { op: Op::AND, mode: Mode::ZeroPage, size: 2, cycles: 3, page_cycles: 0 }),
        0x26 => Some(OpInfo { op: Op::ROL, mode: Mode::ZeroPage, size: 2, cycles: 5, page_cycles: 0 }),
        0x28 => Some(OpInfo { op: Op::PLP, mode: Mode::Implied, size: 1, cycles: 4, page_cycles: 0 }),
        0x29 => Some(OpInfo { op: Op::AND, mode: Mode::Immediate, size: 2, cycles: 2, page_cycles: 0 }),
        0x2A => Some(OpInfo { op: Op::ROL, mode: Mode::Accumulator, size: 1, cycles: 2, page_cycles: 0 }),
        0x2C => Some(OpInfo { op: Op::BIT, mode: Mode::Absolute, size: 3, cycles: 4, page_cycles: 0 }),
        0x2D => Some(OpInfo { op: Op::AND, mode: Mode::Absolute, size: 3, cycles: 4, page_cycles: 0 }),
        0x2E => Some(OpInfo { op: Op::ROL, mode: Mode::Absolute, size: 3, cycles: 6, page_cycles: 0 }),
        0x30 => Some(OpInfo { op: Op::BMI, mode: Mode::Relative, size: 2, cycles: 2, page_cycles: 1 }),
        0x31 => Some(OpInfo { op: Op::AND, mode: Mode::IndirectIndexed, size: 2, cycles: 5, page_cycles: 1 }),
        0x35 => Some(OpInfo { op: Op::AND, mode: Mode::ZeroPageX, size: 2, cycles: 4, page_cycles: 0 }),
        0x36 => Some(OpInfo { op: Op::ROL, mode: Mode::ZeroPageX, size: 2, cycles: 6, page_cycles: 0 }),
        0x38 => Some(OpInfo { op: Op::SEC, mode: Mode::Implied, size: 1, cycles: 2, page_cycles: 0 }),
        0x39 => Some(OpInfo { op: Op::AND, mode: Mode::AbsoluteY, size: 3, cycles: 4, page_cycles: 1 }),
        0x3D => Some(OpInfo { op: Op::AND, mode: Mode::AbsoluteX, size: 3, cycles: 4, page_cycles: 1 }),
        0x3E => Some(OpInfo { op: Op::ROL, mode: Mode::AbsoluteX, size: 3, cycles: 7, page_cycles: 0 }),
        0x40 => Some(OpInfo { op: Op::RTI, mode: Mode::Implied, size: 1, cycles: 6, page_cycles: 0 }),
        0x41 => Some(OpInfo { op: Op::EOR, mode: Mode::IndexedIndirect, size: 2, cycles: 6, page_cycles: 0 }),
        0x45 => Some(OpInfo { op: Op::EOR, mode: Mode::ZeroPage, size: 2, cycles: 3, page_cycles: 0 }),
        0x46 => Some(OpInfo { op: Op::LSR, mode: Mode::ZeroPage, size: 2, cycles: 5, page_cycles: 0 }),
        0x48 => Some(OpInfo { op: Op::PHA, mode: Mode::Implied, size: 1, cycles: 3, page_cycles: 0 }),
        0x49 => Some(OpInfo { op: Op::EOR, mode: Mode::Immediate, size: 2, cycles: 2, page_cycles: 0 }),
        0x4A => Some(OpInfo { op: Op::LSR, mode: Mode::Accumulator, size: 1, cycles: 2, page_cycles: 0 }),
        0x4C => Some(OpInfo { op: Op::JMP, mode: Mode::Absolute, size: 3, cycles: 3, page_cycles: 0 }),
        0x4D => Some(OpInfo { op: Op::EOR, mode: Mode::Absolute, size: 3, cycles: 4, page_cycles: 0 }),
        0x4E => Some(OpInfo { op: Op::LSR, mode: Mode::Absolute, size: 3, cycles: 6, page_cycles: 0 }),
        0x50 => Some(OpInfo { op: Op::BVC, mode: Mode::Relative, size: 2, cycles: 2, page_cycles: 1 }),
        0x51 => Some(OpInfo { op: Op::EOR, mode: Mode::IndirectIndexed, size: 2, cycles: 5, page_cycles: 1 }),
        0x55 => Some(OpInfo { op: Op::EOR, mode: Mode::ZeroPageX, size: 2, cycles: 4, page_cycles: 0 }),
        0x56 => Some(OpInfo { op: Op::LSR, mode: Mode::ZeroPageX, size: 2, cycles: 6, page_cycles: 0 }),
        0x58 => Some(OpInfo { op: Op::CLI, mode: Mode::Implied, size: 1, cycles: 2, page_cycles: 0 }),
        0x59 => Some(OpInfo { op: Op::EOR, mode: Mode::AbsoluteY, size: 3, cycles: 4, page_cycles: 1 }),
        0x5D => Some(OpInfo { op: Op::EOR, mode: Mode::AbsoluteX, size: 3, cycles: 4, page_cycles: 1 }),
        0x5E => Some(OpInfo { op: Op::LSR, mode: Mode::AbsoluteX, size: 3, cycles: 7, page_cycles: 0 }),
        0x60 => Some(OpInfo { op: Op::RTS, mode: Mode::Implied, size: 1, cycles: 6, page_cycles: 0 }),
        0x61 => Some(OpInfo { op: Op::ADC, mode: Mode::IndexedIndirect, size: 2, cycles: 6, page_cycles: 0 }),
        0x65 => Some(OpInfo { op: Op::ADC, mode: Mode::ZeroPage, size: 2, cycles: 3, page_cycles: 0 }),
        0x66 => Some(OpInfo { op: Op::ROR, mode: Mode::ZeroPage, size: 2, cycles: 5, page_cycles: 0 }),
        0x68 => Some(OpInfo { op: Op::PLA, mode: Mode::Implied, size: 1, cycles: 4, page_cycles: 0 }),
        0x69 => Some(OpInfo { op: Op::ADC, mode: Mode::Immediate, size: 2, cycles: 2, page_cycles: 0 }),
        0x6A => Some(OpInfo { op: Op::ROR, mode: Mode::Accumulator, size: 1, cycles: 2, page_cycles: 0 }),
        0x6C => Some(OpInfo { op: Op::JMP, mode: Mode::Indirect, size: 3, cycles: 5, page_cycles: 0 }),
        0x6D => Some(OpInfo { op: Op::ADC, mode: Mode::Absolute, size: 3, cycles: 4, page_cycles: 0 }),
        0x6E => Some(OpInfo { op: Op::ROR, mode: Mode::Absolute, size: 3, cycles: 6, page_cycles: 0 }),
        0x70 => Some(OpInfo { op: Op::BVS, mode: Mode::Relative, size: 2, cycles: 2, page_cycles: 1 }),
        0x71 => Some(OpInfo { op: Op::ADC, mode: Mode::IndirectIndexed, size: 2, cycles: 5, page_cycles: 1 }),
        0x75 => Some(OpInfo { op: Op::ADC, mode: Mode::ZeroPageX, size: 2, cycles: 4, page_cycles: 0 }),
        0x76 => Some(OpInfo { op: Op::ROR, mode: Mode::ZeroPageX, size: 2, cycles: 6, page_cycles: 0 }),
        0x78 => Some(OpInfo { op: Op::SEI, mode: Mode::Implied, size: 1, cycles: 2, page_cycles: 0 }),
        0x79 => Some(OpInfo { op: Op::ADC, mode: Mode::AbsoluteY, size: 3, cycles: 4, page_cycles: 1 }),
        0x7D => Some(OpInfo { op: Op::ADC, mode: Mode::AbsoluteX, size: 3, cycles: 4, page_cycles: 1 }),
        0x7E => Some(OpInfo { op: Op::ROR, mode: Mode::AbsoluteX, size: 3, cycles: 7, page_cycles: 0 }),
        0x81 => Some(OpInfo { op: Op::STA, mode: Mode::IndexedIndirect, size: 2, cycles: 6, page_cycles: 0 }),
        0x84 => Some(OpInfo { op: Op::STY, mode: Mode::ZeroPage, size: 2, cycles: 3, page_cycles: 0 }),
        0x85 => Some(OpInfo { op: Op::STA, mode: Mode::ZeroPage, size: 2, cycles: 3, page_cycles: 0 }),
        0x86 => Some(OpInfo { op: Op::STX, mode: Mode::ZeroPage, size: 2, cycles: 3, page_cycles: 0 }),
        0x88 => Some(OpInfo { op: Op::DEY, mode: Mode::Implied, size: 1, cycles: 2, page_cycles: 0 }),
        0x8A => Some(OpInfo { op: Op::TXA, mode: Mode::Implied, size: 1, cycles: 2, page_cycles: 0 }),
        0x8C => Some(OpInfo { op: Op::STY, mode: Mode::Absolute, size: 3, cycles: 4, page_cycles: 0 }),
        0x8D => Some(OpInfo { op: Op::STA, mode: Mode::Absolute, size: 3, cycles: 4, page_cycles: 0 }),
        0x8E => Some(OpInfo { op: Op::STX, mode: Mode::Absolute, size: 3, cycles: 4, page_cycles: 0 }),
        0x90 => Some(OpInfo { op: Op::BCC, mode: Mode::Relative, size: 2, cycles: 2, page_cycles: 1 }),
        0x91 => Some(OpInfo { op: Op::STA, mode: Mode::IndirectIndexed, size: 2, cycles: 6, page_cycles: 0 }),
        0x94 => Some(OpInfo { op: Op::STY, mode: Mode::ZeroPageX, size: 2, cycles: 4, page_cycles: 0 }),
        0x95 => Some(OpInfo { op: Op::STA, mode: Mode::ZeroPageX, size: 2, cycles: 4, page_cycles: 0 }),
        0x96 => Some(OpInfo { op: Op::STX, mode: Mode::ZeroPageY, size: 2, cycles: 4, page_cycles: 0 }),
        0x98 => Some(OpInfo { op: Op::TYA, mode: Mode::Implied, size: 1, cycles: 2, page_cycles: 0 }),
        0x99 => Some(OpInfo { op: Op::STA, mode: Mode::AbsoluteY, size: 3, cycles: 5, page_cycles: 0 }),
        0x9A => Some(OpInfo { op: Op::TXS, mode: Mode::Implied, size: 1, cycles: 2, page_cycles: 0 }),
        0x9D => Some(OpInfo { op: Op::STA, mode: Mode::AbsoluteX, size: 3, cycles: 5, page_cycles: 0 }),
        0xA0 => Some(OpInfo { op: Op::LDY, mode: Mode::Immediate, size: 2, cycles: 2, page_cycles: 0 }),
        0xA1 => Some(OpInfo { op: Op::LDA, mode: Mode::IndexedIndirect, size: 2, cycles: 6, page_cycles: 0 }),
        0xA2 => Some(OpInfo { op: Op::LDX, mode: Mode::Immediate, size: 2, cycles: 2, page_cycles: 0 }),
        0xA4 => Some(OpInfo { op: Op::LDY, mode: Mode::ZeroPage, size: 2, cycles: 3, page_cycles: 0 }),
        0xA5 => Some(OpInfo { op: Op::LDA, mode: Mode::ZeroPage, size: 2, cycles: 3, page_cycles: 0 }),
        0xA6 => Some(OpInfo { op: Op::LDX, mode: Mode::ZeroPage, size: 2, cycles: 3, page_cycles: 0 }),
        0xA8 => Some(OpInfo { op: Op::TAY, mode: Mode::Implied, size: 1, cycles: 2, page_cycles: 0 }),
        0xA9 => Some(OpInfo { op: Op::LDA, mode: Mode::Immediate, size: 2, cycles: 2, page_cycles: 0 }),
        0xAA => Some(OpInfo { op: Op::TAX, mode: Mode::Implied, size: 1, cycles: 2, page_cycles: 0 }),
        0xAC => Some(OpInfo { op: Op::LDY, mode: Mode::Absolute, size: 3, cycles: 4, page_cycles: 0 }),
        0xAD => Some(OpInfo { op: Op::LDA, mode: Mode::Absolute, size: 3, cycles: 4, page_cycles: 0 }),
        0xAE => Some(OpInfo { op: Op::LDX, mode: Mode::Absolute, size: 3, cycles: 4, page_cycles: 0 }),
        0xB0 => Some(OpInfo { op: Op::BCS, mode: Mode::Relative, size: 2, cycles: 2, page_cycles: 1 }),
        0xB1 => Some(OpInfo { op: Op::LDA, mode: Mode::IndirectIndexed, size: 2, cycles: 5, page_cycles: 1 }),
        0xB4 => Some(OpInfo { op: Op::LDY, mode: Mode::ZeroPageX, size: 2, cycles: 4, page_cycles: 0 }),
        0xB5 => Some(OpInfo { op: Op::LDA, mode: Mode::ZeroPageX, size: 2, cycles: 4, page_cycles: 0 }),
        0xB6 => Some(OpInfo { op: Op::LDX, mode: Mode::ZeroPageY, size: 2, cycles: 4, page_cycles: 0 }),
        0xB8 => Some(OpInfo { op: Op::CLV, mode: Mode::Implied, size: 1, cycles: 2, page_cycles: 0 }),
        0xB9 => Some(OpInfo { op: Op::LDA, mode: Mode::AbsoluteY, size: 3, cycles: 4, page_cycles: 1 }),
        0xBA => Some(OpInfo { op: Op::TSX, mode: Mode::Implied, size: 1, cycles: 2, page_cycles: 0 }),
        0xBC => Some(OpInfo { op: Op::LDY, mode: Mode::AbsoluteX, size: 3, cycles: 4, page_cycles: 1 }),
        0xBD => Some(OpInfo { op: Op::LDA, mode: Mode::AbsoluteX, size: 3, cycles: 4, page_cycles: 1 }),
        0xBE => Some(OpInfo { op: Op::LDX, mode: Mode::AbsoluteY, size: 3, cycles: 4, page_cycles: 1 }),
        0xC0 => Some(OpInfo { op: Op::CPY, mode: Mode::Immediate, size: 2, cycles: 2, page_cycles: 0 }),
        0xC1 => Some(OpInfo { op: Op::CMP, mode: Mode::IndexedIndirect, size: 2, cycles: 6, page_cycles: 0 }),
        0xC4 => Some(OpInfo { op: Op::CPY, mode: Mode::ZeroPage, size: 2, cycles: 3, page_cycles: 0 }),
        0xC5 => Some(OpInfo { op: Op::CMP, mode: Mode::ZeroPage, size: 2, cycles: 3, page_cycles: 0 }),
        0xC6 => Some(OpInfo { op: Op::DEC, mode: Mode::ZeroPage, size: 2, cycles: 5, page_cycles: 0 }),
        0xC8 => Some(OpInfo { op: Op::INY, mode: Mode::Implied, size: 1, cycles: 2, page_cycles: 0 }),
        0xC9 => Some(OpInfo { op: Op::CMP, mode: Mode::Immediate, size: 2, cycles: 2, page_cycles: 0 }),
        0xCA => Some(OpInfo { op: Op::DEX, mode: Mode::Implied, size: 1, cycles: 2, page_cycles: 0 }),
        0xCC => Some(OpInfo { op: Op::CPY, mode: Mode::Absolute, size: 3, cycles: 4, page_cycles: 0 }),
        0xCD => Some(OpInfo { op: Op::CMP, mode: Mode::Absolute, size: 3, cycles: 4, page_cycles: 0 }),
        0xCE => Some(OpInfo { op: Op::DEC, mode: Mode::Absolute, size: 3, cycles: 6, page_cycles: 0 }),
        0xD0 => Some(OpInfo { op: Op::BNE, mode: Mode::Relative, size: 2, cycles: 2, page_cycles: 1 }),
        0xD1 => Some(OpInfo { op: Op::CMP, mode: Mode::IndirectIndexed, size: 2, cycles: 5, page_cycles: 1 }),
        0xD5 => Some(OpInfo { op: Op::CMP, mode: Mode::ZeroPageX, size: 2, cycles: 4, page_cycles: 0 }),
        0xD6 => Some(OpInfo { op: Op::DEC, mode: Mode::ZeroPageX, size: 2, cycles: 6, page_cycles: 0 }),
        0xD8 => Some(OpInfo { op: Op::CLD, mode: Mode::Implied, size: 1, cycles: 2, page_cycles: 0 }),
        0xD9 => Some(OpInfo { op: Op::CMP, mode: Mode::AbsoluteY, size: 3, cycles: 4, page_cycles: 1 }),
        0xDD => Some(OpInfo { op: Op::CMP, mode: Mode::AbsoluteX, size: 3, cycles: 4, page_cycles: 1 }),
        0xDE => Some(OpInfo { op: Op::DEC, mode: Mode::AbsoluteX, size: 3, cycles: 7, page_cycles: 0 }),
        0xE0 => Some(OpInfo { op: Op::CPX, mode: Mode::Immediate, size: 2, cycles: 2, page_cycles: 0 }),
        0xE1 => Some(OpInfo { op: Op::SBC, mode: Mode::IndexedIndirect, size: 2, cycles: 6, page_cycles: 0 }),
        0xE4 => Some(OpInfo { op: Op::CPX, mode: Mode::ZeroPage, size: 2, cycles: 3, page_cycles: 0 }),
        0xE5 => Some(OpInfo { op: Op::SBC, mode: Mode::ZeroPage, size: 2, cycles: 3, page_cycles: 0 }),
        0xE6 => Some(OpInfo { op: Op::INC, mode: Mode::ZeroPage, size: 2, cycles: 5, page_cycles: 0 }),
        0xE8 => Some(OpInfo { op: Op::INX, mode: Mode::Implied, size: 1, cycles: 2, page_cycles: 0 }),
        0xE9 => Some(OpInfo { op: Op::SBC, mode: Mode::Immediate, size: 2, cycles: 2, page_cycles: 0 }),
        0xEA => Some(OpInfo { op: Op::NOP, mode: Mode::Implied, size: 1, cycles: 2, page_cycles: 0 }),
        0xEC => Some(OpInfo { op: Op::CPX, mode: Mode::Absolute, size: 3, cycles: 4, page_cycles: 0 }),
        0xED => Some(OpInfo { op: Op::SBC, mode: Mode::Absolute, size: 3, cycles: 4, page_cycles: 0 }),
        0xEE => Some(OpInfo { op: Op::INC, mode: Mode::Absolute, size: 3, cycles: 6, page_cycles: 0 }),
        0xF0 => Some(OpInfo { op: Op::BEQ, mode: Mode::Relative, size: 2, cycles: 2, page_cycles: 1 }),
        0xF1 => Some(OpInfo { op: Op::SBC, mode: Mode::IndirectIndexed, size: 2, cycles: 5, page_cycles: 1 }),
        0xF5 => Some(OpInfo { op: Op::SBC, mode: Mode::ZeroPageX, size: 2, cycles: 4, page_cycles: 0 }),
        0xF6 => Some(OpInfo { op: Op::INC, mode: Mode::ZeroPageX, size: 2, cycles: 6, page_cycles: 0 }),
        0xF8 => Some(OpInfo { op: Op::SED, mode: Mode::Implied, size: 1, cycles: 2, page_cycles: 0 }),
        0xF9 => Some(OpInfo { op: Op::SBC, mode: Mode::AbsoluteY, size: 3, cycles: 4, page_cycles: 1 }),
        0xFD => Some(OpInfo { op: Op::SBC, mode: Mode::AbsoluteX, size: 3, cycles: 4, page_cycles: 1 }),
        0xFE => Some(OpInfo { op: Op::INC, mode: Mode::AbsoluteX, size: 3, cycles: 7, page_cycles: 0 }),
        _ => None,
    }
}

/// What the slot arrays hold for a table entry: mnemonic, size, mode,
/// base cost and page-crossing cost, or nothing and zeros.
pub open spec fn slot_of(e: Option<OpInfo>) -> (Option<Op>, u8, Option<Mode>, u8, u8) {
    match e {
        Some(info) => (Some(info.op), info.size, Some(info.mode), info.cycles, info.page_cycles),
        None => (None, 0, None, 0, 0),
    }
}

/// The opcode table laid out as arrays indexed by opcode byte; an opcode
/// outside the instruction set has no mnemonic or mode and zero size and cost.
pub struct Instructions {
    pub names: Vec<Option<Op>>,
    pub sizes: Vec<u8>,
    pub modes: Vec<Option<Mode>>,
    pub speeds: Vec<u8>,
    pub paging: Vec<u8>,
}

impl Instructions {
    /// Whether slot `i` holds `e`.
    pub open spec fn slot_holds(self, i: int, e: (Option<Op>, u8, Option<Mode>, u8, u8)) -> bool {
        &&& self.names@[i] == e.0
        &&& self.sizes@[i] == e.1
        &&& self.modes@[i] == e.2
        &&& self.speeds@[i] == e.3
        &&& self.paging@[i] == e.4
    }

    /// Whether slot `i` agrees with the table entry of opcode `i`.
    pub open spec fn slot_matches(self, i: int) -> bool {
        self.slot_holds(i, slot_of(opcode_info(i as u8)))
    }

    /// All 256 slots are present and agree with the table.
    pub open spec fn wf(self) -> bool {
        &&& self.names@.len() == 256
        &&& self.sizes@.len() == 256
        &&& self.modes@.len() == 256
        &&& self.speeds@.len() == 256
        &&& self.paging@.len() == 256
        &&& forall|i: int| 0 <= i < 256 ==> #[trigger] self.slot_matches(i)
    }

    /// Fills all 256 slots from the table.
    pub fn new() -> (r: Instructions)
        ensures
            r.wf(),
    {
        let mut t = Instructions {
            names: Vec::new(),
            sizes: Vec::new(),
            modes: Vec::new(),
            speeds: Vec::new(),
            paging: Vec::new(),
        };
        let mut i: u16 = 0;
        while i < 256
            invariant
                i <= 256,
                t.names@.len() == i,
                t.sizes@.len() == i,
                t.modes@.len() == i,
                t.speeds@.len() == i,
                t.paging@.len() == i,
                forall|j: int| 0 <= j < i ==> #[trigger] t.slot_matches(j),
            decreases 256 - i,
        {
            let ghost before = t;
            let e = decode(i as u8);
            match e {
                Some(info) => {
                    t.names.push(Some(info.op));
                    t.sizes.push(info.size);
                    t.modes.push(Some(info.mode));
                    t.speeds.push(info.cycles);
                    t.paging.push(info.page_cycles);
                },
                None => {
                    t.names.push(None);
                    t.sizes.push(0);
                    t.modes.push(None);
                    t.speeds.push(0);
                    t.paging.push(0);
                },
            }
            assert(t.slot_holds(i as int, slot_of(e)));
            assert forall|j: int| 0 <= j < i + 1 implies #[trigger] t.slot_matches(j) by {
                if j < i {
                    assert(before.slot_matches(j));
                }
            }
            i = i + 1;
        }
        t
    }
}

} // verus!
