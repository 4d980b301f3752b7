use vstd::prelude::*;
use crate::cpu::addressing::Addressing;

verus! {

/// The operations of the 6502; accumulator forms of the shifts have their own names.
#[allow(non_camel_case_types)]
#[derive(Debug, Clone, Copy, PartialEq, Eq, Structural)]
pub enum OpName {
    ADC,
    AND,
    ASL_A,
    ASL,
    BIT,
    BCS,
    BCC,
    BEQ,
    BNE,
    BMI,
    BPL,
    BVS,
    BVC,
    BRK,
    CLC,
    CLD,
    CLI,
    CLV,
    CMP,
    CPX,
    CPY,
    DEC,
    DEX,
    DEY,
    EOR,
    INC,
    INX,
    INY,
    JMP_ABS,
    JMP_IND,
    JSR,
    LDA,
    LDX,
    LDY,
    LSR_A,
    LSR,
    NOP,
    ORA,
    PHA,
    PHP,
    PLA,
    PLP,
    ROL_A,
    ROL,
    ROR_A,
    ROR,
    RTI,
    RTS,
    SBC,
    SEC,
    SED,
    SEI,
    STA,
    STX,
    STY,
    TAX,
    TAY,
    TSX,
    TXA,
    TXS,
    TYA,
}

/// One entry of the opcode table.
#[derive(Debug, Clone, Copy, PartialEq, Eq, Structural)]
pub struct Instruction {
    /// The opcode byte.
    pub address: u8,
    pub name: OpName,
    /// Length in bytes, opcode included.
    pub bytes: u8,
    /// Base cycle count.
    pub cycles: u8,
    pub mode: Addressing,
}

impl Instruction {
    /// An opcode table entry.
    pub fn new(address: u8, name: OpName, bytes: u8, cycles: u8, mode: Addressing) -> (r: Self)
        ensures
            r == (Instruction { address, name, bytes, cycles, mode }),
    {
        Instruction { address, name, bytes, cycles, mode }
    }
}

/// The opcode table: the entry of each of the legal opcodes, and `None` for the rest.
#[verifier::opaque]
pub open spec fn instruction_of(code: u8) -> Option<Instruction> {
    match code {
        0x00 => Some(Instruction { address: 0x00, name: OpName::BRK, bytes: 1, cycles: 7, mode: Addressing::Implied }),
        0x01 => Some(Instruction { address: 0x01, name: OpName::ORA, bytes: 2, cycles: 6, mode: Addressing::IndirectX }),
        0x05 => Some(Instruction { address: 0x05, name: OpName::ORA, bytes: 2, cycles: 3, mode: Addressing::ZeroPage }),
        0x06 => Some(Instruction { address: 0x06, name: OpName::ASL, bytes: 2, cycles: 5, mode: Addressing::ZeroPage }),
        0x08 => Some(Instruction { address: 0x08, name: OpName::PHP, bytes: 1, cycles: 3, mode: Addressing::Implied }),
        0x09 => Some(Instruction { address: 0x09, name: OpName::ORA, bytes: 2, cycles: 2, mode: Addressing::Immediate }),
        0x0A => Some(Instruction { address: 0x0A, name: OpName::ASL_A, bytes: 1, cycles: 2, mode: Addressing::Implied }),
        0x0D => Some(Instruction { address: 0x0D, name: OpName::ORA, bytes: 3, cycles: 4, mode: Addressing::Absolute }),
        0x0E => Some(Instruction { address: 0x0E, name: OpName::ASL, bytes: 3, cycles: 6, mode: Addressing::Absolute }),
        0x10 => Some(Instruction { address: 0x10, name: OpName::BPL, bytes: 2, cycles: 2, mode: Addressing::Implied }),
        0x11 => Some(Instruction { address: 0x11, name: OpName::ORA, bytes: 2, cycles: 5, mode: Addressing::IndirectY }),
        0x15 => Some(Instruction { address: 0x15, name: OpName::ORA, bytes: 2, cycles: 4, mode: Addressing::ZeroPageX }),
        0x16 => Some(Instruction { address: 0x16, name: OpName::ASL, bytes: 2, cycles: 6, mode: Addressing::ZeroPageX }),
        0x18 => Some(Instruction { address: 0x18, name: OpName::CLC, bytes: 1, cycles: 2, mode: Addressing::Implied }),
        0x19 => Some(Instruction { address: 0x19, name: OpName::ORA, bytes: 3, cycles: 4, mode: Addressing::AbsoluteY }),
        0x1D => Some(Instruction { address: 0x1D, name: OpName::ORA, bytes: 3, cycles: 4, mode: Addressing::AbsoluteX }),
        0x1E => Some(Instruction { address: 0x1E, name: OpName::ASL, bytes: 3, cycles: 7, mode: Addressing::AbsoluteX }),
        0x20 => Some(Instruction { address: 0x20, name: OpName::JSR, bytes: 3, cycles: 6, mode: Addressing::Implied }),
        0x21 => Some(Instruction { address: 0x21, name: OpName::AND, bytes: 2, cycles: 6, mode: Addressing::IndirectX }),
        0x24 => Some(Instruction { address: 0x24, name: OpName::BIT, bytes: 2, cycles: 3, mode: Addressing::ZeroPage }),
        0x25 => Some(Instruction { address: 0x25, name: OpName::AND, bytes: 2, cycles: 3, mode: Addressing::ZeroPage }),
        0x26 => Some(Instruction { address: 0x26, name: OpName::ROL, bytes: 2, cycles: 5, mode: Addressing::ZeroPage }),
        0x28 => Some(Instruction { address: 0x28, name: OpName::PLP, bytes: 1, cycles: 4, mode: Addressing::Implied }),
        0x29 => Some(Instruction { address: 0x29, name: OpName::AND, bytes: 2, cycles: 2, mode: Addressing::Immediate }),
        0x2A => Some(Instruction { address: 0x2A, name: OpName::ROL_A, bytes: 1, cycles: 2, mode: Addressing::Implied }),
        0x2C => Some(Instruction { address: 0x2C, name: OpName::BIT, bytes: 3, cycles: 4, mode: Addressing::Absolute }),
        0x2D => Some(Instruction { address: 0x2D, name: OpName::AND, bytes: 3, cycles: 4, mode: Addressing::Absolute }),
        0x2E => Some(Instruction { address: 0x2E, name: OpName::ROL, bytes: 3, cycles: 6, mode: Addressing::Absolute }),
        0x30 => Some(Instruction { address: 0x30, name: OpName::BMI, bytes: 2, cycles: 2, mode: Addressing::Implied }),
        0x31 => Some(Instruction { address: 0x31, name: OpName::AND, bytes: 2, cycles: 5, mode: Addressing::IndirectY }),
        0x35 => Some(Instruction { address: 0x35, name: OpName::AND, bytes: 2, cycles: 4, mode: Addressing::ZeroPageX }),
        0x36 => Some(Instruction { address: 0x36, name: OpName::ROL, bytes: 2, cycles: 6, mode: Addressing::ZeroPageX }),
        0x38 => Some(Instruction { address: 0x38, name: OpName::SEC, bytes: 1, cycles: 2, mode: Addressing::Implied }),
        0x39 => Some(Instruction { address: 0x39, name: OpName::AND, bytes: 3, cycles: 4, mode: Addressing::AbsoluteY }),
        0x3D => Some(Instruction { address: 0x3D, name: OpName::AND, bytes: 3, cycles: 4, mode: Addressing::AbsoluteX }),
        0x3E => Some(Instruction { address: 0x3E, name: OpName::ROL, bytes: 3, cycles: 7, mode: Addressing::AbsoluteX }),
        0x40 => Some(Instruction { address: 0x40, name: OpName::RTI, bytes: 1, cycles: 6, mode: Addressing::Implied }),
        0x41 => Some(Instruction { address: 0x41, name: OpName::EOR, bytes: 2, cycles: 6, mode: Addressing::IndirectX }),
        0x45 => Some(Instruction { address: 0x45, name: OpName::EOR, bytes: 2, cycles: 3, mode: Addressing::ZeroPage }),
        0x46 => Some(Instruction { address: 0x46, name: OpName::LSR, bytes: 2, cycles: 5, mode: Addressing::ZeroPage }),
        0x48 => Some(Instruction { address: 0x48, name: OpName::PHA, bytes: 1, cycles: 3, mode: Addressing::Implied }),
        0x49 => Some(Instruction { address: 0x49, name: OpName::EOR, bytes: 2, cycles: 2, mode: Addressing::Immediate }),
        0x4A => Some(Instruction { address: 0x4A, name: OpName::LSR_A, bytes: 1, cycles: 2, mode: Addressing::Implied }),
        0x4C => Some(Instruction { address: 0x4C, name: OpName::JMP_ABS, bytes: 3, cycles: 3, mode: Addressing::Implied }),
        0x4D => Some(Instruction { address: 0x4D, name: OpName::EOR, bytes: 3, cycles: 4, mode: Addressing::Absolute }),
        0x4E => Some(Instruction { address: 0x4E, name: OpName::LSR, bytes: 3, cycles: 6, mode: Addressing::Absolute }),
        0x50 => Some(Instruction { address: 0x50, name: OpName::BVC, bytes: 2, cycles: 2, mode: Addressing::Implied }),
        0x51 => Some(Instruction { address: 0x51, name: OpName::EOR, bytes: 2, cycles: 5, mode: Addressing::IndirectY }),
        0x55 => Some(Instruction { address: 0x55, name: OpName::EOR, bytes: 2, cycles: 4, mode: Addressing::ZeroPageX }),
        0x56 => Some(Instruction { address: 0x56, name: OpName::LSR, bytes: 2, cycles: 6, mode: Addressing::ZeroPageX }),
        0x58 => Some(Instruction { address: 0x58, name: OpName::CLI, bytes: 1, cycles: 2, mode: Addressing::Implied }),
        0x59 => Some(Instruction { address: 0x59, name: OpName::EOR, bytes: 3, cycles: 4, mode: Addressing::AbsoluteY }),
        0x5D => Some(Instruction { address: 0x5D, name: OpName::EOR, bytes: 3, cycles: 4, mode: Addressing::AbsoluteX }),
        0x5E => Some(Instruction { address: 0x5E, name: OpName::LSR, bytes: 3, cycles: 7, mode: Addressing::AbsoluteX }),
        0x60 => Some(Instruction { address: 0x60, name: OpName::RTS, bytes: 1, cycles: 6, mode: Addressing::Implied }),
        0x61 => Some(Instruction { address: 0x61, name: OpName::ADC, bytes: 2, cycles: 6, mode: Addressing::IndirectX }),
        0x65 => Some(Instruction { address: 0x65, name: OpName::ADC, bytes: 2, cycles: 3, mode: Addressing::ZeroPage }),
        0x66 => Some(Instruction { address: 0x66, name: OpName::ROR, bytes: 2, cycles: 5, mode: Addressing::ZeroPage }),
        0x68 => Some(Instruction { address: 0x68, name: OpName::PLA, bytes: 1, cycles: 4, mode: Addressing::Implied }),
        0x69 => Some(Instruction { address: 0x69, name: OpName::ADC, bytes: 2, cycles: 2, mode: Addressing::Immediate }),
        0x6A => Some(Instruction { address: 0x6A, name: OpName::ROR_A, bytes: 1, cycles: 2, mode: Addressing::Implied }),
        0x6C => Some(Instruction { address: 0x6C, name: OpName::JMP_IND, bytes: 3, cycles: 5, mode: Addressing::Implied }),
        0x6D => Some(Instruction { address: 0x6D, name: OpName::ADC, bytes: 3, cycles: 4, mode: Addressing::Absolute }),
        0x6E => Some(Instruction { address: 0x6E, name: OpName::ROR, bytes: 3, cycles: 6, mode: Addressing::Absolute }),
        0x70 => Some(Instruction { address: 0x70, name: OpName::BVS, bytes: 2, cycles: 2, mode: Addressing::Implied }),
        0x71 => Some(Instruction { address: 0x71, name: OpName::ADC, bytes: 2, cycles: 5, mode: Addressing::IndirectY }),
        0x75 => Some(Instruction { address: 0x75, name: OpName::ADC, bytes: 2, cycles: 4, mode: Addressing::ZeroPageX }),
        0x76 => Some(Instruction { address: 0x76, name: OpName::ROR, bytes: 2, cycles: 6, mode: Addressing::ZeroPageX }),
        0x78 => Some(Instruction { address: 0x78, name: OpName::SEI, bytes: 1, cycles: 2, mode: Addressing::Implied }),
        0x79 => Some(Instruction { address: 0x79, name: OpName::ADC, bytes: 3, cycles: 4, mode: Addressing::AbsoluteY }),
        0x7D => Some(Instruction { address: 0x7D, name: OpName::ADC, bytes: 3, cycles: 4, mode: Addressing::AbsoluteX }),
        0x7E => Some(Instruction { address: 0x7E, name: OpName::ROR, bytes: 3, cycles: 7, mode: Addressing::AbsoluteX }),
        0x81 => Some(Instruction { address: 0x81, name: OpName::STA, bytes: 2, cycles: 6, mode: Addressing::IndirectX }),
        0x84 => Some(Instruction { address: 0x84, name: OpName::STY, bytes: 2, cycles: 3, mode: Addressing::ZeroPage }),
        0x85 => Some(Instruction { address: 0x85, name: OpName::STA, bytes: 2, cycles: 3, mode: Addressing::ZeroPage }),
        0x86 => Some(Instruction { address: 0x86, name: OpName::STX, bytes: 2, cycles: 3, mode: Addressing::ZeroPage }),
        0x88 => Some(Instruction { address: 0x88, name: OpName::DEY, bytes: 1, cycles: 2, mode: Addressing::Implied }),
        0x8A => Some(Instruction { address: 0x8A, name: OpName::TXA, bytes: 1, cycles: 2, mode: Addressing::Implied }),
        0x8C => Some(Instruction { address: 0x8C, name: OpName::STY, bytes: 3, cycles: 4, mode: Addressing::Absolute }),
        0x8D => Some(Instruction { address: 0x8D, name: OpName::STA, bytes: 3, cycles: 4, mode: Addressing::Absolute }),
        0x8E => Some(Instruction { address: 0x8E, name: OpName::STX, bytes: 3, cycles: 4, mode: Addressing::Absolute }),
        0x90 => Some(Instruction { address: 0x90, name: OpName::BCC, bytes: 2, cycles: 2, mode: Addressing::Implied }),
        0x91 => Some(Instruction { address: 0x91, name: OpName::STA, bytes: 2, cycles: 6, mode: Addressing::IndirectY }),
        0x94 => Some(Instruction { address: 0x94, name: OpName::STY, bytes: 2, cycles: 4, mode: Addressing::ZeroPageX }),
        0x95 => Some(Instruction { address: 0x95, name: OpName::STA, bytes: 2, cycles: 4, mode: Addressing::ZeroPageX }),
        0x96 => Some(Instruction { address: 0x96, name: OpName::STX, bytes: 2, cycles: 4, mode: Addressing::ZeroPageY }),
        0x98 => Some(Instruction { address: 0x98, name: OpName::TYA, bytes: 1, cycles: 2, mode: Addressing::Implied }),
        0x99 => Some(Instruction { address: 0x99, name: OpName::STA, bytes: 3, cycles: 5, mode: Addressing::AbsoluteY }),
        0x9A => Some(Instruction { address: 0x9A, name: OpName::TXS, bytes: 1, cycles: 2, mode: Addressing::Implied }),
        0x9D => Some(Instruction { address: 0x9D, name: OpName::STA, bytes: 3, cycles: 5, mode: Addressing::AbsoluteX }),
        0xA0 => Some(Instruction { address: 0xA0, name: OpName::LDY, bytes: 2, cycles: 2, mode: Addressing::Immediate }),
        0xA1 => Some(Instruction { address: 0xA1, name: OpName::LDA, bytes: 2, cycles: 6, mode: Addressing::IndirectX }),
        0xA2 => Some(Instruction { address: 0xA2, name: OpName::LDX, bytes: 2, cycles: 2, mode: Addressing::Immediate }),
        0xA4 => Some(Instruction { address: 0xA4, name: OpName::LDY, bytes: 2, cycles: 3, mode: Addressing::ZeroPage }),
        0xA5 => Some(Instruction { address: 0xA5, name: OpName::LDA, bytes: 2, cycles: 3, mode: Addressing::ZeroPage }),
        0xA6 => Some(Instruction { address: 0xA6, name: OpName::LDX, bytes: 2, cycles: 3, mode: Addressing::ZeroPage }),
        0xA8 => Some(Instruction { address: 0xA8, name: OpName::TAY, bytes: 1, cycles: 2, mode: Addressing::Implied }),
        0xA9 => Some(Instruction { address: 0xA9, name: OpName::LDA, bytes: 2, cycles: 2, mode: Addressing::Immediate }),
        0xAA => Some(Instruction { address: 0xAA, name: OpName::TAX, bytes: 1, cycles: 2, mode: Addressing::Implied }),
        0xAC => Some(Instruction { address: 0xAC, name: OpName::LDY, bytes: 3, cycles: 4, mode: Addressing::Absolute }),
        0xAD => Some(Instruction { address: 0xAD, name: OpName::LDA, bytes: 3, cycles: 4, mode: Addressing::Absolute }),
        0xAE => Some(Instruction { address: 0xAE, name: OpName::LDX, bytes: 3, cycles: 4, mode: Addressing::Absolute }),
        0xB0 => Some(Instruction { address: 0xB0, name: OpName::BCS, bytes: 2, cycles: 2, mode: Addressing::Implied }),
        0xB1 => Some(Instruction { address: 0xB1, name: OpName::LDA, bytes: 2, cycles: 5, mode: Addressing::IndirectY }),
        0xB4 => Some(Instruction { address: 0xB4, name: OpName::LDY, bytes: 2, cycles: 4, mode: Addressing::ZeroPageX }),
        0xB5 => Some(Instruction { address: 0xB5, name: OpName::LDA, bytes: 2, cycles: 4, mode: Addressing::ZeroPageX }),
        0xB6 => Some(Instruction { address: 0xB6, name: OpName::LDX, bytes: 2, cycles: 4, mode: Addressing::ZeroPageY }),
        0xB8 => Some(Instruction { address: 0xB8, name: OpName::CLV, bytes: 1, cycles: 2, mode: Addressing::Implied }),
        0xB9 => Some(Instruction { address: 0xB9, name: OpName::LDA, bytes: 3, cycles: 4, mode: Addressing::AbsoluteY }),
        0xBA => Some(Instruction { address: 0xBA, name: OpName::TSX, bytes: 1, cycles: 2, mode: Addressing::Implied }),
        0xBC => Some(Instruction { address: 0xBC, name: OpName::LDY, bytes: 3, cycles: 4, mode: Addressing::AbsoluteX }),
        0xBD => Some(Instruction { address: 0xBD, name: OpName::LDA, bytes: 3, cycles: 4, mode: Addressing::AbsoluteX }),
        0xBE => Some(Instruction { address: 0xBE, name: OpName::LDX, bytes: 3, cycles: 4, mode: Addressing::AbsoluteY }),
        0xC0 => Some(Instruction { address: 0xC0, name: OpName::CPY, bytes: 2, cycles: 2, mode: Addressing::Immediate }),
        0xC1 => Some(Instruction { address: 0xC1, name: OpName::CMP, bytes: 2, cycles: 6, mode: Addressing::IndirectX }),
        0xC4 => Some(Instruction { address: 0xC4, name: OpName::CPY, bytes: 2, cycles: 3, mode: Addressing::ZeroPage }),
        0xC5 => Some(Instruction { address: 0xC5, name: OpName::CMP, bytes: 2, cycles: 3, mode: Addressing::ZeroPage }),
        0xC6 => Some(Instruction { address: 0xC6, name: OpName::DEC, bytes: 2, cycles: 5, mode: Addressing::ZeroPage }),
        0xC8 => Some(Instruction { address: 0xC8, name: OpName::INY, bytes: 1, cycles: 2, mode: Addressing::Implied }),
        0xC9 => Some(Instruction { address: 0xC9, name: OpName::CMP, bytes: 2, cycles: 2, mode: Addressing::Immediate }),
        0xCA => Some(Instruction { address: 0xCA, name: OpName::DEX, bytes: 1, cycles: 2, mode: Addressing::Implied }),
        0xCC => Some(Instruction { address: 0xCC, name: OpName::CPY, bytes: 3, cycles: 4, mode: Addressing::Absolute }),
        0xCD => Some(Instruction { address: 0xCD, name: OpName::CMP, bytes: 3, cycles: 4, mode: Addressing::Absolute }),
        0xCE => Some(Instruction { address: 0xCE, name: OpName::DEC, bytes: 3, cycles: 6, mode: Addressing::Absolute }),
        0xD0 => Some(Instruction { address: 0xD0, name: OpName::BNE, bytes: 2, cycles: 2, mode: Addressing::Implied }),
        0xD1 => Some(Instruction { address: 0xD1, name: OpName::CMP, bytes: 2, cycles: 5, mode: Addressing::IndirectY }),
        0xD5 => Some(Instruction { address: 0xD5, name: OpName::CMP, bytes: 2, cycles: 4, mode: Addressing::ZeroPageX }),
        0xD6 => Some(Instruction { address: 0xD6, name: OpName::DEC, bytes: 2, cycles: 6, mode: Addressing::ZeroPageX }),
        0xD8 => Some(Instruction { address: 0xD8, name: OpName::CLD, bytes: 1, cycles: 2, mode: Addressing::Implied }),
        0xD9 => Some(Instruction { address: 0xD9, name: OpName::CMP, bytes: 3, cycles: 4, mode: Addressing::AbsoluteY }),
        0xDD => Some(Instruction { address: 0xDD, name: OpName::CMP, bytes: 3, cycles: 4, mode: Addressing::AbsoluteX }),
        0xDE => Some(Instruction { address: 0xDE, name: OpName::DEC, bytes: 3, cycles: 7, mode: Addressing::AbsoluteX }),
        0xE0 => Some(Instruction { address: 0xE0, name: OpName::CPX, bytes: 2, cycles: 2, mode: Addressing::Immediate }),
        0xE1 => Some(Instruction { address: 0xE1, name: OpName::SBC, bytes: 2, cycles: 6, mode: Addressing::IndirectX }),
        0xE4 => Some(Instruction { address: 0xE4, name: OpName::CPX, bytes: 2, cycles: 3, mode: Addressing::ZeroPage }),
        0xE5 => Some(Instruction { address: 0xE5, name: OpName::SBC, bytes: 2, cycles: 3, mode: Addressing::ZeroPage }),
        0xE6 => Some(Instruction { address: 0xE6, name: OpName::INC, bytes: 2, cycles: 5, mode: Addressing::ZeroPage }),
        0xE8 => Some(Instruction { address: 0xE8, name: OpName::INX, bytes: 1, cycles: 2, mode: Addressing::Implied }),
        0xE9 => Some(Instruction { address: 0xE9, name: OpName::SBC, bytes: 2, cycles: 2, mode: Addressing::Immediate }),
        0xEA => Some(Instruction { address: 0xEA, name: OpName::NOP, bytes: 1, cycles: 2, mode: Addressing::Implied }),
        0xEC => Some(Instruction { address: 0xEC, name: OpName::CPX, bytes: 3, cycles: 4, mode: Addressing::Absolute }),
        0xED => Some(Instruction { address: 0xED, name: OpName::SBC, bytes: 3, cycles: 4, mode: Addressing::Absolute }),
        0xEE => Some(Instruction { address: 0xEE, name: OpName::INC, bytes: 3, cycles: 6, mode: Addressing::Absolute }),
        0xF0 => Some(Instruction { address: 0xF0, name: OpName::BEQ, bytes: 2, cycles: 2, mode: Addressing::Implied }),
        0xF1 => Some(Instruction { address: 0xF1, name: OpName::SBC, bytes: 2, cycles: 5, mode: Addressing::IndirectY }),
        0xF5 => Some(Instruction { address: 0xF5, name: OpName::SBC, bytes: 2, cycles: 4, mode: Addressing::ZeroPageX }),
        0xF6 => Some(Instruction { address: 0xF6, name: OpName::INC, bytes: 2, cycles: 6, mode: Addressing::ZeroPageX }),
        0xF8 => Some(Instruction { address: 0xF8, name: OpName::SED, bytes: 1, cycles: 2, mode: Addressing::Implied }),
        0xF9 => Some(Instruction { address: 0xF9, name: OpName::SBC, bytes: 3, cycles: 4, mode: Addressing::AbsoluteY }),
        0xFD => Some(Instruction { address: 0xFD, name: OpName::SBC, bytes: 3, cycles: 4, mode: Addressing::AbsoluteX }),
        0xFE => Some(Instruction { address: 0xFE, name: OpName::INC, bytes: 3, cycles: 7, mode: Addressing::AbsoluteX }),
        _ => None,
    }
}

/// Looks an opcode up in the table.
pub fn decode(code: u8) -> (r: Option<Instruction>)
    ensures
        r == instruction_of(code),
        r matches Some(i) ==> 1 <= i.bytes <= 3 && i.cycles <= 7 && i.address == code,
{
    reveal(instruction_of);
    match code {
        0x00 => Some(Instruction { address: 0x00, name: OpName::BRK, bytes: 1, cycles: 7, mode: Addressing::Implied }),
        0x01 => Some(Instruction { address: 0x01, name: OpName::ORA, bytes: 2, cycles: 6, mode: Addressing::IndirectX }),
        0x05 => Some(Instruction { address: 0x05, name: OpName::ORA, bytes: 2, cycles: 3, mode: Addressing::ZeroPage }),
        0x06 => Some(Instruction { address: 0x06, name: OpName::ASL, bytes: 2, cycles: 5, mode: Addressing::ZeroPage }),
        0x08 => Some(Instruction { address: 0x08, name: OpName::PHP, bytes: 1, cycles: 3, mode: Addressing::Implied }),
        0x09 => Some(Instruction { address: 0x09, name: OpName::ORA, bytes: 2, cycles: 2, mode: Addressing::Immediate }),
        0x0A => Some(Instruction { address: 0x0A, name: OpName::ASL_A, bytes: 1, cycles: 2, mode: Addressing::Implied }),
        0x0D => Some(Instruction { address: 0x0D, name: OpName::ORA, bytes: 3, cycles: 4, mode: Addressing::Absolute }),
        0x0E => Some(Instruction { address: 0x0E, name: OpName::ASL, bytes: 3, cycles: 6, mode: Addressing::Absolute }),
        0x10 => Some(Instruction { address: 0x10, name: OpName::BPL, bytes: 2, cycles: 2, mode: Addressing::Implied }),
        0x11 => Some(Instruction { address: 0x11, name: OpName::ORA, bytes: 2, cycles: 5, mode: Addressing::IndirectY }),
        0x15 => Some(Instruction { address: 0x15, name: OpName::ORA, bytes: 2, cycles: 4, mode: Addressing::ZeroPageX }),
        0x16 => Some(Instruction { address: 0x16, name: OpName::ASL, bytes: 2, cycles: 6, mode: Addressing::ZeroPageX }),
        0x18 => Some(Instruction { address: 0x18, name: OpName::CLC, bytes: 1, cycles: 2, mode: Addressing::Implied }),
        0x19 => Some(Instruction { address: 0x19, name: OpName::ORA, bytes: 3, cycles: 4, mode: Addressing::AbsoluteY }),
        0x1D => Some(Instruction { address: 0x1D, name: OpName::ORA, bytes: 3, cycles: 4, mode: Addressing::AbsoluteX }),
        0x1E => Some(Instruction { address: 0x1E, name: OpName::ASL, bytes: 3, cycles: 7, mode: Addressing::AbsoluteX }),
        0x20 => Some(Instruction { address: 0x20, name: OpName::JSR, bytes: 3, cycles: 6, mode: Addressing::Implied }),
        0x21 => Some(Instruction { address: 0x21, name: OpName::AND, bytes: 2, cycles: 6, mode: Addressing::IndirectX }),
        0x24 => Some(Instruction { address: 0x24, name: OpName::BIT, bytes: 2, cycles: 3, mode: Addressing::ZeroPage }),
        0x25 => Some(Instruction { address: 0x25, name: OpName::AND, bytes: 2, cycles: 3, mode: Addressing::ZeroPage }),
        0x26 => Some(Instruction { address: 0x26, name: OpName::ROL, bytes: 2, cycles: 5, mode: Addressing::ZeroPage }),
        0x28 => Some(Instruction { address: 0x28, name: OpName::PLP, bytes: 1, cycles: 4, mode: Addressing::Implied }),
        0x29 => Some(Instruction { address: 0x29, name: OpName::AND, bytes: 2, cycles: 2, mode: Addressing::Immediate }),
        0x2A => Some(Instruction { address: 0x2A, name: OpName::ROL_A, bytes: 1, cycles: 2, mode: Addressing::Implied }),
        0x2C => Some(Instruction { address: 0x2C, name: OpName::BIT, bytes: 3, cycles: 4, mode: Addressing::Absolute }),
        0x2D => Some(Instruction { address: 0x2D, name: OpName::AND, bytes: 3, cycles: 4, mode: Addressing::Absolute }),
        0x2E => Some(Instruction { address: 0x2E, name: OpName::ROL, bytes: 3, cycles: 6, mode: Addressing::Absolute }),
        0x30 => Some(Instruction { address: 0x30, name: OpName::BMI, bytes: 2, cycles: 2, mode: Addressing::Implied }),
        0x31 => Some(Instruction { address: 0x31, name: OpName::AND, bytes: 2, cycles: 5, mode: Addressing::IndirectY }),
        0x35 => Some(Instruction { address: 0x35, name: OpName::AND, bytes: 2, cycles: 4, mode: Addressing::ZeroPageX }),
        0x36 => Some(Instruction { address: 0x36, name: OpName::ROL, bytes: 2, cycles: 6, mode: Addressing::ZeroPageX }),
        0x38 => Some(Instruction { address: 0x38, name: OpName::SEC, bytes: 1, cycles: 2, mode: Addressing::Implied }),
        0x39 => Some(Instruction { address: 0x39, name: OpName::AND, bytes: 3, cycles: 4, mode: Addressing::AbsoluteY }),
        0x3D => Some(Instruction { address: 0x3D, name: OpName::AND, bytes: 3, cycles: 4, mode: Addressing::AbsoluteX }),
        0x3E => Some(Instruction { address: 0x3E, name: OpName::ROL, bytes: 3, cycles: 7, mode: Addressing::AbsoluteX }),
        0x40 => Some(Instruction { address: 0x40, name: OpName::RTI, bytes: 1, cycles: 6, mode: Addressing::Implied }),
        0x41 => Some(Instruction { address: 0x41, name: OpName::EOR, bytes: 2, cycles: 6, mode: Addressing::IndirectX }),
        0x45 => Some(Instruction { address: 0x45, name: OpName::EOR, bytes: 2, cycles: 3, mode: Addressing::ZeroPage }),
        0x46 => Some(Instruction { address: 0x46, name: OpName::LSR, bytes: 2, cycles: 5, mode: Addressing::ZeroPage }),
        0x48 => Some(Instruction { address: 0x48, name: OpName::PHA, bytes: 1, cycles: 3, mode: Addressing::Implied }),
        0x49 => Some(Instruction { address: 0x49, name: OpName::EOR, bytes: 2, cycles: 2, mode: Addressing::Immediate }),
        0x4A => Some(Instruction { address: 0x4A, name: OpName::LSR_A, bytes: 1, cycles: 2, mode: Addressing::Implied }),
        0x4C => Some(Instruction { address: 0x4C, name: OpName::JMP_ABS, bytes: 3, cycles: 3, mode: Addressing::Implied }),
        0x4D => Some(Instruction { address: 0x4D, name: OpName::EOR, bytes: 3, cycles: 4, mode: Addressing::Absolute }),
        0x4E => Some(Instruction { address: 0x4E, name: OpName::LSR, bytes: 3, cycles: 6, mode: Addressing::Absolute }),
        0x50 => Some(Instruction { address: 0x50, name: OpName::BVC, bytes: 2, cycles: 2, mode: Addressing::Implied }),
        0x51 => Some(Instruction { address: 0x51, name: OpName::EOR, bytes: 2, cycles: 5, mode: Addressing::IndirectY }),
        0x55 => Some(Instruction { address: 0x55, name: OpName::EOR, bytes: 2, cycles: 4, mode: Addressing::ZeroPageX }),
        0x56 => Some(Instruction { address: 0x56, name: OpName::LSR, bytes: 2, cycles: 6, mode: Addressing::ZeroPageX }),
        0x58 => Some(Instruction { address: 0x58, name: OpName::CLI, bytes: 1, cycles: 2, mode: Addressing::Implied }),
        0x59 => Some(Instruction { address: 0x59, name: OpName::EOR, bytes: 3, cycles: 4, mode: Addressing::AbsoluteY }),
        0x5D => Some(Instruction { address: 0x5D, name: OpName::EOR, bytes: 3, cycles: 4, mode: Addressing::AbsoluteX }),
        0x5E => Some(Instruction { address: 0x5E, name: OpName::LSR, bytes: 3, cycles: 7, mode: Addressing::AbsoluteX }),
        0x60 => Some(Instruction { address: 0x60, name: OpName::RTS, bytes: 1, cycles: 6, mode: Addressing::Implied }),
        0x61 => Some(Instruction { address: 0x61, name: OpName::ADC, bytes: 2, cycles: 6, mode: Addressing::IndirectX }),
        0x65 => Some(Instruction { address: 0x65, name: OpName::ADC, bytes: 2, cycles: 3, mode: Addressing::ZeroPage }),
        0x66 => Some(Instruction { address: 0x66, name: OpName::ROR, bytes: 2, cycles: 5, mode: Addressing::ZeroPage }),
        0x68 => Some(Instruction { address: 0x68, name: OpName::PLA, bytes: 1, cycles: 4, mode: Addressing::Implied }),
        0x69 => Some(Instruction { address: 0x69, name: OpName::ADC, bytes: 2, cycles: 2, mode: Addressing::Immediate }),
        0x6A => Some(Instruction { address: 0x6A, name: OpName::ROR_A, bytes: 1, cycles: 2, mode: Addressing::Implied }),
        0x6C => Some(Instruction { address: 0x6C, name: OpName::JMP_IND, bytes: 3, cycles: 5, mode: Addressing::Implied }),
        0x6D => Some(Instruction { address: 0x6D, name: OpName::ADC, bytes: 3, cycles: 4, mode: Addressing::Absolute }),
        0x6E => Some(Instruction { address: 0x6E, name: OpName::ROR, bytes: 3, cycles: 6, mode: Addressing::Absolute }),
        0x70 => Some(Instruction { address: 0x70, name: OpName::BVS, bytes: 2, cycles: 2, mode: Addressing::Implied }),
        0x71 => Some(Instruction { address: 0x71, name: OpName::ADC, bytes: 2, cycles: 5, mode: Addressing::IndirectY }),
        0x75 => Some(Instruction { address: 0x75, name: OpName::ADC, bytes: 2, cycles: 4, mode: Addressing::ZeroPageX }),
        0x76 => Some(Instruction { address: 0x76, name: OpName::ROR, bytes: 2, cycles: 6, mode: Addressing::ZeroPageX }),
        0x78 => Some(Instruction { address: 0x78, name: OpName::SEI, bytes: 1, cycles: 2, mode: Addressing::Implied }),
        0x79 => Some(Instruction { address: 0x79, name: OpName::ADC, bytes: 3, cycles: 4, mode: Addressing::AbsoluteY }),
        0x7D => Some(Instruction { address: 0x7D, name: OpName::ADC, bytes: 3, cycles: 4, mode: Addressing::AbsoluteX }),
        0x7E => Some(Instruction { address: 0x7E, name: OpName::ROR, bytes: 3, cycles: 7, mode: Addressing::AbsoluteX }),
        0x81 => Some(Instruction { address: 0x81, name: OpName::STA, bytes: 2, cycles: 6, mode: Addressing::IndirectX }),
        0x84 => Some(Instruction { address: 0x84, name: OpName::STY, bytes: 2, cycles: 3, mode: Addressing::ZeroPage }),
        0x85 => Some(Instruction { address: 0x85, name: OpName::STA, bytes: 2, cycles: 3, mode: Addressing::ZeroPage }),
        0x86 => Some(Instruction { address: 0x86, name: OpName::STX, bytes: 2, cycles: 3, mode: Addressing::ZeroPage }),
        0x88 => Some(Instruction { address: 0x88, name: OpName::DEY, bytes: 1, cycles: 2, mode: Addressing::Implied }),
        0x8A => Some(Instruction { address: 0x8A, name: OpName::TXA, bytes: 1, cycles: 2, mode: Addressing::Implied }),
        0x8C => Some(Instruction { address: 0x8C, name: OpName::STY, bytes: 3, cycles: 4, mode: Addressing::Absolute }),
        0x8D => Some(Instruction { address: 0x8D, name: OpName::STA, bytes: 3, cycles: 4, mode: Addressing::Absolute }),
        0x8E => Some(Instruction { address: 0x8E, name: OpName::STX, bytes: 3, cycles: 4, mode: Addressing::Absolute }),
        0x90 => Some(Instruction { address: 0x90, name: OpName::BCC, bytes: 2, cycles: 2, mode: Addressing::Implied }),
        0x91 => Some(Instruction { address: 0x91, name: OpName::STA, bytes: 2, cycles: 6, mode: Addressing::IndirectY }),
        0x94 => Some(Instruction { address: 0x94, name: OpName::STY, bytes: 2, cycles: 4, mode: Addressing::ZeroPageX }),
        0x95 => Some(Instruction { address: 0x95, name: OpName::STA, bytes: 2, cycles: 4, mode: Addressing::ZeroPageX }),
        0x96 => Some(Instruction { address: 0x96, name: OpName::STX, bytes: 2, cycles: 4, mode: Addressing::ZeroPageY }),
        0x98 => Some(Instruction { address: 0x98, name: OpName::TYA, bytes: 1, cycles: 2, mode: Addressing::Implied }),
        0x99 => Some(Instruction { address: 0x99, name: OpName::STA, bytes: 3, cycles: 5, mode: Addressing::AbsoluteY }),
        0x9A => Some(Instruction { address: 0x9A, name: OpName::TXS, bytes: 1, cycles: 2, mode: Addressing::Implied }),
        0x9D => Some(Instruction { address: 0x9D, name: OpName::STA, bytes: 3, cycles: 5, mode: Addressing::AbsoluteX }),
        0xA0 => Some(Instruction { address: 0xA0, name: OpName::LDY, bytes: 2, cycles: 2, mode: Addressing::Immediate }),
        0xA1 => Some(Instruction { address: 0xA1, name: OpName::LDA, bytes: 2, cycles: 6, mode: Addressing::IndirectX }),
        0xA2 => Some(Instruction { address: 0xA2, name: OpName::LDX, bytes: 2, cycles: 2, mode: Addressing::Immediate }),
        0xA4 => Some(Instruction { address: 0xA4, name: OpName::LDY, bytes: 2, cycles: 3, mode: Addressing::ZeroPage }),
        0xA5 => Some(Instruction { address: 0xA5, name: OpName::LDA, bytes: 2, cycles: 3, mode: Addressing::ZeroPage }),
        0xA6 => Some(Instruction { address: 0xA6, name: OpName::LDX, bytes: 2, cycles: 3, mode: Addressing::ZeroPage }),
        0xA8 => Some(Instruction { address: 0xA8, name: OpName::TAY, bytes: 1, cycles: 2, mode: Addressing::Implied }),
        0xA9 => Some(Instruction { address: 0xA9, name: OpName::LDA, bytes: 2, cycles: 2, mode: Addressing::Immediate }),
        0xAA => Some(Instruction { address: 0xAA, name: OpName::TAX, bytes: 1, cycles: 2, mode: Addressing::Implied }),
        0xAC => Some(Instruction { address: 0xAC, name: OpName::LDY, bytes: 3, cycles: 4, mode: Addressing::Absolute }),
        0xAD => Some(Instruction { address: 0xAD, name: OpName::LDA, bytes: 3, cycles: 4, mode: Addressing::Absolute }),
        0xAE => Some(Instruction { address: 0xAE, name: OpName::LDX, bytes: 3, cycles: 4, mode: Addressing::Absolute }),
        0xB0 => Some(Instruction { address: 0xB0, name: OpName::BCS, bytes: 2, cycles: 2, mode: Addressing::Implied }),
        0xB1 => Some(Instruction { address: 0xB1, name: OpName::LDA, bytes: 2, cycles: 5, mode: Addressing::IndirectY }),
        0xB4 => Some(Instruction { address: 0xB4, name: OpName::LDY, bytes: 2, cycles: 4, mode: Addressing::ZeroPageX }),
        0xB5 => Some(Instruction { address: 0xB5, name: OpName::LDA, bytes: 2, cycles: 4, mode: Addressing::ZeroPageX }),
        0xB6 => Some(Instruction { address: 0xB6, name: OpName::LDX, bytes: 2, cycles: 4, mode: Addressing::ZeroPageY }),
        0xB8 => Some(Instruction { address: 0xB8, name: OpName::CLV, bytes: 1, cycles: 2, mode: Addressing::Implied }),
        0xB9 => Some(Instruction { address: 0xB9, name: OpName::LDA, bytes: 3, cycles: 4, mode: Addressing::AbsoluteY }),
        0xBA => Some(Instruction { address: 0xBA, name: OpName::TSX, bytes: 1, cycles: 2, mode: Addressing::Implied }),
        0xBC => Some(Instruction { address: 0xBC, name: OpName::LDY, bytes: 3, cycles: 4, mode: Addressing::AbsoluteX }),
        0xBD => Some(Instruction { address: 0xBD, name: OpName::LDA, bytes: 3, cycles: 4, mode: Addressing::AbsoluteX }),
        0xBE => Some(Instruction { address: 0xBE, name: OpName::LDX, bytes: 3, cycles: 4, mode: Addressing::AbsoluteY }),
        0xC0 => Some(Instruction { address: 0xC0, name: OpName::CPY, bytes: 2, cycles: 2, mode: Addressing::Immediate }),
        0xC1 => Some(Instruction { address: 0xC1, name: OpName::CMP, bytes: 2, cycles: 6, mode: Addressing::IndirectX }),
        0xC4 => Some(Instruction { address: 0xC4, name: OpName::CPY, bytes: 2, cycles: 3, mode: Addressing::ZeroPage }),
        0xC5 => Some(Instruction { address: 0xC5, name: OpName::CMP, bytes: 2, cycles: 3, mode: Addressing::ZeroPage }),
        0xC6 => Some(Instruction { address: 0xC6, name: OpName::DEC, bytes: 2, cycles: 5, mode: Addressing::ZeroPage }),
        0xC8 => Some(Instruction { address: 0xC8, name: OpName::INY, bytes: 1, cycles: 2, mode: Addressing::Implied }),
        0xC9 => Some(Instruction { address: 0xC9, name: OpName::CMP, bytes: 2, cycles: 2, mode: Addressing::Immediate }),
        0xCA => Some(Instruction { address: 0xCA, name: OpName::DEX, bytes: 1, cycles: 2, mode: Addressing::Implied }),
        0xCC => Some(Instruction { address: 0xCC, name: OpName::CPY, bytes: 3, cycles: 4, mode: Addressing::Absolute }),
        0xCD => Some(Instruction { address: 0xCD, name: OpName::CMP, bytes: 3, cycles: 4, mode: Addressing::Absolute }),
        0xCE => Some(Instruction { address: 0xCE, name: OpName::DEC, bytes: 3, cycles: 6, mode: Addressing::Absolute }),
        0xD0 => Some(Instruction { address: 0xD0, name: OpName::BNE, bytes: 2, cycles: 2, mode: Addressing::Implied }),
        0xD1 => Some(Instruction { address: 0xD1, name: OpName::CMP, bytes: 2, cycles: 5, mode: Addressing::IndirectY }),
        0xD5 => Some(Instruction { address: 0xD5, name: OpName::CMP, bytes: 2, cycles: 4, mode: Addressing::ZeroPageX }),
        0xD6 => Some(Instruction { address: 0xD6, name: OpName::DEC, bytes: 2, cycles: 6, mode: Addressing::ZeroPageX }),
        0xD8 => Some(Instruction { address: 0xD8, name: OpName::CLD, bytes: 1, cycles: 2, mode: Addressing::Implied }),
        0xD9 => Some(Instruction { address: 0xD9, name: OpName::CMP, bytes: 3, cycles: 4, mode: Addressing::AbsoluteY }),
        0xDD => Some(Instruction { address: 0xDD, name: OpName::CMP, bytes: 3, cycles: 4, mode: Addressing::AbsoluteX }),
        0xDE => Some(Instruction { address: 0xDE, name: OpName::DEC, bytes: 3, cycles: 7, mode: Addressing::AbsoluteX }),
        0xE0 => Some(Instruction { address: 0xE0, name: OpName::CPX, bytes: 2, cycles: 2, mode: Addressing::Immediate }),
        0xE1 => Some(Instruction { address: 0xE1, name: OpName::SBC, bytes: 2, cycles: 6, mode: Addressing::IndirectX }),
        0xE4 => Some(Instruction { address: 0xE4, name: OpName::CPX, bytes: 2, cycles: 3, mode: Addressing::ZeroPage }),
        0xE5 => Some(Instruction { address: 0xE5, name: OpName::SBC, bytes: 2, cycles: 3, mode: Addressing::ZeroPage }),
        0xE6 => Some(Instruction { address: 0xE6, name: OpName::INC, bytes: 2, cycles: 5, mode: Addressing::ZeroPage }),
        0xE8 => Some(Instruction { address: 0xE8, name: OpName::INX, bytes: 1, cycles: 2, mode: Addressing::Implied }),
        0xE9 => Some(Instruction { address: 0xE9, name: OpName::SBC, bytes: 2, cycles: 2, mode: Addressing::Immediate }),
        0xEA => Some(Instruction { address: 0xEA, name: OpName::NOP, bytes: 1, cycles: 2, mode: Addressing::Implied }),
        0xEC => Some(Instruction { address: 0xEC, name: OpName::CPX, bytes: 3, cycles: 4, mode: Addressing::Absolute }),
        0xED => Some(Instruction { address: 0xED, name: OpName::SBC, bytes: 3, cycles: 4, mode: Addressing::Absolute }),
        0xEE => Some(Instruction { address: 0xEE, name: OpName::INC, bytes: 3, cycles: 6, mode: Addressing::Absolute }),
        0xF0 => Some(Instruction { address: 0xF0, name: OpName::BEQ, bytes: 2, cycles: 2, mode: Addressing::Implied }),
        0xF1 => Some(Instruction { address: 0xF1, name: OpName::SBC, bytes: 2, cycles: 5, mode: Addressing::IndirectY }),
        0xF5 => Some(Instruction { address: 0xF5, name: OpName::SBC, bytes: 2, cycles: 4, mode: Addressing::ZeroPageX }),
        0xF6 => Some(Instruction { address: 0xF6, name: OpName::INC, bytes: 2, cycles: 6, mode: Addressing::ZeroPageX }),
        0xF8 => Some(Instruction { address: 0xF8, name: OpName::SED, bytes: 1, cycles: 2, mode: Addressing::Implied }),
        0xF9 => Some(Instruction { address: 0xF9, name: OpName::SBC, bytes: 3, cycles: 4, mode: Addressing::AbsoluteY }),
        0xFD => Some(Instruction { address: 0xFD, name: OpName::SBC, bytes: 3, cycles: 4, mode: Addressing::AbsoluteX }),
        0xFE => Some(Instruction { address: 0xFE, name: OpName::INC, bytes: 3, cycles: 7, mode: Addressing::AbsoluteX }),
        _ => None,
    }
}

} // verus!
