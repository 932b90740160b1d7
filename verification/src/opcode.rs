use vstd::prelude::*;
use crate::cpu::AddressingMode;

verus! {

/// The instruction mnemonics of the official 6502 instruction set.
#[derive(Clone, Copy, Debug, PartialEq, Eq, Structural)]
pub enum Mnemonic {
    ADC,
    AND,
    ASL,
    BCC,
    BCS,
    BEQ,
    BIT,
    BMI,
    BNE,
    BPL,
    BRK,
    BVC,
    BVS,
    CLC,
    CLD,
    CLI,
    CLV,
    CMP,
    CPX,
    CPY,
    DEC,
    DEX,
    DEY,
    EOR,
    INC,
    INX,
    INY,
    JMP,
    JSR,
    LDA,
    LDX,
    LDY,
    LSR,
    NOP,
    ORA,
    PHA,
    PHP,
    PLA,
    PLP,
    ROL,
    ROR,
    RTI,
    RTS,
    SBC,
    SEC,
    SED,
    SEI,
    STA,
    STX,
    STY,
    TAX,
    TAY,
    TSX,
    TXA,
    TXS,
    TYA,
}

/// One entry of the dense opcode table: the raw opcode byte, its mnemonic,
/// the total instruction length in bytes, the base cycle cost, and the
/// addressing mode (`NoneAddressing` for implied, accumulator, branch and
/// jump forms, which resolve their own operands).
#[derive(Clone, Copy, Debug, PartialEq, Eq, Structural)]
pub struct OpCode {
    pub code: u8,
    pub mnemonic: Mnemonic,
    pub len: u8,
    pub cycles: u8,
    pub mode: AddressingMode,
}

/// The official instruction set as a function of the raw opcode byte; an
/// undefined byte decodes to `None`, which the interpreter reports as a
/// fatal invalid-opcode condition.
pub open spec fn spec_decode(code: u8) -> Option<OpCode> {
    match code {
        0x00 => Some(OpCode { code: 0x00, mnemonic: Mnemonic::BRK, len: 1, cycles: 7, mode: AddressingMode::NoneAddressing }),
        0x01 => Some(OpCode { code: 0x01, mnemonic: Mnemonic::ORA, len: 2, cycles: 6, mode: AddressingMode::Indirect_X }),
        0x05 => Some(OpCode { code: 0x05, mnemonic: Mnemonic::ORA, len: 2, cycles: 3, mode: AddressingMode::ZeroPage }),
        0x06 => Some(OpCode { code: 0x06, mnemonic: Mnemonic::ASL, len: 2, cycles: 5, mode: AddressingMode::ZeroPage }),
        0x08 => Some(OpCode { code: 0x08, mnemonic: Mnemonic::PHP, len: 1, cycles: 3, mode: AddressingMode::NoneAddressing }),
        0x09 => Some(OpCode { code: 0x09, mnemonic: Mnemonic::ORA, len: 2, cycles: 2, mode: AddressingMode::Immediate }),
        0x0A => Some(OpCode { code: 0x0A, mnemonic: Mnemonic::ASL, len: 1, cycles: 2, mode: AddressingMode::NoneAddressing }),
        0x0D => Some(OpCode { code: 0x0D, mnemonic: Mnemonic::ORA, len: 3, cycles: 4, mode: AddressingMode::Absolute }),
        0x0E => Some(OpCode { code: 0x0E, mnemonic: Mnemonic::ASL, len: 3, cycles: 6, mode: AddressingMode::Absolute }),
        0x10 => Some(OpCode { code: 0x10, mnemonic: Mnemonic::BPL, len: 2, cycles: 2, mode: AddressingMode::NoneAddressing }),
        0x11 => Some(OpCode { code: 0x11, mnemonic: Mnemonic::ORA, len: 2, cycles: 5, mode: AddressingMode::Indirect_Y }),
        0x15 => Some(OpCode { code: 0x15, mnemonic: Mnemonic::ORA, len: 2, cycles: 4, mode: AddressingMode::ZeroPage_X }),
        0x16 => Some(OpCode { code: 0x16, mnemonic: Mnemonic::ASL, len: 2, cycles: 6, mode: AddressingMode::ZeroPage_X }),
        0x18 => Some(OpCode { code: 0x18, mnemonic: Mnemonic::CLC, len: 1, cycles: 2, mode: AddressingMode::NoneAddressing }),
        0x19 => Some(OpCode { code: 0x19, mnemonic: Mnemonic::ORA, len: 3, cycles: 4, mode: AddressingMode::Absolute_Y }),
        0x1D => Some(OpCode { code: 0x1D, mnemonic: Mnemonic::ORA, len: 3, cycles: 4, mode: AddressingMode::Absolute_X }),
        0x1E => Some(OpCode { code: 0x1E, mnemonic: Mnemonic::ASL, len: 3, cycles: 7, mode: AddressingMode::Absolute_X }),
        0x20 => Some(OpCode { code: 0x20, mnemonic: Mnemonic::JSR, len: 3, cycles: 6, mode: AddressingMode::NoneAddressing }),
        0x21 => Some(OpCode { code: 0x21, mnemonic: Mnemonic::AND, len: 2, cycles: 6, mode: AddressingMode::Indirect_X }),
        0x24 => Some(OpCode { code: 0x24, mnemonic: Mnemonic::BIT, len: 2, cycles: 3, mode: AddressingMode::ZeroPage }),
        0x25 => Some(OpCode { code: 0x25, mnemonic: Mnemonic::AND, len: 2, cycles: 3, mode: AddressingMode::ZeroPage }),
        0x26 => Some(OpCode { code: 0x26, mnemonic: Mnemonic::ROL, len: 2, cycles: 5, mode: AddressingMode::ZeroPage }),
        0x28 => Some(OpCode { code: 0x28, mnemonic: Mnemonic::PLP, len: 1, cycles: 4, mode: AddressingMode::NoneAddressing }),
        0x29 => Some(OpCode { code: 0x29, mnemonic: Mnemonic::AND, len: 2, cycles: 2, mode: AddressingMode::Immediate }),
        0x2A => Some(OpCode { code: 0x2A, mnemonic: Mnemonic::ROL, len: 1, cycles: 2, mode: AddressingMode::NoneAddressing }),
        0x2C => Some(OpCode { code: 0x2C, mnemonic: Mnemonic::BIT, len: 3, cycles: 4, mode: AddressingMode::Absolute }),
        0x2D => Some(OpCode { code: 0x2D, mnemonic: Mnemonic::AND, len: 3, cycles: 4, mode: AddressingMode::Absolute }),
        0x2E => Some(OpCode { code: 0x2E, mnemonic: Mnemonic::ROL, len: 3, cycles: 6, mode: AddressingMode::Absolute }),
        0x30 => Some(OpCode { code: 0x30, mnemonic: Mnemonic::BMI, len: 2, cycles: 2, mode: AddressingMode::NoneAddressing }),
        0x31 => Some(OpCode { code: 0x31, mnemonic: Mnemonic::AND, len: 2, cycles: 5, mode: AddressingMode::Indirect_Y }),
        0x35 => Some(OpCode { code: 0x35, mnemonic: Mnemonic::AND, len: 2, cycles: 4, mode: AddressingMode::ZeroPage_X }),
        0x36 => Some(OpCode { code: 0x36, mnemonic: Mnemonic::ROL, len: 2, cycles: 6, mode: AddressingMode::ZeroPage_X }),
        0x38 => Some(OpCode { code: 0x38, mnemonic: Mnemonic::SEC, len: 1, cycles: 2, mode: AddressingMode::NoneAddressing }),
        0x39 => Some(OpCode { code: 0x39, mnemonic: Mnemonic::AND, len: 3, cycles: 4, mode: AddressingMode::Absolute_Y }),
        0x3D => Some(OpCode { code: 0x3D, mnemonic: Mnemonic::AND, len: 3, cycles: 4, mode: AddressingMode::Absolute_X }),
        0x3E => Some(OpCode { code: 0x3E, mnemonic: Mnemonic::ROL, len: 3, cycles: 7, mode: AddressingMode::Absolute_X }),
        0x40 => Some(OpCode { code: 0x40, mnemonic: Mnemonic::RTI, len: 1, cycles: 6, mode: AddressingMode::NoneAddressing }),
        0x41 => Some(OpCode { code: 0x41, mnemonic: Mnemonic::EOR, len: 2, cycles: 6, mode: AddressingMode::Indirect_X }),
        0x45 => Some(OpCode { code: 0x45, mnemonic: Mnemonic::EOR, len: 2, cycles: 3, mode: AddressingMode::ZeroPage }),
        0x46 => Some(OpCode { code: 0x46, mnemonic: Mnemonic::LSR, len: 2, cycles: 5, mode: AddressingMode::ZeroPage }),
        0x48 => Some(OpCode { code: 0x48, mnemonic: Mnemonic::PHA, len: 1, cycles: 3, mode: AddressingMode::NoneAddressing }),
        0x49 => Some(OpCode { code: 0x49, mnemonic: Mnemonic::EOR, len: 2, cycles: 2, mode: AddressingMode::Immediate }),
        0x4A => Some(OpCode { code: 0x4A, mnemonic: Mnemonic::LSR, len: 1, cycles: 2, mode: AddressingMode::NoneAddressing }),
        0x4C => Some(OpCode { code: 0x4C, mnemonic: Mnemonic::JMP, len: 3, cycles: 3, mode: AddressingMode::NoneAddressing }),
        0x4D => Some(OpCode { code: 0x4D, mnemonic: Mnemonic::EOR, len: 3, cycles: 4, mode: AddressingMode::Absolute }),
        0x4E => Some(OpCode { code: 0x4E, mnemonic: Mnemonic::LSR, len: 3, cycles: 6, mode: AddressingMode::Absolute }),
        0x50 => Some(OpCode { code: 0x50, mnemonic: Mnemonic::BVC, len: 2, cycles: 2, mode: AddressingMode::NoneAddressing }),
        0x51 => Some(OpCode { code: 0x51, mnemonic: Mnemonic::EOR, len: 2, cycles: 5, mode: AddressingMode::Indirect_Y }),
        0x55 => Some(OpCode { code: 0x55, mnemonic: Mnemonic::EOR, len: 2, cycles: 4, mode: AddressingMode::ZeroPage_X }),
        0x56 => Some(OpCode { code: 0x56, mnemonic: Mnemonic::LSR, len: 2, cycles: 6, mode: AddressingMode::ZeroPage_X }),
        0x58 => Some(OpCode { code: 0x58, mnemonic: Mnemonic::CLI, len: 1, cycles: 2, mode: AddressingMode::NoneAddressing }),
        0x59 => Some(OpCode { code: 0x59, mnemonic: Mnemonic::EOR, len: 3, cycles: 4, mode: AddressingMode::Absolute_Y }),
        0x5D => Some(OpCode { code: 0x5D, mnemonic: Mnemonic::EOR, len: 3, cycles: 4, mode: AddressingMode::Absolute_X }),
        0x5E => Some(OpCode { code: 0x5E, mnemonic: Mnemonic::LSR, len: 3, cycles: 7, mode: AddressingMode::Absolute_X }),
        0x60 => Some(OpCode { code: 0x60, mnemonic: Mnemonic::RTS, len: 1, cycles: 6, mode: AddressingMode::NoneAddressing }),
        0x61 => Some(OpCode { code: 0x61, mnemonic: Mnemonic::ADC, len: 2, cycles: 6, mode: AddressingMode::Indirect_X }),
        0x65 => Some(OpCode { code: 0x65, mnemonic: Mnemonic::ADC, len: 2, cycles: 3, mode: AddressingMode::ZeroPage }),
        0x66 => Some(OpCode { code: 0x66, mnemonic: Mnemonic::ROR, len: 2, cycles: 5, mode: AddressingMode::ZeroPage }),
        0x68 => Some(OpCode { code: 0x68, mnemonic: Mnemonic::PLA, len: 1, cycles: 4, mode: AddressingMode::NoneAddressing }),
        0x69 => Some(OpCode { code: 0x69, mnemonic: Mnemonic::ADC, len: 2, cycles: 2, mode: AddressingMode::Immediate }),
        0x6A => Some(OpCode { code: 0x6A, mnemonic: Mnemonic::ROR, len: 1, cycles: 2, mode: AddressingMode::NoneAddressing }),
        0x6C => Some(OpCode { code: 0x6C, mnemonic: Mnemonic::JMP, len: 3, cycles: 5, mode: AddressingMode::NoneAddressing }),
        0x6D => Some(OpCode { code: 0x6D, mnemonic: Mnemonic::ADC, len: 3, cycles: 4, mode: AddressingMode::Absolute }),
        0x6E => Some(OpCode { code: 0x6E, mnemonic: Mnemonic::ROR, len: 3, cycles: 6, mode: AddressingMode::Absolute }),
        0x70 => Some(OpCode { code: 0x70, mnemonic: Mnemonic::BVS, len: 2, cycles: 2, mode: AddressingMode::NoneAddressing }),
        0x71 => Some(OpCode { code: 0x71, mnemonic: Mnemonic::ADC, len: 2, cycles: 5, mode: AddressingMode::Indirect_Y }),
        0x75 => Some(OpCode { code: 0x75, mnemonic: Mnemonic::ADC, len: 2, cycles: 4, mode: AddressingMode::ZeroPage_X }),
        0x76 => Some(OpCode { code: 0x76, mnemonic: Mnemonic::ROR, len: 2, cycles: 6, mode: AddressingMode::ZeroPage_X }),
        0x78 => Some(OpCode { code: 0x78, mnemonic: Mnemonic::SEI, len: 1, cycles: 2, mode: AddressingMode::NoneAddressing }),
        0x79 => Some(OpCode { code: 0x79, mnemonic: Mnemonic::ADC, len: 3, cycles: 4, mode: AddressingMode::Absolute_Y }),
        0x7D => Some(OpCode { code: 0x7D, mnemonic: Mnemonic::ADC, len: 3, cycles: 4, mode: AddressingMode::Absolute_X }),
        0x7E => Some(OpCode { code: 0x7E, mnemonic: Mnemonic::ROR, len: 3, cycles: 7, mode: AddressingMode::Absolute_X }),
        0x81 => Some(OpCode { code: 0x81, mnemonic: Mnemonic::STA, len: 2, cycles: 6, mode: AddressingMode::Indirect_X }),
        0x84 => Some(OpCode { code: 0x84, mnemonic: Mnemonic::STY, len: 2, cycles: 3, mode: AddressingMode::ZeroPage }),
        0x85 => Some(OpCode { code: 0x85, mnemonic: Mnemonic::STA, len: 2, cycles: 3, mode: AddressingMode::ZeroPage }),
        0x86 => Some(OpCode { code: 0x86, mnemonic: Mnemonic::STX, len: 2, cycles: 3, mode: AddressingMode::ZeroPage }),
        0x88 => Some(OpCode { code: 0x88, mnemonic: Mnemonic::DEY, len: 1, cycles: 2, mode: AddressingMode::NoneAddressing }),
        0x8A => Some(OpCode { code: 0x8A, mnemonic: Mnemonic::TXA, len: 1, cycles: 2, mode: AddressingMode::NoneAddressing }),
        0x8C => Some(OpCode { code: 0x8C, mnemonic: Mnemonic::STY, len: 3, cycles: 4, mode: AddressingMode::Absolute }),
        0x8D => Some(OpCode { code: 0x8D, mnemonic: Mnemonic::STA, len: 3, cycles: 4, mode: AddressingMode::Absolute }),
        0x8E => Some(OpCode { code: 0x8E, mnemonic: Mnemonic::STX, len: 3, cycles: 4, mode: AddressingMode::Absolute }),
        0x90 => Some(OpCode { code: 0x90, mnemonic: Mnemonic::BCC, len: 2, cycles: 2, mode: AddressingMode::NoneAddressing }),
        0x91 => Some(OpCode { code: 0x91, mnemonic: Mnemonic::STA, len: 2, cycles: 6, mode: AddressingMode::Indirect_Y }),
        0x94 => Some(OpCode { code: 0x94, mnemonic: Mnemonic::STY, len: 2, cycles: 4, mode: AddressingMode::ZeroPage_X }),
        0x95 => Some(OpCode { code: 0x95, mnemonic: Mnemonic::STA, len: 2, cycles: 4, mode: AddressingMode::ZeroPage_X }),
        0x96 => Some(OpCode { code: 0x96, mnemonic: Mnemonic::STX, len: 2, cycles: 4, mode: AddressingMode::ZeroPage_Y }),
        0x98 => Some(OpCode { code: 0x98, mnemonic: Mnemonic::TYA, len: 1, cycles: 2, mode: AddressingMode::NoneAddressing }),
        0x99 => Some(OpCode { code: 0x99, mnemonic: Mnemonic::STA, len: 3, cycles: 5, mode: AddressingMode::Absolute_Y }),
        0x9A => Some(OpCode { code: 0x9A, mnemonic: Mnemonic::TXS, len: 1, cycles: 2, mode: AddressingMode::NoneAddressing }),
        0x9D => Some(OpCode { code: 0x9D, mnemonic: Mnemonic::STA, len: 3, cycles: 5, mode: AddressingMode::Absolute_X }),
        0xA0 => Some(OpCode { code: 0xA0, mnemonic: Mnemonic::LDY, len: 2, cycles: 2, mode: AddressingMode::Immediate }),
        0xA1 => Some(OpCode { code: 0xA1, mnemonic: Mnemonic::LDA, len: 2, cycles: 6, mode: AddressingMode::Indirect_X }),
        0xA2 => Some(OpCode { code: 0xA2, mnemonic: Mnemonic::LDX, len: 2, cycles: 2, mode: AddressingMode::Immediate }),
        0xA4 => Some(OpCode { code: 0xA4, mnemonic: Mnemonic::LDY, len: 2, cycles: 3, mode: AddressingMode::ZeroPage }),
        0xA5 => Some(OpCode { code: 0xA5, mnemonic: Mnemonic::LDA, len: 2, cycles: 3, mode: AddressingMode::ZeroPage }),
        0xA6 => Some(OpCode { code: 0xA6, mnemonic: Mnemonic::LDX, len: 2, cycles: 3, mode: AddressingMode::ZeroPage }),
        0xA8 => Some(OpCode { code: 0xA8, mnemonic: Mnemonic::TAY, len: 1, cycles: 2, mode: AddressingMode::NoneAddressing }),
        0xA9 => Some(OpCode { code: 0xA9, mnemonic: Mnemonic::LDA, len: 2, cycles: 2, mode: AddressingMode::Immediate }),
        0xAA => Some(OpCode { code: 0xAA, mnemonic: Mnemonic::TAX, len: 1, cycles: 2, mode: AddressingMode::NoneAddressing }),
        0xAC => Some(OpCode { code: 0xAC, mnemonic: Mnemonic::LDY, len: 3, cycles: 4, mode: AddressingMode::Absolute }),
        0xAD => Some(OpCode { code: 0xAD, mnemonic: Mnemonic::LDA, len: 3, cycles: 4, mode: AddressingMode::Absolute }),
        0xAE => Some(OpCode { code: 0xAE, mnemonic: Mnemonic::LDX, len: 3, cycles: 4, mode: AddressingMode::Absolute }),
        0xB0 => Some(OpCode { code: 0xB0, mnemonic: Mnemonic::BCS, len: 2, cycles: 2, mode: AddressingMode::NoneAddressing }),
        0xB1 => Some(OpCode { code: 0xB1, mnemonic: Mnemonic::LDA, len: 2, cycles: 5, mode: AddressingMode::Indirect_Y }),
        0xB4 => Some(OpCode { code: 0xB4, mnemonic: Mnemonic::LDY, len: 2, cycles: 4, mode: AddressingMode::ZeroPage_X }),
        0xB5 => Some(OpCode { code: 0xB5, mnemonic: Mnemonic::LDA, len: 2, cycles: 4, mode: AddressingMode::ZeroPage_X }),
        0xB6 => Some(OpCode { code: 0xB6, mnemonic: Mnemonic::LDX, len: 2, cycles: 4, mode: AddressingMode::ZeroPage_Y }),
        0xB8 => Some(OpCode { code: 0xB8, mnemonic: Mnemonic::CLV, len: 1, cycles: 2, mode: AddressingMode::NoneAddressing }),
        0xB9 => Some(OpCode { code: 0xB9, mnemonic: Mnemonic::LDA, len: 3, cycles: 4, mode: AddressingMode::Absolute_Y }),
        0xBA => Some(OpCode { code: 0xBA, mnemonic: Mnemonic::TSX, len: 1, cycles: 2, mode: AddressingMode::NoneAddressing }),
        0xBC => Some(OpCode { code: 0xBC, mnemonic: Mnemonic::LDY, len: 3, cycles: 4, mode: AddressingMode::Absolute_X }),
        0xBD => Some(OpCode { code: 0xBD, mnemonic: Mnemonic::LDA, len: 3, cycles: 4, mode: AddressingMode::Absolute_X }),
        0xBE => Some(OpCode { code: 0xBE, mnemonic: Mnemonic::LDX, len: 3, cycles: 4, mode: AddressingMode::Absolute_Y }),
        0xC0 => Some(OpCode { code: 0xC0, mnemonic: Mnemonic::CPY, len: 2, cycles: 2, mode: AddressingMode::Immediate }),
        0xC1 => Some(OpCode { code: 0xC1, mnemonic: Mnemonic::CMP, len: 2, cycles: 6, mode: AddressingMode::Indirect_X }),
        0xC4 => Some(OpCode { code: 0xC4, mnemonic: Mnemonic::CPY, len: 2, cycles: 3, mode: AddressingMode::ZeroPage }),
        0xC5 => Some(OpCode { code: 0xC5, mnemonic: Mnemonic::CMP, len: 2, cycles: 3, mode: AddressingMode::ZeroPage }),
        0xC6 => Some(OpCode { code: 0xC6, mnemonic: Mnemonic::DEC, len: 2, cycles: 5, mode: AddressingMode::ZeroPage }),
        0xC8 => Some(OpCode { code: 0xC8, mnemonic: Mnemonic::INY, len: 1, cycles: 2, mode: AddressingMode::NoneAddressing }),
        0xC9 => Some(OpCode { code: 0xC9, mnemonic: Mnemonic::CMP, len: 2, cycles: 2, mode: AddressingMode::Immediate }),
        0xCA => Some(OpCode { code: 0xCA, mnemonic: Mnemonic::DEX, len: 1, cycles: 2, mode: AddressingMode::NoneAddressing }),
        0xCC => Some(OpCode { code: 0xCC, mnemonic: Mnemonic::CPY, len: 3, cycles: 4, mode: AddressingMode::Absolute }),
        0xCD => Some(OpCode { code: 0xCD, mnemonic: Mnemonic::CMP, len: 3, cycles: 4, mode: AddressingMode::Absolute }),
        0xCE => Some(OpCode { code: 0xCE, mnemonic: Mnemonic::DEC, len: 3, cycles: 6, mode: AddressingMode::Absolute }),
        0xD0 => Some(OpCode { code: 0xD0, mnemonic: Mnemonic::BNE, len: 2, cycles: 2, mode: AddressingMode::NoneAddressing }),
        0xD1 => Some(OpCode { code: 0xD1, mnemonic: Mnemonic::CMP, len: 2, cycles: 5, mode: AddressingMode::Indirect_Y }),
        0xD5 => Some(OpCode { code: 0xD5, mnemonic: Mnemonic::CMP, len: 2, cycles: 4, mode: AddressingMode::ZeroPage_X }),
        0xD6 => Some(OpCode { code: 0xD6, mnemonic: Mnemonic::DEC, len: 2, cycles: 6, mode: AddressingMode::ZeroPage_X }),
        0xD8 => Some(OpCode { code: 0xD8, mnemonic: Mnemonic::CLD, len: 1, cycles: 2, mode: AddressingMode::NoneAddressing }),
        0xD9 => Some(OpCode { code: 0xD9, mnemonic: Mnemonic::CMP, len: 3, cycles: 4, mode: AddressingMode::Absolute_Y }),
        0xDD => Some(OpCode { code: 0xDD, mnemonic: Mnemonic::CMP, len: 3, cycles: 4, mode: AddressingMode::Absolute_X }),
        0xDE => Some(OpCode { code: 0xDE, mnemonic: Mnemonic::DEC, len: 3, cycles: 7, mode: AddressingMode::Absolute_X }),
        0xE0 => Some(OpCode { code: 0xE0, mnemonic: Mnemonic::CPX, len: 2, cycles: 2, mode: AddressingMode::Immediate }),
        0xE1 => Some(OpCode { code: 0xE1, mnemonic: Mnemonic::SBC, len: 2, cycles: 6, mode: AddressingMode::Indirect_X }),
        0xE4 => Some(OpCode { code: 0xE4, mnemonic: Mnemonic::CPX, len: 2, cycles: 3, mode: AddressingMode::ZeroPage }),
        0xE5 => Some(OpCode { code: 0xE5, mnemonic: Mnemonic::SBC, len: 2, cycles: 3, mode: AddressingMode::ZeroPage }),
        0xE6 => Some(OpCode { code: 0xE6, mnemonic: Mnemonic::INC, len: 2, cycles: 5, mode: AddressingMode::ZeroPage }),
        0xE8 => Some(OpCode { code: 0xE8, mnemonic: Mnemonic::INX, len: 1, cycles: 2, mode: AddressingMode::NoneAddressing }),
        0xE9 => Some(OpCode { code: 0xE9, mnemonic: Mnemonic::SBC, len: 2, cycles: 2, mode: AddressingMode::Immediate }),
        0xEA => Some(OpCode { code: 0xEA, mnemonic: Mnemonic::NOP, len: 1, cycles: 2, mode: AddressingMode::NoneAddressing }),
        0xEC => Some(OpCode { code: 0xEC, mnemonic: Mnemonic::CPX, len: 3, cycles: 4, mode: AddressingMode::Absolute }),
        0xED => Some(OpCode { code: 0xED, mnemonic: Mnemonic::SBC, len: 3, cycles: 4, mode: AddressingMode::Absolute }),
        0xEE => Some(OpCode { code: 0xEE, mnemonic: Mnemonic::INC, len: 3, cycles: 6, mode: AddressingMode::Absolute }),
        0xF0 => Some(OpCode { code: 0xF0, mnemonic: Mnemonic::BEQ, len: 2, cycles: 2, mode: AddressingMode::NoneAddressing }),
        0xF1 => Some(OpCode { code: 0xF1, mnemonic: Mnemonic::SBC, len: 2, cycles: 5, mode: AddressingMode::Indirect_Y }),
        0xF5 => Some(OpCode { code: 0xF5, mnemonic: Mnemonic::SBC, len: 2, cycles: 4, mode: AddressingMode::ZeroPage_X }),
        0xF6 => Some(OpCode { code: 0xF6, mnemonic: Mnemonic::INC, len: 2, cycles: 6, mode: AddressingMode::ZeroPage_X }),
        0xF8 => Some(OpCode { code: 0xF8, mnemonic: Mnemonic::SED, len: 1, cycles: 2, mode: AddressingMode::NoneAddressing }),
        0xF9 => Some(OpCode { code: 0xF9, mnemonic: Mnemonic::SBC, len: 3, cycles: 4, mode: AddressingMode::Absolute_Y }),
        0xFD => Some(OpCode { code: 0xFD, mnemonic: Mnemonic::SBC, len: 3, cycles: 4, mode: AddressingMode::Absolute_X }),
        0xFE => Some(OpCode { code: 0xFE, mnemonic: Mnemonic::INC, len: 3, cycles: 7, mode: AddressingMode::Absolute_X }),
        _ => None,
    }
}

pub fn decode(code: u8) -> (r: Option<OpCode>)
    ensures
        r == spec_decode(code),
        r is Some ==> 1 <= r->Some_0.len <= 3,
        r is Some ==> r->Some_0.cycles <= 7,
{
    match code {
        0x00 => Some(OpCode { code: 0x00, mnemonic: Mnemonic::BRK, len: 1, cycles: 7, mode: AddressingMode::NoneAddressing }),
        0x01 => Some(OpCode { code: 0x01, mnemonic: Mnemonic::ORA, len: 2, cycles: 6, mode: AddressingMode::Indirect_X }),
        0x05 => Some(OpCode { code: 0x05, mnemonic: Mnemonic::ORA, len: 2, cycles: 3, mode: AddressingMode::ZeroPage }),
        0x06 => Some(OpCode { code: 0x06, mnemonic: Mnemonic::ASL, len: 2, cycles: 5, mode: AddressingMode::ZeroPage }),
        0x08 => Some(OpCode { code: 0x08, mnemonic: Mnemonic::PHP, len: 1, cycles: 3, mode: AddressingMode::NoneAddressing }),
        0x09 => Some(OpCode { code: 0x09, mnemonic: Mnemonic::ORA, len: 2, cycles: 2, mode: AddressingMode::Immediate }),
        0x0A => Some(OpCode { code: 0x0A, mnemonic: Mnemonic::ASL, len: 1, cycles: 2, mode: AddressingMode::NoneAddressing }),
        0x0D => Some(OpCode { code: 0x0D, mnemonic: Mnemonic::ORA, len: 3, cycles: 4, mode: AddressingMode::Absolute }),
        0x0E => Some(OpCode { code: 0x0E, mnemonic: Mnemonic::ASL, len: 3, cycles: 6, mode: AddressingMode::Absolute }),
        0x10 => Some(OpCode { code: 0x10, mnemonic: Mnemonic::BPL, len: 2, cycles: 2, mode: AddressingMode::NoneAddressing }),
        0x11 => Some(OpCode { code: 0x11, mnemonic: Mnemonic::ORA, len: 2, cycles: 5, mode: AddressingMode::Indirect_Y }),
        0x15 => Some(OpCode { code: 0x15, mnemonic: Mnemonic::ORA, len: 2, cycles: 4, mode: AddressingMode::ZeroPage_X }),
        0x16 => Some(OpCode { code: 0x16, mnemonic: Mnemonic::ASL, len: 2, cycles: 6, mode: AddressingMode::ZeroPage_X }),
        0x18 => Some(OpCode { code: 0x18, mnemonic: Mnemonic::CLC, len: 1, cycles: 2, mode: AddressingMode::NoneAddressing }),
        0x19 => Some(OpCode { code: 0x19, mnemonic: Mnemonic::ORA, len: 3, cycles: 4, mode: AddressingMode::Absolute_Y }),
        0x1D => Some(OpCode { code: 0x1D, mnemonic: Mnemonic::ORA, len: 3, cycles: 4, mode: AddressingMode::Absolute_X }),
        0x1E => Some(OpCode { code: 0x1E, mnemonic: Mnemonic::ASL, len: 3, cycles: 7, mode: AddressingMode::Absolute_X }),
        0x20 => Some(OpCode { code: 0x20, mnemonic: Mnemonic::JSR, len: 3, cycles: 6, mode: AddressingMode::NoneAddressing }),
        0x21 => Some(OpCode { code: 0x21, mnemonic: Mnemonic::AND, len: 2, cycles: 6, mode: AddressingMode::Indirect_X }),
        0x24 => Some(OpCode { code: 0x24, mnemonic: Mnemonic::BIT, len: 2, cycles: 3, mode: AddressingMode::ZeroPage }),
        0x25 => Some(OpCode { code: 0x25, mnemonic: Mnemonic::AND, len: 2, cycles: 3, mode: AddressingMode::ZeroPage }),
        0x26 => Some(OpCode { code: 0x26, mnemonic: Mnemonic::ROL, len: 2, cycles: 5, mode: AddressingMode::ZeroPage }),
        0x28 => Some(OpCode { code: 0x28, mnemonic: Mnemonic::PLP, len: 1, cycles: 4, mode: AddressingMode::NoneAddressing }),
        0x29 => Some(OpCode { code: 0x29, mnemonic: Mnemonic::AND, len: 2, cycles: 2, mode: AddressingMode::Immediate }),
        0x2A => Some(OpCode { code: 0x2A, mnemonic: Mnemonic::ROL, len: 1, cycles: 2, mode: AddressingMode::NoneAddressing }),
        0x2C => Some(OpCode { code: 0x2C, mnemonic: Mnemonic::BIT, len: 3, cycles: 4, mode: AddressingMode::Absolute }),
        0x2D => Some(OpCode { code: 0x2D, mnemonic: Mnemonic::AND, len: 3, cycles: 4, mode: AddressingMode::Absolute }),
        0x2E => Some(OpCode { code: 0x2E, mnemonic: Mnemonic::ROL, len: 3, cycles: 6, mode: AddressingMode::Absolute }),
        0x30 => Some(OpCode { code: 0x30, mnemonic: Mnemonic::BMI, len: 2, cycles: 2, mode: AddressingMode::NoneAddressing }),
        0x31 => Some(OpCode { code: 0x31, mnemonic: Mnemonic::AND, len: 2, cycles: 5, mode: AddressingMode::Indirect_Y }),
        0x35 => Some(OpCode { code: 0x35, mnemonic: Mnemonic::AND, len: 2, cycles: 4, mode: AddressingMode::ZeroPage_X }),
        0x36 => Some(OpCode { code: 0x36, mnemonic: Mnemonic::ROL, len: 2, cycles: 6, mode: AddressingMode::ZeroPage_X }),
        0x38 => Some(OpCode { code: 0x38, mnemonic: Mnemonic::SEC, len: 1, cycles: 2, mode: AddressingMode::NoneAddressing }),
        0x39 => Some(OpCode { code: 0x39, mnemonic: Mnemonic::AND, len: 3, cycles: 4, mode: AddressingMode::Absolute_Y }),
        0x3D => Some(OpCode { code: 0x3D, mnemonic: Mnemonic::AND, len: 3, cycles: 4, mode: AddressingMode::Absolute_X }),
        0x3E => Some(OpCode { code: 0x3E, mnemonic: Mnemonic::ROL, len: 3, cycles: 7, mode: AddressingMode::Absolute_X }),
        0x40 => Some(OpCode { code: 0x40, mnemonic: Mnemonic::RTI, len: 1, cycles: 6, mode: AddressingMode::NoneAddressing }),
        0x41 => Some(OpCode { code: 0x41, mnemonic: Mnemonic::EOR, len: 2, cycles: 6, mode: AddressingMode::Indirect_X }),
        0x45 => Some(OpCode { code: 0x45, mnemonic: Mnemonic::EOR, len: 2, cycles: 3, mode: AddressingMode::ZeroPage }),
        0x46 => Some(OpCode { code: 0x46, mnemonic: Mnemonic::LSR, len: 2, cycles: 5, mode: AddressingMode::ZeroPage }),
        0x48 => Some(OpCode { code: 0x48, mnemonic: Mnemonic::PHA, len: 1, cycles: 3, mode: AddressingMode::NoneAddressing }),
        0x49 => Some(OpCode { code: 0x49, mnemonic: Mnemonic::EOR, len: 2, cycles: 2, mode: AddressingMode::Immediate }),
        0x4A => Some(OpCode { code: 0x4A, mnemonic: Mnemonic::LSR, len: 1, cycles: 2, mode: AddressingMode::NoneAddressing }),
        0x4C => Some(OpCode { code: 0x4C, mnemonic: Mnemonic::JMP, len: 3, cycles: 3, mode: AddressingMode::NoneAddressing }),
        0x4D => Some(OpCode { code: 0x4D, mnemonic: Mnemonic::EOR, len: 3, cycles: 4, mode: AddressingMode::Absolute }),
        0x4E => Some(OpCode { code: 0x4E, mnemonic: Mnemonic::LSR, len: 3, cycles: 6, mode: AddressingMode::Absolute }),
        0x50 => Some(OpCode { code: 0x50, mnemonic: Mnemonic::BVC, len: 2, cycles: 2, mode: AddressingMode::NoneAddressing }),
        0x51 => Some(OpCode { code: 0x51, mnemonic: Mnemonic::EOR, len: 2, cycles: 5, mode: AddressingMode::Indirect_Y }),
        0x55 => Some(OpCode { code: 0x55, mnemonic: Mnemonic::EOR, len: 2, cycles: 4, mode: AddressingMode::ZeroPage_X }),
        0x56 => Some(OpCode { code: 0x56, mnemonic: Mnemonic::LSR, len: 2, cycles: 6, mode: AddressingMode::ZeroPage_X }),
        0x58 => Some(OpCode { code: 0x58, mnemonic: Mnemonic::CLI, len: 1, cycles: 2, mode: AddressingMode::NoneAddressing }),
        0x59 => Some(OpCode { code: 0x59, mnemonic: Mnemonic::EOR, len: 3, cycles: 4, mode: AddressingMode::Absolute_Y }),
        0x5D => Some(OpCode { code: 0x5D, mnemonic: Mnemonic::EOR, len: 3, cycles: 4, mode: AddressingMode::Absolute_X }),
        0x5E => Some(OpCode { code: 0x5E, mnemonic: Mnemonic::LSR, len: 3, cycles: 7, mode: AddressingMode::Absolute_X }),
        0x60 => Some(OpCode { code: 0x60, mnemonic: Mnemonic::RTS, len: 1, cycles: 6, mode: AddressingMode::NoneAddressing }),
        0x61 => Some(OpCode { code: 0x61, mnemonic: Mnemonic::ADC, len: 2, cycles: 6, mode: AddressingMode::Indirect_X }),
        0x65 => Some(OpCode { code: 0x65, mnemonic: Mnemonic::ADC, len: 2, cycles: 3, mode: AddressingMode::ZeroPage }),
        0x66 => Some(OpCode { code: 0x66, mnemonic: Mnemonic::ROR, len: 2, cycles: 5, mode: AddressingMode::ZeroPage }),
        0x68 => Some(OpCode { code: 0x68, mnemonic: Mnemonic::PLA, len: 1, cycles: 4, mode: AddressingMode::NoneAddressing }),
        0x69 => Some(OpCode { code: 0x69, mnemonic: Mnemonic::ADC, len: 2, cycles: 2, mode: AddressingMode::Immediate }),
        0x6A => Some(OpCode { code: 0x6A, mnemonic: Mnemonic::ROR, len: 1, cycles: 2, mode: AddressingMode::NoneAddressing }),
        0x6C => Some(OpCode { code: 0x6C, mnemonic: Mnemonic::JMP, len: 3, cycles: 5, mode: AddressingMode::NoneAddressing }),
        0x6D => Some(OpCode { code: 0x6D, mnemonic: Mnemonic::ADC, len: 3, cycles: 4, mode: AddressingMode::Absolute }),
        0x6E => Some(OpCode { code: 0x6E, mnemonic: Mnemonic::ROR, len: 3, cycles: 6, mode: AddressingMode::Absolute }),
        0x70 => Some(OpCode { code: 0x70, mnemonic: Mnemonic::BVS, len: 2, cycles: 2, mode: AddressingMode::NoneAddressing }),
        0x71 => Some(OpCode { code: 0x71, mnemonic: Mnemonic::ADC, len: 2, cycles: 5, mode: AddressingMode::Indirect_Y }),
        0x75 => Some(OpCode { code: 0x75, mnemonic: Mnemonic::ADC, len: 2, cycles: 4, mode: AddressingMode::ZeroPage_X }),
        0x76 => Some(OpCode { code: 0x76, mnemonic: Mnemonic::ROR, len: 2, cycles: 6, mode: AddressingMode::ZeroPage_X }),
        0x78 => Some(OpCode { code: 0x78, mnemonic: Mnemonic::SEI, len: 1, cycles: 2, mode: AddressingMode::NoneAddressing }),
        0x79 => Some(OpCode { code: 0x79, mnemonic: Mnemonic::ADC, len: 3, cycles: 4, mode: AddressingMode::Absolute_Y }),
        0x7D => Some(OpCode { code: 0x7D, mnemonic: Mnemonic::ADC, len: 3, cycles: 4, mode: AddressingMode::Absolute_X }),
        0x7E => Some(OpCode { code: 0x7E, mnemonic: Mnemonic::ROR, len: 3, cycles: 7, mode: AddressingMode::Absolute_X }),
        0x81 => Some(OpCode { code: 0x81, mnemonic: Mnemonic::STA, len: 2, cycles: 6, mode: AddressingMode::Indirect_X }),
        0x84 => Some(OpCode { code: 0x84, mnemonic: Mnemonic::STY, len: 2, cycles: 3, mode: AddressingMode::ZeroPage }),
        0x85 => Some(OpCode { code: 0x85, mnemonic: Mnemonic::STA, len: 2, cycles: 3, mode: AddressingMode::ZeroPage }),
        0x86 => Some(OpCode { code: 0x86, mnemonic: Mnemonic::STX, len: 2, cycles: 3, mode: AddressingMode::ZeroPage }),
        0x88 => Some(OpCode { code: 0x88, mnemonic: Mnemonic::DEY, len: 1, cycles: 2, mode: AddressingMode::NoneAddressing }),
        0x8A => Some(OpCode { code: 0x8A, mnemonic: Mnemonic::TXA, len: 1, cycles: 2, mode: AddressingMode::NoneAddressing }),
        0x8C => Some(OpCode { code: 0x8C, mnemonic: Mnemonic::STY, len: 3, cycles: 4, mode: AddressingMode::Absolute }),
        0x8D => Some(OpCode { code: 0x8D, mnemonic: Mnemonic::STA, len: 3, cycles: 4, mode: AddressingMode::Absolute }),
        0x8E => Some(OpCode { code: 0x8E, mnemonic: Mnemonic::STX, len: 3, cycles: 4, mode: AddressingMode::Absolute }),
        0x90 => Some(OpCode { code: 0x90, mnemonic: Mnemonic::BCC, len: 2, cycles: 2, mode: AddressingMode::NoneAddressing }),
        0x91 => Some(OpCode { code: 0x91, mnemonic: Mnemonic::STA, len: 2, cycles: 6, mode: AddressingMode::Indirect_Y }),
        0x94 => Some(OpCode { code: 0x94, mnemonic: Mnemonic::STY, len: 2, cycles: 4, mode: AddressingMode::ZeroPage_X }),
        0x95 => Some(OpCode { code: 0x95, mnemonic: Mnemonic::STA, len: 2, cycles: 4, mode: AddressingMode::ZeroPage_X }),
        0x96 => Some(OpCode { code: 0x96, mnemonic: Mnemonic::STX, len: 2, cycles: 4, mode: AddressingMode::ZeroPage_Y }),
        0x98 => Some(OpCode { code: 0x98, mnemonic: Mnemonic::TYA, len: 1, cycles: 2, mode: AddressingMode::NoneAddressing }),
        0x99 => Some(OpCode { code: 0x99, mnemonic: Mnemonic::STA, len: 3, cycles: 5, mode: AddressingMode::Absolute_Y }),
        0x9A => Some(OpCode { code: 0x9A, mnemonic: Mnemonic::TXS, len: 1, cycles: 2, mode: AddressingMode::NoneAddressing }),
        0x9D => Some(OpCode { code: 0x9D, mnemonic: Mnemonic::STA, len: 3, cycles: 5, mode: AddressingMode::Absolute_X }),
        0xA0 => Some(OpCode { code: 0xA0, mnemonic: Mnemonic::LDY, len: 2, cycles: 2, mode: AddressingMode::Immediate }),
        0xA1 => Some(OpCode { code: 0xA1, mnemonic: Mnemonic::LDA, len: 2, cycles: 6, mode: AddressingMode::Indirect_X }),
        0xA2 => Some(OpCode { code: 0xA2, mnemonic: Mnemonic::LDX, len: 2, cycles: 2, mode: AddressingMode::Immediate }),
        0xA4 => Some(OpCode { code: 0xA4, mnemonic: Mnemonic::LDY, len: 2, cycles: 3, mode: AddressingMode::ZeroPage }),
        0xA5 => Some(OpCode { code: 0xA5, mnemonic: Mnemonic::LDA, len: 2, cycles: 3, mode: AddressingMode::ZeroPage }),
        0xA6 => Some(OpCode { code: 0xA6, mnemonic: Mnemonic::LDX, len: 2, cycles: 3, mode: AddressingMode::ZeroPage }),
        0xA8 => Some(OpCode { code: 0xA8, mnemonic: Mnemonic::TAY, len: 1, cycles: 2, mode: AddressingMode::NoneAddressing }),
        0xA9 => Some(OpCode { code: 0xA9, mnemonic: Mnemonic::LDA, len: 2, cycles: 2, mode: AddressingMode::Immediate }),
        0xAA => Some(OpCode { code: 0xAA, mnemonic: Mnemonic::TAX, len: 1, cycles: 2, mode: AddressingMode::NoneAddressing }),
        0xAC => Some(OpCode { code: 0xAC, mnemonic: Mnemonic::LDY, len: 3, cycles: 4, mode: AddressingMode::Absolute }),
        0xAD => Some(OpCode { code: 0xAD, mnemonic: Mnemonic::LDA, len: 3, cycles: 4, mode: AddressingMode::Absolute }),
        0xAE => Some(OpCode { code: 0xAE, mnemonic: Mnemonic::LDX, len: 3, cycles: 4, mode: AddressingMode::Absolute }),
        0xB0 => Some(OpCode { code: 0xB0, mnemonic: Mnemonic::BCS, len: 2, cycles: 2, mode: AddressingMode::NoneAddressing }),
        0xB1 => Some(OpCode { code: 0xB1, mnemonic: Mnemonic::LDA, len: 2, cycles: 5, mode: AddressingMode::Indirect_Y }),
        0xB4 => Some(OpCode { code: 0xB4, mnemonic: Mnemonic::LDY, len: 2, cycles: 4, mode: AddressingMode::ZeroPage_X }),
        0xB5 => Some(OpCode { code: 0xB5, mnemonic: Mnemonic::LDA, len: 2, cycles: 4, mode: AddressingMode::ZeroPage_X }),
        0xB6 => Some(OpCode { code: 0xB6, mnemonic: Mnemonic::LDX, len: 2, cycles: 4, mode: AddressingMode::ZeroPage_Y }),
        0xB8 => Some(OpCode { code: 0xB8, mnemonic: Mnemonic::CLV, len: 1, cycles: 2, mode: AddressingMode::NoneAddressing }),
        0xB9 => Some(OpCode { code: 0xB9, mnemonic: Mnemonic::LDA, len: 3, cycles: 4, mode: AddressingMode::Absolute_Y }),
        0xBA => Some(OpCode { code: 0xBA, mnemonic: Mnemonic::TSX, len: 1, cycles: 2, mode: AddressingMode::NoneAddressing }),
        0xBC => Some(OpCode { code: 0xBC, mnemonic: Mnemonic::LDY, len: 3, cycles: 4, mode: AddressingMode::Absolute_X }),
        0xBD => Some(OpCode { code: 0xBD, mnemonic: Mnemonic::LDA, len: 3, cycles: 4, mode: AddressingMode::Absolute_X }),
        0xBE => Some(OpCode { code: 0xBE, mnemonic: Mnemonic::LDX, len: 3, cycles: 4, mode: AddressingMode::Absolute_Y }),
        0xC0 => Some(OpCode { code: 0xC0, mnemonic: Mnemonic::CPY, len: 2, cycles: 2, mode: AddressingMode::Immediate }),
        0xC1 => Some(OpCode { code: 0xC1, mnemonic: Mnemonic::CMP, len: 2, cycles: 6, mode: AddressingMode::Indirect_X }),
        0xC4 => Some(OpCode { code: 0xC4, mnemonic: Mnemonic::CPY, len: 2, cycles: 3, mode: AddressingMode::ZeroPage }),
        0xC5 => Some(OpCode { code: 0xC5, mnemonic: Mnemonic::CMP, len: 2, cycles: 3, mode: AddressingMode::ZeroPage }),
        0xC6 => Some(OpCode { code: 0xC6, mnemonic: Mnemonic::DEC, len: 2, cycles: 5, mode: AddressingMode::ZeroPage }),
        0xC8 => Some(OpCode { code: 0xC8, mnemonic: Mnemonic::INY, len: 1, cycles: 2, mode: AddressingMode::NoneAddressing }),
        0xC9 => Some(OpCode { code: 0xC9, mnemonic: Mnemonic::CMP, len: 2, cycles: 2, mode: AddressingMode::Immediate }),
        0xCA => Some(OpCode { code: 0xCA, mnemonic: Mnemonic::DEX, len: 1, cycles: 2, mode: AddressingMode::NoneAddressing }),
        0xCC => Some(OpCode { code: 0xCC, mnemonic: Mnemonic::CPY, len: 3, cycles: 4, mode: AddressingMode::Absolute }),
        0xCD => Some(OpCode { code: 0xCD, mnemonic: Mnemonic::CMP, len: 3, cycles: 4, mode: AddressingMode::Absolute }),
        0xCE => Some(OpCode { code: 0xCE, mnemonic: Mnemonic::DEC, len: 3, cycles: 6, mode: AddressingMode::Absolute }),
        0xD0 => Some(OpCode { code: 0xD0, mnemonic: Mnemonic::BNE, len: 2, cycles: 2, mode: AddressingMode::NoneAddressing }),
        0xD1 => Some(OpCode { code: 0xD1, mnemonic: Mnemonic::CMP, len: 2, cycles: 5, mode: AddressingMode::Indirect_Y }),
        0xD5 => Some(OpCode { code: 0xD5, mnemonic: Mnemonic::CMP, len: 2, cycles: 4, mode: AddressingMode::ZeroPage_X }),
        0xD6 => Some(OpCode { code: 0xD6, mnemonic: Mnemonic::DEC, len: 2, cycles: 6, mode: AddressingMode::ZeroPage_X }),
        0xD8 => Some(OpCode { code: 0xD8, mnemonic: Mnemonic::CLD, len: 1, cycles: 2, mode: AddressingMode::NoneAddressing }),
        0xD9 => Some(OpCode { code: 0xD9, mnemonic: Mnemonic::CMP, len: 3, cycles: 4, mode: AddressingMode::Absolute_Y }),
        0xDD => Some(OpCode { code: 0xDD, mnemonic: Mnemonic::CMP, len: 3, cycles: 4, mode: AddressingMode::Absolute_X }),
        0xDE => Some(OpCode { code: 0xDE, mnemonic: Mnemonic::DEC, len: 3, cycles: 7, mode: AddressingMode::Absolute_X }),
        0xE0 => Some(OpCode { code: 0xE0, mnemonic: Mnemonic::CPX, len: 2, cycles: 2, mode: AddressingMode::Immediate }),
        0xE1 => Some(OpCode { code: 0xE1, mnemonic: Mnemonic::SBC, len: 2, cycles: 6, mode: AddressingMode::Indirect_X }),
        0xE4 => Some(OpCode { code: 0xE4, mnemonic: Mnemonic::CPX, len: 2, cycles: 3, mode: AddressingMode::ZeroPage }),
        0xE5 => Some(OpCode { code: 0xE5, mnemonic: Mnemonic::SBC, len: 2, cycles: 3, mode: AddressingMode::ZeroPage }),
        0xE6 => Some(OpCode { code: 0xE6, mnemonic: Mnemonic::INC, len: 2, cycles: 5, mode: AddressingMode::ZeroPage }),
        0xE8 => Some(OpCode { code: 0xE8, mnemonic: Mnemonic::INX, len: 1, cycles: 2, mode: AddressingMode::NoneAddressing }),
        0xE9 => Some(OpCode { code: 0xE9, mnemonic: Mnemonic::SBC, len: 2, cycles: 2, mode: AddressingMode::Immediate }),
        0xEA => Some(OpCode { code: 0xEA, mnemonic: Mnemonic::NOP, len: 1, cycles: 2, mode: AddressingMode::NoneAddressing }),
        0xEC => Some(OpCode { code: 0xEC, mnemonic: Mnemonic::CPX, len: 3, cycles: 4, mode: AddressingMode::Absolute }),
        0xED => Some(OpCode { code: 0xED, mnemonic: Mnemonic::SBC, len: 3, cycles: 4, mode: AddressingMode::Absolute }),
        0xEE => Some(OpCode { code: 0xEE, mnemonic: Mnemonic::INC, len: 3, cycles: 6, mode: AddressingMode::Absolute }),
        0xF0 => Some(OpCode { code: 0xF0, mnemonic: Mnemonic::BEQ, len: 2, cycles: 2, mode: AddressingMode::NoneAddressing }),
        0xF1 => Some(OpCode { code: 0xF1, mnemonic: Mnemonic::SBC, len: 2, cycles: 5, mode: AddressingMode::Indirect_Y }),
        0xF5 => Some(OpCode { code: 0xF5, mnemonic: Mnemonic::SBC, len: 2, cycles: 4, mode: AddressingMode::ZeroPage_X }),
        0xF6 => Some(OpCode { code: 0xF6, mnemonic: Mnemonic::INC, len: 2, cycles: 6, mode: AddressingMode::ZeroPage_X }),
        0xF8 => Some(OpCode { code: 0xF8, mnemonic: Mnemonic::SED, len: 1, cycles: 2, mode: AddressingMode::NoneAddressing }),
        0xF9 => Some(OpCode { code: 0xF9, mnemonic: Mnemonic::SBC, len: 3, cycles: 4, mode: AddressingMode::Absolute_Y }),
        0xFD => Some(OpCode { code: 0xFD, mnemonic: Mnemonic::SBC, len: 3, cycles: 4, mode: AddressingMode::Absolute_X }),
        0xFE => Some(OpCode { code: 0xFE, mnemonic: Mnemonic::INC, len: 3, cycles: 7, mode: AddressingMode::Absolute_X }),
        _ => None,
    }
}

} // verus!
