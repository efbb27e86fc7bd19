//! The 256-entry opcode table: mnemonic, addressing mode, size in bytes and
//! base cycle count for every opcode byte, official and unofficial alike.

use vstd::prelude::*;

verus! {

#[derive(Clone, Copy, PartialEq, Eq, Structural, Debug)]
pub enum Mnemonic {
    ADC,
    AND,
    ASL,
    AHX,
    ALR,
    ANC,
    ARR,
    AXS,
    BCC,
    BCS,
    BEQ,
    BIT,
    BMI,
    BNE,
    BPL,
    BRK,
    BVC,
    BVS,
    DCP,
    CLC,
    CLD,
    CLI,
    CLV,
    CMP,
    CPX,
    CPY,
    DEC,
    DEX,
    DEY,
    EOR,
    ISC,
    INC,
    INX,
    INY,
    JMP,
    JSR,
    LDA,
    LAS,
    LDX,
    LAX,
    LXA,
    LDY,
    LSR,
    NOP,
    ORA,
    PHA,
    PHP,
    PLA,
    PLP,
    ROL,
    ROR,
    RLA,
    RRA,
    RTI,
    RTS,
    SAX,
    SBC,
    SLO,
    SRE,
    STP,
    SEC,
    SED,
    SHX,
    SHY,
    SEI,
    TAS,
    STA,
    STX,
    STY,
    XAA,
    TAX,
    TAY,
    TSX,
    TXA,
    TXS,
    TYA,
}

#[derive(Clone, Copy, PartialEq, Eq, Structural, Debug)]
pub enum AddressingMode {
    Implied,
    Accumulator,
    Immediate,
    ZeroPage,
    ZeroPageX,
    ZeroPageY,
    Relative,
    Absolute,
    AbsoluteX,
    AbsoluteY,
    Indirect,
    IndirectX,
    IndirectY,
}

#[derive(Clone, Copy, PartialEq, Eq, Structural, Debug)]
pub struct Opcode {
    pub code: u8,
    pub mnemonic: Mnemonic,
    pub bytes: u8,
    pub cycles: u8,
    pub mode: AddressingMode,
}

impl Opcode {
    pub fn new(code: u8, mnemonic: Mnemonic, bytes: u8, cycles: u8, mode: AddressingMode) -> (r: Opcode)
        ensures
            r == (Opcode { code, mnemonic, bytes, cycles, mode }),
    {
        Opcode { code, mnemonic, bytes, cycles, mode }
    }
}

/// The table entry for an opcode byte; every byte 0x00-0xFF has one.
pub open spec fn spec_opcode(code: u8) -> Opcode {
    match code {
        0x00 => Opcode { code: 0x00, mnemonic: Mnemonic::BRK, bytes: 1, cycles: 7, mode: AddressingMode::Implied },
        0x01 => Opcode { code: 0x01, mnemonic: Mnemonic::ORA, bytes: 2, cycles: 6, mode: AddressingMode::IndirectX },
        0x02 => Opcode { code: 0x02, mnemonic: Mnemonic::STP, bytes: 1, cycles: 0, mode: AddressingMode::Implied },
        0x03 => Opcode { code: 0x03, mnemonic: Mnemonic::SLO, bytes: 2, cycles: 8, mode: AddressingMode::IndirectX },
        0x04 => Opcode { code: 0x04, mnemonic: Mnemonic::NOP, bytes: 2, cycles: 3, mode: AddressingMode::ZeroPage },
        0x05 => Opcode { code: 0x05, mnemonic: Mnemonic::ORA, bytes: 2, cycles: 3, mode: AddressingMode::ZeroPage },
        0x06 => Opcode { code: 0x06, mnemonic: Mnemonic::ASL, bytes: 2, cycles: 5, mode: AddressingMode::ZeroPage },
        0x07 => Opcode { code: 0x07, mnemonic: Mnemonic::SLO, bytes: 2, cycles: 5, mode: AddressingMode::ZeroPage },
        0x08 => Opcode { code: 0x08, mnemonic: Mnemonic::PHP, bytes: 1, cycles: 3, mode: AddressingMode::Implied },
        0x09 => Opcode { code: 0x09, mnemonic: Mnemonic::ORA, bytes: 2, cycles: 2, mode: AddressingMode::Immediate },
        0x0A => Opcode { code: 0x0A, mnemonic: Mnemonic::ASL, bytes: 1, cycles: 2, mode: AddressingMode::Accumulator },
        0x0B => Opcode { code: 0x0B, mnemonic: Mnemonic::ANC, bytes: 2, cycles: 2, mode: AddressingMode::Immediate },
        0x0C => Opcode { code: 0x0C, mnemonic: Mnemonic::NOP, bytes: 3, cycles: 4, mode: AddressingMode::Absolute },
        0x0D => Opcode { code: 0x0D, mnemonic: Mnemonic::ORA, bytes: 3, cycles: 4, mode: AddressingMode::Absolute },
        0x0E => Opcode { code: 0x0E, mnemonic: Mnemonic::ASL, bytes: 3, cycles: 6, mode: AddressingMode::Absolute },
        0x0F => Opcode { code: 0x0F, mnemonic: Mnemonic::SLO, bytes: 3, cycles: 6, mode: AddressingMode::Absolute },
        0x10 => Opcode { code: 0x10, mnemonic: Mnemonic::BPL, bytes: 2, cycles: 2, mode: AddressingMode::Relative },
        0x11 => Opcode { code: 0x11, mnemonic: Mnemonic::ORA, bytes: 2, cycles: 5, mode: AddressingMode::IndirectY },
        0x12 => Opcode { code: 0x12, mnemonic: Mnemonic::STP, bytes: 1, cycles: 0, mode: AddressingMode::Implied },
        0x13 => Opcode { code: 0x13, mnemonic: Mnemonic::SLO, bytes: 2, cycles: 8, mode: AddressingMode::IndirectY },
        0x14 => Opcode { code: 0x14, mnemonic: Mnemonic::NOP, bytes: 2, cycles: 4, mode: AddressingMode::ZeroPageX },
        0x15 => Opcode { code: 0x15, mnemonic: Mnemonic::ORA, bytes: 2, cycles: 4, mode: AddressingMode::ZeroPageX },
        0x16 => Opcode { code: 0x16, mnemonic: Mnemonic::ASL, bytes: 2, cycles: 6, mode: AddressingMode::ZeroPageX },
        0x17 => Opcode { code: 0x17, mnemonic: Mnemonic::SLO, bytes: 2, cycles: 6, mode: AddressingMode::ZeroPageX },
        0x18 => Opcode { code: 0x18, mnemonic: Mnemonic::CLC, bytes: 1, cycles: 2, mode: AddressingMode::Implied },
        0x19 => Opcode { code: 0x19, mnemonic: Mnemonic::ORA, bytes: 3, cycles: 4, mode: AddressingMode::AbsoluteY },
        0x1A => Opcode { code: 0x1A, mnemonic: Mnemonic::NOP, bytes: 1, cycles: 2, mode: AddressingMode::Implied },
        0x1B => Opcode { code: 0x1B, mnemonic: Mnemonic::SLO, bytes: 3, cycles: 7, mode: AddressingMode::AbsoluteY },
        0x1C => Opcode { code: 0x1C, mnemonic: Mnemonic::NOP, bytes: 3, cycles: 4, mode: AddressingMode::AbsoluteX },
        0x1D => Opcode { code: 0x1D, mnemonic: Mnemonic::ORA, bytes: 3, cycles: 4, mode: AddressingMode::AbsoluteX },
        0x1E => Opcode { code: 0x1E, mnemonic: Mnemonic::ASL, bytes: 3, cycles: 7, mode: AddressingMode::AbsoluteX },
        0x1F => Opcode { code: 0x1F, mnemonic: Mnemonic::SLO, bytes: 3, cycles: 7, mode: AddressingMode::AbsoluteX },
        0x20 => Opcode { code: 0x20, mnemonic: Mnemonic::JSR, bytes: 3, cycles: 6, mode: AddressingMode::Absolute },
        0x21 => Opcode { code: 0x21, mnemonic: Mnemonic::AND, bytes: 2, cycles: 6, mode: AddressingMode::IndirectX },
        0x22 => Opcode { code: 0x22, mnemonic: Mnemonic::STP, bytes: 1, cycles: 0, mode: AddressingMode::Implied },
        0x23 => Opcode { code: 0x23, mnemonic: Mnemonic::RLA, bytes: 2, cycles: 8, mode: AddressingMode::IndirectX },
        0x24 => Opcode { code: 0x24, mnemonic: Mnemonic::BIT, bytes: 2, cycles: 3, mode: AddressingMode::ZeroPage },
        0x25 => Opcode { code: 0x25, mnemonic: Mnemonic::AND, bytes: 2, cycles: 3, mode: AddressingMode::ZeroPage },
        0x26 => Opcode { code: 0x26, mnemonic: Mnemonic::ROL, bytes: 2, cycles: 5, mode: AddressingMode::ZeroPage },
        0x27 => Opcode { code: 0x27, mnemonic: Mnemonic::RLA, bytes: 2, cycles: 5, mode: AddressingMode::ZeroPage },
        0x28 => Opcode { code: 0x28, mnemonic: Mnemonic::PLP, bytes: 1, cycles: 4, mode: AddressingMode::Implied },
        0x29 => Opcode { code: 0x29, mnemonic: Mnemonic::AND, bytes: 2, cycles: 2, mode: AddressingMode::Immediate },
        0x2A => Opcode { code: 0x2A, mnemonic: Mnemonic::ROL, bytes: 1, cycles: 2, mode: AddressingMode::Accumulator },
        0x2B => Opcode { code: 0x2B, mnemonic: Mnemonic::ANC, bytes: 2, cycles: 2, mode: AddressingMode::Immediate },
        0x2C => Opcode { code: 0x2C, mnemonic: Mnemonic::BIT, bytes: 3, cycles: 4, mode: AddressingMode::Absolute },
        0x2D => Opcode { code: 0x2D, mnemonic: Mnemonic::AND, bytes: 3, cycles: 4, mode: AddressingMode::Absolute },
        0x2E => Opcode { code: 0x2E, mnemonic: Mnemonic::ROL, bytes: 3, cycles: 6, mode: AddressingMode::Absolute },
        0x2F => Opcode { code: 0x2F, mnemonic: Mnemonic::RLA, bytes: 3, cycles: 6, mode: AddressingMode::Absolute },
        0x30 => Opcode { code: 0x30, mnemonic: Mnemonic::BMI, bytes: 2, cycles: 2, mode: AddressingMode::Relative },
        0x31 => Opcode { code: 0x31, mnemonic: Mnemonic::AND, bytes: 2, cycles: 5, mode: AddressingMode::IndirectY },
        0x32 => Opcode { code: 0x32, mnemonic: Mnemonic::STP, bytes: 1, cycles: 0, mode: AddressingMode::Implied },
        0x33 => Opcode { code: 0x33, mnemonic: Mnemonic::RLA, bytes: 2, cycles: 8, mode: AddressingMode::IndirectY },
        0x34 => Opcode { code: 0x34, mnemonic: Mnemonic::NOP, bytes: 2, cycles: 4, mode: AddressingMode::ZeroPageX },
        0x35 => Opcode { code: 0x35, mnemonic: Mnemonic::AND, bytes: 2, cycles: 4, mode: AddressingMode::ZeroPageX },
        0x36 => Opcode { code: 0x36, mnemonic: Mnemonic::ROL, bytes: 2, cycles: 6, mode: AddressingMode::ZeroPageX },
        0x37 => Opcode { code: 0x37, mnemonic: Mnemonic::RLA, bytes: 2, cycles: 6, mode: AddressingMode::ZeroPageX },
        0x38 => Opcode { code: 0x38, mnemonic: Mnemonic::SEC, bytes: 1, cycles: 2, mode: AddressingMode::Implied },
        0x39 => Opcode { code: 0x39, mnemonic: Mnemonic::AND, bytes: 3, cycles: 4, mode: AddressingMode::AbsoluteY },
        0x3A => Opcode { code: 0x3A, mnemonic: Mnemonic::NOP, bytes: 1, cycles: 2, mode: AddressingMode::Implied },
        0x3B => Opcode { code: 0x3B, mnemonic: Mnemonic::RLA, bytes: 3, cycles: 7, mode: AddressingMode::AbsoluteY },
        0x3C => Opcode { code: 0x3C, mnemonic: Mnemonic::NOP, bytes: 3, cycles: 4, mode: AddressingMode::AbsoluteX },
        0x3D => Opcode { code: 0x3D, mnemonic: Mnemonic::AND, bytes: 3, cycles: 4, mode: AddressingMode::AbsoluteX },
        0x3E => Opcode { code: 0x3E, mnemonic: Mnemonic::ROL, bytes: 3, cycles: 7, mode: AddressingMode::AbsoluteX },
        0x3F => Opcode { code: 0x3F, mnemonic: Mnemonic::RLA, bytes: 3, cycles: 7, mode: AddressingMode::AbsoluteX },
        0x40 => Opcode { code: 0x40, mnemonic: Mnemonic::RTI, bytes: 1, cycles: 6, mode: AddressingMode::Implied },
        0x41 => Opcode { code: 0x41, mnemonic: Mnemonic::EOR, bytes: 2, cycles: 6, mode: AddressingMode::IndirectX },
        0x42 => Opcode { code: 0x42, mnemonic: Mnemonic::STP, bytes: 1, cycles: 0, mode: AddressingMode::Implied },
        0x43 => Opcode { code: 0x43, mnemonic: Mnemonic::SRE, bytes: 2, cycles: 8, mode: AddressingMode::IndirectX },
        0x44 => Opcode { code: 0x44, mnemonic: Mnemonic::NOP, bytes: 2, cycles: 3, mode: AddressingMode::ZeroPage },
        0x45 => Opcode { code: 0x45, mnemonic: Mnemonic::EOR, bytes: 2, cycles: 3, mode: AddressingMode::ZeroPage },
        0x46 => Opcode { code: 0x46, mnemonic: Mnemonic::LSR, bytes: 2, cycles: 5, mode: AddressingMode::ZeroPage },
        0x47 => Opcode { code: 0x47, mnemonic: Mnemonic::SRE, bytes: 2, cycles: 5, mode: AddressingMode::ZeroPage },
        0x48 => Opcode { code: 0x48, mnemonic: Mnemonic::PHA, bytes: 1, cycles: 3, mode: AddressingMode::Implied },
        0x49 => Opcode { code: 0x49, mnemonic: Mnemonic::EOR, bytes: 2, cycles: 2, mode: AddressingMode::Immediate },
        0x4A => Opcode { code: 0x4A, mnemonic: Mnemonic::LSR, bytes: 1, cycles: 2, mode: AddressingMode::Accumulator },
        0x4B => Opcode { code: 0x4B, mnemonic: Mnemonic::ALR, bytes: 2, cycles: 2, mode: AddressingMode::Immediate },
        0x4C => Opcode { code: 0x4C, mnemonic: Mnemonic::JMP, bytes: 3, cycles: 3, mode: AddressingMode::Absolute },
        0x4D => Opcode { code: 0x4D, mnemonic: Mnemonic::EOR, bytes: 3, cycles: 4, mode: AddressingMode::Absolute },
        0x4E => Opcode { code: 0x4E, mnemonic: Mnemonic::LSR, bytes: 3, cycles: 6, mode: AddressingMode::Absolute },
        0x4F => Opcode { code: 0x4F, mnemonic: Mnemonic::SRE, bytes: 3, cycles: 6, mode: AddressingMode::Absolute },
        0x50 => Opcode { code: 0x50, mnemonic: Mnemonic::BVC, bytes: 2, cycles: 2, mode: AddressingMode::Relative },
        0x51 => Opcode { code: 0x51, mnemonic: Mnemonic::EOR, bytes: 2, cycles: 5, mode: AddressingMode::IndirectY },
        0x52 => Opcode { code: 0x52, mnemonic: Mnemonic::STP, bytes: 1, cycles: 0, mode: AddressingMode::Implied },
        0x53 => Opcode { code: 0x53, mnemonic: Mnemonic::SRE, bytes: 2, cycles: 8, mode: AddressingMode::IndirectY },
        0x54 => Opcode { code: 0x54, mnemonic: Mnemonic::NOP, bytes: 2, cycles: 4, mode: AddressingMode::ZeroPageX },
        0x55 => Opcode { code: 0x55, mnemonic: Mnemonic::EOR, bytes: 2, cycles: 4, mode: AddressingMode::ZeroPageX },
        0x56 => Opcode { code: 0x56, mnemonic: Mnemonic::LSR, bytes: 2, cycles: 6, mode: AddressingMode::ZeroPageX },
        0x57 => Opcode { code: 0x57, mnemonic: Mnemonic::SRE, bytes: 2, cycles: 6, mode: AddressingMode::ZeroPageX },
        0x58 => Opcode { code: 0x58, mnemonic: Mnemonic::CLI, bytes: 1, cycles: 2, mode: AddressingMode::Implied },
        0x59 => Opcode { code: 0x59, mnemonic: Mnemonic::EOR, bytes: 3, cycles: 4, mode: AddressingMode::AbsoluteY },
        0x5A => Opcode { code: 0x5A, mnemonic: Mnemonic::NOP, bytes: 1, cycles: 2, mode: AddressingMode::Implied },
        0x5B => Opcode { code: 0x5B, mnemonic: Mnemonic::SRE, bytes: 3, cycles: 7, mode: AddressingMode::AbsoluteY },
        0x5C => Opcode { code: 0x5C, mnemonic: Mnemonic::NOP, bytes: 3, cycles: 4, mode: AddressingMode::AbsoluteX },
        0x5D => Opcode { code: 0x5D, mnemonic: Mnemonic::EOR, bytes: 3, cycles: 4, mode: AddressingMode::AbsoluteX },
        0x5E => Opcode { code: 0x5E, mnemonic: Mnemonic::LSR, bytes: 3, cycles: 7, mode: AddressingMode::AbsoluteX },
        0x5F => Opcode { code: 0x5F, mnemonic: Mnemonic::SRE, bytes: 3, cycles: 7, mode: AddressingMode::AbsoluteX },
        0x60 => Opcode { code: 0x60, mnemonic: Mnemonic::RTS, bytes: 1, cycles: 6, mode: AddressingMode::Implied },
        0x61 => Opcode { code: 0x61, mnemonic: Mnemonic::ADC, bytes: 2, cycles: 6, mode: AddressingMode::IndirectX },
        0x62 => Opcode { code: 0x62, mnemonic: Mnemonic::STP, bytes: 1, cycles: 0, mode: AddressingMode::Implied },
        0x63 => Opcode { code: 0x63, mnemonic: Mnemonic::RRA, bytes: 2, cycles: 8, mode: AddressingMode::IndirectX },
        0x64 => Opcode { code: 0x64, mnemonic: Mnemonic::NOP, bytes: 2, cycles: 3, mode: AddressingMode::ZeroPage },
        0x65 => Opcode { code: 0x65, mnemonic: Mnemonic::ADC, bytes: 2, cycles: 3, mode: AddressingMode::ZeroPage },
        0x66 => Opcode { code: 0x66, mnemonic: Mnemonic::ROR, bytes: 2, cycles: 5, mode: AddressingMode::ZeroPage },
        0x67 => Opcode { code: 0x67, mnemonic: Mnemonic::RRA, bytes: 2, cycles: 5, mode: AddressingMode::ZeroPage },
        0x68 => Opcode { code: 0x68, mnemonic: Mnemonic::PLA, bytes: 1, cycles: 4, mode: AddressingMode::Implied },
        0x69 => Opcode { code: 0x69, mnemonic: Mnemonic::ADC, bytes: 2, cycles: 2, mode: AddressingMode::Immediate },
        0x6A => Opcode { code: 0x6A, mnemonic: Mnemonic::ROR, bytes: 1, cycles: 2, mode: AddressingMode::Accumulator },
        0x6B => Opcode { code: 0x6B, mnemonic: Mnemonic::ARR, bytes: 2, cycles: 2, mode: AddressingMode::Immediate },
        0x6C => Opcode { code: 0x6C, mnemonic: Mnemonic::JMP, bytes: 3, cycles: 5, mode: AddressingMode::Indirect },
        0x6D => Opcode { code: 0x6D, mnemonic: Mnemonic::ADC, bytes: 3, cycles: 4, mode: AddressingMode::Absolute },
        0x6E => Opcode { code: 0x6E, mnemonic: Mnemonic::ROR, bytes: 3, cycles: 6, mode: AddressingMode::Absolute },
        0x6F => Opcode { code: 0x6F, mnemonic: Mnemonic::RRA, bytes: 3, cycles: 6, mode: AddressingMode::Absolute },
        0x70 => Opcode { code: 0x70, mnemonic: Mnemonic::BVS, bytes: 2, cycles: 2, mode: AddressingMode::Relative },
        0x71 => Opcode { code: 0x71, mnemonic: Mnemonic::ADC, bytes: 2, cycles: 5, mode: AddressingMode::IndirectY },
        0x72 => Opcode { code: 0x72, mnemonic: Mnemonic::STP, bytes: 1, cycles: 0, mode: AddressingMode::Implied },
        0x73 => Opcode { code: 0x73, mnemonic: Mnemonic::RRA, bytes: 2, cycles: 8, mode: AddressingMode::IndirectY },
        0x74 => Opcode { code: 0x74, mnemonic: Mnemonic::NOP, bytes: 2, cycles: 4, mode: AddressingMode::ZeroPageX },
        0x75 => Opcode { code: 0x75, mnemonic: Mnemonic::ADC, bytes: 2, cycles: 4, mode: AddressingMode::ZeroPageX },
        0x76 => Opcode { code: 0x76, mnemonic: Mnemonic::ROR, bytes: 2, cycles: 6, mode: AddressingMode::ZeroPageX },
        0x77 => Opcode { code: 0x77, mnemonic: Mnemonic::RRA, bytes: 2, cycles: 6, mode: AddressingMode::ZeroPageX },
        0x78 => Opcode { code: 0x78, mnemonic: Mnemonic::SEI, bytes: 1, cycles: 2, mode: AddressingMode::Implied },
        0x79 => Opcode { code: 0x79, mnemonic: Mnemonic::ADC, bytes: 3, cycles: 4, mode: AddressingMode::AbsoluteY },
        0x7A => Opcode { code: 0x7A, mnemonic: Mnemonic::NOP, bytes: 1, cycles: 2, mode: AddressingMode::Implied },
        0x7B => Opcode { code: 0x7B, mnemonic: Mnemonic::RRA, bytes: 3, cycles: 7, mode: AddressingMode::AbsoluteY },
        0x7C => Opcode { code: 0x7C, mnemonic: Mnemonic::NOP, bytes: 3, cycles: 4, mode: AddressingMode::AbsoluteX },
        0x7D => Opcode { code: 0x7D, mnemonic: Mnemonic::ADC, bytes: 3, cycles: 4, mode: AddressingMode::AbsoluteX },
        0x7E => Opcode { code: 0x7E, mnemonic: Mnemonic::ROR, bytes: 3, cycles: 7, mode: AddressingMode::AbsoluteX },
        0x7F => Opcode { code: 0x7F, mnemonic: Mnemonic::RRA, bytes: 3, cycles: 7, mode: AddressingMode::AbsoluteX },
        0x80 => Opcode { code: 0x80, mnemonic: Mnemonic::NOP, bytes: 2, cycles: 2, mode: AddressingMode::Immediate },
        0x81 => Opcode { code: 0x81, mnemonic: Mnemonic::STA, bytes: 2, cycles: 6, mode: AddressingMode::IndirectX },
        0x82 => Opcode { code: 0x82, mnemonic: Mnemonic::NOP, bytes: 2, cycles: 2, mode: AddressingMode::Immediate },
        0x83 => Opcode { code: 0x83, mnemonic: Mnemonic::SAX, bytes: 2, cycles: 6, mode: AddressingMode::IndirectX },
        0x84 => Opcode { code: 0x84, mnemonic: Mnemonic::STY, bytes: 2, cycles: 3, mode: AddressingMode::ZeroPage },
        0x85 => Opcode { code: 0x85, mnemonic: Mnemonic::STA, bytes: 2, cycles: 3, mode: AddressingMode::ZeroPage },
        0x86 => Opcode { code: 0x86, mnemonic: Mnemonic::STX, bytes: 2, cycles: 3, mode: AddressingMode::ZeroPage },
        0x87 => Opcode { code: 0x87, mnemonic: Mnemonic::SAX, bytes: 2, cycles: 3, mode: AddressingMode::ZeroPage },
        0x88 => Opcode { code: 0x88, mnemonic: Mnemonic::DEY, bytes: 1, cycles: 2, mode: AddressingMode::Implied },
        0x89 => Opcode { code: 0x89, mnemonic: Mnemonic::NOP, bytes: 2, cycles: 2, mode: AddressingMode::Immediate },
        0x8A => Opcode { code: 0x8A, mnemonic: Mnemonic::TXA, bytes: 1, cycles: 2, mode: AddressingMode::Implied },
        0x8B => Opcode { code: 0x8B, mnemonic: Mnemonic::XAA, bytes: 2, cycles: 2, mode: AddressingMode::Immediate },
        0x8C => Opcode { code: 0x8C, mnemonic: Mnemonic::STY, bytes: 3, cycles: 4, mode: AddressingMode::Absolute },
        0x8D => Opcode { code: 0x8D, mnemonic: Mnemonic::STA, bytes: 3, cycles: 4, mode: AddressingMode::Absolute },
        0x8E => Opcode { code: 0x8E, mnemonic: Mnemonic::STX, bytes: 3, cycles: 4, mode: AddressingMode::Absolute },
        0x8F => Opcode { code: 0x8F, mnemonic: Mnemonic::SAX, bytes: 3, cycles: 4, mode: AddressingMode::Absolute },
        0x90 => Opcode { code: 0x90, mnemonic: Mnemonic::BCC, bytes: 2, cycles: 2, mode: AddressingMode::Relative },
        0x91 => Opcode { code: 0x91, mnemonic: Mnemonic::STA, bytes: 2, cycles: 6, mode: AddressingMode::IndirectY },
        0x92 => Opcode { code: 0x92, mnemonic: Mnemonic::STP, bytes: 1, cycles: 0, mode: AddressingMode::Implied },
        0x93 => Opcode { code: 0x93, mnemonic: Mnemonic::AHX, bytes: 2, cycles: 6, mode: AddressingMode::IndirectY },
        0x94 => Opcode { code: 0x94, mnemonic: Mnemonic::STY, bytes: 2, cycles: 4, mode: AddressingMode::ZeroPageX },
        0x95 => Opcode { code: 0x95, mnemonic: Mnemonic::STA, bytes: 2, cycles: 4, mode: AddressingMode::ZeroPageX },
        0x96 => Opcode { code: 0x96, mnemonic: Mnemonic::STX, bytes: 2, cycles: 4, mode: AddressingMode::ZeroPageY },
        0x97 => Opcode { code: 0x97, mnemonic: Mnemonic::SAX, bytes: 2, cycles: 4, mode: AddressingMode::ZeroPageY },
        0x98 => Opcode { code: 0x98, mnemonic: Mnemonic::TYA, bytes: 1, cycles: 2, mode: AddressingMode::Implied },
        0x99 => Opcode { code: 0x99, mnemonic: Mnemonic::STA, bytes: 3, cycles: 5, mode: AddressingMode::AbsoluteY },
        0x9A => Opcode { code: 0x9A, mnemonic: Mnemonic::TXS, bytes: 1, cycles: 2, mode: AddressingMode::Implied },
        0x9B => Opcode { code: 0x9B, mnemonic: Mnemonic::TAS, bytes: 3, cycles: 5, mode: AddressingMode::AbsoluteY },
        0x9C => Opcode { code: 0x9C, mnemonic: Mnemonic::SHY, bytes: 3, cycles: 5, mode: AddressingMode::AbsoluteX },
        0x9D => Opcode { code: 0x9D, mnemonic: Mnemonic::STA, bytes: 3, cycles: 5, mode: AddressingMode::AbsoluteX },
        0x9E => Opcode { code: 0x9E, mnemonic: Mnemonic::SHX, bytes: 3, cycles: 5, mode: AddressingMode::AbsoluteY },
        0x9F => Opcode { code: 0x9F, mnemonic: Mnemonic::AHX, bytes: 3, cycles: 5, mode: AddressingMode::AbsoluteY },
        0xA0 => Opcode { code: 0xA0, mnemonic: Mnemonic::LDY, bytes: 2, cycles: 2, mode: AddressingMode::Immediate },
        0xA1 => Opcode { code: 0xA1, mnemonic: Mnemonic::LDA, bytes: 2, cycles: 6, mode: AddressingMode::IndirectX },
        0xA2 => Opcode { code: 0xA2, mnemonic: Mnemonic::LDX, bytes: 2, cycles: 2, mode: AddressingMode::Immediate },
        0xA3 => Opcode { code: 0xA3, mnemonic: Mnemonic::LAX, bytes: 2, cycles: 6, mode: AddressingMode::IndirectX },
        0xA4 => Opcode { code: 0xA4, mnemonic: Mnemonic::LDY, bytes: 2, cycles: 3, mode: AddressingMode::ZeroPage },
        0xA5 => Opcode { code: 0xA5, mnemonic: Mnemonic::LDA, bytes: 2, cycles: 3, mode: AddressingMode::ZeroPage },
        0xA6 => Opcode { code: 0xA6, mnemonic: Mnemonic::LDX, bytes: 2, cycles: 3, mode: AddressingMode::ZeroPage },
        0xA7 => Opcode { code: 0xA7, mnemonic: Mnemonic::LAX, bytes: 2, cycles: 3, mode: AddressingMode::ZeroPage },
        0xA8 => Opcode { code: 0xA8, mnemonic: Mnemonic::TAY, bytes: 1, cycles: 2, mode: AddressingMode::Implied },
        0xA9 => Opcode { code: 0xA9, mnemonic: Mnemonic::LDA, bytes: 2, cycles: 2, mode: AddressingMode::Immediate },
        0xAA => Opcode { code: 0xAA, mnemonic: Mnemonic::TAX, bytes: 1, cycles: 2, mode: AddressingMode::Implied },
        0xAB => Opcode { code: 0xAB, mnemonic: Mnemonic::LXA, bytes: 2, cycles: 2, mode: AddressingMode::Immediate },
        0xAC => Opcode { code: 0xAC, mnemonic: Mnemonic::LDY, bytes: 3, cycles: 4, mode: AddressingMode::Absolute },
        0xAD => Opcode { code: 0xAD, mnemonic: Mnemonic::LDA, bytes: 3, cycles: 4, mode: AddressingMode::Absolute },
        0xAE => Opcode { code: 0xAE, mnemonic: Mnemonic::LDX, bytes: 3, cycles: 4, mode: AddressingMode::Absolute },
        0xAF => Opcode { code: 0xAF, mnemonic: Mnemonic::LAX, bytes: 3, cycles: 4, mode: AddressingMode::Absolute },
        0xB0 => Opcode { code: 0xB0, mnemonic: Mnemonic::BCS, bytes: 2, cycles: 2, mode: AddressingMode::Relative },
        0xB1 => Opcode { code: 0xB1, mnemonic: Mnemonic::LDA, bytes: 2, cycles: 5, mode: AddressingMode::IndirectY },
        0xB2 => Opcode { code: 0xB2, mnemonic: Mnemonic::STP, bytes: 1, cycles: 0, mode: AddressingMode::Implied },
        0xB3 => Opcode { code: 0xB3, mnemonic: Mnemonic::LAX, bytes: 2, cycles: 5, mode: AddressingMode::IndirectY },
        0xB4 => Opcode { code: 0xB4, mnemonic: Mnemonic::LDY, bytes: 2, cycles: 4, mode: AddressingMode::ZeroPageX },
        0xB5 => Opcode { code: 0xB5, mnemonic: Mnemonic::LDA, bytes: 2, cycles: 4, mode: AddressingMode::ZeroPageX },
        0xB6 => Opcode { code: 0xB6, mnemonic: Mnemonic::LDX, bytes: 2, cycles: 4, mode: AddressingMode::ZeroPageY },
        0xB7 => Opcode { code: 0xB7, mnemonic: Mnemonic::LAX, bytes: 2, cycles: 4, mode: AddressingMode::ZeroPageY },
        0xB8 => Opcode { code: 0xB8, mnemonic: Mnemonic::CLV, bytes: 1, cycles: 2, mode: AddressingMode::Implied },
        0xB9 => Opcode { code: 0xB9, mnemonic: Mnemonic::LDA, bytes: 3, cycles: 4, mode: AddressingMode::AbsoluteY },
        0xBA => Opcode { code: 0xBA, mnemonic: Mnemonic::TSX, bytes: 1, cycles: 2, mode: AddressingMode::Implied },
        0xBB => Opcode { code: 0xBB, mnemonic: Mnemonic::LAS, bytes: 3, cycles: 4, mode: AddressingMode::AbsoluteY },
        0xBC => Opcode { code: 0xBC, mnemonic: Mnemonic::LDY, bytes: 3, cycles: 4, mode: AddressingMode::AbsoluteX },
        0xBD => Opcode { code: 0xBD, mnemonic: Mnemonic::LDA, bytes: 3, cycles: 4, mode: AddressingMode::AbsoluteX },
        0xBE => Opcode { code: 0xBE, mnemonic: Mnemonic::LDX, bytes: 3, cycles: 4, mode: AddressingMode::AbsoluteY },
        0xBF => Opcode { code: 0xBF, mnemonic: Mnemonic::LAX, bytes: 3, cycles: 4, mode: AddressingMode::AbsoluteY },
        0xC0 => Opcode { code: 0xC0, mnemonic: Mnemonic::CPY, bytes: 2, cycles: 2, mode: AddressingMode::Immediate },
        0xC1 => Opcode { code: 0xC1, mnemonic: Mnemonic::CMP, bytes: 2, cycles: 6, mode: AddressingMode::IndirectX },
        0xC2 => Opcode { code: 0xC2, mnemonic: Mnemonic::NOP, bytes: 2, cycles: 2, mode: AddressingMode::Immediate },
        0xC3 => Opcode { code: 0xC3, mnemonic: Mnemonic::DCP, bytes: 2, cycles: 8, mode: AddressingMode::IndirectX },
        0xC4 => Opcode { code: 0xC4, mnemonic: Mnemonic::CPY, bytes: 2, cycles: 3, mode: AddressingMode::ZeroPage },
        0xC5 => Opcode { code: 0xC5, mnemonic: Mnemonic::CMP, bytes: 2, cycles: 3, mode: AddressingMode::ZeroPage },
        0xC6 => Opcode { code: 0xC6, mnemonic: Mnemonic::DEC, bytes: 2, cycles: 5, mode: AddressingMode::ZeroPage },
        0xC7 => Opcode { code: 0xC7, mnemonic: Mnemonic::DCP, bytes: 2, cycles: 5, mode: AddressingMode::ZeroPage },
        0xC8 => Opcode { code: 0xC8, mnemonic: Mnemonic::INY, bytes: 1, cycles: 2, mode: AddressingMode::Implied },
        0xC9 => Opcode { code: 0xC9, mnemonic: Mnemonic::CMP, bytes: 2, cycles: 2, mode: AddressingMode::Immediate },
        0xCA => Opcode { code: 0xCA, mnemonic: Mnemonic::DEX, bytes: 1, cycles: 2, mode: AddressingMode::Implied },
        0xCB => Opcode { code: 0xCB, mnemonic: Mnemonic::AXS, bytes: 2, cycles: 2, mode: AddressingMode::Immediate },
        0xCC => Opcode { code: 0xCC, mnemonic: Mnemonic::CPY, bytes: 3, cycles: 4, mode: AddressingMode::Absolute },
        0xCD => Opcode { code: 0xCD, mnemonic: Mnemonic::CMP, bytes: 3, cycles: 4, mode: AddressingMode::Absolute },
        0xCE => Opcode { code: 0xCE, mnemonic: Mnemonic::DEC, bytes: 3, cycles: 6, mode: AddressingMode::Absolute },
        0xCF => Opcode { code: 0xCF, mnemonic: Mnemonic::DCP, bytes: 3, cycles: 6, mode: AddressingMode::Absolute },
        0xD0 => Opcode { code: 0xD0, mnemonic: Mnemonic::BNE, bytes: 2, cycles: 2, mode: AddressingMode::Relative },
        0xD1 => Opcode { code: 0xD1, mnemonic: Mnemonic::CMP, bytes: 2, cycles: 5, mode: AddressingMode::IndirectY },
        0xD2 => Opcode { code: 0xD2, mnemonic: Mnemonic::STP, bytes: 1, cycles: 0, mode: AddressingMode::Implied },
        0xD3 => Opcode { code: 0xD3, mnemonic: Mnemonic::DCP, bytes: 2, cycles: 8, mode: AddressingMode::IndirectY },
        0xD4 => Opcode { code: 0xD4, mnemonic: Mnemonic::NOP, bytes: 2, cycles: 4, mode: AddressingMode::ZeroPageX },
        0xD5 => Opcode { code: 0xD5, mnemonic: Mnemonic::CMP, bytes: 2, cycles: 4, mode: AddressingMode::ZeroPageX },
        0xD6 => Opcode { code: 0xD6, mnemonic: Mnemonic::DEC, bytes: 2, cycles: 6, mode: AddressingMode::ZeroPageX },
        0xD7 => Opcode { code: 0xD7, mnemonic: Mnemonic::DCP, bytes: 2, cycles: 6, mode: AddressingMode::ZeroPageX },
        0xD8 => Opcode { code: 0xD8, mnemonic: Mnemonic::CLD, bytes: 1, cycles: 2, mode: AddressingMode::Implied },
        0xD9 => Opcode { code: 0xD9, mnemonic: Mnemonic::CMP, bytes: 3, cycles: 4, mode: AddressingMode::AbsoluteY },
        0xDA => Opcode { code: 0xDA, mnemonic: Mnemonic::NOP, bytes: 1, cycles: 2, mode: AddressingMode::Implied },
        0xDB => Opcode { code: 0xDB, mnemonic: Mnemonic::DCP, bytes: 3, cycles: 7, mode: AddressingMode::AbsoluteY },
        0xDC => Opcode { code: 0xDC, mnemonic: Mnemonic::NOP, bytes: 3, cycles: 4, mode: AddressingMode::AbsoluteX },
        0xDD => Opcode { code: 0xDD, mnemonic: Mnemonic::CMP, bytes: 3, cycles: 4, mode: AddressingMode::AbsoluteX },
        0xDE => Opcode { code: 0xDE, mnemonic: Mnemonic::DEC, bytes: 3, cycles: 7, mode: AddressingMode::AbsoluteX },
        0xDF => Opcode { code: 0xDF, mnemonic: Mnemonic::DCP, bytes: 3, cycles: 7, mode: AddressingMode::AbsoluteX },
        0xE0 => Opcode { code: 0xE0, mnemonic: Mnemonic::CPX, bytes: 2, cycles: 2, mode: AddressingMode::Immediate },
        0xE1 => Opcode { code: 0xE1, mnemonic: Mnemonic::SBC, bytes: 2, cycles: 6, mode: AddressingMode::IndirectX },
        0xE2 => Opcode { code: 0xE2, mnemonic: Mnemonic::NOP, bytes: 2, cycles: 2, mode: AddressingMode::Immediate },
        0xE3 => Opcode { code: 0xE3, mnemonic: Mnemonic::ISC, bytes: 2, cycles: 8, mode: AddressingMode::IndirectX },
        0xE4 => Opcode { code: 0xE4, mnemonic: Mnemonic::CPX, bytes: 2, cycles: 3, mode: AddressingMode::ZeroPage },
        0xE5 => Opcode { code: 0xE5, mnemonic: Mnemonic::SBC, bytes: 2, cycles: 3, mode: AddressingMode::ZeroPage },
        0xE6 => Opcode { code: 0xE6, mnemonic: Mnemonic::INC, bytes: 2, cycles: 5, mode: AddressingMode::ZeroPage },
        0xE7 => Opcode { code: 0xE7, mnemonic: Mnemonic::ISC, bytes: 2, cycles: 5, mode: AddressingMode::ZeroPage },
        0xE8 => Opcode { code: 0xE8, mnemonic: Mnemonic::INX, bytes: 1, cycles: 2, mode: AddressingMode::Implied },
        0xE9 => Opcode { code: 0xE9, mnemonic: Mnemonic::SBC, bytes: 2, cycles: 2, mode: AddressingMode::Immediate },
        0xEA => Opcode { code: 0xEA, mnemonic: Mnemonic::NOP, bytes: 1, cycles: 2, mode: AddressingMode::Implied },
        0xEB => Opcode { code: 0xEB, mnemonic: Mnemonic::SBC, bytes: 2, cycles: 2, mode: AddressingMode::Immediate },
        0xEC => Opcode { code: 0xEC, mnemonic: Mnemonic::CPX, bytes: 3, cycles: 4, mode: AddressingMode::Absolute },
        0xED => Opcode { code: 0xED, mnemonic: Mnemonic::SBC, bytes: 3, cycles: 4, mode: AddressingMode::Absolute },
        0xEE => Opcode { code: 0xEE, mnemonic: Mnemonic::INC, bytes: 3, cycles: 6, mode: AddressingMode::Absolute },
        0xEF => Opcode { code: 0xEF, mnemonic: Mnemonic::ISC, bytes: 3, cycles: 6, mode: AddressingMode::Absolute },
        0xF0 => Opcode { code: 0xF0, mnemonic: Mnemonic::BEQ, bytes: 2, cycles: 2, mode: AddressingMode::Relative },
        0xF1 => Opcode { code: 0xF1, mnemonic: Mnemonic::SBC, bytes: 2, cycles: 5, mode: AddressingMode::IndirectY },
        0xF2 => Opcode { code: 0xF2, mnemonic: Mnemonic::STP, bytes: 1, cycles: 0, mode: AddressingMode::Implied },
        0xF3 => Opcode { code: 0xF3, mnemonic: Mnemonic::ISC, bytes: 2, cycles: 8, mode: AddressingMode::IndirectY },
        0xF4 => Opcode { code: 0xF4, mnemonic: Mnemonic::NOP, bytes: 2, cycles: 4, mode: AddressingMode::ZeroPageX },
        0xF5 => Opcode { code: 0xF5, mnemonic: Mnemonic::SBC, bytes: 2, cycles: 4, mode: AddressingMode::ZeroPageX },
        0xF6 => Opcode { code: 0xF6, mnemonic: Mnemonic::INC, bytes: 2, cycles: 6, mode: AddressingMode::ZeroPageX },
        0xF7 => Opcode { code: 0xF7, mnemonic: Mnemonic::ISC, bytes: 2, cycles: 6, mode: AddressingMode::ZeroPageX },
        0xF8 => Opcode { code: 0xF8, mnemonic: Mnemonic::SED, bytes: 1, cycles: 2, mode: AddressingMode::Implied },
        0xF9 => Opcode { code: 0xF9, mnemonic: Mnemonic::SBC, bytes: 3, cycles: 4, mode: AddressingMode::AbsoluteY },
        0xFA => Opcode { code: 0xFA, mnemonic: Mnemonic::NOP, bytes: 1, cycles: 2, mode: AddressingMode::Implied },
        0xFB => Opcode { code: 0xFB, mnemonic: Mnemonic::ISC, bytes: 3, cycles: 7, mode: AddressingMode::AbsoluteY },
        0xFC => Opcode { code: 0xFC, mnemonic: Mnemonic::NOP, bytes: 3, cycles: 4, mode: AddressingMode::AbsoluteX },
        0xFD => Opcode { code: 0xFD, mnemonic: Mnemonic::SBC, bytes: 3, cycles: 4, mode: AddressingMode::AbsoluteX },
        0xFE => Opcode { code: 0xFE, mnemonic: Mnemonic::INC, bytes: 3, cycles: 7, mode: AddressingMode::AbsoluteX },
        _ => Opcode { code: 0xFF, mnemonic: Mnemonic::ISC, bytes: 3, cycles: 7, mode: AddressingMode::AbsoluteX },
    }
}
fn opcode_entry_0(code: u8) -> (r: Opcode)
    requires 0 <= code < 64,
    ensures r == spec_opcode(code),
{
    match code {
        0x00 => Opcode { code: 0x00, mnemonic: Mnemonic::BRK, bytes: 1, cycles: 7, mode: AddressingMode::Implied },
        0x01 => Opcode { code: 0x01, mnemonic: Mnemonic::ORA, bytes: 2, cycles: 6, mode: AddressingMode::IndirectX },
        0x02 => Opcode { code: 0x02, mnemonic: Mnemonic::STP, bytes: 1, cycles: 0, mode: AddressingMode::Implied },
        0x03 => Opcode { code: 0x03, mnemonic: Mnemonic::SLO, bytes: 2, cycles: 8, mode: AddressingMode::IndirectX },
        0x04 => Opcode { code: 0x04, mnemonic: Mnemonic::NOP, bytes: 2, cycles: 3, mode: AddressingMode::ZeroPage },
        0x05 => Opcode { code: 0x05, mnemonic: Mnemonic::ORA, bytes: 2, cycles: 3, mode: AddressingMode::ZeroPage },
        0x06 => Opcode { code: 0x06, mnemonic: Mnemonic::ASL, bytes: 2, cycles: 5, mode: AddressingMode::ZeroPage },
        0x07 => Opcode { code: 0x07, mnemonic: Mnemonic::SLO, bytes: 2, cycles: 5, mode: AddressingMode::ZeroPage },
        0x08 => Opcode { code: 0x08, mnemonic: Mnemonic::PHP, bytes: 1, cycles: 3, mode: AddressingMode::Implied },
        0x09 => Opcode { code: 0x09, mnemonic: Mnemonic::ORA, bytes: 2, cycles: 2, mode: AddressingMode::Immediate },
        0x0A => Opcode { code: 0x0A, mnemonic: Mnemonic::ASL, bytes: 1, cycles: 2, mode: AddressingMode::Accumulator },
        0x0B => Opcode { code: 0x0B, mnemonic: Mnemonic::ANC, bytes: 2, cycles: 2, mode: AddressingMode::Immediate },
        0x0C => Opcode { code: 0x0C, mnemonic: Mnemonic::NOP, bytes: 3, cycles: 4, mode: AddressingMode::Absolute },
        0x0D => Opcode { code: 0x0D, mnemonic: Mnemonic::ORA, bytes: 3, cycles: 4, mode: AddressingMode::Absolute },
        0x0E => Opcode { code: 0x0E, mnemonic: Mnemonic::ASL, bytes: 3, cycles: 6, mode: AddressingMode::Absolute },
        0x0F => Opcode { code: 0x0F, mnemonic: Mnemonic::SLO, bytes: 3, cycles: 6, mode: AddressingMode::Absolute },
        0x10 => Opcode { code: 0x10, mnemonic: Mnemonic::BPL, bytes: 2, cycles: 2, mode: AddressingMode::Relative },
        0x11 => Opcode { code: 0x11, mnemonic: Mnemonic::ORA, bytes: 2, cycles: 5, mode: AddressingMode::IndirectY },
        0x12 => Opcode { code: 0x12, mnemonic: Mnemonic::STP, bytes: 1, cycles: 0, mode: AddressingMode::Implied },
        0x13 => Opcode { code: 0x13, mnemonic: Mnemonic::SLO, bytes: 2, cycles: 8, mode: AddressingMode::IndirectY },
        0x14 => Opcode { code: 0x14, mnemonic: Mnemonic::NOP, bytes: 2, cycles: 4, mode: AddressingMode::ZeroPageX },
        0x15 => Opcode { code: 0x15, mnemonic: Mnemonic::ORA, bytes: 2, cycles: 4, mode: AddressingMode::ZeroPageX },
        0x16 => Opcode { code: 0x16, mnemonic: Mnemonic::ASL, bytes: 2, cycles: 6, mode: AddressingMode::ZeroPageX },
        0x17 => Opcode { code: 0x17, mnemonic: Mnemonic::SLO, bytes: 2, cycles: 6, mode: AddressingMode::ZeroPageX },
        0x18 => Opcode { code: 0x18, mnemonic: Mnemonic::CLC, bytes: 1, cycles: 2, mode: AddressingMode::Implied },
        0x19 => Opcode { code: 0x19, mnemonic: Mnemonic::ORA, bytes: 3, cycles: 4, mode: AddressingMode::AbsoluteY },
        0x1A => Opcode { code: 0x1A, mnemonic: Mnemonic::NOP, bytes: 1, cycles: 2, mode: AddressingMode::Implied },
        0x1B => Opcode { code: 0x1B, mnemonic: Mnemonic::SLO, bytes: 3, cycles: 7, mode: AddressingMode::AbsoluteY },
        0x1C => Opcode { code: 0x1C, mnemonic: Mnemonic::NOP, bytes: 3, cycles: 4, mode: AddressingMode::AbsoluteX },
        0x1D => Opcode { code: 0x1D, mnemonic: Mnemonic::ORA, bytes: 3, cycles: 4, mode: AddressingMode::AbsoluteX },
        0x1E => Opcode { code: 0x1E, mnemonic: Mnemonic::ASL, bytes: 3, cycles: 7, mode: AddressingMode::AbsoluteX },
        0x1F => Opcode { code: 0x1F, mnemonic: Mnemonic::SLO, bytes: 3, cycles: 7, mode: AddressingMode::AbsoluteX },
        0x20 => Opcode { code: 0x20, mnemonic: Mnemonic::JSR, bytes: 3, cycles: 6, mode: AddressingMode::Absolute },
        0x21 => Opcode { code: 0x21, mnemonic: Mnemonic::AND, bytes: 2, cycles: 6, mode: AddressingMode::IndirectX },
        0x22 => Opcode { code: 0x22, mnemonic: Mnemonic::STP, bytes: 1, cycles: 0, mode: AddressingMode::Implied },
        0x23 => Opcode { code: 0x23, mnemonic: Mnemonic::RLA, bytes: 2, cycles: 8, mode: AddressingMode::IndirectX },
        0x24 => Opcode { code: 0x24, mnemonic: Mnemonic::BIT, bytes: 2, cycles: 3, mode: AddressingMode::ZeroPage },
        0x25 => Opcode { code: 0x25, mnemonic: Mnemonic::AND, bytes: 2, cycles: 3, mode: AddressingMode::ZeroPage },
        0x26 => Opcode { code: 0x26, mnemonic: Mnemonic::ROL, bytes: 2, cycles: 5, mode: AddressingMode::ZeroPage },
        0x27 => Opcode { code: 0x27, mnemonic: Mnemonic::RLA, bytes: 2, cycles: 5, mode: AddressingMode::ZeroPage },
        0x28 => Opcode { code: 0x28, mnemonic: Mnemonic::PLP, bytes: 1, cycles: 4, mode: AddressingMode::Implied },
        0x29 => Opcode { code: 0x29, mnemonic: Mnemonic::AND, bytes: 2, cycles: 2, mode: AddressingMode::Immediate },
        0x2A => Opcode { code: 0x2A, mnemonic: Mnemonic::ROL, bytes: 1, cycles: 2, mode: AddressingMode::Accumulator },
        0x2B => Opcode { code: 0x2B, mnemonic: Mnemonic::ANC, bytes: 2, cycles: 2, mode: AddressingMode::Immediate },
        0x2C => Opcode { code: 0x2C, mnemonic: Mnemonic::BIT, bytes: 3, cycles: 4, mode: AddressingMode::Absolute },
        0x2D => Opcode { code: 0x2D, mnemonic: Mnemonic::AND, bytes: 3, cycles: 4, mode: AddressingMode::Absolute },
        0x2E => Opcode { code: 0x2E, mnemonic: Mnemonic::ROL, bytes: 3, cycles: 6, mode: AddressingMode::Absolute },
        0x2F => Opcode { code: 0x2F, mnemonic: Mnemonic::RLA, bytes: 3, cycles: 6, mode: AddressingMode::Absolute },
        0x30 => Opcode { code: 0x30, mnemonic: Mnemonic::BMI, bytes: 2, cycles: 2, mode: AddressingMode::Relative },
        0x31 => Opcode { code: 0x31, mnemonic: Mnemonic::AND, bytes: 2, cycles: 5, mode: AddressingMode::IndirectY },
        0x32 => Opcode { code: 0x32, mnemonic: Mnemonic::STP, bytes: 1, cycles: 0, mode: AddressingMode::Implied },
        0x33 => Opcode { code: 0x33, mnemonic: Mnemonic::RLA, bytes: 2, cycles: 8, mode: AddressingMode::IndirectY },
        0x34 => Opcode { code: 0x34, mnemonic: Mnemonic::NOP, bytes: 2, cycles: 4, mode: AddressingMode::ZeroPageX },
        0x35 => Opcode { code: 0x35, mnemonic: Mnemonic::AND, bytes: 2, cycles: 4, mode: AddressingMode::ZeroPageX },
        0x36 => Opcode { code: 0x36, mnemonic: Mnemonic::ROL, bytes: 2, cycles: 6, mode: AddressingMode::ZeroPageX },
        0x37 => Opcode { code: 0x37, mnemonic: Mnemonic::RLA, bytes: 2, cycles: 6, mode: AddressingMode::ZeroPageX },
        0x38 => Opcode { code: 0x38, mnemonic: Mnemonic::SEC, bytes: 1, cycles: 2, mode: AddressingMode::Implied },
        0x39 => Opcode { code: 0x39, mnemonic: Mnemonic::AND, bytes: 3, cycles: 4, mode: AddressingMode::AbsoluteY },
        0x3A => Opcode { code: 0x3A, mnemonic: Mnemonic::NOP, bytes: 1, cycles: 2, mode: AddressingMode::Implied },
        0x3B => Opcode { code: 0x3B, mnemonic: Mnemonic::RLA, bytes: 3, cycles: 7, mode: AddressingMode::AbsoluteY },
        0x3C => Opcode { code: 0x3C, mnemonic: Mnemonic::NOP, bytes: 3, cycles: 4, mode: AddressingMode::AbsoluteX },
        0x3D => Opcode { code: 0x3D, mnemonic: Mnemonic::AND, bytes: 3, cycles: 4, mode: AddressingMode::AbsoluteX },
        0x3E => Opcode { code: 0x3E, mnemonic: Mnemonic::ROL, bytes: 3, cycles: 7, mode: AddressingMode::AbsoluteX },
        _ => Opcode { code: 0x3F, mnemonic: Mnemonic::RLA, bytes: 3, cycles: 7, mode: AddressingMode::AbsoluteX },
    }
}

fn opcode_entry_1(code: u8) -> (r: Opcode)
    requires 64 <= code < 128,
    ensures r == spec_opcode(code),
{
    match code {
        0x40 => Opcode { code: 0x40, mnemonic: Mnemonic::RTI, bytes: 1, cycles: 6, mode: AddressingMode::Implied },
        0x41 => Opcode { code: 0x41, mnemonic: Mnemonic::EOR, bytes: 2, cycles: 6, mode: AddressingMode::IndirectX },
        0x42 => Opcode { code: 0x42, mnemonic: Mnemonic::STP, bytes: 1, cycles: 0, mode: AddressingMode::Implied },
        0x43 => Opcode { code: 0x43, mnemonic: Mnemonic::SRE, bytes: 2, cycles: 8, mode: AddressingMode::IndirectX },
        0x44 => Opcode { code: 0x44, mnemonic: Mnemonic::NOP, bytes: 2, cycles: 3, mode: AddressingMode::ZeroPage },
        0x45 => Opcode { code: 0x45, mnemonic: Mnemonic::EOR, bytes: 2, cycles: 3, mode: AddressingMode::ZeroPage },
        0x46 => Opcode { code: 0x46, mnemonic: Mnemonic::LSR, bytes: 2, cycles: 5, mode: AddressingMode::ZeroPage },
        0x47 => Opcode { code: 0x47, mnemonic: Mnemonic::SRE, bytes: 2, cycles: 5, mode: AddressingMode::ZeroPage },
        0x48 => Opcode { code: 0x48, mnemonic: Mnemonic::PHA, bytes: 1, cycles: 3, mode: AddressingMode::Implied },
        0x49 => Opcode { code: 0x49, mnemonic: Mnemonic::EOR, bytes: 2, cycles: 2, mode: AddressingMode::Immediate },
        0x4A => Opcode { code: 0x4A, mnemonic: Mnemonic::LSR, bytes: 1, cycles: 2, mode: AddressingMode::Accumulator },
        0x4B => Opcode { code: 0x4B, mnemonic: Mnemonic::ALR, bytes: 2, cycles: 2, mode: AddressingMode::Immediate },
        0x4C => Opcode { code: 0x4C, mnemonic: Mnemonic::JMP, bytes: 3, cycles: 3, mode: AddressingMode::Absolute },
        0x4D => Opcode { code: 0x4D, mnemonic: Mnemonic::EOR, bytes: 3, cycles: 4, mode: AddressingMode::Absolute },
        0x4E => Opcode { code: 0x4E, mnemonic: Mnemonic::LSR, bytes: 3, cycles: 6, mode: AddressingMode::Absolute },
        0x4F => Opcode { code: 0x4F, mnemonic: Mnemonic::SRE, bytes: 3, cycles: 6, mode: AddressingMode::Absolute },
        0x50 => Opcode { code: 0x50, mnemonic: Mnemonic::BVC, bytes: 2, cycles: 2, mode: AddressingMode::Relative },
        0x51 => Opcode { code: 0x51, mnemonic: Mnemonic::EOR, bytes: 2, cycles: 5, mode: AddressingMode::IndirectY },
        0x52 => Opcode { code: 0x52, mnemonic: Mnemonic::STP, bytes: 1, cycles: 0, mode: AddressingMode::Implied },
        0x53 => Opcode { code: 0x53, mnemonic: Mnemonic::SRE, bytes: 2, cycles: 8, mode: AddressingMode::IndirectY },
        0x54 => Opcode { code: 0x54, mnemonic: Mnemonic::NOP, bytes: 2, cycles: 4, mode: AddressingMode::ZeroPageX },
        0x55 => Opcode { code: 0x55, mnemonic: Mnemonic::EOR, bytes: 2, cycles: 4, mode: AddressingMode::ZeroPageX },
        0x56 => Opcode { code: 0x56, mnemonic: Mnemonic::LSR, bytes: 2, cycles: 6, mode: AddressingMode::ZeroPageX },
        0x57 => Opcode { code: 0x57, mnemonic: Mnemonic::SRE, bytes: 2, cycles: 6, mode: AddressingMode::ZeroPageX },
        0x58 => Opcode { code: 0x58, mnemonic: Mnemonic::CLI, bytes: 1, cycles: 2, mode: AddressingMode::Implied },
        0x59 => Opcode { code: 0x59, mnemonic: Mnemonic::EOR, bytes: 3, cycles: 4, mode: AddressingMode::AbsoluteY },
        0x5A => Opcode { code: 0x5A, mnemonic: Mnemonic::NOP, bytes: 1, cycles: 2, mode: AddressingMode::Implied },
        0x5B => Opcode { code: 0x5B, mnemonic: Mnemonic::SRE, bytes: 3, cycles: 7, mode: AddressingMode::AbsoluteY },
        0x5C => Opcode { code: 0x5C, mnemonic: Mnemonic::NOP, bytes: 3, cycles: 4, mode: AddressingMode::AbsoluteX },
        0x5D => Opcode { code: 0x5D, mnemonic: Mnemonic::EOR, bytes: 3, cycles: 4, mode: AddressingMode::AbsoluteX },
        0x5E => Opcode { code: 0x5E, mnemonic: Mnemonic::LSR, bytes: 3, cycles: 7, mode: AddressingMode::AbsoluteX },
        0x5F => Opcode { code: 0x5F, mnemonic: Mnemonic::SRE, bytes: 3, cycles: 7, mode: AddressingMode::AbsoluteX },
        0x60 => Opcode { code: 0x60, mnemonic: Mnemonic::RTS, bytes: 1, cycles: 6, mode: AddressingMode::Implied },
        0x61 => Opcode { code: 0x61, mnemonic: Mnemonic::ADC, bytes: 2, cycles: 6, mode: AddressingMode::IndirectX },
        0x62 => Opcode { code: 0x62, mnemonic: Mnemonic::STP, bytes: 1, cycles: 0, mode: AddressingMode::Implied },
        0x63 => Opcode { code: 0x63, mnemonic: Mnemonic::RRA, bytes: 2, cycles: 8, mode: AddressingMode::IndirectX },
        0x64 => Opcode { code: 0x64, mnemonic: Mnemonic::NOP, bytes: 2, cycles: 3, mode: AddressingMode::ZeroPage },
        0x65 => Opcode { code: 0x65, mnemonic: Mnemonic::ADC, bytes: 2, cycles: 3, mode: AddressingMode::ZeroPage },
        0x66 => Opcode { code: 0x66, mnemonic: Mnemonic::ROR, bytes: 2, cycles: 5, mode: AddressingMode::ZeroPage },
        0x67 => Opcode { code: 0x67, mnemonic: Mnemonic::RRA, bytes: 2, cycles: 5, mode: AddressingMode::ZeroPage },
        0x68 => Opcode { code: 0x68, mnemonic: Mnemonic::PLA, bytes: 1, cycles: 4, mode: AddressingMode::Implied },
        0x69 => Opcode { code: 0x69, mnemonic: Mnemonic::ADC, bytes: 2, cycles: 2, mode: AddressingMode::Immediate },
        0x6A => Opcode { code: 0x6A, mnemonic: Mnemonic::ROR, bytes: 1, cycles: 2, mode: AddressingMode::Accumulator },
        0x6B => Opcode { code: 0x6B, mnemonic: Mnemonic::ARR, bytes: 2, cycles: 2, mode: AddressingMode::Immediate },
        0x6C => Opcode { code: 0x6C, mnemonic: Mnemonic::JMP, bytes: 3, cycles: 5, mode: AddressingMode::Indirect },
        0x6D => Opcode { code: 0x6D, mnemonic: Mnemonic::ADC, bytes: 3, cycles: 4, mode: AddressingMode::Absolute },
        0x6E => Opcode { code: 0x6E, mnemonic: Mnemonic::ROR, bytes: 3, cycles: 6, mode: AddressingMode::Absolute },
        0x6F => Opcode { code: 0x6F, mnemonic: Mnemonic::RRA, bytes: 3, cycles: 6, mode: AddressingMode::Absolute },
        0x70 => Opcode { code: 0x70, mnemonic: Mnemonic::BVS, bytes: 2, cycles: 2, mode: AddressingMode::Relative },
        0x71 => Opcode { code: 0x71, mnemonic: Mnemonic::ADC, bytes: 2, cycles: 5, mode: AddressingMode::IndirectY },
        0x72 => Opcode { code: 0x72, mnemonic: Mnemonic::STP, bytes: 1, cycles: 0, mode: AddressingMode::Implied },
        0x73 => Opcode { code: 0x73, mnemonic: Mnemonic::RRA, bytes: 2, cycles: 8, mode: AddressingMode::IndirectY },
        0x74 => Opcode { code: 0x74, mnemonic: Mnemonic::NOP, bytes: 2, cycles: 4, mode: AddressingMode::ZeroPageX },
        0x75 => Opcode { code: 0x75, mnemonic: Mnemonic::ADC, bytes: 2, cycles: 4, mode: AddressingMode::ZeroPageX },
        0x76 => Opcode { code: 0x76, mnemonic: Mnemonic::ROR, bytes: 2, cycles: 6, mode: AddressingMode::ZeroPageX },
        0x77 => Opcode { code: 0x77, mnemonic: Mnemonic::RRA, bytes: 2, cycles: 6, mode: AddressingMode::ZeroPageX },
        0x78 => Opcode { code: 0x78, mnemonic: Mnemonic::SEI, bytes: 1, cycles: 2, mode: AddressingMode::Implied },
        0x79 => Opcode { code: 0x79, mnemonic: Mnemonic::ADC, bytes: 3, cycles: 4, mode: AddressingMode::AbsoluteY },
        0x7A => Opcode { code: 0x7A, mnemonic: Mnemonic::NOP, bytes: 1, cycles: 2, mode: AddressingMode::Implied },
        0x7B => Opcode { code: 0x7B, mnemonic: Mnemonic::RRA, bytes: 3, cycles: 7, mode: AddressingMode::AbsoluteY },
        0x7C => Opcode { code: 0x7C, mnemonic: Mnemonic::NOP, bytes: 3, cycles: 4, mode: AddressingMode::AbsoluteX },
        0x7D => Opcode { code: 0x7D, mnemonic: Mnemonic::ADC, bytes: 3, cycles: 4, mode: AddressingMode::AbsoluteX },
        0x7E => Opcode { code: 0x7E, mnemonic: Mnemonic::ROR, bytes: 3, cycles: 7, mode: AddressingMode::AbsoluteX },
        _ => Opcode { code: 0x7F, mnemonic: Mnemonic::RRA, bytes: 3, cycles: 7, mode: AddressingMode::AbsoluteX },
    }
}

fn opcode_entry_2(code: u8) -> (r: Opcode)
    requires 128 <= code < 192,
    ensures r == spec_opcode(code),
{
    match code {
        0x80 => Opcode { code: 0x80, mnemonic: Mnemonic::NOP, bytes: 2, cycles: 2, mode: AddressingMode::Immediate },
        0x81 => Opcode { code: 0x81, mnemonic: Mnemonic::STA, bytes: 2, cycles: 6, mode: AddressingMode::IndirectX },
        0x82 => Opcode { code: 0x82, mnemonic: Mnemonic::NOP, bytes: 2, cycles: 2, mode: AddressingMode::Immediate },
        0x83 => Opcode { code: 0x83, mnemonic: Mnemonic::SAX, bytes: 2, cycles: 6, mode: AddressingMode::IndirectX },
        0x84 => Opcode { code: 0x84, mnemonic: Mnemonic::STY, bytes: 2, cycles: 3, mode: AddressingMode::ZeroPage },
        0x85 => Opcode { code: 0x85, mnemonic: Mnemonic::STA, bytes: 2, cycles: 3, mode: AddressingMode::ZeroPage },
        0x86 => Opcode { code: 0x86, mnemonic: Mnemonic::STX, bytes: 2, cycles: 3, mode: AddressingMode::ZeroPage },
        0x87 => Opcode { code: 0x87, mnemonic: Mnemonic::SAX, bytes: 2, cycles: 3, mode: AddressingMode::ZeroPage },
        0x88 => Opcode { code: 0x88, mnemonic: Mnemonic::DEY, bytes: 1, cycles: 2, mode: AddressingMode::Implied },
        0x89 => Opcode { code: 0x89, mnemonic: Mnemonic::NOP, bytes: 2, cycles: 2, mode: AddressingMode::Immediate },
        0x8A => Opcode { code: 0x8A, mnemonic: Mnemonic::TXA, bytes: 1, cycles: 2, mode: AddressingMode::Implied },
        0x8B => Opcode { code: 0x8B, mnemonic: Mnemonic::XAA, bytes: 2, cycles: 2, mode: AddressingMode::Immediate },
        0x8C => Opcode { code: 0x8C, mnemonic: Mnemonic::STY, bytes: 3, cycles: 4, mode: AddressingMode::Absolute },
        0x8D => Opcode { code: 0x8D, mnemonic: Mnemonic::STA, bytes: 3, cycles: 4, mode: AddressingMode::Absolute },
        0x8E => Opcode { code: 0x8E, mnemonic: Mnemonic::STX, bytes: 3, cycles: 4, mode: AddressingMode::Absolute },
        0x8F => Opcode { code: 0x8F, mnemonic: Mnemonic::SAX, bytes: 3, cycles: 4, mode: AddressingMode::Absolute },
        0x90 => Opcode { code: 0x90, mnemonic: Mnemonic::BCC, bytes: 2, cycles: 2, mode: AddressingMode::Relative },
        0x91 => Opcode { code: 0x91, mnemonic: Mnemonic::STA, bytes: 2, cycles: 6, mode: AddressingMode::IndirectY },
        0x92 => Opcode { code: 0x92, mnemonic: Mnemonic::STP, bytes: 1, cycles: 0, mode: AddressingMode::Implied },
        0x93 => Opcode { code: 0x93, mnemonic: Mnemonic::AHX, bytes: 2, cycles: 6, mode: AddressingMode::IndirectY },
        0x94 => Opcode { code: 0x94, mnemonic: Mnemonic::STY, bytes: 2, cycles: 4, mode: AddressingMode::ZeroPageX },
        0x95 => Opcode { code: 0x95, mnemonic: Mnemonic::STA, bytes: 2, cycles: 4, mode: AddressingMode::ZeroPageX },
        0x96 => Opcode { code: 0x96, mnemonic: Mnemonic::STX, bytes: 2, cycles: 4, mode: AddressingMode::ZeroPageY },
        0x97 => Opcode { code: 0x97, mnemonic: Mnemonic::SAX, bytes: 2, cycles: 4, mode: AddressingMode::ZeroPageY },
        0x98 => Opcode { code: 0x98, mnemonic: Mnemonic::TYA, bytes: 1, cycles: 2, mode: AddressingMode::Implied },
        0x99 => Opcode { code: 0x99, mnemonic: Mnemonic::STA, bytes: 3, cycles: 5, mode: AddressingMode::AbsoluteY },
        0x9A => Opcode { code: 0x9A, mnemonic: Mnemonic::TXS, bytes: 1, cycles: 2, mode: AddressingMode::Implied },
        0x9B => Opcode { code: 0x9B, mnemonic: Mnemonic::TAS, bytes: 3, cycles: 5, mode: AddressingMode::AbsoluteY },
        0x9C => Opcode { code: 0x9C, mnemonic: Mnemonic::SHY, bytes: 3, cycles: 5, mode: AddressingMode::AbsoluteX },
        0x9D => Opcode { code: 0x9D, mnemonic: Mnemonic::STA, bytes: 3, cycles: 5, mode: AddressingMode::AbsoluteX },
        0x9E => Opcode { code: 0x9E, mnemonic: Mnemonic::SHX, bytes: 3, cycles: 5, mode: AddressingMode::AbsoluteY },
        0x9F => Opcode { code: 0x9F, mnemonic: Mnemonic::AHX, bytes: 3, cycles: 5, mode: AddressingMode::AbsoluteY },
        0xA0 => Opcode { code: 0xA0, mnemonic: Mnemonic::LDY, bytes: 2, cycles: 2, mode: AddressingMode::Immediate },
        0xA1 => Opcode { code: 0xA1, mnemonic: Mnemonic::LDA, bytes: 2, cycles: 6, mode: AddressingMode::IndirectX },
        0xA2 => Opcode { code: 0xA2, mnemonic: Mnemonic::LDX, bytes: 2, cycles: 2, mode: AddressingMode::Immediate },
        0xA3 => Opcode { code: 0xA3, mnemonic: Mnemonic::LAX, bytes: 2, cycles: 6, mode: AddressingMode::IndirectX },
        0xA4 => Opcode { code: 0xA4, mnemonic: Mnemonic::LDY, bytes: 2, cycles: 3, mode: AddressingMode::ZeroPage },
        0xA5 => Opcode { code: 0xA5, mnemonic: Mnemonic::LDA, bytes: 2, cycles: 3, mode: AddressingMode::ZeroPage },
        0xA6 => Opcode { code: 0xA6, mnemonic: Mnemonic::LDX, bytes: 2, cycles: 3, mode: AddressingMode::ZeroPage },
        0xA7 => Opcode { code: 0xA7, mnemonic: Mnemonic::LAX, bytes: 2, cycles: 3, mode: AddressingMode::ZeroPage },
        0xA8 => Opcode { code: 0xA8, mnemonic: Mnemonic::TAY, bytes: 1, cycles: 2, mode: AddressingMode::Implied },
        0xA9 => Opcode { code: 0xA9, mnemonic: Mnemonic::LDA, bytes: 2, cycles: 2, mode: AddressingMode::Immediate },
        0xAA => Opcode { code: 0xAA, mnemonic: Mnemonic::TAX, bytes: 1, cycles: 2, mode: AddressingMode::Implied },
        0xAB => Opcode { code: 0xAB, mnemonic: Mnemonic::LXA, bytes: 2, cycles: 2, mode: AddressingMode::Immediate },
        0xAC => Opcode { code: 0xAC, mnemonic: Mnemonic::LDY, bytes: 3, cycles: 4, mode: AddressingMode::Absolute },
        0xAD => Opcode { code: 0xAD, mnemonic: Mnemonic::LDA, bytes: 3, cycles: 4, mode: AddressingMode::Absolute },
        0xAE => Opcode { code: 0xAE, mnemonic: Mnemonic::LDX, bytes: 3, cycles: 4, mode: AddressingMode::Absolute },
        0xAF => Opcode { code: 0xAF, mnemonic: Mnemonic::LAX, bytes: 3, cycles: 4, mode: AddressingMode::Absolute },
        0xB0 => Opcode { code: 0xB0, mnemonic: Mnemonic::BCS, bytes: 2, cycles: 2, mode: AddressingMode::Relative },
        0xB1 => Opcode { code: 0xB1, mnemonic: Mnemonic::LDA, bytes: 2, cycles: 5, mode: AddressingMode::IndirectY },
        0xB2 => Opcode { code: 0xB2, mnemonic: Mnemonic::STP, bytes: 1, cycles: 0, mode: AddressingMode::Implied },
        0xB3 => Opcode { code: 0xB3, mnemonic: Mnemonic::LAX, bytes: 2, cycles: 5, mode: AddressingMode::IndirectY },
        0xB4 => Opcode { code: 0xB4, mnemonic: Mnemonic::LDY, bytes: 2, cycles: 4, mode: AddressingMode::ZeroPageX },
        0xB5 => Opcode { code: 0xB5, mnemonic: Mnemonic::LDA, bytes: 2, cycles: 4, mode: AddressingMode::ZeroPageX },
        0xB6 => Opcode { code: 0xB6, mnemonic: Mnemonic::LDX, bytes: 2, cycles: 4, mode: AddressingMode::ZeroPageY },
        0xB7 => Opcode { code: 0xB7, mnemonic: Mnemonic::LAX, bytes: 2, cycles: 4, mode: AddressingMode::ZeroPageY },
        0xB8 => Opcode { code: 0xB8, mnemonic: Mnemonic::CLV, bytes: 1, cycles: 2, mode: AddressingMode::Implied },
        0xB9 => Opcode { code: 0xB9, mnemonic: Mnemonic::LDA, bytes: 3, cycles: 4, mode: AddressingMode::AbsoluteY },
        0xBA => Opcode { code: 0xBA, mnemonic: Mnemonic::TSX, bytes: 1, cycles: 2, mode: AddressingMode::Implied },
        0xBB => Opcode { code: 0xBB, mnemonic: Mnemonic::LAS, bytes: 3, cycles: 4, mode: AddressingMode::AbsoluteY },
        0xBC => Opcode { code: 0xBC, mnemonic: Mnemonic::LDY, bytes: 3, cycles: 4, mode: AddressingMode::AbsoluteX },
        0xBD => Opcode { code: 0xBD, mnemonic: Mnemonic::LDA, bytes: 3, cycles: 4, mode: AddressingMode::AbsoluteX },
        0xBE => Opcode { code: 0xBE, mnemonic: Mnemonic::LDX, bytes: 3, cycles: 4, mode: AddressingMode::AbsoluteY },
        _ => Opcode { code: 0xBF, mnemonic: Mnemonic::LAX, bytes: 3, cycles: 4, mode: AddressingMode::AbsoluteY },
    }
}

fn opcode_entry_3(code: u8) -> (r: Opcode)
    requires 192 <= code < 256,
    ensures r == spec_opcode(code),
{
    match code {
        0xC0 => Opcode { code: 0xC0, mnemonic: Mnemonic::CPY, bytes: 2, cycles: 2, mode: AddressingMode::Immediate },
        0xC1 => Opcode { code: 0xC1, mnemonic: Mnemonic::CMP, bytes: 2, cycles: 6, mode: AddressingMode::IndirectX },
        0xC2 => Opcode { code: 0xC2, mnemonic: Mnemonic::NOP, bytes: 2, cycles: 2, mode: AddressingMode::Immediate },
        0xC3 => Opcode { code: 0xC3, mnemonic: Mnemonic::DCP, bytes: 2, cycles: 8, mode: AddressingMode::IndirectX },
        0xC4 => Opcode { code: 0xC4, mnemonic: Mnemonic::CPY, bytes: 2, cycles: 3, mode: AddressingMode::ZeroPage },
        0xC5 => Opcode { code: 0xC5, mnemonic: Mnemonic::CMP, bytes: 2, cycles: 3, mode: AddressingMode::ZeroPage },
        0xC6 => Opcode { code: 0xC6, mnemonic: Mnemonic::DEC, bytes: 2, cycles: 5, mode: AddressingMode::ZeroPage },
        0xC7 => Opcode { code: 0xC7, mnemonic: Mnemonic::DCP, bytes: 2, cycles: 5, mode: AddressingMode::ZeroPage },
        0xC8 => Opcode { code: 0xC8, mnemonic: Mnemonic::INY, bytes: 1, cycles: 2, mode: AddressingMode::Implied },
        0xC9 => Opcode { code: 0xC9, mnemonic: Mnemonic::CMP, bytes: 2, cycles: 2, mode: AddressingMode::Immediate },
        0xCA => Opcode { code: 0xCA, mnemonic: Mnemonic::DEX, bytes: 1, cycles: 2, mode: AddressingMode::Implied },
        0xCB => Opcode { code: 0xCB, mnemonic: Mnemonic::AXS, bytes: 2, cycles: 2, mode: AddressingMode::Immediate },
        0xCC => Opcode { code: 0xCC, mnemonic: Mnemonic::CPY, bytes: 3, cycles: 4, mode: AddressingMode::Absolute },
        0xCD => Opcode { code: 0xCD, mnemonic: Mnemonic::CMP, bytes: 3, cycles: 4, mode: AddressingMode::Absolute },
        0xCE => Opcode { code: 0xCE, mnemonic: Mnemonic::DEC, bytes: 3, cycles: 6, mode: AddressingMode::Absolute },
        0xCF => Opcode { code: 0xCF, mnemonic: Mnemonic::DCP, bytes: 3, cycles: 6, mode: AddressingMode::Absolute },
        0xD0 => Opcode { code: 0xD0, mnemonic: Mnemonic::BNE, bytes: 2, cycles: 2, mode: AddressingMode::Relative },
        0xD1 => Opcode { code: 0xD1, mnemonic: Mnemonic::CMP, bytes: 2, cycles: 5, mode: AddressingMode::IndirectY },
        0xD2 => Opcode { code: 0xD2, mnemonic: Mnemonic::STP, bytes: 1, cycles: 0, mode: AddressingMode::Implied },
        0xD3 => Opcode { code: 0xD3, mnemonic: Mnemonic::DCP, bytes: 2, cycles: 8, mode: AddressingMode::IndirectY },
        0xD4 => Opcode { code: 0xD4, mnemonic: Mnemonic::NOP, bytes: 2, cycles: 4, mode: AddressingMode::ZeroPageX },
        0xD5 => Opcode { code: 0xD5, mnemonic: Mnemonic::CMP, bytes: 2, cycles: 4, mode: AddressingMode::ZeroPageX },
        0xD6 => Opcode { code: 0xD6, mnemonic: Mnemonic::DEC, bytes: 2, cycles: 6, mode: AddressingMode::ZeroPageX },
        0xD7 => Opcode { code: 0xD7, mnemonic: Mnemonic::DCP, bytes: 2, cycles: 6, mode: AddressingMode::ZeroPageX },
        0xD8 => Opcode { code: 0xD8, mnemonic: Mnemonic::CLD, bytes: 1, cycles: 2, mode: AddressingMode::Implied },
        0xD9 => Opcode { code: 0xD9, mnemonic: Mnemonic::CMP, bytes: 3, cycles: 4, mode: AddressingMode::AbsoluteY },
        0xDA => Opcode { code: 0xDA, mnemonic: Mnemonic::NOP, bytes: 1, cycles: 2, mode: AddressingMode::Implied },
        0xDB => Opcode { code: 0xDB, mnemonic: Mnemonic::DCP, bytes: 3, cycles: 7, mode: AddressingMode::AbsoluteY },
        0xDC => Opcode { code: 0xDC, mnemonic: Mnemonic::NOP, bytes: 3, cycles: 4, mode: AddressingMode::AbsoluteX },
        0xDD => Opcode { code: 0xDD, mnemonic: Mnemonic::CMP, bytes: 3, cycles: 4, mode: AddressingMode::AbsoluteX },
        0xDE => Opcode { code: 0xDE, mnemonic: Mnemonic::DEC, bytes: 3, cycles: 7, mode: AddressingMode::AbsoluteX },
        0xDF => Opcode { code: 0xDF, mnemonic: Mnemonic::DCP, bytes: 3, cycles: 7, mode: AddressingMode::AbsoluteX },
        0xE0 => Opcode { code: 0xE0, mnemonic: Mnemonic::CPX, bytes: 2, cycles: 2, mode: AddressingMode::Immediate },
        0xE1 => Opcode { code: 0xE1, mnemonic: Mnemonic::SBC, bytes: 2, cycles: 6, mode: AddressingMode::IndirectX },
        0xE2 => Opcode { code: 0xE2, mnemonic: Mnemonic::NOP, bytes: 2, cycles: 2, mode: AddressingMode::Immediate },
        0xE3 => Opcode { code: 0xE3, mnemonic: Mnemonic::ISC, bytes: 2, cycles: 8, mode: AddressingMode::IndirectX },
        0xE4 => Opcode { code: 0xE4, mnemonic: Mnemonic::CPX, bytes: 2, cycles: 3, mode: AddressingMode::ZeroPage },
        0xE5 => Opcode { code: 0xE5, mnemonic: Mnemonic::SBC, bytes: 2, cycles: 3, mode: AddressingMode::ZeroPage },
        0xE6 => Opcode { code: 0xE6, mnemonic: Mnemonic::INC, bytes: 2, cycles: 5, mode: AddressingMode::ZeroPage },
        0xE7 => Opcode { code: 0xE7, mnemonic: Mnemonic::ISC, bytes: 2, cycles: 5, mode: AddressingMode::ZeroPage },
        0xE8 => Opcode { code: 0xE8, mnemonic: Mnemonic::INX, bytes: 1, cycles: 2, mode: AddressingMode::Implied },
        0xE9 => Opcode { code: 0xE9, mnemonic: Mnemonic::SBC, bytes: 2, cycles: 2, mode: AddressingMode::Immediate },
        0xEA => Opcode { code: 0xEA, mnemonic: Mnemonic::NOP, bytes: 1, cycles: 2, mode: AddressingMode::Implied },
        0xEB => Opcode { code: 0xEB, mnemonic: Mnemonic::SBC, bytes: 2, cycles: 2, mode: AddressingMode::Immediate },
        0xEC => Opcode { code: 0xEC, mnemonic: Mnemonic::CPX, bytes: 3, cycles: 4, mode: AddressingMode::Absolute },
        0xED => Opcode { code: 0xED, mnemonic: Mnemonic::SBC, bytes: 3, cycles: 4, mode: AddressingMode::Absolute },
        0xEE => Opcode { code: 0xEE, mnemonic: Mnemonic::INC, bytes: 3, cycles: 6, mode: AddressingMode::Absolute },
        0xEF => Opcode { code: 0xEF, mnemonic: Mnemonic::ISC, bytes: 3, cycles: 6, mode: AddressingMode::Absolute },
        0xF0 => Opcode { code: 0xF0, mnemonic: Mnemonic::BEQ, bytes: 2, cycles: 2, mode: AddressingMode::Relative },
        0xF1 => Opcode { code: 0xF1, mnemonic: Mnemonic::SBC, bytes: 2, cycles: 5, mode: AddressingMode::IndirectY },
        0xF2 => Opcode { code: 0xF2, mnemonic: Mnemonic::STP, bytes: 1, cycles: 0, mode: AddressingMode::Implied },
        0xF3 => Opcode { code: 0xF3, mnemonic: Mnemonic::ISC, bytes: 2, cycles: 8, mode: AddressingMode::IndirectY },
        0xF4 => Opcode { code: 0xF4, mnemonic: Mnemonic::NOP, bytes: 2, cycles: 4, mode: AddressingMode::ZeroPageX },
        0xF5 => Opcode { code: 0xF5, mnemonic: Mnemonic::SBC, bytes: 2, cycles: 4, mode: AddressingMode::ZeroPageX },
        0xF6 => Opcode { code: 0xF6, mnemonic: Mnemonic::INC, bytes: 2, cycles: 6, mode: AddressingMode::ZeroPageX },
        0xF7 => Opcode { code: 0xF7, mnemonic: Mnemonic::ISC, bytes: 2, cycles: 6, mode: AddressingMode::ZeroPageX },
        0xF8 => Opcode { code: 0xF8, mnemonic: Mnemonic::SED, bytes: 1, cycles: 2, mode: AddressingMode::Implied },
        0xF9 => Opcode { code: 0xF9, mnemonic: Mnemonic::SBC, bytes: 3, cycles: 4, mode: AddressingMode::AbsoluteY },
        0xFA => Opcode { code: 0xFA, mnemonic: Mnemonic::NOP, bytes: 1, cycles: 2, mode: AddressingMode::Implied },
        0xFB => Opcode { code: 0xFB, mnemonic: Mnemonic::ISC, bytes: 3, cycles: 7, mode: AddressingMode::AbsoluteY },
        0xFC => Opcode { code: 0xFC, mnemonic: Mnemonic::NOP, bytes: 3, cycles: 4, mode: AddressingMode::AbsoluteX },
        0xFD => Opcode { code: 0xFD, mnemonic: Mnemonic::SBC, bytes: 3, cycles: 4, mode: AddressingMode::AbsoluteX },
        0xFE => Opcode { code: 0xFE, mnemonic: Mnemonic::INC, bytes: 3, cycles: 7, mode: AddressingMode::AbsoluteX },
        _ => Opcode { code: 0xFF, mnemonic: Mnemonic::ISC, bytes: 3, cycles: 7, mode: AddressingMode::AbsoluteX },
    }
}
/// Picks the entry for a code; the split keeps each proof small.
fn opcode_entry(code: u8) -> (r: Opcode)
    ensures
        r == spec_opcode(code),
{
    if code < 64 {
        opcode_entry_0(code)
    } else if code < 128 {
        opcode_entry_1(code)
    } else if code < 192 {
        opcode_entry_2(code)
    } else {
        opcode_entry_3(code)
    }
}

pub struct OpcodeMap {
    opcodes: Vec<Opcode>,
}

impl View for OpcodeMap {
    type V = Seq<Opcode>;

    closed spec fn view(&self) -> Seq<Opcode> {
        self.opcodes@
    }
}

impl OpcodeMap {
    /// A well-formed map holds all 256 table entries, indexed by code.
    pub open spec fn wf(&self) -> bool {
        &&& self@.len() == 256
        &&& forall|i: int| 0 <= i < 256 ==> self@[i] == spec_opcode(i as u8)
    }

    pub fn new() -> (r: OpcodeMap)
        ensures
            r.wf(),
    {
        let mut opcodes: Vec<Opcode> = Vec::new();
        let mut c: usize = 0;
        while c < 256
            invariant
                c <= 256,
                opcodes@.len() == c,
                forall|i: int| 0 <= i < c ==> opcodes@[i] == spec_opcode(i as u8),
            decreases 256 - c,
        {
            opcodes.push(opcode_entry(c as u8));
            c = c + 1;
        }
        OpcodeMap { opcodes }
    }

    /// Every opcode byte is in the table, so the lookup always succeeds.
    pub fn find_by_code(&self, code: u8) -> (r: Option<&Opcode>)
        requires
            self.wf(),
        ensures
            r matches Some(op) && *op == spec_opcode(code),
    {
        Some(&self.opcodes[code as usize])
    }

    pub fn get_opcodes(&self) -> (r: &Vec<Opcode>)
        ensures
            r@ == self@,
    {
        &self.opcodes
    }
}

} // verus!
