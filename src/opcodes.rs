//! The 6502 opcode table: instruction, addressing mode, length and cycle
//! cost of each of the 256 opcodes.
use vstd::prelude::*;

verus! {

/// How an instruction finds its operand.
#[derive(Clone, Copy, Debug, PartialEq, Eq, Structural)]
pub enum AddressingMode {
    Accumulator,
    Implied,
    Immediate,
    Relative,
    ZeroPage,
    ZeroPageX,
    ZeroPageY,
    Absolute,
    AbsoluteX,
    AbsoluteY,
    Indirect,
    IndirectX,
    IndirectY,
}

/// The instruction kinds, official and undocumented.
#[derive(Clone, Copy, Debug, PartialEq, Eq, Structural)]
pub enum Instruction {
    AND,
    EOR,
    ORA,
    ASL,
    LSR,
    ROL,
    ROR,
    BPL,
    BMI,
    BVC,
    BVS,
    BCC,
    BCS,
    BNE,
    BEQ,
    CMP,
    CPX,
    CPY,
    BIT,
    CLC,
    CLD,
    CLI,
    CLV,
    SEC,
    SED,
    SEI,
    JMP,
    JSR,
    RTI,
    RTS,
    ADC,
    SBC,
    LDA,
    LDX,
    LDY,
    STA,
    STX,
    STY,
    INC,
    DEC,
    TAX,
    TAY,
    TXA,
    TYA,
    INX,
    INY,
    DEX,
    DEY,
    TXS,
    TSX,
    PHA,
    PHP,
    PLA,
    PLP,
    BRK,
    NOP,
    AHX,
    ALR,
    ANC,
    ARR,
    AXS,
    DCP,
    ISB,
    JAM,
    LAS,
    LAX,
    RLA,
    RRA,
    SAX,
    SHX,
    SHY,
    SLO,
    SRE,
    TAS,
    XAA,
}

/// One row of the opcode table.
#[derive(Clone, Copy, Debug, PartialEq, Eq, Structural)]
pub struct OPCODE {
    pub instruction: Instruction,
    pub mode: AddressingMode,
    /// Length of the instruction in bytes.
    pub size: u16,
    /// Base cycle cost.
    pub cycles: u32,
    /// Added when indexing crosses a page.
    pub extra_cycles: u32,
}

/// The table row of opcode `op`.
pub open spec fn opcode_spec(op: u8) -> OPCODE {
    match op {
        0x00 => OPCODE { instruction: Instruction::BRK, mode: AddressingMode::Implied, size: 1, cycles: 7, extra_cycles: 0 },
        0x01 => OPCODE { instruction: Instruction::ORA, mode: AddressingMode::IndirectX, size: 2, cycles: 6, extra_cycles: 0 },
        0x02 => OPCODE { instruction: Instruction::JAM, mode: AddressingMode::Implied, size: 1, cycles: 2, extra_cycles: 0 },
        0x03 => OPCODE { instruction: Instruction::SLO, mode: AddressingMode::IndirectX, size: 2, cycles: 8, extra_cycles: 0 },
        0x04 => OPCODE { instruction: Instruction::NOP, mode: AddressingMode::ZeroPage, size: 2, cycles: 3, extra_cycles: 0 },
        0x05 => OPCODE { instruction: Instruction::ORA, mode: AddressingMode::ZeroPage, size: 2, cycles: 3, extra_cycles: 0 },
        0x06 => OPCODE { instruction: Instruction::ASL, mode: AddressingMode::ZeroPage, size: 2, cycles: 5, extra_cycles: 0 },
        0x07 => OPCODE { instruction: Instruction::SLO, mode: AddressingMode::ZeroPage, size: 2, cycles: 5, extra_cycles: 0 },
        0x08 => OPCODE { instruction: Instruction::PHP, mode: AddressingMode::Implied, size: 1, cycles: 3, extra_cycles: 0 },
        0x09 => OPCODE { instruction: Instruction::ORA, mode: AddressingMode::Immediate, size: 2, cycles: 2, extra_cycles: 0 },
        0x0a => OPCODE { instruction: Instruction::ASL, mode: AddressingMode::Accumulator, size: 1, cycles: 2, extra_cycles: 0 },
        0x0b => OPCODE { instruction: Instruction::ANC, mode: AddressingMode::Immediate, size: 2, cycles: 2, extra_cycles: 0 },
        0x0c => OPCODE { instruction: Instruction::NOP, mode: AddressingMode::Absolute, size: 3, cycles: 4, extra_cycles: 0 },
        0x0d => OPCODE { instruction: Instruction::ORA, mode: AddressingMode::Absolute, size: 3, cycles: 4, extra_cycles: 0 },
        0x0e => OPCODE { instruction: Instruction::ASL, mode: AddressingMode::Absolute, size: 3, cycles: 6, extra_cycles: 0 },
        0x0f => OPCODE { instruction: Instruction::SLO, mode: AddressingMode::Absolute, size: 3, cycles: 6, extra_cycles: 0 },
        0x10 => OPCODE { instruction: Instruction::BPL, mode: AddressingMode::Relative, size: 2, cycles: 2, extra_cycles: 1 },
        0x11 => OPCODE { instruction: Instruction::ORA, mode: AddressingMode::IndirectY, size: 2, cycles: 5, extra_cycles: 1 },
        0x12 => OPCODE { instruction: Instruction::JAM, mode: AddressingMode::Implied, size: 1, cycles: 2, extra_cycles: 0 },
        0x13 => OPCODE { instruction: Instruction::SLO, mode: AddressingMode::IndirectY, size: 2, cycles: 8, extra_cycles: 0 },
        0x14 => OPCODE { instruction: Instruction::NOP, mode: AddressingMode::ZeroPageX, size: 2, cycles: 4, extra_cycles: 0 },
        0x15 => OPCODE { instruction: Instruction::ORA, mode: AddressingMode::ZeroPageX, size: 2, cycles: 4, extra_cycles: 0 },
        0x16 => OPCODE { instruction: Instruction::ASL, mode: AddressingMode::ZeroPageX, size: 2, cycles: 6, extra_cycles: 0 },
        0x17 => OPCODE { instruction: Instruction::SLO, mode: AddressingMode::ZeroPageX, size: 2, cycles: 6, extra_cycles: 0 },
        0x18 => OPCODE { instruction: Instruction::CLC, mode: AddressingMode::Implied, size: 1, cycles: 2, extra_cycles: 0 },
        0x19 => OPCODE { instruction: Instruction::ORA, mode: AddressingMode::AbsoluteY, size: 3, cycles: 4, extra_cycles: 1 },
        0x1a => OPCODE { instruction: Instruction::NOP, mode: AddressingMode::Implied, size: 1, cycles: 2, extra_cycles: 0 },
        0x1b => OPCODE { instruction: Instruction::SLO, mode: AddressingMode::AbsoluteY, size: 3, cycles: 7, extra_cycles: 0 },
        0x1c => OPCODE { instruction: Instruction::NOP, mode: AddressingMode::AbsoluteX, size: 3, cycles: 4, extra_cycles: 1 },
        0x1d => OPCODE { instruction: Instruction::ORA, mode: AddressingMode::AbsoluteX, size: 3, cycles: 4, extra_cycles: 1 },
        0x1e => OPCODE { instruction: Instruction::ASL, mode: AddressingMode::AbsoluteX, size: 3, cycles: 7, extra_cycles: 0 },
        0x1f => OPCODE { instruction: Instruction::SLO, mode: AddressingMode::AbsoluteX, size: 3, cycles: 7, extra_cycles: 0 },
        0x20 => OPCODE { instruction: Instruction::JSR, mode: AddressingMode::Absolute, size: 3, cycles: 6, extra_cycles: 0 },
        0x21 => OPCODE { instruction: Instruction::AND, mode: AddressingMode::IndirectX, size: 2, cycles: 6, extra_cycles: 0 },
        0x22 => OPCODE { instruction: Instruction::JAM, mode: AddressingMode::Implied, size: 1, cycles: 2, extra_cycles: 0 },
        0x23 => OPCODE { instruction: Instruction::RLA, mode: AddressingMode::IndirectX, size: 2, cycles: 8, extra_cycles: 0 },
        0x24 => OPCODE { instruction: Instruction::BIT, mode: AddressingMode::ZeroPage, size: 2, cycles: 3, extra_cycles: 0 },
        0x25 => OPCODE { instruction: Instruction::AND, mode: AddressingMode::ZeroPage, size: 2, cycles: 3, extra_cycles: 0 },
        0x26 => OPCODE { instruction: Instruction::ROL, mode: AddressingMode::ZeroPage, size: 2, cycles: 5, extra_cycles: 0 },
        0x27 => OPCODE { instruction: Instruction::RLA, mode: AddressingMode::ZeroPage, size: 2, cycles: 5, extra_cycles: 0 },
        0x28 => OPCODE { instruction: Instruction::PLP, mode: AddressingMode::Implied, size: 1, cycles: 4, extra_cycles: 0 },
        0x29 => OPCODE { instruction: Instruction::AND, mode: AddressingMode::Immediate, size: 2, cycles: 2, extra_cycles: 0 },
        0x2a => OPCODE { instruction: Instruction::ROL, mode: AddressingMode::Accumulator, size: 1, cycles: 2, extra_cycles: 0 },
        0x2b => OPCODE { instruction: Instruction::ANC, mode: AddressingMode::Immediate, size: 2, cycles: 2, extra_cycles: 0 },
        0x2c => OPCODE { instruction: Instruction::BIT, mode: AddressingMode::Absolute, size: 3, cycles: 4, extra_cycles: 0 },
        0x2d => OPCODE { instruction: Instruction::AND, mode: AddressingMode::Absolute, size: 3, cycles: 4, extra_cycles: 0 },
        0x2e => OPCODE { instruction: Instruction::ROL, mode: AddressingMode::Absolute, size: 3, cycles: 6, extra_cycles: 0 },
        0x2f => OPCODE { instruction: Instruction::RLA, mode: AddressingMode::Absolute, size: 3, cycles: 6, extra_cycles: 0 },
        0x30 => OPCODE { instruction: Instruction::BMI, mode: AddressingMode::Relative, size: 2, cycles: 2, extra_cycles: 1 },
        0x31 => OPCODE { instruction: Instruction::AND, mode: AddressingMode::IndirectY, size: 2, cycles: 5, extra_cycles: 1 },
        0x32 => OPCODE { instruction: Instruction::JAM, mode: AddressingMode::Implied, size: 1, cycles: 2, extra_cycles: 0 },
        0x33 => OPCODE { instruction: Instruction::RLA, mode: AddressingMode::IndirectY, size: 2, cycles: 8, extra_cycles: 0 },
        0x34 => OPCODE { instruction: Instruction::NOP, mode: AddressingMode::ZeroPageX, size: 2, cycles: 4, extra_cycles: 0 },
        0x35 => OPCODE { instruction: Instruction::AND, mode: AddressingMode::ZeroPageX, size: 2, cycles: 4, extra_cycles: 0 },
        0x36 => OPCODE { instruction: Instruction::ROL, mode: AddressingMode::ZeroPageX, size: 2, cycles: 6, extra_cycles: 0 },
        0x37 => OPCODE { instruction: Instruction::RLA, mode: AddressingMode::ZeroPageX, size: 2, cycles: 6, extra_cycles: 0 },
        0x38 => OPCODE { instruction: Instruction::SEC, mode: AddressingMode::Implied, size: 1, cycles: 2, extra_cycles: 0 },
        0x39 => OPCODE { instruction: Instruction::AND, mode: AddressingMode::AbsoluteY, size: 3, cycles: 4, extra_cycles: 1 },
        0x3a => OPCODE { instruction: Instruction::NOP, mode: AddressingMode::Implied, size: 1, cycles: 2, extra_cycles: 0 },
        0x3b => OPCODE { instruction: Instruction::RLA, mode: AddressingMode::AbsoluteY, size: 3, cycles: 7, extra_cycles: 0 },
        0x3c => OPCODE { instruction: Instruction::NOP, mode: AddressingMode::AbsoluteX, size: 3, cycles: 4, extra_cycles: 1 },
        0x3d => OPCODE { instruction: Instruction::AND, mode: AddressingMode::AbsoluteX, size: 3, cycles: 4, extra_cycles: 1 },
        0x3e => OPCODE { instruction: Instruction::ROL, mode: AddressingMode::AbsoluteX, size: 3, cycles: 7, extra_cycles: 0 },
        0x3f => OPCODE { instruction: Instruction::RLA, mode: AddressingMode::AbsoluteX, size: 3, cycles: 7, extra_cycles: 0 },
        0x40 => OPCODE { instruction: Instruction::RTI, mode: AddressingMode::Implied, size: 1, cycles: 6, extra_cycles: 0 },
        0x41 => OPCODE { instruction: Instruction::EOR, mode: AddressingMode::IndirectX, size: 2, cycles: 6, extra_cycles: 0 },
        0x42 => OPCODE { instruction: Instruction::JAM, mode: AddressingMode::Implied, size: 1, cycles: 2, extra_cycles: 0 },
        0x43 => OPCODE { instruction: Instruction::SRE, mode: AddressingMode::IndirectX, size: 2, cycles: 8, extra_cycles: 0 },
        0x44 => OPCODE { instruction: Instruction::NOP, mode: AddressingMode::ZeroPage, size: 2, cycles: 3, extra_cycles: 0 },
        0x45 => OPCODE { instruction: Instruction::EOR, mode: AddressingMode::ZeroPage, size: 2, cycles: 3, extra_cycles: 0 },
        0x46 => OPCODE { instruction: Instruction::LSR, mode: AddressingMode::ZeroPage, size: 2, cycles: 5, extra_cycles: 0 },
        0x47 => OPCODE { instruction: Instruction::SRE, mode: AddressingMode::ZeroPage, size: 2, cycles: 5, extra_cycles: 0 },
        0x48 => OPCODE { instruction: Instruction::PHA, mode: AddressingMode::Implied, size: 1, cycles: 3, extra_cycles: 0 },
        0x49 => OPCODE { instruction: Instruction::EOR, mode: AddressingMode::Immediate, size: 2, cycles: 2, extra_cycles: 0 },
        0x4a => OPCODE { instruction: Instruction::LSR, mode: AddressingMode::Accumulator, size: 1, cycles: 2, extra_cycles: 0 },
        0x4b => OPCODE { instruction: Instruction::ALR, mode: AddressingMode::Immediate, size: 2, cycles: 2, extra_cycles: 0 },
        0x4c => OPCODE { instruction: Instruction::JMP, mode: AddressingMode::Absolute, size: 3, cycles: 3, extra_cycles: 0 },
        0x4d => OPCODE { instruction: Instruction::EOR, mode: AddressingMode::Absolute, size: 3, cycles: 4, extra_cycles: 0 },
        0x4e => OPCODE { instruction: Instruction::LSR, mode: AddressingMode::Absolute, size: 3, cycles: 6, extra_cycles: 0 },
        0x4f => OPCODE { instruction: Instruction::SRE, mode: AddressingMode::Absolute, size: 3, cycles: 6, extra_cycles: 0 },
        0x50 => OPCODE { instruction: Instruction::BVC, mode: AddressingMode::Relative, size: 2, cycles: 2, extra_cycles: 1 },
        0x51 => OPCODE { instruction: Instruction::EOR, mode: AddressingMode::IndirectY, size: 2, cycles: 5, extra_cycles: 1 },
        0x52 => OPCODE { instruction: Instruction::JAM, mode: AddressingMode::Implied, size: 1, cycles: 2, extra_cycles: 0 },
        0x53 => OPCODE { instruction: Instruction::SRE, mode: AddressingMode::IndirectY, size: 2, cycles: 8, extra_cycles: 0 },
        0x54 => OPCODE { instruction: Instruction::NOP, mode: AddressingMode::ZeroPageX, size: 2, cycles: 4, extra_cycles: 0 },
        0x55 => OPCODE { instruction: Instruction::EOR, mode: AddressingMode::ZeroPageX, size: 2, cycles: 4, extra_cycles: 0 },
        0x56 => OPCODE { instruction: Instruction::LSR, mode: AddressingMode::ZeroPageX, size: 2, cycles: 6, extra_cycles: 0 },
        0x57 => OPCODE { instruction: Instruction::SRE, mode: AddressingMode::ZeroPageX, size: 2, cycles: 6, extra_cycles: 0 },
        0x58 => OPCODE { instruction: Instruction::CLI, mode: AddressingMode::Implied, size: 1, cycles: 2, extra_cycles: 0 },
        0x59 => OPCODE { instruction: Instruction::EOR, mode: AddressingMode::AbsoluteY, size: 3, cycles: 4, extra_cycles: 1 },
        0x5a => OPCODE { instruction: Instruction::NOP, mode: AddressingMode::Implied, size: 1, cycles: 2, extra_cycles: 0 },
        0x5b => OPCODE { instruction: Instruction::SRE, mode: AddressingMode::AbsoluteY, size: 3, cycles: 7, extra_cycles: 0 },
        0x5c => OPCODE { instruction: Instruction::NOP, mode: AddressingMode::AbsoluteX, size: 3, cycles: 4, extra_cycles: 1 },
        0x5d => OPCODE { instruction: Instruction::EOR, mode: AddressingMode::AbsoluteX, size: 3, cycles: 4, extra_cycles: 1 },
        0x5e => OPCODE { instruction: Instruction::LSR, mode: AddressingMode::AbsoluteX, size: 3, cycles: 7, extra_cycles: 0 },
        0x5f => OPCODE { instruction: Instruction::SRE, mode: AddressingMode::AbsoluteX, size: 3, cycles: 7, extra_cycles: 0 },
        0x60 => OPCODE { instruction: Instruction::RTS, mode: AddressingMode::Implied, size: 1, cycles: 6, extra_cycles: 0 },
        0x61 => OPCODE { instruction: Instruction::ADC, mode: AddressingMode::IndirectX, size: 2, cycles: 6, extra_cycles: 0 },
        0x62 => OPCODE { instruction: Instruction::JAM, mode: AddressingMode::Implied, size: 1, cycles: 2, extra_cycles: 0 },
        0x63 => OPCODE { instruction: Instruction::RRA, mode: AddressingMode::IndirectX, size: 2, cycles: 8, extra_cycles: 0 },
        0x64 => OPCODE { instruction: Instruction::NOP, mode: AddressingMode::ZeroPage, size: 2, cycles: 3, extra_cycles: 0 },
        0x65 => OPCODE { instruction: Instruction::ADC, mode: AddressingMode::ZeroPage, size: 2, cycles: 3, extra_cycles: 0 },
        0x66 => OPCODE { instruction: Instruction::ROR, mode: AddressingMode::ZeroPage, size: 2, cycles: 5, extra_cycles: 0 },
        0x67 => OPCODE { instruction: Instruction::RRA, mode: AddressingMode::ZeroPage, size: 2, cycles: 5, extra_cycles: 0 },
        0x68 => OPCODE { instruction: Instruction::PLA, mode: AddressingMode::Implied, size: 1, cycles: 4, extra_cycles: 0 },
        0x69 => OPCODE { instruction: Instruction::ADC, mode: AddressingMode::Immediate, size: 2, cycles: 2, extra_cycles: 0 },
        0x6a => OPCODE { instruction: Instruction::ROR, mode: AddressingMode::Accumulator, size: 1, cycles: 2, extra_cycles: 0 },
        0x6b => OPCODE { instruction: Instruction::ARR, mode: AddressingMode::Immediate, size: 2, cycles: 2, extra_cycles: 0 },
        0x6c => OPCODE { instruction: Instruction::JMP, mode: AddressingMode::Indirect, size: 3, cycles: 5, extra_cycles: 0 },
        0x6d => OPCODE { instruction: Instruction::ADC, mode: AddressingMode::Absolute, size: 3, cycles: 4, extra_cycles: 0 },
        0x6e => OPCODE { instruction: Instruction::ROR, mode: AddressingMode::Absolute, size: 3, cycles: 6, extra_cycles: 0 },
        0x6f => OPCODE { instruction: Instruction::RRA, mode: AddressingMode::Absolute, size: 3, cycles: 6, extra_cycles: 0 },
        0x70 => OPCODE { instruction: Instruction::BVS, mode: AddressingMode::Relative, size: 2, cycles: 2, extra_cycles: 1 },
        0x71 => OPCODE { instruction: Instruction::ADC, mode: AddressingMode::IndirectY, size: 2, cycles: 5, extra_cycles: 1 },
        0x72 => OPCODE { instruction: Instruction::JAM, mode: AddressingMode::Implied, size: 1, cycles: 2, extra_cycles: 0 },
        0x73 => OPCODE { instruction: Instruction::RRA, mode: AddressingMode::IndirectY, size: 2, cycles: 8, extra_cycles: 0 },
        0x74 => OPCODE { instruction: Instruction::NOP, mode: AddressingMode::ZeroPageX, size: 2, cycles: 4, extra_cycles: 0 },
        0x75 => OPCODE { instruction: Instruction::ADC, mode: AddressingMode::ZeroPageX, size: 2, cycles: 4, extra_cycles: 0 },
        0x76 => OPCODE { instruction: Instruction::ROR, mode: AddressingMode::ZeroPageX, size: 2, cycles: 6, extra_cycles: 0 },
        0x77 => OPCODE { instruction: Instruction::RRA, mode: AddressingMode::ZeroPageX, size: 2, cycles: 6, extra_cycles: 0 },
        0x78 => OPCODE { instruction: Instruction::SEI, mode: AddressingMode::Implied, size: 1, cycles: 2, extra_cycles: 0 },
        0x79 => OPCODE { instruction: Instruction::ADC, mode: AddressingMode::AbsoluteY, size: 3, cycles: 4, extra_cycles: 1 },
        0x7a => OPCODE { instruction: Instruction::NOP, mode: AddressingMode::Implied, size: 1, cycles: 2, extra_cycles: 0 },
        0x7b => OPCODE { instruction: Instruction::RRA, mode: AddressingMode::AbsoluteY, size: 3, cycles: 7, extra_cycles: 0 },
        0x7c => OPCODE { instruction: Instruction::NOP, mode: AddressingMode::AbsoluteX, size: 3, cycles: 4, extra_cycles: 1 },
        0x7d => OPCODE { instruction: Instruction::ADC, mode: AddressingMode::AbsoluteX, size: 3, cycles: 4, extra_cycles: 1 },
        0x7e => OPCODE { instruction: Instruction::ROR, mode: AddressingMode::AbsoluteX, size: 3, cycles: 7, extra_cycles: 0 },
        0x7f => OPCODE { instruction: Instruction::RRA, mode: AddressingMode::AbsoluteX, size: 3, cycles: 7, extra_cycles: 0 },
        0x80 => OPCODE { instruction: Instruction::NOP, mode: AddressingMode::Immediate, size: 2, cycles: 2, extra_cycles: 0 },
        0x81 => OPCODE { instruction: Instruction::STA, mode: AddressingMode::IndirectX, size: 2, cycles: 6, extra_cycles: 0 },
        0x82 => OPCODE { instruction: Instruction::NOP, mode: AddressingMode::Immediate, size: 2, cycles: 2, extra_cycles: 0 },
        0x83 => OPCODE { instruction: Instruction::SAX, mode: AddressingMode::IndirectX, size: 2, cycles: 6, extra_cycles: 0 },
        0x84 => OPCODE { instruction: Instruction::STY, mode: AddressingMode::ZeroPage, size: 2, cycles: 3, extra_cycles: 0 },
        0x85 => OPCODE { instruction: Instruction::STA, mode: AddressingMode::ZeroPage, size: 2, cycles: 3, extra_cycles: 0 },
        0x86 => OPCODE { instruction: Instruction::STX, mode: AddressingMode::ZeroPage, size: 2, cycles: 3, extra_cycles: 0 },
        0x87 => OPCODE { instruction: Instruction::SAX, mode: AddressingMode::ZeroPage, size: 2, cycles: 3, extra_cycles: 0 },
        0x88 => OPCODE { instruction: Instruction::DEY, mode: AddressingMode::Implied, size: 1, cycles: 2, extra_cycles: 0 },
        0x89 => OPCODE { instruction: Instruction::NOP, mode: AddressingMode::Immediate, size: 2, cycles: 2, extra_cycles: 0 },
        0x8a => OPCODE { instruction: Instruction::TXA, mode: AddressingMode::Implied, size: 1, cycles: 2, extra_cycles: 0 },
        0x8b => OPCODE { instruction: Instruction::XAA, mode: AddressingMode::Immediate, size: 2, cycles: 2, extra_cycles: 0 },
        0x8c => OPCODE { instruction: Instruction::STY, mode: AddressingMode::Absolute, size: 3, cycles: 4, extra_cycles: 0 },
        0x8d => OPCODE { instruction: Instruction::STA, mode: AddressingMode::Absolute, size: 3, cycles: 4, extra_cycles: 0 },
        0x8e => OPCODE { instruction: Instruction::STX, mode: AddressingMode::Absolute, size: 3, cycles: 4, extra_cycles: 0 },
        0x8f => OPCODE { instruction: Instruction::SAX, mode: AddressingMode::Absolute, size: 3, cycles: 4, extra_cycles: 0 },
        0x90 => OPCODE { instruction: Instruction::BCC, mode: AddressingMode::Relative, size: 2, cycles: 2, extra_cycles: 1 },
        0x91 => OPCODE { instruction: Instruction::STA, mode: AddressingMode::IndirectY, size: 2, cycles: 6, extra_cycles: 0 },
        0x92 => OPCODE { instruction: Instruction::JAM, mode: AddressingMode::Implied, size: 1, cycles: 2, extra_cycles: 0 },
        0x93 => OPCODE { instruction: Instruction::AHX, mode: AddressingMode::IndirectY, size: 2, cycles: 6, extra_cycles: 0 },
        0x94 => OPCODE { instruction: Instruction::STY, mode: AddressingMode::ZeroPageX, size: 2, cycles: 4, extra_cycles: 0 },
        0x95 => OPCODE { instruction: Instruction::STA, mode: AddressingMode::ZeroPageX, size: 2, cycles: 4, extra_cycles: 0 },
        0x96 => OPCODE { instruction: Instruction::STX, mode: AddressingMode::ZeroPageY, size: 2, cycles: 4, extra_cycles: 0 },
        0x97 => OPCODE { instruction: Instruction::SAX, mode: AddressingMode::ZeroPageY, size: 2, cycles: 4, extra_cycles: 0 },
        0x98 => OPCODE { instruction: Instruction::TYA, mode: AddressingMode::Implied, size: 1, cycles: 2, extra_cycles: 0 },
        0x99 => OPCODE { instruction: Instruction::STA, mode: AddressingMode::AbsoluteY, size: 3, cycles: 5, extra_cycles: 0 },
        0x9a => OPCODE { instruction: Instruction::TXS, mode: AddressingMode::Implied, size: 1, cycles: 2, extra_cycles: 0 },
        0x9b => OPCODE { instruction: Instruction::TAS, mode: AddressingMode::AbsoluteY, size: 3, cycles: 5, extra_cycles: 0 },
        0x9c => OPCODE { instruction: Instruction::SHY, mode: AddressingMode::AbsoluteX, size: 3, cycles: 5, extra_cycles: 0 },
        0x9d => OPCODE { instruction: Instruction::STA, mode: AddressingMode::AbsoluteX, size: 3, cycles: 5, extra_cycles: 0 },
        0x9e => OPCODE { instruction: Instruction::SHX, mode: AddressingMode::AbsoluteY, size: 3, cycles: 5, extra_cycles: 0 },
        0x9f => OPCODE { instruction: Instruction::AHX, mode: AddressingMode::AbsoluteY, size: 3, cycles: 5, extra_cycles: 0 },
        0xa0 => OPCODE { instruction: Instruction::LDY, mode: AddressingMode::Immediate, size: 2, cycles: 2, extra_cycles: 0 },
        0xa1 => OPCODE { instruction: Instruction::LDA, mode: AddressingMode::IndirectX, size: 2, cycles: 6, extra_cycles: 0 },
        0xa2 => OPCODE { instruction: Instruction::LDX, mode: AddressingMode::Immediate, size: 2, cycles: 2, extra_cycles: 0 },
        0xa3 => OPCODE { instruction: Instruction::LAX, mode: AddressingMode::IndirectX, size: 2, cycles: 6, extra_cycles: 0 },
        0xa4 => OPCODE { instruction: Instruction::LDY, mode: AddressingMode::ZeroPage, size: 2, cycles: 3, extra_cycles: 0 },
        0xa5 => OPCODE { instruction: Instruction::LDA, mode: AddressingMode::ZeroPage, size: 2, cycles: 3, extra_cycles: 0 },
        0xa6 => OPCODE { instruction: Instruction::LDX, mode: AddressingMode::ZeroPage, size: 2, cycles: 3, extra_cycles: 0 },
        0xa7 => OPCODE { instruction: Instruction::LAX, mode: AddressingMode::ZeroPage, size: 2, cycles: 3, extra_cycles: 0 },
        0xa8 => OPCODE { instruction: Instruction::TAY, mode: AddressingMode::Implied, size: 1, cycles: 2, extra_cycles: 0 },
        0xa9 => OPCODE { instruction: Instruction::LDA, mode: AddressingMode::Immediate, size: 2, cycles: 2, extra_cycles: 0 },
        0xaa => OPCODE { instruction: Instruction::TAX, mode: AddressingMode::Implied, size: 1, cycles: 2, extra_cycles: 0 },
        0xab => OPCODE { instruction: Instruction::LAX, mode: AddressingMode::Immediate, size: 2, cycles: 2, extra_cycles: 0 },
        0xac => OPCODE { instruction: Instruction::LDY, mode: AddressingMode::Absolute, size: 3, cycles: 4, extra_cycles: 0 },
        0xad => OPCODE { instruction: Instruction::LDA, mode: AddressingMode::Absolute, size: 3, cycles: 4, extra_cycles: 0 },
        0xae => OPCODE { instruction: Instruction::LDX, mode: AddressingMode::Absolute, size: 3, cycles: 4, extra_cycles: 0 },
        0xaf => OPCODE { instruction: Instruction::LAX, mode: AddressingMode::Absolute, size: 3, cycles: 4, extra_cycles: 0 },
        0xb0 => OPCODE { instruction: Instruction::BCS, mode: AddressingMode::Relative, size: 2, cycles: 2, extra_cycles: 1 },
        0xb1 => OPCODE { instruction: Instruction::LDA, mode: AddressingMode::IndirectY, size: 2, cycles: 5, extra_cycles: 1 },
        0xb2 => OPCODE { instruction: Instruction::JAM, mode: AddressingMode::Implied, size: 1, cycles: 2, extra_cycles: 0 },
        0xb3 => OPCODE { instruction: Instruction::LAX, mode: AddressingMode::IndirectY, size: 2, cycles: 5, extra_cycles: 1 },
        0xb4 => OPCODE { instruction: Instruction::LDY, mode: AddressingMode::ZeroPageX, size: 2, cycles: 4, extra_cycles: 0 },
        0xb5 => OPCODE { instruction: Instruction::LDA, mode: AddressingMode::ZeroPageX, size: 2, cycles: 4, extra_cycles: 0 },
        0xb6 => OPCODE { instruction: Instruction::LDX, mode: AddressingMode::ZeroPageY, size: 2, cycles: 4, extra_cycles: 0 },
        0xb7 => OPCODE { instruction: Instruction::LAX, mode: AddressingMode::ZeroPageY, size: 2, cycles: 4, extra_cycles: 0 },
        0xb8 => OPCODE { instruction: Instruction::CLV, mode: AddressingMode::Implied, size: 1, cycles: 2, extra_cycles: 0 },
        0xb9 => OPCODE { instruction: Instruction::LDA, mode: AddressingMode::AbsoluteY, size: 3, cycles: 4, extra_cycles: 1 },
        0xba => OPCODE { instruction: Instruction::TSX, mode: AddressingMode::Implied, size: 1, cycles: 2, extra_cycles: 0 },
        0xbb => OPCODE { instruction: Instruction::LAS, mode: AddressingMode::AbsoluteY, size: 3, cycles: 4, extra_cycles: 1 },
        0xbc => OPCODE { instruction: Instruction::LDY, mode: AddressingMode::AbsoluteX, size: 3, cycles: 4, extra_cycles: 1 },
        0xbd => OPCODE { instruction: Instruction::LDA, mode: AddressingMode::AbsoluteX, size: 3, cycles: 4, extra_cycles: 1 },
        0xbe => OPCODE { instruction: Instruction::LDX, mode: AddressingMode::AbsoluteY, size: 3, cycles: 4, extra_cycles: 1 },
        0xbf => OPCODE { instruction: Instruction::LAX, mode: AddressingMode::AbsoluteY, size: 3, cycles: 4, extra_cycles: 1 },
        0xc0 => OPCODE { instruction: Instruction::CPY, mode: AddressingMode::Immediate, size: 2, cycles: 2, extra_cycles: 0 },
        0xc1 => OPCODE { instruction: Instruction::CMP, mode: AddressingMode::IndirectX, size: 2, cycles: 6, extra_cycles: 0 },
        0xc2 => OPCODE { instruction: Instruction::NOP, mode: AddressingMode::Immediate, size: 2, cycles: 2, extra_cycles: 0 },
        0xc3 => OPCODE { instruction: Instruction::DCP, mode: AddressingMode::IndirectX, size: 2, cycles: 8, extra_cycles: 0 },
        0xc4 => OPCODE { instruction: Instruction::CPY, mode: AddressingMode::ZeroPage, size: 2, cycles: 3, extra_cycles: 0 },
        0xc5 => OPCODE { instruction: Instruction::CMP, mode: AddressingMode::ZeroPage, size: 2, cycles: 3, extra_cycles: 0 },
        0xc6 => OPCODE { instruction: Instruction::DEC, mode: AddressingMode::ZeroPage, size: 2, cycles: 5, extra_cycles: 0 },
        0xc7 => OPCODE { instruction: Instruction::DCP, mode: AddressingMode::ZeroPage, size: 2, cycles: 5, extra_cycles: 0 },
        0xc8 => OPCODE { instruction: Instruction::INY, mode: AddressingMode::Implied, size: 1, cycles: 2, extra_cycles: 0 },
        0xc9 => OPCODE { instruction: Instruction::CMP, mode: AddressingMode::Immediate, size: 2, cycles: 2, extra_cycles: 0 },
        0xca => OPCODE { instruction: Instruction::DEX, mode: AddressingMode::Implied, size: 1, cycles: 2, extra_cycles: 0 },
        0xcb => OPCODE { instruction: Instruction::AXS, mode: AddressingMode::Immediate, size: 2, cycles: 2, extra_cycles: 0 },
        0xcc => OPCODE { instruction: Instruction::CPY, mode: AddressingMode::Absolute, size: 3, cycles: 4, extra_cycles: 0 },
        0xcd => OPCODE { instruction: Instruction::CMP, mode: AddressingMode::Absolute, size: 3, cycles: 4, extra_cycles: 0 },
        0xce => OPCODE { instruction: Instruction::DEC, mode: AddressingMode::Absolute, size: 3, cycles: 6, extra_cycles: 0 },
        0xcf => OPCODE { instruction: Instruction::DCP, mode: AddressingMode::Absolute, size: 3, cycles: 6, extra_cycles: 0 },
        0xd0 => OPCODE { instruction: Instruction::BNE, mode: AddressingMode::Relative, size: 2, cycles: 2, extra_cycles: 1 },
        0xd1 => OPCODE { instruction: Instruction::CMP, mode: AddressingMode::IndirectY, size: 2, cycles: 5, extra_cycles: 1 },
        0xd2 => OPCODE { instruction: Instruction::JAM, mode: AddressingMode::Implied, size: 1, cycles: 2, extra_cycles: 0 },
        0xd3 => OPCODE { instruction: Instruction::DCP, mode: AddressingMode::IndirectY, size: 2, cycles: 8, extra_cycles: 0 },
        0xd4 => OPCODE { instruction: Instruction::NOP, mode: AddressingMode::ZeroPageX, size: 2, cycles: 4, extra_cycles: 0 },
        0xd5 => OPCODE { instruction: Instruction::CMP, mode: AddressingMode::ZeroPageX, size: 2, cycles: 4, extra_cycles: 0 },
        0xd6 => OPCODE { instruction: Instruction::DEC, mode: AddressingMode::ZeroPageX, size: 2, cycles: 6, extra_cycles: 0 },
        0xd7 => OPCODE { instruction: Instruction::DCP, mode: AddressingMode::ZeroPageX, size: 2, cycles: 6, extra_cycles: 0 },
        0xd8 => OPCODE { instruction: Instruction::CLD, mode: AddressingMode::Implied, size: 1, cycles: 2, extra_cycles: 0 },
        0xd9 => OPCODE { instruction: Instruction::CMP, mode: AddressingMode::AbsoluteY, size: 3, cycles: 4, extra_cycles: 1 },
        0xda => OPCODE { instruction: Instruction::NOP, mode: AddressingMode::Implied, size: 1, cycles: 2, extra_cycles: 0 },
        0xdb => OPCODE { instruction: Instruction::DCP, mode: AddressingMode::AbsoluteY, size: 3, cycles: 7, extra_cycles: 0 },
        0xdc => OPCODE { instruction: Instruction::NOP, mode: AddressingMode::AbsoluteX, size: 3, cycles: 4, extra_cycles: 1 },
        0xdd => OPCODE { instruction: Instruction::CMP, mode: AddressingMode::AbsoluteX, size: 3, cycles: 4, extra_cycles: 1 },
        0xde => OPCODE { instruction: Instruction::DEC, mode: AddressingMode::AbsoluteX, size: 3, cycles: 7, extra_cycles: 0 },
        0xdf => OPCODE { instruction: Instruction::DCP, mode: AddressingMode::AbsoluteX, size: 3, cycles: 7, extra_cycles: 0 },
        0xe0 => OPCODE { instruction: Instruction::CPX, mode: AddressingMode::Immediate, size: 2, cycles: 2, extra_cycles: 0 },
        0xe1 => OPCODE { instruction: Instruction::SBC, mode: AddressingMode::IndirectX, size: 2, cycles: 6, extra_cycles: 0 },
        0xe2 => OPCODE { instruction: Instruction::NOP, mode: AddressingMode::Immediate, size: 2, cycles: 2, extra_cycles: 0 },
        0xe3 => OPCODE { instruction: Instruction::ISB, mode: AddressingMode::IndirectX, size: 2, cycles: 8, extra_cycles: 0 },
        0xe4 => OPCODE { instruction: Instruction::CPX, mode: AddressingMode::ZeroPage, size: 2, cycles: 3, extra_cycles: 0 },
        0xe5 => OPCODE { instruction: Instruction::SBC, mode: AddressingMode::ZeroPage, size: 2, cycles: 3, extra_cycles: 0 },
        0xe6 => OPCODE { instruction: Instruction::INC, mode: AddressingMode::ZeroPage, size: 2, cycles: 5, extra_cycles: 0 },
        0xe7 => OPCODE { instruction: Instruction::ISB, mode: AddressingMode::ZeroPage, size: 2, cycles: 5, extra_cycles: 0 },
        0xe8 => OPCODE { instruction: Instruction::INX, mode: AddressingMode::Implied, size: 1, cycles: 2, extra_cycles: 0 },
        0xe9 => OPCODE { instruction: Instruction::SBC, mode: AddressingMode::Immediate, size: 2, cycles: 2, extra_cycles: 0 },
        0xea => OPCODE { instruction: Instruction::NOP, mode: AddressingMode::Implied, size: 1, cycles: 2, extra_cycles: 0 },
        0xeb => OPCODE { instruction: Instruction::SBC, mode: AddressingMode::Immediate, size: 2, cycles: 2, extra_cycles: 0 },
        0xec => OPCODE { instruction: Instruction::CPX, mode: AddressingMode::Absolute, size: 3, cycles: 4, extra_cycles: 0 },
        0xed => OPCODE { instruction: Instruction::SBC, mode: AddressingMode::Absolute, size: 3, cycles: 4, extra_cycles: 0 },
        0xee => OPCODE { instruction: Instruction::INC, mode: AddressingMode::Absolute, size: 3, cycles: 6, extra_cycles: 0 },
        0xef => OPCODE { instruction: Instruction::ISB, mode: AddressingMode::Absolute, size: 3, cycles: 6, extra_cycles: 0 },
        0xf0 => OPCODE { instruction: Instruction::BEQ, mode: AddressingMode::Relative, size: 2, cycles: 2, extra_cycles: 1 },
        0xf1 => OPCODE { instruction: Instruction::SBC, mode: AddressingMode::IndirectY, size: 2, cycles: 5, extra_cycles: 1 },
        0xf2 => OPCODE { instruction: Instruction::JAM, mode: AddressingMode::Implied, size: 1, cycles: 2, extra_cycles: 0 },
        0xf3 => OPCODE { instruction: Instruction::ISB, mode: AddressingMode::IndirectY, size: 2, cycles: 8, extra_cycles: 0 },
        0xf4 => OPCODE { instruction: Instruction::NOP, mode: AddressingMode::ZeroPageX, size: 2, cycles: 4, extra_cycles: 0 },
        0xf5 => OPCODE { instruction: Instruction::SBC, mode: AddressingMode::ZeroPageX, size: 2, cycles: 4, extra_cycles: 0 },
        0xf6 => OPCODE { instruction: Instruction::INC, mode: AddressingMode::ZeroPageX, size: 2, cycles: 6, extra_cycles: 0 },
        0xf7 => OPCODE { instruction: Instruction::ISB, mode: AddressingMode::ZeroPageX, size: 2, cycles: 6, extra_cycles: 0 },
        0xf8 => OPCODE { instruction: Instruction::SED, mode: AddressingMode::Implied, size: 1, cycles: 2, extra_cycles: 0 },
        0xf9 => OPCODE { instruction: Instruction::SBC, mode: AddressingMode::AbsoluteY, size: 3, cycles: 4, extra_cycles: 1 },
        0xfa => OPCODE { instruction: Instruction::NOP, mode: AddressingMode::Implied, size: 1, cycles: 2, extra_cycles: 0 },
        0xfb => OPCODE { instruction: Instruction::ISB, mode: AddressingMode::AbsoluteY, size: 3, cycles: 7, extra_cycles: 0 },
        0xfc => OPCODE { instruction: Instruction::NOP, mode: AddressingMode::AbsoluteX, size: 3, cycles: 4, extra_cycles: 1 },
        0xfd => OPCODE { instruction: Instruction::SBC, mode: AddressingMode::AbsoluteX, size: 3, cycles: 4, extra_cycles: 1 },
        0xfe => OPCODE { instruction: Instruction::INC, mode: AddressingMode::AbsoluteX, size: 3, cycles: 7, extra_cycles: 0 },
        _ => OPCODE { instruction: Instruction::ISB, mode: AddressingMode::AbsoluteX, size: 3, cycles: 7, extra_cycles: 0 },
    }
}

/// Looks up opcode `op` in the table.
pub fn decode_opcode(op: u8) -> (r: OPCODE)
    ensures
        r == opcode_spec(op),
{
    match op {
        0x00 => OPCODE { instruction: Instruction::BRK, mode: AddressingMode::Implied, size: 1, cycles: 7, extra_cycles: 0 },
        0x01 => OPCODE { instruction: Instruction::ORA, mode: AddressingMode::IndirectX, size: 2, cycles: 6, extra_cycles: 0 },
        0x02 => OPCODE { instruction: Instruction::JAM, mode: AddressingMode::Implied, size: 1, cycles: 2, extra_cycles: 0 },
        0x03 => OPCODE { instruction: Instruction::SLO, mode: AddressingMode::IndirectX, size: 2, cycles: 8, extra_cycles: 0 },
        0x04 => OPCODE { instruction: Instruction::NOP, mode: AddressingMode::ZeroPage, size: 2, cycles: 3, extra_cycles: 0 },
        0x05 => OPCODE { instruction: Instruction::ORA, mode: AddressingMode::ZeroPage, size: 2, cycles: 3, extra_cycles: 0 },
        0x06 => OPCODE { instruction: Instruction::ASL, mode: AddressingMode::ZeroPage, size: 2, cycles: 5, extra_cycles: 0 },
        0x07 => OPCODE { instruction: Instruction::SLO, mode: AddressingMode::ZeroPage, size: 2, cycles: 5, extra_cycles: 0 },
        0x08 => OPCODE { instruction: Instruction::PHP, mode: AddressingMode::Implied, size: 1, cycles: 3, extra_cycles: 0 },
        0x09 => OPCODE { instruction: Instruction::ORA, mode: AddressingMode::Immediate, size: 2, cycles: 2, extra_cycles: 0 },
        0x0a => OPCODE { instruction: Instruction::ASL, mode: AddressingMode::Accumulator, size: 1, cycles: 2, extra_cycles: 0 },
        0x0b => OPCODE { instruction: Instruction::ANC, mode: AddressingMode::Immediate, size: 2, cycles: 2, extra_cycles: 0 },
        0x0c => OPCODE { instruction: Instruction::NOP, mode: AddressingMode::Absolute, size: 3, cycles: 4, extra_cycles: 0 },
        0x0d => OPCODE { instruction: Instruction::ORA, mode: AddressingMode::Absolute, size: 3, cycles: 4, extra_cycles: 0 },
        0x0e => OPCODE { instruction: Instruction::ASL, mode: AddressingMode::Absolute, size: 3, cycles: 6, extra_cycles: 0 },
        0x0f => OPCODE { instruction: Instruction::SLO, mode: AddressingMode::Absolute, size: 3, cycles: 6, extra_cycles: 0 },
        0x10 => OPCODE { instruction: Instruction::BPL, mode: AddressingMode::Relative, size: 2, cycles: 2, extra_cycles: 1 },
        0x11 => OPCODE { instruction: Instruction::ORA, mode: AddressingMode::IndirectY, size: 2, cycles: 5, extra_cycles: 1 },
        0x12 => OPCODE { instruction: Instruction::JAM, mode: AddressingMode::Implied, size: 1, cycles: 2, extra_cycles: 0 },
        0x13 => OPCODE { instruction: Instruction::SLO, mode: AddressingMode::IndirectY, size: 2, cycles: 8, extra_cycles: 0 },
        0x14 => OPCODE { instruction: Instruction::NOP, mode: AddressingMode::ZeroPageX, size: 2, cycles: 4, extra_cycles: 0 },
        0x15 => OPCODE { instruction: Instruction::ORA, mode: AddressingMode::ZeroPageX, size: 2, cycles: 4, extra_cycles: 0 },
        0x16 => OPCODE { instruction: Instruction::ASL, mode: AddressingMode::ZeroPageX, size: 2, cycles: 6, extra_cycles: 0 },
        0x17 => OPCODE { instruction: Instruction::SLO, mode: AddressingMode::ZeroPageX, size: 2, cycles: 6, extra_cycles: 0 },
        0x18 => OPCODE { instruction: Instruction::CLC, mode: AddressingMode::Implied, size: 1, cycles: 2, extra_cycles: 0 },
        0x19 => OPCODE { instruction: Instruction::ORA, mode: AddressingMode::AbsoluteY, size: 3, cycles: 4, extra_cycles: 1 },
        0x1a => OPCODE { instruction: Instruction::NOP, mode: AddressingMode::Implied, size: 1, cycles: 2, extra_cycles: 0 },
        0x1b => OPCODE { instruction: Instruction::SLO, mode: AddressingMode::AbsoluteY, size: 3, cycles: 7, extra_cycles: 0 },
        0x1c => OPCODE { instruction: Instruction::NOP, mode: AddressingMode::AbsoluteX, size: 3, cycles: 4, extra_cycles: 1 },
        0x1d => OPCODE { instruction: Instruction::ORA, mode: AddressingMode::AbsoluteX, size: 3, cycles: 4, extra_cycles: 1 },
        0x1e => OPCODE { instruction: Instruction::ASL, mode: AddressingMode::AbsoluteX, size: 3, cycles: 7, extra_cycles: 0 },
        0x1f => OPCODE { instruction: Instruction::SLO, mode: AddressingMode::AbsoluteX, size: 3, cycles: 7, extra_cycles: 0 },
        0x20 => OPCODE { instruction: Instruction::JSR, mode: AddressingMode::Absolute, size: 3, cycles: 6, extra_cycles: 0 },
        0x21 => OPCODE { instruction: Instruction::AND, mode: AddressingMode::IndirectX, size: 2, cycles: 6, extra_cycles: 0 },
        0x22 => OPCODE { instruction: Instruction::JAM, mode: AddressingMode::Implied, size: 1, cycles: 2, extra_cycles: 0 },
        0x23 => OPCODE { instruction: Instruction::RLA, mode: AddressingMode::IndirectX, size: 2, cycles: 8, extra_cycles: 0 },
        0x24 => OPCODE { instruction: Instruction::BIT, mode: AddressingMode::ZeroPage, size: 2, cycles: 3, extra_cycles: 0 },
        0x25 => OPCODE { instruction: Instruction::AND, mode: AddressingMode::ZeroPage, size: 2, cycles: 3, extra_cycles: 0 },
        0x26 => OPCODE { instruction: Instruction::ROL, mode: AddressingMode::ZeroPage, size: 2, cycles: 5, extra_cycles: 0 },
        0x27 => OPCODE { instruction: Instruction::RLA, mode: AddressingMode::ZeroPage, size: 2, cycles: 5, extra_cycles: 0 },
        0x28 => OPCODE { instruction: Instruction::PLP, mode: AddressingMode::Implied, size: 1, cycles: 4, extra_cycles: 0 },
        0x29 => OPCODE { instruction: Instruction::AND, mode: AddressingMode::Immediate, size: 2, cycles: 2, extra_cycles: 0 },
        0x2a => OPCODE { instruction: Instruction::ROL, mode: AddressingMode::Accumulator, size: 1, cycles: 2, extra_cycles: 0 },
        0x2b => OPCODE { instruction: Instruction::ANC, mode: AddressingMode::Immediate, size: 2, cycles: 2, extra_cycles: 0 },
        0x2c => OPCODE { instruction: Instruction::BIT, mode: AddressingMode::Absolute, size: 3, cycles: 4, extra_cycles: 0 },
        0x2d => OPCODE { instruction: Instruction::AND, mode: AddressingMode::Absolute, size: 3, cycles: 4, extra_cycles: 0 },
        0x2e => OPCODE { instruction: Instruction::ROL, mode: AddressingMode::Absolute, size: 3, cycles: 6, extra_cycles: 0 },
        0x2f => OPCODE { instruction: Instruction::RLA, mode: AddressingMode::Absolute, size: 3, cycles: 6, extra_cycles: 0 },
        0x30 => OPCODE { instruction: Instruction::BMI, mode: AddressingMode::Relative, size: 2, cycles: 2, extra_cycles: 1 },
        0x31 => OPCODE { instruction: Instruction::AND, mode: AddressingMode::IndirectY, size: 2, cycles: 5, extra_cycles: 1 },
        0x32 => OPCODE { instruction: Instruction::JAM, mode: AddressingMode::Implied, size: 1, cycles: 2, extra_cycles: 0 },
        0x33 => OPCODE { instruction: Instruction::RLA, mode: AddressingMode::IndirectY, size: 2, cycles: 8, extra_cycles: 0 },
        0x34 => OPCODE { instruction: Instruction::NOP, mode: AddressingMode::ZeroPageX, size: 2, cycles: 4, extra_cycles: 0 },
        0x35 => OPCODE { instruction: Instruction::AND, mode: AddressingMode::ZeroPageX, size: 2, cycles: 4, extra_cycles: 0 },
        0x36 => OPCODE { instruction: Instruction::ROL, mode: AddressingMode::ZeroPageX, size: 2, cycles: 6, extra_cycles: 0 },
        0x37 => OPCODE { instruction: Instruction::RLA, mode: AddressingMode::ZeroPageX, size: 2, cycles: 6, extra_cycles: 0 },
        0x38 => OPCODE { instruction: Instruction::SEC, mode: AddressingMode::Implied, size: 1, cycles: 2, extra_cycles: 0 },
        0x39 => OPCODE { instruction: Instruction::AND, mode: AddressingMode::AbsoluteY, size: 3, cycles: 4, extra_cycles: 1 },
        0x3a => OPCODE { instruction: Instruction::NOP, mode: AddressingMode::Implied, size: 1, cycles: 2, extra_cycles: 0 },
        0x3b => OPCODE { instruction: Instruction::RLA, mode: AddressingMode::AbsoluteY, size: 3, cycles: 7, extra_cycles: 0 },
        0x3c => OPCODE { instruction: Instruction::NOP, mode: AddressingMode::AbsoluteX, size: 3, cycles: 4, extra_cycles: 1 },
        0x3d => OPCODE { instruction: Instruction::AND, mode: AddressingMode::AbsoluteX, size: 3, cycles: 4, extra_cycles: 1 },
        0x3e => OPCODE { instruction: Instruction::ROL, mode: AddressingMode::AbsoluteX, size: 3, cycles: 7, extra_cycles: 0 },
        0x3f => OPCODE { instruction: Instruction::RLA, mode: AddressingMode::AbsoluteX, size: 3, cycles: 7, extra_cycles: 0 },
        0x40 => OPCODE { instruction: Instruction::RTI, mode: AddressingMode::Implied, size: 1, cycles: 6, extra_cycles: 0 },
        0x41 => OPCODE { instruction: Instruction::EOR, mode: AddressingMode::IndirectX, size: 2, cycles: 6, extra_cycles: 0 },
        0x42 => OPCODE { instruction: Instruction::JAM, mode: AddressingMode::Implied, size: 1, cycles: 2, extra_cycles: 0 },
        0x43 => OPCODE { instruction: Instruction::SRE, mode: AddressingMode::IndirectX, size: 2, cycles: 8, extra_cycles: 0 },
        0x44 => OPCODE { instruction: Instruction::NOP, mode: AddressingMode::ZeroPage, size: 2, cycles: 3, extra_cycles: 0 },
        0x45 => OPCODE { instruction: Instruction::EOR, mode: AddressingMode::ZeroPage, size: 2, cycles: 3, extra_cycles: 0 },
        0x46 => OPCODE { instruction: Instruction::LSR, mode: AddressingMode::ZeroPage, size: 2, cycles: 5, extra_cycles: 0 },
        0x47 => OPCODE { instruction: Instruction::SRE, mode: AddressingMode::ZeroPage, size: 2, cycles: 5, extra_cycles: 0 },
        0x48 => OPCODE { instruction: Instruction::PHA, mode: AddressingMode::Implied, size: 1, cycles: 3, extra_cycles: 0 },
        0x49 => OPCODE { instruction: Instruction::EOR, mode: AddressingMode::Immediate, size: 2, cycles: 2, extra_cycles: 0 },
        0x4a => OPCODE { instruction: Instruction::LSR, mode: AddressingMode::Accumulator, size: 1, cycles: 2, extra_cycles: 0 },
        0x4b => OPCODE { instruction: Instruction::ALR, mode: AddressingMode::Immediate, size: 2, cycles: 2, extra_cycles: 0 },
        0x4c => OPCODE { instruction: Instruction::JMP, mode: AddressingMode::Absolute, size: 3, cycles: 3, extra_cycles: 0 },
        0x4d => OPCODE { instruction: Instruction::EOR, mode: AddressingMode::Absolute, size: 3, cycles: 4, extra_cycles: 0 },
        0x4e => OPCODE { instruction: Instruction::LSR, mode: AddressingMode::Absolute, size: 3, cycles: 6, extra_cycles: 0 },
        0x4f => OPCODE { instruction: Instruction::SRE, mode: AddressingMode::Absolute, size: 3, cycles: 6, extra_cycles: 0 },
        0x50 => OPCODE { instruction: Instruction::BVC, mode: AddressingMode::Relative, size: 2, cycles: 2, extra_cycles: 1 },
        0x51 => OPCODE { instruction: Instruction::EOR, mode: AddressingMode::IndirectY, size: 2, cycles: 5, extra_cycles: 1 },
        0x52 => OPCODE { instruction: Instruction::JAM, mode: AddressingMode::Implied, size: 1, cycles: 2, extra_cycles: 0 },
        0x53 => OPCODE { instruction: Instruction::SRE, mode: AddressingMode::IndirectY, size: 2, cycles: 8, extra_cycles: 0 },
        0x54 => OPCODE { instruction: Instruction::NOP, mode: AddressingMode::ZeroPageX, size: 2, cycles: 4, extra_cycles: 0 },
        0x55 => OPCODE { instruction: Instruction::EOR, mode: AddressingMode::ZeroPageX, size: 2, cycles: 4, extra_cycles: 0 },
        0x56 => OPCODE { instruction: Instruction::LSR, mode: AddressingMode::ZeroPageX, size: 2, cycles: 6, extra_cycles: 0 },
        0x57 => OPCODE { instruction: Instruction::SRE, mode: AddressingMode::ZeroPageX, size: 2, cycles: 6, extra_cycles: 0 },
        0x58 => OPCODE { instruction: Instruction::CLI, mode: AddressingMode::Implied, size: 1, cycles: 2, extra_cycles: 0 },
        0x59 => OPCODE { instruction: Instruction::EOR, mode: AddressingMode::AbsoluteY, size: 3, cycles: 4, extra_cycles: 1 },
        0x5a => OPCODE { instruction: Instruction::NOP, mode: AddressingMode::Implied, size: 1, cycles: 2, extra_cycles: 0 },
        0x5b => OPCODE { instruction: Instruction::SRE, mode: AddressingMode::AbsoluteY, size: 3, cycles: 7, extra_cycles: 0 },
        0x5c => OPCODE { instruction: Instruction::NOP, mode: AddressingMode::AbsoluteX, size: 3, cycles: 4, extra_cycles: 1 },
        0x5d => OPCODE { instruction: Instruction::EOR, mode: AddressingMode::AbsoluteX, size: 3, cycles: 4, extra_cycles: 1 },
        0x5e => OPCODE { instruction: Instruction::LSR, mode: AddressingMode::AbsoluteX, size: 3, cycles: 7, extra_cycles: 0 },
        0x5f => OPCODE { instruction: Instruction::SRE, mode: AddressingMode::AbsoluteX, size: 3, cycles: 7, extra_cycles: 0 },
        0x60 => OPCODE { instruction: Instruction::RTS, mode: AddressingMode::Implied, size: 1, cycles: 6, extra_cycles: 0 },
        0x61 => OPCODE { instruction: Instruction::ADC, mode: AddressingMode::IndirectX, size: 2, cycles: 6, extra_cycles: 0 },
        0x62 => OPCODE { instruction: Instruction::JAM, mode: AddressingMode::Implied, size: 1, cycles: 2, extra_cycles: 0 },
        0x63 => OPCODE { instruction: Instruction::RRA, mode: AddressingMode::IndirectX, size: 2, cycles: 8, extra_cycles: 0 },
        0x64 => OPCODE { instruction: Instruction::NOP, mode: AddressingMode::ZeroPage, size: 2, cycles: 3, extra_cycles: 0 },
        0x65 => OPCODE { instruction: Instruction::ADC, mode: AddressingMode::ZeroPage, size: 2, cycles: 3, extra_cycles: 0 },
        0x66 => OPCODE { instruction: Instruction::ROR, mode: AddressingMode::ZeroPage, size: 2, cycles: 5, extra_cycles: 0 },
        0x67 => OPCODE { instruction: Instruction::RRA, mode: AddressingMode::ZeroPage, size: 2, cycles: 5, extra_cycles: 0 },
        0x68 => OPCODE { instruction: Instruction::PLA, mode: AddressingMode::Implied, size: 1, cycles: 4, extra_cycles: 0 },
        0x69 => OPCODE { instruction: Instruction::ADC, mode: AddressingMode::Immediate, size: 2, cycles: 2, extra_cycles: 0 },
        0x6a => OPCODE { instruction: Instruction::ROR, mode: AddressingMode::Accumulator, size: 1, cycles: 2, extra_cycles: 0 },
        0x6b => OPCODE { instruction: Instruction::ARR, mode: AddressingMode::Immediate, size: 2, cycles: 2, extra_cycles: 0 },
        0x6c => OPCODE { instruction: Instruction::JMP, mode: AddressingMode::Indirect, size: 3, cycles: 5, extra_cycles: 0 },
        0x6d => OPCODE { instruction: Instruction::ADC, mode: AddressingMode::Absolute, size: 3, cycles: 4, extra_cycles: 0 },
        0x6e => OPCODE { instruction: Instruction::ROR, mode: AddressingMode::Absolute, size: 3, cycles: 6, extra_cycles: 0 },
        0x6f => OPCODE { instruction: Instruction::RRA, mode: AddressingMode::Absolute, size: 3, cycles: 6, extra_cycles: 0 },
        0x70 => OPCODE { instruction: Instruction::BVS, mode: AddressingMode::Relative, size: 2, cycles: 2, extra_cycles: 1 },
        0x71 => OPCODE { instruction: Instruction::ADC, mode: AddressingMode::IndirectY, size: 2, cycles: 5, extra_cycles: 1 },
        0x72 => OPCODE { instruction: Instruction::JAM, mode: AddressingMode::Implied, size: 1, cycles: 2, extra_cycles: 0 },
        0x73 => OPCODE { instruction: Instruction::RRA, mode: AddressingMode::IndirectY, size: 2, cycles: 8, extra_cycles: 0 },
        0x74 => OPCODE { instruction: Instruction::NOP, mode: AddressingMode::ZeroPageX, size: 2, cycles: 4, extra_cycles: 0 },
        0x75 => OPCODE { instruction: Instruction::ADC, mode: AddressingMode::ZeroPageX, size: 2, cycles: 4, extra_cycles: 0 },
        0x76 => OPCODE { instruction: Instruction::ROR, mode: AddressingMode::ZeroPageX, size: 2, cycles: 6, extra_cycles: 0 },
        0x77 => OPCODE { instruction: Instruction::RRA, mode: AddressingMode::ZeroPageX, size: 2, cycles: 6, extra_cycles: 0 },
        0x78 => OPCODE { instruction: Instruction::SEI, mode: AddressingMode::Implied, size: 1, cycles: 2, extra_cycles: 0 },
        0x79 => OPCODE { instruction: Instruction::ADC, mode: AddressingMode::AbsoluteY, size: 3, cycles: 4, extra_cycles: 1 },
        0x7a => OPCODE { instruction: Instruction::NOP, mode: AddressingMode::Implied, size: 1, cycles: 2, extra_cycles: 0 },
        0x7b => OPCODE { instruction: Instruction::RRA, mode: AddressingMode::AbsoluteY, size: 3, cycles: 7, extra_cycles: 0 },
        0x7c => OPCODE { instruction: Instruction::NOP, mode: AddressingMode::AbsoluteX, size: 3, cycles: 4, extra_cycles: 1 },
        0x7d => OPCODE { instruction: Instruction::ADC, mode: AddressingMode::AbsoluteX, size: 3, cycles: 4, extra_cycles: 1 },
        0x7e => OPCODE { instruction: Instruction::ROR, mode: AddressingMode::AbsoluteX, size: 3, cycles: 7, extra_cycles: 0 },
        0x7f => OPCODE { instruction: Instruction::RRA, mode: AddressingMode::AbsoluteX, size: 3, cycles: 7, extra_cycles: 0 },
        0x80 => OPCODE { instruction: Instruction::NOP, mode: AddressingMode::Immediate, size: 2, cycles: 2, extra_cycles: 0 },
        0x81 => OPCODE { instruction: Instruction::STA, mode: AddressingMode::IndirectX, size: 2, cycles: 6, extra_cycles: 0 },
        0x82 => OPCODE { instruction: Instruction::NOP, mode: AddressingMode::Immediate, size: 2, cycles: 2, extra_cycles: 0 },
        0x83 => OPCODE { instruction: Instruction::SAX, mode: AddressingMode::IndirectX, size: 2, cycles: 6, extra_cycles: 0 },
        0x84 => OPCODE { instruction: Instruction::STY, mode: AddressingMode::ZeroPage, size: 2, cycles: 3, extra_cycles: 0 },
        0x85 => OPCODE { instruction: Instruction::STA, mode: AddressingMode::ZeroPage, size: 2, cycles: 3, extra_cycles: 0 },
        0x86 => OPCODE { instruction: Instruction::STX, mode: AddressingMode::ZeroPage, size: 2, cycles: 3, extra_cycles: 0 },
        0x87 => OPCODE { instruction: Instruction::SAX, mode: AddressingMode::ZeroPage, size: 2, cycles: 3, extra_cycles: 0 },
        0x88 => OPCODE { instruction: Instruction::DEY, mode: AddressingMode::Implied, size: 1, cycles: 2, extra_cycles: 0 },
        0x89 => OPCODE { instruction: Instruction::NOP, mode: AddressingMode::Immediate, size: 2, cycles: 2, extra_cycles: 0 },
        0x8a => OPCODE { instruction: Instruction::TXA, mode: AddressingMode::Implied, size: 1, cycles: 2, extra_cycles: 0 },
        0x8b => OPCODE { instruction: Instruction::XAA, mode: AddressingMode::Immediate, size: 2, cycles: 2, extra_cycles: 0 },
        0x8c => OPCODE { instruction: Instruction::STY, mode: AddressingMode::Absolute, size: 3, cycles: 4, extra_cycles: 0 },
        0x8d => OPCODE { instruction: Instruction::STA, mode: AddressingMode::Absolute, size: 3, cycles: 4, extra_cycles: 0 },
        0x8e => OPCODE { instruction: Instruction::STX, mode: AddressingMode::Absolute, size: 3, cycles: 4, extra_cycles: 0 },
        0x8f => OPCODE { instruction: Instruction::SAX, mode: AddressingMode::Absolute, size: 3, cycles: 4, extra_cycles: 0 },
        0x90 => OPCODE { instruction: Instruction::BCC, mode: AddressingMode::Relative, size: 2, cycles: 2, extra_cycles: 1 },
        0x91 => OPCODE { instruction: Instruction::STA, mode: AddressingMode::IndirectY, size: 2, cycles: 6, extra_cycles: 0 },
        0x92 => OPCODE { instruction: Instruction::JAM, mode: AddressingMode::Implied, size: 1, cycles: 2, extra_cycles: 0 },
        0x93 => OPCODE { instruction: Instruction::AHX, mode: AddressingMode::IndirectY, size: 2, cycles: 6, extra_cycles: 0 },
        0x94 => OPCODE { instruction: Instruction::STY, mode: AddressingMode::ZeroPageX, size: 2, cycles: 4, extra_cycles: 0 },
        0x95 => OPCODE { instruction: Instruction::STA, mode: AddressingMode::ZeroPageX, size: 2, cycles: 4, extra_cycles: 0 },
        0x96 => OPCODE { instruction: Instruction::STX, mode: AddressingMode::ZeroPageY, size: 2, cycles: 4, extra_cycles: 0 },
        0x97 => OPCODE { instruction: Instruction::SAX, mode: AddressingMode::ZeroPageY, size: 2, cycles: 4, extra_cycles: 0 },
        0x98 => OPCODE { instruction: Instruction::TYA, mode: AddressingMode::Implied, size: 1, cycles: 2, extra_cycles: 0 },
        0x99 => OPCODE { instruction: Instruction::STA, mode: AddressingMode::AbsoluteY, size: 3, cycles: 5, extra_cycles: 0 },
        0x9a => OPCODE { instruction: Instruction::TXS, mode: AddressingMode::Implied, size: 1, cycles: 2, extra_cycles: 0 },
        0x9b => OPCODE { instruction: Instruction::TAS, mode: AddressingMode::AbsoluteY, size: 3, cycles: 5, extra_cycles: 0 },
        0x9c => OPCODE { instruction: Instruction::SHY, mode: AddressingMode::AbsoluteX, size: 3, cycles: 5, extra_cycles: 0 },
        0x9d => OPCODE { instruction: Instruction::STA, mode: AddressingMode::AbsoluteX, size: 3, cycles: 5, extra_cycles: 0 },
        0x9e => OPCODE { instruction: Instruction::SHX, mode: AddressingMode::AbsoluteY, size: 3, cycles: 5, extra_cycles: 0 },
        0x9f => OPCODE { instruction: Instruction::AHX, mode: AddressingMode::AbsoluteY, size: 3, cycles: 5, extra_cycles: 0 },
        0xa0 => OPCODE { instruction: Instruction::LDY, mode: AddressingMode::Immediate, size: 2, cycles: 2, extra_cycles: 0 },
        0xa1 => OPCODE { instruction: Instruction::LDA, mode: AddressingMode::IndirectX, size: 2, cycles: 6, extra_cycles: 0 },
        0xa2 => OPCODE { instruction: Instruction::LDX, mode: AddressingMode::Immediate, size: 2, cycles: 2, extra_cycles: 0 },
        0xa3 => OPCODE { instruction: Instruction::LAX, mode: AddressingMode::IndirectX, size: 2, cycles: 6, extra_cycles: 0 },
        0xa4 => OPCODE { instruction: Instruction::LDY, mode: AddressingMode::ZeroPage, size: 2, cycles: 3, extra_cycles: 0 },
        0xa5 => OPCODE { instruction: Instruction::LDA, mode: AddressingMode::ZeroPage, size: 2, cycles: 3, extra_cycles: 0 },
        0xa6 => OPCODE { instruction: Instruction::LDX, mode: AddressingMode::ZeroPage, size: 2, cycles: 3, extra_cycles: 0 },
        0xa7 => OPCODE { instruction: Instruction::LAX, mode: AddressingMode::ZeroPage, size: 2, cycles: 3, extra_cycles: 0 },
        0xa8 => OPCODE { instruction: Instruction::TAY, mode: AddressingMode::Implied, size: 1, cycles: 2, extra_cycles: 0 },
        0xa9 => OPCODE { instruction: Instruction::LDA, mode: AddressingMode::Immediate, size: 2, cycles: 2, extra_cycles: 0 },
        0xaa => OPCODE { instruction: Instruction::TAX, mode: AddressingMode::Implied, size: 1, cycles: 2, extra_cycles: 0 },
        0xab => OPCODE { instruction: Instruction::LAX, mode: AddressingMode::Immediate, size: 2, cycles: 2, extra_cycles: 0 },
        0xac => OPCODE { instruction: Instruction::LDY, mode: AddressingMode::Absolute, size: 3, cycles: 4, extra_cycles: 0 },
        0xad => OPCODE { instruction: Instruction::LDA, mode: AddressingMode::Absolute, size: 3, cycles: 4, extra_cycles: 0 },
        0xae => OPCODE { instruction: Instruction::LDX, mode: AddressingMode::Absolute, size: 3, cycles: 4, extra_cycles: 0 },
        0xaf => OPCODE { instruction: Instruction::LAX, mode: AddressingMode::Absolute, size: 3, cycles: 4, extra_cycles: 0 },
        0xb0 => OPCODE { instruction: Instruction::BCS, mode: AddressingMode::Relative, size: 2, cycles: 2, extra_cycles: 1 },
        0xb1 => OPCODE { instruction: Instruction::LDA, mode: AddressingMode::IndirectY, size: 2, cycles: 5, extra_cycles: 1 },
        0xb2 => OPCODE { instruction: Instruction::JAM, mode: AddressingMode::Implied, size: 1, cycles: 2, extra_cycles: 0 },
        0xb3 => OPCODE { instruction: Instruction::LAX, mode: AddressingMode::IndirectY, size: 2, cycles: 5, extra_cycles: 1 },
        0xb4 => OPCODE { instruction: Instruction::LDY, mode: AddressingMode::ZeroPageX, size: 2, cycles: 4, extra_cycles: 0 },
        0xb5 => OPCODE { instruction: Instruction::LDA, mode: AddressingMode::ZeroPageX, size: 2, cycles: 4, extra_cycles: 0 },
        0xb6 => OPCODE { instruction: Instruction::LDX, mode: AddressingMode::ZeroPageY, size: 2, cycles: 4, extra_cycles: 0 },
        0xb7 => OPCODE { instruction: Instruction::LAX, mode: AddressingMode::ZeroPageY, size: 2, cycles: 4, extra_cycles: 0 },
        0xb8 => OPCODE { instruction: Instruction::CLV, mode: AddressingMode::Implied, size: 1, cycles: 2, extra_cycles: 0 },
        0xb9 => OPCODE { instruction: Instruction::LDA, mode: AddressingMode::AbsoluteY, size: 3, cycles: 4, extra_cycles: 1 },
        0xba => OPCODE { instruction: Instruction::TSX, mode: AddressingMode::Implied, size: 1, cycles: 2, extra_cycles: 0 },
        0xbb => OPCODE { instruction: Instruction::LAS, mode: AddressingMode::AbsoluteY, size: 3, cycles: 4, extra_cycles: 1 },
        0xbc => OPCODE { instruction: Instruction::LDY, mode: AddressingMode::AbsoluteX, size: 3, cycles: 4, extra_cycles: 1 },
        0xbd => OPCODE { instruction: Instruction::LDA, mode: AddressingMode::AbsoluteX, size: 3, cycles: 4, extra_cycles: 1 },
        0xbe => OPCODE { instruction: Instruction::LDX, mode: AddressingMode::AbsoluteY, size: 3, cycles: 4, extra_cycles: 1 },
        0xbf => OPCODE { instruction: Instruction::LAX, mode: AddressingMode::AbsoluteY, size: 3, cycles: 4, extra_cycles: 1 },
        0xc0 => OPCODE { instruction: Instruction::CPY, mode: AddressingMode::Immediate, size: 2, cycles: 2, extra_cycles: 0 },
        0xc1 => OPCODE { instruction: Instruction::CMP, mode: AddressingMode::IndirectX, size: 2, cycles: 6, extra_cycles: 0 },
        0xc2 => OPCODE { instruction: Instruction::NOP, mode: AddressingMode::Immediate, size: 2, cycles: 2, extra_cycles: 0 },
        0xc3 => OPCODE { instruction: Instruction::DCP, mode: AddressingMode::IndirectX, size: 2, cycles: 8, extra_cycles: 0 },
        0xc4 => OPCODE { instruction: Instruction::CPY, mode: AddressingMode::ZeroPage, size: 2, cycles: 3, extra_cycles: 0 },
        0xc5 => OPCODE { instruction: Instruction::CMP, mode: AddressingMode::ZeroPage, size: 2, cycles: 3, extra_cycles: 0 },
        0xc6 => OPCODE { instruction: Instruction::DEC, mode: AddressingMode::ZeroPage, size: 2, cycles: 5, extra_cycles: 0 },
        0xc7 => OPCODE { instruction: Instruction::DCP, mode: AddressingMode::ZeroPage, size: 2, cycles: 5, extra_cycles: 0 },
        0xc8 => OPCODE { instruction: Instruction::INY, mode: AddressingMode::Implied, size: 1, cycles: 2, extra_cycles: 0 },
        0xc9 => OPCODE { instruction: Instruction::CMP, mode: AddressingMode::Immediate, size: 2, cycles: 2, extra_cycles: 0 },
        0xca => OPCODE { instruction: Instruction::DEX, mode: AddressingMode::Implied, size: 1, cycles: 2, extra_cycles: 0 },
        0xcb => OPCODE { instruction: Instruction::AXS, mode: AddressingMode::Immediate, size: 2, cycles: 2, extra_cycles: 0 },
        0xcc => OPCODE { instruction: Instruction::CPY, mode: AddressingMode::Absolute, size: 3, cycles: 4, extra_cycles: 0 },
        0xcd => OPCODE { instruction: Instruction::CMP, mode: AddressingMode::Absolute, size: 3, cycles: 4, extra_cycles: 0 },
        0xce => OPCODE { instruction: Instruction::DEC, mode: AddressingMode::Absolute, size: 3, cycles: 6, extra_cycles: 0 },
        0xcf => OPCODE { instruction: Instruction::DCP, mode: AddressingMode::Absolute, size: 3, cycles: 6, extra_cycles: 0 },
        0xd0 => OPCODE { instruction: Instruction::BNE, mode: AddressingMode::Relative, size: 2, cycles: 2, extra_cycles: 1 },
        0xd1 => OPCODE { instruction: Instruction::CMP, mode: AddressingMode::IndirectY, size: 2, cycles: 5, extra_cycles: 1 },
        0xd2 => OPCODE { instruction: Instruction::JAM, mode: AddressingMode::Implied, size: 1, cycles: 2, extra_cycles: 0 },
        0xd3 => OPCODE { instruction: Instruction::DCP, mode: AddressingMode::IndirectY, size: 2, cycles: 8, extra_cycles: 0 },
        0xd4 => OPCODE { instruction: Instruction::NOP, mode: AddressingMode::ZeroPageX, size: 2, cycles: 4, extra_cycles: 0 },
        0xd5 => OPCODE { instruction: Instruction::CMP, mode: AddressingMode::ZeroPageX, size: 2, cycles: 4, extra_cycles: 0 },
        0xd6 => OPCODE { instruction: Instruction::DEC, mode: AddressingMode::ZeroPageX, size: 2, cycles: 6, extra_cycles: 0 },
        0xd7 => OPCODE { instruction: Instruction::DCP, mode: AddressingMode::ZeroPageX, size: 2, cycles: 6, extra_cycles: 0 },
        0xd8 => OPCODE { instruction: Instruction::CLD, mode: AddressingMode::Implied, size: 1, cycles: 2, extra_cycles: 0 },
        0xd9 => OPCODE { instruction: Instruction::CMP, mode: AddressingMode::AbsoluteY, size: 3, cycles: 4, extra_cycles: 1 },
        0xda => OPCODE { instruction: Instruction::NOP, mode: AddressingMode::Implied, size: 1, cycles: 2, extra_cycles: 0 },
        0xdb => OPCODE { instruction: Instruction::DCP, mode: AddressingMode::AbsoluteY, size: 3, cycles: 7, extra_cycles: 0 },
        0xdc => OPCODE { instruction: Instruction::NOP, mode: AddressingMode::AbsoluteX, size: 3, cycles: 4, extra_cycles: 1 },
        0xdd => OPCODE { instruction: Instruction::CMP, mode: AddressingMode::AbsoluteX, size: 3, cycles: 4, extra_cycles: 1 },
        0xde => OPCODE { instruction: Instruction::DEC, mode: AddressingMode::AbsoluteX, size: 3, cycles: 7, extra_cycles: 0 },
        0xdf => OPCODE { instruction: Instruction::DCP, mode: AddressingMode::AbsoluteX, size: 3, cycles: 7, extra_cycles: 0 },
        0xe0 => OPCODE { instruction: Instruction::CPX, mode: AddressingMode::Immediate, size: 2, cycles: 2, extra_cycles: 0 },
        0xe1 => OPCODE { instruction: Instruction::SBC, mode: AddressingMode::IndirectX, size: 2, cycles: 6, extra_cycles: 0 },
        0xe2 => OPCODE { instruction: Instruction::NOP, mode: AddressingMode::Immediate, size: 2, cycles: 2, extra_cycles: 0 },
        0xe3 => OPCODE { instruction: Instruction::ISB, mode: AddressingMode::IndirectX, size: 2, cycles: 8, extra_cycles: 0 },
        0xe4 => OPCODE { instruction: Instruction::CPX, mode: AddressingMode::ZeroPage, size: 2, cycles: 3, extra_cycles: 0 },
        0xe5 => OPCODE { instruction: Instruction::SBC, mode: AddressingMode::ZeroPage, size: 2, cycles: 3, extra_cycles: 0 },
        0xe6 => OPCODE { instruction: Instruction::INC, mode: AddressingMode::ZeroPage, size: 2, cycles: 5, extra_cycles: 0 },
        0xe7 => OPCODE { instruction: Instruction::ISB, mode: AddressingMode::ZeroPage, size: 2, cycles: 5, extra_cycles: 0 },
        0xe8 => OPCODE { instruction: Instruction::INX, mode: AddressingMode::Implied, size: 1, cycles: 2, extra_cycles: 0 },
        0xe9 => OPCODE { instruction: Instruction::SBC, mode: AddressingMode::Immediate, size: 2, cycles: 2, extra_cycles: 0 },
        0xea => OPCODE { instruction: Instruction::NOP, mode: AddressingMode::Implied, size: 1, cycles: 2, extra_cycles: 0 },
        0xeb => OPCODE { instruction: Instruction::SBC, mode: AddressingMode::Immediate, size: 2, cycles: 2, extra_cycles: 0 },
        0xec => OPCODE { instruction: Instruction::CPX, mode: AddressingMode::Absolute, size: 3, cycles: 4, extra_cycles: 0 },
        0xed => OPCODE { instruction: Instruction::SBC, mode: AddressingMode::Absolute, size: 3, cycles: 4, extra_cycles: 0 },
        0xee => OPCODE { instruction: Instruction::INC, mode: AddressingMode::Absolute, size: 3, cycles: 6, extra_cycles: 0 },
        0xef => OPCODE { instruction: Instruction::ISB, mode: AddressingMode::Absolute, size: 3, cycles: 6, extra_cycles: 0 },
        0xf0 => OPCODE { instruction: Instruction::BEQ, mode: AddressingMode::Relative, size: 2, cycles: 2, extra_cycles: 1 },
        0xf1 => OPCODE { instruction: Instruction::SBC, mode: AddressingMode::IndirectY, size: 2, cycles: 5, extra_cycles: 1 },
        0xf2 => OPCODE { instruction: Instruction::JAM, mode: AddressingMode::Implied, size: 1, cycles: 2, extra_cycles: 0 },
        0xf3 => OPCODE { instruction: Instruction::ISB, mode: AddressingMode::IndirectY, size: 2, cycles: 8, extra_cycles: 0 },
        0xf4 => OPCODE { instruction: Instruction::NOP, mode: AddressingMode::ZeroPageX, size: 2, cycles: 4, extra_cycles: 0 },
        0xf5 => OPCODE { instruction: Instruction::SBC, mode: AddressingMode::ZeroPageX, size: 2, cycles: 4, extra_cycles: 0 },
        0xf6 => OPCODE { instruction: Instruction::INC, mode: AddressingMode::ZeroPageX, size: 2, cycles: 6, extra_cycles: 0 },
        0xf7 => OPCODE { instruction: Instruction::ISB, mode: AddressingMode::ZeroPageX, size: 2, cycles: 6, extra_cycles: 0 },
        0xf8 => OPCODE { instruction: Instruction::SED, mode: AddressingMode::Implied, size: 1, cycles: 2, extra_cycles: 0 },
        0xf9 => OPCODE { instruction: Instruction::SBC, mode: AddressingMode::AbsoluteY, size: 3, cycles: 4, extra_cycles: 1 },
        0xfa => OPCODE { instruction: Instruction::NOP, mode: AddressingMode::Implied, size: 1, cycles: 2, extra_cycles: 0 },
        0xfb => OPCODE { instruction: Instruction::ISB, mode: AddressingMode::AbsoluteY, size: 3, cycles: 7, extra_cycles: 0 },
        0xfc => OPCODE { instruction: Instruction::NOP, mode: AddressingMode::AbsoluteX, size: 3, cycles: 4, extra_cycles: 1 },
        0xfd => OPCODE { instruction: Instruction::SBC, mode: AddressingMode::AbsoluteX, size: 3, cycles: 4, extra_cycles: 1 },
        0xfe => OPCODE { instruction: Instruction::INC, mode: AddressingMode::AbsoluteX, size: 3, cycles: 7, extra_cycles: 0 },
        _ => OPCODE { instruction: Instruction::ISB, mode: AddressingMode::AbsoluteX, size: 3, cycles: 7, extra_cycles: 0 },
    }
}

/// The instructions that only read their operand.
pub open spec fn reads_operand(i: Instruction) -> bool {
    i == Instruction::ORA || i == Instruction::AND || i == Instruction::EOR || i
        == Instruction::ADC || i == Instruction::LDA || i == Instruction::CMP || i
        == Instruction::SBC || i == Instruction::LAX
}

/// (Indirect),Y timing: reads cost 5 cycles plus one on a page crossing,
/// the store always costs 6.
pub proof fn lemma_indirect_y_timing(op: u8)
    requires
        opcode_spec(op).mode == AddressingMode::IndirectY,
    ensures
        reads_operand(opcode_spec(op).instruction) ==> opcode_spec(op).cycles == 5
            && opcode_spec(op).extra_cycles == 1,
        opcode_spec(op).instruction == Instruction::STA ==> opcode_spec(op).cycles == 6
            && opcode_spec(op).extra_cycles == 0,
{
}

} // verus!
