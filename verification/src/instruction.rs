//! The instruction set: the mnemonics, the addressing modes, and the
//! table that says what each opcode byte means.

use vstd::prelude::*;

verus! {

/// How an instruction finds its operand.
#[derive(Clone, Copy, Debug, PartialEq, Eq, Structural)]
pub enum AddressMode {
    IMPLIED,
    IMMEDIATE,
    /// An address in the instruction; the flag says whether the
    /// instruction reads or writes the byte there, or only jumps to it.
    ABSOLUTE(bool),
    RELATIVE,
    ZEROPAGE,
    ZEROPAGEX,
    ZEROPAGEY,
    ACCUMULATOR,
    INDIRECTX,
    INDIRECTY,
    ABSOLUTEX,
    ABSOLUTEY,
    INDIRECT,
}

/// The official instructions.
#[derive(Clone, Copy, Debug, PartialEq, Eq, Structural)]
pub enum Mnemonic {
    ADC,
    AND,
    ASL,
    BCC,
    BCS,
    BEQ,
    BIT,
    BMI,
    BNE,
    BPL,
    BRK,
    BVC,
    BVS,
    CLC,
    CLD,
    CLI,
    CLV,
    CPA,
    CPX,
    CPY,
    DEC,
    DEX,
    DEY,
    EOR,
    INC,
    INX,
    INY,
    JMP,
    JSR,
    LDA,
    LDX,
    LDY,
    LSR,
    NOP,
    ORA,
    PHA,
    PHP,
    PLA,
    PLP,
    ROL,
    ROR,
    RTI,
    RTS,
    SBC,
    SEC,
    SED,
    SEI,
    STA,
    STX,
    STY,
    TAX,
    TAY,
    TSX,
    TXA,
    TXS,
    TYA,
}

/// A decoded instruction: what the opcode byte means, and the bytes of the
/// instruction as fetched.
#[derive(Clone, Copy, Debug, PartialEq, Eq, Structural)]
pub struct Opcode {
    pub mnemonic: Mnemonic,
    pub mode: AddressMode,
    /// The opcode byte.
    pub code: u8,
    /// The first operand byte; 0 where the instruction has none.
    pub operand_lo: u8,
    /// The second operand byte; 0 where the instruction has none.
    pub operand_hi: u8,
    pub num_bytes: u8,
    /// The cycles that the instruction takes at least.
    pub cycles: u8,
}

/// The length in bytes of an instruction with the addressing mode `mode`.
pub open spec fn mode_len(mode: AddressMode) -> u8 {
    match mode {
        AddressMode::IMPLIED | AddressMode::ACCUMULATOR => 1,
        AddressMode::ABSOLUTE(_)
        | AddressMode::ABSOLUTEX
        | AddressMode::ABSOLUTEY
        | AddressMode::INDIRECT => 3,
        _ => 2,
    }
}

/// The table of the 151 official opcodes: for each its mnemonic, its
/// addressing mode and its base cycle count. Every other byte is no
/// instruction.
pub open spec fn opcode_entry(code: u8) -> Option<(Mnemonic, AddressMode, u8)> {
    match code {
        0x00 => Some((Mnemonic::BRK, AddressMode::IMPLIED, 7)),
        0x01 => Some((Mnemonic::ORA, AddressMode::INDIRECTX, 6)),
        0x05 => Some((Mnemonic::ORA, AddressMode::ZEROPAGE, 3)),
        0x06 => Some((Mnemonic::ASL, AddressMode::ZEROPAGE, 5)),
        0x08 => Some((Mnemonic::PHP, AddressMode::IMPLIED, 3)),
        0x09 => Some((Mnemonic::ORA, AddressMode::IMMEDIATE, 2)),
        0x0A => Some((Mnemonic::ASL, AddressMode::ACCUMULATOR, 2)),
        0x0D => Some((Mnemonic::ORA, AddressMode::ABSOLUTE(true), 4)),
        0x0E => Some((Mnemonic::ASL, AddressMode::ABSOLUTE(true), 6)),
        0x10 => Some((Mnemonic::BPL, AddressMode::RELATIVE, 2)),
        0x11 => Some((Mnemonic::ORA, AddressMode::INDIRECTY, 5)),
        0x15 => Some((Mnemonic::ORA, AddressMode::ZEROPAGEX, 4)),
        0x16 => Some((Mnemonic::ASL, AddressMode::ZEROPAGEX, 6)),
        0x18 => Some((Mnemonic::CLC, AddressMode::IMPLIED, 2)),
        0x19 => Some((Mnemonic::ORA, AddressMode::ABSOLUTEY, 4)),
        0x1D => Some((Mnemonic::ORA, AddressMode::ABSOLUTEX, 4)),
        0x1E => Some((Mnemonic::ASL, AddressMode::ABSOLUTEX, 7)),
        0x20 => Some((Mnemonic::JSR, AddressMode::ABSOLUTE(false), 6)),
        0x21 => Some((Mnemonic::AND, AddressMode::INDIRECTX, 6)),
        0x24 => Some((Mnemonic::BIT, AddressMode::ZEROPAGE, 3)),
        0x25 => Some((Mnemonic::AND, AddressMode::ZEROPAGE, 3)),
        0x26 => Some((Mnemonic::ROL, AddressMode::ZEROPAGE, 5)),
        0x28 => Some((Mnemonic::PLP, AddressMode::IMPLIED, 4)),
        0x29 => Some((Mnemonic::AND, AddressMode::IMMEDIATE, 2)),
        0x2A => Some((Mnemonic::ROL, AddressMode::ACCUMULATOR, 2)),
        0x2C => Some((Mnemonic::BIT, AddressMode::ABSOLUTE(true), 4)),
        0x2D => Some((Mnemonic::AND, AddressMode::ABSOLUTE(true), 4)),
        0x2E => Some((Mnemonic::ROL, AddressMode::ABSOLUTE(true), 6)),
        0x30 => Some((Mnemonic::BMI, AddressMode::RELATIVE, 2)),
        0x31 => Some((Mnemonic::AND, AddressMode::INDIRECTY, 5)),
        0x35 => Some((Mnemonic::AND, AddressMode::ZEROPAGEX, 4)),
        0x36 => Some((Mnemonic::ROL, AddressMode::ZEROPAGEX, 6)),
        0x38 => Some((Mnemonic::SEC, AddressMode::IMPLIED, 2)),
        0x39 => Some((Mnemonic::AND, AddressMode::ABSOLUTEY, 4)),
        0x3D => Some((Mnemonic::AND, AddressMode::ABSOLUTEX, 4)),
        0x3E => Some((Mnemonic::ROL, AddressMode::ABSOLUTEX, 7)),
        0x40 => Some((Mnemonic::RTI, AddressMode::IMPLIED, 6)),
        0x41 => Some((Mnemonic::EOR, AddressMode::INDIRECTX, 6)),
        0x45 => Some((Mnemonic::EOR, AddressMode::ZEROPAGE, 3)),
        0x46 => Some((Mnemonic::LSR, AddressMode::ZEROPAGE, 5)),
        0x48 => Some((Mnemonic::PHA, AddressMode::IMPLIED, 3)),
        0x49 => Some((Mnemonic::EOR, AddressMode::IMMEDIATE, 2)),
        0x4A => Some((Mnemonic::LSR, AddressMode::ACCUMULATOR, 2)),
        0x4C => Some((Mnemonic::JMP, AddressMode::ABSOLUTE(false), 3)),
        0x4D => Some((Mnemonic::EOR, AddressMode::ABSOLUTE(true), 4)),
        0x4E => Some((Mnemonic::LSR, AddressMode::ABSOLUTE(true), 6)),
        0x50 => Some((Mnemonic::BVC, AddressMode::RELATIVE, 2)),
        0x51 => Some((Mnemonic::EOR, AddressMode::INDIRECTY, 5)),
        0x55 => Some((Mnemonic::EOR, AddressMode::ZEROPAGEX, 4)),
        0x56 => Some((Mnemonic::LSR, AddressMode::ZEROPAGEX, 6)),
        0x58 => Some((Mnemonic::CLI, AddressMode::IMPLIED, 2)),
        0x59 => Some((Mnemonic::EOR, AddressMode::ABSOLUTEY, 4)),
        0x5D => Some((Mnemonic::EOR, AddressMode::ABSOLUTEX, 4)),
        0x5E => Some((Mnemonic::LSR, AddressMode::ABSOLUTEX, 7)),
        0x60 => Some((Mnemonic::RTS, AddressMode::IMPLIED, 6)),
        0x61 => Some((Mnemonic::ADC, AddressMode::INDIRECTX, 6)),
        0x65 => Some((Mnemonic::ADC, AddressMode::ZEROPAGE, 3)),
        0x66 => Some((Mnemonic::ROR, AddressMode::ZEROPAGE, 5)),
        0x68 => Some((Mnemonic::PLA, AddressMode::IMPLIED, 4)),
        0x69 => Some((Mnemonic::ADC, AddressMode::IMMEDIATE, 2)),
        0x6A => Some((Mnemonic::ROR, AddressMode::ACCUMULATOR, 2)),
        0x6C => Some((Mnemonic::JMP, AddressMode::INDIRECT, 5)),
        0x6D => Some((Mnemonic::ADC, AddressMode::ABSOLUTE(true), 4)),
        0x6E => Some((Mnemonic::ROR, AddressMode::ABSOLUTE(true), 6)),
        0x70 => Some((Mnemonic::BVS, AddressMode::RELATIVE, 2)),
        0x71 => Some((Mnemonic::ADC, AddressMode::INDIRECTY, 5)),
        0x75 => Some((Mnemonic::ADC, AddressMode::ZEROPAGEX, 4)),
        0x76 => Some((Mnemonic::ROR, AddressMode::ZEROPAGEX, 6)),
        0x78 => Some((Mnemonic::SEI, AddressMode::IMPLIED, 2)),
        0x79 => Some((Mnemonic::ADC, AddressMode::ABSOLUTEY, 4)),
        0x7D => Some((Mnemonic::ADC, AddressMode::ABSOLUTEX, 4)),
        0x7E => Some((Mnemonic::ROR, AddressMode::ABSOLUTEX, 7)),
        0x81 => Some((Mnemonic::STA, AddressMode::INDIRECTX, 6)),
        0x84 => Some((Mnemonic::STY, AddressMode::ZEROPAGE, 3)),
        0x85 => Some((Mnemonic::STA, AddressMode::ZEROPAGE, 3)),
        0x86 => Some((Mnemonic::STX, AddressMode::ZEROPAGE, 3)),
        0x88 => Some((Mnemonic::DEY, AddressMode::IMPLIED, 2)),
        0x8A => Some((Mnemonic::TXA, AddressMode::IMPLIED, 2)),
        0x8C => Some((Mnemonic::STY, AddressMode::ABSOLUTE(true), 4)),
        0x8D => Some((Mnemonic::STA, AddressMode::ABSOLUTE(true), 4)),
        0x8E => Some((Mnemonic::STX, AddressMode::ABSOLUTE(true), 4)),
        0x90 => Some((Mnemonic::BCC, AddressMode::RELATIVE, 2)),
        0x91 => Some((Mnemonic::STA, AddressMode::INDIRECTY, 6)),
        0x94 => Some((Mnemonic::STY, AddressMode::ZEROPAGEX, 4)),
        0x95 => Some((Mnemonic::STA, AddressMode::ZEROPAGEX, 4)),
        0x96 => Some((Mnemonic::STX, AddressMode::ZEROPAGEY, 4)),
        0x98 => Some((Mnemonic::TYA, AddressMode::IMPLIED, 2)),
        0x99 => Some((Mnemonic::STA, AddressMode::ABSOLUTEY, 5)),
        0x9A => Some((Mnemonic::TXS, AddressMode::IMPLIED, 2)),
        0x9D => Some((Mnemonic::STA, AddressMode::ABSOLUTEX, 5)),
        0xA0 => Some((Mnemonic::LDY, AddressMode::IMMEDIATE, 2)),
        0xA1 => Some((Mnemonic::LDA, AddressMode::INDIRECTX, 6)),
        0xA2 => Some((Mnemonic::LDX, AddressMode::IMMEDIATE, 2)),
        0xA4 => Some((Mnemonic::LDY, AddressMode::ZEROPAGE, 3)),
        0xA5 => Some((Mnemonic::LDA, AddressMode::ZEROPAGE, 3)),
        0xA6 => Some((Mnemonic::LDX, AddressMode::ZEROPAGE, 3)),
        0xA8 => Some((Mnemonic::TAY, AddressMode::IMPLIED, 2)),
        0xA9 => Some((Mnemonic::LDA, AddressMode::IMMEDIATE, 2)),
        0xAA => Some((Mnemonic::TAX, AddressMode::IMPLIED, 2)),
        0xAC => Some((Mnemonic::LDY, AddressMode::ABSOLUTE(true), 4)),
        0xAD => Some((Mnemonic::LDA, AddressMode::ABSOLUTE(true), 4)),
        0xAE => Some((Mnemonic::LDX, AddressMode::ABSOLUTE(true), 4)),
        0xB0 => Some((Mnemonic::BCS, AddressMode::RELATIVE, 2)),
        0xB1 => Some((Mnemonic::LDA, AddressMode::INDIRECTY, 5)),
        0xB4 => Some((Mnemonic::LDY, AddressMode::ZEROPAGEX, 4)),
        0xB5 => Some((Mnemonic::LDA, AddressMode::ZEROPAGEX, 4)),
        0xB6 => Some((Mnemonic::LDX, AddressMode::ZEROPAGEY, 4)),
        0xB8 => Some((Mnemonic::CLV, AddressMode::IMPLIED, 2)),
        0xB9 => Some((Mnemonic::LDA, AddressMode::ABSOLUTEY, 4)),
        0xBA => Some((Mnemonic::TSX, AddressMode::IMPLIED, 2)),
        0xBC => Some((Mnemonic::LDY, AddressMode::ABSOLUTEX, 4)),
        0xBD => Some((Mnemonic::LDA, AddressMode::ABSOLUTEX, 4)),
        0xBE => Some((Mnemonic::LDX, AddressMode::ABSOLUTEY, 4)),
        0xC0 => Some((Mnemonic::CPY, AddressMode::IMMEDIATE, 2)),
        0xC1 => Some((Mnemonic::CPA, AddressMode::INDIRECTX, 6)),
        0xC4 => Some((Mnemonic::CPY, AddressMode::ZEROPAGE, 3)),
        0xC5 => Some((Mnemonic::CPA, AddressMode::ZEROPAGE, 3)),
        0xC6 => Some((Mnemonic::DEC, AddressMode::ZEROPAGE, 5)),
        0xC8 => Some((Mnemonic::INY, AddressMode::IMPLIED, 2)),
        0xC9 => Some((Mnemonic::CPA, AddressMode::IMMEDIATE, 2)),
        0xCA => Some((Mnemonic::DEX, AddressMode::IMPLIED, 2)),
        0xCC => Some((Mnemonic::CPY, AddressMode::ABSOLUTE(true), 4)),
        0xCD => Some((Mnemonic::CPA, AddressMode::ABSOLUTE(true), 4)),
        0xCE => Some((Mnemonic::DEC, AddressMode::ABSOLUTE(true), 6)),
        0xD0 => Some((Mnemonic::BNE, AddressMode::RELATIVE, 2)),
        0xD1 => Some((Mnemonic::CPA, AddressMode::INDIRECTY, 5)),
        0xD5 => Some((Mnemonic::CPA, AddressMode::ZEROPAGEX, 4)),
        0xD6 => Some((Mnemonic::DEC, AddressMode::ZEROPAGEX, 6)),
        0xD8 => Some((Mnemonic::CLD, AddressMode::IMPLIED, 2)),
        0xD9 => Some((Mnemonic::CPA, AddressMode::ABSOLUTEY, 4)),
        0xDD => Some((Mnemonic::CPA, AddressMode::ABSOLUTEX, 4)),
        0xDE => Some((Mnemonic::DEC, AddressMode::ABSOLUTEX, 7)),
        0xE0 => Some((Mnemonic::CPX, AddressMode::IMMEDIATE, 2)),
        0xE1 => Some((Mnemonic::SBC, AddressMode::INDIRECTX, 6)),
        0xE4 => Some((Mnemonic::CPX, AddressMode::ZEROPAGE, 3)),
        0xE5 => Some((Mnemonic::SBC, AddressMode::ZEROPAGE, 3)),
        0xE6 => Some((Mnemonic::INC, AddressMode::ZEROPAGE, 5)),
        0xE8 => Some((Mnemonic::INX, AddressMode::IMPLIED, 2)),
        0xE9 => Some((Mnemonic::SBC, AddressMode::IMMEDIATE, 2)),
        0xEA => Some((Mnemonic::NOP, AddressMode::IMPLIED, 2)),
        0xEC => Some((Mnemonic::CPX, AddressMode::ABSOLUTE(true), 4)),
        0xED => Some((Mnemonic::SBC, AddressMode::ABSOLUTE(true), 4)),
        0xEE => Some((Mnemonic::INC, AddressMode::ABSOLUTE(true), 6)),
        0xF0 => Some((Mnemonic::BEQ, AddressMode::RELATIVE, 2)),
        0xF1 => Some((Mnemonic::SBC, AddressMode::INDIRECTY, 5)),
        0xF5 => Some((Mnemonic::SBC, AddressMode::ZEROPAGEX, 4)),
        0xF6 => Some((Mnemonic::INC, AddressMode::ZEROPAGEX, 6)),
        0xF8 => Some((Mnemonic::SED, AddressMode::IMPLIED, 2)),
        0xF9 => Some((Mnemonic::SBC, AddressMode::ABSOLUTEY, 4)),
        0xFD => Some((Mnemonic::SBC, AddressMode::ABSOLUTEX, 4)),
        0xFE => Some((Mnemonic::INC, AddressMode::ABSOLUTEX, 7)),
        _ => None,
    }
}

/// Looks an opcode byte up in the table.
pub fn decode(code: u8) -> (r: Option<(Mnemonic, AddressMode, u8)>)
    ensures
        r == opcode_entry(code),
{
    match code {
        0x00 => Some((Mnemonic::BRK, AddressMode::IMPLIED, 7)),
        0x01 => Some((Mnemonic::ORA, AddressMode::INDIRECTX, 6)),
        0x05 => Some((Mnemonic::ORA, AddressMode::ZEROPAGE, 3)),
        0x06 => Some((Mnemonic::ASL, AddressMode::ZEROPAGE, 5)),
        0x08 => Some((Mnemonic::PHP, AddressMode::IMPLIED, 3)),
        0x09 => Some((Mnemonic::ORA, AddressMode::IMMEDIATE, 2)),
        0x0A => Some((Mnemonic::ASL, AddressMode::ACCUMULATOR, 2)),
        0x0D => Some((Mnemonic::ORA, AddressMode::ABSOLUTE(true), 4)),
        0x0E => Some((Mnemonic::ASL, AddressMode::ABSOLUTE(true), 6)),
        0x10 => Some((Mnemonic::BPL, AddressMode::RELATIVE, 2)),
        0x11 => Some((Mnemonic::ORA, AddressMode::INDIRECTY, 5)),
        0x15 => Some((Mnemonic::ORA, AddressMode::ZEROPAGEX, 4)),
        0x16 => Some((Mnemonic::ASL, AddressMode::ZEROPAGEX, 6)),
        0x18 => Some((Mnemonic::CLC, AddressMode::IMPLIED, 2)),
        0x19 => Some((Mnemonic::ORA, AddressMode::ABSOLUTEY, 4)),
        0x1D => Some((Mnemonic::ORA, AddressMode::ABSOLUTEX, 4)),
        0x1E => Some((Mnemonic::ASL, AddressMode::ABSOLUTEX, 7)),
        0x20 => Some((Mnemonic::JSR, AddressMode::ABSOLUTE(false), 6)),
        0x21 => Some((Mnemonic::AND, AddressMode::INDIRECTX, 6)),
        0x24 => Some((Mnemonic::BIT, AddressMode::ZEROPAGE, 3)),
        0x25 => Some((Mnemonic::AND, AddressMode::ZEROPAGE, 3)),
        0x26 => Some((Mnemonic::ROL, AddressMode::ZEROPAGE, 5)),
        0x28 => Some((Mnemonic::PLP, AddressMode::IMPLIED, 4)),
        0x29 => Some((Mnemonic::AND, AddressMode::IMMEDIATE, 2)),
        0x2A => Some((Mnemonic::ROL, AddressMode::ACCUMULATOR, 2)),
        0x2C => Some((Mnemonic::BIT, AddressMode::ABSOLUTE(true), 4)),
        0x2D => Some((Mnemonic::AND, AddressMode::ABSOLUTE(true), 4)),
        0x2E => Some((Mnemonic::ROL, AddressMode::ABSOLUTE(true), 6)),
        0x30 => Some((Mnemonic::BMI, AddressMode::RELATIVE, 2)),
        0x31 => Some((Mnemonic::AND, AddressMode::INDIRECTY, 5)),
        0x35 => Some((Mnemonic::AND, AddressMode::ZEROPAGEX, 4)),
        0x36 => Some((Mnemonic::ROL, AddressMode::ZEROPAGEX, 6)),
        0x38 => Some((Mnemonic::SEC, AddressMode::IMPLIED, 2)),
        0x39 => Some((Mnemonic::AND, AddressMode::ABSOLUTEY, 4)),
        0x3D => Some((Mnemonic::AND, AddressMode::ABSOLUTEX, 4)),
        0x3E => Some((Mnemonic::ROL, AddressMode::ABSOLUTEX, 7)),
        0x40 => Some((Mnemonic::RTI, AddressMode::IMPLIED, 6)),
        0x41 => Some((Mnemonic::EOR, AddressMode::INDIRECTX, 6)),
        0x45 => Some((Mnemonic::EOR, AddressMode::ZEROPAGE, 3)),
        0x46 => Some((Mnemonic::LSR, AddressMode::ZEROPAGE, 5)),
        0x48 => Some((Mnemonic::PHA, AddressMode::IMPLIED, 3)),
        0x49 => Some((Mnemonic::EOR, AddressMode::IMMEDIATE, 2)),
        0x4A => Some((Mnemonic::LSR, AddressMode::ACCUMULATOR, 2)),
        0x4C => Some((Mnemonic::JMP, AddressMode::ABSOLUTE(false), 3)),
        0x4D => Some((Mnemonic::EOR, AddressMode::ABSOLUTE(true), 4)),
        0x4E => Some((Mnemonic::LSR, AddressMode::ABSOLUTE(true), 6)),
        0x50 => Some((Mnemonic::BVC, AddressMode::RELATIVE, 2)),
        0x51 => Some((Mnemonic::EOR, AddressMode::INDIRECTY, 5)),
        0x55 => Some((Mnemonic::EOR, AddressMode::ZEROPAGEX, 4)),
        0x56 => Some((Mnemonic::LSR, AddressMode::ZEROPAGEX, 6)),
        0x58 => Some((Mnemonic::CLI, AddressMode::IMPLIED, 2)),
        0x59 => Some((Mnemonic::EOR, AddressMode::ABSOLUTEY, 4)),
        0x5D => Some((Mnemonic::EOR, AddressMode::ABSOLUTEX, 4)),
        0x5E => Some((Mnemonic::LSR, AddressMode::ABSOLUTEX, 7)),
        0x60 => Some((Mnemonic::RTS, AddressMode::IMPLIED, 6)),
        0x61 => Some((Mnemonic::ADC, AddressMode::INDIRECTX, 6)),
        0x65 => Some((Mnemonic::ADC, AddressMode::ZEROPAGE, 3)),
        0x66 => Some((Mnemonic::ROR, AddressMode::ZEROPAGE, 5)),
        0x68 => Some((Mnemonic::PLA, AddressMode::IMPLIED, 4)),
        0x69 => Some((Mnemonic::ADC, AddressMode::IMMEDIATE, 2)),
        0x6A => Some((Mnemonic::ROR, AddressMode::ACCUMULATOR, 2)),
        0x6C => Some((Mnemonic::JMP, AddressMode::INDIRECT, 5)),
        0x6D => Some((Mnemonic::ADC, AddressMode::ABSOLUTE(true), 4)),
        0x6E => Some((Mnemonic::ROR, AddressMode::ABSOLUTE(true), 6)),
        0x70 => Some((Mnemonic::BVS, AddressMode::RELATIVE, 2)),
        0x71 => Some((Mnemonic::ADC, AddressMode::INDIRECTY, 5)),
        0x75 => Some((Mnemonic::ADC, AddressMode::ZEROPAGEX, 4)),
        0x76 => Some((Mnemonic::ROR, AddressMode::ZEROPAGEX, 6)),
        0x78 => Some((Mnemonic::SEI, AddressMode::IMPLIED, 2)),
        0x79 => Some((Mnemonic::ADC, AddressMode::ABSOLUTEY, 4)),
        0x7D => Some((Mnemonic::ADC, AddressMode::ABSOLUTEX, 4)),
        0x7E => Some((Mnemonic::ROR, AddressMode::ABSOLUTEX, 7)),
        0x81 => Some((Mnemonic::STA, AddressMode::INDIRECTX, 6)),
        0x84 => Some((Mnemonic::STY, AddressMode::ZEROPAGE, 3)),
        0x85 => Some((Mnemonic::STA, AddressMode::ZEROPAGE, 3)),
        0x86 => Some((Mnemonic::STX, AddressMode::ZEROPAGE, 3)),
        0x88 => Some((Mnemonic::DEY, AddressMode::IMPLIED, 2)),
        0x8A => Some((Mnemonic::TXA, AddressMode::IMPLIED, 2)),
        0x8C => Some((Mnemonic::STY, AddressMode::ABSOLUTE(true), 4)),
        0x8D => Some((Mnemonic::STA, AddressMode::ABSOLUTE(true), 4)),
        0x8E => Some((Mnemonic::STX, AddressMode::ABSOLUTE(true), 4)),
        0x90 => Some((Mnemonic::BCC, AddressMode::RELATIVE, 2)),
        0x91 => Some((Mnemonic::STA, AddressMode::INDIRECTY, 6)),
        0x94 => Some((Mnemonic::STY, AddressMode::ZEROPAGEX, 4)),
        0x95 => Some((Mnemonic::STA, AddressMode::ZEROPAGEX, 4)),
        0x96 => Some((Mnemonic::STX, AddressMode::ZEROPAGEY, 4)),
        0x98 => Some((Mnemonic::TYA, AddressMode::IMPLIED, 2)),
        0x99 => Some((Mnemonic::STA, AddressMode::ABSOLUTEY, 5)),
        0x9A => Some((Mnemonic::TXS, AddressMode::IMPLIED, 2)),
        0x9D => Some((Mnemonic::STA, AddressMode::ABSOLUTEX, 5)),
        0xA0 => Some((Mnemonic::LDY, AddressMode::IMMEDIATE, 2)),
        0xA1 => Some((Mnemonic::LDA, AddressMode::INDIRECTX, 6)),
        0xA2 => Some((Mnemonic::LDX, AddressMode::IMMEDIATE, 2)),
        0xA4 => Some((Mnemonic::LDY, AddressMode::ZEROPAGE, 3)),
        0xA5 => Some((Mnemonic::LDA, AddressMode::ZEROPAGE, 3)),
        0xA6 => Some((Mnemonic::LDX, AddressMode::ZEROPAGE, 3)),
        0xA8 => Some((Mnemonic::TAY, AddressMode::IMPLIED, 2)),
        0xA9 => Some((Mnemonic::LDA, AddressMode::IMMEDIATE, 2)),
        0xAA => Some((Mnemonic::TAX, AddressMode::IMPLIED, 2)),
        0xAC => Some((Mnemonic::LDY, AddressMode::ABSOLUTE(true), 4)),
        0xAD => Some((Mnemonic::LDA, AddressMode::ABSOLUTE(true), 4)),
        0xAE => Some((Mnemonic::LDX, AddressMode::ABSOLUTE(true), 4)),
        0xB0 => Some((Mnemonic::BCS, AddressMode::RELATIVE, 2)),
        0xB1 => Some((Mnemonic::LDA, AddressMode::INDIRECTY, 5)),
        0xB4 => Some((Mnemonic::LDY, AddressMode::ZEROPAGEX, 4)),
        0xB5 => Some((Mnemonic::LDA, AddressMode::ZEROPAGEX, 4)),
        0xB6 => Some((Mnemonic::LDX, AddressMode::ZEROPAGEY, 4)),
        0xB8 => Some((Mnemonic::CLV, AddressMode::IMPLIED, 2)),
        0xB9 => Some((Mnemonic::LDA, AddressMode::ABSOLUTEY, 4)),
        0xBA => Some((Mnemonic::TSX, AddressMode::IMPLIED, 2)),
        0xBC => Some((Mnemonic::LDY, AddressMode::ABSOLUTEX, 4)),
        0xBD => Some((Mnemonic::LDA, AddressMode::ABSOLUTEX, 4)),
        0xBE => Some((Mnemonic::LDX, AddressMode::ABSOLUTEY, 4)),
        0xC0 => Some((Mnemonic::CPY, AddressMode::IMMEDIATE, 2)),
        0xC1 => Some((Mnemonic::CPA, AddressMode::INDIRECTX, 6)),
        0xC4 => Some((Mnemonic::CPY, AddressMode::ZEROPAGE, 3)),
        0xC5 => Some((Mnemonic::CPA, AddressMode::ZEROPAGE, 3)),
        0xC6 => Some((Mnemonic::DEC, AddressMode::ZEROPAGE, 5)),
        0xC8 => Some((Mnemonic::INY, AddressMode::IMPLIED, 2)),
        0xC9 => Some((Mnemonic::CPA, AddressMode::IMMEDIATE, 2)),
        0xCA => Some((Mnemonic::DEX, AddressMode::IMPLIED, 2)),
        0xCC => Some((Mnemonic::CPY, AddressMode::ABSOLUTE(true), 4)),
        0xCD => Some((Mnemonic::CPA, AddressMode::ABSOLUTE(true), 4)),
        0xCE => Some((Mnemonic::DEC, AddressMode::ABSOLUTE(true), 6)),
        0xD0 => Some((Mnemonic::BNE, AddressMode::RELATIVE, 2)),
        0xD1 => Some((Mnemonic::CPA, AddressMode::INDIRECTY, 5)),
        0xD5 => Some((Mnemonic::CPA, AddressMode::ZEROPAGEX, 4)),
        0xD6 => Some((Mnemonic::DEC, AddressMode::ZEROPAGEX, 6)),
        0xD8 => Some((Mnemonic::CLD, AddressMode::IMPLIED, 2)),
        0xD9 => Some((Mnemonic::CPA, AddressMode::ABSOLUTEY, 4)),
        0xDD => Some((Mnemonic::CPA, AddressMode::ABSOLUTEX, 4)),
        0xDE => Some((Mnemonic::DEC, AddressMode::ABSOLUTEX, 7)),
        0xE0 => Some((Mnemonic::CPX, AddressMode::IMMEDIATE, 2)),
        0xE1 => Some((Mnemonic::SBC, AddressMode::INDIRECTX, 6)),
        0xE4 => Some((Mnemonic::CPX, AddressMode::ZEROPAGE, 3)),
        0xE5 => Some((Mnemonic::SBC, AddressMode::ZEROPAGE, 3)),
        0xE6 => Some((Mnemonic::INC, AddressMode::ZEROPAGE, 5)),
        0xE8 => Some((Mnemonic::INX, AddressMode::IMPLIED, 2)),
        0xE9 => Some((Mnemonic::SBC, AddressMode::IMMEDIATE, 2)),
        0xEA => Some((Mnemonic::NOP, AddressMode::IMPLIED, 2)),
        0xEC => Some((Mnemonic::CPX, AddressMode::ABSOLUTE(true), 4)),
        0xED => Some((Mnemonic::SBC, AddressMode::ABSOLUTE(true), 4)),
        0xEE => Some((Mnemonic::INC, AddressMode::ABSOLUTE(true), 6)),
        0xF0 => Some((Mnemonic::BEQ, AddressMode::RELATIVE, 2)),
        0xF1 => Some((Mnemonic::SBC, AddressMode::INDIRECTY, 5)),
        0xF5 => Some((Mnemonic::SBC, AddressMode::ZEROPAGEX, 4)),
        0xF6 => Some((Mnemonic::INC, AddressMode::ZEROPAGEX, 6)),
        0xF8 => Some((Mnemonic::SED, AddressMode::IMPLIED, 2)),
        0xF9 => Some((Mnemonic::SBC, AddressMode::ABSOLUTEY, 4)),
        0xFD => Some((Mnemonic::SBC, AddressMode::ABSOLUTEX, 4)),
        0xFE => Some((Mnemonic::INC, AddressMode::ABSOLUTEX, 7)),
        _ => None,
    }
}

/// The length in bytes of an instruction with the addressing mode `mode`.
pub fn operand_len(mode: AddressMode) -> (r: u8)
    ensures
        r == mode_len(mode),
        1 <= r <= 3,
{
    match mode {
        AddressMode::IMPLIED | AddressMode::ACCUMULATOR => 1,
        AddressMode::ABSOLUTE(_)
        | AddressMode::ABSOLUTEX
        | AddressMode::ABSOLUTEY
        | AddressMode::INDIRECT => 3,
        _ => 2,
    }
}

/// Every instruction of the table takes between two and seven cycles.
pub proof fn lemma_cycles_bounded(code: u8)
    requires
        opcode_entry(code) is Some,
    ensures
        2 <= opcode_entry(code)->Some_0.2 <= 7,
{
}

/// The three letters of a mnemonic.
pub open spec fn mnemonic_letters(mn: Mnemonic) -> (char, char, char) {
    match mn {
        Mnemonic::ADC => ('A', 'D', 'C'),
        Mnemonic::AND => ('A', 'N', 'D'),
        Mnemonic::ASL => ('A', 'S', 'L'),
        Mnemonic::BCC => ('B', 'C', 'C'),
        Mnemonic::BCS => ('B', 'C', 'S'),
        Mnemonic::BEQ => ('B', 'E', 'Q'),
        Mnemonic::BIT => ('B', 'I', 'T'),
        Mnemonic::BMI => ('B', 'M', 'I'),
        Mnemonic::BNE => ('B', 'N', 'E'),
        Mnemonic::BPL => ('B', 'P', 'L'),
        Mnemonic::BRK => ('B', 'R', 'K'),
        Mnemonic::BVC => ('B', 'V', 'C'),
        Mnemonic::BVS => ('B', 'V', 'S'),
        Mnemonic::CLC => ('C', 'L', 'C'),
        Mnemonic::CLD => ('C', 'L', 'D'),
        Mnemonic::CLI => ('C', 'L', 'I'),
        Mnemonic::CLV => ('C', 'L', 'V'),
        Mnemonic::CPA => ('C', 'M', 'P'),
        Mnemonic::CPX => ('C', 'P', 'X'),
        Mnemonic::CPY => ('C', 'P', 'Y'),
        Mnemonic::DEC => ('D', 'E', 'C'),
        Mnemonic::DEX => ('D', 'E', 'X'),
        Mnemonic::DEY => ('D', 'E', 'Y'),
        Mnemonic::EOR => ('E', 'O', 'R'),
        Mnemonic::INC => ('I', 'N', 'C'),
        Mnemonic::INX => ('I', 'N', 'X'),
        Mnemonic::INY => ('I', 'N', 'Y'),
        Mnemonic::JMP => ('J', 'M', 'P'),
        Mnemonic::JSR => ('J', 'S', 'R'),
        Mnemonic::LDA => ('L', 'D', 'A'),
        Mnemonic::LDX => ('L', 'D', 'X'),
        Mnemonic::LDY => ('L', 'D', 'Y'),
        Mnemonic::LSR => ('L', 'S', 'R'),
        Mnemonic::NOP => ('N', 'O', 'P'),
        Mnemonic::ORA => ('O', 'R', 'A'),
        Mnemonic::PHA => ('P', 'H', 'A'),
        Mnemonic::PHP => ('P', 'H', 'P'),
        Mnemonic::PLA => ('P', 'L', 'A'),
        Mnemonic::PLP => ('P', 'L', 'P'),
        Mnemonic::ROL => ('R', 'O', 'L'),
        Mnemonic::ROR => ('R', 'O', 'R'),
        Mnemonic::RTI => ('R', 'T', 'I'),
        Mnemonic::RTS => ('R', 'T', 'S'),
        Mnemonic::SBC => ('S', 'B', 'C'),
        Mnemonic::SEC => ('S', 'E', 'C'),
        Mnemonic::SED => ('S', 'E', 'D'),
        Mnemonic::SEI => ('S', 'E', 'I'),
        Mnemonic::STA => ('S', 'T', 'A'),
        Mnemonic::STX => ('S', 'T', 'X'),
        Mnemonic::STY => ('S', 'T', 'Y'),
        Mnemonic::TAX => ('T', 'A', 'X'),
        Mnemonic::TAY => ('T', 'A', 'Y'),
        Mnemonic::TSX => ('T', 'S', 'X'),
        Mnemonic::TXA => ('T', 'X', 'A'),
        Mnemonic::TXS => ('T', 'X', 'S'),
        Mnemonic::TYA => ('T', 'Y', 'A'),
    }
}

impl Mnemonic {
    /// The three letters of the mnemonic.
    pub fn letters(&self) -> (r: (char, char, char))
        ensures
            r == mnemonic_letters(*self),
    {
        match self {
            Mnemonic::ADC => ('A', 'D', 'C'),
            Mnemonic::AND => ('A', 'N', 'D'),
            Mnemonic::ASL => ('A', 'S', 'L'),
            Mnemonic::BCC => ('B', 'C', 'C'),
            Mnemonic::BCS => ('B', 'C', 'S'),
            Mnemonic::BEQ => ('B', 'E', 'Q'),
            Mnemonic::BIT => ('B', 'I', 'T'),
            Mnemonic::BMI => ('B', 'M', 'I'),
            Mnemonic::BNE => ('B', 'N', 'E'),
            Mnemonic::BPL => ('B', 'P', 'L'),
            Mnemonic::BRK => ('B', 'R', 'K'),
            Mnemonic::BVC => ('B', 'V', 'C'),
            Mnemonic::BVS => ('B', 'V', 'S'),
            Mnemonic::CLC => ('C', 'L', 'C'),
            Mnemonic::CLD => ('C', 'L', 'D'),
            Mnemonic::CLI => ('C', 'L', 'I'),
            Mnemonic::CLV => ('C', 'L', 'V'),
            Mnemonic::CPA => ('C', 'M', 'P'),
            Mnemonic::CPX => ('C', 'P', 'X'),
            Mnemonic::CPY => ('C', 'P', 'Y'),
            Mnemonic::DEC => ('D', 'E', 'C'),
            Mnemonic::DEX => ('D', 'E', 'X'),
            Mnemonic::DEY => ('D', 'E', 'Y'),
            Mnemonic::EOR => ('E', 'O', 'R'),
            Mnemonic::INC => ('I', 'N', 'C'),
            Mnemonic::INX => ('I', 'N', 'X'),
            Mnemonic::INY => ('I', 'N', 'Y'),
            Mnemonic::JMP => ('J', 'M', 'P'),
            Mnemonic::JSR => ('J', 'S', 'R'),
            Mnemonic::LDA => ('L', 'D', 'A'),
            Mnemonic::LDX => ('L', 'D', 'X'),
            Mnemonic::LDY => ('L', 'D', 'Y'),
            Mnemonic::LSR => ('L', 'S', 'R'),
            Mnemonic::NOP => ('N', 'O', 'P'),
            Mnemonic::ORA => ('O', 'R', 'A'),
            Mnemonic::PHA => ('P', 'H', 'A'),
            Mnemonic::PHP => ('P', 'H', 'P'),
            Mnemonic::PLA => ('P', 'L', 'A'),
            Mnemonic::PLP => ('P', 'L', 'P'),
            Mnemonic::ROL => ('R', 'O', 'L'),
            Mnemonic::ROR => ('R', 'O', 'R'),
            Mnemonic::RTI => ('R', 'T', 'I'),
            Mnemonic::RTS => ('R', 'T', 'S'),
            Mnemonic::SBC => ('S', 'B', 'C'),
            Mnemonic::SEC => ('S', 'E', 'C'),
            Mnemonic::SED => ('S', 'E', 'D'),
            Mnemonic::SEI => ('S', 'E', 'I'),
            Mnemonic::STA => ('S', 'T', 'A'),
            Mnemonic::STX => ('S', 'T', 'X'),
            Mnemonic::STY => ('S', 'T', 'Y'),
            Mnemonic::TAX => ('T', 'A', 'X'),
            Mnemonic::TAY => ('T', 'A', 'Y'),
            Mnemonic::TSX => ('T', 'S', 'X'),
            Mnemonic::TXA => ('T', 'X', 'A'),
            Mnemonic::TXS => ('T', 'X', 'S'),
            Mnemonic::TYA => ('T', 'Y', 'A'),
        }
    }
}

} // verus!
