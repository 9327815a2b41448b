//! The descriptor table for the 151 official 6502 opcodes.
//!
//! Each opcode byte maps to a descriptor carrying its mnemonic, its total
//! length in bytes, its base cycle count and its addressing mode.  The
//! specification functions [`opcode_len`] and [`opcode_mode`] are the ground
//! truth the executor's semantics is stated over; [`opcode_lookup`] is the
//! executable table, proved to agree with them.

use vstd::prelude::*;

use crate::cpu::AddressingMode;

verus! {

/// A descriptor for one opcode encoding.
pub struct OpCode {
    /// The opcode byte itself.
    pub code: u8,
    /// The instruction mnemonic.
    pub mnemonic: &'static str,
    /// Total instruction length in bytes (1, 2 or 3).
    pub len: u8,
    /// Base cycle count, without page-crossing or branch penalties.
    pub cycles: u8,
    /// How the operand address is derived.
    pub mode: AddressingMode,
}

impl OpCode {
    /// Build one table entry.
    fn new(code: u8, mnemonic: &'static str, len: u8, cycles: u8, mode: AddressingMode) -> (r:
        OpCode)
        ensures
            r.code == code,
            r.len == len,
            r.cycles == cycles,
            r.mode == mode,
    {
        OpCode { code, mnemonic, len, cycles, mode }
    }
}

/// The total length in bytes of the instruction with the given opcode, or 0
/// for a byte that is not an official opcode.
pub open spec fn opcode_len(code: u8) -> u16 {
    match code {
        // Implied and accumulator forms.
        0x00 | 0x0A | 0x18 | 0x38 | 0x58 | 0x78 | 0xB8 | 0xD8 | 0xF8 | 0x4A | 0xEA | 0xAA | 0x8A
            | 0xCA | 0xE8 | 0xA8 | 0x98 | 0x88 | 0xC8 | 0x2A | 0x6A | 0x40 | 0x60 | 0x9A | 0xBA
            | 0x48 | 0x68 | 0x08 | 0x28 => 1,
        // One operand byte: immediate, zero-page and indirect forms, branches.
        0x69 | 0x65 | 0x75 | 0x61 | 0x71 | 0x29 | 0x25 | 0x35 | 0x21 | 0x31 | 0x06 | 0x16 | 0x24
            | 0x10 | 0x30 | 0x50 | 0x70 | 0x90 | 0xB0 | 0xD0 | 0xF0 | 0xC9 | 0xC5 | 0xD5 | 0xC1
            | 0xD1 | 0xE0 | 0xE4 | 0xC0 | 0xC4 | 0xC6 | 0xD6 | 0x49 | 0x45 | 0x55 | 0x41 | 0x51
            | 0xE6 | 0xF6 | 0xA9 | 0xA5 | 0xB5 | 0xA1 | 0xB1 | 0xA2 | 0xA6 | 0xB6 | 0xA0 | 0xA4
            | 0xB4 | 0x46 | 0x56 | 0x09 | 0x05 | 0x15 | 0x01 | 0x11 | 0x26 | 0x36 | 0x66 | 0x76
            | 0xE9 | 0xE5 | 0xF5 | 0xE1 | 0xF1 | 0x85 | 0x95 | 0x81 | 0x91 | 0x86 | 0x96 | 0x84
            | 0x94 => 2,
        // Two operand bytes: absolute forms, jumps.
        0x6D | 0x7D | 0x79 | 0x2D | 0x3D | 0x39 | 0x0E | 0x1E | 0x2C | 0xCD | 0xDD | 0xD9 | 0xEC
            | 0xCC | 0xCE | 0xDE | 0x4D | 0x5D | 0x59 | 0xEE | 0xFE | 0x4C | 0x6C | 0x20 | 0xAD
            | 0xBD | 0xB9 | 0xAE | 0xBE | 0xAC | 0xBC | 0x4E | 0x5E | 0x0D | 0x1D | 0x19 | 0x2E
            | 0x3E | 0x6E | 0x7E | 0xED | 0xFD | 0xF9 | 0x8D | 0x9D | 0x99 | 0x8E | 0x8C => 3,
        _ => 0,
    }
}

/// A byte is an official opcode exactly when the table knows its length.
pub open spec fn recognized(code: u8) -> bool {
    opcode_len(code) != 0
}

/// The base cycle count of the instruction with the given opcode, without
/// page-crossing or branch penalties, or 0 for a byte outside the official
/// set.
pub open spec fn opcode_cycles(code: u8) -> u8 {
    match code {
        // Immediate operands, register and flag operations, branches.
        0x69 | 0x29 | 0xC9 | 0xE0 | 0xC0 | 0x49 | 0xA9 | 0xA2 | 0xA0 | 0x09 | 0xE9 | 0x0A | 0x18
            | 0x38 | 0x58 | 0x78 | 0xB8 | 0xD8 | 0xF8 | 0x4A | 0xEA | 0xAA | 0x8A | 0xCA | 0xE8
            | 0xA8 | 0x98 | 0x88 | 0xC8 | 0x2A | 0x6A | 0x9A | 0xBA | 0x10 | 0x30 | 0x50 | 0x70
            | 0x90 | 0xB0 | 0xD0 | 0xF0 => 2,
        // Zero-page reads, JMP absolute, the pushes.
        0x65 | 0x25 | 0xC5 | 0xE4 | 0xC4 | 0x45 | 0xA5 | 0xA6 | 0xA4 | 0x05 | 0xE5 | 0x85 | 0x86
            | 0x84 | 0x24 | 0x4C | 0x48 | 0x08 => 3,
        // Indexed zero-page and absolute reads and stores, the pulls.
        0x75 | 0x35 | 0xD5 | 0x55 | 0xB5 | 0xB4 | 0x15 | 0xF5 | 0x95 | 0x94 | 0xB6 | 0x96 | 0x6D
            | 0x2D | 0x2C | 0xCD | 0xEC | 0xCC | 0x4D | 0xAD | 0xAE | 0xAC | 0x0D | 0xED | 0x8D
            | 0x8E | 0x8C | 0x7D | 0x79 | 0x3D | 0x39 | 0xDD | 0xD9 | 0x5D | 0x59 | 0xBD | 0xB9
            | 0xBE | 0xBC | 0x1D | 0x19 | 0xFD | 0xF9 | 0x68 | 0x28 => 4,
        // Zero-page read-modify-writes, post-indexed reads, JMP indirect,
        // indexed absolute stores.
        0x06 | 0xC6 | 0xE6 | 0x46 | 0x26 | 0x66 | 0x71 | 0x31 | 0xD1 | 0x51 | 0xB1 | 0x11 | 0xF1
            | 0x6C | 0x9D | 0x99 => 5,
        // Indexed read-modify-writes, pre-indexed operands, subroutine and
        // interrupt returns.
        0x16 | 0xD6 | 0xF6 | 0x56 | 0x36 | 0x76 | 0x0E | 0xCE | 0xEE | 0x4E | 0x2E | 0x6E | 0x61
            | 0x21 | 0xC1 | 0x41 | 0xA1 | 0x01 | 0xE1 | 0x81 | 0x91 | 0x20 | 0x40 | 0x60 => 6,
        // Absolute,X read-modify-writes and BRK.
        0x1E | 0xDE | 0xFE | 0x5E | 0x3E | 0x7E | 0x00 => 7,
        _ => 0,
    }
}

/// The addressing mode of the instruction with the given opcode.  Implied,
/// accumulator, branch and jump encodings resolve no operand address and
/// carry [`AddressingMode::NoneAddressing`].
pub open spec fn opcode_mode(code: u8) -> AddressingMode {
    match code {
        0x69 | 0x29 | 0xC9 | 0xE0 | 0xC0 | 0x49 | 0xA9 | 0xA2 | 0xA0 | 0x09 | 0xE9
            => AddressingMode::Immediate,
        0x65 | 0x25 | 0x06 | 0x24 | 0xC5 | 0xE4 | 0xC4 | 0xC6 | 0x45 | 0xE6 | 0xA5 | 0xA6 | 0xA4
            | 0x46 | 0x05 | 0x26 | 0x66 | 0xE5 | 0x85 | 0x86 | 0x84 => AddressingMode::ZeroPage,
        0x75 | 0x35 | 0x16 | 0xD5 | 0xD6 | 0x55 | 0xF6 | 0xB5 | 0xB4 | 0x56 | 0x15 | 0x36 | 0x76
            | 0xF5 | 0x95 | 0x94 => AddressingMode::ZeroPage_X,
        0xB6 | 0x96 => AddressingMode::ZeroPage_Y,
        0x6D | 0x2D | 0x0E | 0x2C | 0xCD | 0xEC | 0xCC | 0xCE | 0x4D | 0xEE | 0xAD | 0xAE | 0xAC
            | 0x4E | 0x0D | 0x2E | 0x6E | 0xED | 0x8D | 0x8E | 0x8C => AddressingMode::Absolute,
        0x7D | 0x3D | 0x1E | 0xDD | 0xDE | 0x5D | 0xFE | 0xBD | 0xBC | 0x5E | 0x1D | 0x3E | 0x7E
            | 0xFD | 0x9D => AddressingMode::Absolute_X,
        0x79 | 0x39 | 0xD9 | 0x59 | 0xB9 | 0xBE | 0x19 | 0xF9 | 0x99 => AddressingMode::Absolute_Y,
        0x61 | 0x21 | 0xC1 | 0x41 | 0xA1 | 0x01 | 0xE1 | 0x81 => AddressingMode::Indirect_X,
        0x71 | 0x31 | 0xD1 | 0x51 | 0xB1 | 0x11 | 0xF1 | 0x91 => AddressingMode::Indirect_Y,
        _ => AddressingMode::NoneAddressing,
    }
}

/// Look up the descriptor for an opcode byte; `None` for a byte outside the
/// official set.
#[verifier::rlimit(100)]
#[verifier::spinoff_prover]
pub fn opcode_lookup(code: u8) -> (r: Option<OpCode>)
    ensures
        r is Some <==> recognized(code),
        r matches Some(op) ==> op.code == code && 1 <= op.len <= 3 && op.len as u16 == opcode_len(
            code,
        ) && op.mode == opcode_mode(code) && op.cycles == opcode_cycles(code),
{
    match code {
        // BRK, NOP
        0x00 => Some(OpCode::new(0x00, "BRK", 1, 7, AddressingMode::NoneAddressing)),
        0xEA => Some(OpCode::new(0xEA, "NOP", 1, 2, AddressingMode::NoneAddressing)),
        // ADC
        0x69 => Some(OpCode::new(0x69, "ADC", 2, 2, AddressingMode::Immediate)),
        0x65 => Some(OpCode::new(0x65, "ADC", 2, 3, AddressingMode::ZeroPage)),
        0x75 => Some(OpCode::new(0x75, "ADC", 2, 4, AddressingMode::ZeroPage_X)),
        0x6D => Some(OpCode::new(0x6D, "ADC", 3, 4, AddressingMode::Absolute)),
        0x7D => Some(OpCode::new(0x7D, "ADC", 3, 4, AddressingMode::Absolute_X)),
        0x79 => Some(OpCode::new(0x79, "ADC", 3, 4, AddressingMode::Absolute_Y)),
        0x61 => Some(OpCode::new(0x61, "ADC", 2, 6, AddressingMode::Indirect_X)),
        0x71 => Some(OpCode::new(0x71, "ADC", 2, 5, AddressingMode::Indirect_Y)),
        // AND
        0x29 => Some(OpCode::new(0x29, "AND", 2, 2, AddressingMode::Immediate)),
        0x25 => Some(OpCode::new(0x25, "AND", 2, 3, AddressingMode::ZeroPage)),
        0x35 => Some(OpCode::new(0x35, "AND", 2, 4, AddressingMode::ZeroPage_X)),
        0x2D => Some(OpCode::new(0x2D, "AND", 3, 4, AddressingMode::Absolute)),
        0x3D => Some(OpCode::new(0x3D, "AND", 3, 4, AddressingMode::Absolute_X)),
        0x39 => Some(OpCode::new(0x39, "AND", 3, 4, AddressingMode::Absolute_Y)),
        0x21 => Some(OpCode::new(0x21, "AND", 2, 6, AddressingMode::Indirect_X)),
        0x31 => Some(OpCode::new(0x31, "AND", 2, 5, AddressingMode::Indirect_Y)),
        // ASL
        0x0A => Some(OpCode::new(0x0A, "ASL", 1, 2, AddressingMode::NoneAddressing)),
        0x06 => Some(OpCode::new(0x06, "ASL", 2, 5, AddressingMode::ZeroPage)),
        0x16 => Some(OpCode::new(0x16, "ASL", 2, 6, AddressingMode::ZeroPage_X)),
        0x0E => Some(OpCode::new(0x0E, "ASL", 3, 6, AddressingMode::Absolute)),
        0x1E => Some(OpCode::new(0x1E, "ASL", 3, 7, AddressingMode::Absolute_X)),
        // BIT
        0x24 => Some(OpCode::new(0x24, "BIT", 2, 3, AddressingMode::ZeroPage)),
        0x2C => Some(OpCode::new(0x2C, "BIT", 3, 4, AddressingMode::Absolute)),
        // Branches
        0x10 => Some(OpCode::new(0x10, "BPL", 2, 2, AddressingMode::NoneAddressing)),
        0x30 => Some(OpCode::new(0x30, "BMI", 2, 2, AddressingMode::NoneAddressing)),
        0x50 => Some(OpCode::new(0x50, "BVC", 2, 2, AddressingMode::NoneAddressing)),
        0x70 => Some(OpCode::new(0x70, "BVS", 2, 2, AddressingMode::NoneAddressing)),
        0x90 => Some(OpCode::new(0x90, "BCC", 2, 2, AddressingMode::NoneAddressing)),
        0xB0 => Some(OpCode::new(0xB0, "BCS", 2, 2, AddressingMode::NoneAddressing)),
        0xD0 => Some(OpCode::new(0xD0, "BNE", 2, 2, AddressingMode::NoneAddressing)),
        0xF0 => Some(OpCode::new(0xF0, "BEQ", 2, 2, AddressingMode::NoneAddressing)),
        // CMP
        0xC9 => Some(OpCode::new(0xC9, "CMP", 2, 2, AddressingMode::Immediate)),
        0xC5 => Some(OpCode::new(0xC5, "CMP", 2, 3, AddressingMode::ZeroPage)),
        0xD5 => Some(OpCode::new(0xD5, "CMP", 2, 4, AddressingMode::ZeroPage_X)),
        0xCD => Some(OpCode::new(0xCD, "CMP", 3, 4, AddressingMode::Absolute)),
        0xDD => Some(OpCode::new(0xDD, "CMP", 3, 4, AddressingMode::Absolute_X)),
        0xD9 => Some(OpCode::new(0xD9, "CMP", 3, 4, AddressingMode::Absolute_Y)),
        0xC1 => Some(OpCode::new(0xC1, "CMP", 2, 6, AddressingMode::Indirect_X)),
        0xD1 => Some(OpCode::new(0xD1, "CMP", 2, 5, AddressingMode::Indirect_Y)),
        // CPX
        0xE0 => Some(OpCode::new(0xE0, "CPX", 2, 2, AddressingMode::Immediate)),
        0xE4 => Some(OpCode::new(0xE4, "CPX", 2, 3, AddressingMode::ZeroPage)),
        0xEC => Some(OpCode::new(0xEC, "CPX", 3, 4, AddressingMode::Absolute)),
        // CPY
        0xC0 => Some(OpCode::new(0xC0, "CPY", 2, 2, AddressingMode::Immediate)),
        0xC4 => Some(OpCode::new(0xC4, "CPY", 2, 3, AddressingMode::ZeroPage)),
        0xCC => Some(OpCode::new(0xCC, "CPY", 3, 4, AddressingMode::Absolute)),
        // DEC
        0xC6 => Some(OpCode::new(0xC6, "DEC", 2, 5, AddressingMode::ZeroPage)),
        0xD6 => Some(OpCode::new(0xD6, "DEC", 2, 6, AddressingMode::ZeroPage_X)),
        0xCE => Some(OpCode::new(0xCE, "DEC", 3, 6, AddressingMode::Absolute)),
        0xDE => Some(OpCode::new(0xDE, "DEC", 3, 7, AddressingMode::Absolute_X)),
        // EOR
        0x49 => Some(OpCode::new(0x49, "EOR", 2, 2, AddressingMode::Immediate)),
        0x45 => Some(OpCode::new(0x45, "EOR", 2, 3, AddressingMode::ZeroPage)),
        0x55 => Some(OpCode::new(0x55, "EOR", 2, 4, AddressingMode::ZeroPage_X)),
        0x4D => Some(OpCode::new(0x4D, "EOR", 3, 4, AddressingMode::Absolute)),
        0x5D => Some(OpCode::new(0x5D, "EOR", 3, 4, AddressingMode::Absolute_X)),
        0x59 => Some(OpCode::new(0x59, "EOR", 3, 4, AddressingMode::Absolute_Y)),
        0x41 => Some(OpCode::new(0x41, "EOR", 2, 6, AddressingMode::Indirect_X)),
        0x51 => Some(OpCode::new(0x51, "EOR", 2, 5, AddressingMode::Indirect_Y)),
        // Flag instructions
        0x18 => Some(OpCode::new(0x18, "CLC", 1, 2, AddressingMode::NoneAddressing)),
        0x38 => Some(OpCode::new(0x38, "SEC", 1, 2, AddressingMode::NoneAddressing)),
        0x58 => Some(OpCode::new(0x58, "CLI", 1, 2, AddressingMode::NoneAddressing)),
        0x78 => Some(OpCode::new(0x78, "SEI", 1, 2, AddressingMode::NoneAddressing)),
        0xB8 => Some(OpCode::new(0xB8, "CLV", 1, 2, AddressingMode::NoneAddressing)),
        0xD8 => Some(OpCode::new(0xD8, "CLD", 1, 2, AddressingMode::NoneAddressing)),
        0xF8 => Some(OpCode::new(0xF8, "SED", 1, 2, AddressingMode::NoneAddressing)),
        // INC
        0xE6 => Some(OpCode::new(0xE6, "INC", 2, 5, AddressingMode::ZeroPage)),
        0xF6 => Some(OpCode::new(0xF6, "INC", 2, 6, AddressingMode::ZeroPage_X)),
        0xEE => Some(OpCode::new(0xEE, "INC", 3, 6, AddressingMode::Absolute)),
        0xFE => Some(OpCode::new(0xFE, "INC", 3, 7, AddressingMode::Absolute_X)),
        // JMP
        0x4C => Some(OpCode::new(0x4C, "JMP", 3, 3, AddressingMode::NoneAddressing)),
        0x6C => Some(OpCode::new(0x6C, "JMP", 3, 5, AddressingMode::NoneAddressing)),
        // JSR
        0x20 => Some(OpCode::new(0x20, "JSR", 3, 6, AddressingMode::NoneAddressing)),
        // LDA
        0xA9 => Some(OpCode::new(0xA9, "LDA", 2, 2, AddressingMode::Immediate)),
        0xA5 => Some(OpCode::new(0xA5, "LDA", 2, 3, AddressingMode::ZeroPage)),
        0xB5 => Some(OpCode::new(0xB5, "LDA", 2, 4, AddressingMode::ZeroPage_X)),
        0xAD => Some(OpCode::new(0xAD, "LDA", 3, 4, AddressingMode::Absolute)),
        0xBD => Some(OpCode::new(0xBD, "LDA", 3, 4, AddressingMode::Absolute_X)),
        0xB9 => Some(OpCode::new(0xB9, "LDA", 3, 4, AddressingMode::Absolute_Y)),
        0xA1 => Some(OpCode::new(0xA1, "LDA", 2, 6, AddressingMode::Indirect_X)),
        0xB1 => Some(OpCode::new(0xB1, "LDA", 2, 5, AddressingMode::Indirect_Y)),
        // LDX
        0xA2 => Some(OpCode::new(0xA2, "LDX", 2, 2, AddressingMode::Immediate)),
        0xA6 => Some(OpCode::new(0xA6, "LDX", 2, 3, AddressingMode::ZeroPage)),
        0xB6 => Some(OpCode::new(0xB6, "LDX", 2, 4, AddressingMode::ZeroPage_Y)),
        0xAE => Some(OpCode::new(0xAE, "LDX", 3, 4, AddressingMode::Absolute)),
        0xBE => Some(OpCode::new(0xBE, "LDX", 3, 4, AddressingMode::Absolute_Y)),
        // LDY
        0xA0 => Some(OpCode::new(0xA0, "LDY", 2, 2, AddressingMode::Immediate)),
        0xA4 => Some(OpCode::new(0xA4, "LDY", 2, 3, AddressingMode::ZeroPage)),
        0xB4 => Some(OpCode::new(0xB4, "LDY", 2, 4, AddressingMode::ZeroPage_X)),
        0xAC => Some(OpCode::new(0xAC, "LDY", 3, 4, AddressingMode::Absolute)),
        0xBC => Some(OpCode::new(0xBC, "LDY", 3, 4, AddressingMode::Absolute_X)),
        // LSR
        0x4A => Some(OpCode::new(0x4A, "LSR", 1, 2, AddressingMode::NoneAddressing)),
        0x46 => Some(OpCode::new(0x46, "LSR", 2, 5, AddressingMode::ZeroPage)),
        0x56 => Some(OpCode::new(0x56, "LSR", 2, 6, AddressingMode::ZeroPage_X)),
        0x4E => Some(OpCode::new(0x4E, "LSR", 3, 6, AddressingMode::Absolute)),
        0x5E => Some(OpCode::new(0x5E, "LSR", 3, 7, AddressingMode::Absolute_X)),
        // ORA
        0x09 => Some(OpCode::new(0x09, "ORA", 2, 2, AddressingMode::Immediate)),
        0x05 => Some(OpCode::new(0x05, "ORA", 2, 3, AddressingMode::ZeroPage)),
        0x15 => Some(OpCode::new(0x15, "ORA", 2, 4, AddressingMode::ZeroPage_X)),
        0x0D => Some(OpCode::new(0x0D, "ORA", 3, 4, AddressingMode::Absolute)),
        0x1D => Some(OpCode::new(0x1D, "ORA", 3, 4, AddressingMode::Absolute_X)),
        0x19 => Some(OpCode::new(0x19, "ORA", 3, 4, AddressingMode::Absolute_Y)),
        0x01 => Some(OpCode::new(0x01, "ORA", 2, 6, AddressingMode::Indirect_X)),
        0x11 => Some(OpCode::new(0x11, "ORA", 2, 5, AddressingMode::Indirect_Y)),
        // Register instructions
        0xAA => Some(OpCode::new(0xAA, "TAX", 1, 2, AddressingMode::NoneAddressing)),
        0x8A => Some(OpCode::new(0x8A, "TXA", 1, 2, AddressingMode::NoneAddressing)),
        0xCA => Some(OpCode::new(0xCA, "DEX", 1, 2, AddressingMode::NoneAddressing)),
        0xE8 => Some(OpCode::new(0xE8, "INX", 1, 2, AddressingMode::NoneAddressing)),
        0xA8 => Some(OpCode::new(0xA8, "TAY", 1, 2, AddressingMode::NoneAddressing)),
        0x98 => Some(OpCode::new(0x98, "TYA", 1, 2, AddressingMode::NoneAddressing)),
        0x88 => Some(OpCode::new(0x88, "DEY", 1, 2, AddressingMode::NoneAddressing)),
        0xC8 => Some(OpCode::new(0xC8, "INY", 1, 2, AddressingMode::NoneAddressing)),
        // ROL
        0x2A => Some(OpCode::new(0x2A, "ROL", 1, 2, AddressingMode::NoneAddressing)),
        0x26 => Some(OpCode::new(0x26, "ROL", 2, 5, AddressingMode::ZeroPage)),
        0x36 => Some(OpCode::new(0x36, "ROL", 2, 6, AddressingMode::ZeroPage_X)),
        0x2E => Some(OpCode::new(0x2E, "ROL", 3, 6, AddressingMode::Absolute)),
        0x3E => Some(OpCode::new(0x3E, "ROL", 3, 7, AddressingMode::Absolute_X)),
        // ROR
        0x6A => Some(OpCode::new(0x6A, "ROR", 1, 2, AddressingMode::NoneAddressing)),
        0x66 => Some(OpCode::new(0x66, "ROR", 2, 5, AddressingMode::ZeroPage)),
        0x76 => Some(OpCode::new(0x76, "ROR", 2, 6, AddressingMode::ZeroPage_X)),
        0x6E => Some(OpCode::new(0x6E, "ROR", 3, 6, AddressingMode::Absolute)),
        0x7E => Some(OpCode::new(0x7E, "ROR", 3, 7, AddressingMode::Absolute_X)),
        // RTI, RTS
        0x40 => Some(OpCode::new(0x40, "RTI", 1, 6, AddressingMode::NoneAddressing)),
        0x60 => Some(OpCode::new(0x60, "RTS", 1, 6, AddressingMode::NoneAddressing)),
        // SBC
        0xE9 => Some(OpCode::new(0xE9, "SBC", 2, 2, AddressingMode::Immediate)),
        0xE5 => Some(OpCode::new(0xE5, "SBC", 2, 3, AddressingMode::ZeroPage)),
        0xF5 => Some(OpCode::new(0xF5, "SBC", 2, 4, AddressingMode::ZeroPage_X)),
        0xED => Some(OpCode::new(0xED, "SBC", 3, 4, AddressingMode::Absolute)),
        0xFD => Some(OpCode::new(0xFD, "SBC", 3, 4, AddressingMode::Absolute_X)),
        0xF9 => Some(OpCode::new(0xF9, "SBC", 3, 4, AddressingMode::Absolute_Y)),
        0xE1 => Some(OpCode::new(0xE1, "SBC", 2, 6, AddressingMode::Indirect_X)),
        0xF1 => Some(OpCode::new(0xF1, "SBC", 2, 5, AddressingMode::Indirect_Y)),
        // STA
        0x85 => Some(OpCode::new(0x85, "STA", 2, 3, AddressingMode::ZeroPage)),
        0x95 => Some(OpCode::new(0x95, "STA", 2, 4, AddressingMode::ZeroPage_X)),
        0x8D => Some(OpCode::new(0x8D, "STA", 3, 4, AddressingMode::Absolute)),
        0x9D => Some(OpCode::new(0x9D, "STA", 3, 5, AddressingMode::Absolute_X)),
        0x99 => Some(OpCode::new(0x99, "STA", 3, 5, AddressingMode::Absolute_Y)),
        0x81 => Some(OpCode::new(0x81, "STA", 2, 6, AddressingMode::Indirect_X)),
        0x91 => Some(OpCode::new(0x91, "STA", 2, 6, AddressingMode::Indirect_Y)),
        // Stack instructions
        0x9A => Some(OpCode::new(0x9A, "TXS", 1, 2, AddressingMode::NoneAddressing)),
        0xBA => Some(OpCode::new(0xBA, "TSX", 1, 2, AddressingMode::NoneAddressing)),
        0x48 => Some(OpCode::new(0x48, "PHA", 1, 3, AddressingMode::NoneAddressing)),
        0x68 => Some(OpCode::new(0x68, "PLA", 1, 4, AddressingMode::NoneAddressing)),
        0x08 => Some(OpCode::new(0x08, "PHP", 1, 3, AddressingMode::NoneAddressing)),
        0x28 => Some(OpCode::new(0x28, "PLP", 1, 4, AddressingMode::NoneAddressing)),
        // STX
        0x86 => Some(OpCode::new(0x86, "STX", 2, 3, AddressingMode::ZeroPage)),
        0x96 => Some(OpCode::new(0x96, "STX", 2, 4, AddressingMode::ZeroPage_Y)),
        0x8E => Some(OpCode::new(0x8E, "STX", 3, 4, AddressingMode::Absolute)),
        // STY
        0x84 => Some(OpCode::new(0x84, "STY", 2, 3, AddressingMode::ZeroPage)),
        0x94 => Some(OpCode::new(0x94, "STY", 2, 4, AddressingMode::ZeroPage_X)),
        0x8C => Some(OpCode::new(0x8C, "STY", 3, 4, AddressingMode::Absolute)),
        _ => None,
    }
}

} // verus!
