//! The opcode table: one descriptor for each defined opcode byte.
//!
//! `descriptor` is the table as a mapping from bytes to descriptors.
//! `cpu_ops_codes` lists the descriptors, and `OpcodeMap` indexes them by
//! opcode byte for the interpreter.

use vstd::prelude::*;

verus! {

/// How an instruction finds its operand.
#[allow(non_camel_case_types)]
#[derive(Clone, Copy, Debug, PartialEq, Eq, Structural)]
pub enum AddressingMode {
    /// The operand is the byte after the opcode.
    Immediate,
    /// The byte after the opcode is the operand's address in page zero.
    ZeroPage,
    /// As `ZeroPage`, with X added to the address inside page zero.
    ZeroPage_X,
    /// As `ZeroPage`, with Y added to the address inside page zero.
    ZeroPage_Y,
    /// The two bytes after the opcode are the operand's address.
    Absolute,
    /// As `Absolute`, with X added to the address.
    Absolute_X,
    /// As `Absolute`, with Y added to the address.
    Absolute_Y,
    /// The byte after the opcode plus X names a slot of page zero that
    /// holds the operand's address.
    Indirect_X,
    /// The byte after the opcode names a slot of page zero that holds an
    /// address; the operand lies Y bytes after it.
    Indirect_Y,
    /// The instruction has no operand, or finds it by itself.
    NoneAddressing,
}

/// The descriptor of one opcode byte.
#[derive(Clone, Copy, Debug)]
pub struct OpCode {
    /// The opcode byte.
    pub code: u8,
    /// The instruction's three-letter name.
    pub mnemonic: &'static str,
    /// The instruction's length in bytes, opcode byte included.
    pub len: u8,
    /// The base number of cycles; penalties for crossed pages and taken
    /// branches are not part of it.
    pub cycles: u8,
    /// How the instruction finds its operand.
    pub mode: AddressingMode,
}

impl OpCode {
    /// The descriptor with these five parts.
    pub fn new(code: u8, mnemonic: &'static str, len: u8, cycles: u8, mode: AddressingMode) -> (op:
        OpCode)
        ensures
            op == (OpCode { code, mnemonic, len, cycles, mode }),
    {
        OpCode { code, mnemonic, len, cycles, mode }
    }
}

/// A descriptor, as an entry of the table.
pub open spec fn described(
    code: u8,
    mnemonic: &'static str,
    len: u8,
    cycles: u8,
    mode: AddressingMode,
) -> Option<OpCode> {
    Some(OpCode { code, mnemonic, len, cycles, mode })
}

/// The opcode table: the descriptor of `code`, or `None` for a byte that
/// is no opcode.
#[verifier::opaque]
pub open spec fn descriptor(code: u8) -> Option<OpCode> {
    match code {
        0x00 => described(0x00, "BRK", 1, 7, AddressingMode::NoneAddressing),
        0x01 => described(0x01, "ORA", 2, 6, AddressingMode::Indirect_X),
        0x03 => described(0x03, "SLO", 2, 8, AddressingMode::Indirect_X),
        0x04 => described(0x04, "DOP", 2, 3, AddressingMode::ZeroPage),
        0x05 => described(0x05, "ORA", 2, 3, AddressingMode::ZeroPage),
        0x06 => described(0x06, "ASL", 2, 5, AddressingMode::ZeroPage),
        0x07 => described(0x07, "SLO", 2, 5, AddressingMode::ZeroPage),
        0x08 => described(0x08, "PHP", 1, 3, AddressingMode::NoneAddressing),
        0x09 => described(0x09, "ORA", 2, 2, AddressingMode::Immediate),
        0x0A => described(0x0A, "ASL", 1, 2, AddressingMode::NoneAddressing),
        0x0C => described(0x0C, "TOP", 3, 4, AddressingMode::Absolute),
        0x0D => described(0x0D, "ORA", 3, 4, AddressingMode::Absolute),
        0x0E => described(0x0E, "ASL", 3, 6, AddressingMode::Absolute),
        0x0F => described(0x0F, "SLO", 3, 6, AddressingMode::Absolute),
        0x10 => described(0x10, "BPL", 2, 2, AddressingMode::NoneAddressing),
        0x11 => described(0x11, "ORA", 2, 5, AddressingMode::Indirect_Y),
        0x13 => described(0x13, "SLO", 2, 8, AddressingMode::Indirect_Y),
        0x14 => described(0x14, "DOP", 2, 4, AddressingMode::ZeroPage_X),
        0x15 => described(0x15, "ORA", 2, 4, AddressingMode::ZeroPage_X),
        0x16 => described(0x16, "ASL", 2, 6, AddressingMode::ZeroPage_X),
        0x17 => described(0x17, "SLO", 2, 6, AddressingMode::ZeroPage_X),
        0x18 => described(0x18, "CLC", 1, 2, AddressingMode::NoneAddressing),
        0x19 => described(0x19, "ORA", 3, 4, AddressingMode::Absolute_Y),
        0x1A => described(0x1A, "NOP", 1, 2, AddressingMode::NoneAddressing),
        0x1B => described(0x1B, "SLO", 3, 7, AddressingMode::Absolute_Y),
        0x1C => described(0x1C, "TOP", 3, 4, AddressingMode::Absolute_X),
        0x1D => described(0x1D, "ORA", 3, 4, AddressingMode::Absolute_X),
        0x1E => described(0x1E, "ASL", 3, 7, AddressingMode::Absolute_X),
        0x1F => described(0x1F, "SLO", 3, 7, AddressingMode::Absolute_X),
        0x20 => described(0x20, "JSR", 3, 6, AddressingMode::Absolute),
        0x21 => described(0x21, "AND", 2, 6, AddressingMode::Indirect_X),
        0x24 => described(0x24, "BIT", 2, 3, AddressingMode::ZeroPage),
        0x25 => described(0x25, "AND", 2, 3, AddressingMode::ZeroPage),
        0x26 => described(0x26, "ROL", 2, 5, AddressingMode::ZeroPage),
        0x28 => described(0x28, "PLP", 1, 4, AddressingMode::NoneAddressing),
        0x29 => described(0x29, "AND", 2, 2, AddressingMode::Immediate),
        0x2A => described(0x2A, "ROL", 1, 2, AddressingMode::NoneAddressing),
        0x2C => described(0x2C, "BIT", 3, 4, AddressingMode::Absolute),
        0x2D => described(0x2D, "AND", 3, 4, AddressingMode::Absolute),
        0x2E => described(0x2E, "ROL", 3, 6, AddressingMode::Absolute),
        0x30 => described(0x30, "BMI", 2, 2, AddressingMode::NoneAddressing),
        0x31 => described(0x31, "AND", 2, 5, AddressingMode::Indirect_Y),
        0x34 => described(0x34, "DOP", 2, 4, AddressingMode::ZeroPage_X),
        0x35 => described(0x35, "AND", 2, 4, AddressingMode::ZeroPage_X),
        0x36 => described(0x36, "ROL", 2, 6, AddressingMode::ZeroPage_X),
        0x38 => described(0x38, "SEC", 1, 2, AddressingMode::NoneAddressing),
        0x39 => described(0x39, "AND", 3, 4, AddressingMode::Absolute_Y),
        0x3A => described(0x3A, "NOP", 1, 2, AddressingMode::NoneAddressing),
        0x3C => described(0x3C, "TOP", 3, 4, AddressingMode::Absolute_X),
        0x3D => described(0x3D, "AND", 3, 4, AddressingMode::Absolute_X),
        0x3E => described(0x3E, "ROL", 3, 7, AddressingMode::Absolute_X),
        0x40 => described(0x40, "RTI", 1, 6, AddressingMode::NoneAddressing),
        0x41 => described(0x41, "EOR", 2, 6, AddressingMode::Indirect_X),
        0x44 => described(0x44, "DOP", 2, 3, AddressingMode::ZeroPage),
        0x45 => described(0x45, "EOR", 2, 3, AddressingMode::ZeroPage),
        0x46 => described(0x46, "LSR", 2, 5, AddressingMode::ZeroPage),
        0x48 => described(0x48, "PHA", 1, 3, AddressingMode::NoneAddressing),
        0x49 => described(0x49, "EOR", 2, 2, AddressingMode::Immediate),
        0x4A => described(0x4A, "LSR", 1, 2, AddressingMode::NoneAddressing),
        0x4C => described(0x4C, "JMP", 3, 3, AddressingMode::Absolute),
        0x4D => described(0x4D, "EOR", 3, 4, AddressingMode::Absolute),
        0x4E => described(0x4E, "LSR", 3, 6, AddressingMode::Absolute),
        0x50 => described(0x50, "BVC", 2, 2, AddressingMode::NoneAddressing),
        0x51 => described(0x51, "EOR", 2, 5, AddressingMode::Indirect_Y),
        0x54 => described(0x54, "DOP", 2, 4, AddressingMode::ZeroPage_X),
        0x55 => described(0x55, "EOR", 2, 4, AddressingMode::ZeroPage_X),
        0x56 => described(0x56, "LSR", 2, 6, AddressingMode::ZeroPage_X),
        0x58 => described(0x58, "CLI", 1, 2, AddressingMode::NoneAddressing),
        0x59 => described(0x59, "EOR", 3, 4, AddressingMode::Absolute_Y),
        0x5A => described(0x5A, "NOP", 1, 2, AddressingMode::NoneAddressing),
        0x5C => described(0x5C, "TOP", 3, 4, AddressingMode::Absolute_X),
        0x5D => described(0x5D, "EOR", 3, 4, AddressingMode::Absolute_X),
        0x5E => described(0x5E, "LSR", 3, 7, AddressingMode::Absolute_X),
        0x60 => described(0x60, "RTS", 1, 6, AddressingMode::NoneAddressing),
        0x61 => described(0x61, "ADC", 2, 6, AddressingMode::Indirect_X),
        0x64 => described(0x64, "DOP", 2, 3, AddressingMode::ZeroPage),
        0x65 => described(0x65, "ADC", 2, 3, AddressingMode::ZeroPage),
        0x66 => described(0x66, "ROR", 2, 5, AddressingMode::ZeroPage),
        0x68 => described(0x68, "PLA", 1, 4, AddressingMode::NoneAddressing),
        0x69 => described(0x69, "ADC", 2, 2, AddressingMode::Immediate),
        0x6A => described(0x6A, "ROR", 1, 2, AddressingMode::NoneAddressing),
        0x6C => described(0x6C, "JMP", 3, 5, AddressingMode::NoneAddressing),
        0x6D => described(0x6D, "ADC", 3, 4, AddressingMode::Absolute),
        0x6E => described(0x6E, "ROR", 3, 6, AddressingMode::Absolute),
        0x70 => described(0x70, "BVS", 2, 2, AddressingMode::NoneAddressing),
        0x71 => described(0x71, "ADC", 2, 5, AddressingMode::Indirect_Y),
        0x74 => described(0x74, "DOP", 2, 4, AddressingMode::ZeroPage_X),
        0x75 => described(0x75, "ADC", 2, 4, AddressingMode::ZeroPage_X),
        0x76 => described(0x76, "ROR", 2, 6, AddressingMode::ZeroPage_X),
        0x78 => described(0x78, "SEI", 1, 2, AddressingMode::NoneAddressing),
        0x79 => described(0x79, "ADC", 3, 4, AddressingMode::Absolute_Y),
        0x7A => described(0x7A, "NOP", 1, 2, AddressingMode::NoneAddressing),
        0x7C => described(0x7C, "TOP", 3, 4, AddressingMode::Absolute_X),
        0x7D => described(0x7D, "ADC", 3, 4, AddressingMode::Absolute_X),
        0x7E => described(0x7E, "ROR", 3, 7, AddressingMode::Absolute_X),
        0x80 => described(0x80, "DOP", 2, 2, AddressingMode::Immediate),
        0x81 => described(0x81, "STA", 2, 6, AddressingMode::Indirect_X),
        0x82 => described(0x82, "DOP", 2, 2, AddressingMode::Immediate),
        0x83 => described(0x83, "AAX", 2, 6, AddressingMode::Indirect_X),
        0x84 => described(0x84, "STY", 2, 3, AddressingMode::ZeroPage),
        0x85 => described(0x85, "STA", 2, 3, AddressingMode::ZeroPage),
        0x86 => described(0x86, "STX", 2, 3, AddressingMode::ZeroPage),
        0x87 => described(0x87, "AAX", 2, 3, AddressingMode::ZeroPage),
        0x88 => described(0x88, "DEY", 1, 2, AddressingMode::NoneAddressing),
        0x89 => described(0x89, "DOP", 2, 2, AddressingMode::Immediate),
        0x8A => described(0x8A, "TXA", 1, 2, AddressingMode::NoneAddressing),
        0x8C => described(0x8C, "STY", 3, 4, AddressingMode::Absolute),
        0x8D => described(0x8D, "STA", 3, 4, AddressingMode::Absolute),
        0x8E => described(0x8E, "STX", 3, 4, AddressingMode::Absolute),
        0x8F => described(0x8F, "AAX", 3, 4, AddressingMode::Absolute),
        0x90 => described(0x90, "BCC", 2, 2, AddressingMode::NoneAddressing),
        0x91 => described(0x91, "STA", 2, 6, AddressingMode::Indirect_Y),
        0x94 => described(0x94, "STY", 2, 4, AddressingMode::ZeroPage_X),
        0x95 => described(0x95, "STA", 2, 4, AddressingMode::ZeroPage_X),
        0x96 => described(0x96, "STX", 2, 4, AddressingMode::ZeroPage_Y),
        0x97 => described(0x97, "AAX", 2, 4, AddressingMode::ZeroPage_Y),
        0x98 => described(0x98, "TYA", 1, 2, AddressingMode::NoneAddressing),
        0x99 => described(0x99, "STA", 3, 5, AddressingMode::Absolute_Y),
        0x9A => described(0x9A, "TXS", 1, 2, AddressingMode::NoneAddressing),
        0x9D => described(0x9D, "STA", 3, 5, AddressingMode::Absolute_X),
        0xA0 => described(0xA0, "LDY", 2, 2, AddressingMode::Immediate),
        0xA1 => described(0xA1, "LDA", 2, 6, AddressingMode::Indirect_X),
        0xA2 => described(0xA2, "LDX", 2, 2, AddressingMode::Immediate),
        0xA3 => described(0xA3, "LAX", 2, 6, AddressingMode::Indirect_X),
        0xA4 => described(0xA4, "LDY", 2, 3, AddressingMode::ZeroPage),
        0xA5 => described(0xA5, "LDA", 2, 3, AddressingMode::ZeroPage),
        0xA6 => described(0xA6, "LDX", 2, 3, AddressingMode::ZeroPage),
        0xA7 => described(0xA7, "LAX", 2, 3, AddressingMode::ZeroPage),
        0xA8 => described(0xA8, "TAY", 1, 2, AddressingMode::NoneAddressing),
        0xA9 => described(0xA9, "LDA", 2, 2, AddressingMode::Immediate),
        0xAA => described(0xAA, "TAX", 1, 2, AddressingMode::NoneAddressing),
        0xAC => described(0xAC, "LDY", 3, 4, AddressingMode::Absolute),
        0xAD => described(0xAD, "LDA", 3, 4, AddressingMode::Absolute),
        0xAE => described(0xAE, "LDX", 3, 4, AddressingMode::Absolute),
        0xAF => described(0xAF, "LAX", 3, 4, AddressingMode::Absolute),
        0xB0 => described(0xB0, "BCS", 2, 2, AddressingMode::NoneAddressing),
        0xB1 => described(0xB1, "LDA", 2, 5, AddressingMode::Indirect_Y),
        0xB3 => described(0xB3, "LAX", 2, 5, AddressingMode::Indirect_Y),
        0xB4 => described(0xB4, "LDY", 2, 4, AddressingMode::ZeroPage_X),
        0xB5 => described(0xB5, "LDA", 2, 4, AddressingMode::ZeroPage_X),
        0xB6 => described(0xB6, "LDX", 2, 4, AddressingMode::ZeroPage_Y),
        0xB7 => described(0xB7, "LAX", 2, 4, AddressingMode::ZeroPage_Y),
        0xB8 => described(0xB8, "CLV", 1, 2, AddressingMode::NoneAddressing),
        0xB9 => described(0xB9, "LDA", 3, 4, AddressingMode::Absolute_Y),
        0xBA => described(0xBA, "TSX", 1, 2, AddressingMode::NoneAddressing),
        0xBC => described(0xBC, "LDY", 3, 4, AddressingMode::Absolute_X),
        0xBD => described(0xBD, "LDA", 3, 4, AddressingMode::Absolute_X),
        0xBE => described(0xBE, "LDX", 3, 4, AddressingMode::Absolute_Y),
        0xBF => described(0xBF, "LAX", 3, 4, AddressingMode::Absolute_Y),
        0xC0 => described(0xC0, "CPY", 2, 2, AddressingMode::Immediate),
        0xC1 => described(0xC1, "CMP", 2, 6, AddressingMode::Indirect_X),
        0xC2 => described(0xC2, "DOP", 2, 2, AddressingMode::Immediate),
        0xC3 => described(0xC3, "DCP", 2, 8, AddressingMode::Indirect_X),
        0xC4 => described(0xC4, "CPY", 2, 3, AddressingMode::ZeroPage),
        0xC5 => described(0xC5, "CMP", 2, 3, AddressingMode::ZeroPage),
        0xC6 => described(0xC6, "DEC", 2, 5, AddressingMode::ZeroPage),
        0xC7 => described(0xC7, "DCP", 2, 5, AddressingMode::ZeroPage),
        0xC8 => described(0xC8, "INY", 1, 2, AddressingMode::NoneAddressing),
        0xC9 => described(0xC9, "CMP", 2, 2, AddressingMode::Immediate),
        0xCA => described(0xCA, "DEX", 1, 2, AddressingMode::NoneAddressing),
        0xCC => described(0xCC, "CPY", 3, 4, AddressingMode::Absolute),
        0xCD => described(0xCD, "CMP", 3, 4, AddressingMode::Absolute),
        0xCE => described(0xCE, "DEC", 3, 6, AddressingMode::Absolute),
        0xCF => described(0xCF, "DCP", 3, 6, AddressingMode::Absolute),
        0xD0 => described(0xD0, "BNE", 2, 2, AddressingMode::NoneAddressing),
        0xD1 => described(0xD1, "CMP", 2, 5, AddressingMode::Indirect_Y),
        0xD3 => described(0xD3, "DCP", 2, 8, AddressingMode::Indirect_Y),
        0xD4 => described(0xD4, "DOP", 2, 4, AddressingMode::ZeroPage_X),
        0xD5 => described(0xD5, "CMP", 2, 4, AddressingMode::ZeroPage_X),
        0xD6 => described(0xD6, "DEC", 2, 6, AddressingMode::ZeroPage_X),
        0xD7 => described(0xD7, "DCP", 2, 6, AddressingMode::ZeroPage_X),
        0xD8 => described(0xD8, "CLD", 1, 2, AddressingMode::NoneAddressing),
        0xD9 => described(0xD9, "CMP", 3, 4, AddressingMode::Absolute_Y),
        0xDA => described(0xDA, "NOP", 1, 2, AddressingMode::NoneAddressing),
        0xDB => described(0xDB, "DCP", 3, 7, AddressingMode::Absolute_Y),
        0xDC => described(0xDC, "TOP", 3, 4, AddressingMode::Absolute_X),
        0xDD => described(0xDD, "CMP", 3, 4, AddressingMode::Absolute_X),
        0xDE => described(0xDE, "DEC", 3, 7, AddressingMode::Absolute_X),
        0xDF => described(0xDF, "DCP", 3, 7, AddressingMode::Absolute_X),
        0xE0 => described(0xE0, "CPX", 2, 2, AddressingMode::Immediate),
        0xE1 => described(0xE1, "SBC", 2, 6, AddressingMode::Indirect_X),
        0xE2 => described(0xE2, "DOP", 2, 2, AddressingMode::Immediate),
        0xE3 => described(0xE3, "ISC", 2, 8, AddressingMode::Indirect_X),
        0xE4 => described(0xE4, "CPX", 2, 3, AddressingMode::ZeroPage),
        0xE5 => described(0xE5, "SBC", 2, 3, AddressingMode::ZeroPage),
        0xE6 => described(0xE6, "INC", 2, 5, AddressingMode::ZeroPage),
        0xE7 => described(0xE7, "ISC", 2, 5, AddressingMode::ZeroPage),
        0xE8 => described(0xE8, "INX", 1, 2, AddressingMode::NoneAddressing),
        0xE9 => described(0xE9, "SBC", 2, 2, AddressingMode::Immediate),
        0xEA => described(0xEA, "NOP", 1, 2, AddressingMode::NoneAddressing),
        0xEB => described(0xEB, "SBC", 2, 2, AddressingMode::Immediate),
        0xEC => described(0xEC, "CPX", 3, 4, AddressingMode::Absolute),
        0xED => described(0xED, "SBC", 3, 4, AddressingMode::Absolute),
        0xEE => described(0xEE, "INC", 3, 6, AddressingMode::Absolute),
        0xEF => described(0xEF, "ISC", 3, 6, AddressingMode::Absolute),
        0xF0 => described(0xF0, "BEQ", 2, 2, AddressingMode::NoneAddressing),
        0xF1 => described(0xF1, "SBC", 2, 5, AddressingMode::Indirect_Y),
        0xF3 => described(0xF3, "ISC", 2, 8, AddressingMode::Indirect_Y),
        0xF4 => described(0xF4, "DOP", 2, 4, AddressingMode::ZeroPage_X),
        0xF5 => described(0xF5, "SBC", 2, 4, AddressingMode::ZeroPage_X),
        0xF6 => described(0xF6, "INC", 2, 6, AddressingMode::ZeroPage_X),
        0xF7 => described(0xF7, "ISC", 2, 6, AddressingMode::ZeroPage_X),
        0xF8 => described(0xF8, "SED", 1, 2, AddressingMode::NoneAddressing),
        0xF9 => described(0xF9, "SBC", 3, 4, AddressingMode::Absolute_Y),
        0xFA => described(0xFA, "NOP", 1, 2, AddressingMode::NoneAddressing),
        0xFB => described(0xFB, "ISC", 3, 7, AddressingMode::Absolute_Y),
        0xFC => described(0xFC, "TOP", 3, 4, AddressingMode::Absolute_X),
        0xFD => described(0xFD, "SBC", 3, 4, AddressingMode::Absolute_X),
        0xFE => described(0xFE, "INC", 3, 7, AddressingMode::Absolute_X),
        0xFF => described(0xFF, "ISC", 3, 7, AddressingMode::Absolute_X),
        _ => None,
    }
}

/// Every descriptor carries the opcode byte it stands under, and an
/// instruction is one, two or three bytes long.
pub proof fn lemma_descriptor_shape(code: u8)
    ensures
        descriptor(code).is_some() ==> descriptor(code).unwrap().code == code && 1
            <= descriptor(code).unwrap().len <= 3,
{
    reveal(descriptor);
}

/// Whether a descriptor of `table` at an index from `lo` up to, not
/// including, `hi` is that of `code`.
spec fn listed(table: Seq<OpCode>, lo: int, hi: int, code: u8) -> bool
    decreases hi - lo,
{
    if hi - lo <= 0 {
        false
    } else if hi - lo == 1 {
        table[lo].code == code
    } else {
        let mid = lo + (hi - lo) / 2;
        listed(table, lo, mid, code) || listed(table, mid, hi, code)
    }
}

proof fn lemma_listed_has_index(table: Seq<OpCode>, lo: int, hi: int, code: u8)
    requires
        listed(table, lo, hi, code),
    ensures
        exists|i: int| lo <= i < hi && #[trigger] table[i].code == code,
    decreases hi - lo,
{
    if hi - lo > 1 {
        let mid = lo + (hi - lo) / 2;
        if listed(table, lo, mid, code) {
            lemma_listed_has_index(table, lo, mid, code);
        } else {
            lemma_listed_has_index(table, mid, hi, code);
        }
    }
}

/// The number of defined opcodes.
pub const OPCODE_COUNT: usize = 210;

/// The descriptors of all defined opcodes, grouped by instruction family.
/// Each is the table's entry for its opcode byte, and every defined opcode
/// has one.
#[verifier::rlimit(80)]
pub fn cpu_ops_codes() -> (table: Vec<OpCode>)
    ensures
        table@.len() == OPCODE_COUNT,
        forall|i: int|
            0 <= i < table@.len() ==> descriptor(#[trigger] table@[i].code) == Some(table@[i]),
        forall|code: u8|
            descriptor(code).is_some() ==> exists|i: int|
                0 <= i < table@.len() && #[trigger] table@[i].code == code,
{
    let table = vec![
        // load and store
        OpCode::new(0xA9, "LDA", 2, 2, AddressingMode::Immediate),
        OpCode::new(0xA5, "LDA", 2, 3, AddressingMode::ZeroPage),
        OpCode::new(0xB5, "LDA", 2, 4, AddressingMode::ZeroPage_X),
        OpCode::new(0xAD, "LDA", 3, 4, AddressingMode::Absolute),
        OpCode::new(0xBD, "LDA", 3, 4, AddressingMode::Absolute_X),
        OpCode::new(0xB9, "LDA", 3, 4, AddressingMode::Absolute_Y),
        OpCode::new(0xA1, "LDA", 2, 6, AddressingMode::Indirect_X),
        OpCode::new(0xB1, "LDA", 2, 5, AddressingMode::Indirect_Y),
        OpCode::new(0xA2, "LDX", 2, 2, AddressingMode::Immediate),
        OpCode::new(0xA6, "LDX", 2, 3, AddressingMode::ZeroPage),
        OpCode::new(0xB6, "LDX", 2, 4, AddressingMode::ZeroPage_Y),
        OpCode::new(0xAE, "LDX", 3, 4, AddressingMode::Absolute),
        OpCode::new(0xBE, "LDX", 3, 4, AddressingMode::Absolute_Y),
        OpCode::new(0xA0, "LDY", 2, 2, AddressingMode::Immediate),
        OpCode::new(0xA4, "LDY", 2, 3, AddressingMode::ZeroPage),
        OpCode::new(0xB4, "LDY", 2, 4, AddressingMode::ZeroPage_X),
        OpCode::new(0xAC, "LDY", 3, 4, AddressingMode::Absolute),
        OpCode::new(0xBC, "LDY", 3, 4, AddressingMode::Absolute_X),
        OpCode::new(0x85, "STA", 2, 3, AddressingMode::ZeroPage),
        OpCode::new(0x95, "STA", 2, 4, AddressingMode::ZeroPage_X),
        OpCode::new(0x8D, "STA", 3, 4, AddressingMode::Absolute),
        OpCode::new(0x9D, "STA", 3, 5, AddressingMode::Absolute_X),
        OpCode::new(0x99, "STA", 3, 5, AddressingMode::Absolute_Y),
        OpCode::new(0x81, "STA", 2, 6, AddressingMode::Indirect_X),
        OpCode::new(0x91, "STA", 2, 6, AddressingMode::Indirect_Y),
        OpCode::new(0x86, "STX", 2, 3, AddressingMode::ZeroPage),
        OpCode::new(0x96, "STX", 2, 4, AddressingMode::ZeroPage_Y),
        OpCode::new(0x8E, "STX", 3, 4, AddressingMode::Absolute),
        OpCode::new(0x84, "STY", 2, 3, AddressingMode::ZeroPage),
        OpCode::new(0x94, "STY", 2, 4, AddressingMode::ZeroPage_X),
        OpCode::new(0x8C, "STY", 3, 4, AddressingMode::Absolute),
        // register transfers
        OpCode::new(0xAA, "TAX", 1, 2, AddressingMode::NoneAddressing),
        OpCode::new(0xA8, "TAY", 1, 2, AddressingMode::NoneAddressing),
        OpCode::new(0x8A, "TXA", 1, 2, AddressingMode::NoneAddressing),
        OpCode::new(0x98, "TYA", 1, 2, AddressingMode::NoneAddressing),
        // stack
        OpCode::new(0xBA, "TSX", 1, 2, AddressingMode::NoneAddressing),
        OpCode::new(0x9A, "TXS", 1, 2, AddressingMode::NoneAddressing),
        OpCode::new(0x48, "PHA", 1, 3, AddressingMode::NoneAddressing),
        OpCode::new(0x08, "PHP", 1, 3, AddressingMode::NoneAddressing),
        OpCode::new(0x68, "PLA", 1, 4, AddressingMode::NoneAddressing),
        OpCode::new(0x28, "PLP", 1, 4, AddressingMode::NoneAddressing),
        // logical
        OpCode::new(0x29, "AND", 2, 2, AddressingMode::Immediate),
        OpCode::new(0x25, "AND", 2, 3, AddressingMode::ZeroPage),
        OpCode::new(0x35, "AND", 2, 4, AddressingMode::ZeroPage_X),
        OpCode::new(0x2D, "AND", 3, 4, AddressingMode::Absolute),
        OpCode::new(0x3D, "AND", 3, 4, AddressingMode::Absolute_X),
        OpCode::new(0x39, "AND", 3, 4, AddressingMode::Absolute_Y),
        OpCode::new(0x21, "AND", 2, 6, AddressingMode::Indirect_X),
        OpCode::new(0x31, "AND", 2, 5, AddressingMode::Indirect_Y),
        OpCode::new(0x49, "EOR", 2, 2, AddressingMode::Immediate),
        OpCode::new(0x45, "EOR", 2, 3, AddressingMode::ZeroPage),
        OpCode::new(0x55, "EOR", 2, 4, AddressingMode::ZeroPage_X),
        OpCode::new(0x4D, "EOR", 3, 4, AddressingMode::Absolute),
        OpCode::new(0x5D, "EOR", 3, 4, AddressingMode::Absolute_X),
        OpCode::new(0x59, "EOR", 3, 4, AddressingMode::Absolute_Y),
        OpCode::new(0x41, "EOR", 2, 6, AddressingMode::Indirect_X),
        OpCode::new(0x51, "EOR", 2, 5, AddressingMode::Indirect_Y),
        OpCode::new(0x09, "ORA", 2, 2, AddressingMode::Immediate),
        OpCode::new(0x05, "ORA", 2, 3, AddressingMode::ZeroPage),
        OpCode::new(0x15, "ORA", 2, 4, AddressingMode::ZeroPage_X),
        OpCode::new(0x0D, "ORA", 3, 4, AddressingMode::Absolute),
        OpCode::new(0x1D, "ORA", 3, 4, AddressingMode::Absolute_X),
        OpCode::new(0x19, "ORA", 3, 4, AddressingMode::Absolute_Y),
        OpCode::new(0x01, "ORA", 2, 6, AddressingMode::Indirect_X),
        OpCode::new(0x11, "ORA", 2, 5, AddressingMode::Indirect_Y),
        OpCode::new(0x24, "BIT", 2, 3, AddressingMode::ZeroPage),
        OpCode::new(0x2C, "BIT", 3, 4, AddressingMode::Absolute),
        // arithmetic
        OpCode::new(0x69, "ADC", 2, 2, AddressingMode::Immediate),
        OpCode::new(0x65, "ADC", 2, 3, AddressingMode::ZeroPage),
        OpCode::new(0x75, "ADC", 2, 4, AddressingMode::ZeroPage_X),
        OpCode::new(0x6D, "ADC", 3, 4, AddressingMode::Absolute),
        OpCode::new(0x7D, "ADC", 3, 4, AddressingMode::Absolute_X),
        OpCode::new(0x79, "ADC", 3, 4, AddressingMode::Absolute_Y),
        OpCode::new(0x61, "ADC", 2, 6, AddressingMode::Indirect_X),
        OpCode::new(0x71, "ADC", 2, 5, AddressingMode::Indirect_Y),
        OpCode::new(0xE9, "SBC", 2, 2, AddressingMode::Immediate),
        OpCode::new(0xE5, "SBC", 2, 3, AddressingMode::ZeroPage),
        OpCode::new(0xF5, "SBC", 2, 4, AddressingMode::ZeroPage_X),
        OpCode::new(0xED, "SBC", 3, 4, AddressingMode::Absolute),
        OpCode::new(0xFD, "SBC", 3, 4, AddressingMode::Absolute_X),
        OpCode::new(0xF9, "SBC", 3, 4, AddressingMode::Absolute_Y),
        OpCode::new(0xE1, "SBC", 2, 6, AddressingMode::Indirect_X),
        OpCode::new(0xF1, "SBC", 2, 5, AddressingMode::Indirect_Y),
        OpCode::new(0xC9, "CMP", 2, 2, AddressingMode::Immediate),
        OpCode::new(0xC5, "CMP", 2, 3, AddressingMode::ZeroPage),
        OpCode::new(0xD5, "CMP", 2, 4, AddressingMode::ZeroPage_X),
        OpCode::new(0xCD, "CMP", 3, 4, AddressingMode::Absolute),
        OpCode::new(0xDD, "CMP", 3, 4, AddressingMode::Absolute_X),
        OpCode::new(0xD9, "CMP", 3, 4, AddressingMode::Absolute_Y),
        OpCode::new(0xC1, "CMP", 2, 6, AddressingMode::Indirect_X),
        OpCode::new(0xD1, "CMP", 2, 5, AddressingMode::Indirect_Y),
        OpCode::new(0xE0, "CPX", 2, 2, AddressingMode::Immediate),
        OpCode::new(0xE4, "CPX", 2, 3, AddressingMode::ZeroPage),
        OpCode::new(0xEC, "CPX", 3, 4, AddressingMode::Absolute),
        OpCode::new(0xC0, "CPY", 2, 2, AddressingMode::Immediate),
        OpCode::new(0xC4, "CPY", 2, 3, AddressingMode::ZeroPage),
        OpCode::new(0xCC, "CPY", 3, 4, AddressingMode::Absolute),
        // increments and decrements
        OpCode::new(0xE6, "INC", 2, 5, AddressingMode::ZeroPage),
        OpCode::new(0xF6, "INC", 2, 6, AddressingMode::ZeroPage_X),
        OpCode::new(0xEE, "INC", 3, 6, AddressingMode::Absolute),
        OpCode::new(0xFE, "INC", 3, 7, AddressingMode::Absolute_X),
        OpCode::new(0xE8, "INX", 1, 2, AddressingMode::NoneAddressing),
        OpCode::new(0xC8, "INY", 1, 2, AddressingMode::NoneAddressing),
        OpCode::new(0xC6, "DEC", 2, 5, AddressingMode::ZeroPage),
        OpCode::new(0xD6, "DEC", 2, 6, AddressingMode::ZeroPage_X),
        OpCode::new(0xCE, "DEC", 3, 6, AddressingMode::Absolute),
        OpCode::new(0xDE, "DEC", 3, 7, AddressingMode::Absolute_X),
        OpCode::new(0xCA, "DEX", 1, 2, AddressingMode::NoneAddressing),
        OpCode::new(0x88, "DEY", 1, 2, AddressingMode::NoneAddressing),
        // shifts
        OpCode::new(0x0A, "ASL", 1, 2, AddressingMode::NoneAddressing),
        OpCode::new(0x06, "ASL", 2, 5, AddressingMode::ZeroPage),
        OpCode::new(0x16, "ASL", 2, 6, AddressingMode::ZeroPage_X),
        OpCode::new(0x0E, "ASL", 3, 6, AddressingMode::Absolute),
        OpCode::new(0x1E, "ASL", 3, 7, AddressingMode::Absolute_X),
        OpCode::new(0x4A, "LSR", 1, 2, AddressingMode::NoneAddressing),
        OpCode::new(0x46, "LSR", 2, 5, AddressingMode::ZeroPage),
        OpCode::new(0x56, "LSR", 2, 6, AddressingMode::ZeroPage_X),
        OpCode::new(0x4E, "LSR", 3, 6, AddressingMode::Absolute),
        OpCode::new(0x5E, "LSR", 3, 7, AddressingMode::Absolute_X),
        OpCode::new(0x2A, "ROL", 1, 2, AddressingMode::NoneAddressing),
        OpCode::new(0x26, "ROL", 2, 5, AddressingMode::ZeroPage),
        OpCode::new(0x36, "ROL", 2, 6, AddressingMode::ZeroPage_X),
        OpCode::new(0x2E, "ROL", 3, 6, AddressingMode::Absolute),
        OpCode::new(0x3E, "ROL", 3, 7, AddressingMode::Absolute_X),
        OpCode::new(0x6A, "ROR", 1, 2, AddressingMode::NoneAddressing),
        OpCode::new(0x66, "ROR", 2, 5, AddressingMode::ZeroPage),
        OpCode::new(0x76, "ROR", 2, 6, AddressingMode::ZeroPage_X),
        OpCode::new(0x6E, "ROR", 3, 6, AddressingMode::Absolute),
        OpCode::new(0x7E, "ROR", 3, 7, AddressingMode::Absolute_X),
        // jumps and calls
        OpCode::new(0x4C, "JMP", 3, 3, AddressingMode::Absolute),
        OpCode::new(0x6C, "JMP", 3, 5, AddressingMode::NoneAddressing),
        OpCode::new(0x20, "JSR", 3, 6, AddressingMode::Absolute),
        OpCode::new(0x60, "RTS", 1, 6, AddressingMode::NoneAddressing),
        // branches
        OpCode::new(0x90, "BCC", 2, 2, AddressingMode::NoneAddressing),
        OpCode::new(0xB0, "BCS", 2, 2, AddressingMode::NoneAddressing),
        OpCode::new(0xF0, "BEQ", 2, 2, AddressingMode::NoneAddressing),
        OpCode::new(0x30, "BMI", 2, 2, AddressingMode::NoneAddressing),
        OpCode::new(0xD0, "BNE", 2, 2, AddressingMode::NoneAddressing),
        OpCode::new(0x10, "BPL", 2, 2, AddressingMode::NoneAddressing),
        OpCode::new(0x50, "BVC", 2, 2, AddressingMode::NoneAddressing),
        OpCode::new(0x70, "BVS", 2, 2, AddressingMode::NoneAddressing),
        // status flag changes
        OpCode::new(0x18, "CLC", 1, 2, AddressingMode::NoneAddressing),
        OpCode::new(0xD8, "CLD", 1, 2, AddressingMode::NoneAddressing),
        OpCode::new(0x58, "CLI", 1, 2, AddressingMode::NoneAddressing),
        OpCode::new(0xB8, "CLV", 1, 2, AddressingMode::NoneAddressing),
        OpCode::new(0x38, "SEC", 1, 2, AddressingMode::NoneAddressing),
        OpCode::new(0xF8, "SED", 1, 2, AddressingMode::NoneAddressing),
        OpCode::new(0x78, "SEI", 1, 2, AddressingMode::NoneAddressing),
        // system
        OpCode::new(0x00, "BRK", 1, 7, AddressingMode::NoneAddressing),
        OpCode::new(0xEA, "NOP", 1, 2, AddressingMode::NoneAddressing),
        OpCode::new(0x40, "RTI", 1, 6, AddressingMode::NoneAddressing),
        // undocumented
        OpCode::new(0x04, "DOP", 2, 3, AddressingMode::ZeroPage),
        OpCode::new(0x14, "DOP", 2, 4, AddressingMode::ZeroPage_X),
        OpCode::new(0x34, "DOP", 2, 4, AddressingMode::ZeroPage_X),
        OpCode::new(0x44, "DOP", 2, 3, AddressingMode::ZeroPage),
        OpCode::new(0x54, "DOP", 2, 4, AddressingMode::ZeroPage_X),
        OpCode::new(0x64, "DOP", 2, 3, AddressingMode::ZeroPage),
        OpCode::new(0x74, "DOP", 2, 4, AddressingMode::ZeroPage_X),
        OpCode::new(0x80, "DOP", 2, 2, AddressingMode::Immediate),
        OpCode::new(0x82, "DOP", 2, 2, AddressingMode::Immediate),
        OpCode::new(0x89, "DOP", 2, 2, AddressingMode::Immediate),
        OpCode::new(0xC2, "DOP", 2, 2, AddressingMode::Immediate),
        OpCode::new(0xD4, "DOP", 2, 4, AddressingMode::ZeroPage_X),
        OpCode::new(0xE2, "DOP", 2, 2, AddressingMode::Immediate),
        OpCode::new(0xF4, "DOP", 2, 4, AddressingMode::ZeroPage_X),
        OpCode::new(0x0C, "TOP", 3, 4, AddressingMode::Absolute),
        OpCode::new(0x1C, "TOP", 3, 4, AddressingMode::Absolute_X),
        OpCode::new(0x3C, "TOP", 3, 4, AddressingMode::Absolute_X),
        OpCode::new(0x5C, "TOP", 3, 4, AddressingMode::Absolute_X),
        OpCode::new(0x7C, "TOP", 3, 4, AddressingMode::Absolute_X),
        OpCode::new(0xDC, "TOP", 3, 4, AddressingMode::Absolute_X),
        OpCode::new(0xFC, "TOP", 3, 4, AddressingMode::Absolute_X),
        OpCode::new(0x1A, "NOP", 1, 2, AddressingMode::NoneAddressing),
        OpCode::new(0x3A, "NOP", 1, 2, AddressingMode::NoneAddressing),
        OpCode::new(0x5A, "NOP", 1, 2, AddressingMode::NoneAddressing),
        OpCode::new(0x7A, "NOP", 1, 2, AddressingMode::NoneAddressing),
        OpCode::new(0xDA, "NOP", 1, 2, AddressingMode::NoneAddressing),
        OpCode::new(0xFA, "NOP", 1, 2, AddressingMode::NoneAddressing),
        OpCode::new(0xA7, "LAX", 2, 3, AddressingMode::ZeroPage),
        OpCode::new(0xB7, "LAX", 2, 4, AddressingMode::ZeroPage_Y),
        OpCode::new(0xAF, "LAX", 3, 4, AddressingMode::Absolute),
        OpCode::new(0xBF, "LAX", 3, 4, AddressingMode::Absolute_Y),
        OpCode::new(0xA3, "LAX", 2, 6, AddressingMode::Indirect_X),
        OpCode::new(0xB3, "LAX", 2, 5, AddressingMode::Indirect_Y),
        OpCode::new(0x87, "AAX", 2, 3, AddressingMode::ZeroPage),
        OpCode::new(0x97, "AAX", 2, 4, AddressingMode::ZeroPage_Y),
        OpCode::new(0x83, "AAX", 2, 6, AddressingMode::Indirect_X),
        OpCode::new(0x8F, "AAX", 3, 4, AddressingMode::Absolute),
        OpCode::new(0xEB, "SBC", 2, 2, AddressingMode::Immediate),
        OpCode::new(0xC7, "DCP", 2, 5, AddressingMode::ZeroPage),
        OpCode::new(0xD7, "DCP", 2, 6, AddressingMode::ZeroPage_X),
        OpCode::new(0xCF, "DCP", 3, 6, AddressingMode::Absolute),
        OpCode::new(0xDF, "DCP", 3, 7, AddressingMode::Absolute_X),
        OpCode::new(0xDB, "DCP", 3, 7, AddressingMode::Absolute_Y),
        OpCode::new(0xC3, "DCP", 2, 8, AddressingMode::Indirect_X),
        OpCode::new(0xD3, "DCP", 2, 8, AddressingMode::Indirect_Y),
        OpCode::new(0xE7, "ISC", 2, 5, AddressingMode::ZeroPage),
        OpCode::new(0xF7, "ISC", 2, 6, AddressingMode::ZeroPage_X),
        OpCode::new(0xEF, "ISC", 3, 6, AddressingMode::Absolute),
        OpCode::new(0xFF, "ISC", 3, 7, AddressingMode::Absolute_X),
        OpCode::new(0xFB, "ISC", 3, 7, AddressingMode::Absolute_Y),
        OpCode::new(0xE3, "ISC", 2, 8, AddressingMode::Indirect_X),
        OpCode::new(0xF3, "ISC", 2, 8, AddressingMode::Indirect_Y),
        OpCode::new(0x07, "SLO", 2, 5, AddressingMode::ZeroPage),
        OpCode::new(0x17, "SLO", 2, 6, AddressingMode::ZeroPage_X),
        OpCode::new(0x0F, "SLO", 3, 6, AddressingMode::Absolute),
        OpCode::new(0x1F, "SLO", 3, 7, AddressingMode::Absolute_X),
        OpCode::new(0x1B, "SLO", 3, 7, AddressingMode::Absolute_Y),
        OpCode::new(0x03, "SLO", 2, 8, AddressingMode::Indirect_X),
        OpCode::new(0x13, "SLO", 2, 8, AddressingMode::Indirect_Y),
    ];
    proof {
        reveal(descriptor);
        reveal_with_fuel(listed, 10);
        assert forall|code: u8| descriptor(code).is_some() implies exists|i: int|
            0 <= i < table@.len() && #[trigger] table@[i].code == code by {
            assert(listed(table@, 0, 210, code));
            lemma_listed_has_index(table@, 0, 210, code);
        }
    }
    table
}

/// A `hashbrown::HashMap` from opcode bytes to descriptors. Nothing is
/// proved of its inside: what it holds is known only as `index_entries`,
/// through the contracts of `index_new`, `index_insert` and `index_get`.
#[verifier::external_body]
pub struct OpcodeIndex {
    map: hashbrown::HashMap<u8, OpCode>,
}

/// What an `OpcodeIndex` holds: the descriptor stored under each key.
pub uninterp spec fn index_entries(index: OpcodeIndex) -> Map<u8, OpCode>;

/// `hashbrown::HashMap::new`: a map that holds nothing.
#[verifier::external_body]
fn index_new() -> (index: OpcodeIndex)
    ensures
        forall|code: u8| !index_entries(index).contains_key(code),
{
    OpcodeIndex { map: hashbrown::HashMap::new() }
}

/// `hashbrown::HashMap::insert`: afterwards `code` maps to `op`, whether
/// or not it was a key before, and every other key is as it was.
#[verifier::external_body]
fn index_insert(index: &mut OpcodeIndex, code: u8, op: OpCode)
    ensures
        index_entries(*final(index)) == index_entries(*old(index)).insert(code, op),
{
    index.map.insert(code, op);
}

/// `hashbrown::HashMap::get`: the descriptor stored under `code`, or
/// `None` when `code` is no key.
#[verifier::external_body]
fn index_get(index: &OpcodeIndex, code: u8) -> (found: Option<&OpCode>)
    ensures
        found.is_some() == index_entries(*index).contains_key(code),
        found.is_some() ==> *found.unwrap() == index_entries(*index)[code],
{
    index.map.get(&code)
}

/// The opcode table as a map: every defined opcode byte is a key, and
/// its descriptor the value.
pub open spec fn descriptor_map() -> Map<u8, OpCode> {
    Map::new(|code: u8| descriptor(code).is_some(), |code: u8| descriptor(code).unwrap())
}

/// The opcode table indexed by opcode byte. Every value of this type
/// holds the whole table and nothing else.
pub struct OpcodeMap {
    index: OpcodeIndex,
}

impl View for OpcodeMap {
    type V = Map<u8, OpCode>;

    closed spec fn view(&self) -> Map<u8, OpCode> {
        index_entries(self.index)
    }
}

impl OpcodeMap {
    #[verifier::type_invariant]
    spec fn holds_table(self) -> bool {
        forall|code: u8|
            #![trigger descriptor(code)]
            {
                &&& index_entries(self.index).contains_key(code) == descriptor(code).is_some()
                &&& descriptor(code).is_some() ==> index_entries(self.index)[code] == descriptor(
                    code,
                ).unwrap()
            }
    }

    /// Indexes the descriptors of `cpu_ops_codes`.
    pub fn new() -> (map: OpcodeMap)
        ensures
            map@ == descriptor_map(),
    {
        let table = cpu_ops_codes();
        let mut index = index_new();
        let mut i: usize = 0;
        while i < table.len()
            invariant
                i <= table@.len(),
                forall|j: int|
                    0 <= j < table@.len() ==> descriptor(#[trigger] table@[j].code) == Some(
                        table@[j],
                    ),
                forall|code: u8|
                    index_entries(index).contains_key(code) == (exists|j: int|
                        0 <= j < i && #[trigger] table@[j].code == code),
                forall|code: u8|
                    index_entries(index).contains_key(code) ==> descriptor(code) == Some(
                        index_entries(index)[code],
                    ),
            decreases table@.len() - i,
        {
            let op = table[i];
            let ghost before = index_entries(index);
            index_insert(&mut index, op.code, op);
            assert forall|code: u8|
                index_entries(index).contains_key(code) == (exists|j: int|
                    0 <= j < i + 1 && #[trigger] table@[j].code == code) by {
                if code == op.code {
                    assert(table@[i as int].code == code);
                } else if before.contains_key(code) {
                    let j = choose|j: int| 0 <= j < i && #[trigger] table@[j].code == code;
                    assert(table@[j].code == code);
                }
            }
            i = i + 1;
        }
        assert(index_entries(index) =~= descriptor_map());
        OpcodeMap { index }
    }

    /// The descriptor of `code`, or `None` when `code` is no opcode.
    pub fn get(&self, code: u8) -> (found: Option<&OpCode>)
        ensures
            found.is_some() == descriptor(code).is_some(),
            found.is_some() ==> Some(*found.unwrap()) == descriptor(code),
            self@ == descriptor_map(),
    {
        proof {
            use_type_invariant(self);
            assert(index_entries(self.index) =~= descriptor_map());
        }
        index_get(&self.index, code)
    }
}

} // verus!
