//! The instruction table: what each opcode byte stands for.
use vstd::prelude::*;
use crate::cpu::AddressingMode;

verus! {

/// What the table holds for one opcode byte.
#[derive(Clone, Copy, Debug)]
pub struct OpCode {
    /// The opcode byte.
    pub code: u8,
    /// The instruction's three-letter name.
    pub mnemonic: &'static str,
    /// The bytes the instruction takes, opcode byte included.
    pub len: u8,
    /// The processor cycles the instruction takes at least.
    pub cycles: u8,
    /// How the instruction finds its operand. Instructions that work on a
    /// register or on the stack, branches, jumps and calls have
    /// `NoneAddressing`.
    pub mode: AddressingMode,
}

/// The table of the 151 documented instructions. Any other byte is no
/// instruction.
#[verifier::opaque]
pub open spec fn opcode_table(code: u8) -> Option<OpCode> {
    match code {
        0x00 => Some(OpCode { code: 0x00, mnemonic: "BRK", len: 1, cycles: 7, mode: AddressingMode::NoneAddressing }),
        0x01 => Some(OpCode { code: 0x01, mnemonic: "ORA", len: 2, cycles: 6, mode: AddressingMode::Indirect_X }),
        0x05 => Some(OpCode { code: 0x05, mnemonic: "ORA", len: 2, cycles: 3, mode: AddressingMode::ZeroPage }),
        0x06 => Some(OpCode { code: 0x06, mnemonic: "ASL", len: 2, cycles: 5, mode: AddressingMode::ZeroPage }),
        0x08 => Some(OpCode { code: 0x08, mnemonic: "PHP", len: 1, cycles: 3, mode: AddressingMode::NoneAddressing }),
        0x09 => Some(OpCode { code: 0x09, mnemonic: "ORA", len: 2, cycles: 2, mode: AddressingMode::Immediate }),
        0x0a => Some(OpCode { code: 0x0a, mnemonic: "ASL", len: 1, cycles: 2, mode: AddressingMode::NoneAddressing }),
        0x0d => Some(OpCode { code: 0x0d, mnemonic: "ORA", len: 3, cycles: 4, mode: AddressingMode::Absolute }),
        0x0e => Some(OpCode { code: 0x0e, mnemonic: "ASL", len: 3, cycles: 6, mode: AddressingMode::Absolute }),
        0x10 => Some(OpCode { code: 0x10, mnemonic: "BPL", len: 2, cycles: 2, mode: AddressingMode::NoneAddressing }),
        0x11 => Some(OpCode { code: 0x11, mnemonic: "ORA", len: 2, cycles: 5, mode: AddressingMode::Indirect_Y }),
        0x15 => Some(OpCode { code: 0x15, mnemonic: "ORA", len: 2, cycles: 4, mode: AddressingMode::ZeroPage_X }),
        0x16 => Some(OpCode { code: 0x16, mnemonic: "ASL", len: 2, cycles: 6, mode: AddressingMode::ZeroPage_X }),
        0x18 => Some(OpCode { code: 0x18, mnemonic: "CLC", len: 1, cycles: 2, mode: AddressingMode::NoneAddressing }),
        0x19 => Some(OpCode { code: 0x19, mnemonic: "ORA", len: 3, cycles: 4, mode: AddressingMode::Absolute_Y }),
        0x1d => Some(OpCode { code: 0x1d, mnemonic: "ORA", len: 3, cycles: 4, mode: AddressingMode::Absolute_X }),
        0x1e => Some(OpCode { code: 0x1e, mnemonic: "ASL", len: 3, cycles: 7, mode: AddressingMode::Absolute_X }),
        0x20 => Some(OpCode { code: 0x20, mnemonic: "JSR", len: 3, cycles: 6, mode: AddressingMode::NoneAddressing }),
        0x21 => Some(OpCode { code: 0x21, mnemonic: "AND", len: 2, cycles: 6, mode: AddressingMode::Indirect_X }),
        0x24 => Some(OpCode { code: 0x24, mnemonic: "BIT", len: 2, cycles: 3, mode: AddressingMode::ZeroPage }),
        0x25 => Some(OpCode { code: 0x25, mnemonic: "AND", len: 2, cycles: 3, mode: AddressingMode::ZeroPage }),
        0x26 => Some(OpCode { code: 0x26, mnemonic: "ROL", len: 2, cycles: 5, mode: AddressingMode::ZeroPage }),
        0x28 => Some(OpCode { code: 0x28, mnemonic: "PLP", len: 1, cycles: 4, mode: AddressingMode::NoneAddressing }),
        0x29 => Some(OpCode { code: 0x29, mnemonic: "AND", len: 2, cycles: 2, mode: AddressingMode::Immediate }),
        0x2a => Some(OpCode { code: 0x2a, mnemonic: "ROL", len: 1, cycles: 2, mode: AddressingMode::NoneAddressing }),
        0x2c => Some(OpCode { code: 0x2c, mnemonic: "BIT", len: 3, cycles: 4, mode: AddressingMode::Absolute }),
        0x2d => Some(OpCode { code: 0x2d, mnemonic: "AND", len: 3, cycles: 4, mode: AddressingMode::Absolute }),
        0x2e => Some(OpCode { code: 0x2e, mnemonic: "ROL", len: 3, cycles: 6, mode: AddressingMode::Absolute }),
        0x30 => Some(OpCode { code: 0x30, mnemonic: "BMI", len: 2, cycles: 2, mode: AddressingMode::NoneAddressing }),
        0x31 => Some(OpCode { code: 0x31, mnemonic: "AND", len: 2, cycles: 5, mode: AddressingMode::Indirect_Y }),
        0x35 => Some(OpCode { code: 0x35, mnemonic: "AND", len: 2, cycles: 4, mode: AddressingMode::ZeroPage_X }),
        0x36 => Some(OpCode { code: 0x36, mnemonic: "ROL", len: 2, cycles: 6, mode: AddressingMode::ZeroPage_X }),
        0x38 => Some(OpCode { code: 0x38, mnemonic: "SEC", len: 1, cycles: 2, mode: AddressingMode::NoneAddressing }),
        0x39 => Some(OpCode { code: 0x39, mnemonic: "AND", len: 3, cycles: 4, mode: AddressingMode::Absolute_Y }),
        0x3d => Some(OpCode { code: 0x3d, mnemonic: "AND", len: 3, cycles: 4, mode: AddressingMode::Absolute_X }),
        0x3e => Some(OpCode { code: 0x3e, mnemonic: "ROL", len: 3, cycles: 7, mode: AddressingMode::Absolute_X }),
        0x40 => Some(OpCode { code: 0x40, mnemonic: "RTI", len: 1, cycles: 6, mode: AddressingMode::NoneAddressing }),
        0x41 => Some(OpCode { code: 0x41, mnemonic: "EOR", len: 2, cycles: 6, mode: AddressingMode::Indirect_X }),
        0x45 => Some(OpCode { code: 0x45, mnemonic: "EOR", len: 2, cycles: 3, mode: AddressingMode::ZeroPage }),
        0x46 => Some(OpCode { code: 0x46, mnemonic: "LSR", len: 2, cycles: 5, mode: AddressingMode::ZeroPage }),
        0x48 => Some(OpCode { code: 0x48, mnemonic: "PHA", len: 1, cycles: 3, mode: AddressingMode::NoneAddressing }),
        0x49 => Some(OpCode { code: 0x49, mnemonic: "EOR", len: 2, cycles: 2, mode: AddressingMode::Immediate }),
        0x4a => Some(OpCode { code: 0x4a, mnemonic: "LSR", len: 1, cycles: 2, mode: AddressingMode::NoneAddressing }),
        0x4c => Some(OpCode { code: 0x4c, mnemonic: "JMP", len: 3, cycles: 3, mode: AddressingMode::NoneAddressing }),
        0x4d => Some(OpCode { code: 0x4d, mnemonic: "EOR", len: 3, cycles: 4, mode: AddressingMode::Absolute }),
        0x4e => Some(OpCode { code: 0x4e, mnemonic: "LSR", len: 3, cycles: 6, mode: AddressingMode::Absolute }),
        0x50 => Some(OpCode { code: 0x50, mnemonic: "BVC", len: 2, cycles: 2, mode: AddressingMode::NoneAddressing }),
        0x51 => Some(OpCode { code: 0x51, mnemonic: "EOR", len: 2, cycles: 5, mode: AddressingMode::Indirect_Y }),
        0x55 => Some(OpCode { code: 0x55, mnemonic: "EOR", len: 2, cycles: 4, mode: AddressingMode::ZeroPage_X }),
        0x56 => Some(OpCode { code: 0x56, mnemonic: "LSR", len: 2, cycles: 6, mode: AddressingMode::ZeroPage_X }),
        0x58 => Some(OpCode { code: 0x58, mnemonic: "CLI", len: 1, cycles: 2, mode: AddressingMode::NoneAddressing }),
        0x59 => Some(OpCode { code: 0x59, mnemonic: "EOR", len: 3, cycles: 4, mode: AddressingMode::Absolute_Y }),
        0x5d => Some(OpCode { code: 0x5d, mnemonic: "EOR", len: 3, cycles: 4, mode: AddressingMode::Absolute_X }),
        0x5e => Some(OpCode { code: 0x5e, mnemonic: "LSR", len: 3, cycles: 7, mode: AddressingMode::Absolute_X }),
        0x60 => Some(OpCode { code: 0x60, mnemonic: "RTS", len: 1, cycles: 6, mode: AddressingMode::NoneAddressing }),
        0x61 => Some(OpCode { code: 0x61, mnemonic: "ADC", len: 2, cycles: 6, mode: AddressingMode::Indirect_X }),
        0x65 => Some(OpCode { code: 0x65, mnemonic: "ADC", len: 2, cycles: 3, mode: AddressingMode::ZeroPage }),
        0x66 => Some(OpCode { code: 0x66, mnemonic: "ROR", len: 2, cycles: 5, mode: AddressingMode::ZeroPage }),
        0x68 => Some(OpCode { code: 0x68, mnemonic: "PLA", len: 1, cycles: 4, mode: AddressingMode::NoneAddressing }),
        0x69 => Some(OpCode { code: 0x69, mnemonic: "ADC", len: 2, cycles: 2, mode: AddressingMode::Immediate }),
        0x6a => Some(OpCode { code: 0x6a, mnemonic: "ROR", len: 1, cycles: 2, mode: AddressingMode::NoneAddressing }),
        0x6c => Some(OpCode { code: 0x6c, mnemonic: "JMP", len: 3, cycles: 5, mode: AddressingMode::NoneAddressing }),
        0x6d => Some(OpCode { code: 0x6d, mnemonic: "ADC", len: 3, cycles: 4, mode: AddressingMode::Absolute }),
        0x6e => Some(OpCode { code: 0x6e, mnemonic: "ROR", len: 3, cycles: 6, mode: AddressingMode::Absolute }),
        0x70 => Some(OpCode { code: 0x70, mnemonic: "BVS", len: 2, cycles: 2, mode: AddressingMode::NoneAddressing }),
        0x71 => Some(OpCode { code: 0x71, mnemonic: "ADC", len: 2, cycles: 5, mode: AddressingMode::Indirect_Y }),
        0x75 => Some(OpCode { code: 0x75, mnemonic: "ADC", len: 2, cycles: 4, mode: AddressingMode::ZeroPage_X }),
        0x76 => Some(OpCode { code: 0x76, mnemonic: "ROR", len: 2, cycles: 6, mode: AddressingMode::ZeroPage_X }),
        0x78 => Some(OpCode { code: 0x78, mnemonic: "SEI", len: 1, cycles: 2, mode: AddressingMode::NoneAddressing }),
        0x79 => Some(OpCode { code: 0x79, mnemonic: "ADC", len: 3, cycles: 4, mode: AddressingMode::Absolute_Y }),
        0x7d => Some(OpCode { code: 0x7d, mnemonic: "ADC", len: 3, cycles: 4, mode: AddressingMode::Absolute_X }),
        0x7e => Some(OpCode { code: 0x7e, mnemonic: "ROR", len: 3, cycles: 7, mode: AddressingMode::Absolute_X }),
        0x81 => Some(OpCode { code: 0x81, mnemonic: "STA", len: 2, cycles: 6, mode: AddressingMode::Indirect_X }),
        0x84 => Some(OpCode { code: 0x84, mnemonic: "STY", len: 2, cycles: 3, mode: AddressingMode::ZeroPage }),
        0x85 => Some(OpCode { code: 0x85, mnemonic: "STA", len: 2, cycles: 3, mode: AddressingMode::ZeroPage }),
        0x86 => Some(OpCode { code: 0x86, mnemonic: "STX", len: 2, cycles: 3, mode: AddressingMode::ZeroPage }),
        0x88 => Some(OpCode { code: 0x88, mnemonic: "DEY", len: 1, cycles: 2, mode: AddressingMode::NoneAddressing }),
        0x8a => Some(OpCode { code: 0x8a, mnemonic: "TXA", len: 1, cycles: 2, mode: AddressingMode::NoneAddressing }),
        0x8c => Some(OpCode { code: 0x8c, mnemonic: "STY", len: 3, cycles: 4, mode: AddressingMode::Absolute }),
        0x8d => Some(OpCode { code: 0x8d, mnemonic: "STA", len: 3, cycles: 4, mode: AddressingMode::Absolute }),
        0x8e => Some(OpCode { code: 0x8e, mnemonic: "STX", len: 3, cycles: 4, mode: AddressingMode::Absolute }),
        0x90 => Some(OpCode { code: 0x90, mnemonic: "BCC", len: 2, cycles: 2, mode: AddressingMode::NoneAddressing }),
        0x91 => Some(OpCode { code: 0x91, mnemonic: "STA", len: 2, cycles: 6, mode: AddressingMode::Indirect_Y }),
        0x94 => Some(OpCode { code: 0x94, mnemonic: "STY", len: 2, cycles: 4, mode: AddressingMode::ZeroPage_X }),
        0x95 => Some(OpCode { code: 0x95, mnemonic: "STA", len: 2, cycles: 4, mode: AddressingMode::ZeroPage_X }),
        0x96 => Some(OpCode { code: 0x96, mnemonic: "STX", len: 2, cycles: 4, mode: AddressingMode::ZeroPage_Y }),
        0x98 => Some(OpCode { code: 0x98, mnemonic: "TYA", len: 1, cycles: 2, mode: AddressingMode::NoneAddressing }),
        0x99 => Some(OpCode { code: 0x99, mnemonic: "STA", len: 3, cycles: 5, mode: AddressingMode::Absolute_Y }),
        0x9a => Some(OpCode { code: 0x9a, mnemonic: "TXS", len: 1, cycles: 2, mode: AddressingMode::NoneAddressing }),
        0x9d => Some(OpCode { code: 0x9d, mnemonic: "STA", len: 3, cycles: 5, mode: AddressingMode::Absolute_X }),
        0xa0 => Some(OpCode { code: 0xa0, mnemonic: "LDY", len: 2, cycles: 2, mode: AddressingMode::Immediate }),
        0xa1 => Some(OpCode { code: 0xa1, mnemonic: "LDA", len: 2, cycles: 6, mode: AddressingMode::Indirect_X }),
        0xa2 => Some(OpCode { code: 0xa2, mnemonic: "LDX", len: 2, cycles: 2, mode: AddressingMode::Immediate }),
        0xa4 => Some(OpCode { code: 0xa4, mnemonic: "LDY", len: 2, cycles: 3, mode: AddressingMode::ZeroPage }),
        0xa5 => Some(OpCode { code: 0xa5, mnemonic: "LDA", len: 2, cycles: 3, mode: AddressingMode::ZeroPage }),
        0xa6 => Some(OpCode { code: 0xa6, mnemonic: "LDX", len: 2, cycles: 3, mode: AddressingMode::ZeroPage }),
        0xa8 => Some(OpCode { code: 0xa8, mnemonic: "TAY", len: 1, cycles: 2, mode: AddressingMode::NoneAddressing }),
        0xa9 => Some(OpCode { code: 0xa9, mnemonic: "LDA", len: 2, cycles: 2, mode: AddressingMode::Immediate }),
        0xaa => Some(OpCode { code: 0xaa, mnemonic: "TAX", len: 1, cycles: 2, mode: AddressingMode::NoneAddressing }),
        0xac => Some(OpCode { code: 0xac, mnemonic: "LDY", len: 3, cycles: 4, mode: AddressingMode::Absolute }),
        0xad => Some(OpCode { code: 0xad, mnemonic: "LDA", len: 3, cycles: 4, mode: AddressingMode::Absolute }),
        0xae => Some(OpCode { code: 0xae, mnemonic: "LDX", len: 3, cycles: 4, mode: AddressingMode::Absolute }),
        0xb0 => Some(OpCode { code: 0xb0, mnemonic: "BCS", len: 2, cycles: 2, mode: AddressingMode::NoneAddressing }),
        0xb1 => Some(OpCode { code: 0xb1, mnemonic: "LDA", len: 2, cycles: 5, mode: AddressingMode::Indirect_Y }),
        0xb4 => Some(OpCode { code: 0xb4, mnemonic: "LDY", len: 2, cycles: 4, mode: AddressingMode::ZeroPage_X }),
        0xb5 => Some(OpCode { code: 0xb5, mnemonic: "LDA", len: 2, cycles: 4, mode: AddressingMode::ZeroPage_X }),
        0xb6 => Some(OpCode { code: 0xb6, mnemonic: "LDX", len: 2, cycles: 4, mode: AddressingMode::ZeroPage_Y }),
        0xb8 => Some(OpCode { code: 0xb8, mnemonic: "CLV", len: 1, cycles: 2, mode: AddressingMode::NoneAddressing }),
        0xb9 => Some(OpCode { code: 0xb9, mnemonic: "LDA", len: 3, cycles: 4, mode: AddressingMode::Absolute_Y }),
        0xba => Some(OpCode { code: 0xba, mnemonic: "TSX", len: 1, cycles: 2, mode: AddressingMode::NoneAddressing }),
        0xbc => Some(OpCode { code: 0xbc, mnemonic: "LDY", len: 3, cycles: 4, mode: AddressingMode::Absolute_X }),
        0xbd => Some(OpCode { code: 0xbd, mnemonic: "LDA", len: 3, cycles: 4, mode: AddressingMode::Absolute_X }),
        0xbe => Some(OpCode { code: 0xbe, mnemonic: "LDX", len: 3, cycles: 4, mode: AddressingMode::Absolute_Y }),
        0xc0 => Some(OpCode { code: 0xc0, mnemonic: "CPY", len: 2, cycles: 2, mode: AddressingMode::Immediate }),
        0xc1 => Some(OpCode { code: 0xc1, mnemonic: "CMP", len: 2, cycles: 6, mode: AddressingMode::Indirect_X }),
        0xc4 => Some(OpCode { code: 0xc4, mnemonic: "CPY", len: 2, cycles: 3, mode: AddressingMode::ZeroPage }),
        0xc5 => Some(OpCode { code: 0xc5, mnemonic: "CMP", len: 2, cycles: 3, mode: AddressingMode::ZeroPage }),
        0xc6 => Some(OpCode { code: 0xc6, mnemonic: "DEC", len: 2, cycles: 5, mode: AddressingMode::ZeroPage }),
        0xc8 => Some(OpCode { code: 0xc8, mnemonic: "INY", len: 1, cycles: 2, mode: AddressingMode::NoneAddressing }),
        0xc9 => Some(OpCode { code: 0xc9, mnemonic: "CMP", len: 2, cycles: 2, mode: AddressingMode::Immediate }),
        0xca => Some(OpCode { code: 0xca, mnemonic: "DEX", len: 1, cycles: 2, mode: AddressingMode::NoneAddressing }),
        0xcc => Some(OpCode { code: 0xcc, mnemonic: "CPY", len: 3, cycles: 4, mode: AddressingMode::Absolute }),
        0xcd => Some(OpCode { code: 0xcd, mnemonic: "CMP", len: 3, cycles: 4, mode: AddressingMode::Absolute }),
        0xce => Some(OpCode { code: 0xce, mnemonic: "DEC", len: 3, cycles: 6, mode: AddressingMode::Absolute }),
        0xd0 => Some(OpCode { code: 0xd0, mnemonic: "BNE", len: 2, cycles: 2, mode: AddressingMode::NoneAddressing }),
        0xd1 => Some(OpCode { code: 0xd1, mnemonic: "CMP", len: 2, cycles: 5, mode: AddressingMode::Indirect_Y }),
        0xd5 => Some(OpCode { code: 0xd5, mnemonic: "CMP", len: 2, cycles: 4, mode: AddressingMode::ZeroPage_X }),
        0xd6 => Some(OpCode { code: 0xd6, mnemonic: "DEC", len: 2, cycles: 6, mode: AddressingMode::ZeroPage_X }),
        0xd8 => Some(OpCode { code: 0xd8, mnemonic: "CLD", len: 1, cycles: 2, mode: AddressingMode::NoneAddressing }),
        0xd9 => Some(OpCode { code: 0xd9, mnemonic: "CMP", len: 3, cycles: 4, mode: AddressingMode::Absolute_Y }),
        0xdd => Some(OpCode { code: 0xdd, mnemonic: "CMP", len: 3, cycles: 4, mode: AddressingMode::Absolute_X }),
        0xde => Some(OpCode { code: 0xde, mnemonic: "DEC", len: 3, cycles: 7, mode: AddressingMode::Absolute_X }),
        0xe0 => Some(OpCode { code: 0xe0, mnemonic: "CPX", len: 2, cycles: 2, mode: AddressingMode::Immediate }),
        0xe1 => Some(OpCode { code: 0xe1, mnemonic: "SBC", len: 2, cycles: 6, mode: AddressingMode::Indirect_X }),
        0xe4 => Some(OpCode { code: 0xe4, mnemonic: "CPX", len: 2, cycles: 3, mode: AddressingMode::ZeroPage }),
        0xe5 => Some(OpCode { code: 0xe5, mnemonic: "SBC", len: 2, cycles: 3, mode: AddressingMode::ZeroPage }),
        0xe6 => Some(OpCode { code: 0xe6, mnemonic: "INC", len: 2, cycles: 5, mode: AddressingMode::ZeroPage }),
        0xe8 => Some(OpCode { code: 0xe8, mnemonic: "INX", len: 1, cycles: 2, mode: AddressingMode::NoneAddressing }),
        0xe9 => Some(OpCode { code: 0xe9, mnemonic: "SBC", len: 2, cycles: 2, mode: AddressingMode::Immediate }),
        0xea => Some(OpCode { code: 0xea, mnemonic: "NOP", len: 1, cycles: 2, mode: AddressingMode::NoneAddressing }),
        0xec => Some(OpCode { code: 0xec, mnemonic: "CPX", len: 3, cycles: 4, mode: AddressingMode::Absolute }),
        0xed => Some(OpCode { code: 0xed, mnemonic: "SBC", len: 3, cycles: 4, mode: AddressingMode::Absolute }),
        0xee => Some(OpCode { code: 0xee, mnemonic: "INC", len: 3, cycles: 6, mode: AddressingMode::Absolute }),
        0xf0 => Some(OpCode { code: 0xf0, mnemonic: "BEQ", len: 2, cycles: 2, mode: AddressingMode::NoneAddressing }),
        0xf1 => Some(OpCode { code: 0xf1, mnemonic: "SBC", len: 2, cycles: 5, mode: AddressingMode::Indirect_Y }),
        0xf5 => Some(OpCode { code: 0xf5, mnemonic: "SBC", len: 2, cycles: 4, mode: AddressingMode::ZeroPage_X }),
        0xf6 => Some(OpCode { code: 0xf6, mnemonic: "INC", len: 2, cycles: 6, mode: AddressingMode::ZeroPage_X }),
        0xf8 => Some(OpCode { code: 0xf8, mnemonic: "SED", len: 1, cycles: 2, mode: AddressingMode::NoneAddressing }),
        0xf9 => Some(OpCode { code: 0xf9, mnemonic: "SBC", len: 3, cycles: 4, mode: AddressingMode::Absolute_Y }),
        0xfd => Some(OpCode { code: 0xfd, mnemonic: "SBC", len: 3, cycles: 4, mode: AddressingMode::Absolute_X }),
        0xfe => Some(OpCode { code: 0xfe, mnemonic: "INC", len: 3, cycles: 7, mode: AddressingMode::Absolute_X }),
        _ => None,
    }
}

/// Whether `code` is the opcode of an instruction that names an operand
/// in memory.
pub open spec fn takes_operand(code: u8) -> bool {
    match code {
        0x01 | 0x05 | 0x06 | 0x09 | 0x0d | 0x0e | 0x11 | 0x15 | 0x16 | 0x19
        | 0x1d | 0x1e | 0x21 | 0x24 | 0x25 | 0x26 | 0x29 | 0x2c | 0x2d | 0x2e
        | 0x31 | 0x35 | 0x36 | 0x39 | 0x3d | 0x3e | 0x41 | 0x45 | 0x46 | 0x49
        | 0x4d | 0x4e | 0x51 | 0x55 | 0x56 | 0x59 | 0x5d | 0x5e | 0x61 | 0x65
        | 0x66 | 0x69 | 0x6d | 0x6e | 0x71 | 0x75 | 0x76 | 0x79 | 0x7d | 0x7e
        | 0x81 | 0x84 | 0x85 | 0x86 | 0x8c | 0x8d | 0x8e | 0x91 | 0x94 | 0x95
        | 0x96 | 0x99 | 0x9d | 0xa0 | 0xa1 | 0xa2 | 0xa4 | 0xa5 | 0xa6 | 0xa9
        | 0xac | 0xad | 0xae | 0xb1 | 0xb4 | 0xb5 | 0xb6 | 0xb9 | 0xbc | 0xbd
        | 0xbe | 0xc0 | 0xc1 | 0xc4 | 0xc5 | 0xc6 | 0xc9 | 0xcc | 0xcd | 0xce
        | 0xd1 | 0xd5 | 0xd6 | 0xd9 | 0xdd | 0xde | 0xe0 | 0xe1 | 0xe4 | 0xe5
        | 0xe6 | 0xe9 | 0xec | 0xed | 0xee | 0xf1 | 0xf5 | 0xf6 | 0xf9 | 0xfd
        | 0xfe => true,
        _ => false,
    }
}

/// The instructions that name an operand in memory are those of the table
/// with an addressing mode.
pub proof fn lemma_operand_modes(code: u8)
    ensures
        takes_operand(code) <==> (opcode_table(code) matches Some(op) && op.mode
            != AddressingMode::NoneAddressing),
{
    reveal(opcode_table);
}

/// The bytes an instruction takes follow from its addressing mode, and
/// every entry is filed under its own opcode byte.
pub proof fn lemma_table_shape(code: u8)
    requires
        opcode_table(code) is Some,
    ensures
        ({
            let op = opcode_table(code)->Some_0;
            &&& op.code == code
            &&& 1 <= op.len <= 3
            &&& 2 <= op.cycles <= 7
            &&& match op.mode {
                AddressingMode::Immediate
                | AddressingMode::ZeroPage
                | AddressingMode::ZeroPage_X
                | AddressingMode::ZeroPage_Y
                | AddressingMode::Indirect_X
                | AddressingMode::Indirect_Y => op.len == 2,
                AddressingMode::Absolute
                | AddressingMode::Absolute_X
                | AddressingMode::Absolute_Y => op.len == 3,
                AddressingMode::NoneAddressing => true,
            }
        }),
{
    reveal(opcode_table);
}

/// Every name in the table has three letters.
pub proof fn lemma_mnemonic_len(code: u8)
    requires
        opcode_table(code) is Some,
    ensures
        opcode_table(code)->Some_0.mnemonic@.len() == 3,
{
    reveal(opcode_table);
    reveal_strlit("ADC");
    reveal_strlit("AND");
    reveal_strlit("ASL");
    reveal_strlit("BCC");
    reveal_strlit("BCS");
    reveal_strlit("BEQ");
    reveal_strlit("BIT");
    reveal_strlit("BMI");
    reveal_strlit("BNE");
    reveal_strlit("BPL");
    reveal_strlit("BRK");
    reveal_strlit("BVC");
    reveal_strlit("BVS");
    reveal_strlit("CLC");
    reveal_strlit("CLD");
    reveal_strlit("CLI");
    reveal_strlit("CLV");
    reveal_strlit("CMP");
    reveal_strlit("CPX");
    reveal_strlit("CPY");
    reveal_strlit("DEC");
    reveal_strlit("DEX");
    reveal_strlit("DEY");
    reveal_strlit("EOR");
    reveal_strlit("INC");
    reveal_strlit("INX");
    reveal_strlit("INY");
    reveal_strlit("JMP");
    reveal_strlit("JSR");
    reveal_strlit("LDA");
    reveal_strlit("LDX");
    reveal_strlit("LDY");
    reveal_strlit("LSR");
    reveal_strlit("NOP");
    reveal_strlit("ORA");
    reveal_strlit("PHA");
    reveal_strlit("PHP");
    reveal_strlit("PLA");
    reveal_strlit("PLP");
    reveal_strlit("ROL");
    reveal_strlit("ROR");
    reveal_strlit("RTI");
    reveal_strlit("RTS");
    reveal_strlit("SBC");
    reveal_strlit("SEC");
    reveal_strlit("SED");
    reveal_strlit("SEI");
    reveal_strlit("STA");
    reveal_strlit("STX");
    reveal_strlit("STY");
    reveal_strlit("TAX");
    reveal_strlit("TAY");
    reveal_strlit("TSX");
    reveal_strlit("TXA");
    reveal_strlit("TXS");
    reveal_strlit("TYA");
}

/// Looks an opcode byte up in the table.
pub fn lookup(code: u8) -> (found: Option<OpCode>)
    ensures
        found == opcode_table(code),
{
    reveal(opcode_table);
    match code {
        0x00 => Some(OpCode { code: 0x00, mnemonic: "BRK", len: 1, cycles: 7, mode: AddressingMode::NoneAddressing }),
        0x01 => Some(OpCode { code: 0x01, mnemonic: "ORA", len: 2, cycles: 6, mode: AddressingMode::Indirect_X }),
        0x05 => Some(OpCode { code: 0x05, mnemonic: "ORA", len: 2, cycles: 3, mode: AddressingMode::ZeroPage }),
        0x06 => Some(OpCode { code: 0x06, mnemonic: "ASL", len: 2, cycles: 5, mode: AddressingMode::ZeroPage }),
        0x08 => Some(OpCode { code: 0x08, mnemonic: "PHP", len: 1, cycles: 3, mode: AddressingMode::NoneAddressing }),
        0x09 => Some(OpCode { code: 0x09, mnemonic: "ORA", len: 2, cycles: 2, mode: AddressingMode::Immediate }),
        0x0a => Some(OpCode { code: 0x0a, mnemonic: "ASL", len: 1, cycles: 2, mode: AddressingMode::NoneAddressing }),
        0x0d => Some(OpCode { code: 0x0d, mnemonic: "ORA", len: 3, cycles: 4, mode: AddressingMode::Absolute }),
        0x0e => Some(OpCode { code: 0x0e, mnemonic: "ASL", len: 3, cycles: 6, mode: AddressingMode::Absolute }),
        0x10 => Some(OpCode { code: 0x10, mnemonic: "BPL", len: 2, cycles: 2, mode: AddressingMode::NoneAddressing }),
        0x11 => Some(OpCode { code: 0x11, mnemonic: "ORA", len: 2, cycles: 5, mode: AddressingMode::Indirect_Y }),
        0x15 => Some(OpCode { code: 0x15, mnemonic: "ORA", len: 2, cycles: 4, mode: AddressingMode::ZeroPage_X }),
        0x16 => Some(OpCode { code: 0x16, mnemonic: "ASL", len: 2, cycles: 6, mode: AddressingMode::ZeroPage_X }),
        0x18 => Some(OpCode { code: 0x18, mnemonic: "CLC", len: 1, cycles: 2, mode: AddressingMode::NoneAddressing }),
        0x19 => Some(OpCode { code: 0x19, mnemonic: "ORA", len: 3, cycles: 4, mode: AddressingMode::Absolute_Y }),
        0x1d => Some(OpCode { code: 0x1d, mnemonic: "ORA", len: 3, cycles: 4, mode: AddressingMode::Absolute_X }),
        0x1e => Some(OpCode { code: 0x1e, mnemonic: "ASL", len: 3, cycles: 7, mode: AddressingMode::Absolute_X }),
        0x20 => Some(OpCode { code: 0x20, mnemonic: "JSR", len: 3, cycles: 6, mode: AddressingMode::NoneAddressing }),
        0x21 => Some(OpCode { code: 0x21, mnemonic: "AND", len: 2, cycles: 6, mode: AddressingMode::Indirect_X }),
        0x24 => Some(OpCode { code: 0x24, mnemonic: "BIT", len: 2, cycles: 3, mode: AddressingMode::ZeroPage }),
        0x25 => Some(OpCode { code: 0x25, mnemonic: "AND", len: 2, cycles: 3, mode: AddressingMode::ZeroPage }),
        0x26 => Some(OpCode { code: 0x26, mnemonic: "ROL", len: 2, cycles: 5, mode: AddressingMode::ZeroPage }),
        0x28 => Some(OpCode { code: 0x28, mnemonic: "PLP", len: 1, cycles: 4, mode: AddressingMode::NoneAddressing }),
        0x29 => Some(OpCode { code: 0x29, mnemonic: "AND", len: 2, cycles: 2, mode: AddressingMode::Immediate }),
        0x2a => Some(OpCode { code: 0x2a, mnemonic: "ROL", len: 1, cycles: 2, mode: AddressingMode::NoneAddressing }),
        0x2c => Some(OpCode { code: 0x2c, mnemonic: "BIT", len: 3, cycles: 4, mode: AddressingMode::Absolute }),
        0x2d => Some(OpCode { code: 0x2d, mnemonic: "AND", len: 3, cycles: 4, mode: AddressingMode::Absolute }),
        0x2e => Some(OpCode { code: 0x2e, mnemonic: "ROL", len: 3, cycles: 6, mode: AddressingMode::Absolute }),
        0x30 => Some(OpCode { code: 0x30, mnemonic: "BMI", len: 2, cycles: 2, mode: AddressingMode::NoneAddressing }),
        0x31 => Some(OpCode { code: 0x31, mnemonic: "AND", len: 2, cycles: 5, mode: AddressingMode::Indirect_Y }),
        0x35 => Some(OpCode { code: 0x35, mnemonic: "AND", len: 2, cycles: 4, mode: AddressingMode::ZeroPage_X }),
        0x36 => Some(OpCode { code: 0x36, mnemonic: "ROL", len: 2, cycles: 6, mode: AddressingMode::ZeroPage_X }),
        0x38 => Some(OpCode { code: 0x38, mnemonic: "SEC", len: 1, cycles: 2, mode: AddressingMode::NoneAddressing }),
        0x39 => Some(OpCode { code: 0x39, mnemonic: "AND", len: 3, cycles: 4, mode: AddressingMode::Absolute_Y }),
        0x3d => Some(OpCode { code: 0x3d, mnemonic: "AND", len: 3, cycles: 4, mode: AddressingMode::Absolute_X }),
        0x3e => Some(OpCode { code: 0x3e, mnemonic: "ROL", len: 3, cycles: 7, mode: AddressingMode::Absolute_X }),
        0x40 => Some(OpCode { code: 0x40, mnemonic: "RTI", len: 1, cycles: 6, mode: AddressingMode::NoneAddressing }),
        0x41 => Some(OpCode { code: 0x41, mnemonic: "EOR", len: 2, cycles: 6, mode: AddressingMode::Indirect_X }),
        0x45 => Some(OpCode { code: 0x45, mnemonic: "EOR", len: 2, cycles: 3, mode: AddressingMode::ZeroPage }),
        0x46 => Some(OpCode { code: 0x46, mnemonic: "LSR", len: 2, cycles: 5, mode: AddressingMode::ZeroPage }),
        0x48 => Some(OpCode { code: 0x48, mnemonic: "PHA", len: 1, cycles: 3, mode: AddressingMode::NoneAddressing }),
        0x49 => Some(OpCode { code: 0x49, mnemonic: "EOR", len: 2, cycles: 2, mode: AddressingMode::Immediate }),
        0x4a => Some(OpCode { code: 0x4a, mnemonic: "LSR", len: 1, cycles: 2, mode: AddressingMode::NoneAddressing }),
        0x4c => Some(OpCode { code: 0x4c, mnemonic: "JMP", len: 3, cycles: 3, mode: AddressingMode::NoneAddressing }),
        0x4d => Some(OpCode { code: 0x4d, mnemonic: "EOR", len: 3, cycles: 4, mode: AddressingMode::Absolute }),
        0x4e => Some(OpCode { code: 0x4e, mnemonic: "LSR", len: 3, cycles: 6, mode: AddressingMode::Absolute }),
        0x50 => Some(OpCode { code: 0x50, mnemonic: "BVC", len: 2, cycles: 2, mode: AddressingMode::NoneAddressing }),
        0x51 => Some(OpCode { code: 0x51, mnemonic: "EOR", len: 2, cycles: 5, mode: AddressingMode::Indirect_Y }),
        0x55 => Some(OpCode { code: 0x55, mnemonic: "EOR", len: 2, cycles: 4, mode: AddressingMode::ZeroPage_X }),
        0x56 => Some(OpCode { code: 0x56, mnemonic: "LSR", len: 2, cycles: 6, mode: AddressingMode::ZeroPage_X }),
        0x58 => Some(OpCode { code: 0x58, mnemonic: "CLI", len: 1, cycles: 2, mode: AddressingMode::NoneAddressing }),
        0x59 => Some(OpCode { code: 0x59, mnemonic: "EOR", len: 3, cycles: 4, mode: AddressingMode::Absolute_Y }),
        0x5d => Some(OpCode { code: 0x5d, mnemonic: "EOR", len: 3, cycles: 4, mode: AddressingMode::Absolute_X }),
        0x5e => Some(OpCode { code: 0x5e, mnemonic: "LSR", len: 3, cycles: 7, mode: AddressingMode::Absolute_X }),
        0x60 => Some(OpCode { code: 0x60, mnemonic: "RTS", len: 1, cycles: 6, mode: AddressingMode::NoneAddressing }),
        0x61 => Some(OpCode { code: 0x61, mnemonic: "ADC", len: 2, cycles: 6, mode: AddressingMode::Indirect_X }),
        0x65 => Some(OpCode { code: 0x65, mnemonic: "ADC", len: 2, cycles: 3, mode: AddressingMode::ZeroPage }),
        0x66 => Some(OpCode { code: 0x66, mnemonic: "ROR", len: 2, cycles: 5, mode: AddressingMode::ZeroPage }),
        0x68 => Some(OpCode { code: 0x68, mnemonic: "PLA", len: 1, cycles: 4, mode: AddressingMode::NoneAddressing }),
        0x69 => Some(OpCode { code: 0x69, mnemonic: "ADC", len: 2, cycles: 2, mode: AddressingMode::Immediate }),
        0x6a => Some(OpCode { code: 0x6a, mnemonic: "ROR", len: 1, cycles: 2, mode: AddressingMode::NoneAddressing }),
        0x6c => Some(OpCode { code: 0x6c, mnemonic: "JMP", len: 3, cycles: 5, mode: AddressingMode::NoneAddressing }),
        0x6d => Some(OpCode { code: 0x6d, mnemonic: "ADC", len: 3, cycles: 4, mode: AddressingMode::Absolute }),
        0x6e => Some(OpCode { code: 0x6e, mnemonic: "ROR", len: 3, cycles: 6, mode: AddressingMode::Absolute }),
        0x70 => Some(OpCode { code: 0x70, mnemonic: "BVS", len: 2, cycles: 2, mode: AddressingMode::NoneAddressing }),
        0x71 => Some(OpCode { code: 0x71, mnemonic: "ADC", len: 2, cycles: 5, mode: AddressingMode::Indirect_Y }),
        0x75 => Some(OpCode { code: 0x75, mnemonic: "ADC", len: 2, cycles: 4, mode: AddressingMode::ZeroPage_X }),
        0x76 => Some(OpCode { code: 0x76, mnemonic: "ROR", len: 2, cycles: 6, mode: AddressingMode::ZeroPage_X }),
        0x78 => Some(OpCode { code: 0x78, mnemonic: "SEI", len: 1, cycles: 2, mode: AddressingMode::NoneAddressing }),
        0x79 => Some(OpCode { code: 0x79, mnemonic: "ADC", len: 3, cycles: 4, mode: AddressingMode::Absolute_Y }),
        0x7d => Some(OpCode { code: 0x7d, mnemonic: "ADC", len: 3, cycles: 4, mode: AddressingMode::Absolute_X }),
        0x7e => Some(OpCode { code: 0x7e, mnemonic: "ROR", len: 3, cycles: 7, mode: AddressingMode::Absolute_X }),
        0x81 => Some(OpCode { code: 0x81, mnemonic: "STA", len: 2, cycles: 6, mode: AddressingMode::Indirect_X }),
        0x84 => Some(OpCode { code: 0x84, mnemonic: "STY", len: 2, cycles: 3, mode: AddressingMode::ZeroPage }),
        0x85 => Some(OpCode { code: 0x85, mnemonic: "STA", len: 2, cycles: 3, mode: AddressingMode::ZeroPage }),
        0x86 => Some(OpCode { code: 0x86, mnemonic: "STX", len: 2, cycles: 3, mode: AddressingMode::ZeroPage }),
        0x88 => Some(OpCode { code: 0x88, mnemonic: "DEY", len: 1, cycles: 2, mode: AddressingMode::NoneAddressing }),
        0x8a => Some(OpCode { code: 0x8a, mnemonic: "TXA", len: 1, cycles: 2, mode: AddressingMode::NoneAddressing }),
        0x8c => Some(OpCode { code: 0x8c, mnemonic: "STY", len: 3, cycles: 4, mode: AddressingMode::Absolute }),
        0x8d => Some(OpCode { code: 0x8d, mnemonic: "STA", len: 3, cycles: 4, mode: AddressingMode::Absolute }),
        0x8e => Some(OpCode { code: 0x8e, mnemonic: "STX", len: 3, cycles: 4, mode: AddressingMode::Absolute }),
        0x90 => Some(OpCode { code: 0x90, mnemonic: "BCC", len: 2, cycles: 2, mode: AddressingMode::NoneAddressing }),
        0x91 => Some(OpCode { code: 0x91, mnemonic: "STA", len: 2, cycles: 6, mode: AddressingMode::Indirect_Y }),
        0x94 => Some(OpCode { code: 0x94, mnemonic: "STY", len: 2, cycles: 4, mode: AddressingMode::ZeroPage_X }),
        0x95 => Some(OpCode { code: 0x95, mnemonic: "STA", len: 2, cycles: 4, mode: AddressingMode::ZeroPage_X }),
        0x96 => Some(OpCode { code: 0x96, mnemonic: "STX", len: 2, cycles: 4, mode: AddressingMode::ZeroPage_Y }),
        0x98 => Some(OpCode { code: 0x98, mnemonic: "TYA", len: 1, cycles: 2, mode: AddressingMode::NoneAddressing }),
        0x99 => Some(OpCode { code: 0x99, mnemonic: "STA", len: 3, cycles: 5, mode: AddressingMode::Absolute_Y }),
        0x9a => Some(OpCode { code: 0x9a, mnemonic: "TXS", len: 1, cycles: 2, mode: AddressingMode::NoneAddressing }),
        0x9d => Some(OpCode { code: 0x9d, mnemonic: "STA", len: 3, cycles: 5, mode: AddressingMode::Absolute_X }),
        0xa0 => Some(OpCode { code: 0xa0, mnemonic: "LDY", len: 2, cycles: 2, mode: AddressingMode::Immediate }),
        0xa1 => Some(OpCode { code: 0xa1, mnemonic: "LDA", len: 2, cycles: 6, mode: AddressingMode::Indirect_X }),
        0xa2 => Some(OpCode { code: 0xa2, mnemonic: "LDX", len: 2, cycles: 2, mode: AddressingMode::Immediate }),
        0xa4 => Some(OpCode { code: 0xa4, mnemonic: "LDY", len: 2, cycles: 3, mode: AddressingMode::ZeroPage }),
        0xa5 => Some(OpCode { code: 0xa5, mnemonic: "LDA", len: 2, cycles: 3, mode: AddressingMode::ZeroPage }),
        0xa6 => Some(OpCode { code: 0xa6, mnemonic: "LDX", len: 2, cycles: 3, mode: AddressingMode::ZeroPage }),
        0xa8 => Some(OpCode { code: 0xa8, mnemonic: "TAY", len: 1, cycles: 2, mode: AddressingMode::NoneAddressing }),
        0xa9 => Some(OpCode { code: 0xa9, mnemonic: "LDA", len: 2, cycles: 2, mode: AddressingMode::Immediate }),
        0xaa => Some(OpCode { code: 0xaa, mnemonic: "TAX", len: 1, cycles: 2, mode: AddressingMode::NoneAddressing }),
        0xac => Some(OpCode { code: 0xac, mnemonic: "LDY", len: 3, cycles: 4, mode: AddressingMode::Absolute }),
        0xad => Some(OpCode { code: 0xad, mnemonic: "LDA", len: 3, cycles: 4, mode: AddressingMode::Absolute }),
        0xae => Some(OpCode { code: 0xae, mnemonic: "LDX", len: 3, cycles: 4, mode: AddressingMode::Absolute }),
        0xb0 => Some(OpCode { code: 0xb0, mnemonic: "BCS", len: 2, cycles: 2, mode: AddressingMode::NoneAddressing }),
        0xb1 => Some(OpCode { code: 0xb1, mnemonic: "LDA", len: 2, cycles: 5, mode: AddressingMode::Indirect_Y }),
        0xb4 => Some(OpCode { code: 0xb4, mnemonic: "LDY", len: 2, cycles: 4, mode: AddressingMode::ZeroPage_X }),
        0xb5 => Some(OpCode { code: 0xb5, mnemonic: "LDA", len: 2, cycles: 4, mode: AddressingMode::ZeroPage_X }),
        0xb6 => Some(OpCode { code: 0xb6, mnemonic: "LDX", len: 2, cycles: 4, mode: AddressingMode::ZeroPage_Y }),
        0xb8 => Some(OpCode { code: 0xb8, mnemonic: "CLV", len: 1, cycles: 2, mode: AddressingMode::NoneAddressing }),
        0xb9 => Some(OpCode { code: 0xb9, mnemonic: "LDA", len: 3, cycles: 4, mode: AddressingMode::Absolute_Y }),
        0xba => Some(OpCode { code: 0xba, mnemonic: "TSX", len: 1, cycles: 2, mode: AddressingMode::NoneAddressing }),
        0xbc => Some(OpCode { code: 0xbc, mnemonic: "LDY", len: 3, cycles: 4, mode: AddressingMode::Absolute_X }),
        0xbd => Some(OpCode { code: 0xbd, mnemonic: "LDA", len: 3, cycles: 4, mode: AddressingMode::Absolute_X }),
        0xbe => Some(OpCode { code: 0xbe, mnemonic: "LDX", len: 3, cycles: 4, mode: AddressingMode::Absolute_Y }),
        0xc0 => Some(OpCode { code: 0xc0, mnemonic: "CPY", len: 2, cycles: 2, mode: AddressingMode::Immediate }),
        0xc1 => Some(OpCode { code: 0xc1, mnemonic: "CMP", len: 2, cycles: 6, mode: AddressingMode::Indirect_X }),
        0xc4 => Some(OpCode { code: 0xc4, mnemonic: "CPY", len: 2, cycles: 3, mode: AddressingMode::ZeroPage }),
        0xc5 => Some(OpCode { code: 0xc5, mnemonic: "CMP", len: 2, cycles: 3, mode: AddressingMode::ZeroPage }),
        0xc6 => Some(OpCode { code: 0xc6, mnemonic: "DEC", len: 2, cycles: 5, mode: AddressingMode::ZeroPage }),
        0xc8 => Some(OpCode { code: 0xc8, mnemonic: "INY", len: 1, cycles: 2, mode: AddressingMode::NoneAddressing }),
        0xc9 => Some(OpCode { code: 0xc9, mnemonic: "CMP", len: 2, cycles: 2, mode: AddressingMode::Immediate }),
        0xca => Some(OpCode { code: 0xca, mnemonic: "DEX", len: 1, cycles: 2, mode: AddressingMode::NoneAddressing }),
        0xcc => Some(OpCode { code: 0xcc, mnemonic: "CPY", len: 3, cycles: 4, mode: AddressingMode::Absolute }),
        0xcd => Some(OpCode { code: 0xcd, mnemonic: "CMP", len: 3, cycles: 4, mode: AddressingMode::Absolute }),
        0xce => Some(OpCode { code: 0xce, mnemonic: "DEC", len: 3, cycles: 6, mode: AddressingMode::Absolute }),
        0xd0 => Some(OpCode { code: 0xd0, mnemonic: "BNE", len: 2, cycles: 2, mode: AddressingMode::NoneAddressing }),
        0xd1 => Some(OpCode { code: 0xd1, mnemonic: "CMP", len: 2, cycles: 5, mode: AddressingMode::Indirect_Y }),
        0xd5 => Some(OpCode { code: 0xd5, mnemonic: "CMP", len: 2, cycles: 4, mode: AddressingMode::ZeroPage_X }),
        0xd6 => Some(OpCode { code: 0xd6, mnemonic: "DEC", len: 2, cycles: 6, mode: AddressingMode::ZeroPage_X }),
        0xd8 => Some(OpCode { code: 0xd8, mnemonic: "CLD", len: 1, cycles: 2, mode: AddressingMode::NoneAddressing }),
        0xd9 => Some(OpCode { code: 0xd9, mnemonic: "CMP", len: 3, cycles: 4, mode: AddressingMode::Absolute_Y }),
        0xdd => Some(OpCode { code: 0xdd, mnemonic: "CMP", len: 3, cycles: 4, mode: AddressingMode::Absolute_X }),
        0xde => Some(OpCode { code: 0xde, mnemonic: "DEC", len: 3, cycles: 7, mode: AddressingMode::Absolute_X }),
        0xe0 => Some(OpCode { code: 0xe0, mnemonic: "CPX", len: 2, cycles: 2, mode: AddressingMode::Immediate }),
        0xe1 => Some(OpCode { code: 0xe1, mnemonic: "SBC", len: 2, cycles: 6, mode: AddressingMode::Indirect_X }),
        0xe4 => Some(OpCode { code: 0xe4, mnemonic: "CPX", len: 2, cycles: 3, mode: AddressingMode::ZeroPage }),
        0xe5 => Some(OpCode { code: 0xe5, mnemonic: "SBC", len: 2, cycles: 3, mode: AddressingMode::ZeroPage }),
        0xe6 => Some(OpCode { code: 0xe6, mnemonic: "INC", len: 2, cycles: 5, mode: AddressingMode::ZeroPage }),
        0xe8 => Some(OpCode { code: 0xe8, mnemonic: "INX", len: 1, cycles: 2, mode: AddressingMode::NoneAddressing }),
        0xe9 => Some(OpCode { code: 0xe9, mnemonic: "SBC", len: 2, cycles: 2, mode: AddressingMode::Immediate }),
        0xea => Some(OpCode { code: 0xea, mnemonic: "NOP", len: 1, cycles: 2, mode: AddressingMode::NoneAddressing }),
        0xec => Some(OpCode { code: 0xec, mnemonic: "CPX", len: 3, cycles: 4, mode: AddressingMode::Absolute }),
        0xed => Some(OpCode { code: 0xed, mnemonic: "SBC", len: 3, cycles: 4, mode: AddressingMode::Absolute }),
        0xee => Some(OpCode { code: 0xee, mnemonic: "INC", len: 3, cycles: 6, mode: AddressingMode::Absolute }),
        0xf0 => Some(OpCode { code: 0xf0, mnemonic: "BEQ", len: 2, cycles: 2, mode: AddressingMode::NoneAddressing }),
        0xf1 => Some(OpCode { code: 0xf1, mnemonic: "SBC", len: 2, cycles: 5, mode: AddressingMode::Indirect_Y }),
        0xf5 => Some(OpCode { code: 0xf5, mnemonic: "SBC", len: 2, cycles: 4, mode: AddressingMode::ZeroPage_X }),
        0xf6 => Some(OpCode { code: 0xf6, mnemonic: "INC", len: 2, cycles: 6, mode: AddressingMode::ZeroPage_X }),
        0xf8 => Some(OpCode { code: 0xf8, mnemonic: "SED", len: 1, cycles: 2, mode: AddressingMode::NoneAddressing }),
        0xf9 => Some(OpCode { code: 0xf9, mnemonic: "SBC", len: 3, cycles: 4, mode: AddressingMode::Absolute_Y }),
        0xfd => Some(OpCode { code: 0xfd, mnemonic: "SBC", len: 3, cycles: 4, mode: AddressingMode::Absolute_X }),
        0xfe => Some(OpCode { code: 0xfe, mnemonic: "INC", len: 3, cycles: 7, mode: AddressingMode::Absolute_X }),
        _ => None,
    }
}

} // verus!
