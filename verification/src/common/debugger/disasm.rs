//! A disassembler for 6502 machine code, as the debugger shows it.
use crate::common::debugger::dap_types::DisassembledInstruction;
use crate::common::debugger::protocol::{
    ascii_chars, decimal_digits, digits_value, lemma_decimal_digits, IntErrorKind,
};
use crate::common::test_utils::hex_digit;
use crate::common::debugger::protocol::decimal_bytes;
use crate::common::test_utils::as_single_hex_digit;
use crate::cpu::{add16, MachineInspector};
use crate::text::push_char;
use vstd::prelude::*;

verus! {

#[derive(Clone, Copy, Debug, PartialEq, Eq, Structural)]
pub enum AddressingMode {
    Accumulator,
    Immediate,
    Implied,
    Relative,
    Absolute,
    ZeroPage,
    Indirect,
    AbsoluteIndexedX,
    AbsoluteIndexedY,
    ZeroPageIndexedX,
    ZeroPageIndexedY,
    ZeroPageXIndirect,
    ZeroPageIndirectY,
}

/// Encapsulates an instruction argument for a given addressing mode.
#[derive(Clone, Copy, Debug, PartialEq, Eq, Structural)]
pub enum Argument {
    Accumulator,
    Immediate(u8),
    Implied,
    Relative(u8),
    Absolute(u16),
    ZeroPage(u8),
    Indirect(u16),
    AbsoluteIndexedX(u16),
    AbsoluteIndexedY(u16),
    ZeroPageIndexedX(u8),
    ZeroPageIndexedY(u8),
    ZeroPageXIndirect(u8),
    ZeroPageIndirectY(u8),
}

/// The three letters that name an instruction.
#[derive(Clone, Copy, Debug, PartialEq, Eq, Structural)]
pub struct Mnemonic(pub char, pub char, pub char);

/// The mnemonic and the addressing mode of an opcode.
#[derive(Clone, Copy, Debug, PartialEq, Eq, Structural)]
pub struct InstructionDescriptor {
    pub mnemonic: Mnemonic,
    pub addressing_mode: AddressingMode,
}

/// An instruction as read from memory. Bytes that are no instruction have no
/// descriptor and no argument.
#[derive(Clone, Copy, Debug, PartialEq, Eq, Structural)]
pub struct Instruction {
    pub opcode: u8,
    pub argument: Option<Argument>,
    pub descriptor: Option<InstructionDescriptor>,
}

/// The documented instructions of the 6502, by opcode.
pub open spec fn opcode_descriptor(opcode: u8) -> Option<InstructionDescriptor> {
    match opcode {
        0x00 => Some(InstructionDescriptor { mnemonic: Mnemonic('B', 'R', 'K'), addressing_mode: AddressingMode::Implied }),
        0x01 => Some(InstructionDescriptor { mnemonic: Mnemonic('O', 'R', 'A'), addressing_mode: AddressingMode::ZeroPageXIndirect }),
        0x05 => Some(InstructionDescriptor { mnemonic: Mnemonic('O', 'R', 'A'), addressing_mode: AddressingMode::ZeroPage }),
        0x06 => Some(InstructionDescriptor { mnemonic: Mnemonic('A', 'S', 'L'), addressing_mode: AddressingMode::ZeroPage }),
        0x08 => Some(InstructionDescriptor { mnemonic: Mnemonic('P', 'H', 'P'), addressing_mode: AddressingMode::Implied }),
        0x09 => Some(InstructionDescriptor { mnemonic: Mnemonic('O', 'R', 'A'), addressing_mode: AddressingMode::Immediate }),
        0x0A => Some(InstructionDescriptor { mnemonic: Mnemonic('A', 'S', 'L'), addressing_mode: AddressingMode::Accumulator }),
        0x0D => Some(InstructionDescriptor { mnemonic: Mnemonic('O', 'R', 'A'), addressing_mode: AddressingMode::Absolute }),
        0x0E => Some(InstructionDescriptor { mnemonic: Mnemonic('A', 'S', 'L'), addressing_mode: AddressingMode::Absolute }),
        0x10 => Some(InstructionDescriptor { mnemonic: Mnemonic('B', 'P', 'L'), addressing_mode: AddressingMode::Relative }),
        0x11 => Some(InstructionDescriptor { mnemonic: Mnemonic('O', 'R', 'A'), addressing_mode: AddressingMode::ZeroPageIndirectY }),
        0x15 => Some(InstructionDescriptor { mnemonic: Mnemonic('O', 'R', 'A'), addressing_mode: AddressingMode::ZeroPageIndexedX }),
        0x16 => Some(InstructionDescriptor { mnemonic: Mnemonic('A', 'S', 'L'), addressing_mode: AddressingMode::ZeroPageIndexedX }),
        0x18 => Some(InstructionDescriptor { mnemonic: Mnemonic('C', 'L', 'C'), addressing_mode: AddressingMode::Implied }),
        0x19 => Some(InstructionDescriptor { mnemonic: Mnemonic('O', 'R', 'A'), addressing_mode: AddressingMode::AbsoluteIndexedY }),
        0x1D => Some(InstructionDescriptor { mnemonic: Mnemonic('O', 'R', 'A'), addressing_mode: AddressingMode::AbsoluteIndexedX }),
        0x1E => Some(InstructionDescriptor { mnemonic: Mnemonic('A', 'S', 'L'), addressing_mode: AddressingMode::AbsoluteIndexedX }),
        0x20 => Some(InstructionDescriptor { mnemonic: Mnemonic('J', 'S', 'R'), addressing_mode: AddressingMode::Absolute }),
        0x21 => Some(InstructionDescriptor { mnemonic: Mnemonic('A', 'N', 'D'), addressing_mode: AddressingMode::ZeroPageXIndirect }),
        0x24 => Some(InstructionDescriptor { mnemonic: Mnemonic('B', 'I', 'T'), addressing_mode: AddressingMode::ZeroPage }),
        0x25 => Some(InstructionDescriptor { mnemonic: Mnemonic('A', 'N', 'D'), addressing_mode: AddressingMode::ZeroPage }),
        0x26 => Some(InstructionDescriptor { mnemonic: Mnemonic('R', 'O', 'L'), addressing_mode: AddressingMode::ZeroPage }),
        0x28 => Some(InstructionDescriptor { mnemonic: Mnemonic('P', 'L', 'P'), addressing_mode: AddressingMode::Implied }),
        0x29 => Some(InstructionDescriptor { mnemonic: Mnemonic('A', 'N', 'D'), addressing_mode: AddressingMode::Immediate }),
        0x2A => Some(InstructionDescriptor { mnemonic: Mnemonic('R', 'O', 'L'), addressing_mode: AddressingMode::Accumulator }),
        0x2C => Some(InstructionDescriptor { mnemonic: Mnemonic('B', 'I', 'T'), addressing_mode: AddressingMode::Absolute }),
        0x2D => Some(InstructionDescriptor { mnemonic: Mnemonic('A', 'N', 'D'), addressing_mode: AddressingMode::Absolute }),
        0x2E => Some(InstructionDescriptor { mnemonic: Mnemonic('R', 'O', 'L'), addressing_mode: AddressingMode::Absolute }),
        0x30 => Some(InstructionDescriptor { mnemonic: Mnemonic('B', 'M', 'I'), addressing_mode: AddressingMode::Relative }),
        0x31 => Some(InstructionDescriptor { mnemonic: Mnemonic('A', 'N', 'D'), addressing_mode: AddressingMode::ZeroPageIndirectY }),
        0x35 => Some(InstructionDescriptor { mnemonic: Mnemonic('A', 'N', 'D'), addressing_mode: AddressingMode::ZeroPageIndexedX }),
        0x36 => Some(InstructionDescriptor { mnemonic: Mnemonic('R', 'O', 'L'), addressing_mode: AddressingMode::ZeroPageIndexedX }),
        0x38 => Some(InstructionDescriptor { mnemonic: Mnemonic('S', 'E', 'C'), addressing_mode: AddressingMode::Implied }),
        0x39 => Some(InstructionDescriptor { mnemonic: Mnemonic('A', 'N', 'D'), addressing_mode: AddressingMode::AbsoluteIndexedY }),
        0x3D => Some(InstructionDescriptor { mnemonic: Mnemonic('A', 'N', 'D'), addressing_mode: AddressingMode::AbsoluteIndexedX }),
        0x3E => Some(InstructionDescriptor { mnemonic: Mnemonic('R', 'O', 'L'), addressing_mode: AddressingMode::AbsoluteIndexedX }),
        0x40 => Some(InstructionDescriptor { mnemonic: Mnemonic('R', 'T', 'I'), addressing_mode: AddressingMode::Implied }),
        0x41 => Some(InstructionDescriptor { mnemonic: Mnemonic('E', 'O', 'R'), addressing_mode: AddressingMode::ZeroPageXIndirect }),
        0x45 => Some(InstructionDescriptor { mnemonic: Mnemonic('E', 'O', 'R'), addressing_mode: AddressingMode::ZeroPage }),
        0x46 => Some(InstructionDescriptor { mnemonic: Mnemonic('L', 'S', 'R'), addressing_mode: AddressingMode::ZeroPage }),
        0x48 => Some(InstructionDescriptor { mnemonic: Mnemonic('P', 'H', 'A'), addressing_mode: AddressingMode::Implied }),
        0x49 => Some(InstructionDescriptor { mnemonic: Mnemonic('E', 'O', 'R'), addressing_mode: AddressingMode::Immediate }),
        0x4A => Some(InstructionDescriptor { mnemonic: Mnemonic('L', 'S', 'R'), addressing_mode: AddressingMode::Accumulator }),
        0x4C => Some(InstructionDescriptor { mnemonic: Mnemonic('J', 'M', 'P'), addressing_mode: AddressingMode::Absolute }),
        0x4D => Some(InstructionDescriptor { mnemonic: Mnemonic('E', 'O', 'R'), addressing_mode: AddressingMode::Absolute }),
        0x4E => Some(InstructionDescriptor { mnemonic: Mnemonic('L', 'S', 'R'), addressing_mode: AddressingMode::Absolute }),
        0x50 => Some(InstructionDescriptor { mnemonic: Mnemonic('B', 'V', 'C'), addressing_mode: AddressingMode::Relative }),
        0x51 => Some(InstructionDescriptor { mnemonic: Mnemonic('E', 'O', 'R'), addressing_mode: AddressingMode::ZeroPageIndirectY }),
        0x55 => Some(InstructionDescriptor { mnemonic: Mnemonic('E', 'O', 'R'), addressing_mode: AddressingMode::ZeroPageIndexedX }),
        0x56 => Some(InstructionDescriptor { mnemonic: Mnemonic('L', 'S', 'R'), addressing_mode: AddressingMode::ZeroPageIndexedX }),
        0x58 => Some(InstructionDescriptor { mnemonic: Mnemonic('C', 'L', 'I'), addressing_mode: AddressingMode::Implied }),
        0x59 => Some(InstructionDescriptor { mnemonic: Mnemonic('E', 'O', 'R'), addressing_mode: AddressingMode::AbsoluteIndexedY }),
        0x5D => Some(InstructionDescriptor { mnemonic: Mnemonic('E', 'O', 'R'), addressing_mode: AddressingMode::AbsoluteIndexedX }),
        0x5E => Some(InstructionDescriptor { mnemonic: Mnemonic('L', 'S', 'R'), addressing_mode: AddressingMode::AbsoluteIndexedX }),
        0x60 => Some(InstructionDescriptor { mnemonic: Mnemonic('R', 'T', 'S'), addressing_mode: AddressingMode::Implied }),
        0x61 => Some(InstructionDescriptor { mnemonic: Mnemonic('A', 'D', 'C'), addressing_mode: AddressingMode::ZeroPageXIndirect }),
        0x65 => Some(InstructionDescriptor { mnemonic: Mnemonic('A', 'D', 'C'), addressing_mode: AddressingMode::ZeroPage }),
        0x66 => Some(InstructionDescriptor { mnemonic: Mnemonic('R', 'O', 'R'), addressing_mode: AddressingMode::ZeroPage }),
        0x68 => Some(InstructionDescriptor { mnemonic: Mnemonic('P', 'L', 'A'), addressing_mode: AddressingMode::Implied }),
        0x69 => Some(InstructionDescriptor { mnemonic: Mnemonic('A', 'D', 'C'), addressing_mode: AddressingMode::Immediate }),
        0x6A => Some(InstructionDescriptor { mnemonic: Mnemonic('R', 'O', 'R'), addressing_mode: AddressingMode::Accumulator }),
        0x6C => Some(InstructionDescriptor { mnemonic: Mnemonic('J', 'M', 'P'), addressing_mode: AddressingMode::Indirect }),
        0x6D => Some(InstructionDescriptor { mnemonic: Mnemonic('A', 'D', 'C'), addressing_mode: AddressingMode::Absolute }),
        0x6E => Some(InstructionDescriptor { mnemonic: Mnemonic('R', 'O', 'R'), addressing_mode: AddressingMode::Absolute }),
        0x70 => Some(InstructionDescriptor { mnemonic: Mnemonic('B', 'V', 'S'), addressing_mode: AddressingMode::Relative }),
        0x71 => Some(InstructionDescriptor { mnemonic: Mnemonic('A', 'D', 'C'), addressing_mode: AddressingMode::ZeroPageIndirectY }),
        0x75 => Some(InstructionDescriptor { mnemonic: Mnemonic('A', 'D', 'C'), addressing_mode: AddressingMode::ZeroPageIndexedX }),
        0x76 => Some(InstructionDescriptor { mnemonic: Mnemonic('R', 'O', 'R'), addressing_mode: AddressingMode::ZeroPageIndexedX }),
        0x78 => Some(InstructionDescriptor { mnemonic: Mnemonic('S', 'E', 'I'), addressing_mode: AddressingMode::Implied }),
        0x79 => Some(InstructionDescriptor { mnemonic: Mnemonic('A', 'D', 'C'), addressing_mode: AddressingMode::AbsoluteIndexedY }),
        0x7D => Some(InstructionDescriptor { mnemonic: Mnemonic('A', 'D', 'C'), addressing_mode: AddressingMode::AbsoluteIndexedX }),
        0x7E => Some(InstructionDescriptor { mnemonic: Mnemonic('R', 'O', 'R'), addressing_mode: AddressingMode::AbsoluteIndexedX }),
        0x81 => Some(InstructionDescriptor { mnemonic: Mnemonic('S', 'T', 'A'), addressing_mode: AddressingMode::ZeroPageXIndirect }),
        0x84 => Some(InstructionDescriptor { mnemonic: Mnemonic('S', 'T', 'Y'), addressing_mode: AddressingMode::ZeroPage }),
        0x85 => Some(InstructionDescriptor { mnemonic: Mnemonic('S', 'T', 'A'), addressing_mode: AddressingMode::ZeroPage }),
        0x86 => Some(InstructionDescriptor { mnemonic: Mnemonic('S', 'T', 'X'), addressing_mode: AddressingMode::ZeroPage }),
        0x88 => Some(InstructionDescriptor { mnemonic: Mnemonic('D', 'E', 'Y'), addressing_mode: AddressingMode::Implied }),
        0x8A => Some(InstructionDescriptor { mnemonic: Mnemonic('T', 'X', 'A'), addressing_mode: AddressingMode::Implied }),
        0x8C => Some(InstructionDescriptor { mnemonic: Mnemonic('S', 'T', 'Y'), addressing_mode: AddressingMode::Absolute }),
        0x8D => Some(InstructionDescriptor { mnemonic: Mnemonic('S', 'T', 'A'), addressing_mode: AddressingMode::Absolute }),
        0x8E => Some(InstructionDescriptor { mnemonic: Mnemonic('S', 'T', 'X'), addressing_mode: AddressingMode::Absolute }),
        0x90 => Some(InstructionDescriptor { mnemonic: Mnemonic('B', 'C', 'C'), addressing_mode: AddressingMode::Relative }),
        0x91 => Some(InstructionDescriptor { mnemonic: Mnemonic('S', 'T', 'A'), addressing_mode: AddressingMode::ZeroPageIndirectY }),
        0x94 => Some(InstructionDescriptor { mnemonic: Mnemonic('S', 'T', 'Y'), addressing_mode: AddressingMode::ZeroPageIndexedX }),
        0x95 => Some(InstructionDescriptor { mnemonic: Mnemonic('S', 'T', 'A'), addressing_mode: AddressingMode::ZeroPageIndexedX }),
        0x96 => Some(InstructionDescriptor { mnemonic: Mnemonic('S', 'T', 'X'), addressing_mode: AddressingMode::ZeroPageIndexedY }),
        0x98 => Some(InstructionDescriptor { mnemonic: Mnemonic('T', 'Y', 'A'), addressing_mode: AddressingMode::Implied }),
        0x99 => Some(InstructionDescriptor { mnemonic: Mnemonic('S', 'T', 'A'), addressing_mode: AddressingMode::AbsoluteIndexedY }),
        0x9A => Some(InstructionDescriptor { mnemonic: Mnemonic('T', 'X', 'S'), addressing_mode: AddressingMode::Implied }),
        0x9D => Some(InstructionDescriptor { mnemonic: Mnemonic('S', 'T', 'A'), addressing_mode: AddressingMode::AbsoluteIndexedX }),
        0xA0 => Some(InstructionDescriptor { mnemonic: Mnemonic('L', 'D', 'Y'), addressing_mode: AddressingMode::Immediate }),
        0xA1 => Some(InstructionDescriptor { mnemonic: Mnemonic('L', 'D', 'A'), addressing_mode: AddressingMode::ZeroPageXIndirect }),
        0xA2 => Some(InstructionDescriptor { mnemonic: Mnemonic('L', 'D', 'X'), addressing_mode: AddressingMode::Immediate }),
        0xA4 => Some(InstructionDescriptor { mnemonic: Mnemonic('L', 'D', 'Y'), addressing_mode: AddressingMode::ZeroPage }),
        0xA5 => Some(InstructionDescriptor { mnemonic: Mnemonic('L', 'D', 'A'), addressing_mode: AddressingMode::ZeroPage }),
        0xA6 => Some(InstructionDescriptor { mnemonic: Mnemonic('L', 'D', 'X'), addressing_mode: AddressingMode::ZeroPage }),
        0xA8 => Some(InstructionDescriptor { mnemonic: Mnemonic('T', 'A', 'Y'), addressing_mode: AddressingMode::Implied }),
        0xA9 => Some(InstructionDescriptor { mnemonic: Mnemonic('L', 'D', 'A'), addressing_mode: AddressingMode::Immediate }),
        0xAA => Some(InstructionDescriptor { mnemonic: Mnemonic('T', 'A', 'X'), addressing_mode: AddressingMode::Implied }),
        0xAC => Some(InstructionDescriptor { mnemonic: Mnemonic('L', 'D', 'Y'), addressing_mode: AddressingMode::Absolute }),
        0xAD => Some(InstructionDescriptor { mnemonic: Mnemonic('L', 'D', 'A'), addressing_mode: AddressingMode::Absolute }),
        0xAE => Some(InstructionDescriptor { mnemonic: Mnemonic('L', 'D', 'X'), addressing_mode: AddressingMode::Absolute }),
        0xB0 => Some(InstructionDescriptor { mnemonic: Mnemonic('B', 'C', 'S'), addressing_mode: AddressingMode::Relative }),
        0xB1 => Some(InstructionDescriptor { mnemonic: Mnemonic('L', 'D', 'A'), addressing_mode: AddressingMode::ZeroPageIndirectY }),
        0xB4 => Some(InstructionDescriptor { mnemonic: Mnemonic('L', 'D', 'Y'), addressing_mode: AddressingMode::ZeroPageIndexedX }),
        0xB5 => Some(InstructionDescriptor { mnemonic: Mnemonic('L', 'D', 'A'), addressing_mode: AddressingMode::ZeroPageIndexedX }),
        0xB6 => Some(InstructionDescriptor { mnemonic: Mnemonic('L', 'D', 'X'), addressing_mode: AddressingMode::ZeroPageIndexedY }),
        0xB8 => Some(InstructionDescriptor { mnemonic: Mnemonic('C', 'L', 'V'), addressing_mode: AddressingMode::Implied }),
        0xB9 => Some(InstructionDescriptor { mnemonic: Mnemonic('L', 'D', 'A'), addressing_mode: AddressingMode::AbsoluteIndexedY }),
        0xBA => Some(InstructionDescriptor { mnemonic: Mnemonic('T', 'S', 'X'), addressing_mode: AddressingMode::Implied }),
        0xBC => Some(InstructionDescriptor { mnemonic: Mnemonic('L', 'D', 'Y'), addressing_mode: AddressingMode::AbsoluteIndexedX }),
        0xBD => Some(InstructionDescriptor { mnemonic: Mnemonic('L', 'D', 'A'), addressing_mode: AddressingMode::AbsoluteIndexedX }),
        0xBE => Some(InstructionDescriptor { mnemonic: Mnemonic('L', 'D', 'X'), addressing_mode: AddressingMode::AbsoluteIndexedY }),
        0xC0 => Some(InstructionDescriptor { mnemonic: Mnemonic('C', 'P', 'Y'), addressing_mode: AddressingMode::Immediate }),
        0xC1 => Some(InstructionDescriptor { mnemonic: Mnemonic('C', 'M', 'P'), addressing_mode: AddressingMode::ZeroPageXIndirect }),
        0xC4 => Some(InstructionDescriptor { mnemonic: Mnemonic('C', 'P', 'Y'), addressing_mode: AddressingMode::ZeroPage }),
        0xC5 => Some(InstructionDescriptor { mnemonic: Mnemonic('C', 'M', 'P'), addressing_mode: AddressingMode::ZeroPage }),
        0xC6 => Some(InstructionDescriptor { mnemonic: Mnemonic('D', 'E', 'C'), addressing_mode: AddressingMode::ZeroPage }),
        0xC8 => Some(InstructionDescriptor { mnemonic: Mnemonic('I', 'N', 'Y'), addressing_mode: AddressingMode::Implied }),
        0xC9 => Some(InstructionDescriptor { mnemonic: Mnemonic('C', 'M', 'P'), addressing_mode: AddressingMode::Immediate }),
        0xCA => Some(InstructionDescriptor { mnemonic: Mnemonic('D', 'E', 'X'), addressing_mode: AddressingMode::Implied }),
        0xCC => Some(InstructionDescriptor { mnemonic: Mnemonic('C', 'P', 'Y'), addressing_mode: AddressingMode::Absolute }),
        0xCD => Some(InstructionDescriptor { mnemonic: Mnemonic('C', 'M', 'P'), addressing_mode: AddressingMode::Absolute }),
        0xCE => Some(InstructionDescriptor { mnemonic: Mnemonic('D', 'E', 'C'), addressing_mode: AddressingMode::Absolute }),
        0xD0 => Some(InstructionDescriptor { mnemonic: Mnemonic('B', 'N', 'E'), addressing_mode: AddressingMode::Relative }),
        0xD1 => Some(InstructionDescriptor { mnemonic: Mnemonic('C', 'M', 'P'), addressing_mode: AddressingMode::ZeroPageIndirectY }),
        0xD5 => Some(InstructionDescriptor { mnemonic: Mnemonic('C', 'M', 'P'), addressing_mode: AddressingMode::ZeroPageIndexedX }),
        0xD6 => Some(InstructionDescriptor { mnemonic: Mnemonic('D', 'E', 'C'), addressing_mode: AddressingMode::ZeroPageIndexedX }),
        0xD8 => Some(InstructionDescriptor { mnemonic: Mnemonic('C', 'L', 'D'), addressing_mode: AddressingMode::Implied }),
        0xD9 => Some(InstructionDescriptor { mnemonic: Mnemonic('C', 'M', 'P'), addressing_mode: AddressingMode::AbsoluteIndexedY }),
        0xDD => Some(InstructionDescriptor { mnemonic: Mnemonic('C', 'M', 'P'), addressing_mode: AddressingMode::AbsoluteIndexedX }),
        0xDE => Some(InstructionDescriptor { mnemonic: Mnemonic('D', 'E', 'C'), addressing_mode: AddressingMode::AbsoluteIndexedX }),
        0xE0 => Some(InstructionDescriptor { mnemonic: Mnemonic('C', 'P', 'X'), addressing_mode: AddressingMode::Immediate }),
        0xE1 => Some(InstructionDescriptor { mnemonic: Mnemonic('S', 'B', 'C'), addressing_mode: AddressingMode::ZeroPageXIndirect }),
        0xE4 => Some(InstructionDescriptor { mnemonic: Mnemonic('C', 'P', 'X'), addressing_mode: AddressingMode::ZeroPage }),
        0xE5 => Some(InstructionDescriptor { mnemonic: Mnemonic('S', 'B', 'C'), addressing_mode: AddressingMode::ZeroPage }),
        0xE6 => Some(InstructionDescriptor { mnemonic: Mnemonic('I', 'N', 'C'), addressing_mode: AddressingMode::ZeroPage }),
        0xE8 => Some(InstructionDescriptor { mnemonic: Mnemonic('I', 'N', 'X'), addressing_mode: AddressingMode::Implied }),
        0xE9 => Some(InstructionDescriptor { mnemonic: Mnemonic('S', 'B', 'C'), addressing_mode: AddressingMode::Immediate }),
        0xEA => Some(InstructionDescriptor { mnemonic: Mnemonic('N', 'O', 'P'), addressing_mode: AddressingMode::Implied }),
        0xEC => Some(InstructionDescriptor { mnemonic: Mnemonic('C', 'P', 'X'), addressing_mode: AddressingMode::Absolute }),
        0xED => Some(InstructionDescriptor { mnemonic: Mnemonic('S', 'B', 'C'), addressing_mode: AddressingMode::Absolute }),
        0xEE => Some(InstructionDescriptor { mnemonic: Mnemonic('I', 'N', 'C'), addressing_mode: AddressingMode::Absolute }),
        0xF0 => Some(InstructionDescriptor { mnemonic: Mnemonic('B', 'E', 'Q'), addressing_mode: AddressingMode::Relative }),
        0xF1 => Some(InstructionDescriptor { mnemonic: Mnemonic('S', 'B', 'C'), addressing_mode: AddressingMode::ZeroPageIndirectY }),
        0xF5 => Some(InstructionDescriptor { mnemonic: Mnemonic('S', 'B', 'C'), addressing_mode: AddressingMode::ZeroPageIndexedX }),
        0xF6 => Some(InstructionDescriptor { mnemonic: Mnemonic('I', 'N', 'C'), addressing_mode: AddressingMode::ZeroPageIndexedX }),
        0xF8 => Some(InstructionDescriptor { mnemonic: Mnemonic('S', 'E', 'D'), addressing_mode: AddressingMode::Implied }),
        0xF9 => Some(InstructionDescriptor { mnemonic: Mnemonic('S', 'B', 'C'), addressing_mode: AddressingMode::AbsoluteIndexedY }),
        0xFD => Some(InstructionDescriptor { mnemonic: Mnemonic('S', 'B', 'C'), addressing_mode: AddressingMode::AbsoluteIndexedX }),
        0xFE => Some(InstructionDescriptor { mnemonic: Mnemonic('I', 'N', 'C'), addressing_mode: AddressingMode::AbsoluteIndexedX }),
        _ => None,
    }
}

/// An instruction with a given mnemonic and addressing mode.
pub open spec fn instr(a: char, b: char, c: char, mode: AddressingMode) -> Option<InstructionDescriptor> {
    Some(InstructionDescriptor { mnemonic: Mnemonic(a, b, c), addressing_mode: mode })
}

/// The 6502 opcode matrix. An opcode `aaabbbcc` is read by its fields:
/// `cc` picks a group, `aaa` the operation within the group and `bbb` the
/// addressing mode. This is the layout of the MOS 6500 programming manual's
/// instruction tables.
///
/// Group `cc = 01`, the accumulator instructions: `aaa` is ORA, AND, EOR,
/// ADC, STA, LDA, CMP, SBC; `bbb` is (zp,X), zp, #imm, abs, (zp),Y, zp,X,
/// abs,Y, abs,X. STA has no immediate form.
pub open spec fn group_one(a: int, b: int) -> Option<InstructionDescriptor> {
    let mode = if b == 0 {
        AddressingMode::ZeroPageXIndirect
    } else if b == 1 {
        AddressingMode::ZeroPage
    } else if b == 2 {
        AddressingMode::Immediate
    } else if b == 3 {
        AddressingMode::Absolute
    } else if b == 4 {
        AddressingMode::ZeroPageIndirectY
    } else if b == 5 {
        AddressingMode::ZeroPageIndexedX
    } else if b == 6 {
        AddressingMode::AbsoluteIndexedY
    } else {
        AddressingMode::AbsoluteIndexedX
    };
    if a == 0 {
        instr('O', 'R', 'A', mode)
    } else if a == 1 {
        instr('A', 'N', 'D', mode)
    } else if a == 2 {
        instr('E', 'O', 'R', mode)
    } else if a == 3 {
        instr('A', 'D', 'C', mode)
    } else if a == 4 {
        if b == 2 {
            None
        } else {
            instr('S', 'T', 'A', mode)
        }
    } else if a == 5 {
        instr('L', 'D', 'A', mode)
    } else if a == 6 {
        instr('C', 'M', 'P', mode)
    } else {
        instr('S', 'B', 'C', mode)
    }
}

/// Group `cc = 10`, the read-modify-write and X register instructions:
/// `aaa` is ASL, ROL, LSR, ROR, STX, LDX, DEC, INC; `bbb` is #imm (LDX
/// only), zp, accumulator (shifts and rotations only), abs, zp,X and abs,X
/// (zp,Y and abs,Y for STX and LDX; STX has no abs,Y). Column `bbb = 010`
/// of STX, LDX, DEC, INC holds TXA, TAX, DEX, NOP, and `bbb = 110` of STX,
/// LDX holds TXS, TSX.
pub open spec fn group_two(a: int, b: int) -> Option<InstructionDescriptor> {
    let x_register = a == 4 || a == 5;
    let (m0, m1, m2) = if a == 0 {
        ('A', 'S', 'L')
    } else if a == 1 {
        ('R', 'O', 'L')
    } else if a == 2 {
        ('L', 'S', 'R')
    } else if a == 3 {
        ('R', 'O', 'R')
    } else if a == 4 {
        ('S', 'T', 'X')
    } else if a == 5 {
        ('L', 'D', 'X')
    } else if a == 6 {
        ('D', 'E', 'C')
    } else {
        ('I', 'N', 'C')
    };
    if b == 0 {
        if a == 5 {
            instr(m0, m1, m2, AddressingMode::Immediate)
        } else {
            None
        }
    } else if b == 1 {
        instr(m0, m1, m2, AddressingMode::ZeroPage)
    } else if b == 2 {
        if a < 4 {
            instr(m0, m1, m2, AddressingMode::Accumulator)
        } else if a == 4 {
            instr('T', 'X', 'A', AddressingMode::Implied)
        } else if a == 5 {
            instr('T', 'A', 'X', AddressingMode::Implied)
        } else if a == 6 {
            instr('D', 'E', 'X', AddressingMode::Implied)
        } else {
            instr('N', 'O', 'P', AddressingMode::Implied)
        }
    } else if b == 3 {
        instr(m0, m1, m2, AddressingMode::Absolute)
    } else if b == 5 {
        instr(
            m0,
            m1,
            m2,
            if x_register {
                AddressingMode::ZeroPageIndexedY
            } else {
                AddressingMode::ZeroPageIndexedX
            },
        )
    } else if b == 6 {
        if a == 4 {
            instr('T', 'X', 'S', AddressingMode::Implied)
        } else if a == 5 {
            instr('T', 'S', 'X', AddressingMode::Implied)
        } else {
            None
        }
    } else if b == 7 {
        if a == 4 {
            None
        } else if a == 5 {
            instr(m0, m1, m2, AddressingMode::AbsoluteIndexedY)
        } else {
            instr(m0, m1, m2, AddressingMode::AbsoluteIndexedX)
        }
    } else {
        None
    }
}

/// Group `cc = 00`: `bbb = 100` holds the branches BPL, BMI, BVC, BVS, BCC,
/// BCS, BNE, BEQ; `bbb = 110` the flag and transfer instructions CLC, SEC,
/// CLI, SEI, TYA, CLV, CLD, SED; `bbb = 010` PHP, PLP, PHA, PLA, DEY, TAY,
/// INY, INX; `bbb = 000` BRK, JSR abs, RTI, RTS, then #imm of LDY, CPY, CPX;
/// the other columns hold BIT (zp, abs), JMP abs, JMP (ind), and STY, LDY,
/// CPY, CPX with zp and abs, STY and LDY with zp,X and LDY with abs,X.
pub open spec fn group_zero(a: int, b: int) -> Option<InstructionDescriptor> {
    let (m0, m1, m2) = if a == 1 {
        ('B', 'I', 'T')
    } else if a == 4 {
        ('S', 'T', 'Y')
    } else if a == 5 {
        ('L', 'D', 'Y')
    } else if a == 6 {
        ('C', 'P', 'Y')
    } else {
        ('C', 'P', 'X')
    };
    if b == 4 {
        if a == 0 {
            instr('B', 'P', 'L', AddressingMode::Relative)
        } else if a == 1 {
            instr('B', 'M', 'I', AddressingMode::Relative)
        } else if a == 2 {
            instr('B', 'V', 'C', AddressingMode::Relative)
        } else if a == 3 {
            instr('B', 'V', 'S', AddressingMode::Relative)
        } else if a == 4 {
            instr('B', 'C', 'C', AddressingMode::Relative)
        } else if a == 5 {
            instr('B', 'C', 'S', AddressingMode::Relative)
        } else if a == 6 {
            instr('B', 'N', 'E', AddressingMode::Relative)
        } else {
            instr('B', 'E', 'Q', AddressingMode::Relative)
        }
    } else if b == 6 {
        if a == 0 {
            instr('C', 'L', 'C', AddressingMode::Implied)
        } else if a == 1 {
            instr('S', 'E', 'C', AddressingMode::Implied)
        } else if a == 2 {
            instr('C', 'L', 'I', AddressingMode::Implied)
        } else if a == 3 {
            instr('S', 'E', 'I', AddressingMode::Implied)
        } else if a == 4 {
            instr('T', 'Y', 'A', AddressingMode::Implied)
        } else if a == 5 {
            instr('C', 'L', 'V', AddressingMode::Implied)
        } else if a == 6 {
            instr('C', 'L', 'D', AddressingMode::Implied)
        } else {
            instr('S', 'E', 'D', AddressingMode::Implied)
        }
    } else if b == 2 {
        if a == 0 {
            instr('P', 'H', 'P', AddressingMode::Implied)
        } else if a == 1 {
            instr('P', 'L', 'P', AddressingMode::Implied)
        } else if a == 2 {
            instr('P', 'H', 'A', AddressingMode::Implied)
        } else if a == 3 {
            instr('P', 'L', 'A', AddressingMode::Implied)
        } else if a == 4 {
            instr('D', 'E', 'Y', AddressingMode::Implied)
        } else if a == 5 {
            instr('T', 'A', 'Y', AddressingMode::Implied)
        } else if a == 6 {
            instr('I', 'N', 'Y', AddressingMode::Implied)
        } else {
            instr('I', 'N', 'X', AddressingMode::Implied)
        }
    } else if b == 0 {
        if a == 0 {
            instr('B', 'R', 'K', AddressingMode::Implied)
        } else if a == 1 {
            instr('J', 'S', 'R', AddressingMode::Absolute)
        } else if a == 2 {
            instr('R', 'T', 'I', AddressingMode::Implied)
        } else if a == 3 {
            instr('R', 'T', 'S', AddressingMode::Implied)
        } else if a == 4 {
            None
        } else {
            instr(m0, m1, m2, AddressingMode::Immediate)
        }
    } else if b == 1 {
        if a == 1 || a >= 4 {
            instr(m0, m1, m2, AddressingMode::ZeroPage)
        } else {
            None
        }
    } else if b == 3 {
        if a == 2 {
            instr('J', 'M', 'P', AddressingMode::Absolute)
        } else if a == 3 {
            instr('J', 'M', 'P', AddressingMode::Indirect)
        } else if a == 1 || a >= 4 {
            instr(m0, m1, m2, AddressingMode::Absolute)
        } else {
            None
        }
    } else if b == 5 {
        if a == 4 || a == 5 {
            instr(m0, m1, m2, AddressingMode::ZeroPageIndexedX)
        } else {
            None
        }
    } else if b == 7 {
        if a == 5 {
            instr(m0, m1, m2, AddressingMode::AbsoluteIndexedX)
        } else {
            None
        }
    } else {
        None
    }
}

/// The documented instruction of an opcode `aaabbbcc`, by the groups of
/// the opcode matrix; `cc = 11` holds none.
pub open spec fn opcode_matrix(opcode: u8) -> Option<InstructionDescriptor> {
    let a = opcode / 32;
    let b = (opcode / 4) % 8;
    let c = opcode % 4;
    if c == 0 {
        group_zero(a as int, b as int)
    } else if c == 1 {
        group_one(a as int, b as int)
    } else if c == 2 {
        group_two(a as int, b as int)
    } else {
        None
    }
}

/// Opcode law: the disassembler knows exactly the documented 6502
/// instructions, and describes each opcode with the mnemonic and the
/// addressing mode that its place in the opcode matrix gives.
pub proof fn lemma_opcode_map(opcode: u8)
    ensures
        opcode_descriptor(opcode) == opcode_matrix(opcode),
{
}

/// Describes `opcode`: the mnemonic and the addressing mode of the
/// instruction, if it is one.
pub fn instruction_descriptor(opcode: u8) -> (r: Option<InstructionDescriptor>)
    ensures
        r == opcode_descriptor(opcode),
{
    match opcode {
        0x00 => Some(InstructionDescriptor { mnemonic: Mnemonic('B', 'R', 'K'), addressing_mode: AddressingMode::Implied }),
        0x01 => Some(InstructionDescriptor { mnemonic: Mnemonic('O', 'R', 'A'), addressing_mode: AddressingMode::ZeroPageXIndirect }),
        0x05 => Some(InstructionDescriptor { mnemonic: Mnemonic('O', 'R', 'A'), addressing_mode: AddressingMode::ZeroPage }),
        0x06 => Some(InstructionDescriptor { mnemonic: Mnemonic('A', 'S', 'L'), addressing_mode: AddressingMode::ZeroPage }),
        0x08 => Some(InstructionDescriptor { mnemonic: Mnemonic('P', 'H', 'P'), addressing_mode: AddressingMode::Implied }),
        0x09 => Some(InstructionDescriptor { mnemonic: Mnemonic('O', 'R', 'A'), addressing_mode: AddressingMode::Immediate }),
        0x0A => Some(InstructionDescriptor { mnemonic: Mnemonic('A', 'S', 'L'), addressing_mode: AddressingMode::Accumulator }),
        0x0D => Some(InstructionDescriptor { mnemonic: Mnemonic('O', 'R', 'A'), addressing_mode: AddressingMode::Absolute }),
        0x0E => Some(InstructionDescriptor { mnemonic: Mnemonic('A', 'S', 'L'), addressing_mode: AddressingMode::Absolute }),
        0x10 => Some(InstructionDescriptor { mnemonic: Mnemonic('B', 'P', 'L'), addressing_mode: AddressingMode::Relative }),
        0x11 => Some(InstructionDescriptor { mnemonic: Mnemonic('O', 'R', 'A'), addressing_mode: AddressingMode::ZeroPageIndirectY }),
        0x15 => Some(InstructionDescriptor { mnemonic: Mnemonic('O', 'R', 'A'), addressing_mode: AddressingMode::ZeroPageIndexedX }),
        0x16 => Some(InstructionDescriptor { mnemonic: Mnemonic('A', 'S', 'L'), addressing_mode: AddressingMode::ZeroPageIndexedX }),
        0x18 => Some(InstructionDescriptor { mnemonic: Mnemonic('C', 'L', 'C'), addressing_mode: AddressingMode::Implied }),
        0x19 => Some(InstructionDescriptor { mnemonic: Mnemonic('O', 'R', 'A'), addressing_mode: AddressingMode::AbsoluteIndexedY }),
        0x1D => Some(InstructionDescriptor { mnemonic: Mnemonic('O', 'R', 'A'), addressing_mode: AddressingMode::AbsoluteIndexedX }),
        0x1E => Some(InstructionDescriptor { mnemonic: Mnemonic('A', 'S', 'L'), addressing_mode: AddressingMode::AbsoluteIndexedX }),
        0x20 => Some(InstructionDescriptor { mnemonic: Mnemonic('J', 'S', 'R'), addressing_mode: AddressingMode::Absolute }),
        0x21 => Some(InstructionDescriptor { mnemonic: Mnemonic('A', 'N', 'D'), addressing_mode: AddressingMode::ZeroPageXIndirect }),
        0x24 => Some(InstructionDescriptor { mnemonic: Mnemonic('B', 'I', 'T'), addressing_mode: AddressingMode::ZeroPage }),
        0x25 => Some(InstructionDescriptor { mnemonic: Mnemonic('A', 'N', 'D'), addressing_mode: AddressingMode::ZeroPage }),
        0x26 => Some(InstructionDescriptor { mnemonic: Mnemonic('R', 'O', 'L'), addressing_mode: AddressingMode::ZeroPage }),
        0x28 => Some(InstructionDescriptor { mnemonic: Mnemonic('P', 'L', 'P'), addressing_mode: AddressingMode::Implied }),
        0x29 => Some(InstructionDescriptor { mnemonic: Mnemonic('A', 'N', 'D'), addressing_mode: AddressingMode::Immediate }),
        0x2A => Some(InstructionDescriptor { mnemonic: Mnemonic('R', 'O', 'L'), addressing_mode: AddressingMode::Accumulator }),
        0x2C => Some(InstructionDescriptor { mnemonic: Mnemonic('B', 'I', 'T'), addressing_mode: AddressingMode::Absolute }),
        0x2D => Some(InstructionDescriptor { mnemonic: Mnemonic('A', 'N', 'D'), addressing_mode: AddressingMode::Absolute }),
        0x2E => Some(InstructionDescriptor { mnemonic: Mnemonic('R', 'O', 'L'), addressing_mode: AddressingMode::Absolute }),
        0x30 => Some(InstructionDescriptor { mnemonic: Mnemonic('B', 'M', 'I'), addressing_mode: AddressingMode::Relative }),
        0x31 => Some(InstructionDescriptor { mnemonic: Mnemonic('A', 'N', 'D'), addressing_mode: AddressingMode::ZeroPageIndirectY }),
        0x35 => Some(InstructionDescriptor { mnemonic: Mnemonic('A', 'N', 'D'), addressing_mode: AddressingMode::ZeroPageIndexedX }),
        0x36 => Some(InstructionDescriptor { mnemonic: Mnemonic('R', 'O', 'L'), addressing_mode: AddressingMode::ZeroPageIndexedX }),
        0x38 => Some(InstructionDescriptor { mnemonic: Mnemonic('S', 'E', 'C'), addressing_mode: AddressingMode::Implied }),
        0x39 => Some(InstructionDescriptor { mnemonic: Mnemonic('A', 'N', 'D'), addressing_mode: AddressingMode::AbsoluteIndexedY }),
        0x3D => Some(InstructionDescriptor { mnemonic: Mnemonic('A', 'N', 'D'), addressing_mode: AddressingMode::AbsoluteIndexedX }),
        0x3E => Some(InstructionDescriptor { mnemonic: Mnemonic('R', 'O', 'L'), addressing_mode: AddressingMode::AbsoluteIndexedX }),
        0x40 => Some(InstructionDescriptor { mnemonic: Mnemonic('R', 'T', 'I'), addressing_mode: AddressingMode::Implied }),
        0x41 => Some(InstructionDescriptor { mnemonic: Mnemonic('E', 'O', 'R'), addressing_mode: AddressingMode::ZeroPageXIndirect }),
        0x45 => Some(InstructionDescriptor { mnemonic: Mnemonic('E', 'O', 'R'), addressing_mode: AddressingMode::ZeroPage }),
        0x46 => Some(InstructionDescriptor { mnemonic: Mnemonic('L', 'S', 'R'), addressing_mode: AddressingMode::ZeroPage }),
        0x48 => Some(InstructionDescriptor { mnemonic: Mnemonic('P', 'H', 'A'), addressing_mode: AddressingMode::Implied }),
        0x49 => Some(InstructionDescriptor { mnemonic: Mnemonic('E', 'O', 'R'), addressing_mode: AddressingMode::Immediate }),
        0x4A => Some(InstructionDescriptor { mnemonic: Mnemonic('L', 'S', 'R'), addressing_mode: AddressingMode::Accumulator }),
        0x4C => Some(InstructionDescriptor { mnemonic: Mnemonic('J', 'M', 'P'), addressing_mode: AddressingMode::Absolute }),
        0x4D => Some(InstructionDescriptor { mnemonic: Mnemonic('E', 'O', 'R'), addressing_mode: AddressingMode::Absolute }),
        0x4E => Some(InstructionDescriptor { mnemonic: Mnemonic('L', 'S', 'R'), addressing_mode: AddressingMode::Absolute }),
        0x50 => Some(InstructionDescriptor { mnemonic: Mnemonic('B', 'V', 'C'), addressing_mode: AddressingMode::Relative }),
        0x51 => Some(InstructionDescriptor { mnemonic: Mnemonic('E', 'O', 'R'), addressing_mode: AddressingMode::ZeroPageIndirectY }),
        0x55 => Some(InstructionDescriptor { mnemonic: Mnemonic('E', 'O', 'R'), addressing_mode: AddressingMode::ZeroPageIndexedX }),
        0x56 => Some(InstructionDescriptor { mnemonic: Mnemonic('L', 'S', 'R'), addressing_mode: AddressingMode::ZeroPageIndexedX }),
        0x58 => Some(InstructionDescriptor { mnemonic: Mnemonic('C', 'L', 'I'), addressing_mode: AddressingMode::Implied }),
        0x59 => Some(InstructionDescriptor { mnemonic: Mnemonic('E', 'O', 'R'), addressing_mode: AddressingMode::AbsoluteIndexedY }),
        0x5D => Some(InstructionDescriptor { mnemonic: Mnemonic('E', 'O', 'R'), addressing_mode: AddressingMode::AbsoluteIndexedX }),
        0x5E => Some(InstructionDescriptor { mnemonic: Mnemonic('L', 'S', 'R'), addressing_mode: AddressingMode::AbsoluteIndexedX }),
        0x60 => Some(InstructionDescriptor { mnemonic: Mnemonic('R', 'T', 'S'), addressing_mode: AddressingMode::Implied }),
        0x61 => Some(InstructionDescriptor { mnemonic: Mnemonic('A', 'D', 'C'), addressing_mode: AddressingMode::ZeroPageXIndirect }),
        0x65 => Some(InstructionDescriptor { mnemonic: Mnemonic('A', 'D', 'C'), addressing_mode: AddressingMode::ZeroPage }),
        0x66 => Some(InstructionDescriptor { mnemonic: Mnemonic('R', 'O', 'R'), addressing_mode: AddressingMode::ZeroPage }),
        0x68 => Some(InstructionDescriptor { mnemonic: Mnemonic('P', 'L', 'A'), addressing_mode: AddressingMode::Implied }),
        0x69 => Some(InstructionDescriptor { mnemonic: Mnemonic('A', 'D', 'C'), addressing_mode: AddressingMode::Immediate }),
        0x6A => Some(InstructionDescriptor { mnemonic: Mnemonic('R', 'O', 'R'), addressing_mode: AddressingMode::Accumulator }),
        0x6C => Some(InstructionDescriptor { mnemonic: Mnemonic('J', 'M', 'P'), addressing_mode: AddressingMode::Indirect }),
        0x6D => Some(InstructionDescriptor { mnemonic: Mnemonic('A', 'D', 'C'), addressing_mode: AddressingMode::Absolute }),
        0x6E => Some(InstructionDescriptor { mnemonic: Mnemonic('R', 'O', 'R'), addressing_mode: AddressingMode::Absolute }),
        0x70 => Some(InstructionDescriptor { mnemonic: Mnemonic('B', 'V', 'S'), addressing_mode: AddressingMode::Relative }),
        0x71 => Some(InstructionDescriptor { mnemonic: Mnemonic('A', 'D', 'C'), addressing_mode: AddressingMode::ZeroPageIndirectY }),
        0x75 => Some(InstructionDescriptor { mnemonic: Mnemonic('A', 'D', 'C'), addressing_mode: AddressingMode::ZeroPageIndexedX }),
        0x76 => Some(InstructionDescriptor { mnemonic: Mnemonic('R', 'O', 'R'), addressing_mode: AddressingMode::ZeroPageIndexedX }),
        0x78 => Some(InstructionDescriptor { mnemonic: Mnemonic('S', 'E', 'I'), addressing_mode: AddressingMode::Implied }),
        0x79 => Some(InstructionDescriptor { mnemonic: Mnemonic('A', 'D', 'C'), addressing_mode: AddressingMode::AbsoluteIndexedY }),
        0x7D => Some(InstructionDescriptor { mnemonic: Mnemonic('A', 'D', 'C'), addressing_mode: AddressingMode::AbsoluteIndexedX }),
        0x7E => Some(InstructionDescriptor { mnemonic: Mnemonic('R', 'O', 'R'), addressing_mode: AddressingMode::AbsoluteIndexedX }),
        0x81 => Some(InstructionDescriptor { mnemonic: Mnemonic('S', 'T', 'A'), addressing_mode: AddressingMode::ZeroPageXIndirect }),
        0x84 => Some(InstructionDescriptor { mnemonic: Mnemonic('S', 'T', 'Y'), addressing_mode: AddressingMode::ZeroPage }),
        0x85 => Some(InstructionDescriptor { mnemonic: Mnemonic('S', 'T', 'A'), addressing_mode: AddressingMode::ZeroPage }),
        0x86 => Some(InstructionDescriptor { mnemonic: Mnemonic('S', 'T', 'X'), addressing_mode: AddressingMode::ZeroPage }),
        0x88 => Some(InstructionDescriptor { mnemonic: Mnemonic('D', 'E', 'Y'), addressing_mode: AddressingMode::Implied }),
        0x8A => Some(InstructionDescriptor { mnemonic: Mnemonic('T', 'X', 'A'), addressing_mode: AddressingMode::Implied }),
        0x8C => Some(InstructionDescriptor { mnemonic: Mnemonic('S', 'T', 'Y'), addressing_mode: AddressingMode::Absolute }),
        0x8D => Some(InstructionDescriptor { mnemonic: Mnemonic('S', 'T', 'A'), addressing_mode: AddressingMode::Absolute }),
        0x8E => Some(InstructionDescriptor { mnemonic: Mnemonic('S', 'T', 'X'), addressing_mode: AddressingMode::Absolute }),
        0x90 => Some(InstructionDescriptor { mnemonic: Mnemonic('B', 'C', 'C'), addressing_mode: AddressingMode::Relative }),
        0x91 => Some(InstructionDescriptor { mnemonic: Mnemonic('S', 'T', 'A'), addressing_mode: AddressingMode::ZeroPageIndirectY }),
        0x94 => Some(InstructionDescriptor { mnemonic: Mnemonic('S', 'T', 'Y'), addressing_mode: AddressingMode::ZeroPageIndexedX }),
        0x95 => Some(InstructionDescriptor { mnemonic: Mnemonic('S', 'T', 'A'), addressing_mode: AddressingMode::ZeroPageIndexedX }),
        0x96 => Some(InstructionDescriptor { mnemonic: Mnemonic('S', 'T', 'X'), addressing_mode: AddressingMode::ZeroPageIndexedY }),
        0x98 => Some(InstructionDescriptor { mnemonic: Mnemonic('T', 'Y', 'A'), addressing_mode: AddressingMode::Implied }),
        0x99 => Some(InstructionDescriptor { mnemonic: Mnemonic('S', 'T', 'A'), addressing_mode: AddressingMode::AbsoluteIndexedY }),
        0x9A => Some(InstructionDescriptor { mnemonic: Mnemonic('T', 'X', 'S'), addressing_mode: AddressingMode::Implied }),
        0x9D => Some(InstructionDescriptor { mnemonic: Mnemonic('S', 'T', 'A'), addressing_mode: AddressingMode::AbsoluteIndexedX }),
        0xA0 => Some(InstructionDescriptor { mnemonic: Mnemonic('L', 'D', 'Y'), addressing_mode: AddressingMode::Immediate }),
        0xA1 => Some(InstructionDescriptor { mnemonic: Mnemonic('L', 'D', 'A'), addressing_mode: AddressingMode::ZeroPageXIndirect }),
        0xA2 => Some(InstructionDescriptor { mnemonic: Mnemonic('L', 'D', 'X'), addressing_mode: AddressingMode::Immediate }),
        0xA4 => Some(InstructionDescriptor { mnemonic: Mnemonic('L', 'D', 'Y'), addressing_mode: AddressingMode::ZeroPage }),
        0xA5 => Some(InstructionDescriptor { mnemonic: Mnemonic('L', 'D', 'A'), addressing_mode: AddressingMode::ZeroPage }),
        0xA6 => Some(InstructionDescriptor { mnemonic: Mnemonic('L', 'D', 'X'), addressing_mode: AddressingMode::ZeroPage }),
        0xA8 => Some(InstructionDescriptor { mnemonic: Mnemonic('T', 'A', 'Y'), addressing_mode: AddressingMode::Implied }),
        0xA9 => Some(InstructionDescriptor { mnemonic: Mnemonic('L', 'D', 'A'), addressing_mode: AddressingMode::Immediate }),
        0xAA => Some(InstructionDescriptor { mnemonic: Mnemonic('T', 'A', 'X'), addressing_mode: AddressingMode::Implied }),
        0xAC => Some(InstructionDescriptor { mnemonic: Mnemonic('L', 'D', 'Y'), addressing_mode: AddressingMode::Absolute }),
        0xAD => Some(InstructionDescriptor { mnemonic: Mnemonic('L', 'D', 'A'), addressing_mode: AddressingMode::Absolute }),
        0xAE => Some(InstructionDescriptor { mnemonic: Mnemonic('L', 'D', 'X'), addressing_mode: AddressingMode::Absolute }),
        0xB0 => Some(InstructionDescriptor { mnemonic: Mnemonic('B', 'C', 'S'), addressing_mode: AddressingMode::Relative }),
        0xB1 => Some(InstructionDescriptor { mnemonic: Mnemonic('L', 'D', 'A'), addressing_mode: AddressingMode::ZeroPageIndirectY }),
        0xB4 => Some(InstructionDescriptor { mnemonic: Mnemonic('L', 'D', 'Y'), addressing_mode: AddressingMode::ZeroPageIndexedX }),
        0xB5 => Some(InstructionDescriptor { mnemonic: Mnemonic('L', 'D', 'A'), addressing_mode: AddressingMode::ZeroPageIndexedX }),
        0xB6 => Some(InstructionDescriptor { mnemonic: Mnemonic('L', 'D', 'X'), addressing_mode: AddressingMode::ZeroPageIndexedY }),
        0xB8 => Some(InstructionDescriptor { mnemonic: Mnemonic('C', 'L', 'V'), addressing_mode: AddressingMode::Implied }),
        0xB9 => Some(InstructionDescriptor { mnemonic: Mnemonic('L', 'D', 'A'), addressing_mode: AddressingMode::AbsoluteIndexedY }),
        0xBA => Some(InstructionDescriptor { mnemonic: Mnemonic('T', 'S', 'X'), addressing_mode: AddressingMode::Implied }),
        0xBC => Some(InstructionDescriptor { mnemonic: Mnemonic('L', 'D', 'Y'), addressing_mode: AddressingMode::AbsoluteIndexedX }),
        0xBD => Some(InstructionDescriptor { mnemonic: Mnemonic('L', 'D', 'A'), addressing_mode: AddressingMode::AbsoluteIndexedX }),
        0xBE => Some(InstructionDescriptor { mnemonic: Mnemonic('L', 'D', 'X'), addressing_mode: AddressingMode::AbsoluteIndexedY }),
        0xC0 => Some(InstructionDescriptor { mnemonic: Mnemonic('C', 'P', 'Y'), addressing_mode: AddressingMode::Immediate }),
        0xC1 => Some(InstructionDescriptor { mnemonic: Mnemonic('C', 'M', 'P'), addressing_mode: AddressingMode::ZeroPageXIndirect }),
        0xC4 => Some(InstructionDescriptor { mnemonic: Mnemonic('C', 'P', 'Y'), addressing_mode: AddressingMode::ZeroPage }),
        0xC5 => Some(InstructionDescriptor { mnemonic: Mnemonic('C', 'M', 'P'), addressing_mode: AddressingMode::ZeroPage }),
        0xC6 => Some(InstructionDescriptor { mnemonic: Mnemonic('D', 'E', 'C'), addressing_mode: AddressingMode::ZeroPage }),
        0xC8 => Some(InstructionDescriptor { mnemonic: Mnemonic('I', 'N', 'Y'), addressing_mode: AddressingMode::Implied }),
        0xC9 => Some(InstructionDescriptor { mnemonic: Mnemonic('C', 'M', 'P'), addressing_mode: AddressingMode::Immediate }),
        0xCA => Some(InstructionDescriptor { mnemonic: Mnemonic('D', 'E', 'X'), addressing_mode: AddressingMode::Implied }),
        0xCC => Some(InstructionDescriptor { mnemonic: Mnemonic('C', 'P', 'Y'), addressing_mode: AddressingMode::Absolute }),
        0xCD => Some(InstructionDescriptor { mnemonic: Mnemonic('C', 'M', 'P'), addressing_mode: AddressingMode::Absolute }),
        0xCE => Some(InstructionDescriptor { mnemonic: Mnemonic('D', 'E', 'C'), addressing_mode: AddressingMode::Absolute }),
        0xD0 => Some(InstructionDescriptor { mnemonic: Mnemonic('B', 'N', 'E'), addressing_mode: AddressingMode::Relative }),
        0xD1 => Some(InstructionDescriptor { mnemonic: Mnemonic('C', 'M', 'P'), addressing_mode: AddressingMode::ZeroPageIndirectY }),
        0xD5 => Some(InstructionDescriptor { mnemonic: Mnemonic('C', 'M', 'P'), addressing_mode: AddressingMode::ZeroPageIndexedX }),
        0xD6 => Some(InstructionDescriptor { mnemonic: Mnemonic('D', 'E', 'C'), addressing_mode: AddressingMode::ZeroPageIndexedX }),
        0xD8 => Some(InstructionDescriptor { mnemonic: Mnemonic('C', 'L', 'D'), addressing_mode: AddressingMode::Implied }),
        0xD9 => Some(InstructionDescriptor { mnemonic: Mnemonic('C', 'M', 'P'), addressing_mode: AddressingMode::AbsoluteIndexedY }),
        0xDD => Some(InstructionDescriptor { mnemonic: Mnemonic('C', 'M', 'P'), addressing_mode: AddressingMode::AbsoluteIndexedX }),
        0xDE => Some(InstructionDescriptor { mnemonic: Mnemonic('D', 'E', 'C'), addressing_mode: AddressingMode::AbsoluteIndexedX }),
        0xE0 => Some(InstructionDescriptor { mnemonic: Mnemonic('C', 'P', 'X'), addressing_mode: AddressingMode::Immediate }),
        0xE1 => Some(InstructionDescriptor { mnemonic: Mnemonic('S', 'B', 'C'), addressing_mode: AddressingMode::ZeroPageXIndirect }),
        0xE4 => Some(InstructionDescriptor { mnemonic: Mnemonic('C', 'P', 'X'), addressing_mode: AddressingMode::ZeroPage }),
        0xE5 => Some(InstructionDescriptor { mnemonic: Mnemonic('S', 'B', 'C'), addressing_mode: AddressingMode::ZeroPage }),
        0xE6 => Some(InstructionDescriptor { mnemonic: Mnemonic('I', 'N', 'C'), addressing_mode: AddressingMode::ZeroPage }),
        0xE8 => Some(InstructionDescriptor { mnemonic: Mnemonic('I', 'N', 'X'), addressing_mode: AddressingMode::Implied }),
        0xE9 => Some(InstructionDescriptor { mnemonic: Mnemonic('S', 'B', 'C'), addressing_mode: AddressingMode::Immediate }),
        0xEA => Some(InstructionDescriptor { mnemonic: Mnemonic('N', 'O', 'P'), addressing_mode: AddressingMode::Implied }),
        0xEC => Some(InstructionDescriptor { mnemonic: Mnemonic('C', 'P', 'X'), addressing_mode: AddressingMode::Absolute }),
        0xED => Some(InstructionDescriptor { mnemonic: Mnemonic('S', 'B', 'C'), addressing_mode: AddressingMode::Absolute }),
        0xEE => Some(InstructionDescriptor { mnemonic: Mnemonic('I', 'N', 'C'), addressing_mode: AddressingMode::Absolute }),
        0xF0 => Some(InstructionDescriptor { mnemonic: Mnemonic('B', 'E', 'Q'), addressing_mode: AddressingMode::Relative }),
        0xF1 => Some(InstructionDescriptor { mnemonic: Mnemonic('S', 'B', 'C'), addressing_mode: AddressingMode::ZeroPageIndirectY }),
        0xF5 => Some(InstructionDescriptor { mnemonic: Mnemonic('S', 'B', 'C'), addressing_mode: AddressingMode::ZeroPageIndexedX }),
        0xF6 => Some(InstructionDescriptor { mnemonic: Mnemonic('I', 'N', 'C'), addressing_mode: AddressingMode::ZeroPageIndexedX }),
        0xF8 => Some(InstructionDescriptor { mnemonic: Mnemonic('S', 'E', 'D'), addressing_mode: AddressingMode::Implied }),
        0xF9 => Some(InstructionDescriptor { mnemonic: Mnemonic('S', 'B', 'C'), addressing_mode: AddressingMode::AbsoluteIndexedY }),
        0xFD => Some(InstructionDescriptor { mnemonic: Mnemonic('S', 'B', 'C'), addressing_mode: AddressingMode::AbsoluteIndexedX }),
        0xFE => Some(InstructionDescriptor { mnemonic: Mnemonic('I', 'N', 'C'), addressing_mode: AddressingMode::AbsoluteIndexedX }),
        _ => None,
    }
}

// ---------------------------------------------------------------------------
// Reading instructions.

/// The number of bytes that an argument in `mode` takes.
pub open spec fn argument_length(mode: AddressingMode) -> u16 {
    match mode {
        AddressingMode::Accumulator | AddressingMode::Implied => 0,
        AddressingMode::Absolute | AddressingMode::Indirect | AddressingMode::AbsoluteIndexedX
        | AddressingMode::AbsoluteIndexedY => 2,
        _ => 1,
    }
}

/// The little-endian word at `address` (wrapping around the address space).
pub open spec fn word_at<I: MachineInspector>(inspector: &I, address: u16) -> u16 {
    (inspector.inspected_memory(address) + inspector.inspected_memory(add16(address, 1)) * 256) as u16
}

/// The argument in `mode` whose bytes start at `address`.
pub open spec fn argument_at<I: MachineInspector>(
    inspector: &I,
    mode: AddressingMode,
    address: u16,
) -> Argument {
    let byte = inspector.inspected_memory(address);
    let word = word_at(inspector, address);
    match mode {
        AddressingMode::Accumulator => Argument::Accumulator,
        AddressingMode::Immediate => Argument::Immediate(byte),
        AddressingMode::Implied => Argument::Implied,
        AddressingMode::Relative => Argument::Relative(byte),
        AddressingMode::Absolute => Argument::Absolute(word),
        AddressingMode::ZeroPage => Argument::ZeroPage(byte),
        AddressingMode::Indirect => Argument::Indirect(word),
        AddressingMode::AbsoluteIndexedX => Argument::AbsoluteIndexedX(word),
        AddressingMode::AbsoluteIndexedY => Argument::AbsoluteIndexedY(word),
        AddressingMode::ZeroPageIndexedX => Argument::ZeroPageIndexedX(byte),
        AddressingMode::ZeroPageIndexedY => Argument::ZeroPageIndexedY(byte),
        AddressingMode::ZeroPageXIndirect => Argument::ZeroPageXIndirect(byte),
        AddressingMode::ZeroPageIndirectY => Argument::ZeroPageIndirectY(byte),
    }
}

/// The instruction that starts at `address`.
pub open spec fn instruction_at<I: MachineInspector>(inspector: &I, address: u16) -> Instruction {
    let opcode = inspector.inspected_memory(address);
    let descriptor = opcode_descriptor(opcode);
    Instruction {
        opcode,
        descriptor,
        argument: match descriptor {
            Some(d) => Some(argument_at(inspector, d.addressing_mode, add16(address, 1))),
            None => None,
        },
    }
}

/// The number of bytes that the instruction at `address` takes: 1 to 3.
pub open spec fn instruction_length<I: MachineInspector>(inspector: &I, address: u16) -> u16 {
    match opcode_descriptor(inspector.inspected_memory(address)) {
        Some(d) => (1 + argument_length(d.addressing_mode)) as u16,
        None => 1,
    }
}

/// The addressing mode that an argument is written in.
pub open spec fn argument_mode(a: Argument) -> AddressingMode {
    match a {
        Argument::Accumulator => AddressingMode::Accumulator,
        Argument::Immediate(_) => AddressingMode::Immediate,
        Argument::Implied => AddressingMode::Implied,
        Argument::Relative(_) => AddressingMode::Relative,
        Argument::Absolute(_) => AddressingMode::Absolute,
        Argument::ZeroPage(_) => AddressingMode::ZeroPage,
        Argument::Indirect(_) => AddressingMode::Indirect,
        Argument::AbsoluteIndexedX(_) => AddressingMode::AbsoluteIndexedX,
        Argument::AbsoluteIndexedY(_) => AddressingMode::AbsoluteIndexedY,
        Argument::ZeroPageIndexedX(_) => AddressingMode::ZeroPageIndexedX,
        Argument::ZeroPageIndexedY(_) => AddressingMode::ZeroPageIndexedY,
        Argument::ZeroPageXIndirect(_) => AddressingMode::ZeroPageXIndirect,
        Argument::ZeroPageIndirectY(_) => AddressingMode::ZeroPageIndirectY,
    }
}

/// Decoding law: the instruction read at `address` is its opcode's
/// instruction, with an argument in that instruction's addressing mode, and
/// its bytes (opcode, then the argument, words low byte first) are exactly
/// the `instruction_length` bytes of memory from `address` on, wrapping
/// around the address space.
pub proof fn lemma_instruction_from_memory<I: MachineInspector>(inspector: &I, address: u16)
    ensures
        ({
            let ins = instruction_at(inspector, address);
            let bytes = instruction_bytes(ins);
            &&& ins.opcode == inspector.inspected_memory(address)
            &&& ins.descriptor == opcode_descriptor(ins.opcode)
            &&& ins.descriptor matches Some(d) ==> ins.argument matches Some(a) && argument_mode(a)
                == d.addressing_mode
            &&& bytes.len() == instruction_length(inspector, address)
            &&& forall|k: int|
                0 <= k < bytes.len() ==> #[trigger] bytes[k] == inspector.inspected_memory(
                    add16(address, k),
                )
        }),
{
    let ins = instruction_at(inspector, address);
    let lo = inspector.inspected_memory(add16(address, 1));
    let hi = inspector.inspected_memory(add16(add16(address, 1), 1));
    assert(add16(add16(address, 1), 1) == add16(address, 2));
    assert(add16(address, 0) == address);
    let w = (lo + hi * 256) as u16;
    assert(w % 256 == lo && w / 256 == hi) by (nonlinear_arith)
        requires
            lo < 256,
            hi < 256,
            w == lo + hi * 256,
    ;
}

/// A reader that reads data from the machine inspector's address space.
pub struct MemoryStream<'a, I: MachineInspector> {
    inspector: &'a I,
    ptr: u16,
}

impl<'a, I: MachineInspector> MemoryStream<'a, I> {
    /// The machine that the stream reads.
    pub closed spec fn source(&self) -> &'a I {
        self.inspector
    }

    /// The address of the next byte to read.
    pub closed spec fn position(&self) -> u16 {
        self.ptr
    }

    /// A stream that reads `inspector`'s memory from `ptr` on.
    pub fn new(inspector: &'a I, ptr: u16) -> (r: Self)
        ensures
            r.source() == inspector,
            r.position() == ptr,
    {
        MemoryStream { inspector, ptr }
    }

    /// Reads the next byte; the address wraps around at the end of memory.
    pub fn read_byte(&mut self) -> (r: u8)
        ensures
            r == old(self).source().inspected_memory(old(self).position()),
            final(self).position() == add16(old(self).position(), 1),
            final(self).source() == old(self).source(),
    {
        let b = self.inspector.inspect_memory(self.ptr);
        self.ptr = self.ptr.wrapping_add(1);
        b
    }

    /// Reads the next two bytes as a little-endian word.
    pub fn read_word(&mut self) -> (r: u16)
        ensures
            r == word_at(old(self).source(), old(self).position()),
            final(self).position() == add16(old(self).position(), 2),
            final(self).source() == old(self).source(),
    {
        let lsb = self.read_byte();
        let msb = self.read_byte();
        lsb as u16 + (msb as u16) * 256
    }

    /// Reads an instruction argument in `mode`.
    fn read_argument(&mut self, mode: AddressingMode) -> (r: Argument)
        ensures
            r == argument_at(old(self).inspector, mode, old(self).ptr),
            final(self).ptr == add16(old(self).ptr, argument_length(mode) as int),
            final(self).inspector == old(self).inspector,
    {
        match mode {
            AddressingMode::Accumulator => Argument::Accumulator,
            AddressingMode::Immediate => Argument::Immediate(self.read_byte()),
            AddressingMode::Implied => Argument::Implied,
            AddressingMode::Relative => Argument::Relative(self.read_byte()),
            AddressingMode::Absolute => Argument::Absolute(self.read_word()),
            AddressingMode::ZeroPage => Argument::ZeroPage(self.read_byte()),
            AddressingMode::Indirect => Argument::Indirect(self.read_word()),
            AddressingMode::AbsoluteIndexedX => Argument::AbsoluteIndexedX(self.read_word()),
            AddressingMode::AbsoluteIndexedY => Argument::AbsoluteIndexedY(self.read_word()),
            AddressingMode::ZeroPageIndexedX => Argument::ZeroPageIndexedX(self.read_byte()),
            AddressingMode::ZeroPageIndexedY => Argument::ZeroPageIndexedY(self.read_byte()),
            AddressingMode::ZeroPageXIndirect => Argument::ZeroPageXIndirect(self.read_byte()),
            AddressingMode::ZeroPageIndirectY => Argument::ZeroPageIndirectY(self.read_byte()),
        }
    }

    fn read_instruction(&mut self) -> (r: Instruction)
        ensures
            r == instruction_at(old(self).inspector, old(self).ptr),
            final(self).ptr == add16(
                old(self).ptr,
                instruction_length(old(self).inspector, old(self).ptr) as int,
            ),
            final(self).inspector == old(self).inspector,
    {
        let opcode = self.read_byte();
        let descriptor = instruction_descriptor(opcode);
        let argument = match descriptor {
            Some(d) => Some(self.read_argument(d.addressing_mode)),
            None => None,
        };
        Instruction { opcode, argument, descriptor }
    }
}

// ---------------------------------------------------------------------------
// Text.

/// A byte as two uppercase hexadecimal digits.
pub open spec fn hex2(b: u8) -> Seq<char> {
    seq![hex_digit(b / 16), hex_digit(b % 16)]
}

/// A word as four uppercase hexadecimal digits.
pub open spec fn hex4(w: u16) -> Seq<char> {
    hex2((w / 256) as u8) + hex2((w % 256) as u8)
}

/// A number in decimal.
pub open spec fn decimal_text(n: nat) -> Seq<char> {
    ascii_chars(decimal_digits(n))
}

/// A byte read as a signed number, in decimal.
pub open spec fn signed_byte_text(b: u8) -> Seq<char> {
    if b < 128 {
        decimal_text(b as nat)
    } else {
        seq!['-'] + decimal_text((256 - b) as nat)
    }
}

/// An argument in assembler syntax.
pub open spec fn argument_text(a: Argument) -> Seq<char> {
    match a {
        Argument::Accumulator => seq!['A'],
        Argument::Immediate(v) => seq!['#', '$'] + hex2(v),
        Argument::Implied => Seq::empty(),
        Argument::Relative(v) => signed_byte_text(v),
        Argument::Absolute(v) => seq!['$'] + hex4(v),
        Argument::ZeroPage(v) => seq!['$'] + hex2(v),
        Argument::Indirect(v) => seq!['(', '$'] + hex4(v) + seq![')'],
        Argument::AbsoluteIndexedX(v) => seq!['$'] + hex4(v) + seq![',', 'X'],
        Argument::AbsoluteIndexedY(v) => seq!['$'] + hex4(v) + seq![',', 'Y'],
        Argument::ZeroPageIndexedX(v) => seq!['$'] + hex2(v) + seq![',', 'X'],
        Argument::ZeroPageIndexedY(v) => seq!['$'] + hex2(v) + seq![',', 'Y'],
        Argument::ZeroPageXIndirect(v) => seq!['(', '$'] + hex2(v) + seq![',', 'X', ')'],
        Argument::ZeroPageIndirectY(v) => seq!['(', '$'] + hex2(v) + seq![')', ',', 'Y'],
    }
}

/// The value of an uppercase hexadecimal digit.
pub open spec fn hex_digit_value(c: char) -> Option<int> {
    if '0' <= c <= '9' {
        Some(c as int - '0' as int)
    } else if 'A' <= c <= 'F' {
        Some(c as int - 'A' as int + 10)
    } else {
        None
    }
}

/// Whether `t` holds, at `i` and `i + 1`, the two hexadecimal digits of the
/// byte `v`, high digit first.
pub open spec fn reads_byte(t: Seq<char>, i: int, v: int) -> bool {
    &&& hex_digit_value(t[i]) is Some
    &&& hex_digit_value(t[i + 1]) is Some
    &&& 16 * hex_digit_value(t[i])->0 + hex_digit_value(t[i + 1])->0 == v
}

/// Whether `t` holds, from `i` on, the four hexadecimal digits of the word
/// `v`, high digit first.
pub open spec fn reads_word(t: Seq<char>, i: int, v: int) -> bool {
    reads_byte(t, i, v / 256) && reads_byte(t, i + 2, v % 256)
}

proof fn lemma_hex_digit_reads(n: u8)
    requires
        n < 16,
    ensures
        hex_digit_value(hex_digit(n)) == Some(n as int),
{
}

proof fn lemma_hex2_reads(v: u8)
    ensures
        reads_byte(hex2(v), 0, v as int),
{
    lemma_hex_digit_reads(v / 16);
    lemma_hex_digit_reads(v % 16);
}

/// Operand syntax law: each addressing mode is written in the 6502
/// assembler's syntax. `A` for the accumulator; `#$hh` for an immediate
/// byte; `$hh` and `$hhhh` for zero-page and absolute addresses, followed by
/// `,X` or `,Y` when indexed by that register; `($hhhh)` for an indirect
/// jump; `($hh,X)` for indexed indirect and `($hh),Y` for indirect indexed
/// addressing; nothing for implied instructions. The hexadecimal digits read
/// back as the operand's value. A branch offset is written in decimal, with a
/// minus sign when it points backwards (a byte of 128 or more stands for the
/// offset minus 256).
pub proof fn lemma_operand_syntax(a: Argument)
    ensures
        ({
            let t = argument_text(a);
            match a {
                Argument::Accumulator => t == seq!['A'],
                Argument::Implied => t.len() == 0,
                Argument::Immediate(v) => t.len() == 4 && t[0] == '#' && t[1] == '$' && reads_byte(
                    t,
                    2,
                    v as int,
                ),
                Argument::ZeroPage(v) => t.len() == 3 && t[0] == '$' && reads_byte(t, 1, v as int),
                Argument::ZeroPageIndexedX(v) => t.len() == 5 && t[0] == '$' && reads_byte(t, 1, v as int)
                    && t[3] == ',' && t[4] == 'X',
                Argument::ZeroPageIndexedY(v) => t.len() == 5 && t[0] == '$' && reads_byte(t, 1, v as int)
                    && t[3] == ',' && t[4] == 'Y',
                Argument::ZeroPageXIndirect(v) => t.len() == 7 && t[0] == '(' && t[1] == '$' && reads_byte(
                    t,
                    2,
                    v as int,
                ) && t[4] == ',' && t[5] == 'X' && t[6] == ')',
                Argument::ZeroPageIndirectY(v) => t.len() == 7 && t[0] == '(' && t[1] == '$' && reads_byte(
                    t,
                    2,
                    v as int,
                ) && t[4] == ')' && t[5] == ',' && t[6] == 'Y',
                Argument::Absolute(v) => t.len() == 5 && t[0] == '$' && reads_word(t, 1, v as int),
                Argument::AbsoluteIndexedX(v) => t.len() == 7 && t[0] == '$' && reads_word(t, 1, v as int)
                    && t[5] == ',' && t[6] == 'X',
                Argument::AbsoluteIndexedY(v) => t.len() == 7 && t[0] == '$' && reads_word(t, 1, v as int)
                    && t[5] == ',' && t[6] == 'Y',
                Argument::Indirect(v) => t.len() == 7 && t[0] == '(' && t[1] == '$' && reads_word(
                    t,
                    2,
                    v as int,
                ) && t[6] == ')',
                Argument::Relative(v) => if v < 128 {
                    digits_value(t) == Ok::<nat, IntErrorKind>(v as nat)
                } else {
                    t.len() > 0 && t[0] == '-' && digits_value(t.skip(1)) == Ok::<nat, IntErrorKind>(
                        (256 - v) as nat,
                    )
                },
            }
        }),
{
    match a {
        Argument::Immediate(v) | Argument::ZeroPage(v) | Argument::ZeroPageIndexedX(v)
        | Argument::ZeroPageIndexedY(v) | Argument::ZeroPageXIndirect(v)
        | Argument::ZeroPageIndirectY(v) => {
            lemma_hex2_reads(v);
        },
        Argument::Absolute(v) | Argument::AbsoluteIndexedX(v) | Argument::AbsoluteIndexedY(v)
        | Argument::Indirect(v) => {
            lemma_hex2_reads((v / 256) as u8);
            lemma_hex2_reads((v % 256) as u8);
        },
        Argument::Relative(v) => {
            if v < 128 {
                lemma_decimal_digits(v as nat);
            } else {
                lemma_decimal_digits((256 - v) as nat);
                let t = argument_text(a);
                assert(t.skip(1) =~= decimal_text((256 - v) as nat));
            }
        },
        _ => {},
    }
}

/// The bytes of an argument, words little-endian.
pub open spec fn argument_bytes(a: Argument) -> Seq<u8> {
    match a {
        Argument::Accumulator | Argument::Implied => Seq::empty(),
        Argument::Immediate(v) | Argument::Relative(v) | Argument::ZeroPage(v)
        | Argument::ZeroPageIndexedX(v) | Argument::ZeroPageIndexedY(v)
        | Argument::ZeroPageXIndirect(v) | Argument::ZeroPageIndirectY(v) => seq![v],
        Argument::Absolute(v) | Argument::Indirect(v) | Argument::AbsoluteIndexedX(v)
        | Argument::AbsoluteIndexedY(v) => seq![(v % 256) as u8, (v / 256) as u8],
    }
}

/// The bytes of an instruction: its opcode and its argument.
pub open spec fn instruction_bytes(ins: Instruction) -> Seq<u8> {
    seq![ins.opcode] + match ins.argument {
        Some(a) => argument_bytes(a),
        None => Seq::empty(),
    }
}

/// Bytes in hexadecimal, separated by spaces.
pub open spec fn bytes_text(bytes: Seq<u8>) -> Seq<char>
    decreases bytes.len(),
{
    if bytes.len() == 0 {
        Seq::empty()
    } else if bytes.len() == 1 {
        hex2(bytes[0])
    } else {
        hex2(bytes[0]) + seq![' '] + bytes_text(bytes.drop_first())
    }
}

/// Byte listing law: the bytes of an instruction are listed as two
/// hexadecimal digits each, separated by single spaces: byte `i` is read at
/// place `3 i`, and a space follows every byte but the last.
pub proof fn lemma_bytes_listing(bytes: Seq<u8>)
    ensures
        bytes.len() > 0 ==> bytes_text(bytes).len() == 3 * bytes.len() - 1,
        bytes.len() == 0 ==> bytes_text(bytes).len() == 0,
        forall|i: int| 0 <= i < bytes.len() ==> reads_byte(bytes_text(bytes), 3 * i, #[trigger] bytes[i] as int),
        forall|i: int| 0 <= i < bytes.len() - 1 ==> #[trigger] bytes_text(bytes)[3 * i + 2] == ' ',
    decreases bytes.len(),
{
    if bytes.len() > 0 {
        lemma_hex2_reads(bytes[0]);
        if bytes.len() > 1 {
            let rest = bytes.drop_first();
            lemma_bytes_listing(rest);
            let t = bytes_text(bytes);
            let u = bytes_text(rest);
            assert(t == hex2(bytes[0]) + seq![' '] + u);
            assert forall|i: int| 0 <= i < bytes.len() implies reads_byte(t, 3 * i, #[trigger] bytes[i] as int) by {
                if i > 0 {
                    assert(rest[i - 1] == bytes[i]);
                    assert(reads_byte(u, 3 * (i - 1), rest[i - 1] as int));
                    assert(t[3 * i] == u[3 * (i - 1)]);
                    assert(t[3 * i + 1] == u[3 * (i - 1) + 1]);
                }
            }
            assert forall|i: int| 0 <= i < bytes.len() - 1 implies #[trigger] t[3 * i + 2] == ' ' by {
                if i > 0 {
                    assert(t[3 * i + 2] == u[3 * (i - 1) + 2]);
                }
            }
        }
    }
}

pub open spec fn mnemonic_text(m: Mnemonic) -> Seq<char> {
    seq![m.0, m.1, m.2]
}

/// Two texts joined by a space, leaving out an empty one.
pub open spec fn join_words(a: Seq<char>, b: Seq<char>) -> Seq<char> {
    if a.len() > 0 && b.len() > 0 {
        a + seq![' '] + b
    } else {
        a + b
    }
}

/// An instruction in assembler syntax; empty for a byte that is no
/// instruction.
pub open spec fn instruction_text(ins: Instruction) -> Seq<char> {
    join_words(
        match ins.descriptor {
            Some(d) => mnemonic_text(d.mnemonic),
            None => Seq::empty(),
        },
        match ins.argument {
            Some(a) => argument_text(a),
            None => Seq::empty(),
        },
    )
}

/// Instruction syntax law: a known instruction is written as its three
/// mnemonic letters, followed, when it has an operand, by one space and the
/// operand (see `lemma_operand_syntax`).
pub proof fn lemma_instruction_syntax(ins: Instruction)
    requires
        ins.descriptor is Some,
    ensures
        ({
            let t = instruction_text(ins);
            let m = ins.descriptor->0.mnemonic;
            let operand = match ins.argument {
                Some(a) => argument_text(a),
                None => Seq::empty(),
            };
            &&& t.len() >= 3 && t[0] == m.0 && t[1] == m.1 && t[2] == m.2
            &&& operand.len() == 0 ==> t.len() == 3
            &&& operand.len() > 0 ==> t[3] == ' ' && t.skip(4) == operand
        }),
{
    let t = instruction_text(ins);
    let operand = match ins.argument {
        Some(a) => argument_text(a),
        None => Seq::empty(),
    };
    if operand.len() > 0 {
        assert(t.skip(4) =~= operand);
    }
}

/// An address as the debugger protocol writes it: "0x" and four hexadecimal
/// digits.
pub open spec fn address_text(address: u16) -> Seq<char> {
    seq!['0', 'x'] + hex4(address)
}

/// Address syntax law: an address is written as `0x` and four hexadecimal
/// digits that read back as the address.
pub proof fn lemma_address_syntax(address: u16)
    ensures
        address_text(address).len() == 6,
        address_text(address)[0] == '0' && address_text(address)[1] == 'x',
        reads_word(address_text(address), 2, address as int),
{
    lemma_hex2_reads((address / 256) as u8);
    lemma_hex2_reads((address % 256) as u8);
}

fn push_hex2(s: &mut String, b: u8)
    ensures
        final(s)@ == old(s)@ + hex2(b),
{
    push_char(s, as_single_hex_digit(b / 16));
    push_char(s, as_single_hex_digit(b % 16));
    assert(final(s)@ =~= old(s)@ + hex2(b));
}

fn push_hex4(s: &mut String, w: u16)
    ensures
        final(s)@ == old(s)@ + hex4(w),
{
    push_hex2(s, (w / 256) as u8);
    push_hex2(s, (w % 256) as u8);
    assert(final(s)@ =~= old(s)@ + hex4(w));
}

fn push_chars(s: &mut String, chars: &[char])
    ensures
        final(s)@ == old(s)@ + chars@,
{
    let mut i: usize = 0;
    while i < chars.len()
        invariant
            i <= chars@.len(),
            s@ == old(s)@ + chars@.take(i as int),
        decreases chars.len() - i,
    {
        push_char(s, chars[i]);
        assert(chars@.take(i + 1) =~= chars@.take(i as int).push(chars@[i as int]));
        i = i + 1;
    }
    assert(chars@.take(chars@.len() as int) =~= chars@);
}

fn push_decimal(s: &mut String, n: u8)
    ensures
        final(s)@ == old(s)@ + decimal_text(n as nat),
{
    let digits = decimal_bytes(n as usize);
    let mut i: usize = 0;
    while i < digits.len()
        invariant
            i <= digits@.len(),
            digits@ == decimal_digits(n as nat),
            s@ == old(s)@ + ascii_chars(digits@.take(i as int)),
        decreases digits.len() - i,
    {
        push_char(s, digits[i] as char);
        assert(ascii_chars(digits@.take(i + 1)) =~= ascii_chars(digits@.take(i as int)).push(
            digits@[i as int] as char,
        ));
        i = i + 1;
    }
    assert(digits@.take(digits@.len() as int) =~= digits@);
}

fn push_argument(s: &mut String, a: Argument)
    ensures
        final(s)@ == old(s)@ + argument_text(a),
{
    let ghost start = s@;
    match a {
        Argument::Accumulator => {
            push_char(s, 'A');
        },
        Argument::Immediate(v) => {
            push_chars(s, &['#', '$']);
            push_hex2(s, v);
        },
        Argument::Implied => {},
        Argument::Relative(v) => {
            if v < 128 {
                push_decimal(s, v);
            } else {
                push_char(s, '-');
                push_decimal(s, (256 - v as u16) as u8);
            }
        },
        Argument::Absolute(v) => {
            push_char(s, '$');
            push_hex4(s, v);
        },
        Argument::ZeroPage(v) => {
            push_char(s, '$');
            push_hex2(s, v);
        },
        Argument::Indirect(v) => {
            push_chars(s, &['(', '$']);
            push_hex4(s, v);
            push_char(s, ')');
        },
        Argument::AbsoluteIndexedX(v) => {
            push_char(s, '$');
            push_hex4(s, v);
            push_chars(s, &[',', 'X']);
        },
        Argument::AbsoluteIndexedY(v) => {
            push_char(s, '$');
            push_hex4(s, v);
            push_chars(s, &[',', 'Y']);
        },
        Argument::ZeroPageIndexedX(v) => {
            push_char(s, '$');
            push_hex2(s, v);
            push_chars(s, &[',', 'X']);
        },
        Argument::ZeroPageIndexedY(v) => {
            push_char(s, '$');
            push_hex2(s, v);
            push_chars(s, &[',', 'Y']);
        },
        Argument::ZeroPageXIndirect(v) => {
            push_chars(s, &['(', '$']);
            push_hex2(s, v);
            push_chars(s, &[',', 'X', ')']);
        },
        Argument::ZeroPageIndirectY(v) => {
            push_chars(s, &['(', '$']);
            push_hex2(s, v);
            push_chars(s, &[')', ',', 'Y']);
        },
    }
    assert(s@ =~= start + argument_text(a));
}

/// Whether `argument` is written with no text.
fn argument_is_silent(a: Argument) -> (r: bool)
    ensures
        r == (argument_text(a).len() == 0),
{
    match a {
        Argument::Implied => true,
        Argument::Relative(v) => {
            proof {
                crate::common::debugger::protocol::lemma_decimal_digits_nonempty(v as nat);
                crate::common::debugger::protocol::lemma_decimal_digits_nonempty((256 - v) as nat);
            }
            false
        },
        _ => false,
    }
}

/// Writes an instruction as the debugger shows it.
fn render_instruction(start: u16, ins: Instruction) -> (r: DisassembledInstruction)
    ensures
        r.address@ == address_text(start),
        r.instruction_bytes@ == bytes_text(instruction_bytes(ins)),
        r.instruction@ == instruction_text(ins),
{
    let mut address = String::new();
    push_chars(&mut address, &['0', 'x']);
    push_hex4(&mut address, start);

    let mut bytes = String::new();
    push_hex2(&mut bytes, ins.opcode);
    let ghost all = instruction_bytes(ins);
    match ins.argument {
        Some(a) => match a {
            Argument::Accumulator | Argument::Implied => {
                assert(all =~= seq![ins.opcode]);
            },
            Argument::Immediate(v) | Argument::Relative(v) | Argument::ZeroPage(v)
            | Argument::ZeroPageIndexedX(v) | Argument::ZeroPageIndexedY(v)
            | Argument::ZeroPageXIndirect(v) | Argument::ZeroPageIndirectY(v) => {
                push_char(&mut bytes, ' ');
                push_hex2(&mut bytes, v);
                proof {
                    assert(all =~= seq![ins.opcode, v]);
                    assert(all.drop_first() =~= seq![v]);
                    assert(bytes_text(seq![v]) == hex2(v));
                    assert(bytes@ =~= hex2(ins.opcode) + seq![' '] + hex2(v));
                }
            },
            Argument::Absolute(v) | Argument::Indirect(v) | Argument::AbsoluteIndexedX(v)
            | Argument::AbsoluteIndexedY(v) => {
                let lo = (v % 256) as u8;
                let hi = (v / 256) as u8;
                push_char(&mut bytes, ' ');
                push_hex2(&mut bytes, lo);
                push_char(&mut bytes, ' ');
                push_hex2(&mut bytes, hi);
                proof {
                    let two = seq![lo, hi];
                    assert(two.drop_first() =~= seq![hi]);
                    assert(bytes_text(seq![hi]) == hex2(hi));
                    assert(bytes_text(two) == hex2(lo) + seq![' '] + hex2(hi));
                    assert(all =~= seq![ins.opcode, lo, hi]);
                    assert(all.drop_first() =~= two);
                    assert(bytes@ =~= hex2(ins.opcode) + seq![' '] + (hex2(lo) + seq![' '] + hex2(
                        hi,
                    )));
                }
            },
        },
        None => {
            assert(all =~= seq![ins.opcode]);
        },
    }

    let mut text = String::new();
    match ins.descriptor {
        Some(d) => {
            push_chars(&mut text, &[d.mnemonic.0, d.mnemonic.1, d.mnemonic.2]);
            match ins.argument {
                Some(a) => {
                    if !argument_is_silent(a) {
                        push_char(&mut text, ' ');
                    }
                    push_argument(&mut text, a);
                },
                None => {},
            }
        },
        None => match ins.argument {
            Some(a) => {
                push_argument(&mut text, a);
            },
            None => {},
        },
    }
    proof {
        let m = match ins.descriptor {
            Some(d) => mnemonic_text(d.mnemonic),
            None => Seq::<char>::empty(),
        };
        let t = match ins.argument {
            Some(a) => argument_text(a),
            None => Seq::<char>::empty(),
        };
        assert(text@ =~= join_words(m, t));
    }
    DisassembledInstruction { address, instruction_bytes: bytes, instruction: text }
}

// ---------------------------------------------------------------------------
// Disassembling.

/// Whether going from `start` to `end` (wrapping around the address space)
/// jumps over `origin`.
pub open spec fn crosses_origin(start: u16, origin: u16, end: u16) -> bool {
    ||| start < origin && origin < end
    ||| end < start && start < origin
    ||| origin < end && end < start
}

/// One step of disassembly at `address`: the instruction there and where the
/// next one starts. An instruction that would run over the origin is taken
/// as a single unknown byte instead.
pub open spec fn disassembly_step<I: MachineInspector>(inspector: &I, origin: u16, address: u16) -> (
    Instruction,
    u16,
) {
    let instruction = instruction_at(inspector, address);
    let end = add16(address, instruction_length(inspector, address) as int);
    if crosses_origin(address, origin, end) {
        (Instruction { opcode: instruction.opcode, argument: None, descriptor: None }, add16(address, 1))
    } else {
        (instruction, end)
    }
}

/// Where the `k`-th instruction of a disassembly from `start` begins.
pub open spec fn disassembly_address<I: MachineInspector>(
    inspector: &I,
    origin: u16,
    start: u16,
    k: nat,
) -> u16
    decreases k,
{
    if k == 0 {
        start
    } else {
        disassembly_step(inspector, origin, disassembly_address(inspector, origin, start, (k - 1) as nat)).1
    }
}

/// Whether `d` shows the instruction `ins` that starts at `address`.
pub open spec fn shows_instruction(d: DisassembledInstruction, address: u16, ins: Instruction) -> bool {
    &&& d.address@ == address_text(address)
    &&& d.instruction_bytes@ == bytes_text(instruction_bytes(ins))
    &&& d.instruction@ == instruction_text(ins)
}

fn read_instruction_unless_crosses_origin<'a, I: MachineInspector>(
    stream: &mut MemoryStream<'a, I>,
    origin: u16,
) -> (r: Instruction)
    ensures
        (r, final(stream).ptr) == disassembly_step(old(stream).inspector, origin, old(stream).ptr),
        final(stream).inspector == old(stream).inspector,
{
    let instruction_start = stream.ptr;
    let instruction = stream.read_instruction();
    let crossed_origin = (instruction_start < origin && origin < stream.ptr) || (stream.ptr
        < instruction_start && instruction_start < origin) || (origin < stream.ptr && stream.ptr
        < instruction_start);
    if crossed_origin {
        stream.ptr = instruction_start.wrapping_add(1);
        return Instruction { opcode: instruction.opcode, descriptor: None, argument: None };
    }
    instruction
}

/// Disassembles a memory region. The region starts at `start_address`. First
/// `margin` instructions are ignored to allow for a "runway" in disassembling
/// the initial, potentially ambiguous, chain of instructions. The function
/// returns a vector of instructions of a given `length`. Additionally, a
/// concept of disassembly `origin` allows to have one place in the address
/// space that is known to be a valid start of an instruction (e.g. it's
/// currently a PC or belongs to a chain of already disassembled instructions).
/// This way, multiple disassembly requests for adjacent or overlapping memory
/// regions are guaranteed to produce a coherent output.
pub fn disassemble<I: MachineInspector>(
    inspector: &I,
    origin: u16,
    start_address: u16,
    margin: usize,
    length: usize,
) -> (r: Vec<DisassembledInstruction>)
    ensures
        r.len() == length,
        forall|j: int|
            0 <= j < length ==> shows_instruction(
                #[trigger] r@[j],
                disassembly_address(inspector, origin, start_address, (margin + j) as nat),
                disassembly_step(
                    inspector,
                    origin,
                    disassembly_address(inspector, origin, start_address, (margin + j) as nat),
                ).0,
            ),
{
    let mut stream = MemoryStream::new(inspector, start_address);
    let mut skipped: usize = 0;
    while skipped < margin
        invariant
            skipped <= margin,
            stream.inspector == inspector,
            stream.ptr == disassembly_address(inspector, origin, start_address, skipped as nat),
        decreases margin - skipped,
    {
        read_instruction_unless_crosses_origin(&mut stream, origin);
        skipped = skipped + 1;
    }
    let mut result: Vec<DisassembledInstruction> = Vec::new();
    let mut j: usize = 0;
    while j < length
        invariant
            j <= length,
            result.len() == j,
            stream.inspector == inspector,
            stream.ptr == disassembly_address(inspector, origin, start_address, (margin + j) as nat),
            forall|i: int|
                0 <= i < j ==> shows_instruction(
                    #[trigger] result@[i],
                    disassembly_address(inspector, origin, start_address, (margin + i) as nat),
                    disassembly_step(
                        inspector,
                        origin,
                        disassembly_address(inspector, origin, start_address, (margin + i) as nat),
                    ).0,
                ),
        decreases length - j,
    {
        let instruction_start = stream.ptr;
        let instruction = read_instruction_unless_crosses_origin(&mut stream, origin);
        result.push(render_instruction(instruction_start, instruction));
        j = j + 1;
    }
    result
}

// ---------------------------------------------------------------------------
// Seeking.

/// The address `n` instructions after `origin`, read straight ahead.
pub open spec fn seek_forward_spec<I: MachineInspector>(inspector: &I, origin: u16, n: nat) -> u16
    decreases n,
{
    if n == 0 {
        origin
    } else {
        let previous = seek_forward_spec(inspector, origin, (n - 1) as nat);
        add16(previous, instruction_length(inspector, previous) as int)
    }
}

/// The chain link for the byte `n` bytes before `origin`: how many
/// instructions lead from there to the origin, and how many of them are
/// unknown bytes. An instruction there leads to the link as far back as its
/// length; one that would jump over the origin counts as one byte.
#[verifier::opaque]
pub open spec fn chain_link<I: MachineInspector>(inspector: &I, origin: u16, n: nat) -> (int, int)
    decreases n,
{
    if n == 0 {
        (0, 0)
    } else {
        let address = add16(origin, -n);
        let length = instruction_length(inspector, address) as nat;
        let step = if length <= n {
            length
        } else {
            1
        };
        let target = chain_link(inspector, origin, (n - step) as nat);
        (
            target.0 + 1,
            target.1 + if opcode_descriptor(inspector.inspected_memory(address)) is None {
                1int
            } else {
                0
            },
        )
    }
}

/// Whether the last three of `n` chain links all lead to the origin in at
/// least `k` instructions.
pub open spec fn seek_finished<I: MachineInspector>(inspector: &I, origin: u16, k: nat, n: nat) -> bool {
    &&& n >= 3
    &&& chain_link(inspector, origin, (n - 1) as nat).0 >= k
    &&& chain_link(inspector, origin, (n - 2) as nat).0 >= k
    &&& chain_link(inspector, origin, (n - 3) as nat).0 >= k
}

/// How many chain links the backward search builds, starting from `n`.
#[verifier::opaque]
pub open spec fn links_end<I: MachineInspector>(inspector: &I, origin: u16, k: nat, n: nat) -> nat
    decreases 3 * k + 3 - n,
{
    if n >= 3 * k + 3 || seek_finished(inspector, origin, k, n) {
        n
    } else {
        links_end(inspector, origin, k, n + 1)
    }
}

/// The links below `n` that are exactly `k` instructions from the origin, in
/// order.
#[verifier::opaque]
pub open spec fn candidates_below<I: MachineInspector>(inspector: &I, origin: u16, k: nat, n: nat) -> Seq<
    nat,
>
    decreases n,
{
    if n == 0 {
        Seq::empty()
    } else {
        let before = candidates_below(inspector, origin, k, (n - 1) as nat);
        if chain_link(inspector, origin, (n - 1) as nat).0 == k {
            before.push((n - 1) as nat)
        } else {
            before
        }
    }
}

/// Among the first `m` candidates, the first one with the fewest unknown
/// instructions.
#[verifier::opaque]
pub open spec fn best_candidate<I: MachineInspector>(
    inspector: &I,
    origin: u16,
    candidates: Seq<nat>,
    m: nat,
) -> nat
    decreases m,
{
    if m <= 1 {
        candidates[0]
    } else {
        let best = best_candidate(inspector, origin, candidates, (m - 1) as nat);
        if chain_link(inspector, origin, candidates[m - 1]).1 < chain_link(inspector, origin, best).1 {
            candidates[m - 1]
        } else {
            best
        }
    }
}

/// The address `k` instructions before `origin`, chosen among all ways of
/// reading the bytes before it as the one with the fewest unknown bytes.
pub open spec fn seek_backward_spec<I: MachineInspector>(inspector: &I, origin: u16, k: nat) -> u16 {
    let candidates = candidates_below(inspector, origin, k, links_end(inspector, origin, k, 1));
    add16(origin, -(best_candidate(inspector, origin, candidates, candidates.len()) as u16 as int))
}

/// An auxiliary structure used by the instruction seeking algorithm. It
/// represents a place in memory that is a start of a chain of a given number of
/// instructions, some of them unknown (i.e. uninterpretable bytes).
#[derive(Clone, Copy, Debug)]
struct ChainLink {
    /// Number of instructions until the origin.
    num_instructions: i64,
    /// Number of unknown instructions (i.e. uninterpretable bytes) in the chain.
    num_unknown_instructions: u64,
}

/// Checks whether there are at least 3 consecutive chain links at the end with
/// the minimal required number of instructions.
fn seeking_backward_finished(chain_links: &Vec<ChainLink>, offset: i64) -> (r: bool)
    requires
        offset > i64::MIN,
    ensures
        r == (chain_links@.len() >= 3 && chain_links@[chain_links@.len() - 1].num_instructions
            >= -offset && chain_links@[chain_links@.len() - 2].num_instructions >= -offset
            && chain_links@[chain_links@.len() - 3].num_instructions >= -offset),
{
    let n = chain_links.len();
    n >= 3 && chain_links[n - 1].num_instructions >= -offset && chain_links[n - 2].num_instructions
        >= -offset && chain_links[n - 3].num_instructions >= -offset
}

proof fn lemma_chain_link_next<I: MachineInspector>(inspector: &I, origin: u16, n: nat)
    requires
        n >= 1,
    ensures
        ({
            let address = add16(origin, -n);
            let length = instruction_length(inspector, address) as nat;
            let step = if length <= n {
                length
            } else {
                1
            };
            &&& 1 <= length <= 3
            &&& chain_link(inspector, origin, n).0 == chain_link(inspector, origin, (n - step) as nat).0 + 1
            &&& chain_link(inspector, origin, n).1 == chain_link(inspector, origin, (n - step) as nat).1
                + if opcode_descriptor(inspector.inspected_memory(address)) is None {
                1int
            } else {
                0
            }
        }),
{
    reveal(chain_link);
}

proof fn lemma_chain_link_origin<I: MachineInspector>(inspector: &I, origin: u16)
    ensures
        chain_link(inspector, origin, 0) == (0int, 0int),
{
    reveal(chain_link);
}

proof fn lemma_candidates_next<I: MachineInspector>(inspector: &I, origin: u16, k: nat, n: nat)
    ensures
        candidates_below(inspector, origin, k, n + 1) == if chain_link(inspector, origin, n).0 == k {
            candidates_below(inspector, origin, k, n).push(n)
        } else {
            candidates_below(inspector, origin, k, n)
        },
        candidates_below(inspector, origin, k, 0) == Seq::<nat>::empty(),
{
    reveal(candidates_below);
}

proof fn lemma_links_end_next<I: MachineInspector>(inspector: &I, origin: u16, k: nat, n: nat)
    ensures
        !(n >= 3 * k + 3 || seek_finished(inspector, origin, k, n)) ==> links_end(inspector, origin, k, n)
            == links_end(inspector, origin, k, n + 1),
        seek_finished(inspector, origin, k, n) ==> links_end(inspector, origin, k, n) == n,
{
    reveal(links_end);
}

proof fn lemma_best_next<I: MachineInspector>(inspector: &I, origin: u16, candidates: Seq<nat>, m: nat)
    ensures
        best_candidate(inspector, origin, candidates, 1) == candidates[0],
        m >= 1 ==> best_candidate(inspector, origin, candidates, m + 1) == if chain_link(
            inspector,
            origin,
            candidates[m as int],
        ).1 < chain_link(inspector, origin, best_candidate(inspector, origin, candidates, m)).1 {
            candidates[m as int]
        } else {
            best_candidate(inspector, origin, candidates, m)
        },
{
    reveal(best_candidate);
}

proof fn lemma_chain_link_bounds<I: MachineInspector>(inspector: &I, origin: u16, n: nat)
    ensures
        3 * chain_link(inspector, origin, n).0 >= n,
        chain_link(inspector, origin, n).0 <= n,
        0 <= chain_link(inspector, origin, n).1 <= chain_link(inspector, origin, n).0,
    decreases n,
{
    if n > 0 {
        let address = add16(origin, -n);
        let length = instruction_length(inspector, address) as nat;
        let step = if length <= n {
            length
        } else {
            1
        };
        lemma_chain_link_next(inspector, origin, n);
        lemma_chain_link_bounds(inspector, origin, (n - step) as nat);
    } else {
        lemma_chain_link_origin(inspector, origin);
    }
}

proof fn lemma_seek_ends<I: MachineInspector>(inspector: &I, origin: u16, k: nat)
    ensures
        seek_finished(inspector, origin, k, 3 * k + 3),
{
    lemma_chain_link_bounds(inspector, origin, 3 * k + 2);
    lemma_chain_link_bounds(inspector, origin, 3 * k + 1);
    lemma_chain_link_bounds(inspector, origin, 3 * k);
}

proof fn lemma_candidate_reached<I: MachineInspector>(inspector: &I, origin: u16, k: nat, m: nat)
    requires
        k >= 1,
        chain_link(inspector, origin, m).0 >= k,
    ensures
        exists|j: nat| 1 <= j <= m && #[trigger] chain_link(inspector, origin, j).0 == k,
    decreases m,
{
    let address = add16(origin, -m);
    let length = instruction_length(inspector, address) as nat;
    let step = if length <= m {
        length
    } else {
        1
    };
    lemma_chain_link_origin(inspector, origin);
    assert(m > 0);
    lemma_chain_link_next(inspector, origin, m);
    let target = (m - step) as nat;
    if chain_link(inspector, origin, target).0 >= k {
        lemma_candidate_reached(inspector, origin, k, target);
    } else {
        assert(chain_link(inspector, origin, m).0 == k);
    }
}

proof fn lemma_candidates_below<I: MachineInspector>(inspector: &I, origin: u16, k: nat, n: nat)
    ensures
        forall|i: int|
            0 <= i < candidates_below(inspector, origin, k, n).len() ==> #[trigger] candidates_below(
                inspector,
                origin,
                k,
                n,
            )[i] < n && chain_link(inspector, origin, candidates_below(inspector, origin, k, n)[i]).0
                == k,
        forall|j: nat|
            j < n && #[trigger] chain_link(inspector, origin, j).0 == k ==> candidates_below(
                inspector,
                origin,
                k,
                n,
            ).contains(j),
    decreases n,
{
    lemma_candidates_next(inspector, origin, k, (n - 1) as nat);
    if n > 0 {
        lemma_candidates_below(inspector, origin, k, (n - 1) as nat);
        let before = candidates_below(inspector, origin, k, (n - 1) as nat);
        if chain_link(inspector, origin, (n - 1) as nat).0 == k {
            assert forall|j: nat| j < n && #[trigger] chain_link(inspector, origin, j).0 == k implies candidates_below(
                inspector,
                origin,
                k,
                n,
            ).contains(j) by {
                if j < n - 1 {
                    let i = choose|i: int| 0 <= i < before.len() && before[i] == j;
                    assert(before.push((n - 1) as nat)[i] == j);
                } else {
                    assert(before.push((n - 1) as nat)[before.len() as int] == j);
                }
            }
        }
    }
}

/// Adds a given number of instructions (`offset`) to the `origin` address. If
/// the offset is positive, adding is analogous to the actual disassembly
/// process; if it's negative, we use a heuristic algorithm that minimizes the
/// number of unknown instructions.
pub fn seek_instruction<I: MachineInspector>(inspector: &I, origin: u16, offset: i64) -> (r: u16)
    requires
        offset < 0 ==> 3 * (-offset) + 3 <= usize::MAX && 3 * (-offset) + 3 <= i64::MAX,
    ensures
        offset >= 0 ==> r == seek_forward_spec(inspector, origin, offset as nat),
        offset < 0 ==> r == seek_backward_spec(inspector, origin, (-offset) as nat),
{
    let mut stream = MemoryStream::new(inspector, origin);

    if offset >= 0 {
        let mut i: i64 = 0;
        while i < offset
            invariant
                0 <= i <= offset,
                stream.inspector == inspector,
                stream.ptr == seek_forward_spec(inspector, origin, i as nat),
            decreases offset - i,
        {
            stream.read_instruction();
            i = i + 1;
        }
        return stream.ptr;
    }
    let ghost k: nat = (-offset) as nat;
    // A chain link at index `i` represents a (potential) instruction that
    // starts at address `origin - i`. The first chain link is obviously the
    // origin instruction itself.
    let mut chain_links: Vec<ChainLink> = Vec::new();
    chain_links.push(ChainLink { num_instructions: 0, num_unknown_instructions: 0 });

    // Each candidate link is guaranteed to be exactly `-offset` instructions
    // away from the origin.
    let mut candidate_link_indices: Vec<usize> = Vec::new();
    proof {
        lemma_seek_ends(inspector, origin, k);
        lemma_chain_link_origin(inspector, origin);
        lemma_candidates_next(inspector, origin, k, 0);
    }

    // Repeat the loop until at least 3 trailing chain links have at least the
    // required number of instructions: a 6502 instruction has at most 3 bytes.
    while !seeking_backward_finished(&chain_links, offset)
        invariant
            offset < 0,
            k == -offset,
            3 * k + 3 <= usize::MAX,
            3 * k + 3 <= i64::MAX,
            1 <= chain_links@.len() <= 3 * k + 3,
            seek_finished(inspector, origin, k, 3 * k + 3),
            stream.inspector == inspector,
            stream.ptr == add16(origin, -(chain_links@.len() - 1)),
            forall|j: int|
                0 <= j < chain_links@.len() ==> (#[trigger] chain_links@[j]).num_instructions
                    == chain_link(inspector, origin, j as nat).0
                    && chain_links@[j].num_unknown_instructions == chain_link(
                    inspector,
                    origin,
                    j as nat,
                ).1,
            candidate_link_indices@.len() == candidates_below(
                inspector,
                origin,
                k,
                chain_links@.len() as nat,
            ).len(),
            forall|j: int|
                0 <= j < candidate_link_indices@.len() ==> #[trigger] candidate_link_indices@[j]
                    == candidates_below(inspector, origin, k, chain_links@.len() as nat)[j],
            links_end(inspector, origin, k, 1) == links_end(
                inspector,
                origin,
                k,
                chain_links@.len() as nat,
            ),
        decreases 3 * k + 3 - chain_links@.len(),
    {
        let n = chain_links.len();
        proof {
            assert(!seek_finished(inspector, origin, k, n as nat));
            assert(n < 3 * k + 3);
            lemma_chain_link_bounds(inspector, origin, n as nat);
            lemma_chain_link_next(inspector, origin, n as nat);
            lemma_candidates_next(inspector, origin, k, n as nat);
            lemma_links_end_next(inspector, origin, k, n as nat);
        }
        // Go back one instruction and back up that pointer, since we'll
        // attempt to consume an instruction from here.
        let ptr = stream.ptr.wrapping_sub(1);
        stream.ptr = ptr;
        proof {
            assert(ptr == add16(origin, -(n as int)));
        }

        let instruction = stream.read_instruction();
        let is_unknown = match instruction.descriptor {
            Some(_) => false,
            None => true,
        };
        let consumed = stream.ptr.wrapping_sub(ptr) as usize;
        proof {
            let length = instruction_length(inspector, ptr);
            assert(1 <= length <= 3);
            assert(consumed == length);
        }

        // The target link offset denotes number of bytes until the next link
        // after current instruction. In a special case where after consuming
        // the instruction, we end up crossing the origin (in other words, we
        // skip more chain links than we have), we only move by one
        // instruction; in this case, the disassembly algorithm needs to treat
        // this instruction as a data byte, possibly an end of a data segment
        // right before the code block where the PC is currently pointing at.
        let target_link_offset = if consumed <= n {
            consumed
        } else {
            1
        };
        let target_link_index = n - target_link_offset;
        let target_link = chain_links[target_link_index];
        proof {
            lemma_chain_link_bounds(inspector, origin, target_link_index as nat);
        }

        // The current instruction, after being consumed, leads to this target
        // link.
        let link = ChainLink {
            num_instructions: target_link.num_instructions + 1,
            num_unknown_instructions: if is_unknown {
                target_link.num_unknown_instructions + 1
            } else {
                target_link.num_unknown_instructions
            },
        };

        // If we hit exactly the required number of instructions, we mark the
        // current instruction as a candidate link.
        if link.num_instructions == -offset {
            candidate_link_indices.push(n);
        }
        chain_links.push(link);

        // Go back to where the current instruction started.
        stream.ptr = ptr;
        proof {
            assert(chain_links@[n as int] == link);
            assert(!(n >= 3 * k + 3 || seek_finished(inspector, origin, k, n as nat)));
        }
    }

    let ghost n_links = chain_links@.len() as nat;
    let ghost candidates = candidates_below(inspector, origin, k, n_links);
    proof {
        assert(seek_finished(inspector, origin, k, n_links));
        lemma_links_end_next(inspector, origin, k, n_links);
        lemma_best_next(inspector, origin, candidates, 0);
        lemma_candidate_reached(inspector, origin, k, (n_links - 1) as nat);
        lemma_candidates_below(inspector, origin, k, n_links);
        let j = choose|j: nat| 1 <= j <= n_links - 1 && #[trigger] chain_link(inspector, origin, j).0 == k;
        assert(candidates.contains(j));
    }

    // Once we finish computing the candidate links, we return the one with the
    // smallest number of unknown instructions.
    let mut best = candidate_link_indices[0];
    let mut m: usize = 1;
    while m < candidate_link_indices.len()
        invariant
            1 <= m <= candidate_link_indices@.len(),
            candidate_link_indices@.len() == candidates.len(),
            forall|j: int| 0 <= j < candidate_link_indices@.len() ==> #[trigger] candidate_link_indices@[j] == candidates[j],
            forall|j: int| 0 <= j < candidates.len() ==> #[trigger] candidates[j] < chain_links@.len(),
            forall|j: int|
                0 <= j < chain_links@.len() ==> (#[trigger] chain_links@[j]).num_unknown_instructions
                    == chain_link(inspector, origin, j as nat).1,
            best == best_candidate(inspector, origin, candidates, m as nat),
            best < chain_links@.len(),
        decreases candidate_link_indices@.len() - m,
    {
        let index = candidate_link_indices[m];
        proof {
            lemma_best_next(inspector, origin, candidates, m as nat);
        }
        if chain_links[index].num_unknown_instructions < chain_links[best].num_unknown_instructions {
            best = index;
        }
        m = m + 1;
    }
    origin.wrapping_sub(best as u16)
}

} // verus!
