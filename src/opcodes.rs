//! The opcode table: for each implemented opcode byte, its mnemonic,
//! addressing mode, length in bytes and base cycle count.
use vstd::prelude::*;
use crate::addressing::{AddressingMode, operand_width};

verus! {

/// The operations this core implements.
#[derive(Clone, Copy, Debug, PartialEq, Eq, Structural)]
pub enum Mnemonic {
    /// Break: the interrupt it raises on hardware is outside this core, so
    /// it executes as a no-op.
    Brk,
    Inx,
    Lda,
    Nop,
    Pha,
    Php,
    Pla,
    Plp,
    Sta,
    Tax,
    Tsx,
    Txs,
}

/// Metadata of one opcode byte.
#[derive(Clone, Copy, Debug, PartialEq, Eq, Structural)]
pub struct OpCode {
    pub code: u8,
    pub mnemonic: Mnemonic,
    pub mode: AddressingMode,
    pub len: u8,
    pub cycles: u8,
}

pub open spec fn entry(code: u8, mnemonic: Mnemonic, mode: AddressingMode, len: u8, cycles: u8) -> Option<OpCode> {
    Some(OpCode { code, mnemonic, mode, len, cycles })
}

/// The table row of `code`, if the opcode is implemented.
pub open spec fn opcode_entry(code: u8) -> Option<OpCode> {
    match code {
        0x00 => entry(0x00, Mnemonic::Brk, AddressingMode::NoneAddressing, 1, 7),
        0xEA => entry(0xEA, Mnemonic::Nop, AddressingMode::NoneAddressing, 1, 2),
        0xA9 => entry(0xA9, Mnemonic::Lda, AddressingMode::Immediate, 2, 2),
        0xA5 => entry(0xA5, Mnemonic::Lda, AddressingMode::ZeroPage, 2, 3),
        0xB5 => entry(0xB5, Mnemonic::Lda, AddressingMode::ZeroPageX, 2, 4),
        0xAD => entry(0xAD, Mnemonic::Lda, AddressingMode::Absolute, 3, 4),
        0xBD => entry(0xBD, Mnemonic::Lda, AddressingMode::AbsoluteX, 3, 4),
        0xB9 => entry(0xB9, Mnemonic::Lda, AddressingMode::AbsoluteY, 3, 4),
        0xA1 => entry(0xA1, Mnemonic::Lda, AddressingMode::IndirectX, 2, 6),
        0xB1 => entry(0xB1, Mnemonic::Lda, AddressingMode::IndirectY, 2, 5),
        0x85 => entry(0x85, Mnemonic::Sta, AddressingMode::ZeroPage, 2, 3),
        0x95 => entry(0x95, Mnemonic::Sta, AddressingMode::ZeroPageX, 2, 4),
        0x8D => entry(0x8D, Mnemonic::Sta, AddressingMode::Absolute, 3, 4),
        0x9D => entry(0x9D, Mnemonic::Sta, AddressingMode::AbsoluteX, 3, 5),
        0x99 => entry(0x99, Mnemonic::Sta, AddressingMode::AbsoluteY, 3, 5),
        0x81 => entry(0x81, Mnemonic::Sta, AddressingMode::IndirectX, 2, 6),
        0x91 => entry(0x91, Mnemonic::Sta, AddressingMode::IndirectY, 2, 6),
        0xAA => entry(0xAA, Mnemonic::Tax, AddressingMode::NoneAddressing, 1, 2),
        0xE8 => entry(0xE8, Mnemonic::Inx, AddressingMode::NoneAddressing, 1, 2),
        0x9A => entry(0x9A, Mnemonic::Txs, AddressingMode::NoneAddressing, 1, 2),
        0xBA => entry(0xBA, Mnemonic::Tsx, AddressingMode::NoneAddressing, 1, 2),
        0x48 => entry(0x48, Mnemonic::Pha, AddressingMode::NoneAddressing, 1, 3),
        0x08 => entry(0x08, Mnemonic::Php, AddressingMode::NoneAddressing, 1, 3),
        0x68 => entry(0x68, Mnemonic::Pla, AddressingMode::NoneAddressing, 1, 4),
        0x28 => entry(0x28, Mnemonic::Plp, AddressingMode::NoneAddressing, 1, 4),
        _ => None,
    }
}

fn row(code: u8, mnemonic: Mnemonic, mode: AddressingMode, len: u8, cycles: u8) -> (r: Option<OpCode>)
    ensures
        r == entry(code, mnemonic, mode, len, cycles),
{
    Some(OpCode { code, mnemonic, mode, len, cycles })
}

/// Looks up the table row of an opcode byte; `None` for an opcode this core
/// does not implement. A row's length is the opcode byte plus the operand
/// bytes its addressing mode consumes.
pub fn lookup(code: u8) -> (r: Option<OpCode>)
    ensures
        r == opcode_entry(code),
        r matches Some(op) ==> op.code == code && op.len == 1 + operand_width(op.mode),
{
    match code {
        0x00 => row(0x00, Mnemonic::Brk, AddressingMode::NoneAddressing, 1, 7),
        0xEA => row(0xEA, Mnemonic::Nop, AddressingMode::NoneAddressing, 1, 2),
        0xA9 => row(0xA9, Mnemonic::Lda, AddressingMode::Immediate, 2, 2),
        0xA5 => row(0xA5, Mnemonic::Lda, AddressingMode::ZeroPage, 2, 3),
        0xB5 => row(0xB5, Mnemonic::Lda, AddressingMode::ZeroPageX, 2, 4),
        0xAD => row(0xAD, Mnemonic::Lda, AddressingMode::Absolute, 3, 4),
        0xBD => row(0xBD, Mnemonic::Lda, AddressingMode::AbsoluteX, 3, 4),
        0xB9 => row(0xB9, Mnemonic::Lda, AddressingMode::AbsoluteY, 3, 4),
        0xA1 => row(0xA1, Mnemonic::Lda, AddressingMode::IndirectX, 2, 6),
        0xB1 => row(0xB1, Mnemonic::Lda, AddressingMode::IndirectY, 2, 5),
        0x85 => row(0x85, Mnemonic::Sta, AddressingMode::ZeroPage, 2, 3),
        0x95 => row(0x95, Mnemonic::Sta, AddressingMode::ZeroPageX, 2, 4),
        0x8D => row(0x8D, Mnemonic::Sta, AddressingMode::Absolute, 3, 4),
        0x9D => row(0x9D, Mnemonic::Sta, AddressingMode::AbsoluteX, 3, 5),
        0x99 => row(0x99, Mnemonic::Sta, AddressingMode::AbsoluteY, 3, 5),
        0x81 => row(0x81, Mnemonic::Sta, AddressingMode::IndirectX, 2, 6),
        0x91 => row(0x91, Mnemonic::Sta, AddressingMode::IndirectY, 2, 6),
        0xAA => row(0xAA, Mnemonic::Tax, AddressingMode::NoneAddressing, 1, 2),
        0xE8 => row(0xE8, Mnemonic::Inx, AddressingMode::NoneAddressing, 1, 2),
        0x9A => row(0x9A, Mnemonic::Txs, AddressingMode::NoneAddressing, 1, 2),
        0xBA => row(0xBA, Mnemonic::Tsx, AddressingMode::NoneAddressing, 1, 2),
        0x48 => row(0x48, Mnemonic::Pha, AddressingMode::NoneAddressing, 1, 3),
        0x08 => row(0x08, Mnemonic::Php, AddressingMode::NoneAddressing, 1, 3),
        0x68 => row(0x68, Mnemonic::Pla, AddressingMode::NoneAddressing, 1, 4),
        0x28 => row(0x28, Mnemonic::Plp, AddressingMode::NoneAddressing, 1, 4),
        _ => None,
    }
}

} // verus!
