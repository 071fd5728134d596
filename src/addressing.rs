//! Addressing modes: how an instruction's operand location is computed from
//! the bytes that follow its opcode and from the index registers.
use vstd::prelude::*;
use crate::ram::{RAM, word_at, word_of, MEMORY_SIZE};

verus! {

#[derive(Clone, Copy, Debug, PartialEq, Eq, Structural)]
pub enum AddressingMode {
    Immediate,
    ZeroPage,
    ZeroPageX,
    ZeroPageY,
    Absolute,
    AbsoluteX,
    AbsoluteY,
    IndirectX,
    IndirectY,
    NoneAddressing,
}

/// Number of operand bytes a mode consumes after the opcode.
pub open spec fn operand_width(mode: AddressingMode) -> nat {
    match mode {
        AddressingMode::Absolute | AddressingMode::AbsoluteX | AddressingMode::AbsoluteY => 2,
        AddressingMode::NoneAddressing => 0,
        _ => 1,
    }
}

/// The program counter moved forward by `n`, wrapping modulo 0x10000.
pub open spec fn advance(pc: u16, n: int) -> u16 {
    ((pc + n) % 0x10000) as u16
}

/// `base + index` with 8-bit wraparound, kept in page zero.
pub open spec fn add8(base: u8, index: u8) -> u8 {
    ((base + index) % 256) as u8
}

/// `base + index` with 16-bit wraparound.
pub open spec fn add16(base: u16, index: u8) -> u16 {
    ((base + index) % 0x10000) as u16
}

/// The little-endian word at a page-zero pointer; its high byte is read from
/// `ptr + 1` wrapped within page zero.
pub open spec fn zero_page_word(mem: Seq<u8>, ptr: u8) -> u16 {
    word_of(mem[ptr as int], mem[add8(ptr, 1) as int])
}

/// The effective address of an operand whose first byte is at `pc`, and the
/// program counter after the operand.
pub open spec fn resolve(mem: Seq<u8>, mode: AddressingMode, pc: u16, x: u8, y: u8) -> (u16, u16) {
    let addr = match mode {
        AddressingMode::Immediate => pc,
        AddressingMode::ZeroPage => mem[pc as int] as u16,
        AddressingMode::ZeroPageX => add8(mem[pc as int], x) as u16,
        AddressingMode::ZeroPageY => add8(mem[pc as int], y) as u16,
        AddressingMode::Absolute => word_at(mem, pc),
        AddressingMode::AbsoluteX => add16(word_at(mem, pc), x),
        AddressingMode::AbsoluteY => add16(word_at(mem, pc), y),
        AddressingMode::IndirectX => zero_page_word(mem, add8(mem[pc as int], x)),
        AddressingMode::IndirectY => add16(zero_page_word(mem, mem[pc as int]), y),
        AddressingMode::NoneAddressing => pc,
    };
    (addr, advance(pc, operand_width(mode) as int))
}

fn zero_page_pointee(mem: &RAM, ptr: u8) -> (r: u16)
    requires
        mem.wf(),
    ensures
        r == zero_page_word(mem@, ptr),
{
    let lo = mem.read_byte(ptr as u16);
    let hi = mem.read_byte(ptr.wrapping_add(1) as u16);
    crate::ram::join_bytes(lo, hi)
}

/// Resolves the operand of `mode` whose first byte is at `pc`, returning the
/// effective address and the program counter past the operand.
pub fn resolve_operand(mem: &RAM, mode: AddressingMode, pc: u16, x: u8, y: u8) -> (r: (u16, u16))
    requires
        mem.wf(),
    ensures
        r == resolve(mem@, mode, pc, x, y),
{
    match mode {
        AddressingMode::Immediate => (pc, pc.wrapping_add(1)),
        AddressingMode::ZeroPage => (mem.read_byte(pc) as u16, pc.wrapping_add(1)),
        AddressingMode::ZeroPageX => {
            let pos = mem.read_byte(pc);
            (pos.wrapping_add(x) as u16, pc.wrapping_add(1))
        },
        AddressingMode::ZeroPageY => {
            let pos = mem.read_byte(pc);
            (pos.wrapping_add(y) as u16, pc.wrapping_add(1))
        },
        AddressingMode::Absolute => (mem.read_word(pc), pc.wrapping_add(2)),
        AddressingMode::AbsoluteX => {
            let base = mem.read_word(pc);
            (base.wrapping_add(x as u16), pc.wrapping_add(2))
        },
        AddressingMode::AbsoluteY => {
            let base = mem.read_word(pc);
            (base.wrapping_add(y as u16), pc.wrapping_add(2))
        },
        AddressingMode::IndirectX => {
            let base = mem.read_byte(pc);
            let ptr = base.wrapping_add(x);
            (zero_page_pointee(mem, ptr), pc.wrapping_add(1))
        },
        AddressingMode::IndirectY => {
            let base = mem.read_byte(pc);
            let deref_base = zero_page_pointee(mem, base);
            (deref_base.wrapping_add(y as u16), pc.wrapping_add(1))
        },
        AddressingMode::NoneAddressing => (pc, pc),
    }
}

/// With index value 0, each indexed mode resolves to the address of its
/// non-indexed counterpart and consumes as many bytes: page-zero indexing
/// matches ZeroPage, absolute indexing matches Absolute, and both indirect
/// modes reduce to the plain word at the page-zero pointer.
pub proof fn lemma_zero_index(mem: Seq<u8>, pc: u16, x: u8, y: u8)
    requires
        mem.len() == MEMORY_SIZE,
    ensures
        resolve(mem, AddressingMode::ZeroPageX, pc, 0, y) == resolve(
            mem,
            AddressingMode::ZeroPage,
            pc,
            x,
            y,
        ),
        resolve(mem, AddressingMode::ZeroPageY, pc, x, 0) == resolve(
            mem,
            AddressingMode::ZeroPage,
            pc,
            x,
            y,
        ),
        resolve(mem, AddressingMode::AbsoluteX, pc, 0, y) == resolve(
            mem,
            AddressingMode::Absolute,
            pc,
            x,
            y,
        ),
        resolve(mem, AddressingMode::AbsoluteY, pc, x, 0) == resolve(
            mem,
            AddressingMode::Absolute,
            pc,
            x,
            y,
        ),
        resolve(mem, AddressingMode::IndirectX, pc, 0, y) == resolve(
            mem,
            AddressingMode::IndirectY,
            pc,
            x,
            0,
        ),
        resolve(mem, AddressingMode::IndirectX, pc, 0, y).0 == zero_page_word(mem, mem[pc as int]),
{
}

} // verus!
