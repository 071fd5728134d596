//! Flat 64 KiB memory bus with little-endian word accessors.
use vstd::prelude::*;

verus! {

/// Number of addressable bytes: the whole 16-bit address space.
pub const MEMORY_SIZE: usize = 0x10000;

/// The address that follows `a`, wrapping from 0xFFFF to 0x0000.
pub open spec fn next_addr(a: u16) -> u16 {
    ((a + 1) % 0x10000) as u16
}

/// The low byte of a 16-bit word.
pub open spec fn low_byte(w: u16) -> u8 {
    (w % 256) as u8
}

/// The high byte of a 16-bit word.
pub open spec fn high_byte(w: u16) -> u8 {
    (w / 256) as u8
}

/// The 16-bit word made of a low and a high byte.
pub open spec fn word_of(lo: u8, hi: u8) -> u16 {
    (hi * 256 + lo) as u16
}

/// The little-endian word stored at `a` and at the address after it.
pub open spec fn word_at(mem: Seq<u8>, a: u16) -> u16 {
    word_of(mem[a as int], mem[next_addr(a) as int])
}

/// Memory after writing the word `w` at `a`: low byte at `a`, high byte after it.
pub open spec fn with_word(mem: Seq<u8>, a: u16, w: u16) -> Seq<u8> {
    mem.update(a as int, low_byte(w)).update(next_addr(a) as int, high_byte(w))
}

pub struct RAM {
    pub mem_array: Vec<u8>,
}

impl View for RAM {
    type V = Seq<u8>;

    open spec fn view(&self) -> Seq<u8> {
        self.mem_array@
    }
}

impl RAM {
    /// The backing store covers the whole address space.
    pub open spec fn wf(&self) -> bool {
        self@.len() == MEMORY_SIZE
    }

    /// Zero-filled memory.
    pub fn new() -> (r: Self)
        ensures
            r.wf(),
            forall|i: int| 0 <= i < MEMORY_SIZE ==> r@[i] == 0u8,
    {
        RAM { mem_array: vec![0u8; MEMORY_SIZE] }
    }

    pub fn write_byte(&mut self, index: u16, data: u8)
        requires
            old(self).wf(),
        ensures
            final(self).wf(),
            final(self)@ == old(self)@.update(index as int, data),
    {
        self.mem_array.set(index as usize, data);
    }

    pub fn read_byte(&self, index: u16) -> (r: u8)
        requires
            self.wf(),
        ensures
            r == self@[index as int],
    {
        self.mem_array[index as usize]
    }

    pub fn write_word(&mut self, index: u16, data: u16)
        requires
            old(self).wf(),
        ensures
            final(self).wf(),
            final(self)@ == with_word(old(self)@, index, data),
    {
        let hi = (data >> 8) as u8;
        let lo = (data & 0x00FF) as u8;
        assert(hi == high_byte(data) && lo == low_byte(data)) by (bit_vector)
            requires
                hi == (data >> 8) as u8,
                lo == (data & 0x00FF) as u8,
        ;
        self.write_byte(index, lo);
        self.write_byte(index.wrapping_add(1), hi);
    }

    pub fn read_word(&self, index: u16) -> (r: u16)
        requires
            self.wf(),
        ensures
            r == word_at(self@, index),
    {
        let lo = self.read_byte(index);
        let hi = self.read_byte(index.wrapping_add(1));
        join_bytes(lo, hi)
    }
}

/// The word with low byte `lo` and high byte `hi`.
pub fn join_bytes(lo: u8, hi: u8) -> (r: u16)
    ensures
        r == word_of(lo, hi),
{
    let (h, l) = (hi as u16, lo as u16);
    let r = (h << 8) | l;
    assert(r == h * 256 + l) by (bit_vector)
        requires
            r == (h << 8) | l,
            h < 256,
            l < 256,
    ;
    r
}

/// Writing a word and reading it back at the same address returns that word,
/// with its low byte at the address and its high byte at the next one.
pub proof fn lemma_word_round_trip(mem: Seq<u8>, a: u16, w: u16)
    requires
        mem.len() == MEMORY_SIZE,
    ensures
        word_at(with_word(mem, a, w), a) == w,
        with_word(mem, a, w)[a as int] == low_byte(w),
        with_word(mem, a, w)[next_addr(a) as int] == high_byte(w),
{
}

} // verus!
