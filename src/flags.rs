//! The processor status byte: eight named flags packed into one byte.
use vstd::prelude::*;

verus! {

/// A flag of the status byte, listed from bit 0 up (layout `NV B1 B0 D I Z C`).
#[derive(Clone, Copy, Debug, PartialEq, Eq, Structural)]
pub enum CPUFlag {
    Carry,
    Zero,
    InterruptDisable,
    Decimal,
    B0,
    B1,
    Overflow,
    Negative,
}

/// The single bit of the status byte that `f` owns.
pub open spec fn flag_mask(f: CPUFlag) -> u8 {
    match f {
        CPUFlag::Carry => 0x01,
        CPUFlag::Zero => 0x02,
        CPUFlag::InterruptDisable => 0x04,
        CPUFlag::Decimal => 0x08,
        CPUFlag::B0 => 0x10,
        CPUFlag::B1 => 0x20,
        CPUFlag::Overflow => 0x40,
        CPUFlag::Negative => 0x80,
    }
}

/// Whether `f` is set in `status`.
pub open spec fn flag_is_set(status: u8, f: CPUFlag) -> bool {
    status & flag_mask(f) != 0
}

/// `status` with the bit of `f` cleared, then set again when `val` holds.
pub open spec fn with_flag(status: u8, f: CPUFlag, val: bool) -> u8 {
    (status & !flag_mask(f)) | (if val { flag_mask(f) } else { 0u8 })
}

/// `status` with Zero and Negative derived from a result byte: Zero when the
/// byte is 0, Negative when its bit 7 is set.
pub open spec fn with_zn(status: u8, result: u8) -> u8 {
    with_flag(with_flag(status, CPUFlag::Zero, result == 0), CPUFlag::Negative, result & 0x80 != 0)
}

/// A mask owned by a flag is a single bit.
pub open spec fn single_bit(m: u8) -> bool {
    m == 0x01 || m == 0x02 || m == 0x04 || m == 0x08 || m == 0x10 || m == 0x20 || m == 0x40 || m
        == 0x80
}

pub fn flag_bitmask(flag: CPUFlag) -> (m: u8)
    ensures
        m == flag_mask(flag),
{
    match flag {
        CPUFlag::Carry => 0b0000_0001,
        CPUFlag::Zero => 0b0000_0010,
        CPUFlag::InterruptDisable => 0b0000_0100,
        CPUFlag::Decimal => 0b0000_1000,
        CPUFlag::B0 => 0b0001_0000,
        CPUFlag::B1 => 0b0010_0000,
        CPUFlag::Overflow => 0b0100_0000,
        CPUFlag::Negative => 0b1000_0000,
    }
}

proof fn lemma_mask_facts(f: CPUFlag, g: CPUFlag)
    ensures
        single_bit(flag_mask(f)),
        f != g ==> flag_mask(f) & flag_mask(g) == 0,
{
    let (m, n) = (flag_mask(f), flag_mask(g));
    assert(single_bit(m) && single_bit(n) && m != n ==> m & n == 0) by (bit_vector);
}

/// Setting a flag makes it read back as the value given, and keeps every
/// other bit of the status byte, so every other flag too.
pub proof fn lemma_with_flag(status: u8, f: CPUFlag, val: bool)
    ensures
        flag_is_set(with_flag(status, f, val), f) == val,
        with_flag(status, f, val) & !flag_mask(f) == status & !flag_mask(f),
        forall|g: CPUFlag|
            g != f ==> flag_is_set(#[trigger] with_flag(status, f, val), g) == flag_is_set(status, g),
{
    let m = flag_mask(f);
    let r = with_flag(status, f, val);
    lemma_mask_facts(f, f);
    assert(single_bit(m) ==> ((r & m != 0) == val && r & !m == status & !m)) by (bit_vector)
        requires
            r == (status & !m) | (if val { m } else { 0u8 }),
    ;
    assert forall|g: CPUFlag| g != f implies flag_is_set(#[trigger] with_flag(status, f, val), g)
        == flag_is_set(status, g) by {
        let n = flag_mask(g);
        lemma_mask_facts(f, g);
        assert(r & !m == status & !m && m & n == 0 ==> r & n == status & n) by (bit_vector);
    }
}

/// Setting a flag and then clearing it leaves the other seven bits of the
/// status byte as they were, and the flag itself clear.
pub proof fn lemma_set_then_clear_isolated(status: u8, f: CPUFlag)
    ensures
        with_flag(with_flag(status, f, true), f, false) & !flag_mask(f) == status & !flag_mask(f),
        !flag_is_set(with_flag(with_flag(status, f, true), f, false), f),
{
    lemma_with_flag(status, f, true);
    lemma_with_flag(with_flag(status, f, true), f, false);
}

/// After deriving Zero and Negative from a byte, Zero tells whether the byte
/// is 0, Negative tells whether its bit 7 is set, and no other flag changes.
pub proof fn lemma_with_zn(status: u8, result: u8)
    ensures
        flag_is_set(with_zn(status, result), CPUFlag::Zero) == (result == 0),
        flag_is_set(with_zn(status, result), CPUFlag::Negative) == (result & 0x80 != 0),
        forall|g: CPUFlag|
            g != CPUFlag::Zero && g != CPUFlag::Negative ==> flag_is_set(
                #[trigger] with_zn(status, result),
                g,
            ) == flag_is_set(status, g),
{
    let s1 = with_flag(status, CPUFlag::Zero, result == 0);
    lemma_with_flag(status, CPUFlag::Zero, result == 0);
    lemma_with_flag(s1, CPUFlag::Negative, result & 0x80 != 0);
}

} // verus!
