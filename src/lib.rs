//! A MOS 6502 instruction-set core: memory bus, status flags, addressing
//! modes, stack discipline and the fetch-decode-execute loop.
pub mod addressing;
pub mod cpu;
pub mod flags;
pub mod opcodes;
pub mod ram;
