//! A verified instruction-set emulator for the MOS 6502 microprocessor.
//!
//! The crate models the processor's register file, status flags and 64 KiB
//! address space, resolves every addressing mode, and executes the 151
//! documented opcodes through a bit-trie dispatch table.  Each instruction
//! handler carries a contract that pins down the registers, the flags and
//! the memory after the instruction, bit for bit.

pub mod addressing;
pub mod arith;
pub mod opcodes;
pub mod semantics;
pub mod status;
pub mod system;
pub mod table;
pub mod trie;
