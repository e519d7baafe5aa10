//! Core interpreter for an 8-bit microprocessor compatible with the Sharp
//! LR35902 (the Game Boy CPU): a fetch-decode-execute engine over a 64 KiB
//! memory map, with verified register, flag, and instruction semantics.

pub mod arith;
pub mod cpu;
pub mod disasm;
pub mod flags;
pub mod hexfmt;
pub mod memory;
pub mod opcodes;
pub mod table_builder;
pub mod register;

use vstd::prelude::*;

verus! {

/// The error taxonomy of the core. Everything else (out-of-range addresses,
/// wrapping arithmetic) is normal and wraps by the architectural rules.
#[derive(Copy, Clone, Debug, PartialEq, Eq, Structural)]
pub enum CpuError {
    /// A ROM image larger than 32 KiB was handed to the loader.
    RomTooLarge,
    /// The fetched opcode has no defined instruction; fatal.
    IllegalOpcode { opcode: u8, pc: u16 },
    /// An operand was used in a way no instruction permits; fatal.
    UndefinedOperandUse,
}

} // verus!
