//! Instruction-execution core of an 8-bit, Z80-derived handheld console CPU:
//! a byte-addressable memory map and a fetch/decode/execute step over it.

pub mod cpu;
pub mod instruction;
pub mod lemmas;
pub mod memory;
pub mod registers;
