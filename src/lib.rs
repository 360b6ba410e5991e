//! An instruction-level emulator for a 6502-family processor: a flat 64 KiB
//! memory, a status register, an opcode decoder and a fetch-decode-execute
//! engine that runs against a cycle budget.

pub mod cpu;
pub mod error;
pub mod memory;
pub mod opcode;
pub mod status;
