//! A static disassembler for the MOS 6510 microprocessor.
//!
//! The library decodes a raw binary memory image into structured,
//! human-readable assembly lines.  A two-pass orchestrator walks the image
//! from a start address, collects branch, subroutine and jump targets, and
//! replaces numeric operands with deterministically generated labels.

pub mod addressing;
pub mod cpus;
pub mod dasm;
pub mod digits;
pub mod mc680x0;
pub mod memory;
pub mod mos6510;
pub mod mos65xx;
pub mod opcodes;
pub mod types;
pub mod utils;
