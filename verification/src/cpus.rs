//! The capability interfaces a CPU family implements so that the
//! orchestrator can be written once: placing the program counter, decoding
//! the next instruction, and decoding a whole byte slice.

use vstd::prelude::*;

use crate::mos6510::{Cpu6510, DecodeFault};
use crate::types::DisassembledLine;

verus! {

/// A decoder over some memory image: yields one decoded line per call
/// until end of input, or a decode fault.
pub trait DisassemblerTrait {
    /// The decoder's own well-formedness condition.
    spec fn inv(&self) -> bool;

    fn disassemble_next(&mut self) -> (r: Result<Option<DisassembledLine>, DecodeFault>)
        requires
            old(self).inv(),
        ensures
            final(self).inv(),
    ;
}

/// A decoder whose program counter can be placed before a run.
pub trait CpuTrait: DisassemblerTrait {
    fn set_pc(&mut self, pc: u32)
        requires
            old(self).inv(),
        ensures
            final(self).inv(),
    ;
}

/// Decoding of a whole byte slice from an offset into an ordered list of
/// lines.
pub trait Disassembler {
    fn disassemble(&self, offset: usize, code: &[u8]) -> Vec<DisassembledLine>;
}

impl DisassemblerTrait for Cpu6510 {
    open spec fn inv(&self) -> bool {
        self.wf()
    }

    fn disassemble_next(&mut self) -> (r: Result<Option<DisassembledLine>, DecodeFault>) {
        Cpu6510::disassemble_next(self)
    }
}

impl CpuTrait for Cpu6510 {
    fn set_pc(&mut self, pc: u32) {
        Cpu6510::set_pc(self, pc)
    }
}

} // verus!
