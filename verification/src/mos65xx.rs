//! An earlier, generic 65xx decoder shell: a cursor over an optional
//! memory image.  The full fetch-and-decode engine lives with the MOS 6510
//! decoder; this shell keeps the family's construction surface.

use vstd::prelude::*;
use vstd::string::StringExecFns;

use crate::addressing::{spec_pc_inc, AddressingMode};
use crate::memory::BinaryBuffer;
use crate::opcodes::{Opcode, UNDOC_OPCODE};
use crate::types::{empty_line_model, DisassembledLine, LineModel};

verus! {

/// A 65xx-family decoder shell: a program counter and the image it will
/// walk, once one is attached.
pub struct Cpu65xx {
    pc: u16,
    memory: Option<BinaryBuffer>,
}

impl Cpu65xx {
    /// The current program counter.
    pub closed spec fn spec_pc(&self) -> u16 {
        self.pc
    }

    /// Whether an image is attached.
    pub closed spec fn has_memory(&self) -> bool {
        self.memory is Some
    }

    pub fn new(memory: BinaryBuffer) -> (r: Cpu65xx)
        ensures
            r.spec_pc() == 0,
            r.has_memory(),
    {
        Cpu65xx { pc: 0x0000, memory: Some(memory) }
    }

    /// Begins a line for an opcode at an address: undocumented opcodes get
    /// the sentinel mnemonic at once, everything else starts empty.
    #[allow(dead_code)]
    fn build_dasm_line(opcode: Opcode, address: usize) -> (r: DisassembledLine)
        requires
            address <= u32::MAX,
        ensures
            r@ == (LineModel {
                address: address as u32,
                opcode: if opcode.flags & UNDOC_OPCODE != 0 {
                    "???"@
                } else {
                    Seq::<char>::empty()
                },
                ..empty_line_model()
            }),
    {
        let mut dasm_line = DisassembledLine::new();
        dasm_line.address = address as u32;

        if opcode.flags & UNDOC_OPCODE != 0 {
            dasm_line.opcode = "???".to_owned();
            return dasm_line;
        }
        dasm_line
    }

    /// The total instruction length in bytes that a mode dictates.
    #[allow(dead_code)]
    fn get_pc_inc_from_addressing(&self, addressing: &AddressingMode) -> (r: u8)
        ensures
            r == spec_pc_inc(*addressing),
    {
        match addressing {
            AddressingMode::AddrImplied | AddressingMode::AddrAccumulator => 1,
            AddressingMode::AddrImmediate
            | AddressingMode::AddrZeroPage
            | AddressingMode::AddrZeroPageX
            | AddressingMode::AddrZeroPageY
            | AddressingMode::AddrIndirectX
            | AddressingMode::AddrIndirectY
            | AddressingMode::AddrRelative => 2,
            _ => 3,
        }
    }
}

} // verus!
