//! The MOS 6510 fetch-and-decode engine: a program counter advancing over a
//! memory image, turning one opcode byte plus its operand bytes into one
//! structured decoded line per instruction.

use vstd::prelude::*;
use vstd::string::StringExecFns;

use crate::addressing::{spec_operand_text, spec_pc_inc, AddressingMode};
use crate::memory::{sign8, word_le, BinaryBuffer};
use crate::opcodes::{lookup, opcode_flags, opcode_mnemonic, opcode_mode, UNDOC_OPCODE};
use crate::types::{empty_line_model, DisassembledLine, LineModel, LineType};

verus! {

/// A fatal decode fault: the byte stream cannot be interpreted as a
/// complete instruction at the faulting address.  Each variant carries the
/// absolute address and the opcode byte of the offending instruction.
#[derive(Debug, Clone, Copy, PartialEq, Eq, Structural)]
pub enum DecodeFault {
    /// The memory image ends before the instruction's operand bytes.
    TruncatedOperand { address: u32, opcode: u8 },
    /// A relative-branch target lies outside the 16-bit address space.
    TargetOutOfRange { address: u32, opcode: u8 },
}

/// The outcome of one decode step: end of input, a fatal fault, or a
/// decoded line together with the advanced program counter.
pub enum DecodeStep {
    End,
    Fault(DecodeFault),
    Next(LineModel, int),
}

/// The total length in bytes of the instruction an opcode byte begins.
pub open spec fn spec_instr_len(b: u8) -> int {
    spec_pc_inc(opcode_mode(b)) as int
}

/// Whether an opcode byte is flagged as undocumented.
pub open spec fn spec_is_undoc(b: u8) -> bool {
    opcode_flags(b) & UNDOC_OPCODE != 0
}

/// The absolute target of a relative branch at absolute address `addr`:
/// the address of the next instruction plus the signed displacement.
pub open spec fn spec_target(addr: int, off: u8) -> int {
    addr + 2 + sign8(off)
}

/// The first sixteen raw bytes of an instruction, zero-filled past its
/// length.
pub open spec fn spec_byte_code(b0: u8, b1: u8, b2: u8, len: int) -> Seq<u8> {
    Seq::new(
        16,
        |i: int|
            if i == 0 {
                b0
            } else if i == 1 && len >= 2 {
                b1
            } else if i == 2 && len >= 3 {
                b2
            } else {
                0u8
            },
    )
}

/// The line emitted for an undocumented opcode: mnemonic `???`, length one,
/// no operand.
pub open spec fn spec_undoc_line(b: u8, addr: u32) -> LineModel {
    LineModel {
        line_type: LineType::UnknownInstruction,
        address: addr,
        flags: opcode_flags(b),
        opcode: "???"@,
        byte_code: spec_byte_code(b, 0, 0, 1),
        ..empty_line_model()
    }
}

/// The operand value of a documented instruction at `pc`: the raw byte for
/// two-byte instructions, the little-endian word for three-byte ones.
pub open spec fn spec_operand_value(mem: Seq<u8>, pc: int, b: u8) -> int
    recommends
        0 <= pc,
        pc + spec_instr_len(b) <= mem.len(),
{
    if spec_instr_len(b) == 2 {
        mem[pc + 1] as int
    } else if spec_instr_len(b) == 3 {
        word_le(mem[pc + 1], mem[pc + 2])
    } else {
        0
    }
}

/// The line decoded for a documented instruction at `pc`, assuming its
/// operand bytes are in bounds and a relative target, if any, is in range.
pub open spec fn spec_normal_line(mem: Seq<u8>, base: u32, pc: int) -> LineModel
    recommends
        0 <= pc < mem.len(),
        pc + spec_instr_len(mem[pc]) <= mem.len(),
        base + mem.len() <= 0x1_0000_0000,
{
    let b = mem[pc];
    let mode = opcode_mode(b);
    let len = spec_instr_len(b);
    let value = if mode is AddrRelative {
        spec_target(base + pc, mem[pc + 1])
    } else {
        spec_operand_value(mem, pc, b)
    };
    LineModel {
        line_type: LineType::Instruction,
        instr_size: (len - 1) as u8,
        address: (base + pc) as u32,
        address_ref: if len >= 2 && !(mode is AddrImmediate) {
            value as u32
        } else {
            0
        },
        byte_code: spec_byte_code(
            b,
            if len >= 2 {
                mem[pc + 1]
            } else {
                0
            },
            if len >= 3 {
                mem[pc + 2]
            } else {
                0
            },
            len,
        ),
        opcode: opcode_mnemonic(b),
        operand: if len == 1 {
            Seq::empty()
        } else {
            spec_operand_text(mode, value as u16)
        },
        flags: opcode_flags(b),
        ..empty_line_model()
    }
}

/// One step of the decoder at program-counter offset `pc`: end of input at
/// or past the image's end; a line of length one for an undocumented
/// opcode; a fault if the operand bytes run past the end of the image or a
/// relative target leaves the 16-bit address space; otherwise the decoded
/// line and the program counter advanced by the instruction's length.
pub open spec fn spec_step(mem: Seq<u8>, base: u32, pc: int) -> DecodeStep
    recommends
        0 <= pc,
        mem.len() <= 0x10000,
        base + mem.len() <= 0x1_0000_0000,
{
    if pc >= mem.len() {
        DecodeStep::End
    } else {
        let b = mem[pc];
        let addr = (base + pc) as u32;
        if spec_is_undoc(b) {
            DecodeStep::Next(spec_undoc_line(b, addr), pc + 1)
        } else {
            let len = spec_instr_len(b);
            if pc + len > mem.len() {
                DecodeStep::Fault(DecodeFault::TruncatedOperand { address: addr, opcode: b })
            } else if opcode_mode(b) is AddrRelative {
                let t = spec_target(base + pc, mem[pc + 1]);
                if t < 0 || t > 0xFFFF {
                    DecodeStep::Fault(DecodeFault::TargetOutOfRange { address: addr, opcode: b })
                } else {
                    DecodeStep::Next(spec_normal_line(mem, base, pc), pc + len)
                }
            } else {
                DecodeStep::Next(spec_normal_line(mem, base, pc), pc + len)
            }
        }
    }
}

/// The number of bytes left ahead of a cursor, zero once the cursor is at
/// or past the end of the image.
pub open spec fn remaining(mem_len: int, pc: int) -> int {
    if pc <= mem_len {
        mem_len - pc
    } else {
        0
    }
}

/// The decoder: a program-counter cursor (an offset into the image) over a
/// read-only memory image.
#[derive(Debug)]
pub struct Cpu6510 {
    pc: usize,
    memory: BinaryBuffer,
}

impl Cpu6510 {
    /// The bytes of the image the decoder walks.
    pub closed spec fn mem(&self) -> Seq<u8> {
        self.memory.spec_data()
    }

    /// The absolute address of the first byte of the image.
    pub closed spec fn base(&self) -> u32 {
        self.memory.spec_loaded_address()
    }

    /// The current program-counter offset.
    pub closed spec fn spec_pc(&self) -> int {
        self.pc as int
    }

    /// The image is well formed and the cursor never rests more than one
    /// instruction past a full 64 KiB image.
    pub closed spec fn wf(&self) -> bool {
        &&& self.memory.wf()
        &&& self.pc <= 0x10003
    }

    /// What well-formedness guarantees about the publicly visible model.
    pub proof fn lemma_wf(&self)
        requires
            self.wf(),
        ensures
            0 <= self.spec_pc() <= 0x10003,
            self.mem().len() <= 0x10000,
            self.base() + self.mem().len() <= 0x1_0000_0000,
    {
        self.memory.lemma_wf();
    }

    pub fn new(memory: BinaryBuffer) -> (r: Cpu6510)
        requires
            memory.wf(),
        ensures
            r.wf(),
            r.mem() == memory.spec_data(),
            r.base() == memory.spec_loaded_address(),
            r.spec_pc() == memory.spec_loaded_address() as u16 as int,
    {
        Cpu6510 { pc: (memory.get_loaded_address() as u16) as usize, memory }
    }

    /// Places the cursor; the offset is truncated to the 16-bit space the
    /// program counter addresses.
    pub fn set_pc(&mut self, pc: u32)
        requires
            old(self).wf(),
        ensures
            final(self).wf(),
            final(self).mem() == old(self).mem(),
            final(self).base() == old(self).base(),
            final(self).spec_pc() == pc as u16 as int,
    {
        self.pc = (pc as u16) as usize;
    }

    /// Fetches and decodes one instruction at the cursor, advancing the
    /// cursor past it: `Ok(None)` at end of input, `Err` on a decode fault
    /// (the cursor then stays put), and otherwise the decoded line.
    pub fn disassemble_next(&mut self) -> (r: Result<Option<DisassembledLine>, DecodeFault>)
        requires
            old(self).wf(),
        ensures
            final(self).wf(),
            final(self).mem() == old(self).mem(),
            final(self).base() == old(self).base(),
            match spec_step(old(self).mem(), old(self).base(), old(self).spec_pc()) {
                DecodeStep::End => r == Ok::<Option<DisassembledLine>, DecodeFault>(None)
                    && final(self).spec_pc() == old(self).spec_pc(),
                DecodeStep::Fault(f) => r == Err::<Option<DisassembledLine>, DecodeFault>(f)
                    && final(self).spec_pc() == old(self).spec_pc(),
                DecodeStep::Next(lm, pc2) => (r matches Ok(Some(line)) && line@ == lm)
                    && final(self).spec_pc() == pc2,
            },
    {
        let ghost mem = self.mem();
        let ghost base = self.base();
        let ghost pc0 = self.spec_pc();
        proof {
            self.memory.lemma_wf();
        }
        let size = self.memory.get_size();
        if self.pc >= size {
            return Ok(None);
        }
        let current_address: u32 = self.memory.get_loaded_address() + self.pc as u32;
        let fetched_opcode: u8 = self.memory.read_byte(self.pc as u32);
        let opcode = lookup(fetched_opcode);
        let mut dasm_line = DisassembledLine::new();

        dasm_line.address = current_address;
        dasm_line.flags = opcode.flags;

        if opcode.flags & UNDOC_OPCODE != 0 {
            dasm_line.opcode = "???".to_owned();
            dasm_line.line_type = LineType::UnknownInstruction;
            dasm_line.byte_code = bytes16(fetched_opcode, 0, 0);
            self.pc += 1;
            proof {
                assert(dasm_line@.byte_code =~= spec_undoc_line(fetched_opcode, current_address)
                    .byte_code);
                assert(dasm_line@ == spec_undoc_line(fetched_opcode, current_address));
            }
            return Ok(Some(dasm_line));
        }
        let pc_inc = AddressingMode::get_pc_inc(&opcode.addressing);
        dasm_line.instr_size = pc_inc - 1;
        dasm_line.opcode = opcode.mnemonic.to_owned();
        dasm_line.line_type = LineType::Instruction;

        if self.pc + pc_inc as usize > size {
            return Err(
                DecodeFault::TruncatedOperand { address: current_address, opcode: fetched_opcode },
            );
        }
        if dasm_line.instr_size == 0 {
            dasm_line.byte_code = bytes16(fetched_opcode, 0, 0);
        } else {
            let address: u16;
            if dasm_line.instr_size == 1 {
                let byte = self.memory.read_byte(self.pc as u32 + 1);
                dasm_line.byte_code = bytes16(fetched_opcode, byte, 0);
                if !matches!(opcode.addressing, AddressingMode::AddrRelative) {
                    address = byte as u16;
                } else {
                    let displacement: i64 = if byte < 0x80 {
                        byte as i64
                    } else {
                        byte as i64 - 256
                    };
                    let target: i64 = current_address as i64 + displacement + 2;
                    if 0 <= target && target <= 0xFFFF {
                        address = target as u16;
                    } else {
                        return Err(
                            DecodeFault::TargetOutOfRange {
                                address: current_address,
                                opcode: fetched_opcode,
                            },
                        );
                    }
                }
                dasm_line.operand = AddressingMode::format_string(&opcode.addressing, address);
            } else {
                let word = self.memory.read_word_le(self.pc as u32 + 1);
                let lo = self.memory.read_byte(self.pc as u32 + 1);
                let hi = self.memory.read_byte(self.pc as u32 + 2);
                dasm_line.byte_code = bytes16(fetched_opcode, lo, hi);
                address = word;
                dasm_line.operand = AddressingMode::format_string(&opcode.addressing, address);
            }
            if !matches!(opcode.addressing, AddressingMode::AddrImmediate) {
                dasm_line.address_ref = address as u32;
            }
        }
        self.pc += pc_inc as usize;
        proof {
            assert(dasm_line@.byte_code =~= spec_normal_line(mem, base, pc0).byte_code);
            assert(dasm_line@ == spec_normal_line(mem, base, pc0));
        }
        Ok(Some(dasm_line))
    }
}

/// A 16-byte raw-byte buffer holding up to three instruction bytes.
fn bytes16(b0: u8, b1: u8, b2: u8) -> (r: [u8; 16])
    ensures
        r@ =~= Seq::new(
            16,
            |i: int|
                if i == 0 {
                    b0
                } else if i == 1 {
                    b1
                } else if i == 2 {
                    b2
                } else {
                    0u8
                },
        ),
{
    [b0, b1, b2, 0, 0, 0, 0, 0, 0, 0, 0, 0, 0, 0, 0, 0]
}

} // verus!
