//! The structured record produced for each decoded instruction, and its
//! mathematical model.

use vstd::prelude::*;

use crate::opcodes::UNINITIALIZED_OPCODE;

verus! {

/// The kind of a disassembled line.
#[derive(Debug, Clone, Copy, PartialEq, Eq, Structural)]
pub enum LineType {
    Unset,
    Instruction,
    UnknownInstruction,
    Comment,
}

/// One decoded instruction: its absolute address, raw bytes, mnemonic,
/// rendered operand (or generated label), classification flags, and, for
/// control-flow instructions, the absolute target address.  `instr_size`
/// counts the operand bytes that follow the opcode byte, so the whole
/// instruction occupies `instr_size + 1` bytes.
#[derive(Debug)]
pub struct DisassembledLine {
    pub line_type: LineType,
    pub instr_size: u8,
    pub address: u32,
    pub address_ref: u32,
    pub offset: u32,
    pub return_address: u32,
    pub byte_code: [u8; 16],
    pub opcode: String,
    pub operand: String,
    pub label: String,
    pub comment: String,
    pub flags: u32,
}

/// The mathematical model of a `DisassembledLine`: the same fields with
/// every string seen as its character sequence.
pub struct LineModel {
    pub line_type: LineType,
    pub instr_size: u8,
    pub address: u32,
    pub address_ref: u32,
    pub offset: u32,
    pub return_address: u32,
    pub byte_code: Seq<u8>,
    pub opcode: Seq<char>,
    pub operand: Seq<char>,
    pub label: Seq<char>,
    pub comment: Seq<char>,
    pub flags: u32,
}

impl View for DisassembledLine {
    type V = LineModel;

    open spec fn view(&self) -> LineModel {
        LineModel {
            line_type: self.line_type,
            instr_size: self.instr_size,
            address: self.address,
            address_ref: self.address_ref,
            offset: self.offset,
            return_address: self.return_address,
            byte_code: self.byte_code@,
            opcode: self.opcode@,
            operand: self.operand@,
            label: self.label@,
            comment: self.comment@,
            flags: self.flags,
        }
    }
}

/// The model of a freshly created, empty line.
pub open spec fn empty_line_model() -> LineModel {
    LineModel {
        line_type: LineType::Unset,
        instr_size: 0,
        address: 0,
        address_ref: 0,
        offset: 0,
        return_address: 0,
        byte_code: Seq::new(16, |i: int| 0u8),
        opcode: Seq::empty(),
        operand: Seq::empty(),
        label: Seq::empty(),
        comment: Seq::empty(),
        flags: UNINITIALIZED_OPCODE,
    }
}

impl DisassembledLine {
    /// A fresh line with every field empty or zero.
    pub fn new() -> (r: DisassembledLine)
        ensures
            r@ == empty_line_model(),
    {
        let r = DisassembledLine {
            line_type: LineType::Unset,
            instr_size: 0,
            address: 0,
            address_ref: 0,
            offset: 0,
            return_address: 0,
            byte_code: [0; 16],
            opcode: String::new(),
            operand: String::new(),
            label: String::new(),
            comment: String::new(),
            flags: UNINITIALIZED_OPCODE,
        };
        proof {
            assert(r@.byte_code =~= empty_line_model().byte_code);
            assert(r@ == empty_line_model());
        }
        r
    }

    /// A fresh line carrying only a kind, an address, an offset and a label.
    pub fn from(line_type: LineType, address: u32, offset: u32, label: &str) -> (r:
        DisassembledLine)
        ensures
            r@ == (LineModel {
                line_type,
                address,
                offset,
                label: label@,
                ..empty_line_model()
            }),
    {
        let r = DisassembledLine {
            line_type,
            instr_size: 0,
            address,
            address_ref: 0,
            offset,
            return_address: 0,
            byte_code: [0; 16],
            opcode: String::new(),
            operand: String::new(),
            label: label.to_owned(),
            comment: String::new(),
            flags: UNINITIALIZED_OPCODE,
        };
        proof {
            assert(r@.byte_code =~= empty_line_model().byte_code);
            assert(r@ == (LineModel {
                line_type,
                address,
                offset,
                label: label@,
                ..empty_line_model()
            }));
        }
        r
    }
}

} // verus!
