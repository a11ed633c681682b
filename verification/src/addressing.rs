//! The thirteen MOS 6510 addressing modes: each mode fixes the total
//! instruction length and the textual template of the rendered operand.

use vstd::prelude::*;
use vstd::string::StringExecFns;

use crate::digits::{hex2, hex4, push_hex2, push_hex4};

verus! {

/// An instruction's addressing mode, selecting how many operand bytes
/// follow the opcode byte and how the operand is rendered.
#[derive(Debug, Clone, Copy, PartialEq, Eq, Structural)]
pub enum AddressingMode {
    AddrImplied,
    AddrAccumulator,
    AddrImmediate,
    AddrZeroPage,
    AddrZeroPageX,
    AddrZeroPageY,
    AddrAbsolute,
    AddrAbsoluteX,
    AddrAbsoluteY,
    AddrIndirectX,
    AddrIndirectY,
    AddrRelative,
    AddrIndirect,
}

/// The total instruction length in bytes (opcode byte included) that an
/// addressing mode dictates: one, two or three.
pub open spec fn spec_pc_inc(mode: AddressingMode) -> u8 {
    match mode {
        AddressingMode::AddrImplied => 1,
        AddressingMode::AddrAccumulator => 1,
        AddressingMode::AddrImmediate => 2,
        AddressingMode::AddrZeroPage => 2,
        AddressingMode::AddrZeroPageX => 2,
        AddressingMode::AddrZeroPageY => 2,
        AddressingMode::AddrIndirectX => 2,
        AddressingMode::AddrIndirectY => 2,
        AddressingMode::AddrRelative => 2,
        AddressingMode::AddrAbsolute => 3,
        AddressingMode::AddrAbsoluteX => 3,
        AddressingMode::AddrAbsoluteY => 3,
        AddressingMode::AddrIndirect => 3,
    }
}

/// Whether a mode's operand is rendered as a single byte (two hexadecimal
/// digits); the remaining operand-bearing modes render four digits.
pub open spec fn is_byte_operand_mode(mode: AddressingMode) -> bool {
    match mode {
        AddressingMode::AddrImmediate => true,
        AddressingMode::AddrZeroPage => true,
        AddressingMode::AddrZeroPageX => true,
        AddressingMode::AddrZeroPageY => true,
        AddressingMode::AddrIndirectX => true,
        AddressingMode::AddrIndirectY => true,
        _ => false,
    }
}

/// The rendered operand text of a mode for a given operand value:
/// `#$NN` for immediate, `$NN` (with `,X`/`,Y` suffixes) for zero-page
/// forms, `$NNNN` (with suffixes) for absolute and relative forms, and the
/// parenthesized forms for the indirect modes.  Implied and accumulator
/// modes render no operand.
pub open spec fn spec_operand_text(mode: AddressingMode, value: u16) -> Seq<char>
    recommends
        is_byte_operand_mode(mode) ==> value < 256,
{
    match mode {
        AddressingMode::AddrImplied => Seq::empty(),
        AddressingMode::AddrAccumulator => Seq::empty(),
        AddressingMode::AddrImmediate => seq!['#', '$'] + hex2(value as int),
        AddressingMode::AddrZeroPage => seq!['$'] + hex2(value as int),
        AddressingMode::AddrZeroPageX => seq!['$'] + hex2(value as int) + seq![',', 'X'],
        AddressingMode::AddrZeroPageY => seq!['$'] + hex2(value as int) + seq![',', 'Y'],
        AddressingMode::AddrAbsolute => seq!['$'] + hex4(value as int),
        AddressingMode::AddrAbsoluteX => seq!['$'] + hex4(value as int) + seq![',', 'X'],
        AddressingMode::AddrAbsoluteY => seq!['$'] + hex4(value as int) + seq![',', 'Y'],
        AddressingMode::AddrIndirectX => seq!['(', '$'] + hex2(value as int) + seq![',', 'X', ')'],
        AddressingMode::AddrIndirectY => seq!['(', '$'] + hex2(value as int) + seq![')', ',', 'Y'],
        AddressingMode::AddrRelative => seq!['$'] + hex4(value as int),
        AddressingMode::AddrIndirect => seq!['(', '$'] + hex4(value as int) + seq![')'],
    }
}

impl AddressingMode {
    /// Renders an operand value in the fixed textual template of a mode.
    pub fn format_string(addressing: &AddressingMode, value: u16) -> (r: String)
        requires
            is_byte_operand_mode(*addressing) ==> value < 256,
        ensures
            r@ == spec_operand_text(*addressing, value),
    {
        let mut s = String::new();
        match addressing {
            AddressingMode::AddrImplied | AddressingMode::AddrAccumulator => {
                proof {
                    assert(s@ =~= spec_operand_text(*addressing, value));
                }
            },
            AddressingMode::AddrImmediate => {
                s.append("#$");
                push_hex2(&mut s, value as u8);
                proof {
                    reveal_strlit("#$");
                    assert(s@ =~= spec_operand_text(*addressing, value));
                }
            },
            AddressingMode::AddrZeroPage => {
                s.append("$");
                push_hex2(&mut s, value as u8);
                proof {
                    reveal_strlit("$");
                    assert(s@ =~= spec_operand_text(*addressing, value));
                }
            },
            AddressingMode::AddrZeroPageX => {
                s.append("$");
                push_hex2(&mut s, value as u8);
                s.append(",X");
                proof {
                    reveal_strlit("$");
                    reveal_strlit(",X");
                    assert(s@ =~= spec_operand_text(*addressing, value));
                }
            },
            AddressingMode::AddrZeroPageY => {
                s.append("$");
                push_hex2(&mut s, value as u8);
                s.append(",Y");
                proof {
                    reveal_strlit("$");
                    reveal_strlit(",Y");
                    assert(s@ =~= spec_operand_text(*addressing, value));
                }
            },
            AddressingMode::AddrAbsolute => {
                s.append("$");
                push_hex4(&mut s, value);
                proof {
                    reveal_strlit("$");
                    assert(s@ =~= spec_operand_text(*addressing, value));
                }
            },
            AddressingMode::AddrAbsoluteX => {
                s.append("$");
                push_hex4(&mut s, value);
                s.append(",X");
                proof {
                    reveal_strlit("$");
                    reveal_strlit(",X");
                    assert(s@ =~= spec_operand_text(*addressing, value));
                }
            },
            AddressingMode::AddrAbsoluteY => {
                s.append("$");
                push_hex4(&mut s, value);
                s.append(",Y");
                proof {
                    reveal_strlit("$");
                    reveal_strlit(",Y");
                    assert(s@ =~= spec_operand_text(*addressing, value));
                }
            },
            AddressingMode::AddrIndirectX => {
                s.append("($");
                push_hex2(&mut s, value as u8);
                s.append(",X)");
                proof {
                    reveal_strlit("($");
                    reveal_strlit(",X)");
                    assert(s@ =~= spec_operand_text(*addressing, value));
                }
            },
            AddressingMode::AddrIndirectY => {
                s.append("($");
                push_hex2(&mut s, value as u8);
                s.append("),Y");
                proof {
                    reveal_strlit("($");
                    reveal_strlit("),Y");
                    assert(s@ =~= spec_operand_text(*addressing, value));
                }
            },
            AddressingMode::AddrRelative => {
                s.append("$");
                push_hex4(&mut s, value);
                proof {
                    reveal_strlit("$");
                    assert(s@ =~= spec_operand_text(*addressing, value));
                }
            },
            AddressingMode::AddrIndirect => {
                s.append("($");
                push_hex4(&mut s, value);
                s.append(")");
                proof {
                    reveal_strlit("($");
                    reveal_strlit(")");
                    assert(s@ =~= spec_operand_text(*addressing, value));
                }
            },
        }
        s
    }

    /// The total instruction length in bytes that a mode dictates.
    pub fn get_pc_inc(addressing: &AddressingMode) -> (r: u8)
        ensures
            r == spec_pc_inc(*addressing),
    {
        match addressing {
            AddressingMode::AddrImplied | AddressingMode::AddrAccumulator => 1,
            AddressingMode::AddrImmediate
            | AddressingMode::AddrZeroPage
            | AddressingMode::AddrZeroPageX
            | AddressingMode::AddrZeroPageY
            | AddressingMode::AddrIndirectX
            | AddressingMode::AddrIndirectY
            | AddressingMode::AddrRelative => 2,
            _ => 3,
        }
    }
}

} // verus!
