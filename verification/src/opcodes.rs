//! The static opcode table of the MOS 6510: a total mapping from each of
//! the 256 opcode byte values to an instruction descriptor (mnemonic,
//! addressing mode, classification flags).

use vstd::prelude::*;

use crate::addressing::AddressingMode;

verus! {

pub const UNINITIALIZED_OPCODE: u32 = 0;

pub const VALID_OPCODE: u32 = 1;

pub const UNDOC_OPCODE: u32 = 1u32 << 2;

pub const BRANCH_OPCODE: u32 = 1u32 << 3;

pub const SUBROUTINE_OPCODE: u32 = 1u32 << 4;

pub const JMP_OPCODE: u32 = 1u32 << 5;

pub const INVALID_OPCODE: u32 = 1u32 << 6;

pub const DATA_FLAG: u32 = 1u32 << 7;

pub const LOAD_FLAG: u32 = 1u32 << 8;

pub const STORE_FLAG: u32 = 1u32 << 9;

pub const INDIRECT_FLAG: u32 = 1u32 << 10;

/// One instruction descriptor of the opcode table.
pub struct Opcode {
    pub opcode: u32,
    pub addressing: AddressingMode,
    pub mnemonic: &'static str,
    pub flags: u32,
}

/// The addressing mode of each opcode byte value.
#[verifier::opaque]
pub open spec fn opcode_mode(b: u8) -> AddressingMode {
    match b {
        0x00 => AddressingMode::AddrImplied,
        0x01 => AddressingMode::AddrIndirectX,
        0x02 => AddressingMode::AddrImplied,
        0x03 => AddressingMode::AddrIndirectX,
        0x04 => AddressingMode::AddrZeroPage,
        0x05 => AddressingMode::AddrZeroPage,
        0x06 => AddressingMode::AddrZeroPage,
        0x07 => AddressingMode::AddrZeroPage,
        0x08 => AddressingMode::AddrImplied,
        0x09 => AddressingMode::AddrImmediate,
        0x0A => AddressingMode::AddrAccumulator,
        0x0B => AddressingMode::AddrImmediate,
        0x0C => AddressingMode::AddrAbsolute,
        0x0D => AddressingMode::AddrAbsolute,
        0x0E => AddressingMode::AddrAbsolute,
        0x0F => AddressingMode::AddrAbsolute,
        0x10 => AddressingMode::AddrRelative,
        0x11 => AddressingMode::AddrIndirectY,
        0x12 => AddressingMode::AddrImplied,
        0x13 => AddressingMode::AddrIndirectY,
        0x14 => AddressingMode::AddrZeroPageX,
        0x15 => AddressingMode::AddrZeroPageX,
        0x16 => AddressingMode::AddrZeroPageX,
        0x17 => AddressingMode::AddrZeroPageX,
        0x18 => AddressingMode::AddrImplied,
        0x19 => AddressingMode::AddrAbsoluteY,
        0x1A => AddressingMode::AddrImplied,
        0x1B => AddressingMode::AddrAbsoluteY,
        0x1C => AddressingMode::AddrAbsoluteX,
        0x1D => AddressingMode::AddrAbsoluteX,
        0x1E => AddressingMode::AddrAbsoluteX,
        0x1F => AddressingMode::AddrAbsoluteX,
        0x20 => AddressingMode::AddrAbsolute,
        0x21 => AddressingMode::AddrIndirectX,
        0x22 => AddressingMode::AddrImplied,
        0x23 => AddressingMode::AddrIndirectX,
        0x24 => AddressingMode::AddrZeroPage,
        0x25 => AddressingMode::AddrZeroPage,
        0x26 => AddressingMode::AddrZeroPage,
        0x27 => AddressingMode::AddrZeroPage,
        0x28 => AddressingMode::AddrImplied,
        0x29 => AddressingMode::AddrImmediate,
        0x2A => AddressingMode::AddrAccumulator,
        0x2B => AddressingMode::AddrImmediate,
        0x2C => AddressingMode::AddrAbsolute,
        0x2D => AddressingMode::AddrAbsolute,
        0x2E => AddressingMode::AddrAbsolute,
        0x2F => AddressingMode::AddrAbsolute,
        0x30 => AddressingMode::AddrRelative,
        0x31 => AddressingMode::AddrIndirectY,
        0x32 => AddressingMode::AddrImplied,
        0x33 => AddressingMode::AddrIndirectY,
        0x34 => AddressingMode::AddrZeroPageX,
        0x35 => AddressingMode::AddrZeroPageX,
        0x36 => AddressingMode::AddrZeroPageX,
        0x37 => AddressingMode::AddrZeroPageX,
        0x38 => AddressingMode::AddrImplied,
        0x39 => AddressingMode::AddrAbsoluteY,
        0x3A => AddressingMode::AddrImplied,
        0x3B => AddressingMode::AddrAbsoluteY,
        0x3C => AddressingMode::AddrAbsoluteX,
        0x3D => AddressingMode::AddrAbsoluteX,
        0x3E => AddressingMode::AddrAbsoluteX,
        0x3F => AddressingMode::AddrAbsoluteX,
        0x40 => AddressingMode::AddrImplied,
        0x41 => AddressingMode::AddrIndirectX,
        0x42 => AddressingMode::AddrImplied,
        0x43 => AddressingMode::AddrIndirectX,
        0x44 => AddressingMode::AddrZeroPage,
        0x45 => AddressingMode::AddrZeroPage,
        0x46 => AddressingMode::AddrZeroPage,
        0x47 => AddressingMode::AddrZeroPage,
        0x48 => AddressingMode::AddrImplied,
        0x49 => AddressingMode::AddrImmediate,
        0x4A => AddressingMode::AddrAccumulator,
        0x4B => AddressingMode::AddrImmediate,
        0x4C => AddressingMode::AddrAbsolute,
        0x4D => AddressingMode::AddrAbsolute,
        0x4E => AddressingMode::AddrAbsolute,
        0x4F => AddressingMode::AddrAbsolute,
        0x50 => AddressingMode::AddrRelative,
        0x51 => AddressingMode::AddrIndirectY,
        0x52 => AddressingMode::AddrImplied,
        0x53 => AddressingMode::AddrIndirectY,
        0x54 => AddressingMode::AddrZeroPageX,
        0x55 => AddressingMode::AddrZeroPageX,
        0x56 => AddressingMode::AddrZeroPageX,
        0x57 => AddressingMode::AddrZeroPageX,
        0x58 => AddressingMode::AddrImplied,
        0x59 => AddressingMode::AddrAbsoluteY,
        0x5A => AddressingMode::AddrImplied,
        0x5B => AddressingMode::AddrAbsoluteY,
        0x5C => AddressingMode::AddrAbsoluteX,
        0x5D => AddressingMode::AddrAbsoluteX,
        0x5E => AddressingMode::AddrAbsoluteX,
        0x5F => AddressingMode::AddrAbsoluteX,
        0x60 => AddressingMode::AddrImplied,
        0x61 => AddressingMode::AddrIndirectX,
        0x62 => AddressingMode::AddrImplied,
        0x63 => AddressingMode::AddrIndirectX,
        0x64 => AddressingMode::AddrZeroPage,
        0x65 => AddressingMode::AddrZeroPage,
        0x66 => AddressingMode::AddrZeroPage,
        0x67 => AddressingMode::AddrZeroPage,
        0x68 => AddressingMode::AddrImplied,
        0x69 => AddressingMode::AddrImmediate,
        0x6A => AddressingMode::AddrAccumulator,
        0x6B => AddressingMode::AddrImmediate,
        0x6C => AddressingMode::AddrIndirect,
        0x6D => AddressingMode::AddrAbsolute,
        0x6E => AddressingMode::AddrAbsolute,
        0x6F => AddressingMode::AddrAbsolute,
        0x70 => AddressingMode::AddrRelative,
        0x71 => AddressingMode::AddrIndirectY,
        0x72 => AddressingMode::AddrImplied,
        0x73 => AddressingMode::AddrIndirectY,
        0x74 => AddressingMode::AddrZeroPageX,
        0x75 => AddressingMode::AddrZeroPageX,
        0x76 => AddressingMode::AddrZeroPageX,
        0x77 => AddressingMode::AddrZeroPageX,
        0x78 => AddressingMode::AddrImplied,
        0x79 => AddressingMode::AddrAbsoluteY,
        0x7A => AddressingMode::AddrImplied,
        0x7B => AddressingMode::AddrAbsoluteY,
        0x7C => AddressingMode::AddrAbsoluteX,
        0x7D => AddressingMode::AddrAbsoluteX,
        0x7E => AddressingMode::AddrAbsoluteX,
        0x7F => AddressingMode::AddrAbsoluteX,
        0x80 => AddressingMode::AddrImmediate,
        0x81 => AddressingMode::AddrIndirectX,
        0x82 => AddressingMode::AddrImmediate,
        0x83 => AddressingMode::AddrIndirectX,
        0x84 => AddressingMode::AddrZeroPage,
        0x85 => AddressingMode::AddrZeroPage,
        0x86 => AddressingMode::AddrZeroPage,
        0x87 => AddressingMode::AddrZeroPage,
        0x88 => AddressingMode::AddrImplied,
        0x89 => AddressingMode::AddrImmediate,
        0x8A => AddressingMode::AddrImplied,
        0x8B => AddressingMode::AddrImmediate,
        0x8C => AddressingMode::AddrAbsolute,
        0x8D => AddressingMode::AddrAbsolute,
        0x8E => AddressingMode::AddrAbsolute,
        0x8F => AddressingMode::AddrAbsolute,
        0x90 => AddressingMode::AddrRelative,
        0x91 => AddressingMode::AddrIndirectY,
        0x92 => AddressingMode::AddrImplied,
        0x93 => AddressingMode::AddrAbsoluteX,
        0x94 => AddressingMode::AddrZeroPageX,
        0x95 => AddressingMode::AddrZeroPageX,
        0x96 => AddressingMode::AddrZeroPageY,
        0x97 => AddressingMode::AddrZeroPageY,
        0x98 => AddressingMode::AddrImplied,
        0x99 => AddressingMode::AddrAbsoluteY,
        0x9A => AddressingMode::AddrImplied,
        0x9B => AddressingMode::AddrAbsoluteY,
        0x9C => AddressingMode::AddrAbsoluteX,
        0x9D => AddressingMode::AddrAbsoluteX,
        0x9E => AddressingMode::AddrAbsoluteY,
        0x9F => AddressingMode::AddrAbsoluteY,
        0xA0 => AddressingMode::AddrImmediate,
        0xA1 => AddressingMode::AddrIndirectX,
        0xA2 => AddressingMode::AddrImmediate,
        0xA3 => AddressingMode::AddrIndirectX,
        0xA4 => AddressingMode::AddrZeroPage,
        0xA5 => AddressingMode::AddrZeroPage,
        0xA6 => AddressingMode::AddrZeroPage,
        0xA7 => AddressingMode::AddrZeroPage,
        0xA8 => AddressingMode::AddrImplied,
        0xA9 => AddressingMode::AddrImmediate,
        0xAA => AddressingMode::AddrImplied,
        0xAB => AddressingMode::AddrImmediate,
        0xAC => AddressingMode::AddrAbsolute,
        0xAD => AddressingMode::AddrAbsolute,
        0xAE => AddressingMode::AddrAbsolute,
        0xAF => AddressingMode::AddrAbsolute,
        0xB0 => AddressingMode::AddrRelative,
        0xB1 => AddressingMode::AddrIndirectY,
        0xB2 => AddressingMode::AddrImplied,
        0xB3 => AddressingMode::AddrIndirectY,
        0xB4 => AddressingMode::AddrZeroPageX,
        0xB5 => AddressingMode::AddrZeroPageX,
        0xB6 => AddressingMode::AddrZeroPageY,
        0xB7 => AddressingMode::AddrZeroPageY,
        0xB8 => AddressingMode::AddrImplied,
        0xB9 => AddressingMode::AddrAbsoluteY,
        0xBA => AddressingMode::AddrImplied,
        0xBB => AddressingMode::AddrAbsoluteY,
        0xBC => AddressingMode::AddrAbsoluteX,
        0xBD => AddressingMode::AddrAbsoluteX,
        0xBE => AddressingMode::AddrAbsoluteY,
        0xBF => AddressingMode::AddrAbsoluteY,
        0xC0 => AddressingMode::AddrImmediate,
        0xC1 => AddressingMode::AddrIndirectX,
        0xC2 => AddressingMode::AddrImmediate,
        0xC3 => AddressingMode::AddrIndirectX,
        0xC4 => AddressingMode::AddrZeroPage,
        0xC5 => AddressingMode::AddrZeroPage,
        0xC6 => AddressingMode::AddrZeroPage,
        0xC7 => AddressingMode::AddrZeroPage,
        0xC8 => AddressingMode::AddrImplied,
        0xC9 => AddressingMode::AddrImmediate,
        0xCA => AddressingMode::AddrImplied,
        0xCB => AddressingMode::AddrImmediate,
        0xCC => AddressingMode::AddrAbsolute,
        0xCD => AddressingMode::AddrAbsolute,
        0xCE => AddressingMode::AddrAbsolute,
        0xCF => AddressingMode::AddrAbsolute,
        0xD0 => AddressingMode::AddrRelative,
        0xD1 => AddressingMode::AddrIndirectY,
        0xD2 => AddressingMode::AddrImplied,
        0xD3 => AddressingMode::AddrIndirectY,
        0xD4 => AddressingMode::AddrZeroPageX,
        0xD5 => AddressingMode::AddrZeroPageX,
        0xD6 => AddressingMode::AddrZeroPageX,
        0xD7 => AddressingMode::AddrZeroPageX,
        0xD8 => AddressingMode::AddrImplied,
        0xD9 => AddressingMode::AddrAbsoluteY,
        0xDA => AddressingMode::AddrImplied,
        0xDB => AddressingMode::AddrAbsoluteY,
        0xDC => AddressingMode::AddrAbsoluteX,
        0xDD => AddressingMode::AddrAbsoluteX,
        0xDE => AddressingMode::AddrAbsoluteY,
        0xDF => AddressingMode::AddrAbsoluteX,
        0xE0 => AddressingMode::AddrImmediate,
        0xE1 => AddressingMode::AddrIndirectX,
        0xE2 => AddressingMode::AddrImmediate,
        0xE3 => AddressingMode::AddrIndirectX,
        0xE4 => AddressingMode::AddrZeroPage,
        0xE5 => AddressingMode::AddrZeroPage,
        0xE6 => AddressingMode::AddrZeroPage,
        0xE7 => AddressingMode::AddrZeroPage,
        0xE8 => AddressingMode::AddrImplied,
        0xE9 => AddressingMode::AddrImmediate,
        0xEA => AddressingMode::AddrImplied,
        0xEB => AddressingMode::AddrImmediate,
        0xEC => AddressingMode::AddrAbsolute,
        0xED => AddressingMode::AddrAbsolute,
        0xEE => AddressingMode::AddrAbsolute,
        0xEF => AddressingMode::AddrAbsolute,
        0xF0 => AddressingMode::AddrRelative,
        0xF1 => AddressingMode::AddrIndirectY,
        0xF2 => AddressingMode::AddrImplied,
        0xF3 => AddressingMode::AddrIndirectY,
        0xF4 => AddressingMode::AddrZeroPageX,
        0xF5 => AddressingMode::AddrZeroPageX,
        0xF6 => AddressingMode::AddrZeroPageX,
        0xF7 => AddressingMode::AddrZeroPageX,
        0xF8 => AddressingMode::AddrImplied,
        0xF9 => AddressingMode::AddrAbsoluteY,
        0xFA => AddressingMode::AddrImplied,
        0xFB => AddressingMode::AddrAbsoluteY,
        0xFC => AddressingMode::AddrAbsoluteX,
        0xFD => AddressingMode::AddrAbsoluteX,
        0xFE => AddressingMode::AddrAbsoluteY,
        _ => AddressingMode::AddrAbsoluteX,
    }
}

/// The classification flags of each opcode byte value.
#[verifier::opaque]
pub open spec fn opcode_flags(b: u8) -> u32 {
    match b {
        0x00 => VALID_OPCODE,
        0x01 => VALID_OPCODE,
        0x02 => UNDOC_OPCODE,
        0x03 => UNDOC_OPCODE,
        0x04 => UNDOC_OPCODE,
        0x05 => VALID_OPCODE,
        0x06 => VALID_OPCODE,
        0x07 => UNDOC_OPCODE,
        0x08 => VALID_OPCODE,
        0x09 => VALID_OPCODE,
        0x0A => VALID_OPCODE,
        0x0B => UNDOC_OPCODE,
        0x0C => UNDOC_OPCODE,
        0x0D => VALID_OPCODE,
        0x0E => VALID_OPCODE,
        0x0F => UNDOC_OPCODE,
        0x10 => VALID_OPCODE | BRANCH_OPCODE,
        0x11 => VALID_OPCODE,
        0x12 => UNDOC_OPCODE,
        0x13 => UNDOC_OPCODE,
        0x14 => UNDOC_OPCODE,
        0x15 => VALID_OPCODE,
        0x16 => VALID_OPCODE,
        0x17 => UNDOC_OPCODE,
        0x18 => VALID_OPCODE,
        0x19 => VALID_OPCODE,
        0x1A => UNDOC_OPCODE,
        0x1B => UNDOC_OPCODE,
        0x1C => UNDOC_OPCODE,
        0x1D => VALID_OPCODE,
        0x1E => VALID_OPCODE,
        0x1F => UNDOC_OPCODE,
        0x20 => VALID_OPCODE | SUBROUTINE_OPCODE,
        0x21 => VALID_OPCODE,
        0x22 => UNDOC_OPCODE,
        0x23 => UNDOC_OPCODE,
        0x24 => VALID_OPCODE,
        0x25 => VALID_OPCODE,
        0x26 => VALID_OPCODE,
        0x27 => UNDOC_OPCODE,
        0x28 => VALID_OPCODE,
        0x29 => VALID_OPCODE,
        0x2A => VALID_OPCODE,
        0x2B => UNDOC_OPCODE,
        0x2C => VALID_OPCODE,
        0x2D => VALID_OPCODE,
        0x2E => VALID_OPCODE,
        0x2F => UNDOC_OPCODE,
        0x30 => VALID_OPCODE | BRANCH_OPCODE,
        0x31 => VALID_OPCODE,
        0x32 => UNDOC_OPCODE,
        0x33 => UNDOC_OPCODE,
        0x34 => UNDOC_OPCODE,
        0x35 => VALID_OPCODE,
        0x36 => VALID_OPCODE,
        0x37 => UNDOC_OPCODE,
        0x38 => VALID_OPCODE,
        0x39 => VALID_OPCODE,
        0x3A => UNDOC_OPCODE,
        0x3B => UNDOC_OPCODE,
        0x3C => UNDOC_OPCODE,
        0x3D => VALID_OPCODE,
        0x3E => VALID_OPCODE,
        0x3F => UNDOC_OPCODE,
        0x40 => VALID_OPCODE,
        0x41 => VALID_OPCODE,
        0x42 => UNDOC_OPCODE,
        0x43 => UNDOC_OPCODE,
        0x44 => UNDOC_OPCODE,
        0x45 => VALID_OPCODE,
        0x46 => VALID_OPCODE,
        0x47 => UNDOC_OPCODE,
        0x48 => VALID_OPCODE,
        0x49 => VALID_OPCODE,
        0x4A => VALID_OPCODE,
        0x4B => UNDOC_OPCODE,
        0x4C => VALID_OPCODE | JMP_OPCODE,
        0x4D => VALID_OPCODE,
        0x4E => VALID_OPCODE,
        0x4F => UNDOC_OPCODE,
        0x50 => VALID_OPCODE | BRANCH_OPCODE,
        0x51 => VALID_OPCODE,
        0x52 => UNDOC_OPCODE,
        0x53 => UNDOC_OPCODE,
        0x54 => UNDOC_OPCODE,
        0x55 => VALID_OPCODE,
        0x56 => VALID_OPCODE,
        0x57 => UNDOC_OPCODE,
        0x58 => VALID_OPCODE,
        0x59 => VALID_OPCODE,
        0x5A => UNDOC_OPCODE,
        0x5B => UNDOC_OPCODE,
        0x5C => UNDOC_OPCODE,
        0x5D => VALID_OPCODE,
        0x5E => VALID_OPCODE,
        0x5F => UNDOC_OPCODE,
        0x60 => VALID_OPCODE,
        0x61 => VALID_OPCODE,
        0x62 => UNDOC_OPCODE,
        0x63 => UNDOC_OPCODE,
        0x64 => UNDOC_OPCODE,
        0x65 => VALID_OPCODE,
        0x66 => VALID_OPCODE,
        0x67 => UNDOC_OPCODE,
        0x68 => VALID_OPCODE,
        0x69 => VALID_OPCODE,
        0x6A => VALID_OPCODE,
        0x6B => UNDOC_OPCODE,
        0x6C => VALID_OPCODE | JMP_OPCODE,
        0x6D => VALID_OPCODE,
        0x6E => VALID_OPCODE,
        0x6F => UNDOC_OPCODE,
        0x70 => VALID_OPCODE | BRANCH_OPCODE,
        0x71 => VALID_OPCODE,
        0x72 => UNDOC_OPCODE,
        0x73 => UNDOC_OPCODE,
        0x74 => UNDOC_OPCODE,
        0x75 => VALID_OPCODE,
        0x76 => VALID_OPCODE,
        0x77 => UNDOC_OPCODE,
        0x78 => VALID_OPCODE,
        0x79 => VALID_OPCODE,
        0x7A => UNDOC_OPCODE,
        0x7B => UNDOC_OPCODE,
        0x7C => UNDOC_OPCODE,
        0x7D => VALID_OPCODE,
        0x7E => VALID_OPCODE,
        0x7F => UNDOC_OPCODE,
        0x80 => INVALID_OPCODE,
        0x81 => VALID_OPCODE,
        0x82 => UNDOC_OPCODE,
        0x83 => UNDOC_OPCODE,
        0x84 => VALID_OPCODE,
        0x85 => VALID_OPCODE,
        0x86 => VALID_OPCODE,
        0x87 => UNDOC_OPCODE,
        0x88 => VALID_OPCODE,
        0x89 => UNDOC_OPCODE,
        0x8A => VALID_OPCODE,
        0x8B => UNDOC_OPCODE,
        0x8C => VALID_OPCODE,
        0x8D => VALID_OPCODE,
        0x8E => VALID_OPCODE,
        0x8F => UNDOC_OPCODE,
        0x90 => VALID_OPCODE | BRANCH_OPCODE,
        0x91 => VALID_OPCODE,
        0x92 => UNDOC_OPCODE,
        0x93 => UNDOC_OPCODE,
        0x94 => VALID_OPCODE,
        0x95 => VALID_OPCODE,
        0x96 => VALID_OPCODE,
        0x97 => UNDOC_OPCODE,
        0x98 => VALID_OPCODE,
        0x99 => VALID_OPCODE,
        0x9A => VALID_OPCODE,
        0x9B => UNDOC_OPCODE,
        0x9C => UNDOC_OPCODE,
        0x9D => VALID_OPCODE,
        0x9E => UNDOC_OPCODE,
        0x9F => UNDOC_OPCODE,
        0xA0 => VALID_OPCODE,
        0xA1 => VALID_OPCODE,
        0xA2 => VALID_OPCODE,
        0xA3 => UNDOC_OPCODE,
        0xA4 => VALID_OPCODE,
        0xA5 => VALID_OPCODE,
        0xA6 => VALID_OPCODE,
        0xA7 => UNDOC_OPCODE,
        0xA8 => VALID_OPCODE,
        0xA9 => VALID_OPCODE,
        0xAA => VALID_OPCODE,
        0xAB => UNDOC_OPCODE,
        0xAC => VALID_OPCODE,
        0xAD => VALID_OPCODE,
        0xAE => VALID_OPCODE,
        0xAF => UNDOC_OPCODE,
        0xB0 => VALID_OPCODE | BRANCH_OPCODE,
        0xB1 => VALID_OPCODE,
        0xB2 => UNDOC_OPCODE,
        0xB3 => UNDOC_OPCODE,
        0xB4 => VALID_OPCODE,
        0xB5 => VALID_OPCODE,
        0xB6 => VALID_OPCODE,
        0xB7 => UNDOC_OPCODE,
        0xB8 => VALID_OPCODE,
        0xB9 => VALID_OPCODE,
        0xBA => VALID_OPCODE,
        0xBB => UNDOC_OPCODE,
        0xBC => VALID_OPCODE,
        0xBD => VALID_OPCODE,
        0xBE => VALID_OPCODE,
        0xBF => UNDOC_OPCODE,
        0xC0 => VALID_OPCODE,
        0xC1 => VALID_OPCODE,
        0xC2 => UNDOC_OPCODE,
        0xC3 => UNDOC_OPCODE,
        0xC4 => VALID_OPCODE,
        0xC5 => VALID_OPCODE,
        0xC6 => VALID_OPCODE,
        0xC7 => UNDOC_OPCODE,
        0xC8 => VALID_OPCODE,
        0xC9 => VALID_OPCODE,
        0xCA => VALID_OPCODE,
        0xCB => UNDOC_OPCODE,
        0xCC => VALID_OPCODE,
        0xCD => VALID_OPCODE,
        0xCE => VALID_OPCODE,
        0xCF => UNDOC_OPCODE,
        0xD0 => VALID_OPCODE | BRANCH_OPCODE,
        0xD1 => VALID_OPCODE,
        0xD2 => UNDOC_OPCODE,
        0xD3 => UNDOC_OPCODE,
        0xD4 => UNDOC_OPCODE,
        0xD5 => VALID_OPCODE,
        0xD6 => VALID_OPCODE,
        0xD7 => UNDOC_OPCODE,
        0xD8 => VALID_OPCODE,
        0xD9 => VALID_OPCODE,
        0xDA => UNDOC_OPCODE,
        0xDB => UNDOC_OPCODE,
        0xDC => UNDOC_OPCODE,
        0xDD => VALID_OPCODE,
        0xDE => VALID_OPCODE,
        0xDF => UNDOC_OPCODE,
        0xE0 => VALID_OPCODE,
        0xE1 => VALID_OPCODE,
        0xE2 => UNDOC_OPCODE,
        0xE3 => UNDOC_OPCODE,
        0xE4 => VALID_OPCODE,
        0xE5 => VALID_OPCODE,
        0xE6 => VALID_OPCODE,
        0xE7 => UNDOC_OPCODE,
        0xE8 => VALID_OPCODE,
        0xE9 => VALID_OPCODE,
        0xEA => VALID_OPCODE,
        0xEB => UNDOC_OPCODE,
        0xEC => VALID_OPCODE,
        0xED => VALID_OPCODE,
        0xEE => VALID_OPCODE,
        0xEF => UNDOC_OPCODE,
        0xF0 => VALID_OPCODE | BRANCH_OPCODE,
        0xF1 => VALID_OPCODE,
        0xF2 => UNDOC_OPCODE,
        0xF3 => UNDOC_OPCODE,
        0xF4 => UNDOC_OPCODE,
        0xF5 => VALID_OPCODE,
        0xF6 => VALID_OPCODE,
        0xF7 => UNDOC_OPCODE,
        0xF8 => VALID_OPCODE,
        0xF9 => VALID_OPCODE,
        0xFA => UNDOC_OPCODE,
        0xFB => UNDOC_OPCODE,
        0xFC => UNDOC_OPCODE,
        0xFD => VALID_OPCODE,
        0xFE => VALID_OPCODE,
        _ => UNDOC_OPCODE,
    }
}

/// The mnemonic of each opcode byte value.
#[verifier::opaque]
pub open spec fn opcode_mnemonic(b: u8) -> Seq<char> {
    match b {
        0x00 => "BRK"@,
        0x01 => "ORA"@,
        0x02 => "JAM"@,
        0x03 => "SLO"@,
        0x04 => "NOP"@,
        0x05 => "ORA"@,
        0x06 => "ASL"@,
        0x07 => "SLO"@,
        0x08 => "PHP"@,
        0x09 => "ORA"@,
        0x0A => "ASL"@,
        0x0B => "ANC"@,
        0x0C => "NOP"@,
        0x0D => "ORA"@,
        0x0E => "ASL"@,
        0x0F => "SLO"@,
        0x10 => "BPL"@,
        0x11 => "ORA"@,
        0x12 => "JAM"@,
        0x13 => "SLO"@,
        0x14 => "NOP"@,
        0x15 => "ORA"@,
        0x16 => "ASL"@,
        0x17 => "SLO"@,
        0x18 => "CLC"@,
        0x19 => "ORA"@,
        0x1A => "NOP"@,
        0x1B => "SLO"@,
        0x1C => "NOP"@,
        0x1D => "ORA"@,
        0x1E => "ASL"@,
        0x1F => "SLO"@,
        0x20 => "JSR"@,
        0x21 => "AND"@,
        0x22 => "JAM"@,
        0x23 => "RLA"@,
        0x24 => "BIT"@,
        0x25 => "AND"@,
        0x26 => "ROL"@,
        0x27 => "RLA"@,
        0x28 => "PLP"@,
        0x29 => "AND"@,
        0x2A => "ROL"@,
        0x2B => "ANC"@,
        0x2C => "BIT"@,
        0x2D => "AND"@,
        0x2E => "ROL"@,
        0x2F => "RLA"@,
        0x30 => "BMI"@,
        0x31 => "AND"@,
        0x32 => "JAM"@,
        0x33 => "RLA"@,
        0x34 => "NOP"@,
        0x35 => "AND"@,
        0x36 => "ROL"@,
        0x37 => "RLA"@,
        0x38 => "SEC"@,
        0x39 => "AND"@,
        0x3A => "NOP"@,
        0x3B => "RLA"@,
        0x3C => "NOP"@,
        0x3D => "AND"@,
        0x3E => "ROL"@,
        0x3F => "RLA"@,
        0x40 => "RTI"@,
        0x41 => "EOR"@,
        0x42 => "JAM"@,
        0x43 => "SRE"@,
        0x44 => "NOP"@,
        0x45 => "EOR"@,
        0x46 => "LSR"@,
        0x47 => "SRE"@,
        0x48 => "PHA"@,
        0x49 => "EOR"@,
        0x4A => "LSR"@,
        0x4B => "ALR"@,
        0x4C => "JMP"@,
        0x4D => "EOR"@,
        0x4E => "LSR"@,
        0x4F => "SRE"@,
        0x50 => "BVC"@,
        0x51 => "EOR"@,
        0x52 => "JAM"@,
        0x53 => "SRE"@,
        0x54 => "NOP"@,
        0x55 => "EOR"@,
        0x56 => "LSR"@,
        0x57 => "SRE"@,
        0x58 => "CLI"@,
        0x59 => "EOR"@,
        0x5A => "NOP"@,
        0x5B => "SRE"@,
        0x5C => "NOP"@,
        0x5D => "EOR"@,
        0x5E => "LSR"@,
        0x5F => "SRE"@,
        0x60 => "RTS"@,
        0x61 => "ADC"@,
        0x62 => "JAM"@,
        0x63 => "RRA"@,
        0x64 => "NOP"@,
        0x65 => "ADC"@,
        0x66 => "ROR"@,
        0x67 => "RRA"@,
        0x68 => "PLA"@,
        0x69 => "ADC"@,
        0x6A => "ROR"@,
        0x6B => "ARR"@,
        0x6C => "JMP"@,
        0x6D => "ADC"@,
        0x6E => "ROR"@,
        0x6F => "RRA"@,
        0x70 => "BVS"@,
        0x71 => "ADC"@,
        0x72 => "JAM"@,
        0x73 => "RRA"@,
        0x74 => "NOP"@,
        0x75 => "ADC"@,
        0x76 => "ROR"@,
        0x77 => "RRA"@,
        0x78 => "SEI"@,
        0x79 => "ADC"@,
        0x7A => "NOP"@,
        0x7B => "RRA"@,
        0x7C => "NOP"@,
        0x7D => "ADC"@,
        0x7E => "ROR"@,
        0x7F => "RRA"@,
        0x80 => "NOP"@,
        0x81 => "STA"@,
        0x82 => "NOP"@,
        0x83 => "SAX"@,
        0x84 => "STY"@,
        0x85 => "STA"@,
        0x86 => "STX"@,
        0x87 => "SAX"@,
        0x88 => "DEY"@,
        0x89 => "NOP"@,
        0x8A => "TXA"@,
        0x8B => "ANE"@,
        0x8C => "STY"@,
        0x8D => "STA"@,
        0x8E => "STX"@,
        0x8F => "SAX"@,
        0x90 => "BCC"@,
        0x91 => "STA"@,
        0x92 => "JAM"@,
        0x93 => "SHA"@,
        0x94 => "STY"@,
        0x95 => "STA"@,
        0x96 => "STX"@,
        0x97 => "SAX"@,
        0x98 => "TYA"@,
        0x99 => "STA"@,
        0x9A => "TXS"@,
        0x9B => "TAS"@,
        0x9C => "SHY"@,
        0x9D => "STA"@,
        0x9E => "SHX"@,
        0x9F => "SHA"@,
        0xA0 => "LDY"@,
        0xA1 => "LDA"@,
        0xA2 => "LDX"@,
        0xA3 => "LAX"@,
        0xA4 => "LDY"@,
        0xA5 => "LDA"@,
        0xA6 => "LDX"@,
        0xA7 => "LAX"@,
        0xA8 => "TAY"@,
        0xA9 => "LDA"@,
        0xAA => "TAX"@,
        0xAB => "LAX"@,
        0xAC => "LDY"@,
        0xAD => "LDA"@,
        0xAE => "LDX"@,
        0xAF => "LAX"@,
        0xB0 => "BCS"@,
        0xB1 => "LDA"@,
        0xB2 => "JAM"@,
        0xB3 => "LAX"@,
        0xB4 => "LDY"@,
        0xB5 => "LDA"@,
        0xB6 => "LDX"@,
        0xB7 => "LAX"@,
        0xB8 => "CLV"@,
        0xB9 => "LDA"@,
        0xBA => "TSX"@,
        0xBB => "LAS"@,
        0xBC => "LDY"@,
        0xBD => "LDA"@,
        0xBE => "LDX"@,
        0xBF => "LAX"@,
        0xC0 => "CPY"@,
        0xC1 => "CMP"@,
        0xC2 => "NOP"@,
        0xC3 => "DCP"@,
        0xC4 => "CPY"@,
        0xC5 => "CMP"@,
        0xC6 => "DEC"@,
        0xC7 => "DCP"@,
        0xC8 => "INY"@,
        0xC9 => "CMP"@,
        0xCA => "DEX"@,
        0xCB => "SBX"@,
        0xCC => "CPY"@,
        0xCD => "CMP"@,
        0xCE => "DEC"@,
        0xCF => "DCP"@,
        0xD0 => "BNE"@,
        0xD1 => "CMP"@,
        0xD2 => "JAM"@,
        0xD3 => "DCP"@,
        0xD4 => "NOP"@,
        0xD5 => "CMP"@,
        0xD6 => "DEC"@,
        0xD7 => "DCP"@,
        0xD8 => "CLD"@,
        0xD9 => "CMP"@,
        0xDA => "NOP"@,
        0xDB => "DCP"@,
        0xDC => "NOP"@,
        0xDD => "CMP"@,
        0xDE => "DEC"@,
        0xDF => "DCP"@,
        0xE0 => "CPX"@,
        0xE1 => "SBC"@,
        0xE2 => "NOP"@,
        0xE3 => "ISC"@,
        0xE4 => "CPX"@,
        0xE5 => "SBC"@,
        0xE6 => "INC"@,
        0xE7 => "ISC"@,
        0xE8 => "INX"@,
        0xE9 => "SBC"@,
        0xEA => "NOP"@,
        0xEB => "SBC"@,
        0xEC => "CPX"@,
        0xED => "SBC"@,
        0xEE => "INC"@,
        0xEF => "ISC"@,
        0xF0 => "BEQ"@,
        0xF1 => "SBC"@,
        0xF2 => "JAM"@,
        0xF3 => "ISC"@,
        0xF4 => "NOP"@,
        0xF5 => "SBC"@,
        0xF6 => "INC"@,
        0xF7 => "ISC"@,
        0xF8 => "SED"@,
        0xF9 => "SBC"@,
        0xFA => "NOP"@,
        0xFB => "ISC"@,
        0xFC => "NOP"@,
        0xFD => "SBC"@,
        0xFE => "INC"@,
        _ => "ISC"@,
    }
}

/// Looks an opcode byte up in the table; total over all 256 byte values.
#[verifier::rlimit(100)]
pub fn lookup(b: u8) -> (o: Opcode)
    ensures
        o.opcode == b as u32,
        o.addressing == opcode_mode(b),
        o.flags == opcode_flags(b),
        o.mnemonic@ == opcode_mnemonic(b),
{
    proof {
        reveal(opcode_mode);
        reveal(opcode_flags);
        reveal(opcode_mnemonic);
    }
    match b {
        0x00 => Opcode { opcode: 0x00, addressing: AddressingMode::AddrImplied, mnemonic: "BRK", flags: VALID_OPCODE },
        0x01 => Opcode { opcode: 0x01, addressing: AddressingMode::AddrIndirectX, mnemonic: "ORA", flags: VALID_OPCODE },
        0x02 => Opcode { opcode: 0x02, addressing: AddressingMode::AddrImplied, mnemonic: "JAM", flags: UNDOC_OPCODE },
        0x03 => Opcode { opcode: 0x03, addressing: AddressingMode::AddrIndirectX, mnemonic: "SLO", flags: UNDOC_OPCODE },
        0x04 => Opcode { opcode: 0x04, addressing: AddressingMode::AddrZeroPage, mnemonic: "NOP", flags: UNDOC_OPCODE },
        0x05 => Opcode { opcode: 0x05, addressing: AddressingMode::AddrZeroPage, mnemonic: "ORA", flags: VALID_OPCODE },
        0x06 => Opcode { opcode: 0x06, addressing: AddressingMode::AddrZeroPage, mnemonic: "ASL", flags: VALID_OPCODE },
        0x07 => Opcode { opcode: 0x07, addressing: AddressingMode::AddrZeroPage, mnemonic: "SLO", flags: UNDOC_OPCODE },
        0x08 => Opcode { opcode: 0x08, addressing: AddressingMode::AddrImplied, mnemonic: "PHP", flags: VALID_OPCODE },
        0x09 => Opcode { opcode: 0x09, addressing: AddressingMode::AddrImmediate, mnemonic: "ORA", flags: VALID_OPCODE },
        0x0A => Opcode { opcode: 0x0A, addressing: AddressingMode::AddrAccumulator, mnemonic: "ASL", flags: VALID_OPCODE },
        0x0B => Opcode { opcode: 0x0B, addressing: AddressingMode::AddrImmediate, mnemonic: "ANC", flags: UNDOC_OPCODE },
        0x0C => Opcode { opcode: 0x0C, addressing: AddressingMode::AddrAbsolute, mnemonic: "NOP", flags: UNDOC_OPCODE },
        0x0D => Opcode { opcode: 0x0D, addressing: AddressingMode::AddrAbsolute, mnemonic: "ORA", flags: VALID_OPCODE },
        0x0E => Opcode { opcode: 0x0E, addressing: AddressingMode::AddrAbsolute, mnemonic: "ASL", flags: VALID_OPCODE },
        0x0F => Opcode { opcode: 0x0F, addressing: AddressingMode::AddrAbsolute, mnemonic: "SLO", flags: UNDOC_OPCODE },
        0x10 => Opcode { opcode: 0x10, addressing: AddressingMode::AddrRelative, mnemonic: "BPL", flags: VALID_OPCODE | BRANCH_OPCODE },
        0x11 => Opcode { opcode: 0x11, addressing: AddressingMode::AddrIndirectY, mnemonic: "ORA", flags: VALID_OPCODE },
        0x12 => Opcode { opcode: 0x12, addressing: AddressingMode::AddrImplied, mnemonic: "JAM", flags: UNDOC_OPCODE },
        0x13 => Opcode { opcode: 0x13, addressing: AddressingMode::AddrIndirectY, mnemonic: "SLO", flags: UNDOC_OPCODE },
        0x14 => Opcode { opcode: 0x14, addressing: AddressingMode::AddrZeroPageX, mnemonic: "NOP", flags: UNDOC_OPCODE },
        0x15 => Opcode { opcode: 0x15, addressing: AddressingMode::AddrZeroPageX, mnemonic: "ORA", flags: VALID_OPCODE },
        0x16 => Opcode { opcode: 0x16, addressing: AddressingMode::AddrZeroPageX, mnemonic: "ASL", flags: VALID_OPCODE },
        0x17 => Opcode { opcode: 0x17, addressing: AddressingMode::AddrZeroPageX, mnemonic: "SLO", flags: UNDOC_OPCODE },
        0x18 => Opcode { opcode: 0x18, addressing: AddressingMode::AddrImplied, mnemonic: "CLC", flags: VALID_OPCODE },
        0x19 => Opcode { opcode: 0x19, addressing: AddressingMode::AddrAbsoluteY, mnemonic: "ORA", flags: VALID_OPCODE },
        0x1A => Opcode { opcode: 0x1A, addressing: AddressingMode::AddrImplied, mnemonic: "NOP", flags: UNDOC_OPCODE },
        0x1B => Opcode { opcode: 0x1B, addressing: AddressingMode::AddrAbsoluteY, mnemonic: "SLO", flags: UNDOC_OPCODE },
        0x1C => Opcode { opcode: 0x1C, addressing: AddressingMode::AddrAbsoluteX, mnemonic: "NOP", flags: UNDOC_OPCODE },
        0x1D => Opcode { opcode: 0x1D, addressing: AddressingMode::AddrAbsoluteX, mnemonic: "ORA", flags: VALID_OPCODE },
        0x1E => Opcode { opcode: 0x1E, addressing: AddressingMode::AddrAbsoluteX, mnemonic: "ASL", flags: VALID_OPCODE },
        0x1F => Opcode { opcode: 0x1F, addressing: AddressingMode::AddrAbsoluteX, mnemonic: "SLO", flags: UNDOC_OPCODE },
        0x20 => Opcode { opcode: 0x20, addressing: AddressingMode::AddrAbsolute, mnemonic: "JSR", flags: VALID_OPCODE | SUBROUTINE_OPCODE },
        0x21 => Opcode { opcode: 0x21, addressing: AddressingMode::AddrIndirectX, mnemonic: "AND", flags: VALID_OPCODE },
        0x22 => Opcode { opcode: 0x22, addressing: AddressingMode::AddrImplied, mnemonic: "JAM", flags: UNDOC_OPCODE },
        0x23 => Opcode { opcode: 0x23, addressing: AddressingMode::AddrIndirectX, mnemonic: "RLA", flags: UNDOC_OPCODE },
        0x24 => Opcode { opcode: 0x24, addressing: AddressingMode::AddrZeroPage, mnemonic: "BIT", flags: VALID_OPCODE },
        0x25 => Opcode { opcode: 0x25, addressing: AddressingMode::AddrZeroPage, mnemonic: "AND", flags: VALID_OPCODE },
        0x26 => Opcode { opcode: 0x26, addressing: AddressingMode::AddrZeroPage, mnemonic: "ROL", flags: VALID_OPCODE },
        0x27 => Opcode { opcode: 0x27, addressing: AddressingMode::AddrZeroPage, mnemonic: "RLA", flags: UNDOC_OPCODE },
        0x28 => Opcode { opcode: 0x28, addressing: AddressingMode::AddrImplied, mnemonic: "PLP", flags: VALID_OPCODE },
        0x29 => Opcode { opcode: 0x29, addressing: AddressingMode::AddrImmediate, mnemonic: "AND", flags: VALID_OPCODE },
        0x2A => Opcode { opcode: 0x2A, addressing: AddressingMode::AddrAccumulator, mnemonic: "ROL", flags: VALID_OPCODE },
        0x2B => Opcode { opcode: 0x2B, addressing: AddressingMode::AddrImmediate, mnemonic: "ANC", flags: UNDOC_OPCODE },
        0x2C => Opcode { opcode: 0x2C, addressing: AddressingMode::AddrAbsolute, mnemonic: "BIT", flags: VALID_OPCODE },
        0x2D => Opcode { opcode: 0x2D, addressing: AddressingMode::AddrAbsolute, mnemonic: "AND", flags: VALID_OPCODE },
        0x2E => Opcode { opcode: 0x2E, addressing: AddressingMode::AddrAbsolute, mnemonic: "ROL", flags: VALID_OPCODE },
        0x2F => Opcode { opcode: 0x2F, addressing: AddressingMode::AddrAbsolute, mnemonic: "RLA", flags: UNDOC_OPCODE },
        0x30 => Opcode { opcode: 0x30, addressing: AddressingMode::AddrRelative, mnemonic: "BMI", flags: VALID_OPCODE | BRANCH_OPCODE },
        0x31 => Opcode { opcode: 0x31, addressing: AddressingMode::AddrIndirectY, mnemonic: "AND", flags: VALID_OPCODE },
        0x32 => Opcode { opcode: 0x32, addressing: AddressingMode::AddrImplied, mnemonic: "JAM", flags: UNDOC_OPCODE },
        0x33 => Opcode { opcode: 0x33, addressing: AddressingMode::AddrIndirectY, mnemonic: "RLA", flags: UNDOC_OPCODE },
        0x34 => Opcode { opcode: 0x34, addressing: AddressingMode::AddrZeroPageX, mnemonic: "NOP", flags: UNDOC_OPCODE },
        0x35 => Opcode { opcode: 0x35, addressing: AddressingMode::AddrZeroPageX, mnemonic: "AND", flags: VALID_OPCODE },
        0x36 => Opcode { opcode: 0x36, addressing: AddressingMode::AddrZeroPageX, mnemonic: "ROL", flags: VALID_OPCODE },
        0x37 => Opcode { opcode: 0x37, addressing: AddressingMode::AddrZeroPageX, mnemonic: "RLA", flags: UNDOC_OPCODE },
        0x38 => Opcode { opcode: 0x38, addressing: AddressingMode::AddrImplied, mnemonic: "SEC", flags: VALID_OPCODE },
        0x39 => Opcode { opcode: 0x39, addressing: AddressingMode::AddrAbsoluteY, mnemonic: "AND", flags: VALID_OPCODE },
        0x3A => Opcode { opcode: 0x3A, addressing: AddressingMode::AddrImplied, mnemonic: "NOP", flags: UNDOC_OPCODE },
        0x3B => Opcode { opcode: 0x3B, addressing: AddressingMode::AddrAbsoluteY, mnemonic: "RLA", flags: UNDOC_OPCODE },
        0x3C => Opcode { opcode: 0x3C, addressing: AddressingMode::AddrAbsoluteX, mnemonic: "NOP", flags: UNDOC_OPCODE },
        0x3D => Opcode { opcode: 0x3D, addressing: AddressingMode::AddrAbsoluteX, mnemonic: "AND", flags: VALID_OPCODE },
        0x3E => Opcode { opcode: 0x3E, addressing: AddressingMode::AddrAbsoluteX, mnemonic: "ROL", flags: VALID_OPCODE },
        0x3F => Opcode { opcode: 0x3F, addressing: AddressingMode::AddrAbsoluteX, mnemonic: "RLA", flags: UNDOC_OPCODE },
        0x40 => Opcode { opcode: 0x40, addressing: AddressingMode::AddrImplied, mnemonic: "RTI", flags: VALID_OPCODE },
        0x41 => Opcode { opcode: 0x41, addressing: AddressingMode::AddrIndirectX, mnemonic: "EOR", flags: VALID_OPCODE },
        0x42 => Opcode { opcode: 0x42, addressing: AddressingMode::AddrImplied, mnemonic: "JAM", flags: UNDOC_OPCODE },
        0x43 => Opcode { opcode: 0x43, addressing: AddressingMode::AddrIndirectX, mnemonic: "SRE", flags: UNDOC_OPCODE },
        0x44 => Opcode { opcode: 0x44, addressing: AddressingMode::AddrZeroPage, mnemonic: "NOP", flags: UNDOC_OPCODE },
        0x45 => Opcode { opcode: 0x45, addressing: AddressingMode::AddrZeroPage, mnemonic: "EOR", flags: VALID_OPCODE },
        0x46 => Opcode { opcode: 0x46, addressing: AddressingMode::AddrZeroPage, mnemonic: "LSR", flags: VALID_OPCODE },
        0x47 => Opcode { opcode: 0x47, addressing: AddressingMode::AddrZeroPage, mnemonic: "SRE", flags: UNDOC_OPCODE },
        0x48 => Opcode { opcode: 0x48, addressing: AddressingMode::AddrImplied, mnemonic: "PHA", flags: VALID_OPCODE },
        0x49 => Opcode { opcode: 0x49, addressing: AddressingMode::AddrImmediate, mnemonic: "EOR", flags: VALID_OPCODE },
        0x4A => Opcode { opcode: 0x4A, addressing: AddressingMode::AddrAccumulator, mnemonic: "LSR", flags: VALID_OPCODE },
        0x4B => Opcode { opcode: 0x4B, addressing: AddressingMode::AddrImmediate, mnemonic: "ALR", flags: UNDOC_OPCODE },
        0x4C => Opcode { opcode: 0x4C, addressing: AddressingMode::AddrAbsolute, mnemonic: "JMP", flags: VALID_OPCODE | JMP_OPCODE },
        0x4D => Opcode { opcode: 0x4D, addressing: AddressingMode::AddrAbsolute, mnemonic: "EOR", flags: VALID_OPCODE },
        0x4E => Opcode { opcode: 0x4E, addressing: AddressingMode::AddrAbsolute, mnemonic: "LSR", flags: VALID_OPCODE },
        0x4F => Opcode { opcode: 0x4F, addressing: AddressingMode::AddrAbsolute, mnemonic: "SRE", flags: UNDOC_OPCODE },
        0x50 => Opcode { opcode: 0x50, addressing: AddressingMode::AddrRelative, mnemonic: "BVC", flags: VALID_OPCODE | BRANCH_OPCODE },
        0x51 => Opcode { opcode: 0x51, addressing: AddressingMode::AddrIndirectY, mnemonic: "EOR", flags: VALID_OPCODE },
        0x52 => Opcode { opcode: 0x52, addressing: AddressingMode::AddrImplied, mnemonic: "JAM", flags: UNDOC_OPCODE },
        0x53 => Opcode { opcode: 0x53, addressing: AddressingMode::AddrIndirectY, mnemonic: "SRE", flags: UNDOC_OPCODE },
        0x54 => Opcode { opcode: 0x54, addressing: AddressingMode::AddrZeroPageX, mnemonic: "NOP", flags: UNDOC_OPCODE },
        0x55 => Opcode { opcode: 0x55, addressing: AddressingMode::AddrZeroPageX, mnemonic: "EOR", flags: VALID_OPCODE },
        0x56 => Opcode { opcode: 0x56, addressing: AddressingMode::AddrZeroPageX, mnemonic: "LSR", flags: VALID_OPCODE },
        0x57 => Opcode { opcode: 0x57, addressing: AddressingMode::AddrZeroPageX, mnemonic: "SRE", flags: UNDOC_OPCODE },
        0x58 => Opcode { opcode: 0x58, addressing: AddressingMode::AddrImplied, mnemonic: "CLI", flags: VALID_OPCODE },
        0x59 => Opcode { opcode: 0x59, addressing: AddressingMode::AddrAbsoluteY, mnemonic: "EOR", flags: VALID_OPCODE },
        0x5A => Opcode { opcode: 0x5A, addressing: AddressingMode::AddrImplied, mnemonic: "NOP", flags: UNDOC_OPCODE },
        0x5B => Opcode { opcode: 0x5B, addressing: AddressingMode::AddrAbsoluteY, mnemonic: "SRE", flags: UNDOC_OPCODE },
        0x5C => Opcode { opcode: 0x5C, addressing: AddressingMode::AddrAbsoluteX, mnemonic: "NOP", flags: UNDOC_OPCODE },
        0x5D => Opcode { opcode: 0x5D, addressing: AddressingMode::AddrAbsoluteX, mnemonic: "EOR", flags: VALID_OPCODE },
        0x5E => Opcode { opcode: 0x5E, addressing: AddressingMode::AddrAbsoluteX, mnemonic: "LSR", flags: VALID_OPCODE },
        0x5F => Opcode { opcode: 0x5F, addressing: AddressingMode::AddrAbsoluteX, mnemonic: "SRE", flags: UNDOC_OPCODE },
        0x60 => Opcode { opcode: 0x60, addressing: AddressingMode::AddrImplied, mnemonic: "RTS", flags: VALID_OPCODE },
        0x61 => Opcode { opcode: 0x61, addressing: AddressingMode::AddrIndirectX, mnemonic: "ADC", flags: VALID_OPCODE },
        0x62 => Opcode { opcode: 0x62, addressing: AddressingMode::AddrImplied, mnemonic: "JAM", flags: UNDOC_OPCODE },
        0x63 => Opcode { opcode: 0x63, addressing: AddressingMode::AddrIndirectX, mnemonic: "RRA", flags: UNDOC_OPCODE },
        0x64 => Opcode { opcode: 0x64, addressing: AddressingMode::AddrZeroPage, mnemonic: "NOP", flags: UNDOC_OPCODE },
        0x65 => Opcode { opcode: 0x65, addressing: AddressingMode::AddrZeroPage, mnemonic: "ADC", flags: VALID_OPCODE },
        0x66 => Opcode { opcode: 0x66, addressing: AddressingMode::AddrZeroPage, mnemonic: "ROR", flags: VALID_OPCODE },
        0x67 => Opcode { opcode: 0x67, addressing: AddressingMode::AddrZeroPage, mnemonic: "RRA", flags: UNDOC_OPCODE },
        0x68 => Opcode { opcode: 0x68, addressing: AddressingMode::AddrImplied, mnemonic: "PLA", flags: VALID_OPCODE },
        0x69 => Opcode { opcode: 0x69, addressing: AddressingMode::AddrImmediate, mnemonic: "ADC", flags: VALID_OPCODE },
        0x6A => Opcode { opcode: 0x6A, addressing: AddressingMode::AddrAccumulator, mnemonic: "ROR", flags: VALID_OPCODE },
        0x6B => Opcode { opcode: 0x6B, addressing: AddressingMode::AddrImmediate, mnemonic: "ARR", flags: UNDOC_OPCODE },
        0x6C => Opcode { opcode: 0x6C, addressing: AddressingMode::AddrIndirect, mnemonic: "JMP", flags: VALID_OPCODE | JMP_OPCODE },
        0x6D => Opcode { opcode: 0x6D, addressing: AddressingMode::AddrAbsolute, mnemonic: "ADC", flags: VALID_OPCODE },
        0x6E => Opcode { opcode: 0x6E, addressing: AddressingMode::AddrAbsolute, mnemonic: "ROR", flags: VALID_OPCODE },
        0x6F => Opcode { opcode: 0x6F, addressing: AddressingMode::AddrAbsolute, mnemonic: "RRA", flags: UNDOC_OPCODE },
        0x70 => Opcode { opcode: 0x70, addressing: AddressingMode::AddrRelative, mnemonic: "BVS", flags: VALID_OPCODE | BRANCH_OPCODE },
        0x71 => Opcode { opcode: 0x71, addressing: AddressingMode::AddrIndirectY, mnemonic: "ADC", flags: VALID_OPCODE },
        0x72 => Opcode { opcode: 0x72, addressing: AddressingMode::AddrImplied, mnemonic: "JAM", flags: UNDOC_OPCODE },
        0x73 => Opcode { opcode: 0x73, addressing: AddressingMode::AddrIndirectY, mnemonic: "RRA", flags: UNDOC_OPCODE },
        0x74 => Opcode { opcode: 0x74, addressing: AddressingMode::AddrZeroPageX, mnemonic: "NOP", flags: UNDOC_OPCODE },
        0x75 => Opcode { opcode: 0x75, addressing: AddressingMode::AddrZeroPageX, mnemonic: "ADC", flags: VALID_OPCODE },
        0x76 => Opcode { opcode: 0x76, addressing: AddressingMode::AddrZeroPageX, mnemonic: "ROR", flags: VALID_OPCODE },
        0x77 => Opcode { opcode: 0x77, addressing: AddressingMode::AddrZeroPageX, mnemonic: "RRA", flags: UNDOC_OPCODE },
        0x78 => Opcode { opcode: 0x78, addressing: AddressingMode::AddrImplied, mnemonic: "SEI", flags: VALID_OPCODE },
        0x79 => Opcode { opcode: 0x79, addressing: AddressingMode::AddrAbsoluteY, mnemonic: "ADC", flags: VALID_OPCODE },
        0x7A => Opcode { opcode: 0x7A, addressing: AddressingMode::AddrImplied, mnemonic: "NOP", flags: UNDOC_OPCODE },
        0x7B => Opcode { opcode: 0x7B, addressing: AddressingMode::AddrAbsoluteY, mnemonic: "RRA", flags: UNDOC_OPCODE },
        0x7C => Opcode { opcode: 0x7C, addressing: AddressingMode::AddrAbsoluteX, mnemonic: "NOP", flags: UNDOC_OPCODE },
        0x7D => Opcode { opcode: 0x7D, addressing: AddressingMode::AddrAbsoluteX, mnemonic: "ADC", flags: VALID_OPCODE },
        0x7E => Opcode { opcode: 0x7E, addressing: AddressingMode::AddrAbsoluteX, mnemonic: "ROR", flags: VALID_OPCODE },
        0x7F => Opcode { opcode: 0x7F, addressing: AddressingMode::AddrAbsoluteX, mnemonic: "RRA", flags: UNDOC_OPCODE },
        0x80 => Opcode { opcode: 0x80, addressing: AddressingMode::AddrImmediate, mnemonic: "NOP", flags: INVALID_OPCODE },
        0x81 => Opcode { opcode: 0x81, addressing: AddressingMode::AddrIndirectX, mnemonic: "STA", flags: VALID_OPCODE },
        0x82 => Opcode { opcode: 0x82, addressing: AddressingMode::AddrImmediate, mnemonic: "NOP", flags: UNDOC_OPCODE },
        0x83 => Opcode { opcode: 0x83, addressing: AddressingMode::AddrIndirectX, mnemonic: "SAX", flags: UNDOC_OPCODE },
        0x84 => Opcode { opcode: 0x84, addressing: AddressingMode::AddrZeroPage, mnemonic: "STY", flags: VALID_OPCODE },
        0x85 => Opcode { opcode: 0x85, addressing: AddressingMode::AddrZeroPage, mnemonic: "STA", flags: VALID_OPCODE },
        0x86 => Opcode { opcode: 0x86, addressing: AddressingMode::AddrZeroPage, mnemonic: "STX", flags: VALID_OPCODE },
        0x87 => Opcode { opcode: 0x87, addressing: AddressingMode::AddrZeroPage, mnemonic: "SAX", flags: UNDOC_OPCODE },
        0x88 => Opcode { opcode: 0x88, addressing: AddressingMode::AddrImplied, mnemonic: "DEY", flags: VALID_OPCODE },
        0x89 => Opcode { opcode: 0x89, addressing: AddressingMode::AddrImmediate, mnemonic: "NOP", flags: UNDOC_OPCODE },
        0x8A => Opcode { opcode: 0x8A, addressing: AddressingMode::AddrImplied, mnemonic: "TXA", flags: VALID_OPCODE },
        0x8B => Opcode { opcode: 0x8B, addressing: AddressingMode::AddrImmediate, mnemonic: "ANE", flags: UNDOC_OPCODE },
        0x8C => Opcode { opcode: 0x8C, addressing: AddressingMode::AddrAbsolute, mnemonic: "STY", flags: VALID_OPCODE },
        0x8D => Opcode { opcode: 0x8D, addressing: AddressingMode::AddrAbsolute, mnemonic: "STA", flags: VALID_OPCODE },
        0x8E => Opcode { opcode: 0x8E, addressing: AddressingMode::AddrAbsolute, mnemonic: "STX", flags: VALID_OPCODE },
        0x8F => Opcode { opcode: 0x8F, addressing: AddressingMode::AddrAbsolute, mnemonic: "SAX", flags: UNDOC_OPCODE },
        0x90 => Opcode { opcode: 0x90, addressing: AddressingMode::AddrRelative, mnemonic: "BCC", flags: VALID_OPCODE | BRANCH_OPCODE },
        0x91 => Opcode { opcode: 0x91, addressing: AddressingMode::AddrIndirectY, mnemonic: "STA", flags: VALID_OPCODE },
        0x92 => Opcode { opcode: 0x92, addressing: AddressingMode::AddrImplied, mnemonic: "JAM", flags: UNDOC_OPCODE },
        0x93 => Opcode { opcode: 0x93, addressing: AddressingMode::AddrAbsoluteX, mnemonic: "SHA", flags: UNDOC_OPCODE },
        0x94 => Opcode { opcode: 0x94, addressing: AddressingMode::AddrZeroPageX, mnemonic: "STY", flags: VALID_OPCODE },
        0x95 => Opcode { opcode: 0x95, addressing: AddressingMode::AddrZeroPageX, mnemonic: "STA", flags: VALID_OPCODE },
        0x96 => Opcode { opcode: 0x96, addressing: AddressingMode::AddrZeroPageY, mnemonic: "STX", flags: VALID_OPCODE },
        0x97 => Opcode { opcode: 0x97, addressing: AddressingMode::AddrZeroPageY, mnemonic: "SAX", flags: UNDOC_OPCODE },
        0x98 => Opcode { opcode: 0x98, addressing: AddressingMode::AddrImplied, mnemonic: "TYA", flags: VALID_OPCODE },
        0x99 => Opcode { opcode: 0x99, addressing: AddressingMode::AddrAbsoluteY, mnemonic: "STA", flags: VALID_OPCODE },
        0x9A => Opcode { opcode: 0x9A, addressing: AddressingMode::AddrImplied, mnemonic: "TXS", flags: VALID_OPCODE },
        0x9B => Opcode { opcode: 0x9B, addressing: AddressingMode::AddrAbsoluteY, mnemonic: "TAS", flags: UNDOC_OPCODE },
        0x9C => Opcode { opcode: 0x9C, addressing: AddressingMode::AddrAbsoluteX, mnemonic: "SHY", flags: UNDOC_OPCODE },
        0x9D => Opcode { opcode: 0x9D, addressing: AddressingMode::AddrAbsoluteX, mnemonic: "STA", flags: VALID_OPCODE },
        0x9E => Opcode { opcode: 0x9E, addressing: AddressingMode::AddrAbsoluteY, mnemonic: "SHX", flags: UNDOC_OPCODE },
        0x9F => Opcode { opcode: 0x9F, addressing: AddressingMode::AddrAbsoluteY, mnemonic: "SHA", flags: UNDOC_OPCODE },
        0xA0 => Opcode { opcode: 0xA0, addressing: AddressingMode::AddrImmediate, mnemonic: "LDY", flags: VALID_OPCODE },
        0xA1 => Opcode { opcode: 0xA1, addressing: AddressingMode::AddrIndirectX, mnemonic: "LDA", flags: VALID_OPCODE },
        0xA2 => Opcode { opcode: 0xA2, addressing: AddressingMode::AddrImmediate, mnemonic: "LDX", flags: VALID_OPCODE },
        0xA3 => Opcode { opcode: 0xA3, addressing: AddressingMode::AddrIndirectX, mnemonic: "LAX", flags: UNDOC_OPCODE },
        0xA4 => Opcode { opcode: 0xA4, addressing: AddressingMode::AddrZeroPage, mnemonic: "LDY", flags: VALID_OPCODE },
        0xA5 => Opcode { opcode: 0xA5, addressing: AddressingMode::AddrZeroPage, mnemonic: "LDA", flags: VALID_OPCODE },
        0xA6 => Opcode { opcode: 0xA6, addressing: AddressingMode::AddrZeroPage, mnemonic: "LDX", flags: VALID_OPCODE },
        0xA7 => Opcode { opcode: 0xA7, addressing: AddressingMode::AddrZeroPage, mnemonic: "LAX", flags: UNDOC_OPCODE },
        0xA8 => Opcode { opcode: 0xA8, addressing: AddressingMode::AddrImplied, mnemonic: "TAY", flags: VALID_OPCODE },
        0xA9 => Opcode { opcode: 0xA9, addressing: AddressingMode::AddrImmediate, mnemonic: "LDA", flags: VALID_OPCODE },
        0xAA => Opcode { opcode: 0xAA, addressing: AddressingMode::AddrImplied, mnemonic: "TAX", flags: VALID_OPCODE },
        0xAB => Opcode { opcode: 0xAB, addressing: AddressingMode::AddrImmediate, mnemonic: "LAX", flags: UNDOC_OPCODE },
        0xAC => Opcode { opcode: 0xAC, addressing: AddressingMode::AddrAbsolute, mnemonic: "LDY", flags: VALID_OPCODE },
        0xAD => Opcode { opcode: 0xAD, addressing: AddressingMode::AddrAbsolute, mnemonic: "LDA", flags: VALID_OPCODE },
        0xAE => Opcode { opcode: 0xAE, addressing: AddressingMode::AddrAbsolute, mnemonic: "LDX", flags: VALID_OPCODE },
        0xAF => Opcode { opcode: 0xAF, addressing: AddressingMode::AddrAbsolute, mnemonic: "LAX", flags: UNDOC_OPCODE },
        0xB0 => Opcode { opcode: 0xB0, addressing: AddressingMode::AddrRelative, mnemonic: "BCS", flags: VALID_OPCODE | BRANCH_OPCODE },
        0xB1 => Opcode { opcode: 0xB1, addressing: AddressingMode::AddrIndirectY, mnemonic: "LDA", flags: VALID_OPCODE },
        0xB2 => Opcode { opcode: 0xB2, addressing: AddressingMode::AddrImplied, mnemonic: "JAM", flags: UNDOC_OPCODE },
        0xB3 => Opcode { opcode: 0xB3, addressing: AddressingMode::AddrIndirectY, mnemonic: "LAX", flags: UNDOC_OPCODE },
        0xB4 => Opcode { opcode: 0xB4, addressing: AddressingMode::AddrZeroPageX, mnemonic: "LDY", flags: VALID_OPCODE },
        0xB5 => Opcode { opcode: 0xB5, addressing: AddressingMode::AddrZeroPageX, mnemonic: "LDA", flags: VALID_OPCODE },
        0xB6 => Opcode { opcode: 0xB6, addressing: AddressingMode::AddrZeroPageY, mnemonic: "LDX", flags: VALID_OPCODE },
        0xB7 => Opcode { opcode: 0xB7, addressing: AddressingMode::AddrZeroPageY, mnemonic: "LAX", flags: UNDOC_OPCODE },
        0xB8 => Opcode { opcode: 0xB8, addressing: AddressingMode::AddrImplied, mnemonic: "CLV", flags: VALID_OPCODE },
        0xB9 => Opcode { opcode: 0xB9, addressing: AddressingMode::AddrAbsoluteY, mnemonic: "LDA", flags: VALID_OPCODE },
        0xBA => Opcode { opcode: 0xBA, addressing: AddressingMode::AddrImplied, mnemonic: "TSX", flags: VALID_OPCODE },
        0xBB => Opcode { opcode: 0xBB, addressing: AddressingMode::AddrAbsoluteY, mnemonic: "LAS", flags: UNDOC_OPCODE },
        0xBC => Opcode { opcode: 0xBC, addressing: AddressingMode::AddrAbsoluteX, mnemonic: "LDY", flags: VALID_OPCODE },
        0xBD => Opcode { opcode: 0xBD, addressing: AddressingMode::AddrAbsoluteX, mnemonic: "LDA", flags: VALID_OPCODE },
        0xBE => Opcode { opcode: 0xBE, addressing: AddressingMode::AddrAbsoluteY, mnemonic: "LDX", flags: VALID_OPCODE },
        0xBF => Opcode { opcode: 0xBF, addressing: AddressingMode::AddrAbsoluteY, mnemonic: "LAX", flags: UNDOC_OPCODE },
        0xC0 => Opcode { opcode: 0xC0, addressing: AddressingMode::AddrImmediate, mnemonic: "CPY", flags: VALID_OPCODE },
        0xC1 => Opcode { opcode: 0xC1, addressing: AddressingMode::AddrIndirectX, mnemonic: "CMP", flags: VALID_OPCODE },
        0xC2 => Opcode { opcode: 0xC2, addressing: AddressingMode::AddrImmediate, mnemonic: "NOP", flags: UNDOC_OPCODE },
        0xC3 => Opcode { opcode: 0xC3, addressing: AddressingMode::AddrIndirectX, mnemonic: "DCP", flags: UNDOC_OPCODE },
        0xC4 => Opcode { opcode: 0xC4, addressing: AddressingMode::AddrZeroPage, mnemonic: "CPY", flags: VALID_OPCODE },
        0xC5 => Opcode { opcode: 0xC5, addressing: AddressingMode::AddrZeroPage, mnemonic: "CMP", flags: VALID_OPCODE },
        0xC6 => Opcode { opcode: 0xC6, addressing: AddressingMode::AddrZeroPage, mnemonic: "DEC", flags: VALID_OPCODE },
        0xC7 => Opcode { opcode: 0xC7, addressing: AddressingMode::AddrZeroPage, mnemonic: "DCP", flags: UNDOC_OPCODE },
        0xC8 => Opcode { opcode: 0xC8, addressing: AddressingMode::AddrImplied, mnemonic: "INY", flags: VALID_OPCODE },
        0xC9 => Opcode { opcode: 0xC9, addressing: AddressingMode::AddrImmediate, mnemonic: "CMP", flags: VALID_OPCODE },
        0xCA => Opcode { opcode: 0xCA, addressing: AddressingMode::AddrImplied, mnemonic: "DEX", flags: VALID_OPCODE },
        0xCB => Opcode { opcode: 0xCB, addressing: AddressingMode::AddrImmediate, mnemonic: "SBX", flags: UNDOC_OPCODE },
        0xCC => Opcode { opcode: 0xCC, addressing: AddressingMode::AddrAbsolute, mnemonic: "CPY", flags: VALID_OPCODE },
        0xCD => Opcode { opcode: 0xCD, addressing: AddressingMode::AddrAbsolute, mnemonic: "CMP", flags: VALID_OPCODE },
        0xCE => Opcode { opcode: 0xCE, addressing: AddressingMode::AddrAbsolute, mnemonic: "DEC", flags: VALID_OPCODE },
        0xCF => Opcode { opcode: 0xCF, addressing: AddressingMode::AddrAbsolute, mnemonic: "DCP", flags: UNDOC_OPCODE },
        0xD0 => Opcode { opcode: 0xD0, addressing: AddressingMode::AddrRelative, mnemonic: "BNE", flags: VALID_OPCODE | BRANCH_OPCODE },
        0xD1 => Opcode { opcode: 0xD1, addressing: AddressingMode::AddrIndirectY, mnemonic: "CMP", flags: VALID_OPCODE },
        0xD2 => Opcode { opcode: 0xD2, addressing: AddressingMode::AddrImplied, mnemonic: "JAM", flags: UNDOC_OPCODE },
        0xD3 => Opcode { opcode: 0xD3, addressing: AddressingMode::AddrIndirectY, mnemonic: "DCP", flags: UNDOC_OPCODE },
        0xD4 => Opcode { opcode: 0xD4, addressing: AddressingMode::AddrZeroPageX, mnemonic: "NOP", flags: UNDOC_OPCODE },
        0xD5 => Opcode { opcode: 0xD5, addressing: AddressingMode::AddrZeroPageX, mnemonic: "CMP", flags: VALID_OPCODE },
        0xD6 => Opcode { opcode: 0xD6, addressing: AddressingMode::AddrZeroPageX, mnemonic: "DEC", flags: VALID_OPCODE },
        0xD7 => Opcode { opcode: 0xD7, addressing: AddressingMode::AddrZeroPageX, mnemonic: "DCP", flags: UNDOC_OPCODE },
        0xD8 => Opcode { opcode: 0xD8, addressing: AddressingMode::AddrImplied, mnemonic: "CLD", flags: VALID_OPCODE },
        0xD9 => Opcode { opcode: 0xD9, addressing: AddressingMode::AddrAbsoluteY, mnemonic: "CMP", flags: VALID_OPCODE },
        0xDA => Opcode { opcode: 0xDA, addressing: AddressingMode::AddrImplied, mnemonic: "NOP", flags: UNDOC_OPCODE },
        0xDB => Opcode { opcode: 0xDB, addressing: AddressingMode::AddrAbsoluteY, mnemonic: "DCP", flags: UNDOC_OPCODE },
        0xDC => Opcode { opcode: 0xDC, addressing: AddressingMode::AddrAbsoluteX, mnemonic: "NOP", flags: UNDOC_OPCODE },
        0xDD => Opcode { opcode: 0xDD, addressing: AddressingMode::AddrAbsoluteX, mnemonic: "CMP", flags: VALID_OPCODE },
        0xDE => Opcode { opcode: 0xDE, addressing: AddressingMode::AddrAbsoluteY, mnemonic: "DEC", flags: VALID_OPCODE },
        0xDF => Opcode { opcode: 0xDF, addressing: AddressingMode::AddrAbsoluteX, mnemonic: "DCP", flags: UNDOC_OPCODE },
        0xE0 => Opcode { opcode: 0xE0, addressing: AddressingMode::AddrImmediate, mnemonic: "CPX", flags: VALID_OPCODE },
        0xE1 => Opcode { opcode: 0xE1, addressing: AddressingMode::AddrIndirectX, mnemonic: "SBC", flags: VALID_OPCODE },
        0xE2 => Opcode { opcode: 0xE2, addressing: AddressingMode::AddrImmediate, mnemonic: "NOP", flags: UNDOC_OPCODE },
        0xE3 => Opcode { opcode: 0xE3, addressing: AddressingMode::AddrIndirectX, mnemonic: "ISC", flags: UNDOC_OPCODE },
        0xE4 => Opcode { opcode: 0xE4, addressing: AddressingMode::AddrZeroPage, mnemonic: "CPX", flags: VALID_OPCODE },
        0xE5 => Opcode { opcode: 0xE5, addressing: AddressingMode::AddrZeroPage, mnemonic: "SBC", flags: VALID_OPCODE },
        0xE6 => Opcode { opcode: 0xE6, addressing: AddressingMode::AddrZeroPage, mnemonic: "INC", flags: VALID_OPCODE },
        0xE7 => Opcode { opcode: 0xE7, addressing: AddressingMode::AddrZeroPage, mnemonic: "ISC", flags: UNDOC_OPCODE },
        0xE8 => Opcode { opcode: 0xE8, addressing: AddressingMode::AddrImplied, mnemonic: "INX", flags: VALID_OPCODE },
        0xE9 => Opcode { opcode: 0xE9, addressing: AddressingMode::AddrImmediate, mnemonic: "SBC", flags: VALID_OPCODE },
        0xEA => Opcode { opcode: 0xEA, addressing: AddressingMode::AddrImplied, mnemonic: "NOP", flags: VALID_OPCODE },
        0xEB => Opcode { opcode: 0xEB, addressing: AddressingMode::AddrImmediate, mnemonic: "SBC", flags: UNDOC_OPCODE },
        0xEC => Opcode { opcode: 0xEC, addressing: AddressingMode::AddrAbsolute, mnemonic: "CPX", flags: VALID_OPCODE },
        0xED => Opcode { opcode: 0xED, addressing: AddressingMode::AddrAbsolute, mnemonic: "SBC", flags: VALID_OPCODE },
        0xEE => Opcode { opcode: 0xEE, addressing: AddressingMode::AddrAbsolute, mnemonic: "INC", flags: VALID_OPCODE },
        0xEF => Opcode { opcode: 0xEF, addressing: AddressingMode::AddrAbsolute, mnemonic: "ISC", flags: UNDOC_OPCODE },
        0xF0 => Opcode { opcode: 0xF0, addressing: AddressingMode::AddrRelative, mnemonic: "BEQ", flags: VALID_OPCODE | BRANCH_OPCODE },
        0xF1 => Opcode { opcode: 0xF1, addressing: AddressingMode::AddrIndirectY, mnemonic: "SBC", flags: VALID_OPCODE },
        0xF2 => Opcode { opcode: 0xF2, addressing: AddressingMode::AddrImplied, mnemonic: "JAM", flags: UNDOC_OPCODE },
        0xF3 => Opcode { opcode: 0xF3, addressing: AddressingMode::AddrIndirectY, mnemonic: "ISC", flags: UNDOC_OPCODE },
        0xF4 => Opcode { opcode: 0xF4, addressing: AddressingMode::AddrZeroPageX, mnemonic: "NOP", flags: UNDOC_OPCODE },
        0xF5 => Opcode { opcode: 0xF5, addressing: AddressingMode::AddrZeroPageX, mnemonic: "SBC", flags: VALID_OPCODE },
        0xF6 => Opcode { opcode: 0xF6, addressing: AddressingMode::AddrZeroPageX, mnemonic: "INC", flags: VALID_OPCODE },
        0xF7 => Opcode { opcode: 0xF7, addressing: AddressingMode::AddrZeroPageX, mnemonic: "ISC", flags: UNDOC_OPCODE },
        0xF8 => Opcode { opcode: 0xF8, addressing: AddressingMode::AddrImplied, mnemonic: "SED", flags: VALID_OPCODE },
        0xF9 => Opcode { opcode: 0xF9, addressing: AddressingMode::AddrAbsoluteY, mnemonic: "SBC", flags: VALID_OPCODE },
        0xFA => Opcode { opcode: 0xFA, addressing: AddressingMode::AddrImplied, mnemonic: "NOP", flags: UNDOC_OPCODE },
        0xFB => Opcode { opcode: 0xFB, addressing: AddressingMode::AddrAbsoluteY, mnemonic: "ISC", flags: UNDOC_OPCODE },
        0xFC => Opcode { opcode: 0xFC, addressing: AddressingMode::AddrAbsoluteX, mnemonic: "NOP", flags: UNDOC_OPCODE },
        0xFD => Opcode { opcode: 0xFD, addressing: AddressingMode::AddrAbsoluteX, mnemonic: "SBC", flags: VALID_OPCODE },
        0xFE => Opcode { opcode: 0xFE, addressing: AddressingMode::AddrAbsoluteY, mnemonic: "INC", flags: VALID_OPCODE },
        _ => Opcode { opcode: 0xFF, addressing: AddressingMode::AddrAbsoluteX, mnemonic: "ISC", flags: UNDOC_OPCODE },
    }
}

} // verus!
