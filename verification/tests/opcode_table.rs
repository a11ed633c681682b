use dasm6510::addressing::AddressingMode;
use dasm6510::opcodes::{
    lookup, BRANCH_OPCODE, INVALID_OPCODE, JMP_OPCODE, SUBROUTINE_OPCODE, UNDOC_OPCODE,
    VALID_OPCODE,
};

/// The documented total instruction length of every opcode on the MOS
/// 6510, indexed by opcode byte value.
const DOCUMENTED_LENGTHS: [u8; 256] = [
    1, 2, 1, 2, 2, 2, 2, 2, 1, 2, 1, 2, 3, 3, 3, 3,
    2, 2, 1, 2, 2, 2, 2, 2, 1, 3, 1, 3, 3, 3, 3, 3,
    3, 2, 1, 2, 2, 2, 2, 2, 1, 2, 1, 2, 3, 3, 3, 3,
    2, 2, 1, 2, 2, 2, 2, 2, 1, 3, 1, 3, 3, 3, 3, 3,
    1, 2, 1, 2, 2, 2, 2, 2, 1, 2, 1, 2, 3, 3, 3, 3,
    2, 2, 1, 2, 2, 2, 2, 2, 1, 3, 1, 3, 3, 3, 3, 3,
    1, 2, 1, 2, 2, 2, 2, 2, 1, 2, 1, 2, 3, 3, 3, 3,
    2, 2, 1, 2, 2, 2, 2, 2, 1, 3, 1, 3, 3, 3, 3, 3,
    2, 2, 2, 2, 2, 2, 2, 2, 1, 2, 1, 2, 3, 3, 3, 3,
    2, 2, 1, 3, 2, 2, 2, 2, 1, 3, 1, 3, 3, 3, 3, 3,
    2, 2, 2, 2, 2, 2, 2, 2, 1, 2, 1, 2, 3, 3, 3, 3,
    2, 2, 1, 2, 2, 2, 2, 2, 1, 3, 1, 3, 3, 3, 3, 3,
    2, 2, 2, 2, 2, 2, 2, 2, 1, 2, 1, 2, 3, 3, 3, 3,
    2, 2, 1, 2, 2, 2, 2, 2, 1, 3, 1, 3, 3, 3, 3, 3,
    2, 2, 2, 2, 2, 2, 2, 2, 1, 2, 1, 2, 3, 3, 3, 3,
    2, 2, 1, 2, 2, 2, 2, 2, 1, 3, 1, 3, 3, 3, 3, 3,
];

#[test]
fn every_opcode_length_matches_documentation() {
    for b in 0..=255u8 {
        let o = lookup(b);
        let total = AddressingMode::get_pc_inc(&o.addressing);
        assert_eq!(
            total, DOCUMENTED_LENGTHS[b as usize],
            "opcode {:#04X} has length {} but documentation says {}",
            b, total, DOCUMENTED_LENGTHS[b as usize]
        );
    }
}

#[test]
fn every_opcode_has_exactly_one_classification() {
    for b in 0..=255u8 {
        let o = lookup(b);
        let mut classes: u32 = 0;
        if o.flags & VALID_OPCODE != 0 {
            classes += 1;
        }
        if o.flags & UNDOC_OPCODE != 0 {
            classes += 1;
        }
        if o.flags & INVALID_OPCODE != 0 {
            classes += 1;
        }
        assert_eq!(classes, 1, "opcode {:#04X} flags {:#x}", b, o.flags);
        assert_eq!(o.opcode, b as u32);
    }
}

#[test]
fn known_descriptors() {
    let brk = lookup(0x00);
    assert_eq!(brk.mnemonic, "BRK");
    assert!(matches!(brk.addressing, AddressingMode::AddrImplied));
    assert_eq!(brk.flags, VALID_OPCODE);

    let lda = lookup(0xA9);
    assert_eq!(lda.mnemonic, "LDA");
    assert!(matches!(lda.addressing, AddressingMode::AddrImmediate));

    let jsr = lookup(0x20);
    assert_eq!(jsr.mnemonic, "JSR");
    assert!(matches!(jsr.addressing, AddressingMode::AddrAbsolute));
    assert_eq!(jsr.flags, VALID_OPCODE | SUBROUTINE_OPCODE);

    let bne = lookup(0xD0);
    assert_eq!(bne.mnemonic, "BNE");
    assert!(matches!(bne.addressing, AddressingMode::AddrRelative));
    assert_eq!(bne.flags, VALID_OPCODE | BRANCH_OPCODE);

    let jmp_ind = lookup(0x6C);
    assert_eq!(jmp_ind.mnemonic, "JMP");
    assert!(matches!(jmp_ind.addressing, AddressingMode::AddrIndirect));
    assert_eq!(jmp_ind.flags, VALID_OPCODE | JMP_OPCODE);

    let jam = lookup(0x02);
    assert_eq!(jam.mnemonic, "JAM");
    assert_eq!(jam.flags, UNDOC_OPCODE);
}

#[test]
fn operand_templates_cover_every_mode() {
    let f = AddressingMode::format_string;
    assert_eq!(f(&AddressingMode::AddrImplied, 0), "");
    assert_eq!(f(&AddressingMode::AddrAccumulator, 0), "");
    assert_eq!(f(&AddressingMode::AddrImmediate, 0x05), "#$05");
    assert_eq!(f(&AddressingMode::AddrZeroPage, 0xFB), "$FB");
    assert_eq!(f(&AddressingMode::AddrZeroPageX, 0x01), "$01,X");
    assert_eq!(f(&AddressingMode::AddrZeroPageY, 0xA0), "$A0,Y");
    assert_eq!(f(&AddressingMode::AddrAbsolute, 0x1234), "$1234");
    assert_eq!(f(&AddressingMode::AddrAbsoluteX, 0xBEEF), "$BEEF,X");
    assert_eq!(f(&AddressingMode::AddrAbsoluteY, 0x0001), "$0001,Y");
    assert_eq!(f(&AddressingMode::AddrIndirectX, 0x20), "($20,X)");
    assert_eq!(f(&AddressingMode::AddrIndirectY, 0x20), "($20),Y");
    assert_eq!(f(&AddressingMode::AddrRelative, 0x0607), "$0607");
    assert_eq!(f(&AddressingMode::AddrIndirect, 0xFFFC), "($FFFC)");
}

#[test]
fn mode_lengths() {
    assert_eq!(AddressingMode::get_pc_inc(&AddressingMode::AddrImplied), 1);
    assert_eq!(AddressingMode::get_pc_inc(&AddressingMode::AddrAccumulator), 1);
    assert_eq!(AddressingMode::get_pc_inc(&AddressingMode::AddrImmediate), 2);
    assert_eq!(AddressingMode::get_pc_inc(&AddressingMode::AddrRelative), 2);
    assert_eq!(AddressingMode::get_pc_inc(&AddressingMode::AddrAbsolute), 3);
    assert_eq!(AddressingMode::get_pc_inc(&AddressingMode::AddrIndirect), 3);
}
