use dasm6510::types::{DisassembledLine, LineType};

#[test]
fn test_line() {
    let line = DisassembledLine::new();
    println!("{}", line.address);
    assert_eq!(0, line.address);
}

#[test]
fn fresh_line_is_empty() {
    let line = DisassembledLine::new();
    assert!(matches!(line.line_type, LineType::Unset));
    assert_eq!(line.instr_size, 0);
    assert_eq!(line.address_ref, 0);
    assert_eq!(line.byte_code, [0u8; 16]);
    assert_eq!(line.opcode, "");
    assert_eq!(line.operand, "");
    assert_eq!(line.comment, "");
    assert_eq!(line.flags, 0);
}

#[test]
fn line_from_parts() {
    let line = DisassembledLine::from(LineType::Comment, 0x1234, 7, "entry");
    assert!(matches!(line.line_type, LineType::Comment));
    assert_eq!(line.address, 0x1234);
    assert_eq!(line.offset, 7);
    assert_eq!(line.label, "entry");
    assert_eq!(line.opcode, "");
}
