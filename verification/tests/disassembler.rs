use dasm6510::dasm::{render_line, Dasm};
use dasm6510::memory::BinaryBuffer;
use dasm6510::mos6510::{Cpu6510, DecodeFault};
use dasm6510::types::LineType;

fn cpu_at(bytes: Vec<u8>, base: u32, start: u32) -> Cpu6510 {
    let memory = BinaryBuffer::new(bytes, base);
    let mut cpu = Cpu6510::new(memory);
    cpu.set_pc(start);
    cpu
}

#[test]
fn round_trip_immediate_load() {
    let mut cpu = cpu_at(vec![0xA9, 0x05], 0x0000, 0);
    let line = cpu.disassemble_next().unwrap().unwrap();
    assert_eq!(line.address, 0x0000);
    assert_eq!(line.opcode, "LDA");
    assert_eq!(line.operand, "#$05");
    assert_eq!(line.instr_size, 1);
    assert_eq!(line.byte_code[0], 0xA9);
    assert_eq!(line.byte_code[1], 0x05);
    assert_eq!(line.address_ref, 0, "an immediate value is data, not an address");
    assert!(matches!(line.line_type, LineType::Instruction));
    assert!(cpu.disassemble_next().unwrap().is_none());
}

#[test]
fn round_trip_absolute_store() {
    let mut cpu = cpu_at(vec![0x8D, 0x34, 0x12], 0x0000, 0);
    let line = cpu.disassemble_next().unwrap().unwrap();
    assert_eq!(line.opcode, "STA");
    assert_eq!(line.operand, "$1234");
    assert_eq!(line.instr_size, 2);
    assert_eq!(line.byte_code[..3], [0x8D, 0x34, 0x12]);
    assert_eq!(line.address_ref, 0x1234);
}

#[test]
fn relative_branch_positive_offset() {
    let mut cpu = cpu_at(vec![0xD0, 0x05], 0x0600, 0);
    let line = cpu.disassemble_next().unwrap().unwrap();
    assert_eq!(line.address, 0x0600);
    assert_eq!(line.opcode, "BNE");
    assert_eq!(line.address_ref, 0x0607, "0x0600 + 2 + 5");
    assert_eq!(line.operand, "$0607");
}

#[test]
fn relative_branch_negative_offset() {
    let mut cpu = cpu_at(vec![0xD0, 0xFB], 0x0600, 0);
    let line = cpu.disassemble_next().unwrap().unwrap();
    assert_eq!(line.address_ref, 0x05FD, "0x0600 + 2 - 5");
    assert_eq!(line.operand, "$05FD");
}

#[test]
fn undocumented_opcode_is_opaque() {
    let mut cpu = cpu_at(vec![0x02, 0xEA], 0x0000, 0);
    let line = cpu.disassemble_next().unwrap().unwrap();
    assert_eq!(line.opcode, "???");
    assert_eq!(line.instr_size, 0, "length one: no operand bytes");
    assert!(matches!(line.line_type, LineType::UnknownInstruction));
    // the cursor advanced by exactly one byte: the next line is the NOP
    let next = cpu.disassemble_next().unwrap().unwrap();
    assert_eq!(next.address, 0x0001);
    assert_eq!(next.opcode, "NOP");
}

#[test]
fn truncated_two_byte_instruction_faults() {
    let mut cpu = cpu_at(vec![0xA9], 0x0000, 0);
    let fault = cpu.disassemble_next().unwrap_err();
    assert_eq!(fault, DecodeFault::TruncatedOperand { address: 0, opcode: 0xA9 });
}

#[test]
fn truncated_three_byte_instruction_faults() {
    let mut cpu = cpu_at(vec![0xEA, 0x4C, 0x00], 0x0400, 0);
    let nop = cpu.disassemble_next().unwrap().unwrap();
    assert_eq!(nop.opcode, "NOP");
    let fault = cpu.disassemble_next().unwrap_err();
    assert_eq!(fault, DecodeFault::TruncatedOperand { address: 0x0401, opcode: 0x4C });
}

#[test]
fn branch_target_below_address_space_faults() {
    // 0x0000 + 2 - 128 is negative
    let mut cpu = cpu_at(vec![0x90, 0x80], 0x0000, 0);
    let fault = cpu.disassemble_next().unwrap_err();
    assert_eq!(fault, DecodeFault::TargetOutOfRange { address: 0, opcode: 0x90 });
}

#[test]
fn branch_target_above_address_space_faults() {
    // 0xFFF0 + 2 + 127 exceeds 0xFFFF
    let mut cpu = cpu_at(vec![0xB0, 0x7F], 0xFFF0, 0);
    let fault = cpu.disassemble_next().unwrap_err();
    assert_eq!(fault, DecodeFault::TargetOutOfRange { address: 0xFFF0, opcode: 0xB0 });
}

#[test]
fn end_of_input_is_not_a_fault() {
    let mut cpu = cpu_at(vec![], 0x0000, 0);
    assert!(cpu.disassemble_next().unwrap().is_none());
}

fn run_dasm(bytes: Vec<u8>, base: u32, start: u32) -> (Dasm, Result<(), DecodeFault>) {
    let memory = BinaryBuffer::new(bytes, base);
    let cpu = Cpu6510::new(memory);
    let mut dasm = Dasm::new(cpu, start);
    let r = dasm.run();
    (dasm, r)
}

#[test]
fn label_reuse_same_target_same_name() {
    // two branches to 0x0604, then the target NOP
    let (dasm, r) = run_dasm(vec![0xD0, 0x02, 0xD0, 0x00, 0xEA], 0x0600, 0);
    assert!(r.is_ok());
    assert_eq!(dasm.lines.len(), 3);
    assert_eq!(dasm.lines[0].operand, "LABEL00000000");
    assert_eq!(dasm.lines[1].operand, "LABEL00000000");
    assert_eq!(dasm.labels_map.len(), 1, "one target address, one key");
    assert_eq!(dasm.labels_map.get(&0x0604).unwrap(), "LABEL00000000");
    // only the line that created the label carries the comment
    assert_eq!(dasm.lines[0].comment, "$0604 +");
    assert_eq!(dasm.lines[1].comment, "");
}

#[test]
fn label_prefixes_by_classification() {
    // JSR $0609, JMP $0609, BNE back to 0x0600, then NOPs
    let (dasm, r) = run_dasm(
        vec![0x20, 0x09, 0x06, 0x4C, 0x09, 0x06, 0xD0, 0xF8, 0xEA, 0xEA],
        0x0600,
        0,
    );
    assert!(r.is_ok());
    assert_eq!(dasm.lines[0].operand, "SUBRT00000000");
    assert_eq!(dasm.lines[0].comment, "$0609 +");
    assert_eq!(dasm.lines[1].operand, "SUBRT00000000", "same target reuses the name");
    assert_eq!(dasm.lines[2].operand, "LABEL00000000");
    assert_eq!(dasm.lines[2].comment, "$0600 -");
    assert_eq!(dasm.labels_map.len(), 2);
}

#[test]
fn jump_label_prefix() {
    let (dasm, r) = run_dasm(vec![0x4C, 0x03, 0x06, 0xEA], 0x0600, 0);
    assert!(r.is_ok());
    assert_eq!(dasm.lines[0].operand, "JUMP_00000000");
    assert_eq!(dasm.lines[0].comment, "$0603 +");
}

#[test]
fn disassembly_is_deterministic() {
    let program = vec![0xA2, 0x08, 0xCA, 0xD0, 0xFD, 0x20, 0x00, 0x06, 0x4C, 0x00, 0x06, 0x60];
    let (a, ra) = run_dasm(program.clone(), 0x0600, 0);
    let (b, rb) = run_dasm(program, 0x0600, 0);
    assert_eq!(ra, rb);
    assert_eq!(a.lines.len(), b.lines.len());
    let ta = a.render();
    let tb = b.render();
    assert_eq!(ta, tb, "identical label names in identical positions");
}

#[test]
fn pass1_terminates_and_is_bounded() {
    let n = 300usize;
    let (dasm, r) = run_dasm(vec![0xEA; 300], 0x0000, 0);
    assert!(r.is_ok());
    assert_eq!(dasm.lines.len(), n, "one line per single-byte instruction");
    // starting at the very end of the buffer decodes nothing
    let (dasm, r) = run_dasm(vec![0xEA; 300], 0x0000, 300);
    assert!(r.is_ok());
    assert_eq!(dasm.lines.len(), 0);
}

#[test]
fn run_keeps_lines_before_a_fault() {
    let (dasm, r) = run_dasm(vec![0xEA, 0xA9], 0x0000, 0);
    assert_eq!(r.unwrap_err(), DecodeFault::TruncatedOperand { address: 1, opcode: 0xA9 });
    assert_eq!(dasm.lines.len(), 1);
    assert_eq!(dasm.lines[0].opcode, "NOP");
}

#[test]
fn rendered_line_layout() {
    let (dasm, r) = run_dasm(vec![0xA9, 0x05, 0xEA, 0x02], 0x0000, 0);
    assert!(r.is_ok());
    let text = dasm.render();
    assert_eq!(text[0], "0000    A9 05    LDA #$05 ");
    assert_eq!(text[1], "0002    EA       NOP  ");
    assert_eq!(text[2], "0003    02       ???  ");
}

#[test]
fn rendered_branch_line_with_comment() {
    let (dasm, r) = run_dasm(vec![0xD0, 0x02], 0x0600, 0);
    assert!(r.is_ok());
    assert_eq!(
        render_line(&dasm.lines[0]),
        "0600    D0 02    BNE LABEL00000000    ; $0604 +"
    );
}
