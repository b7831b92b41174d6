use fpgrars::error::Error;
use fpgrars::insn::Instruction;
use fpgrars::pipeline::parse_riscv;

fn lines(src: &[&str]) -> Vec<Vec<u8>> {
    src.iter().map(|s| s.as_bytes().to_vec()).collect()
}

#[test]
fn finalized_length_is_parsed_plus_three() {
    let p = parse_riscv(&lines(&["addi x1 x0 1", "addi x2 x0 2"]), 32).unwrap();
    assert_eq!(p.code.len(), 2 + 3);
    assert_eq!(p.data.len(), 32);
}

#[test]
fn epilogue_jumps_into_terminate_sequence() {
    let p = parse_riscv(&lines(&["addi x1 x0 1"]), 0).unwrap();
    // parsed instruction at 0; epilogue at 1, 2, 3
    assert_eq!(p.code.len(), 4);
    assert!(matches!(p.code[1], Instruction::Jal(0, 8)));
    assert!(matches!(p.code[2], Instruction::Li(17, 10)));
    assert!(matches!(p.code[3], Instruction::Ecall));
}

#[test]
fn forward_and_backward_references_resolve_alike() {
    // `end` is referenced before its definition and `start` after its own:
    // both resolve to the plain byte offset of the defining line.
    let p = parse_riscv(
        &lines(&["start: j end", "addi x1 x0 1", "end: j start"]),
        0,
    )
    .unwrap();
    assert!(matches!(p.code[0], Instruction::Jal(0, 8)));
    assert!(matches!(p.code[2], Instruction::Jal(0, 0)));
}

#[test]
fn unresolved_label_names_the_missing_label() {
    match parse_riscv(&lines(&["j nowhere"]), 0) {
        Err(Error::LabelNotFound(l)) => assert_eq!(l, b"nowhere".to_vec()),
        other => panic!("unexpected parse: {:?}", other.map(|p| p.code.len())),
    }
}

#[test]
fn resolution_aborts_on_first_missing_label() {
    let r = parse_riscv(&lines(&["j first", "j second"]), 0);
    match r {
        Err(Error::LabelNotFound(l)) => assert_eq!(l, b"first".to_vec()),
        other => panic!("unexpected parse: {:?}", other.map(|p| p.code.len())),
    }
}

#[test]
fn blank_lines_and_label_only_lines_are_skipped() {
    let p = parse_riscv(
        &lines(&["", "alone:", "   ", "addi x1 x0 1", "j alone"]),
        0,
    )
    .unwrap();
    // "alone" sits at byte offset 0; one real instruction precedes the jump
    assert_eq!(p.code.len(), 2 + 3);
    assert!(matches!(p.code[1], Instruction::Jal(0, 0)));
}

#[test]
fn data_word_and_byte_literals() {
    let p = parse_riscv(
        &lines(&[".data", ".word 1, -1", ".byte 255 -2", ".text", "addi x1 x0 1"]),
        16,
    )
    .unwrap();
    assert_eq!(
        p.data,
        vec![1, 0, 0, 0, 255, 255, 255, 255, 255, 254, 0, 0, 0, 0, 0, 0]
    );
}

#[test]
fn data_string_literals() {
    let p = parse_riscv(&lines(&[".data", ".asciz \"hi\"", ".ascii \"ab\""]), 8).unwrap();
    assert_eq!(p.data, vec![b'h', b'i', 0, b'a', b'b', 0, 0, 0]);
}

#[test]
fn data_labels_take_byte_offsets() {
    let p = parse_riscv(
        &lines(&[".data", ".word 7", "second: .word 9", ".text", "la x1 second"]),
        16,
    )
    .unwrap();
    assert!(matches!(p.code[0], Instruction::La(1, 4)));
}

#[test]
fn data_segment_is_truncated_to_configured_size() {
    let p = parse_riscv(&lines(&[".data", ".word 1 2 3"]), 8).unwrap();
    assert_eq!(p.data, vec![1, 0, 0, 0, 2, 0, 0, 0]);
}

#[test]
fn directive_prefix_switches_segment() {
    // ".database" still switches to the data segment (prefix match)
    let p = parse_riscv(&lines(&[".database", ".byte 1", ".text", "addi x1 x0 1"]), 4).unwrap();
    assert_eq!(p.data, vec![1, 0, 0, 0]);
    assert_eq!(p.code.len(), 1 + 3);
}

#[test]
fn unknown_data_directive_fails() {
    assert!(parse_riscv(&lines(&[".data", ".quux 1"]), 4).is_err());
    assert!(parse_riscv(&lines(&[".data", ".asciz no_quotes"]), 4).is_err());
}

#[test]
fn label_with_instruction_on_same_line() {
    let p = parse_riscv(&lines(&["top: addi x1 x1 1", "j top"]), 0).unwrap();
    assert!(matches!(p.code[1], Instruction::Jal(0, 0)));
}
