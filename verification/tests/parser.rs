use fpgrars::error::{Error, SyntaxFault};
use fpgrars::insn::{Instruction, PreLabelInstruction};
use fpgrars::parse::{parse_text, split_label};

fn line(s: &str) -> Vec<u8> {
    s.as_bytes().to_vec()
}

#[test]
fn parses_addi() {
    let p = parse_text(&line("addi x1 x0 5")).unwrap();
    assert!(matches!(p, PreLabelInstruction::Other(Instruction::Addi(1, 0, 5))));
}

#[test]
fn parses_type_r() {
    let p = parse_text(&line("add x3, x1, x2")).unwrap();
    assert!(matches!(p, PreLabelInstruction::Other(Instruction::Add(3, 1, 2))));
    let p = parse_text(&line("sub t0 t1 t2")).unwrap();
    assert!(matches!(p, PreLabelInstruction::Other(Instruction::Sub(5, 6, 7))));
}

#[test]
fn mnemonics_are_case_insensitive() {
    let p = parse_text(&line("ADD x3 x1 x2")).unwrap();
    assert!(matches!(p, PreLabelInstruction::Other(Instruction::Add(3, 1, 2))));
}

#[test]
fn bgt_parses_as_swapped_blt() {
    // operand-swap normalization: `bgt x1 x2 END` = `blt x2 x1 END`
    let a = parse_text(&line("bgt x1 x2 END")).unwrap();
    let b = parse_text(&line("blt x2 x1 END")).unwrap();
    match (&a, &b) {
        (PreLabelInstruction::Blt(a1, a2, al), PreLabelInstruction::Blt(b1, b2, bl)) => {
            assert_eq!((a1, a2), (b1, b2));
            assert_eq!((*a1, *a2), (2u8, 1u8));
            assert_eq!(al, bl);
            assert_eq!(al, &line("END"));
        },
        _ => panic!("expected two blt instructions"),
    }
}

#[test]
fn bleu_parses_as_swapped_bgeu() {
    let a = parse_text(&line("bleu x4 x5 TOP")).unwrap();
    assert!(matches!(a, PreLabelInstruction::Bgeu(5, 4, _)));
}

#[test]
fn parses_load_store_offset_syntax() {
    let p = parse_text(&line("lw x5, 8(x2)")).unwrap();
    assert!(matches!(p, PreLabelInstruction::Other(Instruction::Lw(5, 8, 2))));
    let p = parse_text(&line("sw x5 -4(x2)")).unwrap();
    assert!(matches!(p, PreLabelInstruction::Other(Instruction::Sw(5, -4, 2))));
    let p = parse_text(&line("lbu a0 3(sp)")).unwrap();
    assert!(matches!(p, PreLabelInstruction::Other(Instruction::Lbu(10, 3, 2))));
}

#[test]
fn parses_pseudo_instructions() {
    assert!(matches!(
        parse_text(&line("li a0 -1")).unwrap(),
        PreLabelInstruction::Other(Instruction::Li(10, -1))
    ));
    assert!(matches!(
        parse_text(&line("mv a1 a0")).unwrap(),
        PreLabelInstruction::Other(Instruction::Mv(11, 10))
    ));
    assert!(matches!(parse_text(&line("ret")).unwrap(), PreLabelInstruction::Other(Instruction::Ret)));
    assert!(matches!(
        parse_text(&line("ecall")).unwrap(),
        PreLabelInstruction::Other(Instruction::Ecall)
    ));
    match parse_text(&line("j LOOP")).unwrap() {
        PreLabelInstruction::Jal(0, l) => assert_eq!(l, line("LOOP")),
        other => panic!("unexpected parse: {:?}", other),
    }
    match parse_text(&line("la s0 buffer")).unwrap() {
        PreLabelInstruction::La(8, l) => assert_eq!(l, line("buffer")),
        other => panic!("unexpected parse: {:?}", other),
    }
}

#[test]
fn parses_jal_and_jalr() {
    match parse_text(&line("jal ra func")).unwrap() {
        PreLabelInstruction::Jal(1, l) => assert_eq!(l, line("func")),
        other => panic!("unexpected parse: {:?}", other),
    }
    assert!(matches!(
        parse_text(&line("jalr x0 x1 0")).unwrap(),
        PreLabelInstruction::Other(Instruction::Jalr(0, 1, 0))
    ));
}

#[test]
fn unknown_mnemonic_is_fatal() {
    match parse_text(&line("frobnicate x1 x2 x3")) {
        Err(Error::UnimplementedInstruction(t)) => assert_eq!(t, line("frobnicate")),
        other => panic!("unexpected parse: {:?}", other),
    }
}

#[test]
fn unknown_register_names_the_operand() {
    match parse_text(&line("add x1 x2 x99")) {
        Err(Error::RegisterNotFound(t)) => assert_eq!(t, line("x99")),
        other => panic!("unexpected parse: {:?}", other),
    }
}

#[test]
fn bad_immediate_is_classified() {
    match parse_text(&line("addi x1 x0 banana")) {
        Err(Error::Syntax(t, SyntaxFault::BadImmediate)) => assert_eq!(t, line("banana")),
        other => panic!("unexpected parse: {:?}", other),
    }
    assert!(matches!(
        parse_text(&line("addi x1 x0 9999999999999")),
        Err(Error::Syntax(_, SyntaxFault::BadImmediate))
    ));
}

#[test]
fn wrong_operand_count_is_classified() {
    assert!(matches!(
        parse_text(&line("add x1 x2")),
        Err(Error::Syntax(_, SyntaxFault::OperandShape))
    ));
}

#[test]
fn splits_leading_label() {
    let (lab, rest) = split_label(&line("loop: addi x1 x1 -1"));
    assert_eq!(lab, Some(line("loop")));
    assert_eq!(rest, line(" addi x1 x1 -1"));
    let (lab, rest) = split_label(&line("add x1 x2 x3"));
    assert_eq!(lab, None);
    assert_eq!(rest, line("add x1 x2 x3"));
}
