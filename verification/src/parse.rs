//! The line parser: one preprocessed source line in, one pre-resolution
//! instruction out. Mnemonics are matched case-insensitively; branch
//! mnemonics with swapped-operand aliases (`bgt`, `ble`, `bgtu`, `bleu`) are
//! normalized at parse time by reversing their register operands.

use vstd::prelude::*;
use crate::error::{Error, SpecError, SyntaxFault};
use crate::insn::{Instruction, PreInstr, PreLabelInstruction};
use crate::lex::{
    is1, is2, is3, is4, is5, is_sep_byte, seq_views, spec_imm32, spec_lower, spec_tokens,
    u32_of_i32, copy_range, dup_bytes, imm_as_u32, parse_imm32, to_lower, tokenize,
};
use crate::regname::{spec_gp_reg, gp_register_index};

verus! {

#[derive(Clone, Copy, Debug)]
pub enum ROp {
    Add,
    Sub,
    Sll,
    Slt,
    Sltu,
    Xor,
    Srl,
    Sra,
    Or,
    And,
    Mul,
    Div,
    Divu,
    Rem,
    Remu,
}

#[derive(Clone, Copy, Debug)]
pub enum IOp {
    Addi,
    Slti,
    Sltiu,
    Slli,
    Srli,
    Srai,
    Ori,
    Andi,
    Xori,
}

#[derive(Clone, Copy, Debug)]
pub enum LOp {
    Lb,
    Lh,
    Lw,
    Lbu,
    Lhu,
}

#[derive(Clone, Copy, Debug)]
pub enum SOp {
    Sb,
    Sh,
    Sw,
}

#[derive(Clone, Copy, Debug)]
pub enum BOp {
    Beq,
    Bne,
    Blt,
    Bge,
    Bltu,
    Bgeu,
}

/// The operand shape a recognized mnemonic asks for. The `bool` of `Branch`
/// says the two register operands are to be reversed (swapped-operand alias).
#[derive(Clone, Copy, Debug)]
pub enum Mnemonic {
    R(ROp),
    I(IOp),
    Load(LOp),
    Store(SOp),
    Branch(BOp, bool),
    Jal,
    J,
    Jalr,
    Li,
    Mv,
    La,
    Ret,
    Ecall,
}

/// The mnemonic table, on an already lower-cased token.
pub open spec fn spec_mnemonic(m: Seq<u8>) -> Option<Mnemonic> {
    if is3(m, 97, 100, 100) {  // add
        Some(Mnemonic::R(ROp::Add))
    } else if is3(m, 115, 117, 98) {  // sub
        Some(Mnemonic::R(ROp::Sub))
    } else if is3(m, 115, 108, 108) {  // sll
        Some(Mnemonic::R(ROp::Sll))
    } else if is3(m, 115, 108, 116) {  // slt
        Some(Mnemonic::R(ROp::Slt))
    } else if is4(m, 115, 108, 116, 117) {  // sltu
        Some(Mnemonic::R(ROp::Sltu))
    } else if is3(m, 120, 111, 114) {  // xor
        Some(Mnemonic::R(ROp::Xor))
    } else if is3(m, 115, 114, 108) {  // srl
        Some(Mnemonic::R(ROp::Srl))
    } else if is3(m, 115, 114, 97) {  // sra
        Some(Mnemonic::R(ROp::Sra))
    } else if is2(m, 111, 114) {  // or
        Some(Mnemonic::R(ROp::Or))
    } else if is3(m, 97, 110, 100) {  // and
        Some(Mnemonic::R(ROp::And))
    } else if is3(m, 109, 117, 108) {  // mul
        Some(Mnemonic::R(ROp::Mul))
    } else if is3(m, 100, 105, 118) {  // div
        Some(Mnemonic::R(ROp::Div))
    } else if is4(m, 100, 105, 118, 117) {  // divu
        Some(Mnemonic::R(ROp::Divu))
    } else if is3(m, 114, 101, 109) {  // rem
        Some(Mnemonic::R(ROp::Rem))
    } else if is4(m, 114, 101, 109, 117) {  // remu
        Some(Mnemonic::R(ROp::Remu))
    } else if is4(m, 97, 100, 100, 105) {  // addi
        Some(Mnemonic::I(IOp::Addi))
    } else if is4(m, 115, 108, 116, 105) {  // slti
        Some(Mnemonic::I(IOp::Slti))
    } else if is5(m, 115, 108, 116, 105, 117) {  // sltiu
        Some(Mnemonic::I(IOp::Sltiu))
    } else if is4(m, 115, 108, 108, 105) {  // slli
        Some(Mnemonic::I(IOp::Slli))
    } else if is4(m, 115, 114, 108, 105) {  // srli
        Some(Mnemonic::I(IOp::Srli))
    } else if is4(m, 115, 114, 97, 105) {  // srai
        Some(Mnemonic::I(IOp::Srai))
    } else if is3(m, 111, 114, 105) {  // ori
        Some(Mnemonic::I(IOp::Ori))
    } else if is4(m, 97, 110, 100, 105) {  // andi
        Some(Mnemonic::I(IOp::Andi))
    } else if is4(m, 120, 111, 114, 105) {  // xori
        Some(Mnemonic::I(IOp::Xori))
    } else if is2(m, 108, 98) {  // lb
        Some(Mnemonic::Load(LOp::Lb))
    } else if is2(m, 108, 104) {  // lh
        Some(Mnemonic::Load(LOp::Lh))
    } else if is2(m, 108, 119) {  // lw
        Some(Mnemonic::Load(LOp::Lw))
    } else if is3(m, 108, 98, 117) {  // lbu
        Some(Mnemonic::Load(LOp::Lbu))
    } else if is3(m, 108, 104, 117) {  // lhu
        Some(Mnemonic::Load(LOp::Lhu))
    } else if is2(m, 115, 98) {  // sb
        Some(Mnemonic::Store(SOp::Sb))
    } else if is2(m, 115, 104) {  // sh
        Some(Mnemonic::Store(SOp::Sh))
    } else if is2(m, 115, 119) {  // sw
        Some(Mnemonic::Store(SOp::Sw))
    } else if is3(m, 98, 101, 113) {  // beq
        Some(Mnemonic::Branch(BOp::Beq, false))
    } else if is3(m, 98, 110, 101) {  // bne
        Some(Mnemonic::Branch(BOp::Bne, false))
    } else if is3(m, 98, 108, 116) {  // blt
        Some(Mnemonic::Branch(BOp::Blt, false))
    } else if is3(m, 98, 103, 101) {  // bge
        Some(Mnemonic::Branch(BOp::Bge, false))
    } else if is4(m, 98, 108, 116, 117) {  // bltu
        Some(Mnemonic::Branch(BOp::Bltu, false))
    } else if is4(m, 98, 103, 101, 117) {  // bgeu
        Some(Mnemonic::Branch(BOp::Bgeu, false))
    } else if is3(m, 98, 103, 116) {  // bgt: blt with reversed operands
        Some(Mnemonic::Branch(BOp::Blt, true))
    } else if is3(m, 98, 108, 101) {  // ble: bge with reversed operands
        Some(Mnemonic::Branch(BOp::Bge, true))
    } else if is4(m, 98, 103, 116, 117) {  // bgtu
        Some(Mnemonic::Branch(BOp::Bltu, true))
    } else if is4(m, 98, 108, 101, 117) {  // bleu
        Some(Mnemonic::Branch(BOp::Bgeu, true))
    } else if is3(m, 106, 97, 108) {  // jal
        Some(Mnemonic::Jal)
    } else if is1(m, 106) {  // j
        Some(Mnemonic::J)
    } else if is4(m, 106, 97, 108, 114) {  // jalr
        Some(Mnemonic::Jalr)
    } else if is2(m, 108, 105) {  // li
        Some(Mnemonic::Li)
    } else if is2(m, 109, 118) {  // mv
        Some(Mnemonic::Mv)
    } else if is2(m, 108, 97) {  // la
        Some(Mnemonic::La)
    } else if is3(m, 114, 101, 116) {  // ret
        Some(Mnemonic::Ret)
    } else if is5(m, 101, 99, 97, 108, 108) {  // ecall
        Some(Mnemonic::Ecall)
    } else {
        None
    }
}

pub open spec fn r_inst(op: ROp, rd: u8, rs1: u8, rs2: u8) -> Instruction {
    match op {
        ROp::Add => Instruction::Add(rd, rs1, rs2),
        ROp::Sub => Instruction::Sub(rd, rs1, rs2),
        ROp::Sll => Instruction::Sll(rd, rs1, rs2),
        ROp::Slt => Instruction::Slt(rd, rs1, rs2),
        ROp::Sltu => Instruction::Sltu(rd, rs1, rs2),
        ROp::Xor => Instruction::Xor(rd, rs1, rs2),
        ROp::Srl => Instruction::Srl(rd, rs1, rs2),
        ROp::Sra => Instruction::Sra(rd, rs1, rs2),
        ROp::Or => Instruction::Or(rd, rs1, rs2),
        ROp::And => Instruction::And(rd, rs1, rs2),
        ROp::Mul => Instruction::Mul(rd, rs1, rs2),
        ROp::Div => Instruction::Div(rd, rs1, rs2),
        ROp::Divu => Instruction::Divu(rd, rs1, rs2),
        ROp::Rem => Instruction::Rem(rd, rs1, rs2),
        ROp::Remu => Instruction::Remu(rd, rs1, rs2),
    }
}

pub open spec fn i_inst(op: IOp, rd: u8, rs1: u8, imm: i32) -> Instruction {
    match op {
        IOp::Addi => Instruction::Addi(rd, rs1, imm),
        IOp::Slti => Instruction::Slti(rd, rs1, imm),
        IOp::Sltiu => Instruction::Sltiu(rd, rs1, u32_of_i32(imm)),
        IOp::Slli => Instruction::Slli(rd, rs1, imm),
        IOp::Srli => Instruction::Srli(rd, rs1, imm),
        IOp::Srai => Instruction::Srai(rd, rs1, imm),
        IOp::Ori => Instruction::Ori(rd, rs1, u32_of_i32(imm)),
        IOp::Andi => Instruction::Andi(rd, rs1, u32_of_i32(imm)),
        IOp::Xori => Instruction::Xori(rd, rs1, u32_of_i32(imm)),
    }
}

pub open spec fn load_inst(op: LOp, rd: u8, imm: i32, rs1: u8) -> Instruction {
    match op {
        LOp::Lb => Instruction::Lb(rd, imm, rs1),
        LOp::Lh => Instruction::Lh(rd, imm, rs1),
        LOp::Lw => Instruction::Lw(rd, imm, rs1),
        LOp::Lbu => Instruction::Lbu(rd, imm, rs1),
        LOp::Lhu => Instruction::Lhu(rd, imm, rs1),
    }
}

pub open spec fn store_inst(op: SOp, rs2: u8, imm: i32, rs1: u8) -> Instruction {
    match op {
        SOp::Sb => Instruction::Sb(rs2, imm, rs1),
        SOp::Sh => Instruction::Sh(rs2, imm, rs1),
        SOp::Sw => Instruction::Sw(rs2, imm, rs1),
    }
}

pub open spec fn branch_pre(op: BOp, rs1: u8, rs2: u8, label: Seq<u8>) -> PreInstr {
    match op {
        BOp::Beq => PreInstr::Beq(rs1, rs2, label),
        BOp::Bne => PreInstr::Bne(rs1, rs2, label),
        BOp::Blt => PreInstr::Blt(rs1, rs2, label),
        BOp::Bge => PreInstr::Bge(rs1, rs2, label),
        BOp::Bltu => PreInstr::Bltu(rs1, rs2, label),
        BOp::Bgeu => PreInstr::Bgeu(rs1, rs2, label),
    }
}

/// What one tokenized instruction line means: the pre-resolution instruction
/// it denotes, or the first error in it (operand count checked first, then
/// operands left to right).
pub open spec fn spec_parse_tokens(toks: Seq<Seq<u8>>) -> Result<PreInstr, SpecError> {
    if toks.len() == 0 {
        Err(SpecError::Syntax(Seq::empty(), SyntaxFault::OperandShape))
    } else {
        match spec_mnemonic(spec_lower(toks[0])) {
            None => Err(SpecError::UnimplementedInstruction(toks[0])),
            Some(mn) => match mn {
                Mnemonic::R(op) => if toks.len() != 4 {
                    Err(SpecError::Syntax(toks[0], SyntaxFault::OperandShape))
                } else {
                    match (spec_gp_reg(toks[1]), spec_gp_reg(toks[2]), spec_gp_reg(toks[3])) {
                        (Some(rd), Some(rs1), Some(rs2)) => Ok(
                            PreInstr::Other(r_inst(op, rd, rs1, rs2)),
                        ),
                        (None, _, _) => Err(SpecError::RegisterNotFound(toks[1])),
                        (Some(_), None, _) => Err(SpecError::RegisterNotFound(toks[2])),
                        (Some(_), Some(_), None) => Err(SpecError::RegisterNotFound(toks[3])),
                    }
                },
                Mnemonic::I(op) => if toks.len() != 4 {
                    Err(SpecError::Syntax(toks[0], SyntaxFault::OperandShape))
                } else {
                    match (spec_gp_reg(toks[1]), spec_gp_reg(toks[2]), spec_imm32(toks[3])) {
                        (Some(rd), Some(rs1), Some(imm)) => Ok(
                            PreInstr::Other(i_inst(op, rd, rs1, imm)),
                        ),
                        (None, _, _) => Err(SpecError::RegisterNotFound(toks[1])),
                        (Some(_), None, _) => Err(SpecError::RegisterNotFound(toks[2])),
                        (Some(_), Some(_), None) => Err(
                            SpecError::Syntax(toks[3], SyntaxFault::BadImmediate),
                        ),
                    }
                },
                Mnemonic::Load(op) => if toks.len() != 4 {
                    Err(SpecError::Syntax(toks[0], SyntaxFault::OperandShape))
                } else {
                    match (spec_gp_reg(toks[1]), spec_imm32(toks[2]), spec_gp_reg(toks[3])) {
                        (Some(rd), Some(imm), Some(rs1)) => Ok(
                            PreInstr::Other(load_inst(op, rd, imm, rs1)),
                        ),
                        (None, _, _) => Err(SpecError::RegisterNotFound(toks[1])),
                        (Some(_), None, _) => Err(
                            SpecError::Syntax(toks[2], SyntaxFault::BadImmediate),
                        ),
                        (Some(_), Some(_), None) => Err(SpecError::RegisterNotFound(toks[3])),
                    }
                },
                Mnemonic::Store(op) => if toks.len() != 4 {
                    Err(SpecError::Syntax(toks[0], SyntaxFault::OperandShape))
                } else {
                    match (spec_gp_reg(toks[1]), spec_imm32(toks[2]), spec_gp_reg(toks[3])) {
                        (Some(rs2), Some(imm), Some(rs1)) => Ok(
                            PreInstr::Other(store_inst(op, rs2, imm, rs1)),
                        ),
                        (None, _, _) => Err(SpecError::RegisterNotFound(toks[1])),
                        (Some(_), None, _) => Err(
                            SpecError::Syntax(toks[2], SyntaxFault::BadImmediate),
                        ),
                        (Some(_), Some(_), None) => Err(SpecError::RegisterNotFound(toks[3])),
                    }
                },
                Mnemonic::Branch(op, rev) => if toks.len() != 4 {
                    Err(SpecError::Syntax(toks[0], SyntaxFault::OperandShape))
                } else {
                    match (spec_gp_reg(toks[1]), spec_gp_reg(toks[2])) {
                        (Some(rs1), Some(rs2)) => if rev {
                            Ok(branch_pre(op, rs2, rs1, toks[3]))
                        } else {
                            Ok(branch_pre(op, rs1, rs2, toks[3]))
                        },
                        (None, _) => Err(SpecError::RegisterNotFound(toks[1])),
                        (Some(_), None) => Err(SpecError::RegisterNotFound(toks[2])),
                    }
                },
                Mnemonic::Jal => if toks.len() != 3 {
                    Err(SpecError::Syntax(toks[0], SyntaxFault::OperandShape))
                } else {
                    match spec_gp_reg(toks[1]) {
                        Some(rd) => Ok(PreInstr::Jal(rd, toks[2])),
                        None => Err(SpecError::RegisterNotFound(toks[1])),
                    }
                },
                Mnemonic::J => if toks.len() != 2 {
                    Err(SpecError::Syntax(toks[0], SyntaxFault::OperandShape))
                } else {
                    Ok(PreInstr::Jal(0, toks[1]))
                },
                Mnemonic::Jalr => if toks.len() != 4 {
                    Err(SpecError::Syntax(toks[0], SyntaxFault::OperandShape))
                } else {
                    match (spec_gp_reg(toks[1]), spec_gp_reg(toks[2]), spec_imm32(toks[3])) {
                        (Some(rd), Some(rs1), Some(imm)) => Ok(
                            PreInstr::Other(Instruction::Jalr(rd, rs1, imm)),
                        ),
                        (None, _, _) => Err(SpecError::RegisterNotFound(toks[1])),
                        (Some(_), None, _) => Err(SpecError::RegisterNotFound(toks[2])),
                        (Some(_), Some(_), None) => Err(
                            SpecError::Syntax(toks[3], SyntaxFault::BadImmediate),
                        ),
                    }
                },
                Mnemonic::Li => if toks.len() != 3 {
                    Err(SpecError::Syntax(toks[0], SyntaxFault::OperandShape))
                } else {
                    match (spec_gp_reg(toks[1]), spec_imm32(toks[2])) {
                        (Some(rd), Some(imm)) => Ok(PreInstr::Other(Instruction::Li(rd, imm))),
                        (None, _) => Err(SpecError::RegisterNotFound(toks[1])),
                        (Some(_), None) => Err(
                            SpecError::Syntax(toks[2], SyntaxFault::BadImmediate),
                        ),
                    }
                },
                Mnemonic::Mv => if toks.len() != 3 {
                    Err(SpecError::Syntax(toks[0], SyntaxFault::OperandShape))
                } else {
                    match (spec_gp_reg(toks[1]), spec_gp_reg(toks[2])) {
                        (Some(rd), Some(rs1)) => Ok(PreInstr::Other(Instruction::Mv(rd, rs1))),
                        (None, _) => Err(SpecError::RegisterNotFound(toks[1])),
                        (Some(_), None) => Err(SpecError::RegisterNotFound(toks[2])),
                    }
                },
                Mnemonic::La => if toks.len() != 3 {
                    Err(SpecError::Syntax(toks[0], SyntaxFault::OperandShape))
                } else {
                    match spec_gp_reg(toks[1]) {
                        Some(rd) => Ok(PreInstr::La(rd, toks[2])),
                        None => Err(SpecError::RegisterNotFound(toks[1])),
                    }
                },
                Mnemonic::Ret => if toks.len() != 1 {
                    Err(SpecError::Syntax(toks[0], SyntaxFault::OperandShape))
                } else {
                    Ok(PreInstr::Other(Instruction::Ret))
                },
                Mnemonic::Ecall => if toks.len() != 1 {
                    Err(SpecError::Syntax(toks[0], SyntaxFault::OperandShape))
                } else {
                    Ok(PreInstr::Other(Instruction::Ecall))
                },
            },
        }
    }
}

/// What parsing one instruction line means, from its raw text.
pub open spec fn spec_parse_text(s: Seq<u8>) -> Result<PreInstr, SpecError> {
    spec_parse_tokens(spec_tokens(s, 0))
}

/// The exec result agrees with the spec-level result.
pub open spec fn parse_rel(r: Result<PreLabelInstruction, Error>, s: Result<
    PreInstr,
    SpecError,
>) -> bool {
    match r {
        Ok(p) => s == Ok::<PreInstr, SpecError>(p@),
        Err(e) => s == Err::<PreInstr, SpecError>(e@),
    }
}

fn kw1(t: &Vec<u8>, a: u8) -> (r: bool)
    ensures
        r == is1(t@, a),
{
    t.len() == 1 && t[0] == a
}

fn kw2(t: &Vec<u8>, a: u8, b: u8) -> (r: bool)
    ensures
        r == is2(t@, a, b),
{
    t.len() == 2 && t[0] == a && t[1] == b
}

fn kw3(t: &Vec<u8>, a: u8, b: u8, c: u8) -> (r: bool)
    ensures
        r == is3(t@, a, b, c),
{
    t.len() == 3 && t[0] == a && t[1] == b && t[2] == c
}

fn kw4(t: &Vec<u8>, a: u8, b: u8, c: u8, d: u8) -> (r: bool)
    ensures
        r == is4(t@, a, b, c, d),
{
    t.len() == 4 && t[0] == a && t[1] == b && t[2] == c && t[3] == d
}

fn kw5(t: &Vec<u8>, a: u8, b: u8, c: u8, d: u8, e: u8) -> (r: bool)
    ensures
        r == is5(t@, a, b, c, d, e),
{
    t.len() == 5 && t[0] == a && t[1] == b && t[2] == c && t[3] == d && t[4] == e
}

/// Recognize a lower-cased mnemonic token.
fn mnemonic_of(t: &Vec<u8>) -> (r: Option<Mnemonic>)
    ensures
        r == spec_mnemonic(t@),
{
    if kw3(t, 97, 100, 100) {
        Option::Some(Mnemonic::R(ROp::Add))
    } else if kw3(t, 115, 117, 98) {
        Option::Some(Mnemonic::R(ROp::Sub))
    } else if kw3(t, 115, 108, 108) {
        Option::Some(Mnemonic::R(ROp::Sll))
    } else if kw3(t, 115, 108, 116) {
        Option::Some(Mnemonic::R(ROp::Slt))
    } else if kw4(t, 115, 108, 116, 117) {
        Option::Some(Mnemonic::R(ROp::Sltu))
    } else if kw3(t, 120, 111, 114) {
        Option::Some(Mnemonic::R(ROp::Xor))
    } else if kw3(t, 115, 114, 108) {
        Option::Some(Mnemonic::R(ROp::Srl))
    } else if kw3(t, 115, 114, 97) {
        Option::Some(Mnemonic::R(ROp::Sra))
    } else if kw2(t, 111, 114) {
        Option::Some(Mnemonic::R(ROp::Or))
    } else if kw3(t, 97, 110, 100) {
        Option::Some(Mnemonic::R(ROp::And))
    } else if kw3(t, 109, 117, 108) {
        Option::Some(Mnemonic::R(ROp::Mul))
    } else if kw3(t, 100, 105, 118) {
        Option::Some(Mnemonic::R(ROp::Div))
    } else if kw4(t, 100, 105, 118, 117) {
        Option::Some(Mnemonic::R(ROp::Divu))
    } else if kw3(t, 114, 101, 109) {
        Option::Some(Mnemonic::R(ROp::Rem))
    } else if kw4(t, 114, 101, 109, 117) {
        Option::Some(Mnemonic::R(ROp::Remu))
    } else if kw4(t, 97, 100, 100, 105) {
        Option::Some(Mnemonic::I(IOp::Addi))
    } else if kw4(t, 115, 108, 116, 105) {
        Option::Some(Mnemonic::I(IOp::Slti))
    } else if kw5(t, 115, 108, 116, 105, 117) {
        Option::Some(Mnemonic::I(IOp::Sltiu))
    } else if kw4(t, 115, 108, 108, 105) {
        Option::Some(Mnemonic::I(IOp::Slli))
    } else if kw4(t, 115, 114, 108, 105) {
        Option::Some(Mnemonic::I(IOp::Srli))
    } else if kw4(t, 115, 114, 97, 105) {
        Option::Some(Mnemonic::I(IOp::Srai))
    } else if kw3(t, 111, 114, 105) {
        Option::Some(Mnemonic::I(IOp::Ori))
    } else if kw4(t, 97, 110, 100, 105) {
        Option::Some(Mnemonic::I(IOp::Andi))
    } else if kw4(t, 120, 111, 114, 105) {
        Option::Some(Mnemonic::I(IOp::Xori))
    } else if kw2(t, 108, 98) {
        Option::Some(Mnemonic::Load(LOp::Lb))
    } else if kw2(t, 108, 104) {
        Option::Some(Mnemonic::Load(LOp::Lh))
    } else if kw2(t, 108, 119) {
        Option::Some(Mnemonic::Load(LOp::Lw))
    } else if kw3(t, 108, 98, 117) {
        Option::Some(Mnemonic::Load(LOp::Lbu))
    } else if kw3(t, 108, 104, 117) {
        Option::Some(Mnemonic::Load(LOp::Lhu))
    } else if kw2(t, 115, 98) {
        Option::Some(Mnemonic::Store(SOp::Sb))
    } else if kw2(t, 115, 104) {
        Option::Some(Mnemonic::Store(SOp::Sh))
    } else if kw2(t, 115, 119) {
        Option::Some(Mnemonic::Store(SOp::Sw))
    } else if kw3(t, 98, 101, 113) {
        Option::Some(Mnemonic::Branch(BOp::Beq, false))
    } else if kw3(t, 98, 110, 101) {
        Option::Some(Mnemonic::Branch(BOp::Bne, false))
    } else if kw3(t, 98, 108, 116) {
        Option::Some(Mnemonic::Branch(BOp::Blt, false))
    } else if kw3(t, 98, 103, 101) {
        Option::Some(Mnemonic::Branch(BOp::Bge, false))
    } else if kw4(t, 98, 108, 116, 117) {
        Option::Some(Mnemonic::Branch(BOp::Bltu, false))
    } else if kw4(t, 98, 103, 101, 117) {
        Option::Some(Mnemonic::Branch(BOp::Bgeu, false))
    } else if kw3(t, 98, 103, 116) {
        Option::Some(Mnemonic::Branch(BOp::Blt, true))
    } else if kw3(t, 98, 108, 101) {
        Option::Some(Mnemonic::Branch(BOp::Bge, true))
    } else if kw4(t, 98, 103, 116, 117) {
        Option::Some(Mnemonic::Branch(BOp::Bltu, true))
    } else if kw4(t, 98, 108, 101, 117) {
        Option::Some(Mnemonic::Branch(BOp::Bgeu, true))
    } else if kw3(t, 106, 97, 108) {
        Option::Some(Mnemonic::Jal)
    } else if kw1(t, 106) {
        Option::Some(Mnemonic::J)
    } else if kw4(t, 106, 97, 108, 114) {
        Option::Some(Mnemonic::Jalr)
    } else if kw2(t, 108, 105) {
        Option::Some(Mnemonic::Li)
    } else if kw2(t, 109, 118) {
        Option::Some(Mnemonic::Mv)
    } else if kw2(t, 108, 97) {
        Option::Some(Mnemonic::La)
    } else if kw3(t, 114, 101, 116) {
        Option::Some(Mnemonic::Ret)
    } else if kw5(t, 101, 99, 97, 108, 108) {
        Option::Some(Mnemonic::Ecall)
    } else {
        Option::None
    }
}

fn reg_or_err(t: &Vec<u8>) -> (r: Result<u8, Error>)
    ensures
        match r {
            Ok(x) => spec_gp_reg(t@) == Some(x),
            Err(e) => spec_gp_reg(t@) == Option::<u8>::None && e@ == SpecError::RegisterNotFound(
                t@,
            ),
        },
{
    match gp_register_index(t) {
        Option::Some(x) => Ok(x),
        Option::None => Err(Error::RegisterNotFound(dup_bytes(t))),
    }
}

fn imm_or_err(t: &Vec<u8>) -> (r: Result<i32, Error>)
    ensures
        match r {
            Ok(x) => spec_imm32(t@) == Some(x),
            Err(e) => spec_imm32(t@) == Option::<i32>::None && e@ == SpecError::Syntax(
                t@,
                SyntaxFault::BadImmediate,
            ),
        },
{
    match parse_imm32(t) {
        Option::Some(x) => Ok(x),
        Option::None => Err(Error::Syntax(dup_bytes(t), SyntaxFault::BadImmediate)),
    }
}

/// Parse one tokenized instruction line into a pre-resolution instruction.
pub fn parse_tokens(toks: &Vec<Vec<u8>>) -> (r: Result<PreLabelInstruction, Error>)
    ensures
        parse_rel(r, spec_parse_tokens(seq_views(toks@))),
{
    let ghost tv = seq_views(toks@);
    if toks.len() == 0 {
        let e: Vec<u8> = Vec::new();
        return Err(Error::Syntax(e, SyntaxFault::OperandShape));
    }
    let lowered = to_lower(&toks[0]);
    let mn = match mnemonic_of(&lowered) {
        Option::Some(m) => m,
        Option::None => {
            return Err(Error::UnimplementedInstruction(dup_bytes(&toks[0])));
        },
    };
    match mn {
        Mnemonic::R(op) => {
            if toks.len() != 4 {
                return Err(Error::Syntax(dup_bytes(&toks[0]), SyntaxFault::OperandShape));
            }
            let rd = match reg_or_err(&toks[1]) {
                Ok(x) => x,
                Err(e) => return Err(e),
            };
            let rs1 = match reg_or_err(&toks[2]) {
                Ok(x) => x,
                Err(e) => return Err(e),
            };
            let rs2 = match reg_or_err(&toks[3]) {
                Ok(x) => x,
                Err(e) => return Err(e),
            };
            let i = match op {
                ROp::Add => Instruction::Add(rd, rs1, rs2),
                ROp::Sub => Instruction::Sub(rd, rs1, rs2),
                ROp::Sll => Instruction::Sll(rd, rs1, rs2),
                ROp::Slt => Instruction::Slt(rd, rs1, rs2),
                ROp::Sltu => Instruction::Sltu(rd, rs1, rs2),
                ROp::Xor => Instruction::Xor(rd, rs1, rs2),
                ROp::Srl => Instruction::Srl(rd, rs1, rs2),
                ROp::Sra => Instruction::Sra(rd, rs1, rs2),
                ROp::Or => Instruction::Or(rd, rs1, rs2),
                ROp::And => Instruction::And(rd, rs1, rs2),
                ROp::Mul => Instruction::Mul(rd, rs1, rs2),
                ROp::Div => Instruction::Div(rd, rs1, rs2),
                ROp::Divu => Instruction::Divu(rd, rs1, rs2),
                ROp::Rem => Instruction::Rem(rd, rs1, rs2),
                ROp::Remu => Instruction::Remu(rd, rs1, rs2),
            };
            Ok(PreLabelInstruction::Other(i))
        },
        Mnemonic::I(op) => {
            if toks.len() != 4 {
                return Err(Error::Syntax(dup_bytes(&toks[0]), SyntaxFault::OperandShape));
            }
            let rd = match reg_or_err(&toks[1]) {
                Ok(x) => x,
                Err(e) => return Err(e),
            };
            let rs1 = match reg_or_err(&toks[2]) {
                Ok(x) => x,
                Err(e) => return Err(e),
            };
            let imm = match imm_or_err(&toks[3]) {
                Ok(x) => x,
                Err(e) => return Err(e),
            };
            let i = match op {
                IOp::Addi => Instruction::Addi(rd, rs1, imm),
                IOp::Slti => Instruction::Slti(rd, rs1, imm),
                IOp::Sltiu => Instruction::Sltiu(rd, rs1, imm_as_u32(imm)),
                IOp::Slli => Instruction::Slli(rd, rs1, imm),
                IOp::Srli => Instruction::Srli(rd, rs1, imm),
                IOp::Srai => Instruction::Srai(rd, rs1, imm),
                IOp::Ori => Instruction::Ori(rd, rs1, imm_as_u32(imm)),
                IOp::Andi => Instruction::Andi(rd, rs1, imm_as_u32(imm)),
                IOp::Xori => Instruction::Xori(rd, rs1, imm_as_u32(imm)),
            };
            Ok(PreLabelInstruction::Other(i))
        },
        Mnemonic::Load(op) => {
            if toks.len() != 4 {
                return Err(Error::Syntax(dup_bytes(&toks[0]), SyntaxFault::OperandShape));
            }
            let rd = match reg_or_err(&toks[1]) {
                Ok(x) => x,
                Err(e) => return Err(e),
            };
            let imm = match imm_or_err(&toks[2]) {
                Ok(x) => x,
                Err(e) => return Err(e),
            };
            let rs1 = match reg_or_err(&toks[3]) {
                Ok(x) => x,
                Err(e) => return Err(e),
            };
            let i = match op {
                LOp::Lb => Instruction::Lb(rd, imm, rs1),
                LOp::Lh => Instruction::Lh(rd, imm, rs1),
                LOp::Lw => Instruction::Lw(rd, imm, rs1),
                LOp::Lbu => Instruction::Lbu(rd, imm, rs1),
                LOp::Lhu => Instruction::Lhu(rd, imm, rs1),
            };
            Ok(PreLabelInstruction::Other(i))
        },
        Mnemonic::Store(op) => {
            if toks.len() != 4 {
                return Err(Error::Syntax(dup_bytes(&toks[0]), SyntaxFault::OperandShape));
            }
            let rs2 = match reg_or_err(&toks[1]) {
                Ok(x) => x,
                Err(e) => return Err(e),
            };
            let imm = match imm_or_err(&toks[2]) {
                Ok(x) => x,
                Err(e) => return Err(e),
            };
            let rs1 = match reg_or_err(&toks[3]) {
                Ok(x) => x,
                Err(e) => return Err(e),
            };
            let i = match op {
                SOp::Sb => Instruction::Sb(rs2, imm, rs1),
                SOp::Sh => Instruction::Sh(rs2, imm, rs1),
                SOp::Sw => Instruction::Sw(rs2, imm, rs1),
            };
            Ok(PreLabelInstruction::Other(i))
        },
        Mnemonic::Branch(op, rev) => {
            if toks.len() != 4 {
                return Err(Error::Syntax(dup_bytes(&toks[0]), SyntaxFault::OperandShape));
            }
            let ra = match reg_or_err(&toks[1]) {
                Ok(x) => x,
                Err(e) => return Err(e),
            };
            let rb = match reg_or_err(&toks[2]) {
                Ok(x) => x,
                Err(e) => return Err(e),
            };
            let (rs1, rs2) = if rev {
                (rb, ra)
            } else {
                (ra, rb)
            };
            let label = dup_bytes(&toks[3]);
            let p = match op {
                BOp::Beq => PreLabelInstruction::Beq(rs1, rs2, label),
                BOp::Bne => PreLabelInstruction::Bne(rs1, rs2, label),
                BOp::Blt => PreLabelInstruction::Blt(rs1, rs2, label),
                BOp::Bge => PreLabelInstruction::Bge(rs1, rs2, label),
                BOp::Bltu => PreLabelInstruction::Bltu(rs1, rs2, label),
                BOp::Bgeu => PreLabelInstruction::Bgeu(rs1, rs2, label),
            };
            Ok(p)
        },
        Mnemonic::Jal => {
            if toks.len() != 3 {
                return Err(Error::Syntax(dup_bytes(&toks[0]), SyntaxFault::OperandShape));
            }
            let rd = match reg_or_err(&toks[1]) {
                Ok(x) => x,
                Err(e) => return Err(e),
            };
            Ok(PreLabelInstruction::Jal(rd, dup_bytes(&toks[2])))
        },
        Mnemonic::J => {
            if toks.len() != 2 {
                return Err(Error::Syntax(dup_bytes(&toks[0]), SyntaxFault::OperandShape));
            }
            Ok(PreLabelInstruction::Jal(0, dup_bytes(&toks[1])))
        },
        Mnemonic::Jalr => {
            if toks.len() != 4 {
                return Err(Error::Syntax(dup_bytes(&toks[0]), SyntaxFault::OperandShape));
            }
            let rd = match reg_or_err(&toks[1]) {
                Ok(x) => x,
                Err(e) => return Err(e),
            };
            let rs1 = match reg_or_err(&toks[2]) {
                Ok(x) => x,
                Err(e) => return Err(e),
            };
            let imm = match imm_or_err(&toks[3]) {
                Ok(x) => x,
                Err(e) => return Err(e),
            };
            Ok(PreLabelInstruction::Other(Instruction::Jalr(rd, rs1, imm)))
        },
        Mnemonic::Li => {
            if toks.len() != 3 {
                return Err(Error::Syntax(dup_bytes(&toks[0]), SyntaxFault::OperandShape));
            }
            let rd = match reg_or_err(&toks[1]) {
                Ok(x) => x,
                Err(e) => return Err(e),
            };
            let imm = match imm_or_err(&toks[2]) {
                Ok(x) => x,
                Err(e) => return Err(e),
            };
            Ok(PreLabelInstruction::Other(Instruction::Li(rd, imm)))
        },
        Mnemonic::Mv => {
            if toks.len() != 3 {
                return Err(Error::Syntax(dup_bytes(&toks[0]), SyntaxFault::OperandShape));
            }
            let rd = match reg_or_err(&toks[1]) {
                Ok(x) => x,
                Err(e) => return Err(e),
            };
            let rs1 = match reg_or_err(&toks[2]) {
                Ok(x) => x,
                Err(e) => return Err(e),
            };
            Ok(PreLabelInstruction::Other(Instruction::Mv(rd, rs1)))
        },
        Mnemonic::La => {
            if toks.len() != 3 {
                return Err(Error::Syntax(dup_bytes(&toks[0]), SyntaxFault::OperandShape));
            }
            let rd = match reg_or_err(&toks[1]) {
                Ok(x) => x,
                Err(e) => return Err(e),
            };
            Ok(PreLabelInstruction::La(rd, dup_bytes(&toks[2])))
        },
        Mnemonic::Ret => {
            if toks.len() != 1 {
                return Err(Error::Syntax(dup_bytes(&toks[0]), SyntaxFault::OperandShape));
            }
            Ok(PreLabelInstruction::Other(Instruction::Ret))
        },
        Mnemonic::Ecall => {
            if toks.len() != 1 {
                return Err(Error::Syntax(dup_bytes(&toks[0]), SyntaxFault::OperandShape));
            }
            Ok(PreLabelInstruction::Other(Instruction::Ecall))
        },
    }
}

/// Parse one preprocessed instruction line (no leading label) into a
/// pre-resolution instruction, or the first error in it.
pub fn parse_text(s: &Vec<u8>) -> (r: Result<PreLabelInstruction, Error>)
    ensures
        parse_rel(r, spec_parse_text(s@)),
{
    let toks = tokenize(s);
    parse_tokens(&toks)
}

/// Operand-swap normalization: `bgt a b L` parses exactly as `blt b a L`, and
/// `ble`/`bgtu`/`bleu` likewise against `bge`/`bltu`/`bgeu`, for any label and
/// any subsequent resolved address — provided at least one of the two operand
/// tokens names a register (when both are bad, each spelling reports the
/// register error for its own first operand).
pub proof fn lemma_branch_swap_normalization(a: Seq<u8>, b: Seq<u8>, l: Seq<u8>)
    requires
        spec_gp_reg(a) is Some || spec_gp_reg(b) is Some,
    ensures
        spec_parse_tokens(seq![seq![98u8, 103u8, 116u8], a, b, l]) == spec_parse_tokens(
            seq![seq![98u8, 108u8, 116u8], b, a, l],
        ),
        spec_parse_tokens(seq![seq![98u8, 108u8, 101u8], a, b, l]) == spec_parse_tokens(
            seq![seq![98u8, 103u8, 101u8], b, a, l],
        ),
        spec_parse_tokens(seq![seq![98u8, 103u8, 116u8, 117u8], a, b, l]) == spec_parse_tokens(
            seq![seq![98u8, 108u8, 116u8, 117u8], b, a, l],
        ),
        spec_parse_tokens(seq![seq![98u8, 108u8, 101u8, 117u8], a, b, l]) == spec_parse_tokens(
            seq![seq![98u8, 103u8, 101u8, 117u8], b, a, l],
        ),
{
    assert(spec_lower(seq![98u8, 103u8, 116u8]) =~= seq![98u8, 103u8, 116u8]);
    assert(spec_lower(seq![98u8, 108u8, 116u8]) =~= seq![98u8, 108u8, 116u8]);
    assert(spec_lower(seq![98u8, 108u8, 101u8]) =~= seq![98u8, 108u8, 101u8]);
    assert(spec_lower(seq![98u8, 103u8, 101u8]) =~= seq![98u8, 103u8, 101u8]);
    assert(spec_lower(seq![98u8, 103u8, 116u8, 117u8]) =~= seq![98u8, 103u8, 116u8, 117u8]);
    assert(spec_lower(seq![98u8, 108u8, 116u8, 117u8]) =~= seq![98u8, 108u8, 116u8, 117u8]);
    assert(spec_lower(seq![98u8, 108u8, 101u8, 117u8]) =~= seq![98u8, 108u8, 101u8, 117u8]);
    assert(spec_lower(seq![98u8, 103u8, 101u8, 117u8]) =~= seq![98u8, 103u8, 101u8, 117u8]);
}

/// Where a line starts with a label definition `name:`, the label's name and
/// the rest of the line; otherwise no label and the line unchanged. The name
/// runs from the first non-separator byte to the colon, and is empty for no
/// label: a colon not directly after the name does not bind.
pub open spec fn spec_split_label(s: Seq<u8>) -> (Option<Seq<u8>>, Seq<u8>) {
    let i0 = skip_seps(s, 0);
    let j = label_end(s, i0);
    if j < s.len() && s[j] == 58 && j > i0 {
        (Some(s.subrange(i0, j)), s.subrange(j + 1, s.len() as int))
    } else {
        (None, s)
    }
}

/// First non-separator index at or after `i`.
pub open spec fn skip_seps(s: Seq<u8>, i: int) -> int
    decreases s.len() - i when 0 <= i <= s.len()
{
    if i >= s.len() {
        i
    } else if is_sep_byte(s[i]) {
        skip_seps(s, i + 1)
    } else {
        i
    }
}

/// First index at or after `i` that holds a separator or a colon, or the end.
pub open spec fn label_end(s: Seq<u8>, i: int) -> int
    decreases s.len() - i when 0 <= i <= s.len()
{
    if i >= s.len() {
        i
    } else if is_sep_byte(s[i]) || s[i] == 58 {
        i
    } else {
        label_end(s, i + 1)
    }
}

fn skip_seps_exec(s: &Vec<u8>, i: usize) -> (r: usize)
    requires
        i <= s@.len(),
    ensures
        r == skip_seps(s@, i as int),
        i <= r <= s@.len(),
    decreases s@.len() - i,
{
    if i >= s.len() {
        i
    } else if crate::lex::is_sep(s[i]) {
        skip_seps_exec(s, i + 1)
    } else {
        i
    }
}

fn label_end_exec(s: &Vec<u8>, i: usize) -> (r: usize)
    requires
        i <= s@.len(),
    ensures
        r == label_end(s@, i as int),
        i <= r <= s@.len(),
    decreases s@.len() - i,
{
    if i >= s.len() {
        i
    } else if crate::lex::is_sep(s[i]) || s[i] == 58 {
        i
    } else {
        label_end_exec(s, i + 1)
    }
}

/// Strip a leading label definition off a line; label discovery must not
/// consume the instruction that may follow on the same line.
pub fn split_label(s: &Vec<u8>) -> (r: (Option<Vec<u8>>, Vec<u8>))
    ensures
        ({
            let (sl, sr) = spec_split_label(s@);
            &&& (match r.0 {
                Option::Some(l) => sl == Some(l@),
                Option::None => sl == Option::<Seq<u8>>::None,
            })
            &&& r.1@ == sr
        }),
{
    let i0 = skip_seps_exec(s, 0);
    let j = label_end_exec(s, i0);
    if j < s.len() && s[j] == 58 && j > i0 {
        let name = copy_range(s, i0, j);
        let rest = copy_range(s, j + 1, s.len());
        (Option::Some(name), rest)
    } else {
        (Option::None, dup_bytes(s))
    }
}

} // verus!
