//! The instruction set: one closed variant per opcode family, fully resolved,
//! plus the transient pre-resolution form whose label operands are still names.

use vstd::prelude::*;

verus! {

/// A single RISC-V instruction with its arguments, immutable once constructed.
/// Branch, jump and load-address targets are resolved absolute byte offsets.
#[allow(dead_code)]
#[derive(Clone, Copy, Debug, PartialEq, Eq, Structural)]
pub enum Instruction {
    // Type R: rd, rs1, rs2
    Add(u8, u8, u8),
    Sub(u8, u8, u8),
    Sll(u8, u8, u8),
    Slt(u8, u8, u8),
    Sltu(u8, u8, u8),
    Xor(u8, u8, u8),
    Srl(u8, u8, u8),
    Sra(u8, u8, u8),
    Or(u8, u8, u8),
    And(u8, u8, u8),
    Mul(u8, u8, u8),
    Div(u8, u8, u8),
    Divu(u8, u8, u8),
    Rem(u8, u8, u8),
    Remu(u8, u8, u8),

    // Type I
    Ecall,
    /// rd, imm, rs1
    Lb(u8, i32, u8),
    Lh(u8, i32, u8),
    Lw(u8, i32, u8),
    Lbu(u8, i32, u8),
    Lhu(u8, i32, u8),
    /// rd, rs1, imm
    Addi(u8, u8, i32),
    Slti(u8, u8, i32),
    Sltiu(u8, u8, u32),
    Slli(u8, u8, i32),
    Srli(u8, u8, i32),
    Srai(u8, u8, i32),
    Ori(u8, u8, u32),
    Andi(u8, u8, u32),
    Xori(u8, u8, u32),

    // Type S: rs2, imm, rs1
    Sb(u8, i32, u8),
    Sh(u8, i32, u8),
    Sw(u8, i32, u8),

    // Type SB + jumps: rs1, rs2, target
    Beq(u8, u8, usize),
    Bne(u8, u8, usize),
    Blt(u8, u8, usize),
    Bge(u8, u8, usize),
    Bltu(u8, u8, usize),
    Bgeu(u8, u8, usize),
    /// rd, rs1, imm
    Jalr(u8, u8, i32),
    /// rd, target
    Jal(u8, usize),

    // Pseudoinstructions, expanded at parse time
    /// rd, imm
    Li(u8, i32),
    /// rd, rs1
    Mv(u8, u8),
    /// rd, target
    La(u8, usize),

    Ret,
}

/// An instruction as it stands after pass 1: any operand that is a label is
/// still the label's name, because a forward reference cannot be resolved
/// until the whole file has been scanned. Every labelled variant corresponds
/// 1:1 to a final [`Instruction`] variant.
#[derive(Debug)]
pub enum PreLabelInstruction {
    Beq(u8, u8, Vec<u8>),
    Bne(u8, u8, Vec<u8>),
    Blt(u8, u8, Vec<u8>),
    Bge(u8, u8, Vec<u8>),
    Bltu(u8, u8, Vec<u8>),
    Bgeu(u8, u8, Vec<u8>),
    Jal(u8, Vec<u8>),
    La(u8, Vec<u8>),
    Other(Instruction),
}

/// Mathematical model of a [`PreLabelInstruction`]: labels as byte sequences.
pub enum PreInstr {
    Beq(u8, u8, Seq<u8>),
    Bne(u8, u8, Seq<u8>),
    Blt(u8, u8, Seq<u8>),
    Bge(u8, u8, Seq<u8>),
    Bltu(u8, u8, Seq<u8>),
    Bgeu(u8, u8, Seq<u8>),
    Jal(u8, Seq<u8>),
    La(u8, Seq<u8>),
    Other(Instruction),
}

impl View for PreLabelInstruction {
    type V = PreInstr;

    open spec fn view(&self) -> PreInstr {
        match self {
            PreLabelInstruction::Beq(a, b, l) => PreInstr::Beq(*a, *b, l@),
            PreLabelInstruction::Bne(a, b, l) => PreInstr::Bne(*a, *b, l@),
            PreLabelInstruction::Blt(a, b, l) => PreInstr::Blt(*a, *b, l@),
            PreLabelInstruction::Bge(a, b, l) => PreInstr::Bge(*a, *b, l@),
            PreLabelInstruction::Bltu(a, b, l) => PreInstr::Bltu(*a, *b, l@),
            PreLabelInstruction::Bgeu(a, b, l) => PreInstr::Bgeu(*a, *b, l@),
            PreLabelInstruction::Jal(d, l) => PreInstr::Jal(*d, l@),
            PreLabelInstruction::La(d, l) => PreInstr::La(*d, l@),
            PreLabelInstruction::Other(i) => PreInstr::Other(*i),
        }
    }
}

impl From<Instruction> for PreLabelInstruction {
    fn from(i: Instruction) -> (r: Self) {
        PreLabelInstruction::Other(i)
    }
}

impl vstd::std_specs::convert::FromSpecImpl<Instruction> for PreLabelInstruction {
    open spec fn obeys_from_spec() -> bool {
        true
    }

    open spec fn from_spec(i: Instruction) -> Self {
        PreLabelInstruction::Other(i)
    }
}

} // verus!
