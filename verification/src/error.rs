//! Errors the assembler can signal. The whole parse aborts on the first one;
//! no partial program is ever returned.

use vstd::prelude::*;

verus! {

/// Classification tag carried by a malformed-line failure.
#[derive(Clone, Copy, Debug, PartialEq, Eq, Structural)]
pub enum SyntaxFault {
    /// the mnemonic was given the wrong number or shape of operands
    OperandShape,
    /// an operand that should be an integer is not one, or is out of range
    BadImmediate,
    /// a directive in the data segment that the assembler does not know
    BadDirective,
    /// a string literal without an opening or closing quote
    BadStringLiteral,
}

/// Any error the assembler may find. Each variant carries the offending text.
#[derive(Debug)]
pub enum Error {
    /// a label was referenced but never defined
    LabelNotFound(Vec<u8>),
    /// an operand that should name a register does not
    RegisterNotFound(Vec<u8>),
    /// a malformed line, with a classification of the failure
    Syntax(Vec<u8>, SyntaxFault),
    /// a mnemonic outside the supported instruction set
    UnimplementedInstruction(Vec<u8>),
}

/// Mathematical model of an [`Error`]: the same variants over byte sequences.
pub enum SpecError {
    LabelNotFound(Seq<u8>),
    RegisterNotFound(Seq<u8>),
    Syntax(Seq<u8>, SyntaxFault),
    UnimplementedInstruction(Seq<u8>),
}

impl View for Error {
    type V = SpecError;

    open spec fn view(&self) -> SpecError {
        match self {
            Error::LabelNotFound(l) => SpecError::LabelNotFound(l@),
            Error::RegisterNotFound(t) => SpecError::RegisterNotFound(t@),
            Error::Syntax(t, k) => SpecError::Syntax(t@, *k),
            Error::UnimplementedInstruction(t) => SpecError::UnimplementedInstruction(t@),
        }
    }
}

} // verus!
