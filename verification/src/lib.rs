//! A RISC-V assembly simulator library: an assembler pipeline that turns
//! preprocessed source lines into a resolved instruction sequence plus an
//! initialized data segment, and an execution engine that interprets that
//! sequence against a register file and a byte-addressable memory with a
//! memory-mapped display region.

pub mod error;
pub mod input;
pub mod insn;
pub mod labels;
pub mod lex;
pub mod machine;
pub mod memory;
pub mod parse;
pub mod pipeline;
pub mod regname;

pub use error::{Error, SyntaxFault};
pub use input::MyState;
pub use insn::{Instruction, PreLabelInstruction};
pub use machine::{Simulator, StepOutcome, RunFault};
pub use memory::{AccessMode, Memory, mmio_color_to_rgb};
pub use parse::parse_text;
pub use pipeline::{Parsed, parse_riscv};
