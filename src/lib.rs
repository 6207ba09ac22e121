//! A small stack-based bytecode virtual machine: instruction set, binary codec,
//! peephole and label optimiser, and a step-wise execution engine.
pub mod disassembler;
pub mod instruction;
pub mod opcodes;
pub mod optimiser;
pub mod parser;
pub mod program;
pub mod table;
pub mod text;
pub mod value;
pub mod vm;

pub use value::{Arith, BinOp, CmpOp, Fault, FloatOp, Value};
pub use instruction::{Instruction, Operand, Shape};
pub use program::{DecodeError, Program, SourceError};
pub use disassembler::{disasm, float_immediates};
pub use parser::{float_literals, parse, AsmError, AsmErrorKind};
pub use vm::{Step, VM};
pub use optimiser::{canonicalize, elide_store_load, optimise, OptimizeError};
