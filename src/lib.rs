//! Decoding and encoding of 32-bit PowerPC instruction words.
pub mod args;
pub mod assembler;
pub mod ext;
pub mod field;
pub mod ins;
pub mod isa;
pub mod sweep;

pub use args::{Argument, SignedHexLiteral};
pub use assembler::assemble;
pub use ext::{Extension, Extensions};
pub use field::{ArgumentError, Field};
pub use ins::{Arguments, Ins, InsIter, ParsedIns};
pub use isa::Opcode;
