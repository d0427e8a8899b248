//! A bit-addressable virtual machine and the assembler for its instruction language.

pub mod assembler;
pub mod bignum;
pub mod environment;
pub mod error;
pub mod external;
pub mod instruction;
pub mod isa;
pub mod laws;
pub mod syntax;
pub mod text;
pub mod util;
pub mod value;
