pub mod alu;
pub mod flags;
pub mod instruction;
mod instructions;
pub mod machine;
pub mod memory;
pub mod nibble;
pub mod opcodes;
pub mod operation;
pub mod processor;
pub mod program;
pub mod registers;
pub mod semantics;
