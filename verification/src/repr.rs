//! The machine's registers, opcodes, instructions and data directives.

pub mod data;
pub mod instruction;
pub mod opcode;
pub mod register;
