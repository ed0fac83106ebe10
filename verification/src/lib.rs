//! A two-pass assembler for the Sim6 processor.
//!
//! Source text is translated line by line. The first pass gives every label
//! its address; the second pass turns each line into data bytes or into an
//! instruction, checks the instruction's operands against its opcode, and
//! the emitter packs everything into the object image.

pub mod assembler;
pub mod error;
pub mod label_table;
pub mod number;
pub mod repr;
pub mod text;
pub mod validation;
