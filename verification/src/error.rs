//! The reasons for which a translation stops.

use vstd::prelude::*;

verus! {

/// Why a line, or a whole program, could not be translated.
///
/// Every error is final: nothing is retried, and no output is produced for
/// a program in which one occurs.
#[derive(Debug, Clone, Copy, PartialEq, Eq, Structural)]
pub enum AsmError {
    /// The mnemonic is not in the opcode table.
    UnknownOpcode,
    /// The token is not the name of a register that source text may use.
    UnknownRegister,
    /// A label is empty, starts with a digit, or holds a character other
    /// than ASCII letters, digits and `_`.
    InvalidLabel,
    /// A line refers to a label that the program does not define.
    UnknownLabel,
    /// The first token of a data line is none of the five directives.
    UnknownDirective,
    /// A number is malformed or does not fit the width asked of it.
    ImmediateOutOfRange,
    /// A short immediate is above 31.
    ImmediateTooLarge,
    /// An operand is of the wrong kind for the opcode's operand class.
    InvalidOperandShape,
    /// The operands' width tags do not form a legal pairing.
    InvalidRegisterCode,
    /// A register stands where it may not: the program counter or the status
    /// flags as an operand, no register where one is needed, or a register
    /// where there must be none.
    InvalidRegisterOperand,
    /// An `.asciiz` line has no text between a backtick and its last
    /// character.
    UnterminatedText,
    /// An address has grown past what `usize` holds.
    AddressOverflow,
}

} // verus!
