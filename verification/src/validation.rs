//! The rules that labels and instructions must meet.
//!
//! An instruction is checked against the operand class of its opcode. The
//! checks run in a fixed order and the first one that fails names the error.

use vstd::prelude::*;
use crate::error::AsmError;
use crate::repr::instruction::{Instruction, Operand};
use crate::repr::opcode::OperandClass;
use crate::repr::register::Register;
use crate::text::chars_of;

verus! {

/// What is wrong with a label or an instruction.
#[derive(Debug, Clone, Copy, PartialEq, Eq, Structural)]
pub enum ValidationError {
    /// The operands' width tags are not among those that the opcode's class
    /// allows.
    InvalidRegisterCode,
    /// A register stands where the opcode takes no operand.
    RegisterNotNone,
    /// Two registers differ in width, or one is a high and the other a low
    /// half.
    MixedRegisterTypes,
    /// A register is needed and the operand names none.
    RegisterIsNone,
    /// An immediate stands where the opcode takes a register.
    OperandNotRegister,
    /// The second operand must be a short immediate and is not.
    OperandNotShortImmediate,
    /// The second operand must be a large immediate and is not.
    OperandNotLargeImmediate,
    /// A short immediate is above 31.
    ImmediateTooLarge,
    /// A label is empty, starts with a digit, or holds a character other
    /// than ASCII letters, digits and `_`.
    InvalidLabel,
}

impl ValidationError {
    /// What to tell the user about the error.
    pub open spec fn spec_message(&self) -> Seq<char> {
        match *self {
            ValidationError::InvalidRegisterCode => "the register code is not valid for the opcode"@,
            ValidationError::RegisterNotNone => "the register should be none"@,
            ValidationError::MixedRegisterTypes => "the registers are either of different sizes or mixed high/low"@,
            ValidationError::RegisterIsNone => "the register must not be none"@,
            ValidationError::OperandNotRegister => "the operand should be a register"@,
            ValidationError::OperandNotShortImmediate => "the operand should be a short immediate"@,
            ValidationError::OperandNotLargeImmediate => "the operand should be a long immediate"@,
            ValidationError::ImmediateTooLarge => "the immediate is too large"@,
            ValidationError::InvalidLabel => "the label is in an invalid format"@,
        }
    }

    /// The kind of error under which a translation reports this one.
    pub open spec fn spec_kind(&self) -> AsmError {
        match *self {
            ValidationError::InvalidRegisterCode | ValidationError::MixedRegisterTypes => {
                AsmError::InvalidRegisterCode
            },
            ValidationError::RegisterNotNone | ValidationError::RegisterIsNone => {
                AsmError::InvalidRegisterOperand
            },
            ValidationError::OperandNotRegister
            | ValidationError::OperandNotShortImmediate
            | ValidationError::OperandNotLargeImmediate => AsmError::InvalidOperandShape,
            ValidationError::ImmediateTooLarge => AsmError::ImmediateTooLarge,
            ValidationError::InvalidLabel => AsmError::InvalidLabel,
        }
    }

    /// The kind of error under which a translation reports this one.
    #[verifier::when_used_as_spec(spec_kind)]
    pub fn kind(&self) -> (r: AsmError)
        ensures
            r == self.spec_kind(),
    {
        match self {
            ValidationError::InvalidRegisterCode | ValidationError::MixedRegisterTypes => {
                AsmError::InvalidRegisterCode
            },
            ValidationError::RegisterNotNone | ValidationError::RegisterIsNone => {
                AsmError::InvalidRegisterOperand
            },
            ValidationError::OperandNotRegister
            | ValidationError::OperandNotShortImmediate
            | ValidationError::OperandNotLargeImmediate => AsmError::InvalidOperandShape,
            ValidationError::ImmediateTooLarge => AsmError::ImmediateTooLarge,
            ValidationError::InvalidLabel => AsmError::InvalidLabel,
        }
    }

    /// What to tell the user about the error.
    pub fn message(&self) -> (r: &'static str)
        ensures
            r@ == self.spec_message(),
    {
        match self {
            ValidationError::InvalidRegisterCode => "the register code is not valid for the opcode",
            ValidationError::RegisterNotNone => "the register should be none",
            ValidationError::MixedRegisterTypes => "the registers are either of different sizes or mixed high/low",
            ValidationError::RegisterIsNone => "the register must not be none",
            ValidationError::OperandNotRegister => "the operand should be a register",
            ValidationError::OperandNotShortImmediate => "the operand should be a short immediate",
            ValidationError::OperandNotLargeImmediate => "the operand should be a long immediate",
            ValidationError::ImmediateTooLarge => "the immediate is too large",
            ValidationError::InvalidLabel => "the label is in an invalid format",
        }
    }
}

/// The largest short immediate.
pub const SHORT_IMMEDIATE_MAX: u8 = 0x1F;

/// An ASCII letter or the underscore.
pub open spec fn is_label_start(c: char) -> bool {
    ('a' <= c && c <= 'z') || ('A' <= c && c <= 'Z') || c == '_'
}

/// An ASCII letter, an ASCII digit or the underscore.
pub open spec fn is_label_char(c: char) -> bool {
    is_label_start(c) || ('0' <= c && c <= '9')
}

/// A label is not empty, starts with a letter or an underscore, and holds
/// letters, digits and underscores only.
pub open spec fn valid_label(label: Seq<char>) -> bool {
    &&& label.len() > 0
    &&& is_label_start(label[0])
    &&& forall|i: int| 0 <= i < label.len() ==> is_label_char(#[trigger] label[i])
}

/// The first rule that a pair of operands breaks as the two registers of one
/// instruction, if any: both must be registers, the first a real one, and
/// both full width, both high halves or both low halves.
pub open spec fn pair_violation(a: Operand, b: Operand) -> Option<ValidationError> {
    match (a, b) {
        (Operand::Register(reg_a), Operand::Register(reg_b)) => {
            if reg_a.is_full_width() {
                if reg_b.is_full_width() {
                    None
                } else {
                    Some(ValidationError::MixedRegisterTypes)
                }
            } else if reg_a.is_high_half() {
                if reg_b.is_high_half() {
                    None
                } else {
                    Some(ValidationError::MixedRegisterTypes)
                }
            } else if reg_a.is_low_half() {
                if reg_b.is_low_half() {
                    None
                } else {
                    Some(ValidationError::MixedRegisterTypes)
                }
            } else {
                Some(ValidationError::RegisterIsNone)
            }
        },
        _ => Some(ValidationError::OperandNotRegister),
    }
}

/// The width tags that two register operands may have together: both high
/// halves, both low halves, a high with a low half either way round, or both
/// full width.
pub open spec fn legal_pair_code(code: u16) -> bool {
    code == 0b1010 || code == 0b0101 || code == 0b1001 || code == 0b0110 || code == 0b1111
}

/// What an operand must be where the opcode takes none: the absent
/// register.
pub open spec fn absent_violation(operand: Operand) -> Option<ValidationError> {
    match operand {
        Operand::Register(Register::Null) => None,
        Operand::Register(_) => Some(ValidationError::RegisterNotNone),
        _ => Some(ValidationError::OperandNotRegister),
    }
}

/// What an operand must be where the opcode takes a register: a register
/// other than the absent one.
pub open spec fn present_violation(operand: Operand) -> Option<ValidationError> {
    match operand {
        Operand::Register(Register::Null) => Some(ValidationError::RegisterIsNone),
        Operand::Register(_) => None,
        _ => Some(ValidationError::OperandNotRegister),
    }
}

/// The first of two checks that fails, if either does.
pub open spec fn first_of(
    first: Option<ValidationError>,
    second: Option<ValidationError>,
) -> Option<ValidationError> {
    if first is Some {
        first
    } else {
        second
    }
}

/// The first rule that the instruction breaks, if any.
///
/// - No operand: the width tags are all clear and both operands are the
///   absent register.
/// - Two registers: the width tags are a legal pairing, and the operands
///   pass the pair check.
/// - One register: the first operand is a real register, the second the
///   absent one.
/// - Register and short immediate: the first operand is a register, the
///   second a short immediate of at most 31.
/// - Register and large immediate: the first operand is a register, the
///   second a large immediate.
pub open spec fn violation(instr: Instruction) -> Option<ValidationError> {
    match instr.opcode.spec_operand_class() {
        OperandClass::NoOperand => {
            if instr.spec_register_code() != 0 {
                Some(ValidationError::InvalidRegisterCode)
            } else {
                first_of(absent_violation(instr.operand_a), absent_violation(instr.operand_b))
            }
        },
        OperandClass::TwoRegister => {
            if !legal_pair_code(instr.spec_register_code()) {
                Some(ValidationError::InvalidRegisterCode)
            } else {
                pair_violation(instr.operand_a, instr.operand_b)
            }
        },
        OperandClass::OneRegister => first_of(
            present_violation(instr.operand_a),
            absent_violation(instr.operand_b),
        ),
        OperandClass::RegisterAndShortImmediate => {
            if !(instr.operand_a is Register) {
                Some(ValidationError::OperandNotRegister)
            } else {
                match instr.operand_b {
                    Operand::ShortImmediate(imm) => {
                        if imm > SHORT_IMMEDIATE_MAX {
                            Some(ValidationError::ImmediateTooLarge)
                        } else {
                            None
                        }
                    },
                    _ => Some(ValidationError::OperandNotShortImmediate),
                }
            }
        },
        OperandClass::RegisterAndLargeImmediate => {
            if !(instr.operand_a is Register) {
                Some(ValidationError::OperandNotRegister)
            } else if !(instr.operand_b is LargeImmediate) {
                Some(ValidationError::OperandNotLargeImmediate)
            } else {
                None
            }
        },
    }
}

/// The result of a check: `Ok` where no rule is broken, else the error.
pub open spec fn outcome(v: Option<ValidationError>) -> Result<(), ValidationError> {
    match v {
        None => Ok(()),
        Some(e) => Err(e),
    }
}

fn is_label_start_char(c: char) -> (r: bool)
    ensures
        r == is_label_start(c),
{
    ('a' <= c && c <= 'z') || ('A' <= c && c <= 'Z') || c == '_'
}

fn is_label_body_char(c: char) -> (r: bool)
    ensures
        r == is_label_char(c),
{
    is_label_start_char(c) || ('0' <= c && c <= '9')
}

/// Takes a label and validates that it is not empty, contains only ASCII
/// alphanumeric characters and underscores, and starts with a letter or an
/// underscore.
pub fn validate_label(label: &str) -> (r: Result<(), ValidationError>)
    ensures
        r is Ok <==> valid_label(label@),
        r is Err ==> r == Err::<(), ValidationError>(ValidationError::InvalidLabel),
{
    let chars = chars_of(label);
    if chars.len() == 0 || !is_label_start_char(chars[0]) {
        return Err(ValidationError::InvalidLabel);
    }
    let mut i: usize = 0;
    while i < chars.len()
        invariant
            i <= chars.len(),
            chars@ == label@,
            forall|k: int| 0 <= k < i ==> is_label_char(#[trigger] chars@[k]),
        decreases chars.len() - i,
    {
        if !is_label_body_char(chars[i]) {
            return Err(ValidationError::InvalidLabel);
        }
        i = i + 1;
    }
    Ok(())
}

fn check_absent(operand: &Operand) -> (r: Result<(), ValidationError>)
    ensures
        r == outcome(absent_violation(*operand)),
{
    match operand {
        Operand::ShortImmediate(_) | Operand::LargeImmediate(_) => Err(
            ValidationError::OperandNotRegister,
        ),
        Operand::Register(reg) => match reg {
            Register::Null => Ok(()),
            _ => Err(ValidationError::RegisterNotNone),
        },
    }
}

fn check_present(operand: &Operand) -> (r: Result<(), ValidationError>)
    ensures
        r == outcome(present_violation(*operand)),
{
    match operand {
        Operand::ShortImmediate(_) | Operand::LargeImmediate(_) => Err(
            ValidationError::OperandNotRegister,
        ),
        Operand::Register(reg) => match reg {
            Register::Null => Err(ValidationError::RegisterIsNone),
            _ => Ok(()),
        },
    }
}

/// Takes a pair of `Operand`s which should represent
/// `Operand::Register`s and returns `Ok(())` if they match, or a
/// `ValidationError` if they are of mixed sizes (16 and 8 bits), if a high
/// register is paired with a low register, or if the first names no
/// register that can be paired.
pub fn validate_register_operand_pair(operand_a: &Operand, operand_b: &Operand) -> (r: Result<
    (),
    ValidationError,
>)
    ensures
        r == outcome(pair_violation(*operand_a, *operand_b)),
{
    let reg_a = match operand_a {
        Operand::Register(reg_a) => reg_a,
        _ => {
            return Err(ValidationError::OperandNotRegister);
        },
    };
    let reg_b = match operand_b {
        Operand::Register(reg_b) => reg_b,
        _ => {
            return Err(ValidationError::OperandNotRegister);
        },
    };
    match reg_a {
        Register::Ax
        | Register::Bx
        | Register::Cx
        | Register::Dx
        | Register::Sp
        | Register::Fp
        | Register::Bp
        | Register::Rp => match reg_b {
            Register::Ax
            | Register::Bx
            | Register::Cx
            | Register::Dx
            | Register::Sp
            | Register::Fp
            | Register::Bp
            | Register::Rp => Ok(()),
            _ => Err(ValidationError::MixedRegisterTypes),
        },
        Register::Ah | Register::Bh | Register::Ch | Register::Dh => match reg_b {
            Register::Ah | Register::Bh | Register::Ch | Register::Dh => Ok(()),
            _ => Err(ValidationError::MixedRegisterTypes),
        },
        Register::Al | Register::Bl | Register::Cl | Register::Dl => match reg_b {
            Register::Al | Register::Bl | Register::Cl | Register::Dl => Ok(()),
            _ => Err(ValidationError::MixedRegisterTypes),
        },
        Register::Null | Register::Pc | Register::St => Err(ValidationError::RegisterIsNone),
    }
}

/// Takes an instruction and validates the register code and the operand
/// types and values.
pub fn validate_instruction(instr: &Instruction) -> (r: Result<(), ValidationError>)
    ensures
        r == outcome(violation(*instr)),
{
    match instr.opcode.operand_class() {
        OperandClass::NoOperand => {
            if instr.register_code() != 0 {
                return Err(ValidationError::InvalidRegisterCode);
            }
            match check_absent(&instr.operand_a) {
                Ok(()) => check_absent(&instr.operand_b),
                Err(e) => Err(e),
            }
        },
        OperandClass::TwoRegister => {
            let code = instr.register_code();
            if !(code == 0b1010 || code == 0b0101 || code == 0b1001 || code == 0b0110 || code
                == 0b1111) {
                return Err(ValidationError::InvalidRegisterCode);
            }
            validate_register_operand_pair(&instr.operand_a, &instr.operand_b)
        },
        OperandClass::OneRegister => {
            match check_present(&instr.operand_a) {
                Ok(()) => check_absent(&instr.operand_b),
                Err(e) => Err(e),
            }
        },
        OperandClass::RegisterAndShortImmediate => {
            match instr.operand_a {
                Operand::ShortImmediate(_) | Operand::LargeImmediate(_) => {
                    return Err(ValidationError::OperandNotRegister);
                },
                _ => {},
            }
            match instr.operand_b {
                Operand::Register(_) | Operand::LargeImmediate(_) => Err(
                    ValidationError::OperandNotShortImmediate,
                ),
                Operand::ShortImmediate(imm) => {
                    if imm > SHORT_IMMEDIATE_MAX {
                        Err(ValidationError::ImmediateTooLarge)
                    } else {
                        Ok(())
                    }
                },
            }
        },
        OperandClass::RegisterAndLargeImmediate => {
            match instr.operand_a {
                Operand::ShortImmediate(_) | Operand::LargeImmediate(_) => {
                    return Err(ValidationError::OperandNotRegister);
                },
                _ => {},
            }
            match instr.operand_b {
                Operand::Register(_) | Operand::ShortImmediate(_) => Err(
                    ValidationError::OperandNotLargeImmediate,
                ),
                _ => Ok(()),
            }
        },
    }
}

/// An opcode that takes no operand accepts the instruction whose operands
/// are both the absent register and whose width tags are clear, and rejects
/// every instruction with another operand.
pub proof fn lemma_no_operand_class(instr: Instruction)
    requires
        instr.opcode.spec_operand_class() == OperandClass::NoOperand,
    ensures
        instr.operand_a != Operand::Register(Register::Null) ==> violation(instr) is Some,
        instr.operand_b != Operand::Register(Register::Null) ==> violation(instr) is Some,
        instr.operand_a == Operand::Register(Register::Null) && instr.operand_b
            == Operand::Register(Register::Null) && instr.spec_register_code() == 0 ==> violation(
            instr,
        ) is None,
{
}

/// What validity comes to for an instruction whose flags agree with its
/// first operand: the width tags add nothing to the operand checks.
pub proof fn lemma_valid_well_formed(instr: Instruction)
    requires
        instr.wf(),
    ensures
        violation(instr) is None <==> match instr.opcode.spec_operand_class() {
            OperandClass::NoOperand => instr.operand_a == Operand::Register(Register::Null)
                && instr.operand_b == Operand::Register(Register::Null),
            OperandClass::TwoRegister => instr.operand_b is Register && {
                let a = instr.operand_a->Register_0;
                let b = instr.operand_b->Register_0;
                ||| a.is_full_width() && b.is_full_width()
                ||| a.is_high_half() && b.is_high_half()
                ||| a.is_low_half() && b.is_low_half()
            },
            OperandClass::OneRegister => instr.operand_a != Operand::Register(Register::Null)
                && instr.operand_b == Operand::Register(Register::Null),
            OperandClass::RegisterAndShortImmediate => instr.operand_b is ShortImmediate
                && instr.operand_b->ShortImmediate_0 <= SHORT_IMMEDIATE_MAX,
            OperandClass::RegisterAndLargeImmediate => instr.operand_b is LargeImmediate,
        },
{
}

} // verus!
