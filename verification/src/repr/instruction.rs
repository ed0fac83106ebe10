//! Operands and instructions, and the packing of an instruction into its
//! machine word.

use vstd::prelude::*;
use crate::error::AsmError;
use crate::number::{bounded_value, convert_imm_str_to_u16};
use crate::text::{chars_of, split_tokens, strip_commas, strip_trailing_commas, token_at, token_or_empty, tokens};
use super::data::Data;
use super::opcode::Opcode;
use super::register::Register;

verus! {

/// What an instruction works on.
#[derive(Debug, Clone, Copy, PartialEq, Eq, Structural)]
pub enum Operand {
    /// A register, or the absent register where there is no operand.
    Register(Register),
    /// An immediate of one byte; opcodes that take one accept 0 to 31.
    ShortImmediate(u8),
    /// An immediate of sixteen bits.
    LargeImmediate(u16),
}

impl Operand {
    /// What the operand puts into the machine word: a register's family
    /// code, or an immediate's value. A register without a family code has
    /// none.
    pub open spec fn spec_code(&self) -> Option<u16> {
        match *self {
            Operand::Register(reg) => reg.spec_family_code(),
            Operand::ShortImmediate(imm) => Some(imm as u16),
            Operand::LargeImmediate(imm) => Some(imm),
        }
    }

    /// Whether the operand is a register that sets an instruction's high
    /// bit.
    pub open spec fn spec_is_high(&self) -> bool {
        match *self {
            Operand::Register(reg) => reg.spec_is_high_reg(),
            _ => false,
        }
    }

    /// Whether the operand is a register that sets an instruction's low bit.
    pub open spec fn spec_is_low(&self) -> bool {
        match *self {
            Operand::Register(reg) => reg.spec_is_low_reg(),
            _ => false,
        }
    }

    /// The operand's contribution to the machine word, or
    /// `InvalidRegisterOperand` for a register that has no family code.
    pub fn code(&self) -> (r: Result<u16, AsmError>)
        ensures
            r == match self.spec_code() {
                Some(code) => Ok::<u16, AsmError>(code),
                None => Err::<u16, AsmError>(AsmError::InvalidRegisterOperand),
            },
    {
        match self {
            Operand::Register(reg) => reg.family_code(),
            Operand::ShortImmediate(imm) => Ok(*imm as u16),
            Operand::LargeImmediate(imm) => Ok(*imm),
        }
    }
}

/// Represents a Sim6 instruction.
///
/// `high` and `low` say which bytes of the first operand's register take
/// part; `signed` and `set_flags` belong to the opcode.
#[derive(Debug, Clone, Copy, PartialEq, Eq, Structural)]
pub struct Instruction {
    pub opcode: Opcode,
    pub high: bool,
    pub low: bool,
    pub signed: bool,
    pub set_flags: bool,
    pub operand_a: Operand,
    pub operand_b: Operand,
}

/// An instruction's machine word.
#[derive(Debug, Clone, Copy, PartialEq, Eq, Structural)]
pub enum InstrType {
    /// The 16-bit form of every instruction without a large immediate.
    Regular(u16),
    /// The 32-bit form, whose lower half is a large immediate.
    Long(u32),
}

/// A flag as a bit.
pub open spec fn bit(flag: bool) -> u16 {
    if flag {
        1u16
    } else {
        0u16
    }
}

/// The opcode in bits 15 to 10, then the high, low, set-flags and signed
/// bits in bits 9 to 6.
pub open spec fn header_word(opcode: u16, high: bool, low: bool, set_flags: bool, signed: bool) -> u16 {
    (opcode << 10) | (bit(high) << 9) | (bit(low) << 8) | (bit(set_flags) << 7) | (bit(signed)
        << 6)
}

/// The 16-bit word: the header, the first operand's code from bit 3 up, and
/// the second operand's code from bit 0 up.
pub open spec fn regular_word(header: u16, a: u16, b: u16) -> u16 {
    header | (a << 3) | b
}

/// The 32-bit word: header and first operand's code in the upper half, the
/// immediate in the lower half.
pub open spec fn long_word(header: u16, a: u16, imm: u16) -> u32 {
    ((header as u32) << 16) | ((a as u32) << 16) | (imm as u32)
}

/// The `k`-th token of an instruction line as an operand: without the
/// commas at its end, or `none` where the line has no such token.
pub open spec fn operand_token(line: Seq<char>, k: int) -> Seq<char> {
    if 0 <= k < tokens(line).len() {
        strip_commas(tokens(line)[k])
    } else {
        "none"@
    }
}

/// A decimal digit.
pub open spec fn is_decimal_digit(c: char) -> bool {
    '0' <= c && c <= '9'
}

/// The immediate operand that a numeral writes for an opcode: a large
/// immediate for `movi`, a short one for every other opcode. The numeral
/// must be worth at most 65535, and at most 255 where a short immediate is
/// made of it.
pub open spec fn spec_immediate_operand(opcode: Opcode, numeral: Seq<char>) -> Result<
    Operand,
    AsmError,
> {
    match bounded_value(numeral, u16::MAX as nat) {
        None => Err(AsmError::ImmediateOutOfRange),
        Some(v) => {
            if opcode == Opcode::MovI {
                Ok(Operand::LargeImmediate(v as u16))
            } else if v <= u8::MAX {
                Ok(Operand::ShortImmediate(v as u8))
            } else {
                Err(AsmError::ImmediateOutOfRange)
            }
        },
    }
}

/// The second operand that a token writes: an immediate where the token
/// starts with a decimal digit, else a register.
pub open spec fn spec_second_operand(opcode: Opcode, token: Seq<char>) -> Result<
    Operand,
    AsmError,
> {
    if token.len() > 0 && is_decimal_digit(token[0]) {
        spec_immediate_operand(opcode, token)
    } else {
        match Register::spec_parse(token) {
            Some(reg) => Ok(Operand::Register(reg)),
            None => Err(AsmError::UnknownRegister),
        }
    }
}

/// Takes a string representing an integer either in decimal, hex (with the
/// prefix '0x'), or binary (with the prefix '0b') and returns an
/// `Operand::LargeImmediate` or an `Operand::ShortImmediate` depending on
/// the opcode provided.
pub fn get_immediate_from_string(opcode: &Opcode, numeral: &str) -> (r: Result<Operand, AsmError>)
    ensures
        r == spec_immediate_operand(*opcode, numeral@),
{
    let immediate = match convert_imm_str_to_u16(numeral) {
        Ok(v) => v,
        Err(e) => {
            return Err(e);
        },
    };
    match opcode {
        Opcode::MovI => Ok(Operand::LargeImmediate(immediate)),
        _ => {
            if immediate <= 0xFF {
                Ok(Operand::ShortImmediate(immediate as u8))
            } else {
                Err(AsmError::ImmediateOutOfRange)
            }
        },
    }
}

/// Reads the second operand of an instruction from its token.
fn second_operand(opcode: &Opcode, token: &str) -> (r: Result<Operand, AsmError>)
    ensures
        r == spec_second_operand(*opcode, token@),
{
    let chars = chars_of(token);
    if chars.len() > 0 && '0' <= chars[0] && chars[0] <= '9' {
        get_immediate_from_string(opcode, token)
    } else {
        match Register::parse(token) {
            Ok(reg) => Ok(Operand::Register(reg)),
            Err(e) => Err(e),
        }
    }
}

impl Instruction {
    /// The first operand is a register and the four flags are the ones
    /// that it and the opcode determine.
    pub open spec fn wf(&self) -> bool {
        &&& self.operand_a is Register
        &&& self.high == self.operand_a.spec_is_high()
        &&& self.low == self.operand_a.spec_is_low()
        &&& self.signed == self.opcode.spec_is_signed()
        &&& self.set_flags == self.opcode.spec_set_flags()
    }

    /// The instruction with the given opcode and operands: its high and low
    /// bits are those of the first operand's register, its signed and
    /// set-flags bits those of the opcode.
    pub open spec fn spec_new(opcode: Opcode, operand_a: Operand, operand_b: Operand) -> Instruction {
        Instruction {
            opcode,
            high: operand_a.spec_is_high(),
            low: operand_a.spec_is_low(),
            signed: opcode.spec_is_signed(),
            set_flags: opcode.spec_set_flags(),
            operand_a,
            operand_b,
        }
    }

    /// The instruction that a line of text writes. The first token is the
    /// mnemonic, the second and third are the operands; commas at the end
    /// of a token do not count, and an operand that is not written is the
    /// absent register. The first operand is always a register. The second
    /// is an immediate if it starts with a decimal digit, else a register.
    pub open spec fn spec_parse(line: Seq<char>) -> Result<Instruction, AsmError> {
        match Opcode::spec_parse(strip_commas(token_or_empty(line, 0))) {
            None => Err(AsmError::UnknownOpcode),
            Some(opcode) => match Register::spec_parse(operand_token(line, 1)) {
                None => Err(AsmError::UnknownRegister),
                Some(reg) => match spec_second_operand(opcode, operand_token(line, 2)) {
                    Err(e) => Err(e),
                    Ok(operand_b) => Ok(
                        Instruction::spec_new(opcode, Operand::Register(reg), operand_b),
                    ),
                },
            },
        }
    }

    /// The ten header bits of the instruction's word.
    pub open spec fn spec_header(&self) -> u16 {
        header_word(self.opcode.spec_code(), self.high, self.low, self.set_flags, self.signed)
    }

    /// The width tags of both operands in four bits: high and low of the
    /// first operand as 8 and 4, high and low of the second as 2 and 1.
    pub open spec fn spec_register_code(&self) -> u16 {
        (8 * bit(self.high) + 4 * bit(self.low) + 2 * bit(self.operand_b.spec_is_high()) + bit(
            self.operand_b.spec_is_low(),
        )) as u16
    }

    /// The instruction's machine word: the long form where the second
    /// operand is a large immediate, the regular form otherwise. There is
    /// none where an operand is a register without a family code.
    pub open spec fn spec_encode(&self) -> Result<InstrType, AsmError> {
        match (self.operand_a.spec_code(), self.operand_b.spec_code()) {
            (Some(a), Some(b)) => Ok(
                match self.operand_b {
                    Operand::LargeImmediate(_) => InstrType::Long(
                        long_word(self.spec_header(), a, b),
                    ),
                    _ => InstrType::Regular(regular_word(self.spec_header(), a, b)),
                },
            ),
            _ => Err(AsmError::InvalidRegisterOperand),
        }
    }

    /// Creates an instruction from the given parameters, auto-calculates
    /// the high, low, flag and signed bits.
    pub fn new(opcode: Opcode, operand_a: Operand, operand_b: Operand) -> (instr: Instruction)
        requires
            operand_a is Register,
        ensures
            instr == Instruction::spec_new(opcode, operand_a, operand_b),
            instr.wf(),
    {
        let (high, low) = match &operand_a {
            Operand::Register(reg) => (reg.is_high_reg(), reg.is_low_reg()),
            _ => (false, false),
        };
        Instruction {
            signed: opcode.is_signed(),
            set_flags: opcode.set_flags(),
            opcode,
            high,
            low,
            operand_a,
            operand_b,
        }
    }

    /// Takes a string representing a Sim6 instruction and converts it to an
    /// `Instruction`. The operands are not checked against the opcode.
    pub fn parse(line: &str) -> (r: Result<Instruction, AsmError>)
        ensures
            r == Instruction::spec_parse(line@),
            r matches Ok(instr) ==> instr.wf(),
    {
        let toks = split_tokens(line);
        let mnemonic = strip_trailing_commas(token_at(&toks, 0));
        let opcode = match Opcode::parse(mnemonic) {
            Ok(opcode) => opcode,
            Err(e) => {
                return Err(e);
            },
        };
        let token_a = if toks.len() > 1 {
            strip_trailing_commas(toks[1])
        } else {
            "none"
        };
        let operand_a = match Register::parse(token_a) {
            Ok(reg) => Operand::Register(reg),
            Err(e) => {
                return Err(e);
            },
        };
        let token_b = if toks.len() > 2 {
            strip_trailing_commas(toks[2])
        } else {
            "none"
        };
        let operand_b = match second_operand(&opcode, token_b) {
            Ok(operand) => operand,
            Err(e) => {
                return Err(e);
            },
        };
        Ok(Instruction::new(opcode, operand_a, operand_b))
    }

    /// The width tags of both operands, as the validator reads them.
    pub fn register_code(&self) -> (r: u16)
        ensures
            r == self.spec_register_code(),
            r < 16,
    {
        let (b_high, b_low) = match &self.operand_b {
            Operand::Register(reg) => (reg.is_high_reg(), reg.is_low_reg()),
            _ => (false, false),
        };
        let mut code: u16 = 0;
        if self.high {
            code = code + 8;
        }
        if self.low {
            code = code + 4;
        }
        if b_high {
            code = code + 2;
        }
        if b_low {
            code = code + 1;
        }
        code
    }

    /// Takes a Sim6 instruction and converts it to its binary
    /// representation.
    pub fn encode(&self) -> (r: Result<InstrType, AsmError>)
        ensures
            r == self.spec_encode(),
    {
        let opcode: u16 = self.opcode.code() << 10;
        let high: u16 = (if self.high { 1u16 } else { 0u16 }) << 9;
        let low: u16 = (if self.low { 1u16 } else { 0u16 }) << 8;
        let flag: u16 = (if self.set_flags { 1u16 } else { 0u16 }) << 7;
        let signed: u16 = (if self.signed { 1u16 } else { 0u16 }) << 6;
        let operand_b_code: u16 = match self.operand_b.code() {
            Ok(code) => code,
            Err(e) => {
                return Err(e);
            },
        };
        let operand_a_code: u16 = match self.operand_a.code() {
            Ok(code) => code,
            Err(e) => {
                return Err(e);
            },
        };
        let upper_instr: u16 = opcode | high | low | flag | signed;
        match self.operand_b {
            Operand::Register(_) | Operand::ShortImmediate(_) => Ok(
                InstrType::Regular(upper_instr | operand_a_code << 3 | operand_b_code),
            ),
            Operand::LargeImmediate(_) => Ok(
                InstrType::Long(
                    (upper_instr as u32) << 16 | (operand_a_code as u32) << 16
                        | operand_b_code as u32,
                ),
            ),
        }
    }
}

/// What a line of a program translates to.
#[derive(Debug, Clone)]
pub enum InstructionOrData {
    Instruction(Instruction),
    Data(Data),
}

/// What a line of a program translates to, with the data as plain bytes.
pub enum Item {
    Instruction(Instruction),
    Data(Seq<u8>),
}

impl View for InstructionOrData {
    type V = Item;

    open spec fn view(&self) -> Item {
        match *self {
            InstructionOrData::Instruction(instr) => Item::Instruction(instr),
            InstructionOrData::Data(data) => Item::Data(data@),
        }
    }
}

impl InstructionOrData {
    /// The instruction that the line holds; the line must not be data.
    pub fn into_instruction(self) -> (instr: Instruction)
        requires
            self is Instruction,
        ensures
            self@ == Item::Instruction(instr),
    {
        match self {
            InstructionOrData::Instruction(instr) => instr,
            InstructionOrData::Data(_) => Instruction::new(
                Opcode::Nop,
                Operand::Register(Register::Null),
                Operand::Register(Register::Null),
            ),
        }
    }
}

/// What can be read back from a regular word whose second operand's code
/// does not spill into the bits above it. With a code below 64 the header
/// is intact: bits 15 to 10 are the opcode's code, bits 9 to 6 the high,
/// low, set-flags and signed bits. With a code below 8 the operand fields
/// are intact too: bits 5 to 3 are the first operand's code, bits 2 to 0 the
/// second's.
pub proof fn lemma_regular_word_fields(instr: Instruction, word: u16)
    requires
        instr.wf(),
        instr.spec_encode() == Ok::<InstrType, AsmError>(InstrType::Regular(word)),
    ensures
        instr.operand_b.spec_code()->0 < 64 ==> {
            &&& Opcode::spec_from_code(word >> 10) == Some(instr.opcode)
            &&& (word >> 9) & 1 == bit(instr.high)
            &&& (word >> 8) & 1 == bit(instr.low)
            &&& (word >> 7) & 1 == bit(instr.set_flags)
            &&& (word >> 6) & 1 == bit(instr.signed)
        },
        instr.operand_b.spec_code()->0 < 8 ==> {
            &&& (word >> 3) & 7 == instr.operand_a.spec_code()->0
            &&& word & 7 == instr.operand_b.spec_code()->0
        },
{
    let op = instr.opcode.spec_code();
    let h = bit(instr.high);
    let l = bit(instr.low);
    let f = bit(instr.set_flags);
    let s = bit(instr.signed);
    let a = instr.operand_a.spec_code()->0;
    let b = instr.operand_b.spec_code()->0;
    Opcode::lemma_code_injective(instr.opcode, instr.opcode);
    assert(word == ((op << 10) | (h << 9) | (l << 8) | (f << 7) | (s << 6)) | (a << 3) | b);
    assert(a < 8);
    if b < 64 {
        assert(op < 64 && h <= 1 && l <= 1 && f <= 1 && s <= 1 && a < 8 && b < 64 && word == ((op
            << 10) | (h << 9) | (l << 8) | (f << 7) | (s << 6)) | (a << 3) | b ==> (word >> 10)
            == op && (word >> 9) & 1 == h && (word >> 8) & 1 == l && (word >> 7) & 1 == f && (word
            >> 6) & 1 == s) by (bit_vector);
    }
    if b < 8 {
        assert(op < 64 && h <= 1 && l <= 1 && f <= 1 && s <= 1 && a < 8 && b < 8 && word == ((op
            << 10) | (h << 9) | (l << 8) | (f << 7) | (s << 6)) | (a << 3) | b ==> (word >> 3) & 7
            == a && word & 7 == b) by (bit_vector);
    }
}

/// What can be read back from a long word: the lower half is the immediate,
/// bits 2 to 0 of the upper half are the first operand's code, and the
/// header sits in the upper half as it does in a regular word.
pub proof fn lemma_long_word_fields(instr: Instruction, word: u32)
    requires
        instr.wf(),
        instr.spec_encode() == Ok::<InstrType, AsmError>(InstrType::Long(word)),
    ensures
        instr.operand_b == Operand::LargeImmediate((word & 0xffff) as u16),
        (word >> 16) & 7 == instr.operand_a.spec_code()->0,
        Opcode::spec_from_code((word >> 26) as u16) == Some(instr.opcode),
        (word >> 25) & 1 == bit(instr.high),
        (word >> 24) & 1 == bit(instr.low),
        (word >> 23) & 1 == bit(instr.set_flags),
        (word >> 22) & 1 == bit(instr.signed),
{
    let op = instr.opcode.spec_code();
    let h = bit(instr.high);
    let l = bit(instr.low);
    let f = bit(instr.set_flags);
    let s = bit(instr.signed);
    let a = instr.operand_a.spec_code()->0;
    let b = instr.operand_b.spec_code()->0;
    Opcode::lemma_code_injective(instr.opcode, instr.opcode);
    let header = (op << 10) | (h << 9) | (l << 8) | (f << 7) | (s << 6);
    assert(word == ((header as u32) << 16) | ((a as u32) << 16) | (b as u32));
    assert(a < 8);
    assert(op < 64 && h <= 1 && l <= 1 && f <= 1 && s <= 1 && a < 8 && header == ((op << 10) | (h
        << 9) | (l << 8) | (f << 7) | (s << 6)) && word == ((header as u32) << 16) | ((a as u32)
        << 16) | (b as u32) ==> (word & 0xffff) as u16 == b && (word >> 16) & 7 == a as u32 && (
    word >> 26) as u16 == op && (word >> 25) & 1 == h as u32 && (word >> 24) & 1 == l as u32 && (
    word >> 23) & 1 == f as u32 && (word >> 22) & 1 == s as u32) by (bit_vector);
}

} // verus!
