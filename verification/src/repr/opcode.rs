//! The opcode table: mnemonics, numeric codes, operand classes and the two
//! flags that every opcode carries into its instructions.

use vstd::prelude::*;
use crate::error::AsmError;
use crate::text::{lowercase, matches_name};

verus! {

/// The operations of the processor.
#[derive(Debug, Clone, Copy, PartialEq, Eq, Structural)]
pub enum Opcode {
    /// Do nothing.
    Nop,
    /// Rd = Rd + Rt (signed).
    Add,
    /// Rd = Rd + Rt (unsigned).
    Addu,
    /// Rd = Rd + Flags[Carry].
    Addc,
    /// Rd = Rd + 1.
    Inc,
    /// Rd = Rd - Rt (signed).
    Sub,
    /// Rd = Rd - Rt (unsigned).
    Subu,
    /// Rd = Rd - Flags[Carry].
    Subb,
    /// Rd = Rd - 1.
    Dec,
    /// Set flags for the result of Rd - Rt.
    Cmp,
    /// Rd = -Rd (two's complement).
    Neg,
    /// Rd = Rt.
    Move,
    /// Push Rd to the stack.
    Push,
    /// Pop the stack to Rd.
    Pop,
    /// Push all registers to the stack.
    PushA,
    /// Pop all registers from the stack.
    PopA,
    /// Push the flags to the stack.
    PushF,
    /// Pop the flags from the stack.
    PopF,
    /// Exchange Rd and Rt.
    Swap,
    /// Read port imm into Rd.
    In,
    /// Write Rd to port imm.
    Out,
    /// Load the address of a label.
    Lda,
    /// Rd = 16-bit immediate.
    MovI,
    /// Rd = Rth * Rtl (signed).
    Mul,
    /// Rd = Rth * Rtl (unsigned).
    Mulu,
    /// Rd = Rth / Rtl (signed).
    Div,
    /// Rd = Rth / Rtl (unsigned).
    Divu,
    /// Sign extend Rdl into Rdh.
    Csign,
    /// Rd = ~Rd.
    Not,
    /// Rd = Rd & Rt.
    And,
    /// Rd = Rd | Rt.
    Or,
    /// Rd = Rd ^ Rt.
    Xor,
    /// Rd = Rd >> Rt (arithmetic).
    Sra,
    /// Rd = Rd >> Rt (logical).
    Srl,
    /// Rd = Rd << Rt.
    Sll,
    /// Rd = 0.
    Clear,
    /// Call the function at the address in Rd.
    Call,
    /// Return from a function call.
    Ret,
    /// Jump to Rd.
    Jump,
    /// Jump to Rd if equal.
    Jeq,
    /// Jump to Rd if not equal.
    Jne,
    /// Jump to Rd if greater.
    Jgt,
    /// Jump to Rd if less.
    Jle,
    /// Jump to Rd if greater or equal.
    Jgte,
    /// Jump to Rd if less or equal.
    Jlte,
    /// Jump to Rd if Flags[Zero].
    Jzro,
    /// Jump to Rd if not Flags[Zero].
    Jnzro,
    /// Jump to Rd if Flags[Overflow].
    Jovf,
    /// Jump to Rd if Flags[Carry].
    Jcry,
    /// Flags[Carry] = 1.
    Scry,
    /// Flags[Carry] = 0.
    Ccry,
    /// Enable interrupts.
    Eitr,
    /// Disable interrupts.
    Ditr,
    /// Raise interrupt imm.
    Intr,
    /// Raise interrupt imm if Flags[Overflow].
    Into,
    /// Return from an interrupt.
    Iret,
    /// Rd = memory at the address in Rt.
    Load,
    /// Memory at the address in Rt = Rd.
    Store,
}

/// The shape of the operands that an opcode takes.
#[derive(Debug, Clone, Copy, PartialEq, Eq, Structural)]
pub enum OperandClass {
    /// No operand at all.
    NoOperand,
    /// One register.
    OneRegister,
    /// Two registers of the same width.
    TwoRegister,
    /// A register and an immediate of five bits.
    RegisterAndShortImmediate,
    /// A register and an immediate of sixteen bits.
    RegisterAndLargeImmediate,
}

/// The number of opcodes; their codes are the numbers below it.
pub const OPCODE_COUNT: u16 = 58;

impl Opcode {
    /// The 6-bit code of the opcode.
    pub open spec fn spec_code(&self) -> u16 {
        match self {
            Opcode::Nop => 0u16,
            Opcode::Add => 1u16,
            Opcode::Addu => 2u16,
            Opcode::Addc => 3u16,
            Opcode::Inc => 4u16,
            Opcode::Sub => 5u16,
            Opcode::Subu => 6u16,
            Opcode::Subb => 7u16,
            Opcode::Dec => 8u16,
            Opcode::Cmp => 9u16,
            Opcode::Neg => 10u16,
            Opcode::Move => 11u16,
            Opcode::Push => 12u16,
            Opcode::Pop => 13u16,
            Opcode::PushA => 14u16,
            Opcode::PopA => 15u16,
            Opcode::PushF => 16u16,
            Opcode::PopF => 17u16,
            Opcode::Swap => 18u16,
            Opcode::In => 19u16,
            Opcode::Out => 20u16,
            Opcode::Lda => 21u16,
            Opcode::MovI => 22u16,
            Opcode::Mul => 23u16,
            Opcode::Mulu => 24u16,
            Opcode::Div => 25u16,
            Opcode::Divu => 26u16,
            Opcode::Csign => 27u16,
            Opcode::Not => 28u16,
            Opcode::And => 29u16,
            Opcode::Or => 30u16,
            Opcode::Xor => 31u16,
            Opcode::Sra => 32u16,
            Opcode::Srl => 33u16,
            Opcode::Sll => 34u16,
            Opcode::Clear => 35u16,
            Opcode::Call => 36u16,
            Opcode::Ret => 37u16,
            Opcode::Jump => 38u16,
            Opcode::Jeq => 39u16,
            Opcode::Jne => 40u16,
            Opcode::Jgt => 41u16,
            Opcode::Jle => 42u16,
            Opcode::Jgte => 43u16,
            Opcode::Jlte => 44u16,
            Opcode::Jzro => 45u16,
            Opcode::Jnzro => 46u16,
            Opcode::Jovf => 47u16,
            Opcode::Jcry => 48u16,
            Opcode::Scry => 49u16,
            Opcode::Ccry => 50u16,
            Opcode::Eitr => 51u16,
            Opcode::Ditr => 52u16,
            Opcode::Intr => 53u16,
            Opcode::Into => 54u16,
            Opcode::Iret => 55u16,
            Opcode::Load => 56u16,
            Opcode::Store => 57u16,
        }
    }

    /// The opcode with the given code, if there is one.
    pub open spec fn spec_from_code(code: u16) -> Option<Opcode> {
        match code {
            0u16 => Some(Opcode::Nop),
            1u16 => Some(Opcode::Add),
            2u16 => Some(Opcode::Addu),
            3u16 => Some(Opcode::Addc),
            4u16 => Some(Opcode::Inc),
            5u16 => Some(Opcode::Sub),
            6u16 => Some(Opcode::Subu),
            7u16 => Some(Opcode::Subb),
            8u16 => Some(Opcode::Dec),
            9u16 => Some(Opcode::Cmp),
            10u16 => Some(Opcode::Neg),
            11u16 => Some(Opcode::Move),
            12u16 => Some(Opcode::Push),
            13u16 => Some(Opcode::Pop),
            14u16 => Some(Opcode::PushA),
            15u16 => Some(Opcode::PopA),
            16u16 => Some(Opcode::PushF),
            17u16 => Some(Opcode::PopF),
            18u16 => Some(Opcode::Swap),
            19u16 => Some(Opcode::In),
            20u16 => Some(Opcode::Out),
            21u16 => Some(Opcode::Lda),
            22u16 => Some(Opcode::MovI),
            23u16 => Some(Opcode::Mul),
            24u16 => Some(Opcode::Mulu),
            25u16 => Some(Opcode::Div),
            26u16 => Some(Opcode::Divu),
            27u16 => Some(Opcode::Csign),
            28u16 => Some(Opcode::Not),
            29u16 => Some(Opcode::And),
            30u16 => Some(Opcode::Or),
            31u16 => Some(Opcode::Xor),
            32u16 => Some(Opcode::Sra),
            33u16 => Some(Opcode::Srl),
            34u16 => Some(Opcode::Sll),
            35u16 => Some(Opcode::Clear),
            36u16 => Some(Opcode::Call),
            37u16 => Some(Opcode::Ret),
            38u16 => Some(Opcode::Jump),
            39u16 => Some(Opcode::Jeq),
            40u16 => Some(Opcode::Jne),
            41u16 => Some(Opcode::Jgt),
            42u16 => Some(Opcode::Jle),
            43u16 => Some(Opcode::Jgte),
            44u16 => Some(Opcode::Jlte),
            45u16 => Some(Opcode::Jzro),
            46u16 => Some(Opcode::Jnzro),
            47u16 => Some(Opcode::Jovf),
            48u16 => Some(Opcode::Jcry),
            49u16 => Some(Opcode::Scry),
            50u16 => Some(Opcode::Ccry),
            51u16 => Some(Opcode::Eitr),
            52u16 => Some(Opcode::Ditr),
            53u16 => Some(Opcode::Intr),
            54u16 => Some(Opcode::Into),
            55u16 => Some(Opcode::Iret),
            56u16 => Some(Opcode::Load),
            57u16 => Some(Opcode::Store),
            _ => None,
        }
    }

    /// The mnemonic, in lower case.
    pub open spec fn spec_mnemonic(self) -> Seq<char> {
        match self {
            Opcode::Nop => "nop"@,
            Opcode::Add => "add"@,
            Opcode::Addu => "addu"@,
            Opcode::Addc => "addc"@,
            Opcode::Inc => "inc"@,
            Opcode::Sub => "sub"@,
            Opcode::Subu => "subu"@,
            Opcode::Subb => "subb"@,
            Opcode::Dec => "dec"@,
            Opcode::Cmp => "cmp"@,
            Opcode::Neg => "neg"@,
            Opcode::Move => "move"@,
            Opcode::Push => "push"@,
            Opcode::Pop => "pop"@,
            Opcode::PushA => "pusha"@,
            Opcode::PopA => "popa"@,
            Opcode::PushF => "pushf"@,
            Opcode::PopF => "popf"@,
            Opcode::Swap => "swap"@,
            Opcode::In => "in"@,
            Opcode::Out => "out"@,
            Opcode::Lda => "lda"@,
            Opcode::MovI => "movi"@,
            Opcode::Mul => "mul"@,
            Opcode::Mulu => "mulu"@,
            Opcode::Div => "div"@,
            Opcode::Divu => "divu"@,
            Opcode::Csign => "csign"@,
            Opcode::Not => "not"@,
            Opcode::And => "and"@,
            Opcode::Or => "or"@,
            Opcode::Xor => "xor"@,
            Opcode::Sra => "sra"@,
            Opcode::Srl => "srl"@,
            Opcode::Sll => "sll"@,
            Opcode::Clear => "clear"@,
            Opcode::Call => "call"@,
            Opcode::Ret => "ret"@,
            Opcode::Jump => "jump"@,
            Opcode::Jeq => "jeq"@,
            Opcode::Jne => "jne"@,
            Opcode::Jgt => "jgt"@,
            Opcode::Jle => "jle"@,
            Opcode::Jgte => "jgte"@,
            Opcode::Jlte => "jlte"@,
            Opcode::Jzro => "jzro"@,
            Opcode::Jnzro => "jnzro"@,
            Opcode::Jovf => "jovf"@,
            Opcode::Jcry => "jcry"@,
            Opcode::Scry => "scry"@,
            Opcode::Ccry => "ccry"@,
            Opcode::Eitr => "eitr"@,
            Opcode::Ditr => "ditr"@,
            Opcode::Intr => "intr"@,
            Opcode::Into => "into"@,
            Opcode::Iret => "iret"@,
            Opcode::Load => "load"@,
            Opcode::Store => "store"@,
        }
    }

    /// Whether the text, with its capitals made small, is a mnemonic.
    pub open spec fn names_opcode(mnemonic: Seq<char>) -> bool {
        exists|op: Opcode| lowercase(mnemonic) == #[trigger] op.spec_mnemonic()
    }

    /// The opcode that a mnemonic names, whatever the case of its letters.
    pub open spec fn spec_parse(mnemonic: Seq<char>) -> Option<Opcode> {
        if Opcode::names_opcode(mnemonic) {
            Some(choose|op: Opcode| lowercase(mnemonic) == #[trigger] op.spec_mnemonic())
        } else {
            None
        }
    }

    /// The operand class of the opcode.
    pub open spec fn spec_operand_class(&self) -> OperandClass {
        match self {
            Opcode::Nop | Opcode::PushA | Opcode::PopA | Opcode::PushF | Opcode::PopF
            | Opcode::Ret | Opcode::Scry | Opcode::Ccry | Opcode::Eitr | Opcode::Ditr
            | Opcode::Iret => OperandClass::NoOperand,
            Opcode::Add | Opcode::Addu | Opcode::Sub | Opcode::Subu | Opcode::Cmp | Opcode::Move
            | Opcode::Swap | Opcode::Lda | Opcode::Mul | Opcode::Mulu | Opcode::Div
            | Opcode::Divu | Opcode::And | Opcode::Or | Opcode::Xor | Opcode::Sra | Opcode::Srl
            | Opcode::Sll | Opcode::Load | Opcode::Store => OperandClass::TwoRegister,
            Opcode::Addc | Opcode::Inc | Opcode::Subb | Opcode::Dec | Opcode::Neg | Opcode::Push
            | Opcode::Pop | Opcode::Csign | Opcode::Not | Opcode::Clear | Opcode::Call
            | Opcode::Jump | Opcode::Jeq | Opcode::Jne | Opcode::Jgt | Opcode::Jle
            | Opcode::Jgte | Opcode::Jlte | Opcode::Jzro | Opcode::Jnzro | Opcode::Jovf
            | Opcode::Jcry => OperandClass::OneRegister,
            Opcode::In | Opcode::Out | Opcode::Intr | Opcode::Into => {
                OperandClass::RegisterAndShortImmediate
            },
            Opcode::MovI => OperandClass::RegisterAndLargeImmediate,
        }
    }

    /// The signed flag belongs to the four operations that compute on
    /// two's-complement numbers.
    pub open spec fn spec_is_signed(&self) -> bool {
        matches!(self, Opcode::Add | Opcode::Sub | Opcode::Mul | Opcode::Div)
    }

    /// The set-flags flag belongs to the arithmetic, comparison, logic and
    /// shift operations, whose results go into the status flags.
    pub open spec fn spec_set_flags(&self) -> bool {
        matches!(
            self,
            Opcode::Add | Opcode::Addu | Opcode::Addc | Opcode::Inc | Opcode::Sub | Opcode::Subu
            | Opcode::Subb | Opcode::Dec | Opcode::Cmp | Opcode::Neg | Opcode::Mul
            | Opcode::Mulu | Opcode::Div | Opcode::Divu | Opcode::Not | Opcode::And | Opcode::Or
            | Opcode::Xor | Opcode::Sra | Opcode::Srl | Opcode::Sll
        )
    }

    /// Converts an opcode to its 6-bit integer representation.
    #[verifier::when_used_as_spec(spec_code)]
    pub fn code(&self) -> (r: u16)
        ensures
            r == self.spec_code(),
            r < OPCODE_COUNT,
    {
        match self {
            Opcode::Nop => 0,
            Opcode::Add => 1,
            Opcode::Addu => 2,
            Opcode::Addc => 3,
            Opcode::Inc => 4,
            Opcode::Sub => 5,
            Opcode::Subu => 6,
            Opcode::Subb => 7,
            Opcode::Dec => 8,
            Opcode::Cmp => 9,
            Opcode::Neg => 10,
            Opcode::Move => 11,
            Opcode::Push => 12,
            Opcode::Pop => 13,
            Opcode::PushA => 14,
            Opcode::PopA => 15,
            Opcode::PushF => 16,
            Opcode::PopF => 17,
            Opcode::Swap => 18,
            Opcode::In => 19,
            Opcode::Out => 20,
            Opcode::Lda => 21,
            Opcode::MovI => 22,
            Opcode::Mul => 23,
            Opcode::Mulu => 24,
            Opcode::Div => 25,
            Opcode::Divu => 26,
            Opcode::Csign => 27,
            Opcode::Not => 28,
            Opcode::And => 29,
            Opcode::Or => 30,
            Opcode::Xor => 31,
            Opcode::Sra => 32,
            Opcode::Srl => 33,
            Opcode::Sll => 34,
            Opcode::Clear => 35,
            Opcode::Call => 36,
            Opcode::Ret => 37,
            Opcode::Jump => 38,
            Opcode::Jeq => 39,
            Opcode::Jne => 40,
            Opcode::Jgt => 41,
            Opcode::Jle => 42,
            Opcode::Jgte => 43,
            Opcode::Jlte => 44,
            Opcode::Jzro => 45,
            Opcode::Jnzro => 46,
            Opcode::Jovf => 47,
            Opcode::Jcry => 48,
            Opcode::Scry => 49,
            Opcode::Ccry => 50,
            Opcode::Eitr => 51,
            Opcode::Ditr => 52,
            Opcode::Intr => 53,
            Opcode::Into => 54,
            Opcode::Iret => 55,
            Opcode::Load => 56,
            Opcode::Store => 57,
        }
    }

    /// The opcode that a 6-bit code stands for.
    pub fn from_code(code: u16) -> (r: Option<Opcode>)
        ensures
            r == Opcode::spec_from_code(code),
            r is Some <==> code < OPCODE_COUNT,
            r matches Some(op) ==> op.spec_code() == code,
    {
        match code {
            0 => Some(Opcode::Nop),
            1 => Some(Opcode::Add),
            2 => Some(Opcode::Addu),
            3 => Some(Opcode::Addc),
            4 => Some(Opcode::Inc),
            5 => Some(Opcode::Sub),
            6 => Some(Opcode::Subu),
            7 => Some(Opcode::Subb),
            8 => Some(Opcode::Dec),
            9 => Some(Opcode::Cmp),
            10 => Some(Opcode::Neg),
            11 => Some(Opcode::Move),
            12 => Some(Opcode::Push),
            13 => Some(Opcode::Pop),
            14 => Some(Opcode::PushA),
            15 => Some(Opcode::PopA),
            16 => Some(Opcode::PushF),
            17 => Some(Opcode::PopF),
            18 => Some(Opcode::Swap),
            19 => Some(Opcode::In),
            20 => Some(Opcode::Out),
            21 => Some(Opcode::Lda),
            22 => Some(Opcode::MovI),
            23 => Some(Opcode::Mul),
            24 => Some(Opcode::Mulu),
            25 => Some(Opcode::Div),
            26 => Some(Opcode::Divu),
            27 => Some(Opcode::Csign),
            28 => Some(Opcode::Not),
            29 => Some(Opcode::And),
            30 => Some(Opcode::Or),
            31 => Some(Opcode::Xor),
            32 => Some(Opcode::Sra),
            33 => Some(Opcode::Srl),
            34 => Some(Opcode::Sll),
            35 => Some(Opcode::Clear),
            36 => Some(Opcode::Call),
            37 => Some(Opcode::Ret),
            38 => Some(Opcode::Jump),
            39 => Some(Opcode::Jeq),
            40 => Some(Opcode::Jne),
            41 => Some(Opcode::Jgt),
            42 => Some(Opcode::Jle),
            43 => Some(Opcode::Jgte),
            44 => Some(Opcode::Jlte),
            45 => Some(Opcode::Jzro),
            46 => Some(Opcode::Jnzro),
            47 => Some(Opcode::Jovf),
            48 => Some(Opcode::Jcry),
            49 => Some(Opcode::Scry),
            50 => Some(Opcode::Ccry),
            51 => Some(Opcode::Eitr),
            52 => Some(Opcode::Ditr),
            53 => Some(Opcode::Intr),
            54 => Some(Opcode::Into),
            55 => Some(Opcode::Iret),
            56 => Some(Opcode::Load),
            57 => Some(Opcode::Store),
            _ => None,
        }
    }

    /// The mnemonic of the opcode, in lower case.
    pub fn mnemonic(&self) -> (r: &'static str)
        ensures
            r@ == self.spec_mnemonic(),
    {
        match self {
            Opcode::Nop => "nop",
            Opcode::Add => "add",
            Opcode::Addu => "addu",
            Opcode::Addc => "addc",
            Opcode::Inc => "inc",
            Opcode::Sub => "sub",
            Opcode::Subu => "subu",
            Opcode::Subb => "subb",
            Opcode::Dec => "dec",
            Opcode::Cmp => "cmp",
            Opcode::Neg => "neg",
            Opcode::Move => "move",
            Opcode::Push => "push",
            Opcode::Pop => "pop",
            Opcode::PushA => "pusha",
            Opcode::PopA => "popa",
            Opcode::PushF => "pushf",
            Opcode::PopF => "popf",
            Opcode::Swap => "swap",
            Opcode::In => "in",
            Opcode::Out => "out",
            Opcode::Lda => "lda",
            Opcode::MovI => "movi",
            Opcode::Mul => "mul",
            Opcode::Mulu => "mulu",
            Opcode::Div => "div",
            Opcode::Divu => "divu",
            Opcode::Csign => "csign",
            Opcode::Not => "not",
            Opcode::And => "and",
            Opcode::Or => "or",
            Opcode::Xor => "xor",
            Opcode::Sra => "sra",
            Opcode::Srl => "srl",
            Opcode::Sll => "sll",
            Opcode::Clear => "clear",
            Opcode::Call => "call",
            Opcode::Ret => "ret",
            Opcode::Jump => "jump",
            Opcode::Jeq => "jeq",
            Opcode::Jne => "jne",
            Opcode::Jgt => "jgt",
            Opcode::Jle => "jle",
            Opcode::Jgte => "jgte",
            Opcode::Jlte => "jlte",
            Opcode::Jzro => "jzro",
            Opcode::Jnzro => "jnzro",
            Opcode::Jovf => "jovf",
            Opcode::Jcry => "jcry",
            Opcode::Scry => "scry",
            Opcode::Ccry => "ccry",
            Opcode::Eitr => "eitr",
            Opcode::Ditr => "ditr",
            Opcode::Intr => "intr",
            Opcode::Into => "into",
            Opcode::Iret => "iret",
            Opcode::Load => "load",
            Opcode::Store => "store",
        }
    }

    /// The operand class of the opcode.
    #[verifier::when_used_as_spec(spec_operand_class)]
    pub fn operand_class(&self) -> (r: OperandClass)
        ensures
            r == self.spec_operand_class(),
    {
        match self {
            Opcode::Nop | Opcode::PushA | Opcode::PopA | Opcode::PushF | Opcode::PopF
            | Opcode::Ret | Opcode::Scry | Opcode::Ccry | Opcode::Eitr | Opcode::Ditr
            | Opcode::Iret => OperandClass::NoOperand,
            Opcode::Add | Opcode::Addu | Opcode::Sub | Opcode::Subu | Opcode::Cmp | Opcode::Move
            | Opcode::Swap | Opcode::Lda | Opcode::Mul | Opcode::Mulu | Opcode::Div
            | Opcode::Divu | Opcode::And | Opcode::Or | Opcode::Xor | Opcode::Sra | Opcode::Srl
            | Opcode::Sll | Opcode::Load | Opcode::Store => OperandClass::TwoRegister,
            Opcode::Addc | Opcode::Inc | Opcode::Subb | Opcode::Dec | Opcode::Neg | Opcode::Push
            | Opcode::Pop | Opcode::Csign | Opcode::Not | Opcode::Clear | Opcode::Call
            | Opcode::Jump | Opcode::Jeq | Opcode::Jne | Opcode::Jgt | Opcode::Jle
            | Opcode::Jgte | Opcode::Jlte | Opcode::Jzro | Opcode::Jnzro | Opcode::Jovf
            | Opcode::Jcry => OperandClass::OneRegister,
            Opcode::In | Opcode::Out | Opcode::Intr | Opcode::Into => {
                OperandClass::RegisterAndShortImmediate
            },
            Opcode::MovI => OperandClass::RegisterAndLargeImmediate,
        }
    }

    /// Whether instructions with this opcode carry the signed bit.
    #[verifier::when_used_as_spec(spec_is_signed)]
    pub fn is_signed(&self) -> (r: bool)
        ensures
            r == self.spec_is_signed(),
    {
        match self {
            Opcode::Add | Opcode::Sub | Opcode::Mul | Opcode::Div => true,
            _ => false,
        }
    }

    /// Whether instructions with this opcode carry the set-flags bit.
    #[verifier::when_used_as_spec(spec_set_flags)]
    pub fn set_flags(&self) -> (r: bool)
        ensures
            r == self.spec_set_flags(),
    {
        match self {
            Opcode::Add | Opcode::Addu | Opcode::Addc | Opcode::Inc | Opcode::Sub | Opcode::Subu
            | Opcode::Subb | Opcode::Dec | Opcode::Cmp | Opcode::Neg | Opcode::Mul
            | Opcode::Mulu | Opcode::Div | Opcode::Divu | Opcode::Not | Opcode::And | Opcode::Or
            | Opcode::Xor | Opcode::Sra | Opcode::Srl | Opcode::Sll => true,
            _ => false,
        }
    }

    /// Translates a mnemonic to the opcode it names, whatever the case of
    /// its letters; any other text is an `UnknownOpcode`.
    pub fn parse(mnemonic: &str) -> (r: Result<Opcode, AsmError>)
        ensures
            r == match Opcode::spec_parse(mnemonic@) {
                Some(op) => Ok::<Opcode, AsmError>(op),
                None => Err::<Opcode, AsmError>(AsmError::UnknownOpcode),
            },
    {
        let mut code: u16 = 0;
        while code < OPCODE_COUNT
            invariant
                code <= OPCODE_COUNT,
                forall|op: Opcode|
                    op.spec_code() < code ==> lowercase(mnemonic@) != #[trigger] op.spec_mnemonic(),
            decreases OPCODE_COUNT - code,
        {
            match Opcode::from_code(code) {
                Some(op) => {
                    if matches_name(mnemonic, op.mnemonic()) {
                        proof {
                            Opcode::lemma_parse(mnemonic@);
                        }
                        return Ok(op);
                    }
                    assert forall|other: Opcode| other.spec_code() < code + 1 implies lowercase(
                        mnemonic@,
                    ) != #[trigger] other.spec_mnemonic() by {
                        Opcode::lemma_code_injective(other, op);
                    }
                },
                None => {},
            }
            code = code + 1;
        }
        proof {
            assert forall|op: Opcode| lowercase(mnemonic@) != #[trigger] op.spec_mnemonic() by {
                Opcode::lemma_code_injective(op, op);
            }
        }
        Err(AsmError::UnknownOpcode)
    }

    /// A text names an opcode exactly if, with its capitals made small, it
    /// is that opcode's mnemonic.
    pub proof fn lemma_parse(mnemonic: Seq<char>)
        ensures
            forall|op: Opcode|
                Opcode::spec_parse(mnemonic) == Some(op) <==> lowercase(mnemonic)
                    == #[trigger] op.spec_mnemonic(),
    {
        assert forall|op: Opcode|
            Opcode::spec_parse(mnemonic) == Some(op) <==> lowercase(mnemonic)
                == #[trigger] op.spec_mnemonic() by {
            if Opcode::names_opcode(mnemonic) {
                Opcode::lemma_mnemonics_differ(op, Opcode::spec_parse(mnemonic)->0);
            }
        }
    }

    /// No two opcodes have the same mnemonic.
    pub proof fn lemma_mnemonics_differ(a: Opcode, b: Opcode)
        ensures
            a.spec_mnemonic() == b.spec_mnemonic() ==> a == b,
    {
        reveal_strlit("nop");
        reveal_strlit("add");
        reveal_strlit("addu");
        reveal_strlit("addc");
        reveal_strlit("inc");
        reveal_strlit("sub");
        reveal_strlit("subu");
        reveal_strlit("subb");
        reveal_strlit("dec");
        reveal_strlit("cmp");
        reveal_strlit("neg");
        reveal_strlit("move");
        reveal_strlit("push");
        reveal_strlit("pop");
        reveal_strlit("pusha");
        reveal_strlit("popa");
        reveal_strlit("pushf");
        reveal_strlit("popf");
        reveal_strlit("swap");
        reveal_strlit("in");
        reveal_strlit("out");
        reveal_strlit("lda");
        reveal_strlit("movi");
        reveal_strlit("mul");
        reveal_strlit("mulu");
        reveal_strlit("div");
        reveal_strlit("divu");
        reveal_strlit("csign");
        reveal_strlit("not");
        reveal_strlit("and");
        reveal_strlit("or");
        reveal_strlit("xor");
        reveal_strlit("sra");
        reveal_strlit("srl");
        reveal_strlit("sll");
        reveal_strlit("clear");
        reveal_strlit("call");
        reveal_strlit("ret");
        reveal_strlit("jump");
        reveal_strlit("jeq");
        reveal_strlit("jne");
        reveal_strlit("jgt");
        reveal_strlit("jle");
        reveal_strlit("jgte");
        reveal_strlit("jlte");
        reveal_strlit("jzro");
        reveal_strlit("jnzro");
        reveal_strlit("jovf");
        reveal_strlit("jcry");
        reveal_strlit("scry");
        reveal_strlit("ccry");
        reveal_strlit("eitr");
        reveal_strlit("ditr");
        reveal_strlit("intr");
        reveal_strlit("into");
        reveal_strlit("iret");
        reveal_strlit("load");
        reveal_strlit("store");
        let x = a.spec_mnemonic();
        let y = b.spec_mnemonic();
        if x == y {
            assert(x.len() == y.len());
            assert(x[0] == y[0]);
            assert(x[1] == y[1]);
            assert(x[2] == y[2]);
            assert(x[3] == y[3]);
            assert(x[4] == y[4]);
        }
    }

    /// Two opcodes with the same code are the same opcode, and every code
    /// is below `OPCODE_COUNT`.
    pub proof fn lemma_code_injective(a: Opcode, b: Opcode)
        ensures
            a.spec_code() < OPCODE_COUNT,
            Opcode::spec_from_code(a.spec_code()) == Some(a),
            a.spec_code() == b.spec_code() ==> a == b,
    {
    }
}

} // verus!
