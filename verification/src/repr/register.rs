//! The registers of the machine.

use vstd::prelude::*;
use crate::error::AsmError;
use crate::text::{lowercase, matches_name};

verus! {

/// A register as an operand names it.
///
/// The four general registers come in three widths each: the full 16 bits
/// (`Ax`), the high byte (`Ah`) and the low byte (`Al`). The four pointer
/// registers are always full width. `St` and `Pc` exist in the machine but
/// have no operand encoding; `Null` stands for an absent operand and is
/// written `none` in source text.
#[derive(Debug, Clone, Copy, PartialEq, Eq, Structural)]
pub enum Register {
    Null,
    Ax,
    Al,
    Ah,
    Bx,
    Bl,
    Bh,
    Cx,
    Cl,
    Ch,
    Dx,
    Dl,
    Dh,
    Rp,
    Fp,
    Bp,
    Sp,
    St,
    Pc,
}

impl Register {
    /// The 3-bit code of the register's family, shared by a general register
    /// and its two halves. The absent register encodes as 0; the status
    /// flags and the program counter have no code.
    pub open spec fn spec_family_code(self) -> Option<u16> {
        match self {
            Register::Null => Some(0u16),
            Register::Ax | Register::Al | Register::Ah => Some(0u16),
            Register::Bx | Register::Bl | Register::Bh => Some(1u16),
            Register::Cx | Register::Cl | Register::Ch => Some(2u16),
            Register::Dx | Register::Dl | Register::Dh => Some(3u16),
            Register::Rp => Some(4u16),
            Register::Fp => Some(5u16),
            Register::Bp => Some(6u16),
            Register::Sp => Some(7u16),
            Register::St | Register::Pc => Option::None,
        }
    }

    /// The register's name as source text writes it, in lower case.
    pub open spec fn spec_name(self) -> Seq<char> {
        match self {
            Register::Null => "none"@,
            Register::Ax => "ax"@,
            Register::Al => "al"@,
            Register::Ah => "ah"@,
            Register::Bx => "bx"@,
            Register::Bl => "bl"@,
            Register::Bh => "bh"@,
            Register::Cx => "cx"@,
            Register::Cl => "cl"@,
            Register::Ch => "ch"@,
            Register::Dx => "dx"@,
            Register::Dl => "dl"@,
            Register::Dh => "dh"@,
            Register::Rp => "rp"@,
            Register::Fp => "fp"@,
            Register::Bp => "bp"@,
            Register::Sp => "sp"@,
            Register::St => "st"@,
            Register::Pc => "pc"@,
        }
    }

    /// The register that a name stands for, whatever the case of its
    /// letters. The status flags cannot be named in source text.
    pub open spec fn spec_parse(name: Seq<char>) -> Option<Register> {
        let l = lowercase(name);
        if l == "none"@ {
            Some(Register::Null)
        } else if l == "ax"@ {
            Some(Register::Ax)
        } else if l == "ah"@ {
            Some(Register::Ah)
        } else if l == "al"@ {
            Some(Register::Al)
        } else if l == "bx"@ {
            Some(Register::Bx)
        } else if l == "bh"@ {
            Some(Register::Bh)
        } else if l == "bl"@ {
            Some(Register::Bl)
        } else if l == "cx"@ {
            Some(Register::Cx)
        } else if l == "ch"@ {
            Some(Register::Ch)
        } else if l == "cl"@ {
            Some(Register::Cl)
        } else if l == "dx"@ {
            Some(Register::Dx)
        } else if l == "dh"@ {
            Some(Register::Dh)
        } else if l == "dl"@ {
            Some(Register::Dl)
        } else if l == "rp"@ {
            Some(Register::Rp)
        } else if l == "fp"@ {
            Some(Register::Fp)
        } else if l == "bp"@ {
            Some(Register::Bp)
        } else if l == "sp"@ {
            Some(Register::Sp)
        } else if l == "pc"@ {
            Some(Register::Pc)
        } else {
            Option::None
        }
    }

    /// The family code that belongs to a register name in lower case: the
    /// letter of a general register, or the place of a pointer register.
    /// The program counter's name has none.
    pub open spec fn code_of_name(name: Seq<char>) -> Option<u16> {
        if name == "none"@ {
            Some(0u16)
        } else if name == "ax"@ || name == "ah"@ || name == "al"@ {
            Some(0u16)
        } else if name == "bx"@ || name == "bh"@ || name == "bl"@ {
            Some(1u16)
        } else if name == "cx"@ || name == "ch"@ || name == "cl"@ {
            Some(2u16)
        } else if name == "dx"@ || name == "dh"@ || name == "dl"@ {
            Some(3u16)
        } else if name == "rp"@ {
            Some(4u16)
        } else if name == "fp"@ {
            Some(5u16)
        } else if name == "bp"@ {
            Some(6u16)
        } else if name == "sp"@ {
            Some(7u16)
        } else {
            Option::None
        }
    }

    /// Whether the register is full width: a general register as a whole, or
    /// a pointer register.
    pub open spec fn is_full_width(self) -> bool {
        matches!(
            self,
            Register::Ax | Register::Bx | Register::Cx | Register::Dx | Register::Rp
                | Register::Fp | Register::Bp | Register::Sp
        )
    }

    /// Whether the register is the high byte of a general register.
    pub open spec fn is_high_half(self) -> bool {
        matches!(self, Register::Ah | Register::Bh | Register::Ch | Register::Dh)
    }

    /// Whether the register is the low byte of a general register.
    pub open spec fn is_low_half(self) -> bool {
        matches!(self, Register::Al | Register::Bl | Register::Cl | Register::Dl)
    }

    /// Full-width registers and high halves set an instruction's high bit.
    pub open spec fn spec_is_high_reg(&self) -> bool {
        self.is_full_width() || self.is_high_half()
    }

    /// Full-width registers and low halves set an instruction's low bit.
    pub open spec fn spec_is_low_reg(&self) -> bool {
        self.is_full_width() || self.is_low_half()
    }

    /// The register's family code, or `InvalidRegisterOperand` for the two
    /// registers that cannot be encoded.
    pub fn family_code(&self) -> (r: Result<u16, AsmError>)
        ensures
            r == match self.spec_family_code() {
                Some(code) => Ok::<u16, AsmError>(code),
                Option::None => Err::<u16, AsmError>(AsmError::InvalidRegisterOperand),
            },
            r matches Ok(code) ==> code < 8,
    {
        match self {
            Register::Null => Ok(0),
            Register::Ax | Register::Al | Register::Ah => Ok(0),
            Register::Bx | Register::Bl | Register::Bh => Ok(1),
            Register::Cx | Register::Cl | Register::Ch => Ok(2),
            Register::Dx | Register::Dl | Register::Dh => Ok(3),
            Register::Rp => Ok(4),
            Register::Fp => Ok(5),
            Register::Bp => Ok(6),
            Register::Sp => Ok(7),
            Register::St | Register::Pc => Err(AsmError::InvalidRegisterOperand),
        }
    }

    /// Returns true if the register requires the high bit of the
    /// instruction to be set.
    #[verifier::when_used_as_spec(spec_is_high_reg)]
    pub fn is_high_reg(&self) -> (r: bool)
        ensures
            r == self.spec_is_high_reg(),
    {
        match self {
            Register::Ax | Register::Ah | Register::Bx | Register::Bh | Register::Cx
            | Register::Ch | Register::Dx | Register::Dh | Register::Bp | Register::Fp
            | Register::Rp | Register::Sp => true,
            _ => false,
        }
    }

    /// Returns true if the register requires the low bit of the instruction
    /// to be set.
    #[verifier::when_used_as_spec(spec_is_low_reg)]
    pub fn is_low_reg(&self) -> (r: bool)
        ensures
            r == self.spec_is_low_reg(),
    {
        match self {
            Register::Ax | Register::Al | Register::Bx | Register::Bl | Register::Cx
            | Register::Cl | Register::Dx | Register::Dl | Register::Bp | Register::Fp
            | Register::Rp | Register::Sp => true,
            _ => false,
        }
    }

    /// The register's name as source text writes it, in lower case.
    pub fn name(&self) -> (r: &'static str)
        ensures
            r@ == self.spec_name(),
    {
        match self {
            Register::Null => "none",
            Register::Ax => "ax",
            Register::Al => "al",
            Register::Ah => "ah",
            Register::Bx => "bx",
            Register::Bl => "bl",
            Register::Bh => "bh",
            Register::Cx => "cx",
            Register::Cl => "cl",
            Register::Ch => "ch",
            Register::Dx => "dx",
            Register::Dl => "dl",
            Register::Dh => "dh",
            Register::Rp => "rp",
            Register::Fp => "fp",
            Register::Bp => "bp",
            Register::Sp => "sp",
            Register::St => "st",
            Register::Pc => "pc",
        }
    }

    /// Reads a register name, whatever the case of its letters. Any text
    /// that is not one of the eighteen names is an `UnknownRegister`.
    pub fn parse(name: &str) -> (r: Result<Register, AsmError>)
        ensures
            r == match Register::spec_parse(name@) {
                Some(reg) => Ok::<Register, AsmError>(reg),
                Option::None => Err::<Register, AsmError>(AsmError::UnknownRegister),
            },
    {
        if matches_name(name, "none") {
            Ok(Register::Null)
        } else if matches_name(name, "ax") {
            Ok(Register::Ax)
        } else if matches_name(name, "ah") {
            Ok(Register::Ah)
        } else if matches_name(name, "al") {
            Ok(Register::Al)
        } else if matches_name(name, "bx") {
            Ok(Register::Bx)
        } else if matches_name(name, "bh") {
            Ok(Register::Bh)
        } else if matches_name(name, "bl") {
            Ok(Register::Bl)
        } else if matches_name(name, "cx") {
            Ok(Register::Cx)
        } else if matches_name(name, "ch") {
            Ok(Register::Ch)
        } else if matches_name(name, "cl") {
            Ok(Register::Cl)
        } else if matches_name(name, "dx") {
            Ok(Register::Dx)
        } else if matches_name(name, "dh") {
            Ok(Register::Dh)
        } else if matches_name(name, "dl") {
            Ok(Register::Dl)
        } else if matches_name(name, "rp") {
            Ok(Register::Rp)
        } else if matches_name(name, "fp") {
            Ok(Register::Fp)
        } else if matches_name(name, "bp") {
            Ok(Register::Bp)
        } else if matches_name(name, "sp") {
            Ok(Register::Sp)
        } else if matches_name(name, "pc") {
            Ok(Register::Pc)
        } else {
            Err(AsmError::UnknownRegister)
        }
    }

    /// The names that parse, in any mix of capital and small letters, are
    /// exactly the names of the registers other than the status flags. The
    /// register found is the one that carries the name, and its family code
    /// is the code that belongs to the name.
    pub proof fn lemma_parse_family_code(name: Seq<char>)
        ensures
            match Register::spec_parse(name) {
                Some(reg) => reg != Register::St && reg.spec_name() == lowercase(name)
                    && reg.spec_family_code() == Register::code_of_name(lowercase(name)),
                Option::None => forall|reg: Register|
                    reg != Register::St ==> #[trigger] reg.spec_name() != lowercase(name),
            },
    {
        Register::lemma_names_differ();
    }

    /// No two registers have the same name.
    pub proof fn lemma_names_differ()
        ensures
            forall|a: Register, b: Register|
                #[trigger] a.spec_name() == #[trigger] b.spec_name() ==> a == b,
    {
        reveal_strlit("none");
        reveal_strlit("ax");
        reveal_strlit("al");
        reveal_strlit("ah");
        reveal_strlit("bx");
        reveal_strlit("bl");
        reveal_strlit("bh");
        reveal_strlit("cx");
        reveal_strlit("cl");
        reveal_strlit("ch");
        reveal_strlit("dx");
        reveal_strlit("dl");
        reveal_strlit("dh");
        reveal_strlit("rp");
        reveal_strlit("fp");
        reveal_strlit("bp");
        reveal_strlit("sp");
        reveal_strlit("st");
        reveal_strlit("pc");
        assert forall|a: Register, b: Register|
            #[trigger] a.spec_name() == #[trigger] b.spec_name() implies a == b by {
            let x = a.spec_name();
            let y = b.spec_name();
            assert(x.len() == y.len());
            assert(x[0] == y[0]);
            assert(x[1] == y[1]);
        }
    }
}

} // verus!
