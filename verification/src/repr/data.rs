//! Data directives and the bytes that they emit.
//!
//! A data line is a directive and its values: `.byte`, `.word` and `.long`
//! take one numeral, `.array` any number of byte numerals, and `.asciiz` a
//! text between backticks, to which a zero byte is added.

use vstd::prelude::*;
use vstd::string::StrSliceExecFns;
use vstd::utf8::encode_utf8;
use crate::error::AsmError;
use crate::number::{bounded_value, convert_imm_str_to_u16, convert_imm_str_to_u32, convert_imm_str_to_u8};
use crate::text::{find_char, first_index, same_text, slice, split_tokens, token_at, token_or_empty, tokens, trim, trim_text};

verus! {

/// The bytes that a data line puts into the image.
#[derive(Debug, Clone, PartialEq, Eq)]
pub struct Data {
    pub bytes: Vec<u8>,
}

impl View for Data {
    type V = Seq<u8>;

    open spec fn view(&self) -> Seq<u8> {
        self.bytes@
    }
}

/// The five data directives.
#[derive(Debug, Clone, Copy, PartialEq, Eq, Structural)]
pub enum Directive {
    /// `.byte`: one byte.
    Byte,
    /// `.word`: sixteen bits, the high byte first.
    Word,
    /// `.long`: thirty-two bits, the highest byte first.
    Long,
    /// `.array`: a run of bytes.
    Array,
    /// `.asciiz`: a text and a closing zero byte.
    Asciiz,
}

/// The directive that a token names. The names are written in small
/// letters.
pub open spec fn directive_of(token: Seq<char>) -> Option<Directive> {
    if token == ".byte"@ {
        Some(Directive::Byte)
    } else if token == ".word"@ {
        Some(Directive::Word)
    } else if token == ".long"@ {
        Some(Directive::Long)
    } else if token == ".array"@ {
        Some(Directive::Array)
    } else if token == ".asciiz"@ {
        Some(Directive::Asciiz)
    } else {
        None
    }
}

/// The part of a line behind its label: what follows the first colon, or
/// the whole line where there is no colon.
pub open spec fn after_label(line: Seq<char>) -> Seq<char> {
    let colon = first_index(line, ':');
    if colon < line.len() {
        line.skip(colon + 1)
    } else {
        line
    }
}

/// The two bytes of a 16-bit value, the high byte first.
pub open spec fn word_bytes(v: nat) -> Seq<u8> {
    seq![((v / 0x100) % 0x100) as u8, (v % 0x100) as u8]
}

/// The four bytes of a 32-bit value, the highest byte first.
pub open spec fn long_bytes(v: nat) -> Seq<u8> {
    seq![
        ((v / 0x1000000) % 0x100) as u8,
        ((v / 0x10000) % 0x100) as u8,
        ((v / 0x100) % 0x100) as u8,
        (v % 0x100) as u8,
    ]
}

/// The text of an `.asciiz` line: what stands between the first backtick
/// and the last character of the line, whitespace around the line not
/// counted. There is none where no backtick stands before the last
/// character.
pub open spec fn asciiz_text(text: Seq<char>) -> Option<Seq<char>> {
    let t = trim(text);
    let open = first_index(t, '`');
    if open + 1 < t.len() {
        Some(t.subrange(open + 1, t.len() - 1))
    } else {
        None
    }
}

/// Whether every value of an `.array` line is the numeral of a byte.
pub open spec fn array_values_fit(text: Seq<char>) -> bool {
    forall|k: int|
        1 <= k < tokens(text).len() ==> bounded_value(#[trigger] tokens(text)[k], u8::MAX as nat)
            is Some
}

/// The bytes of an `.array` line, one for each token behind the directive.
pub open spec fn array_bytes(text: Seq<char>) -> Seq<u8> {
    Seq::new(
        (tokens(text).len() - 1) as nat,
        |k: int| bounded_value(tokens(text)[k + 1], u8::MAX as nat)->0 as u8,
    )
}

/// The bytes that a directive, written without a label, emits.
pub open spec fn spec_directive(text: Seq<char>) -> Result<Seq<u8>, AsmError> {
    match directive_of(token_or_empty(text, 0)) {
        None => Err(AsmError::UnknownDirective),
        Some(Directive::Byte) => match bounded_value(token_or_empty(text, 1), u8::MAX as nat) {
            Some(v) => Ok(seq![v as u8]),
            None => Err(AsmError::ImmediateOutOfRange),
        },
        Some(Directive::Word) => match bounded_value(token_or_empty(text, 1), u16::MAX as nat) {
            Some(v) => Ok(word_bytes(v)),
            None => Err(AsmError::ImmediateOutOfRange),
        },
        Some(Directive::Long) => match bounded_value(token_or_empty(text, 1), u32::MAX as nat) {
            Some(v) => Ok(long_bytes(v)),
            None => Err(AsmError::ImmediateOutOfRange),
        },
        Some(Directive::Array) => {
            if array_values_fit(text) {
                Ok(array_bytes(text))
            } else {
                Err(AsmError::ImmediateOutOfRange)
            }
        },
        Some(Directive::Asciiz) => match asciiz_text(text) {
            Some(t) => Ok(encode_utf8(t).push(0u8)),
            None => Err(AsmError::UnterminatedText),
        },
    }
}

/// The number of bytes that a directive, written without a label, takes in
/// the image. The values themselves are not read.
pub open spec fn directive_size(text: Seq<char>) -> Result<nat, AsmError> {
    match directive_of(token_or_empty(text, 0)) {
        None => Err(AsmError::UnknownDirective),
        Some(Directive::Byte) => Ok(1),
        Some(Directive::Word) => Ok(2),
        Some(Directive::Long) => Ok(4),
        Some(Directive::Array) => Ok((tokens(text).len() - 1) as nat),
        Some(Directive::Asciiz) => match asciiz_text(text) {
            Some(t) => Ok(encode_utf8(t).len() + 1),
            None => Err(AsmError::UnterminatedText),
        },
    }
}

/// Whether a result holds the bytes, or the error, that is expected of it.
pub open spec fn data_is(r: Result<Data, AsmError>, expected: Result<Seq<u8>, AsmError>) -> bool {
    match expected {
        Ok(bytes) => r is Ok && r->Ok_0@ == bytes,
        Err(e) => r == Err::<Data, AsmError>(e),
    }
}

/// A directive that emits bytes takes as many bytes as it emits.
pub proof fn lemma_size_of_emitted(text: Seq<char>)
    requires
        spec_directive(text) is Ok,
    ensures
        directive_size(text) == Ok::<nat, AsmError>(spec_directive(text)->Ok_0.len()),
{
}

/// The directive that a token names.
pub fn directive_kind(token: &str) -> (r: Option<Directive>)
    ensures
        r == directive_of(token@),
{
    if same_text(token, ".byte") {
        Some(Directive::Byte)
    } else if same_text(token, ".word") {
        Some(Directive::Word)
    } else if same_text(token, ".long") {
        Some(Directive::Long)
    } else if same_text(token, ".array") {
        Some(Directive::Array)
    } else if same_text(token, ".asciiz") {
        Some(Directive::Asciiz)
    } else {
        None
    }
}

/// The part of a line behind its label.
pub fn strip_label<'a>(line: &'a str) -> (r: &'a str)
    ensures
        r@ == after_label(line@),
{
    let colon = find_char(line, ':');
    let len = line.unicode_len();
    if colon < len {
        slice(line, colon + 1, len)
    } else {
        line
    }
}

/// The text of an `.asciiz` line, if a backtick stands before the line's
/// last character.
pub fn asciiz_text_of<'a>(text: &'a str) -> (r: Option<&'a str>)
    ensures
        match asciiz_text(text@) {
            Some(t) => r is Some && r->0@ == t,
            None => r is None,
        },
{
    let t = trim_text(text);
    let open = find_char(t, '`');
    let len = t.unicode_len();
    if open < len && open + 1 < len {
        Some(slice(t, open + 1, len - 1))
    } else {
        None
    }
}

impl Data {
    /// The bytes of a data line: the directive behind the line's label.
    pub open spec fn spec_parse(line: Seq<char>) -> Result<Seq<u8>, AsmError> {
        spec_directive(after_label(line))
    }

    /// Takes a data line, with or without a label before it, and converts it
    /// into the bytes of a `Data`.
    pub fn parse(line: &str) -> (r: Result<Data, AsmError>)
        ensures
            data_is(r, Data::spec_parse(line@)),
    {
        Data::from_directive(strip_label(line))
    }

    /// Takes a directive and its values, with no label before it, and
    /// converts it into the bytes of a `Data`.
    pub fn from_directive(text: &str) -> (r: Result<Data, AsmError>)
        ensures
            data_is(r, spec_directive(text@)),
    {
        let toks = split_tokens(text);
        let kind = match directive_kind(token_at(&toks, 0)) {
            Some(kind) => kind,
            None => {
                return Err(AsmError::UnknownDirective);
            },
        };
        match kind {
            Directive::Byte => {
                match convert_imm_str_to_u8(token_at(&toks, 1)) {
                    Ok(v) => {
                        let mut bytes: Vec<u8> = Vec::new();
                        bytes.push(v);
                        assert(bytes@ == seq![v]);
                        Ok(Data { bytes })
                    },
                    Err(e) => Err(e),
                }
            },
            Directive::Word => {
                match convert_imm_str_to_u16(token_at(&toks, 1)) {
                    Ok(v) => {
                        let mut bytes: Vec<u8> = Vec::new();
                        bytes.push((v / 0x100) as u8);
                        bytes.push((v % 0x100) as u8);
                        assert(bytes@ == word_bytes(v as nat));
                        Ok(Data { bytes })
                    },
                    Err(e) => Err(e),
                }
            },
            Directive::Long => {
                match convert_imm_str_to_u32(token_at(&toks, 1)) {
                    Ok(v) => {
                        let mut bytes: Vec<u8> = Vec::new();
                        bytes.push((v / 0x1000000) as u8);
                        bytes.push(((v / 0x10000) % 0x100) as u8);
                        bytes.push(((v / 0x100) % 0x100) as u8);
                        bytes.push((v % 0x100) as u8);
                        assert(bytes@ == long_bytes(v as nat));
                        Ok(Data { bytes })
                    },
                    Err(e) => Err(e),
                }
            },
            Directive::Array => {
                let mut bytes: Vec<u8> = Vec::new();
                let mut k: usize = 1;
                proof {
                    reveal_strlit(".array");
                }
                while k < toks.len()
                    invariant
                        1 <= k <= toks.len(),
                        directive_of(token_or_empty(text@, 0)) == Some(Directive::Array),
                        toks@.len() == tokens(text@).len(),
                        forall|j: int|
                            0 <= j < toks@.len() ==> (#[trigger] toks@[j])@ == tokens(text@)[j],
                        bytes@.len() == k - 1,
                        forall|j: int|
                            1 <= j < k && j < tokens(text@).len() ==> bounded_value(
                                #[trigger] tokens(text@)[j],
                                u8::MAX as nat,
                            ) is Some,
                        forall|j: int|
                            0 <= j < bytes@.len() ==> #[trigger] bytes@[j] == bounded_value(
                                tokens(text@)[j + 1],
                                u8::MAX as nat,
                            )->0 as u8,
                    decreases toks.len() - k,
                {
                    match convert_imm_str_to_u8(token_at(&toks, k)) {
                        Ok(v) => {
                            bytes.push(v);
                        },
                        Err(e) => {
                            return Err(e);
                        },
                    }
                    k = k + 1;
                }
                assert(bytes@ =~= array_bytes(text@));
                Ok(Data { bytes })
            },
            Directive::Asciiz => {
                match asciiz_text_of(text) {
                    Some(t) => {
                        let mut bytes = t.as_bytes_vec();
                        bytes.push(0x00);
                        Ok(Data { bytes })
                    },
                    None => Err(AsmError::UnterminatedText),
                }
            },
        }
    }
}

} // verus!
