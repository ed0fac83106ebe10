//! Numerals: how a number is written in source text, and what it is worth.
//!
//! A numeral is decimal, or hexadecimal after `0x`, or binary after `0b`.
//! The digits themselves are read by `num_traits`.

use vstd::prelude::*;
use vstd::string::StringExecFns;
use std::num::ParseIntError;
use num_traits::Num;
use crate::error::AsmError;
use crate::text::{chars_of, slice};

verus! {

#[verifier::external_type_specification]
#[verifier::external_body]
pub struct ExParseIntError(ParseIntError);

/// What a character is worth as a digit: `0` to `9` are 0 to 9, and the
/// letters `a` to `z`, capital or small, are 10 to 35.
pub open spec fn digit_value(c: char) -> Option<nat> {
    if '0' <= c && c <= '9' {
        Some((c as nat - '0' as nat) as nat)
    } else if 'a' <= c && c <= 'z' {
        Some((c as nat - 'a' as nat + 10) as nat)
    } else if 'A' <= c && c <= 'Z' {
        Some((c as nat - 'A' as nat + 10) as nat)
    } else {
        None
    }
}

/// The number that a run of digits writes in the given radix. There is none
/// where the run is empty or holds a character that is not a digit below the
/// radix.
pub open spec fn digits_value(s: Seq<char>, radix: nat) -> Option<nat>
    decreases s.len(),
{
    if s.len() == 0 {
        None
    } else {
        match digit_value(s.last()) {
            Some(d) => {
                if d >= radix {
                    None
                } else if s.len() == 1 {
                    Some(d)
                } else {
                    match digits_value(s.drop_last(), radix) {
                        Some(v) => Some(v * radix + d),
                        None => None,
                    }
                }
            },
            None => None,
        }
    }
}

/// The number that a text writes in the given radix: a run of digits, which
/// a single `+` may precede.
pub open spec fn radix_value(s: Seq<char>, radix: nat) -> Option<nat> {
    if s.len() > 0 && s[0] == '+' {
        digits_value(s.skip(1), radix)
    } else {
        digits_value(s, radix)
    }
}

/// Whether the numeral starts with `0` and the given radix letter.
pub open spec fn has_prefix(s: Seq<char>, letter: char) -> bool {
    s.len() >= 2 && s[0] == '0' && s[1] == letter
}

/// The radix of a numeral: 16 after `0x`, 2 after `0b`, else 10.
pub open spec fn radix_of(s: Seq<char>) -> nat {
    if has_prefix(s, 'x') {
        16
    } else if has_prefix(s, 'b') {
        2
    } else {
        10
    }
}

/// The numeral without its radix prefix.
pub open spec fn digits_of(s: Seq<char>) -> Seq<char> {
    if has_prefix(s, 'x') || has_prefix(s, 'b') {
        s.skip(2)
    } else {
        s
    }
}

/// The number that a numeral writes, if it is well formed.
pub open spec fn immediate_value(s: Seq<char>) -> Option<nat> {
    radix_value(digits_of(s), radix_of(s))
}

/// The number that a numeral writes, if it is well formed and the number is
/// at most `max`.
pub open spec fn bounded_value(s: Seq<char>, max: nat) -> Option<nat> {
    match immediate_value(s) {
        Some(v) => if v <= max {
            Some(v)
        } else {
            None
        },
        None => None,
    }
}

/// The character that writes a digit below ten.
pub open spec fn digit_char(d: nat) -> char {
    (d + '0' as nat) as char
}

/// The decimal numeral of a number, without leading zeros.
pub open spec fn decimal(n: nat) -> Seq<char>
    decreases n,
{
    if n < 10 {
        seq![digit_char(n)]
    } else {
        decimal(n / 10).push(digit_char(n % 10))
    }
}

/// A decimal numeral is worth the number that it was written for.
pub proof fn lemma_decimal_value(n: nat)
    ensures
        immediate_value(decimal(n)) == Some(n),
        decimal(n).len() > 0,
        forall|i: int| 0 <= i < decimal(n).len() ==> '0' <= #[trigger] decimal(n)[i] <= '9',
    decreases n,
{
    let s = decimal(n);
    if n < 10 {
        assert(digits_value(s, 10) == Some(n));
    } else {
        lemma_decimal_value(n / 10);
        let front = decimal(n / 10);
        assert(s.drop_last() == front);
        assert(s.last() == digit_char(n % 10));
        assert(digits_of(front) == front);
        assert(radix_of(front) == 10);
        assert(front[0] != '+');
        assert(digits_value(front, 10) == Some(n / 10));
        assert(digits_value(s, 10) == Some((n / 10) * 10 + n % 10));
    }
    assert(s[0] != '+');
    assert(!has_prefix(s, 'x') && !has_prefix(s, 'b'));
}

/// `<u8 as num_traits::Num>::from_str_radix`, which hands the text to the
/// standard library's `u8::from_str_radix`. Assumed of it: it returns the
/// number that the text writes in the radix where the text is an optional
/// `+` and then one or more digits below the radix and the number fits in a
/// `u8`, and an error for every other text. It panics on a radix outside 2
/// to 36, which the precondition excludes.
#[verifier::external_body]
fn u8_from_str_radix(digits: &str, radix: u32) -> (r: Result<u8, ParseIntError>)
    requires
        2 <= radix <= 36,
    ensures
        match r {
            Ok(v) => radix_value(digits@, radix as nat) == Some(v as nat),
            Err(_) => !(radix_value(digits@, radix as nat) matches Some(v) && v <= u8::MAX),
        },
{
    <u8 as Num>::from_str_radix(digits, radix)
}

/// `<u16 as num_traits::Num>::from_str_radix`, which hands the text to the
/// standard library's `u16::from_str_radix`. Assumed of it: it returns the
/// number that the text writes in the radix where the text is an optional
/// `+` and then one or more digits below the radix and the number fits in a
/// `u16`, and an error for every other text. It panics on a radix outside 2
/// to 36, which the precondition excludes.
#[verifier::external_body]
fn u16_from_str_radix(digits: &str, radix: u32) -> (r: Result<u16, ParseIntError>)
    requires
        2 <= radix <= 36,
    ensures
        match r {
            Ok(v) => radix_value(digits@, radix as nat) == Some(v as nat),
            Err(_) => !(radix_value(digits@, radix as nat) matches Some(v) && v <= u16::MAX),
        },
{
    <u16 as Num>::from_str_radix(digits, radix)
}

/// `<u32 as num_traits::Num>::from_str_radix`, which hands the text to the
/// standard library's `u32::from_str_radix`. Assumed of it: it returns the
/// number that the text writes in the radix where the text is an optional
/// `+` and then one or more digits below the radix and the number fits in a
/// `u32`, and an error for every other text. It panics on a radix outside 2
/// to 36, which the precondition excludes.
#[verifier::external_body]
fn u32_from_str_radix(digits: &str, radix: u32) -> (r: Result<u32, ParseIntError>)
    requires
        2 <= radix <= 36,
    ensures
        match r {
            Ok(v) => radix_value(digits@, radix as nat) == Some(v as nat),
            Err(_) => !(radix_value(digits@, radix as nat) matches Some(v) && v <= u32::MAX),
        },
{
    <u32 as Num>::from_str_radix(digits, radix)
}

/// Splits a numeral into its digits and its radix.
fn split_radix<'a>(numeral: &'a str) -> (r: (&'a str, u32))
    ensures
        r.0@ == digits_of(numeral@),
        r.1 == radix_of(numeral@),
        2 <= r.1 <= 36,
{
    let chars = chars_of(numeral);
    if chars.len() >= 2 && chars[0] == '0' && chars[1] == 'x' {
        (slice(numeral, 2, chars.len()), 16)
    } else if chars.len() >= 2 && chars[0] == '0' && chars[1] == 'b' {
        (slice(numeral, 2, chars.len()), 2)
    } else {
        assert(numeral@.subrange(0, numeral@.len() as int) == numeral@);
        (slice(numeral, 0, chars.len()), 10)
    }
}

/// Takes a string representing a number in decimal, hex, or binary, removes
/// the "0x" or "0b" prefix if necessary, and returns the value as a `u8`.
/// A malformed numeral, or one above 255, is an `ImmediateOutOfRange`.
pub fn convert_imm_str_to_u8(numeral: &str) -> (r: Result<u8, AsmError>)
    ensures
        r == match bounded_value(numeral@, u8::MAX as nat) {
            Some(v) => Ok::<u8, AsmError>(v as u8),
            None => Err::<u8, AsmError>(AsmError::ImmediateOutOfRange),
        },
{
    let (digits, radix) = split_radix(numeral);
    match u8_from_str_radix(digits, radix) {
        Ok(v) => Ok(v),
        Err(_) => Err(AsmError::ImmediateOutOfRange),
    }
}

/// Takes a string representing a number in decimal, hex, or binary, removes
/// the "0x" or "0b" prefix if necessary, and returns the value as a `u16`.
/// A malformed numeral, or one above 65535, is an `ImmediateOutOfRange`.
pub fn convert_imm_str_to_u16(numeral: &str) -> (r: Result<u16, AsmError>)
    ensures
        r == match bounded_value(numeral@, u16::MAX as nat) {
            Some(v) => Ok::<u16, AsmError>(v as u16),
            None => Err::<u16, AsmError>(AsmError::ImmediateOutOfRange),
        },
{
    let (digits, radix) = split_radix(numeral);
    match u16_from_str_radix(digits, radix) {
        Ok(v) => Ok(v),
        Err(_) => Err(AsmError::ImmediateOutOfRange),
    }
}

/// Takes a string representing a number in decimal, hex, or binary, removes
/// the "0x" or "0b" prefix if necessary, and returns the value as a `u32`.
/// A malformed numeral, or one above 4294967295, is an
/// `ImmediateOutOfRange`.
pub fn convert_imm_str_to_u32(numeral: &str) -> (r: Result<u32, AsmError>)
    ensures
        r == match bounded_value(numeral@, u32::MAX as nat) {
            Some(v) => Ok::<u32, AsmError>(v as u32),
            None => Err::<u32, AsmError>(AsmError::ImmediateOutOfRange),
        },
{
    let (digits, radix) = split_radix(numeral);
    match u32_from_str_radix(digits, radix) {
        Ok(v) => Ok(v),
        Err(_) => Err(AsmError::ImmediateOutOfRange),
    }
}

fn digit_text(d: usize) -> (r: &'static str)
    requires
        d < 10,
    ensures
        r@ == seq![digit_char(d as nat)],
{
    proof {
        reveal_strlit("0");
        reveal_strlit("1");
        reveal_strlit("2");
        reveal_strlit("3");
        reveal_strlit("4");
        reveal_strlit("5");
        reveal_strlit("6");
        reveal_strlit("7");
        reveal_strlit("8");
        reveal_strlit("9");
    }
    let r = match d {
        0 => "0",
        1 => "1",
        2 => "2",
        3 => "3",
        4 => "4",
        5 => "5",
        6 => "6",
        7 => "7",
        8 => "8",
        _ => "9",
    };
    assert(r@ =~= seq![digit_char(d as nat)]);
    r
}

/// Writes a number as a decimal numeral.
pub fn decimal_string(n: usize) -> (r: String)
    ensures
        r@ == decimal(n as nat),
    decreases n,
{
    let digit = digit_text(n % 10);
    if n < 10 {
        digit.to_owned()
    } else {
        let mut s = decimal_string(n / 10);
        s.append(digit);
        assert(s@ =~= decimal(n as nat));
        s
    }
}

} // verus!
