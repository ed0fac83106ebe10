//! The lexical layer: characters, whitespace, tokens and case.
//!
//! Source lines are read as sequences of characters. Everything here is
//! stated over `Seq<char>`, the view of a `&str`.

use vstd::prelude::*;
use vstd::string::StrSliceExecFns;

verus! {

/// The characters with the Unicode property White_Space.
pub open spec fn is_whitespace(c: char) -> bool {
    ||| ('\u{9}' <= c && c <= '\u{d}')
    ||| c == ' '
    ||| c == '\u{85}'
    ||| c == '\u{a0}'
    ||| c == '\u{1680}'
    ||| ('\u{2000}' <= c && c <= '\u{200a}')
    ||| c == '\u{2028}'
    ||| c == '\u{2029}'
    ||| c == '\u{202f}'
    ||| c == '\u{205f}'
    ||| c == '\u{3000}'
}

/// An ASCII capital letter becomes its small letter; every other character
/// stays as it is.
pub open spec fn lower(c: char) -> char {
    if 'A' <= c && c <= 'Z' {
        ((c as u8) + 32) as char
    } else {
        c
    }
}

/// The text with every ASCII capital letter made small.
pub open spec fn lowercase(s: Seq<char>) -> Seq<char> {
    s.map_values(|c: char| lower(c))
}

/// The index of the first `c` in `s` at or after `i`, or the length of `s`
/// if there is none.
pub open spec fn first_index_from(s: Seq<char>, c: char, i: int) -> int
    decreases s.len() - i,
{
    if i < 0 || i >= s.len() {
        s.len() as int
    } else if s[i] == c {
        i
    } else {
        first_index_from(s, c, i + 1)
    }
}

/// The index of the first `c` in `s`, or the length of `s` if `c` does not
/// occur.
pub open spec fn first_index(s: Seq<char>, c: char) -> int {
    first_index_from(s, c, 0)
}

/// The index at which the leading whitespace of `s` ends, searched from `i`.
pub open spec fn trim_lo(s: Seq<char>, i: int) -> int
    decreases s.len() - i,
{
    if 0 <= i < s.len() && is_whitespace(s[i]) {
        trim_lo(s, i + 1)
    } else {
        i
    }
}

/// The index at which the trailing whitespace of `s` begins, searched
/// downwards from `j` and not below `lo`.
pub open spec fn trim_hi(s: Seq<char>, lo: int, j: int) -> int
    decreases j,
{
    if 0 <= lo < j <= s.len() && is_whitespace(s[j - 1]) {
        trim_hi(s, lo, j - 1)
    } else {
        j
    }
}

/// The text without its leading and trailing whitespace.
pub open spec fn trim(s: Seq<char>) -> Seq<char> {
    let lo = trim_lo(s, 0);
    s.subrange(lo, trim_hi(s, lo, s.len() as int))
}

/// The index just past the token that starts at `i`: the first whitespace
/// at or after `i`, or the length of `s`.
pub open spec fn token_end(s: Seq<char>, i: int) -> int
    decreases s.len() - i,
{
    if 0 <= i < s.len() && !is_whitespace(s[i]) {
        token_end(s, i + 1)
    } else {
        i
    }
}

/// The tokens of `s` that start at or after `i`.
pub open spec fn tokens_from(s: Seq<char>, i: int) -> Seq<Seq<char>>
    decreases s.len() - i,
{
    if i < 0 || i >= s.len() {
        Seq::empty()
    } else if is_whitespace(s[i]) {
        tokens_from(s, i + 1)
    } else {
        proof {
            lemma_token_end(s, i);
        }
        seq![s.subrange(i, token_end(s, i))] + tokens_from(s, token_end(s, i))
    }
}

/// The maximal runs of characters of `s` that hold no whitespace, in order.
pub open spec fn tokens(s: Seq<char>) -> Seq<Seq<char>> {
    tokens_from(s, 0)
}

/// The `k`-th token of `s`, or the empty text where `s` has fewer tokens.
pub open spec fn token_or_empty(s: Seq<char>, k: int) -> Seq<char> {
    if 0 <= k < tokens(s).len() {
        tokens(s)[k]
    } else {
        Seq::empty()
    }
}

/// The text without the commas at its end.
pub open spec fn strip_commas(s: Seq<char>) -> Seq<char>
    decreases s.len(),
{
    if s.len() > 0 && s.last() == ',' {
        strip_commas(s.drop_last())
    } else {
        s
    }
}

/// A token ends where its first whitespace or the text's end is, and holds
/// no whitespace.
pub proof fn lemma_token_end(s: Seq<char>, i: int)
    requires
        0 <= i <= s.len(),
    ensures
        i <= token_end(s, i) <= s.len(),
        i < s.len() && !is_whitespace(s[i]) ==> i < token_end(s, i),
        token_end(s, i) < s.len() ==> is_whitespace(s[token_end(s, i)]),
        forall|k: int| i <= k < token_end(s, i) ==> !is_whitespace(#[trigger] s[k]),
    decreases s.len() - i,
{
    if i < s.len() && !is_whitespace(s[i]) {
        lemma_token_end(s, i + 1);
    }
}

/// Whether `c` is whitespace.
pub fn char_is_whitespace(c: char) -> (r: bool)
    ensures
        r == is_whitespace(c),
{
    ('\u{9}' <= c && c <= '\u{d}') || c == ' ' || c == '\u{85}' || c == '\u{a0}' || c
        == '\u{1680}' || ('\u{2000}' <= c && c <= '\u{200a}') || c == '\u{2028}' || c
        == '\u{2029}' || c == '\u{202f}' || c == '\u{205f}' || c == '\u{3000}'
}

/// The small letter of an ASCII capital; any other character unchanged.
pub fn to_lower(c: char) -> (r: char)
    ensures
        r == lower(c),
{
    if 'A' <= c && c <= 'Z' {
        ((c as u8) + 32) as char
    } else {
        c
    }
}

/// The characters of `s`, in order.
pub fn chars_of(s: &str) -> (v: Vec<char>)
    ensures
        v@ == s@,
{
    let mut v: Vec<char> = Vec::new();
    for c in it: s.chars()
        invariant
            v@ == it.seq().take(it.index() as int),
    {
        v.push(c);
    }
    v
}

/// Whether two texts are the same, character for character.
pub fn same_text(a: &str, b: &str) -> (r: bool)
    ensures
        r == (a@ == b@),
{
    let x = chars_of(a);
    let y = chars_of(b);
    if x.len() != y.len() {
        return false;
    }
    let mut i: usize = 0;
    while i < x.len()
        invariant
            i <= x.len(),
            x.len() == y.len(),
            x@ == a@,
            y@ == b@,
            forall|k: int| 0 <= k < i ==> x@[k] == y@[k],
        decreases x.len() - i,
    {
        if x[i] != y[i] {
            return false;
        }
        i = i + 1;
    }
    assert(x@ =~= y@);
    true
}

/// Whether `text`, with its ASCII capitals made small, reads `name`.
pub fn matches_name(text: &str, name: &str) -> (r: bool)
    ensures
        r == (lowercase(text@) == name@),
{
    let x = chars_of(text);
    let y = chars_of(name);
    if x.len() != y.len() {
        return false;
    }
    let mut i: usize = 0;
    while i < x.len()
        invariant
            i <= x.len(),
            x.len() == y.len(),
            x@ == text@,
            y@ == name@,
            forall|k: int| 0 <= k < i ==> lower(x@[k]) == y@[k],
        decreases x.len() - i,
    {
        if to_lower(x[i]) != y[i] {
            assert(lowercase(x@)[i as int] != y@[i as int]);
            return false;
        }
        i = i + 1;
    }
    assert(lowercase(x@) =~= y@);
    true
}

/// The index of the first `c` in `s`, or the length of `s` in characters.
pub fn find_char(s: &str, c: char) -> (r: usize)
    ensures
        r == first_index(s@, c),
        r <= s@.len(),
{
    let v = chars_of(s);
    let mut i: usize = 0;
    while i < v.len() && v[i] != c
        invariant
            i <= v.len(),
            first_index_from(v@, c, i as int) == first_index(v@, c),
        decreases v.len() - i,
    {
        i = i + 1;
    }
    i
}

/// The part of `s` from character `from` up to character `to`.
pub fn slice<'a>(s: &'a str, from: usize, to: usize) -> (r: &'a str)
    requires
        from <= to <= s@.len(),
    ensures
        r@ == s@.subrange(from as int, to as int),
{
    s.substring_char(from, to)
}

/// The text without its leading and trailing whitespace.
pub fn trim_text<'a>(s: &'a str) -> (r: &'a str)
    ensures
        r@ == trim(s@),
{
    let v = chars_of(s);
    let mut lo: usize = 0;
    while lo < v.len() && char_is_whitespace(v[lo])
        invariant
            lo <= v.len(),
            trim_lo(v@, lo as int) == trim_lo(v@, 0),
        decreases v.len() - lo,
    {
        lo = lo + 1;
    }
    let mut hi: usize = v.len();
    while lo < hi && char_is_whitespace(v[hi - 1])
        invariant
            lo <= hi <= v.len(),
            trim_hi(v@, lo as int, hi as int) == trim_hi(v@, lo as int, v@.len() as int),
        decreases hi,
    {
        hi = hi - 1;
    }
    s.substring_char(lo, hi)
}

/// The tokens of `s`, in order.
pub fn split_tokens<'a>(s: &'a str) -> (r: Vec<&'a str>)
    ensures
        r@.len() == tokens(s@).len(),
        forall|k: int| 0 <= k < r@.len() ==> (#[trigger] r@[k])@ == tokens(s@)[k],
{
    let v = chars_of(s);
    let mut out: Vec<&'a str> = Vec::new();
    let mut i: usize = 0;
    while i < v.len()
        invariant
            i <= v.len(),
            v@ == s@,
            tokens(v@).len() == out@.len() + tokens_from(v@, i as int).len(),
            forall|k: int| 0 <= k < out@.len() ==> (#[trigger] out@[k])@ == tokens(v@)[k],
            forall|k: int|
                0 <= k < tokens_from(v@, i as int).len() ==> tokens(v@)[out@.len() + k]
                    == #[trigger] tokens_from(v@, i as int)[k],
        decreases v.len() - i,
    {
        if char_is_whitespace(v[i]) {
            i = i + 1;
        } else {
            let start = i;
            while i < v.len() && !char_is_whitespace(v[i])
                invariant
                    start <= i <= v.len(),
                    token_end(v@, i as int) == token_end(v@, start as int),
                decreases v.len() - i,
            {
                i = i + 1;
            }
            proof {
                let rest = tokens_from(v@, start as int);
                assert(rest[0] == v@.subrange(start as int, i as int));
                assert forall|k: int| 0 <= k < tokens_from(v@, i as int).len() implies tokens(
                    v@,
                )[out@.len() + 1 + k] == #[trigger] tokens_from(v@, i as int)[k] by {
                    assert(rest[k + 1] == tokens_from(v@, i as int)[k]);
                }
            }
            out.push(s.substring_char(start, i));
        }
    }
    out
}

/// The `k`-th of the tokens, or the empty text where there are fewer.
pub fn token_at<'a>(toks: &Vec<&'a str>, k: usize) -> (r: &'a str)
    ensures
        r@ == (if k < toks@.len() {
            toks@[k as int]@
        } else {
            Seq::<char>::empty()
        }),
{
    if k < toks.len() {
        toks[k]
    } else {
        let empty: &'static str = "";
        proof {
            reveal_strlit("");
        }
        assert(empty@ =~= Seq::<char>::empty());
        empty
    }
}

/// The text without the commas at its end.
pub fn strip_trailing_commas<'a>(s: &'a str) -> (r: &'a str)
    ensures
        r@ == strip_commas(s@),
{
    let v = chars_of(s);
    let mut end: usize = v.len();
    assert(v@.take(v.len() as int) == v@);
    while end > 0 && v[end - 1] == ','
        invariant
            end <= v.len(),
            strip_commas(v@.take(end as int)) == strip_commas(v@),
        decreases end,
    {
        assert(v@.take(end as int).drop_last() == v@.take(end as int - 1));
        end = end - 1;
    }
    s.substring_char(0, end)
}

} // verus!
