//! Character-level helpers shared by the validators and parsers.

use unicode_segmentation::UnicodeSegmentation;
use vstd::prelude::*;

verus! {

/// The characters with the Unicode `White_Space` property
/// (PropList.txt), which is what `char::is_whitespace` and `str::trim` use.
pub open spec fn is_white_space(c: char) -> bool {
    ||| '\u{9}' <= c <= '\u{d}'
    ||| c == ' '
    ||| c == '\u{85}'
    ||| c == '\u{a0}'
    ||| c == '\u{1680}'
    ||| '\u{2000}' <= c <= '\u{200a}'
    ||| c == '\u{2028}'
    ||| c == '\u{2029}'
    ||| c == '\u{202f}'
    ||| c == '\u{205f}'
    ||| c == '\u{3000}'
}

/// A text that is empty once its surrounding white space is trimmed.
pub open spec fn is_blank(s: Seq<char>) -> bool {
    forall|i: int| 0 <= i < s.len() ==> is_white_space(#[trigger] s[i])
}

/// Whether `c` is a Unicode white-space character.
pub fn is_white_space_char(c: char) -> (b: bool)
    ensures
        b == is_white_space(c),
{
    ('\u{9}' <= c && c <= '\u{d}') || c == ' ' || c == '\u{85}' || c == '\u{a0}' || c == '\u{1680}'
        || ('\u{2000}' <= c && c <= '\u{200a}') || c == '\u{2028}' || c == '\u{2029}' || c
        == '\u{202f}' || c == '\u{205f}' || c == '\u{3000}'
}

/// The characters of `s`, in order.
pub fn chars_of(s: &str) -> (v: Vec<char>)
    ensures
        v@ == s@,
{
    broadcast use vstd::string::group_string_axioms;

    let mut v: Vec<char> = Vec::new();
    for c in it: s.chars()
        invariant
            it.seq() == s@,
            v@ == it.seq().take(it.index()),
    {
        v.push(c);
    }
    v
}

} // verus!

verus! {

/// `String::push` appends one character.
pub assume_specification[ String::push ](s: &mut String, ch: char)
    ensures
        final(s)@ == old(s)@.push(ch),
;

/// The decimal digit character for `d < 10`.
pub open spec fn digit_char(d: nat) -> char {
    (48 + d) as char
}

/// The decimal notation of `n`, without sign or leading zeros.
pub open spec fn decimal(n: nat) -> Seq<char>
    decreases n,
{
    if n < 10 {
        seq![digit_char(n)]
    } else {
        decimal(n / 10).push(digit_char(n % 10))
    }
}

/// Appends the decimal notation of `n` to `out`.
pub fn push_decimal(out: &mut String, n: u16)
    ensures
        final(out)@ == old(out)@ + decimal(n as nat),
    decreases n,
{
    if n >= 10 {
        push_decimal(out, n / 10);
    }
    let d: u8 = (n % 10) as u8;
    let c: char = (48u8 + d) as char;
    out.push(c);
    proof {
        assert(c == digit_char((n % 10) as nat));
    }
}

} // verus!

verus! {

/// Whether `s` holds nothing but white space (`s.trim().is_empty()`).
pub fn is_blank_str(s: &str) -> (b: bool)
    ensures
        b == is_blank(s@),
{
    let cs = chars_of(s);
    let mut i: usize = 0;
    while i < cs.len()
        invariant
            cs@ == s@,
            i <= cs.len(),
            forall|j: int| 0 <= j < i ==> is_white_space(#[trigger] s@[j]),
        decreases cs.len() - i,
    {
        if !is_white_space_char(cs[i]) {
            return false;
        }
        i = i + 1;
    }
    true
}

/// Some character of `s` belongs to `set`.
pub open spec fn has_char_in(s: Seq<char>, set: Seq<char>) -> bool {
    exists|i: int| 0 <= i < s.len() && set.contains(#[trigger] s[i])
}

/// Whether `c` is one of the characters of `set`.
pub fn set_contains(set: &Vec<char>, c: char) -> (b: bool)
    ensures
        b == set@.contains(c),
{
    let mut i: usize = 0;
    while i < set.len()
        invariant
            i <= set.len(),
            forall|j: int| 0 <= j < i ==> set@[j] != c,
        decreases set.len() - i,
    {
        if set[i] == c {
            return true;
        }
        i = i + 1;
    }
    false
}

/// Whether some character of `s` belongs to `set`.
pub fn has_char_in_str(s: &str, set: &Vec<char>) -> (b: bool)
    ensures
        b == has_char_in(s@, set@),
{
    let cs = chars_of(s);
    let mut i: usize = 0;
    while i < cs.len()
        invariant
            cs@ == s@,
            i <= cs.len(),
            forall|j: int| 0 <= j < i ==> !set@.contains(#[trigger] s@[j]),
        decreases cs.len() - i,
    {
        if set_contains(set, cs[i]) {
            assert(set@.contains(s@[i as int]));
            return true;
        }
        i = i + 1;
    }
    false
}

/// The number of extended grapheme clusters of a text, as Unicode
/// Standard Annex #29 segments it.
pub uninterp spec fn extended_grapheme_count(s: Seq<char>) -> usize;

/// Calls `UnicodeSegmentation::graphemes(s, true).count()` of the
/// `unicode-segmentation` crate. The contract claims only that the count is a
/// function of the characters of `s`; what the segmentation rules make of them
/// is not stated.
#[verifier::external_body]
pub(crate) fn grapheme_count(s: &str) -> (n: usize)
    ensures
        n == extended_grapheme_count(s@),
{
    s.graphemes(true).count()
}

} // verus!
