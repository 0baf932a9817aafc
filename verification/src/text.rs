//! Text helpers: case mapping, comparison and decimal formatting.

use vstd::prelude::*;
use vstd::utf8::encode_utf8;

verus! {

/// The Unicode uppercase mapping of a string, as `str::to_uppercase` computes it
/// (stated by `to_uppercase` on text of ASCII and private-use characters).
pub uninterp spec fn unicode_uppercase(s: Seq<char>) -> Seq<char>;

/// The Unicode lowercase mapping of a string, as `str::to_lowercase` computes it
/// (stated by `to_lowercase` on text of ASCII and private-use characters).
pub uninterp spec fn unicode_lowercase(s: Seq<char>) -> Seq<char>;

/// ASCII uppercase of one character: `a`..`z` become `A`..`Z`, the rest stay.
pub open spec fn ascii_upper_char(c: char) -> char {
    if 'a' <= c && c <= 'z' {
        ((c as u32) - 32) as char
    } else {
        c
    }
}

/// ASCII lowercase of one character: `A`..`Z` become `a`..`z`, the rest stay.
pub open spec fn ascii_lower_char(c: char) -> char {
    if 'A' <= c && c <= 'Z' {
        ((c as u32) + 32) as char
    } else {
        c
    }
}

pub open spec fn ascii_upper(s: Seq<char>) -> Seq<char> {
    s.map_values(|c: char| ascii_upper_char(c))
}

pub open spec fn ascii_lower(s: Seq<char>) -> Seq<char> {
    s.map_values(|c: char| ascii_lower_char(c))
}

/// A character of Unicode's Private Use Area (U+E000 to U+F8FF), such as
/// the characters slint uses for special keys. No such character has a case
/// mapping.
pub open spec fn is_private_use(c: char) -> bool {
    '\u{E000}' <= c <= '\u{F8FF}'
}

/// Every character of the text is ASCII or of the Private Use Area: text
/// whose case mapping is the ASCII one.
pub open spec fn is_plain_text(s: Seq<char>) -> bool {
    forall|i: int| 0 <= i < s.len() ==> ('\0' <= #[trigger] s[i] <= '\u{7f}' || is_private_use(s[i]))
}

/// What `str::to_uppercase` returns: the ASCII mapping on text of ASCII and
/// private-use characters, the Unicode mapping named `unicode_uppercase`
/// otherwise.
pub open spec fn uppercase(s: Seq<char>) -> Seq<char> {
    if is_plain_text(s) {
        ascii_upper(s)
    } else {
        unicode_uppercase(s)
    }
}

/// What `str::to_lowercase` returns: the ASCII mapping on text of ASCII and
/// private-use characters, the Unicode mapping named `unicode_lowercase`
/// otherwise.
pub open spec fn lowercase(s: Seq<char>) -> Seq<char> {
    if is_plain_text(s) {
        ascii_lower(s)
    } else {
        unicode_lowercase(s)
    }
}

/// Length in bytes of the UTF-8 encoding, which is what `str::len` returns.
pub open spec fn byte_len(s: Seq<char>) -> nat {
    encode_utf8(s).len()
}

/// Whether the UTF-8 encoding of the string is one byte long, which is
/// what `s.len() == 1` tests.
pub fn is_one_byte(s: &str) -> (r: bool)
    ensures
        r == (byte_len(s@) == 1),
{
    broadcast use vstd::slice::group_slice_axioms;

    s.as_bytes().len() == 1
}

/// Calls `str::to_uppercase`, which maps each character to its Unicode
/// uppercase mapping (the character itself where it has none). Its result is
/// named by `unicode_uppercase`, except on text of ASCII and private-use
/// characters: ASCII letters map as `to_ascii_uppercase` maps them, and the
/// Private Use Area has no case mappings.
#[verifier::external_body]
pub(crate) fn to_uppercase(s: &str) -> (r: String)
    ensures
        is_plain_text(s@) ==> r@ == ascii_upper(s@),
        !is_plain_text(s@) ==> r@ == unicode_uppercase(s@),
{
    s.to_uppercase()
}

/// Calls `str::to_lowercase`, which maps each character to its Unicode
/// lowercase mapping (the character itself where it has none). Its result is
/// named by `unicode_lowercase`, except on text of ASCII and private-use
/// characters: ASCII letters map as `to_ascii_lowercase` maps them, and the
/// Private Use Area has no case mappings.
#[verifier::external_body]
pub(crate) fn to_lowercase(s: &str) -> (r: String)
    ensures
        is_plain_text(s@) ==> r@ == ascii_lower(s@),
        !is_plain_text(s@) ==> r@ == unicode_lowercase(s@),
{
    s.to_lowercase()
}

/// Calls `<str as PartialEq>::eq`, which compares the two strings character
/// for character.
#[verifier::external_body]
pub(crate) fn str_eq(a: &str, b: &str) -> (r: bool)
    ensures
        r == (a@ == b@),
{
    a == b
}

/// The decimal digit character of `d`, for `0 <= d < 10`.
pub open spec fn digit_char(d: int) -> char {
    if d == 0 {
        '0'
    } else if d == 1 {
        '1'
    } else if d == 2 {
        '2'
    } else if d == 3 {
        '3'
    } else if d == 4 {
        '4'
    } else if d == 5 {
        '5'
    } else if d == 6 {
        '6'
    } else if d == 7 {
        '7'
    } else if d == 8 {
        '8'
    } else {
        '9'
    }
}

/// The decimal writing of `n`, without sign or leading zeros.
pub open spec fn decimal(n: nat) -> Seq<char>
    decreases n,
{
    if n < 10 {
        seq![digit_char(n as int)]
    } else {
        decimal(n / 10).push(digit_char((n % 10) as int))
    }
}

/// Calls `<u64 as ToString>::to_string`, which writes the number in decimal
/// through its `Display` implementation.
#[verifier::external_body]
pub(crate) fn u64_to_decimal(v: u64) -> (s: String)
    ensures
        s@ == decimal(v as nat),
{
    v.to_string()
}

/// Calls `str::eq_ignore_ascii_case`, which compares the strings byte for
/// byte after mapping ASCII letters to one case; on UTF-8 text that is the
/// comparison of the characters after ASCII lowercasing.
#[verifier::external_body]
pub(crate) fn eq_ignore_ascii_case(a: &str, b: &str) -> (r: bool)
    ensures
        r == (ascii_lower(a@) == ascii_lower(b@)),
{
    a.eq_ignore_ascii_case(b)
}

} // verus!
