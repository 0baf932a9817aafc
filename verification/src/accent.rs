//! The accent colour written as "#RRGGBB": the text the settings window
//! shows for a colour, and the colour read back from what the user types.

use vstd::prelude::*;
use vstd::string::{StrSliceExecFns, StringExecFns};
use crate::text::byte_len;

verus! {

/// The uppercase hexadecimal digit of `d`, for `0 <= d < 16`.
pub open spec fn hex_digit(d: int) -> char {
    if d < 10 {
        (('0' as int) + d) as char
    } else {
        (('A' as int) + d - 10) as char
    }
}

/// Two uppercase hexadecimal digits for a byte, as `{:02X}` writes it.
pub open spec fn hex_byte_text(v: u8) -> Seq<char> {
    seq![hex_digit((v / 16) as int), hex_digit((v % 16) as int)]
}

/// "#RRGGBB" for the colour, each channel in two uppercase hexadecimal digits.
pub open spec fn accent_hex_text(rgb: [u8; 3]) -> Seq<char> {
    seq!['#'] + hex_byte_text(rgb[0]) + hex_byte_text(rgb[1]) + hex_byte_text(rgb[2])
}

/// The one-character text of the hexadecimal digit `d`.
fn hex_digit_str(d: u8) -> (r: &'static str)
    requires
        d < 16,
    ensures
        r@ == seq![hex_digit(d as int)],
{
    proof {
        reveal_strlit("0");
        reveal_strlit("1");
        reveal_strlit("2");
        reveal_strlit("3");
        reveal_strlit("4");
        reveal_strlit("5");
        reveal_strlit("6");
        reveal_strlit("7");
        reveal_strlit("8");
        reveal_strlit("9");
        reveal_strlit("A");
        reveal_strlit("B");
        reveal_strlit("C");
        reveal_strlit("D");
        reveal_strlit("E");
        reveal_strlit("F");
    }
    let r = if d == 0 {
        "0"
    } else if d == 1 {
        "1"
    } else if d == 2 {
        "2"
    } else if d == 3 {
        "3"
    } else if d == 4 {
        "4"
    } else if d == 5 {
        "5"
    } else if d == 6 {
        "6"
    } else if d == 7 {
        "7"
    } else if d == 8 {
        "8"
    } else if d == 9 {
        "9"
    } else if d == 10 {
        "A"
    } else if d == 11 {
        "B"
    } else if d == 12 {
        "C"
    } else if d == 13 {
        "D"
    } else if d == 14 {
        "E"
    } else {
        "F"
    };
    assert(r@ =~= seq![hex_digit(d as int)]);
    r
}

/// Appends the two hexadecimal digits of `v` to `s`.
fn push_hex_byte(s: &mut String, v: u8)
    ensures
        final(s)@ == old(s)@ + hex_byte_text(v),
{
    s.append(hex_digit_str(v / 16));
    s.append(hex_digit_str(v % 16));
    assert(final(s)@ =~= old(s)@ + hex_byte_text(v));
}

/// The text shown for an accent colour: "#" and the red, green and blue
/// channels in two uppercase hexadecimal digits each.
pub fn accent_hex(rgb: [u8; 3]) -> (r: String)
    ensures
        r@ == accent_hex_text(rgb),
{
    proof {
        reveal_strlit("#");
    }
    let mut s = String::from_str("#");
    push_hex_byte(&mut s, rgb[0]);
    push_hex_byte(&mut s, rgb[1]);
    push_hex_byte(&mut s, rgb[2]);
    assert(s@ =~= accent_hex_text(rgb));
    s
}

/// The characters with Unicode's White_Space property, which
/// `char::is_whitespace` tests for.
pub open spec fn is_white_space(c: char) -> bool {
    ||| '\u{0009}' <= c <= '\u{000D}'
    ||| c == '\u{0020}'
    ||| c == '\u{0085}'
    ||| c == '\u{00A0}'
    ||| c == '\u{1680}'
    ||| '\u{2000}' <= c <= '\u{200A}'
    ||| c == '\u{2028}'
    ||| c == '\u{2029}'
    ||| c == '\u{202F}'
    ||| c == '\u{205F}'
    ||| c == '\u{3000}'
}

/// The text without its leading whitespace.
pub open spec fn trim_start_ws(s: Seq<char>) -> Seq<char>
    decreases s.len(),
{
    if s.len() > 0 && is_white_space(s[0]) {
        trim_start_ws(s.drop_first())
    } else {
        s
    }
}

/// The text without its trailing whitespace.
pub open spec fn trim_end_ws(s: Seq<char>) -> Seq<char>
    decreases s.len(),
{
    if s.len() > 0 && is_white_space(s.last()) {
        trim_end_ws(s.drop_last())
    } else {
        s
    }
}

/// The text without leading and trailing whitespace.
pub open spec fn trimmed(s: Seq<char>) -> Seq<char> {
    trim_end_ws(trim_start_ws(s))
}

/// The text without its leading '#' characters.
pub open spec fn drop_hashes(s: Seq<char>) -> Seq<char>
    decreases s.len(),
{
    if s.len() > 0 && s[0] == '#' {
        drop_hashes(s.drop_first())
    } else {
        s
    }
}

/// The digits the user typed for a colour: the text trimmed of whitespace,
/// then of leading '#' characters.
pub open spec fn accent_digits(text: Seq<char>) -> Seq<char> {
    drop_hashes(trimmed(text))
}

/// The value of a hexadecimal digit, in either case.
pub open spec fn hex_value(c: char) -> Option<int> {
    if '0' <= c <= '9' {
        Some(c as int - '0' as int)
    } else if 'a' <= c <= 'f' {
        Some(c as int - 'a' as int + 10)
    } else if 'A' <= c <= 'F' {
        Some(c as int - 'A' as int + 10)
    } else {
        None
    }
}

/// What `u8::from_str_radix` gives in base 16 for the two characters `a b`:
/// two hexadecimal digits, or one after a '+' sign.
pub open spec fn hex_pair_value(a: char, b: char) -> Option<u8> {
    if a == '+' {
        match hex_value(b) {
            Some(v) => Some(v as u8),
            None => None,
        }
    } else {
        match (hex_value(a), hex_value(b)) {
            (Some(x), Some(y)) => Some((16 * x + y) as u8),
            _ => None,
        }
    }
}

/// The colour's digits are six bytes long and read as three pairs.
pub open spec fn accent_parses(h: Seq<char>) -> bool {
    &&& byte_len(h) == 6
    &&& h.len() == 6
    &&& hex_pair_value(h[0], h[1]) is Some
    &&& hex_pair_value(h[2], h[3]) is Some
    &&& hex_pair_value(h[4], h[5]) is Some
}

/// Byte offset `n` of the text's UTF-8 encoding is where a character starts
/// (or the end).
pub open spec fn splits_at(s: Seq<char>, n: int) -> bool {
    exists|k: int| 0 <= k <= s.len() && #[trigger] byte_len(s.take(k)) == n
}

/// Calls `str::trim`, which returns the text without leading and trailing
/// whitespace, whitespace being the characters with Unicode's White_Space
/// property.
#[verifier::external_body]
fn trim(s: &str) -> (r: &str)
    ensures
        r@ == trimmed(s@),
{
    s.trim()
}

/// The text after its leading '#' characters.
fn strip_hashes(s: &str) -> (r: &str)
    ensures
        r@ == drop_hashes(s@),
{
    let n = s.unicode_len();
    let mut i: usize = 0;
    assert(s@.skip(0) =~= s@);
    while i < n && s.get_char(i) == '#'
        invariant
            i <= n,
            n == s@.len(),
            drop_hashes(s@.skip(i as int)) == drop_hashes(s@),
        decreases n - i,
    {
        proof {
            assert(s@.skip(i as int).drop_first() =~= s@.skip(i as int + 1));
        }
        i = i + 1;
    }
    let r = s.substring_char(i, n);
    proof {
        assert(s@.skip(i as int) =~= s@.subrange(i as int, n as int));
        if i < n {
            assert(s@.skip(i as int)[0] == s@[i as int]);
        }
    }
    r
}

/// The value of a hexadecimal digit.
fn hex_digit_value(c: char) -> (r: Option<u8>)
    ensures
        match hex_value(c) {
            Some(v) => r == Some(v as u8) && 0 <= v < 16,
            None => r is None,
        },
{
    if '0' <= c && c <= '9' {
        Some(((c as u32) - ('0' as u32)) as u8)
    } else if 'a' <= c && c <= 'f' {
        Some(((c as u32) - ('a' as u32) + 10) as u8)
    } else if 'A' <= c && c <= 'F' {
        Some(((c as u32) - ('A' as u32) + 10) as u8)
    } else {
        None
    }
}

/// Reads the two characters `a b` as `u8::from_str_radix` does in base 16.
fn hex_pair(a: char, b: char) -> (r: Option<u8>)
    ensures
        r == hex_pair_value(a, b),
{
    if a == '+' {
        hex_digit_value(b)
    } else {
        match (hex_digit_value(a), hex_digit_value(b)) {
            (Some(x), Some(y)) => Some(16 * x + y),
            _ => None,
        }
    }
}

/// The colour typed as "#RRGGBB": whitespace around the text and any
/// leading '#' characters are ignored, and what is left must be six bytes
/// read as three base-16 pairs (each two hexadecimal digits, or one after a
/// '+'). Texts whose six bytes cannot be cut into pairs at character
/// boundaries are left out.
pub fn parse_accent_hex(text: &str) -> (r: Option<[u8; 3]>)
    requires
        byte_len(accent_digits(text@)) == 6 ==> splits_at(accent_digits(text@), 2) && splits_at(
            accent_digits(text@),
            4,
        ),
    ensures
        r is Some <==> accent_parses(accent_digits(text@)),
        r matches Some(rgb) ==> {
            let h = accent_digits(text@);
            &&& Some(rgb[0]) == hex_pair_value(h[0], h[1])
            &&& Some(rgb[1]) == hex_pair_value(h[2], h[3])
            &&& Some(rgb[2]) == hex_pair_value(h[4], h[5])
        },
{
    broadcast use vstd::slice::group_slice_axioms;

    let h = strip_hashes(trim(text));
    if h.as_bytes().len() != 6 {
        return None;
    }
    if h.unicode_len() != 6 {
        return None;
    }
    let r = hex_pair(h.get_char(0), h.get_char(1));
    let g = hex_pair(h.get_char(2), h.get_char(3));
    let b = hex_pair(h.get_char(4), h.get_char(5));
    match (r, g, b) {
        (Some(r), Some(g), Some(b)) => Some([r, g, b]),
        _ => None,
    }
}

proof fn lemma_ascii_byte_len(s: Seq<char>)
    requires
        forall|i: int| 0 <= i < s.len() ==> (#[trigger] s[i] as u32) < 0x80,
    ensures
        byte_len(s) == s.len(),
    decreases s.len(),
{
    if s.len() > 0 {
        lemma_ascii_byte_len(s.drop_first());
    }
}

proof fn lemma_hex_digit(d: int)
    requires
        0 <= d < 16,
    ensures
        hex_value(hex_digit(d)) == Some(d),
        hex_digit(d) != '+',
        hex_digit(d) != '#',
        !is_white_space(hex_digit(d)),
        (hex_digit(d) as u32) < 0x80,
{
}

proof fn lemma_hex_byte(v: u8)
    ensures
        hex_pair_value(hex_byte_text(v)[0], hex_byte_text(v)[1]) == Some(v),
{
    lemma_hex_digit((v / 16) as int);
    lemma_hex_digit((v % 16) as int);
}

/// The colour text the settings window shows reads back as the same colour:
/// its digits are six bytes that split into pairs at character boundaries,
/// and each pair gives back its channel.
pub proof fn law_accent_hex_reads_back(rgb: [u8; 3])
    ensures
        ({
            let h = accent_digits(accent_hex_text(rgb));
            &&& byte_len(h) == 6 ==> splits_at(h, 2) && splits_at(h, 4)
            &&& accent_parses(h)
            &&& hex_pair_value(h[0], h[1]) == Some(rgb[0])
            &&& hex_pair_value(h[2], h[3]) == Some(rgb[1])
            &&& hex_pair_value(h[4], h[5]) == Some(rgb[2])
        }),
{
    let t = accent_hex_text(rgb);
    let h = hex_byte_text(rgb[0]) + hex_byte_text(rgb[1]) + hex_byte_text(rgb[2]);
    assert forall|i: int| 0 <= i < 6 implies {
        &&& #[trigger] h[i] != '#'
        &&& !is_white_space(h[i])
        &&& (h[i] as u32) < 0x80
    } by {
        lemma_hex_digit((rgb[0] / 16) as int);
        lemma_hex_digit((rgb[0] % 16) as int);
        lemma_hex_digit((rgb[1] / 16) as int);
        lemma_hex_digit((rgb[1] % 16) as int);
        lemma_hex_digit((rgb[2] / 16) as int);
        lemma_hex_digit((rgb[2] % 16) as int);
    }
    assert(t =~= seq!['#'] + h);
    assert(trim_start_ws(t) == t);
    assert(t.last() == h[5]);
    assert(trim_end_ws(t) == t);
    assert(t.drop_first() =~= h);
    assert(drop_hashes(t) == drop_hashes(h));
    assert(drop_hashes(h) == h);
    assert(accent_digits(t) == h);
    lemma_ascii_byte_len(h);
    lemma_ascii_byte_len(h.take(2));
    lemma_ascii_byte_len(h.take(4));
    assert(byte_len(h.take(2)) == 2);
    assert(byte_len(h.take(4)) == 4);
    lemma_hex_byte(rgb[0]);
    lemma_hex_byte(rgb[1]);
    lemma_hex_byte(rgb[2]);
}

} // verus!
