//! Naming saved images: numbered copies "name (n)", and the file format
//! chosen for a save.

use vstd::prelude::*;
use vstd::string::{StrSliceExecFns, StringExecFns};
use crate::text::{decimal, digit_char, str_eq, to_lowercase, u64_to_decimal};

verus! {

pub open spec fn is_digit(c: char) -> bool {
    '0' <= c && c <= '9'
}

/// The number written by a string of decimal digits.
pub open spec fn digits_value(s: Seq<char>) -> nat
    decreases s.len(),
{
    if s.len() == 0 {
        0
    } else {
        digits_value(s.drop_last()) * 10 + ((s.last() as u32) - 48) as nat
    }
}

pub open spec fn all_digits(s: Seq<char>) -> bool {
    forall|i: int| 0 <= i < s.len() ==> is_digit(#[trigger] s[i])
}

/// What `str::parse::<u32>` gives: an optional '+' followed by at least one
/// decimal digit, whose value fits in `u32`.
pub open spec fn parse_u32_spec(s: Seq<char>) -> Option<u32> {
    let body = if s.len() > 0 && s[0] == '+' {
        s.skip(1)
    } else {
        s
    };
    if body.len() > 0 && all_digits(body) && digits_value(body) <= u32::MAX {
        Some(digits_value(body) as u32)
    } else {
        None
    }
}

/// A digit string's value is at least that of any of its prefixes.
proof fn lemma_digits_value_prefix(s: Seq<char>, j: int)
    requires
        0 <= j <= s.len(),
        all_digits(s),
    ensures
        digits_value(s.subrange(0, j)) <= digits_value(s),
    decreases s.len(),
{
    if j < s.len() {
        assert(s.drop_last().subrange(0, j) =~= s.subrange(0, j));
        lemma_digits_value_prefix(s.drop_last(), j);
    } else {
        assert(s.subrange(0, j) =~= s);
    }
}

/// Reads a decimal number as `str::parse::<u32>` does.
pub fn parse_u32(text: &str) -> (r: Option<u32>)
    ensures
        r == parse_u32_spec(text@),
{
    let n = text.unicode_len();
    let start: usize = if n > 0 && text.get_char(0) == '+' {
        1
    } else {
        0
    };
    let ghost body = if text@.len() > 0 && text@[0] == '+' {
        text@.skip(1)
    } else {
        text@
    };
    assert(body =~= text@.subrange(start as int, n as int));
    if start >= n {
        return None;
    }
    let mut value: u64 = 0;
    let mut i: usize = start;
    while i < n
        invariant
            start <= i <= n,
            n == text@.len(),
            body =~= text@.subrange(start as int, n as int),
            body == (if text@.len() > 0 && text@[0] == '+' {
                text@.skip(1)
            } else {
                text@
            }),
            all_digits(body.subrange(0, i - start)),
            value == digits_value(body.subrange(0, i - start)),
            value <= u32::MAX,
        decreases n - i,
    {
        let c = text.get_char(i);
        let ghost prefix = body.subrange(0, i - start + 1);
        assert(prefix.drop_last() =~= body.subrange(0, i - start));
        assert(prefix.last() == c);
        assert(body[i - start] == c);
        if !('0' <= c && c <= '9') {
            assert(!is_digit(body[i - start]));
            assert(!all_digits(body));
            return None;
        }
        value = value * 10 + ((c as u32) - 48) as u64;
        assert(all_digits(prefix));
        assert(value == digits_value(prefix));
        if value > 0xffff_ffff {
            proof {
                if all_digits(body) {
                    lemma_digits_value_prefix(body, i - start + 1);
                }
            }
            return None;
        }
        i = i + 1;
    }
    assert(body.subrange(0, n - start) =~= body);
    Some(value as u32)
}

/// `s` has " (" at position `i`.
pub open spec fn is_open_paren_at(s: Seq<char>, i: int) -> bool {
    0 <= i && i + 1 < s.len() && s[i] == ' ' && s[i + 1] == '('
}

/// The last position below `n` where " (" starts.
pub open spec fn last_open_paren_below(s: Seq<char>, n: int) -> Option<int>
    decreases n,
{
    if n <= 0 {
        None
    } else if is_open_paren_at(s, n - 1) {
        Some(n - 1)
    } else {
        last_open_paren_below(s, n - 1)
    }
}

proof fn lemma_open_paren_below_found(s: Seq<char>, n: int)
    ensures
        last_open_paren_below(s, n) matches Some(i) ==> is_open_paren_at(s, i) && i < n,
    decreases n,
{
    if n > 0 {
        lemma_open_paren_below_found(s, n - 1);
    }
}

/// The last position where " (" starts, as `str::rfind(" (")` finds it.
pub open spec fn last_open_paren(s: Seq<char>) -> Option<int> {
    last_open_paren_below(s, s.len() as int)
}

/// A file stem split into its base and copy number: "name (n)" gives "name"
/// and `n`; any other stem is its own base, with no number.
pub open spec fn serial_parts(stem: Seq<char>) -> (Seq<char>, Option<u32>) {
    match last_open_paren(stem) {
        Some(i) => if stem.len() > 0 && stem.last() == ')' && parse_u32_spec(
            stem.subrange(i + 2, stem.len() - 1),
        ) is Some {
            (stem.subrange(0, i), parse_u32_spec(stem.subrange(i + 2, stem.len() - 1)))
        } else {
            (stem, None)
        },
        None => (stem, None),
    }
}

/// Splits a file stem "name (n)" into "name" and `n`; any other stem is
/// returned whole, with no number.
pub fn parse_serial_number(stem: &str) -> (r: (String, Option<u32>))
    ensures
        r.0@ == serial_parts(stem@).0,
        r.1 == serial_parts(stem@).1,
{
    let n = stem.unicode_len();
    let mut i: usize = n;
    let mut found: Option<usize> = None;
    while i > 0 && found.is_none()
        invariant
            i <= n,
            n == stem@.len(),
            found is None ==> last_open_paren(stem@) == last_open_paren_below(stem@, i as int),
            found matches Some(p) ==> last_open_paren(stem@) == Some(p as int),
        decreases i,
    {
        i = i - 1;
        if i + 1 < n && stem.get_char(i) == ' ' && stem.get_char(i + 1) == '(' {
            found = Some(i);
        }
    }
    proof {
        lemma_open_paren_below_found(stem@, stem@.len() as int);
    }
    if let Some(open_paren) = found {
        if n > 0 && stem.get_char(n - 1) == ')' {
            let num_str = stem.substring_char(open_paren + 2, n - 1);
            if let Some(num) = parse_u32(num_str) {
                let base = stem.substring_char(0, open_paren);
                return (String::from_str(base), Some(num));
            }
        }
    }
    (String::from_str(stem), None)
}

/// The stem of numbered copy `n` of `base`: "base (n)".
pub open spec fn serial_stem(base: Seq<char>, n: nat) -> Seq<char> {
    base + " ("@ + decimal(n) + ")"@
}

/// "stem.ext".
pub open spec fn file_name(stem: Seq<char>, ext: Seq<char>) -> Seq<char> {
    stem + "."@ + ext
}

/// The file name "base.ext".
pub fn plain_file_name(base: &str, ext: &str) -> (r: String)
    ensures
        r@ == file_name(base@, ext@),
{
    let mut r = String::from_str(base);
    r.append(".");
    r.append(ext);
    r
}

/// The file name of numbered copy `n`: "base (n).ext".
pub fn serial_file_name(base: &str, n: u32, ext: &str) -> (r: String)
    ensures
        r@ == file_name(serial_stem(base@, n as nat), ext@),
{
    let mut r = String::from_str(base);
    r.append(" (");
    let digits = u64_to_decimal(n as u64);
    r.append(digits.as_str());
    r.append(")");
    r.append(".");
    r.append(ext);
    r
}

/// Whether a save should suggest a numbered copy: when "base.ext" already
/// exists, or when the current file is itself a numbered copy.
pub fn wants_serial(plain_name_exists: bool, existing: Option<u32>) -> (r: bool)
    ensures
        r == (plain_name_exists || existing is Some),
{
    plain_name_exists || existing.is_some()
}

/// The first copy number to try: one past the current file's number, or 1.
pub fn first_serial(existing: Option<u32>) -> (r: u32)
    requires
        existing != Some(u32::MAX),
    ensures
        r == match existing {
            Some(n) => n + 1,
            None => 1,
        },
{
    match existing {
        Some(n) => n + 1,
        None => 1,
    }
}

proof fn lemma_digit_char(d: int)
    requires
        0 <= d < 10,
    ensures
        digit_char(d) as u32 == d + 48,
        is_digit(digit_char(d)),
{
}

/// Every digit of a decimal writing is a digit, and the digits are worth the
/// number.
pub proof fn lemma_decimal_digits(n: nat)
    ensures
        all_digits(decimal(n)),
        decimal(n).len() > 0,
        digits_value(decimal(n)) == n,
    decreases n,
{
    lemma_digit_char((n % 10) as int);
    let d = decimal(n);
    if n >= 10 {
        lemma_decimal_digits(n / 10);
        assert(d.drop_last() =~= decimal(n / 10));
        assert(d.last() == digit_char((n % 10) as int));
        assert(digits_value(d) == digits_value(decimal(n / 10)) * 10 + (n % 10));
        assert(n == (n / 10) * 10 + n % 10);
    } else {
        assert(d =~= seq![digit_char(n as int)]);
        assert(d.drop_last() =~= Seq::<char>::empty());
        assert(digits_value(d) == digits_value(d.drop_last()) * 10 + ((d.last() as u32) - 48) as nat);
    }
}

/// A number written in decimal reads back as the same number.
pub proof fn law_decimal_parses_back(n: u32)
    ensures
        parse_u32_spec(decimal(n as nat)) == Some(n),
{
    lemma_decimal_digits(n as nat);
    let d = decimal(n as nat);
    assert(is_digit(d[0]));
}

/// No " (" starts at or after `k` below `n`: the search below `n` finds what
/// the search below `k` finds.
proof fn lemma_open_paren_below_skip(s: Seq<char>, k: int, n: int)
    requires
        0 <= k <= n,
        forall|j: int| k <= j < n ==> !is_open_paren_at(s, j),
    ensures
        last_open_paren_below(s, n) == last_open_paren_below(s, k),
    decreases n - k,
{
    if n > k {
        lemma_open_paren_below_skip(s, k, n - 1);
    }
}

/// The stem of a numbered copy splits back into its base and number:
/// `parse_serial_number` recognises what `serial_file_name` writes.
pub proof fn law_serial_stem_parses_back(base: Seq<char>, n: u32)
    ensures
        serial_parts(serial_stem(base, n as nat)) == (base, Some(n)),
{
    reveal_strlit(" (");
    reveal_strlit(")");
    let d = decimal(n as nat);
    lemma_decimal_digits(n as nat);
    let s = serial_stem(base, n as nat);
    let b = base.len() as int;
    assert(s.len() == b + 2 + d.len() + 1);
    assert(s[b] == ' ' && s[b + 1] == '(');
    assert(is_open_paren_at(s, b));
    assert forall|j: int| b + 1 <= j < s.len() implies !is_open_paren_at(s, j) by {
        if j < b + 2 {
            assert(s[j] == '(');
        } else if j < b + 2 + d.len() {
            assert(s[j] == d[j - b - 2]);
            assert(is_digit(d[j - b - 2]));
        } else {
            assert(s[j] == ')');
        }
    }
    lemma_open_paren_below_skip(s, b + 1, s.len() as int);
    assert(last_open_paren(s) == Some(b));
    assert(s.last() == ')');
    assert(s.subrange(b + 2, s.len() - 1) =~= d);
    assert(s.subrange(0, b) =~= base);
    law_decimal_parses_back(n);
}

/// The image formats a picture can be saved in.
#[derive(Clone, Copy, Debug, PartialEq, Eq, Structural)]
pub enum SaveFormat {
    Png,
    Jpeg,
    Bmp,
    WebP,
}

impl SaveFormat {
    /// The format named by the default-format setting: "Jpg", "Bmp", "WebP",
    /// anything else meaning PNG.
    pub fn from_setting(setting: &str) -> (r: SaveFormat)
        ensures
            r == if setting@ == "Jpg"@ {
                SaveFormat::Jpeg
            } else if setting@ == "Bmp"@ {
                SaveFormat::Bmp
            } else if setting@ == "WebP"@ {
                SaveFormat::WebP
            } else {
                SaveFormat::Png
            },
    {
        if str_eq(setting, "Jpg") {
            SaveFormat::Jpeg
        } else if str_eq(setting, "Bmp") {
            SaveFormat::Bmp
        } else if str_eq(setting, "WebP") {
            SaveFormat::WebP
        } else {
            SaveFormat::Png
        }
    }

    pub open spec fn filter_name_text(self) -> Seq<char> {
        match self {
            SaveFormat::Png => "PNG Image"@,
            SaveFormat::Jpeg => "JPEG Image"@,
            SaveFormat::Bmp => "BMP Image"@,
            SaveFormat::WebP => "WebP Image"@,
        }
    }

    /// The name of the format's filter in the save dialog.
    pub fn filter_name(&self) -> (r: &'static str)
        ensures
            r@ == self.filter_name_text(),
    {
        match self {
            SaveFormat::Png => "PNG Image",
            SaveFormat::Jpeg => "JPEG Image",
            SaveFormat::Bmp => "BMP Image",
            SaveFormat::WebP => "WebP Image",
        }
    }

    pub open spec fn extension_text(self) -> Seq<char> {
        match self {
            SaveFormat::Png => "png"@,
            SaveFormat::Jpeg => "jpg"@,
            SaveFormat::Bmp => "bmp"@,
            SaveFormat::WebP => "webp"@,
        }
    }

    /// The extension given to a suggested file name.
    pub fn extension(&self) -> (r: &'static str)
        ensures
            r@ == self.extension_text(),
    {
        match self {
            SaveFormat::Png => "png",
            SaveFormat::Jpeg => "jpg",
            SaveFormat::Bmp => "bmp",
            SaveFormat::WebP => "webp",
        }
    }

    /// The formats in the order the save dialog lists their filters: the
    /// preferred one first, then the others in the order PNG, JPEG, BMP, WebP.
    pub fn dialog_order(preferred: SaveFormat) -> (r: Vec<SaveFormat>)
        ensures
            r@ == seq![preferred] + seq![SaveFormat::Png, SaveFormat::Jpeg, SaveFormat::Bmp, SaveFormat::WebP].filter(
                |f: SaveFormat| f != preferred,
            ),
    {
        let all = [SaveFormat::Png, SaveFormat::Jpeg, SaveFormat::Bmp, SaveFormat::WebP];
        let mut r: Vec<SaveFormat> = Vec::new();
        r.push(preferred);
        let mut i: usize = 0;
        let ghost all_seq = seq![SaveFormat::Png, SaveFormat::Jpeg, SaveFormat::Bmp, SaveFormat::WebP];
        assert(all@ =~= all_seq);
        while i < 4
            invariant
                i <= 4,
                all@ == all_seq,
                r@ == seq![preferred] + all_seq.subrange(0, i as int).filter(|f: SaveFormat| f != preferred),
            decreases 4 - i,
        {
            let f = all[i];
            proof {
                let pred = |f: SaveFormat| f != preferred;
                assert(all_seq.subrange(0, i + 1).drop_last() =~= all_seq.subrange(0, i as int));
                reveal_with_fuel(Seq::<_>::filter, 1);
            }
            if f != preferred {
                r.push(f);
            }
            i = i + 1;
        }
        assert(all_seq.subrange(0, 4) =~= all_seq);
        r
    }
}

/// The encoding a picture is saved with.
#[derive(Clone, Copy, Debug, PartialEq, Eq, Structural)]
pub enum SaveEncoding {
    Jpg { quality: u32 },
    Bmp,
    WebP,
    Png,
}

/// The encoding chosen by a saved file's extension, compared after
/// lowercasing: JPEG (with the quality setting) for "jpg" and "jpeg", BMP,
/// WebP, and PNG for anything else.
pub fn encoding_for_extension(ext: &str, quality: u32) -> (r: SaveEncoding)
    ensures
        ({
            let e = crate::text::lowercase(ext@);
            r == if e == "jpg"@ || e == "jpeg"@ {
                SaveEncoding::Jpg { quality }
            } else if e == "bmp"@ {
                SaveEncoding::Bmp
            } else if e == "webp"@ {
                SaveEncoding::WebP
            } else {
                SaveEncoding::Png
            }
        }),
{
    let lower = to_lowercase(ext);
    let e = lower.as_str();
    if str_eq(e, "jpg") || str_eq(e, "jpeg") {
        SaveEncoding::Jpg { quality }
    } else if str_eq(e, "bmp") {
        SaveEncoding::Bmp
    } else if str_eq(e, "webp") {
        SaveEncoding::WebP
    } else {
        SaveEncoding::Png
    }
}

/// Each save format names the extension its dialog filter accepts and its
/// encoding is chosen by: PNG "png", JPEG "jpg", BMP "bmp", WebP "webp", each
/// already in lowercase.
pub proof fn law_save_format_extensions(f: SaveFormat)
    ensures
        SaveFormat::Png.extension_text() == "png"@,
        SaveFormat::Jpeg.extension_text() == "jpg"@,
        SaveFormat::Bmp.extension_text() == "bmp"@,
        SaveFormat::WebP.extension_text() == "webp"@,
        crate::text::lowercase(f.extension_text()) == f.extension_text(),
{
    reveal_strlit("png");
    reveal_strlit("jpg");
    reveal_strlit("bmp");
    reveal_strlit("webp");
    assert(crate::text::is_plain_text(f.extension_text()));
    assert(crate::text::lowercase(f.extension_text()) =~= f.extension_text());
}

} // verus!
