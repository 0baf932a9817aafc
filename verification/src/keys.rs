//! Key names: the text slint reports for a key press, and the names that
//! shortcuts are written with ("Return", "Esc", "F1", ...).

use vstd::prelude::*;
use vstd::string::StringExecFns;
use slint::platform::Key;
use slint::SharedString;
use crate::text::{str_eq, to_lowercase, to_uppercase, lowercase, uppercase};

verus! {

#[verifier::external_type_specification]
#[verifier::external_body]
pub struct ExKey(Key);

/// The special keys whose slint text the shortcut logic compares against.
#[derive(Clone, Copy, Debug, PartialEq, Eq, Structural)]
pub enum SpecialKey {
    Return,
    Escape,
    Delete,
    Backspace,
    Tab,
    Space,
    LeftArrow,
    RightArrow,
    UpArrow,
    DownArrow,
    F1,
    F2,
    F3,
    F4,
    F5,
    F6,
    F7,
    F8,
    F9,
    F10,
    F11,
    F12,
    Control,
    Shift,
    Alt,
    Meta,
}

impl SpecialKey {
    /// The character slint uses for the key (its `key_codes` table).
    pub open spec fn code(self) -> char {
        match self {
            SpecialKey::Return => '\u{000a}',
            SpecialKey::Escape => '\u{001b}',
            SpecialKey::Delete => '\u{007f}',
            SpecialKey::Backspace => '\u{0008}',
            SpecialKey::Tab => '\u{0009}',
            SpecialKey::Space => '\u{0020}',
            SpecialKey::LeftArrow => '\u{F702}',
            SpecialKey::RightArrow => '\u{F703}',
            SpecialKey::UpArrow => '\u{F700}',
            SpecialKey::DownArrow => '\u{F701}',
            SpecialKey::F1 => '\u{F704}',
            SpecialKey::F2 => '\u{F705}',
            SpecialKey::F3 => '\u{F706}',
            SpecialKey::F4 => '\u{F707}',
            SpecialKey::F5 => '\u{F708}',
            SpecialKey::F6 => '\u{F709}',
            SpecialKey::F7 => '\u{F70A}',
            SpecialKey::F8 => '\u{F70B}',
            SpecialKey::F9 => '\u{F70C}',
            SpecialKey::F10 => '\u{F70D}',
            SpecialKey::F11 => '\u{F70E}',
            SpecialKey::F12 => '\u{F70F}',
            SpecialKey::Control => '\u{0011}',
            SpecialKey::Shift => '\u{0010}',
            SpecialKey::Alt => '\u{0012}',
            SpecialKey::Meta => '\u{0017}',
        }
    }

    /// The text slint reports for the key: its one character.
    pub open spec fn text(self) -> Seq<char> {
        seq![self.code()]
    }
}

/// A slint key: one of the special keys the shortcut logic names, or any
/// other key.
pub(crate) enum SlintKey {
    Special(SpecialKey),
    Other(Key),
}

/// The character slint gives a key: `char::from(key)`, the constant of the
/// key's entry in slint's `key_codes` table.
pub uninterp spec fn key_char(key: Key) -> char;

/// Calls slint's `From<Key> for SharedString`, on the slint `Key` variant of
/// the same name for a special key (the array lists them in the declaration
/// order of `SpecialKey`). slint builds that string from the one character
/// `char::from(key)`: for a special key the constant of its `key_codes`
/// entry, restated by `SpecialKey::code`; for any other key the character
/// named `key_char`.
#[verifier::external_body]
pub(crate) fn slint_key_text(key: SlintKey) -> (s: String)
    ensures
        s@.len() == 1,
        key matches SlintKey::Special(k) ==> s@ == k.text(),
        key matches SlintKey::Other(k) ==> s@ == seq![key_char(k)],
{
    let key = match key {
        SlintKey::Special(k) => [Key::Return, Key::Escape, Key::Delete, Key::Backspace, Key::Tab,
            Key::Space, Key::LeftArrow, Key::RightArrow, Key::UpArrow, Key::DownArrow, Key::F1,
            Key::F2, Key::F3, Key::F4, Key::F5, Key::F6, Key::F7, Key::F8, Key::F9, Key::F10,
            Key::F11, Key::F12, Key::Control, Key::Shift, Key::Alt, Key::Meta][k as usize],
        SlintKey::Other(key) => key,
    };
    SharedString::from(key).to_string()
}

/// The text slint reports for a special key.
fn special_key_text(key: SpecialKey) -> (s: String)
    ensures
        s@ == key.text(),
{
    slint_key_text(SlintKey::Special(key))
}

/// The human-readable name that `slint_to_human_readable` gives a key text.
pub open spec fn human_readable_name(key: Seq<char>) -> Seq<char> {
    let lower = lowercase(key);
    if lower == "\r"@ || lower == "\n"@ || key == SpecialKey::Return.text() {
        "Return"@
    } else if key == "\u{001b}"@ || key == SpecialKey::Escape.text() {
        "Esc"@
    } else if key == "\u{007f}"@ || key == SpecialKey::Delete.text() {
        "Delete"@
    } else if key == "\u{0008}"@ || key == SpecialKey::Backspace.text() {
        "Backspace"@
    } else if key == "\t"@ || key == SpecialKey::Tab.text() {
        "Tab"@
    } else if key == " "@ || key == SpecialKey::Space.text() {
        "Space"@
    } else if key == "\u{f702}"@ || key == "\u{f060}"@ || key == SpecialKey::LeftArrow.text() {
        "Left"@
    } else if key == "\u{f703}"@ || key == "\u{f061}"@ || key == SpecialKey::RightArrow.text() {
        "Right"@
    } else if key == "\u{f700}"@ || key == "\u{f062}"@ || key == SpecialKey::UpArrow.text() {
        "Up"@
    } else if key == "\u{f701}"@ || key == "\u{f063}"@ || key == SpecialKey::DownArrow.text() {
        "Down"@
    } else if key == SpecialKey::F1.text() {
        "F1"@
    } else if key == SpecialKey::F2.text() {
        "F2"@
    } else if key == SpecialKey::F3.text() {
        "F3"@
    } else if key == SpecialKey::F4.text() {
        "F4"@
    } else if key == SpecialKey::F5.text() {
        "F5"@
    } else if key == SpecialKey::F6.text() {
        "F6"@
    } else if key == SpecialKey::F7.text() {
        "F7"@
    } else if key == SpecialKey::F8.text() {
        "F8"@
    } else if key == SpecialKey::F9.text() {
        "F9"@
    } else if key == SpecialKey::F10.text() {
        "F10"@
    } else if key == SpecialKey::F11.text() {
        "F11"@
    } else if key == SpecialKey::F12.text() {
        "F12"@
    } else {
        key
    }
}

/// The key text that `human_readable_to_slint` gives a key name.
pub open spec fn slint_text_of_name(name: Seq<char>) -> Seq<char> {
    let upper = uppercase(name);
    if upper == "RETURN"@ || upper == "ENTER"@ {
        "\r"@
    } else if upper == "ESC"@ || upper == "ESCAPE"@ {
        "\u{001b}"@
    } else if upper == "DELETE"@ || upper == "DEL"@ {
        "\u{007f}"@
    } else if upper == "BACKSPACE"@ {
        "\u{0008}"@
    } else if upper == "TAB"@ {
        "\t"@
    } else if upper == "SPACE"@ {
        " "@
    } else if upper == "LEFT"@ {
        "\u{f702}"@
    } else if upper == "RIGHT"@ {
        "\u{f703}"@
    } else if upper == "UP"@ {
        "\u{f700}"@
    } else if upper == "DOWN"@ {
        "\u{f701}"@
    } else if upper == "F1"@ {
        SpecialKey::F1.text()
    } else if upper == "F2"@ {
        SpecialKey::F2.text()
    } else if upper == "F3"@ {
        SpecialKey::F3.text()
    } else if upper == "F4"@ {
        SpecialKey::F4.text()
    } else if upper == "F5"@ {
        SpecialKey::F5.text()
    } else if upper == "F6"@ {
        SpecialKey::F6.text()
    } else if upper == "F7"@ {
        SpecialKey::F7.text()
    } else if upper == "F8"@ {
        SpecialKey::F8.text()
    } else if upper == "F9"@ {
        SpecialKey::F9.text()
    } else if upper == "F10"@ {
        SpecialKey::F10.text()
    } else if upper == "F11"@ {
        SpecialKey::F11.text()
    } else if upper == "F12"@ {
        SpecialKey::F12.text()
    } else {
        name
    }
}

/// True when `key` is the text of `special`.
fn is_key(key: &str, special: SpecialKey) -> (r: bool)
    ensures
        r == (key@ == special.text()),
{
    let t = special_key_text(special);
    str_eq(key, t.as_str())
}

/// Turns the text of a key press into the name shortcuts are written with:
/// control characters and slint's special-key characters get their names,
/// any other text stays as it is.
pub fn slint_to_human_readable(key: &str) -> (r: String)
    ensures
        r@ == human_readable_name(key@),
{
    let k_lower = to_lowercase(key);
    if str_eq(k_lower.as_str(), "\r") || str_eq(k_lower.as_str(), "\n") || is_key(key, SpecialKey::Return) {
        return String::from_str("Return");
    }
    if str_eq(key, "\u{001b}") || is_key(key, SpecialKey::Escape) {
        return String::from_str("Esc");
    }
    if str_eq(key, "\u{007f}") || is_key(key, SpecialKey::Delete) {
        return String::from_str("Delete");
    }
    if str_eq(key, "\u{0008}") || is_key(key, SpecialKey::Backspace) {
        return String::from_str("Backspace");
    }
    if str_eq(key, "\t") || is_key(key, SpecialKey::Tab) {
        return String::from_str("Tab");
    }
    if str_eq(key, " ") || is_key(key, SpecialKey::Space) {
        return String::from_str("Space");
    }
    if str_eq(key, "\u{f702}") || str_eq(key, "\u{f060}") || is_key(key, SpecialKey::LeftArrow) {
        return String::from_str("Left");
    }
    if str_eq(key, "\u{f703}") || str_eq(key, "\u{f061}") || is_key(key, SpecialKey::RightArrow) {
        return String::from_str("Right");
    }
    if str_eq(key, "\u{f700}") || str_eq(key, "\u{f062}") || is_key(key, SpecialKey::UpArrow) {
        return String::from_str("Up");
    }
    if str_eq(key, "\u{f701}") || str_eq(key, "\u{f063}") || is_key(key, SpecialKey::DownArrow) {
        return String::from_str("Down");
    }
    if is_key(key, SpecialKey::F1) {
        return String::from_str("F1");
    }
    if is_key(key, SpecialKey::F2) {
        return String::from_str("F2");
    }
    if is_key(key, SpecialKey::F3) {
        return String::from_str("F3");
    }
    if is_key(key, SpecialKey::F4) {
        return String::from_str("F4");
    }
    if is_key(key, SpecialKey::F5) {
        return String::from_str("F5");
    }
    if is_key(key, SpecialKey::F6) {
        return String::from_str("F6");
    }
    if is_key(key, SpecialKey::F7) {
        return String::from_str("F7");
    }
    if is_key(key, SpecialKey::F8) {
        return String::from_str("F8");
    }
    if is_key(key, SpecialKey::F9) {
        return String::from_str("F9");
    }
    if is_key(key, SpecialKey::F10) {
        return String::from_str("F10");
    }
    if is_key(key, SpecialKey::F11) {
        return String::from_str("F11");
    }
    if is_key(key, SpecialKey::F12) {
        return String::from_str("F12");
    }
    String::from_str(key)
}

/// Turns a shortcut's key name back into the text slint reports for that key,
/// ignoring case; a name that is not one of the known ones stays as it is.
pub fn human_readable_to_slint(name: &str) -> (r: String)
    ensures
        r@ == slint_text_of_name(name@),
{
    let upper = to_uppercase(name);
    let u = upper.as_str();
    if str_eq(u, "RETURN") || str_eq(u, "ENTER") {
        String::from_str("\r")
    } else if str_eq(u, "ESC") || str_eq(u, "ESCAPE") {
        String::from_str("\u{001b}")
    } else if str_eq(u, "DELETE") || str_eq(u, "DEL") {
        String::from_str("\u{007f}")
    } else if str_eq(u, "BACKSPACE") {
        String::from_str("\u{0008}")
    } else if str_eq(u, "TAB") {
        String::from_str("\t")
    } else if str_eq(u, "SPACE") {
        String::from_str(" ")
    } else if str_eq(u, "LEFT") {
        String::from_str("\u{f702}")
    } else if str_eq(u, "RIGHT") {
        String::from_str("\u{f703}")
    } else if str_eq(u, "UP") {
        String::from_str("\u{f700}")
    } else if str_eq(u, "DOWN") {
        String::from_str("\u{f701}")
    } else if str_eq(u, "F1") {
        special_key_text(SpecialKey::F1)
    } else if str_eq(u, "F2") {
        special_key_text(SpecialKey::F2)
    } else if str_eq(u, "F3") {
        special_key_text(SpecialKey::F3)
    } else if str_eq(u, "F4") {
        special_key_text(SpecialKey::F4)
    } else if str_eq(u, "F5") {
        special_key_text(SpecialKey::F5)
    } else if str_eq(u, "F6") {
        special_key_text(SpecialKey::F6)
    } else if str_eq(u, "F7") {
        special_key_text(SpecialKey::F7)
    } else if str_eq(u, "F8") {
        special_key_text(SpecialKey::F8)
    } else if str_eq(u, "F9") {
        special_key_text(SpecialKey::F9)
    } else if str_eq(u, "F10") {
        special_key_text(SpecialKey::F10)
    } else if str_eq(u, "F11") {
        special_key_text(SpecialKey::F11)
    } else if str_eq(u, "F12") {
        special_key_text(SpecialKey::F12)
    } else {
        String::from_str(name)
    }
}

/// True when the key text is that of a modifier key (Control, Shift, Alt or Meta).
pub fn is_modifier(text: &str) -> (r: bool)
    ensures
        r == (text@ == SpecialKey::Control.text() || text@ == SpecialKey::Shift.text()
            || text@ == SpecialKey::Alt.text() || text@ == SpecialKey::Meta.text()),
{
    is_key(text, SpecialKey::Control) || is_key(text, SpecialKey::Shift) || is_key(text, SpecialKey::Alt)
        || is_key(text, SpecialKey::Meta)
}

} // verus!
