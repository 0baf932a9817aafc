//! Keyboard shortcuts: the actions a key press can trigger, the key chords
//! bound to them, and the lookup from a key press to its action.

use vstd::prelude::*;
use vstd::string::StringExecFns;
use vstd::utf8::is_ascii_chars;
use slint::platform::Key;
use crate::keys::{human_readable_name, key_char, slint_key_text, slint_text_of_name, SlintKey, SpecialKey};
pub use crate::keys::{human_readable_to_slint, is_modifier, slint_to_human_readable};
use crate::text::{ascii_lower_char, byte_len, is_one_byte, is_plain_text, is_private_use, str_eq, to_lowercase, to_uppercase, lowercase, uppercase};

verus! {

/// Number of actions, i.e. of `InputEvent` variants.
pub const EVENT_COUNT: usize = 25;

/// An action of the viewer that a shortcut can trigger. Shortcut maps keep
/// their actions in the order of this declaration.
#[derive(Debug, PartialEq, Eq, Hash, Clone, Copy, PartialOrd, Ord, Structural)]
pub enum InputEvent {
    AlwaysOnTop,
    Fullscreen,
    OpenFile,
    NextImage,
    PreviousImage,
    ResetView,
    ZoomActualSize,
    Copy,
    Paste,
    SaveAs,
    CropSelection,
    Resize,
    ColorCorrections,
    Preferences,
    BrowseToFileLocation,
    ZenMode,
    PerfectFullscreen,
    ToggleThumbnails,
    SaveLayout1,
    SaveLayout2,
    SaveLayout3,
    LoadLayout1,
    LoadLayout2,
    LoadLayout3,
    Exit,
}

/// The action at position `r` of the declaration order.
pub open spec fn event_of_rank(r: int) -> InputEvent {
    if r == 0 {
        InputEvent::AlwaysOnTop
    } else if r == 1 {
        InputEvent::Fullscreen
    } else if r == 2 {
        InputEvent::OpenFile
    } else if r == 3 {
        InputEvent::NextImage
    } else if r == 4 {
        InputEvent::PreviousImage
    } else if r == 5 {
        InputEvent::ResetView
    } else if r == 6 {
        InputEvent::ZoomActualSize
    } else if r == 7 {
        InputEvent::Copy
    } else if r == 8 {
        InputEvent::Paste
    } else if r == 9 {
        InputEvent::SaveAs
    } else if r == 10 {
        InputEvent::CropSelection
    } else if r == 11 {
        InputEvent::Resize
    } else if r == 12 {
        InputEvent::ColorCorrections
    } else if r == 13 {
        InputEvent::Preferences
    } else if r == 14 {
        InputEvent::BrowseToFileLocation
    } else if r == 15 {
        InputEvent::ZenMode
    } else if r == 16 {
        InputEvent::PerfectFullscreen
    } else if r == 17 {
        InputEvent::ToggleThumbnails
    } else if r == 18 {
        InputEvent::SaveLayout1
    } else if r == 19 {
        InputEvent::SaveLayout2
    } else if r == 20 {
        InputEvent::SaveLayout3
    } else if r == 21 {
        InputEvent::LoadLayout1
    } else if r == 22 {
        InputEvent::LoadLayout2
    } else if r == 23 {
        InputEvent::LoadLayout3
    } else {
        InputEvent::Exit
    }
}

impl InputEvent {
    /// Position of the action in the declaration order.
    pub open spec fn rank(self) -> int {
        match self {
            InputEvent::AlwaysOnTop => 0,
            InputEvent::Fullscreen => 1,
            InputEvent::OpenFile => 2,
            InputEvent::NextImage => 3,
            InputEvent::PreviousImage => 4,
            InputEvent::ResetView => 5,
            InputEvent::ZoomActualSize => 6,
            InputEvent::Copy => 7,
            InputEvent::Paste => 8,
            InputEvent::SaveAs => 9,
            InputEvent::CropSelection => 10,
            InputEvent::Resize => 11,
            InputEvent::ColorCorrections => 12,
            InputEvent::Preferences => 13,
            InputEvent::BrowseToFileLocation => 14,
            InputEvent::ZenMode => 15,
            InputEvent::PerfectFullscreen => 16,
            InputEvent::ToggleThumbnails => 17,
            InputEvent::SaveLayout1 => 18,
            InputEvent::SaveLayout2 => 19,
            InputEvent::SaveLayout3 => 20,
            InputEvent::LoadLayout1 => 21,
            InputEvent::LoadLayout2 => 22,
            InputEvent::LoadLayout3 => 23,
            InputEvent::Exit => 24,
        }
    }

    /// The text that `description` returns.
    pub open spec fn description_text(self) -> Seq<char> {
        match self {
            InputEvent::AlwaysOnTop => "Toggle Always on Top"@,
            InputEvent::Fullscreen => "Toggle Fullscreen"@,
            InputEvent::OpenFile => "Open File"@,
            InputEvent::NextImage => "Next Image"@,
            InputEvent::PreviousImage => "Previous Image"@,
            InputEvent::ResetView => "Reset View"@,
            InputEvent::ZoomActualSize => "Zoom to Actual Size (1:1)"@,
            InputEvent::Copy => "Copy to Clipboard"@,
            InputEvent::Paste => "Paste from Clipboard"@,
            InputEvent::SaveAs => "Save as..."@,
            InputEvent::CropSelection => "Crop Image"@,
            InputEvent::Resize => "Resize Image"@,
            InputEvent::ColorCorrections => "Color Corrections"@,
            InputEvent::Preferences => "Preferences"@,
            InputEvent::BrowseToFileLocation => "Browse to File Location"@,
            InputEvent::ZenMode => "Toggle Zen Mode"@,
            InputEvent::PerfectFullscreen => "Fullscreen (Zen + Reset)"@,
            InputEvent::ToggleThumbnails => "Toggle Thumbnails"@,
            InputEvent::SaveLayout1 => "Save Layout 1"@,
            InputEvent::SaveLayout2 => "Save Layout 2"@,
            InputEvent::SaveLayout3 => "Save Layout 3"@,
            InputEvent::LoadLayout1 => "Load Layout 1"@,
            InputEvent::LoadLayout2 => "Load Layout 2"@,
            InputEvent::LoadLayout3 => "Load Layout 3"@,
            InputEvent::Exit => "Quit Application / Close Window"@,
        }
    }

    /// The variant's name, as `{:?}` prints it.
    pub open spec fn name_text(self) -> Seq<char> {
        match self {
            InputEvent::AlwaysOnTop => "AlwaysOnTop"@,
            InputEvent::Fullscreen => "Fullscreen"@,
            InputEvent::OpenFile => "OpenFile"@,
            InputEvent::NextImage => "NextImage"@,
            InputEvent::PreviousImage => "PreviousImage"@,
            InputEvent::ResetView => "ResetView"@,
            InputEvent::ZoomActualSize => "ZoomActualSize"@,
            InputEvent::Copy => "Copy"@,
            InputEvent::Paste => "Paste"@,
            InputEvent::SaveAs => "SaveAs"@,
            InputEvent::CropSelection => "CropSelection"@,
            InputEvent::Resize => "Resize"@,
            InputEvent::ColorCorrections => "ColorCorrections"@,
            InputEvent::Preferences => "Preferences"@,
            InputEvent::BrowseToFileLocation => "BrowseToFileLocation"@,
            InputEvent::ZenMode => "ZenMode"@,
            InputEvent::PerfectFullscreen => "PerfectFullscreen"@,
            InputEvent::ToggleThumbnails => "ToggleThumbnails"@,
            InputEvent::SaveLayout1 => "SaveLayout1"@,
            InputEvent::SaveLayout2 => "SaveLayout2"@,
            InputEvent::SaveLayout3 => "SaveLayout3"@,
            InputEvent::LoadLayout1 => "LoadLayout1"@,
            InputEvent::LoadLayout2 => "LoadLayout2"@,
            InputEvent::LoadLayout3 => "LoadLayout3"@,
            InputEvent::Exit => "Exit"@,
        }
    }

    /// A short human-readable description of the action.
    pub fn description(&self) -> (r: &str)
        ensures
            r@ == self.description_text(),
    {
        match self {
            InputEvent::AlwaysOnTop => "Toggle Always on Top",
            InputEvent::Fullscreen => "Toggle Fullscreen",
            InputEvent::OpenFile => "Open File",
            InputEvent::NextImage => "Next Image",
            InputEvent::PreviousImage => "Previous Image",
            InputEvent::ResetView => "Reset View",
            InputEvent::ZoomActualSize => "Zoom to Actual Size (1:1)",
            InputEvent::Copy => "Copy to Clipboard",
            InputEvent::Paste => "Paste from Clipboard",
            InputEvent::SaveAs => "Save as...",
            InputEvent::CropSelection => "Crop Image",
            InputEvent::Resize => "Resize Image",
            InputEvent::ColorCorrections => "Color Corrections",
            InputEvent::Preferences => "Preferences",
            InputEvent::BrowseToFileLocation => "Browse to File Location",
            InputEvent::ZenMode => "Toggle Zen Mode",
            InputEvent::PerfectFullscreen => "Fullscreen (Zen + Reset)",
            InputEvent::ToggleThumbnails => "Toggle Thumbnails",
            InputEvent::SaveLayout1 => "Save Layout 1",
            InputEvent::SaveLayout2 => "Save Layout 2",
            InputEvent::SaveLayout3 => "Save Layout 3",
            InputEvent::LoadLayout1 => "Load Layout 1",
            InputEvent::LoadLayout2 => "Load Layout 2",
            InputEvent::LoadLayout3 => "Load Layout 3",
            InputEvent::Exit => "Quit Application / Close Window",
        }
    }

    /// The variant's name, as `{:?}` prints it; the settings window refers to
    /// actions by it.
    pub fn name(&self) -> (r: &str)
        ensures
            r@ == self.name_text(),
    {
        match self {
            InputEvent::AlwaysOnTop => "AlwaysOnTop",
            InputEvent::Fullscreen => "Fullscreen",
            InputEvent::OpenFile => "OpenFile",
            InputEvent::NextImage => "NextImage",
            InputEvent::PreviousImage => "PreviousImage",
            InputEvent::ResetView => "ResetView",
            InputEvent::ZoomActualSize => "ZoomActualSize",
            InputEvent::Copy => "Copy",
            InputEvent::Paste => "Paste",
            InputEvent::SaveAs => "SaveAs",
            InputEvent::CropSelection => "CropSelection",
            InputEvent::Resize => "Resize",
            InputEvent::ColorCorrections => "ColorCorrections",
            InputEvent::Preferences => "Preferences",
            InputEvent::BrowseToFileLocation => "BrowseToFileLocation",
            InputEvent::ZenMode => "ZenMode",
            InputEvent::PerfectFullscreen => "PerfectFullscreen",
            InputEvent::ToggleThumbnails => "ToggleThumbnails",
            InputEvent::SaveLayout1 => "SaveLayout1",
            InputEvent::SaveLayout2 => "SaveLayout2",
            InputEvent::SaveLayout3 => "SaveLayout3",
            InputEvent::LoadLayout1 => "LoadLayout1",
            InputEvent::LoadLayout2 => "LoadLayout2",
            InputEvent::LoadLayout3 => "LoadLayout3",
            InputEvent::Exit => "Exit",
        }
    }

    /// Position of the action in the declaration order.
    pub fn index(&self) -> (r: usize)
        ensures
            r == self.rank(),
    {
        match self {
            InputEvent::AlwaysOnTop => 0,
            InputEvent::Fullscreen => 1,
            InputEvent::OpenFile => 2,
            InputEvent::NextImage => 3,
            InputEvent::PreviousImage => 4,
            InputEvent::ResetView => 5,
            InputEvent::ZoomActualSize => 6,
            InputEvent::Copy => 7,
            InputEvent::Paste => 8,
            InputEvent::SaveAs => 9,
            InputEvent::CropSelection => 10,
            InputEvent::Resize => 11,
            InputEvent::ColorCorrections => 12,
            InputEvent::Preferences => 13,
            InputEvent::BrowseToFileLocation => 14,
            InputEvent::ZenMode => 15,
            InputEvent::PerfectFullscreen => 16,
            InputEvent::ToggleThumbnails => 17,
            InputEvent::SaveLayout1 => 18,
            InputEvent::SaveLayout2 => 19,
            InputEvent::SaveLayout3 => 20,
            InputEvent::LoadLayout1 => 21,
            InputEvent::LoadLayout2 => 22,
            InputEvent::LoadLayout3 => 23,
            InputEvent::Exit => 24,
        }
    }

    /// The action at position `r` of the declaration order.
    pub fn at_index(r: usize) -> (e: InputEvent)
        requires
            r < EVENT_COUNT,
        ensures
            e == event_of_rank(r as int),
            e.rank() == r,
    {
        if r == 0 {
            InputEvent::AlwaysOnTop
        } else if r == 1 {
            InputEvent::Fullscreen
        } else if r == 2 {
            InputEvent::OpenFile
        } else if r == 3 {
            InputEvent::NextImage
        } else if r == 4 {
            InputEvent::PreviousImage
        } else if r == 5 {
            InputEvent::ResetView
        } else if r == 6 {
            InputEvent::ZoomActualSize
        } else if r == 7 {
            InputEvent::Copy
        } else if r == 8 {
            InputEvent::Paste
        } else if r == 9 {
            InputEvent::SaveAs
        } else if r == 10 {
            InputEvent::CropSelection
        } else if r == 11 {
            InputEvent::Resize
        } else if r == 12 {
            InputEvent::ColorCorrections
        } else if r == 13 {
            InputEvent::Preferences
        } else if r == 14 {
            InputEvent::BrowseToFileLocation
        } else if r == 15 {
            InputEvent::ZenMode
        } else if r == 16 {
            InputEvent::PerfectFullscreen
        } else if r == 17 {
            InputEvent::ToggleThumbnails
        } else if r == 18 {
            InputEvent::SaveLayout1
        } else if r == 19 {
            InputEvent::SaveLayout2
        } else if r == 20 {
            InputEvent::SaveLayout3
        } else if r == 21 {
            InputEvent::LoadLayout1
        } else if r == 22 {
            InputEvent::LoadLayout2
        } else if r == 23 {
            InputEvent::LoadLayout3
        } else {
            InputEvent::Exit
        }
    }
}

/// Every action has a rank below `EVENT_COUNT`, and the rank determines it.
pub proof fn lemma_rank(e: InputEvent)
    ensures
        0 <= e.rank() < EVENT_COUNT,
        event_of_rank(e.rank()) == e,
{
}

/// Ranks below `EVENT_COUNT` are ranks of the actions they name.
pub proof fn lemma_event_of_rank(r: int)
    requires
        0 <= r < EVENT_COUNT,
    ensures
        event_of_rank(r).rank() == r,
{
}

/// What a key chord is: a key name and the modifiers held with it.
pub struct KeyChord {
    pub key: Seq<char>,
    pub ctrl: bool,
    pub alt: bool,
    pub shift: bool,
}

/// A key chord of a shortcut: the key's name ("O", "Esc", "F1", ...) and
/// whether Ctrl, Alt and Shift are held with it.
#[derive(Debug, Default, PartialEq, Eq, Clone, PartialOrd, Ord, Hash)]
pub struct SimultaneousKeypresses {
    pub key: String,
    pub ctrl: bool,
    pub alt: bool,
    pub shift: bool,
}

impl View for SimultaneousKeypresses {
    type V = KeyChord;

    open spec fn view(&self) -> KeyChord {
        KeyChord { key: self.key@, ctrl: self.ctrl, alt: self.alt, shift: self.shift }
    }
}

/// The chord that `SimultaneousKeypresses::new` builds from a key name.
pub open spec fn chord_of_key(key: Seq<char>) -> KeyChord {
    KeyChord { key: uppercase(key), ctrl: false, alt: false, shift: false }
}

pub open spec fn with_ctrl(c: KeyChord) -> KeyChord {
    KeyChord { ctrl: true, ..c }
}

pub open spec fn with_alt(c: KeyChord) -> KeyChord {
    KeyChord { alt: true, ..c }
}

pub open spec fn with_shift(c: KeyChord) -> KeyChord {
    KeyChord { shift: true, ..c }
}

/// The text that `SimultaneousKeypresses::format` shows for a chord, such as
/// "Ctrl + Shift + S".
pub open spec fn chord_label(c: KeyChord) -> Seq<char> {
    (if c.ctrl { "Ctrl + "@ } else { Seq::empty() }) + (if c.alt { "Alt + "@ } else { Seq::empty() })
        + (if c.shift { "Shift + "@ } else { Seq::empty() }) + uppercase(c.key)
}

/// Whether a pressed key text equals a stored key text: the same text, the
/// same single-byte character up to case, or either of "\r" and "\n" on both
/// sides.
pub open spec fn key_texts_match(text: Seq<char>, stored: Seq<char>) -> bool {
    let key_match = if text == stored {
        true
    } else if byte_len(text) == 1 && byte_len(stored) == 1 {
        lowercase(text) == lowercase(stored)
    } else {
        false
    };
    key_match || (byte_len(text) == 1 && (text == "\r"@ || text == "\n"@) && (stored == "\r"@
        || stored == "\n"@))
}

/// Whether a key press (its text and modifiers) triggers the chord.
pub open spec fn chord_matches(c: KeyChord, text: Seq<char>, ctrl: bool, alt: bool, shift: bool) -> bool {
    key_texts_match(text, slint_text_of_name(c.key)) && c.ctrl == ctrl && c.alt == alt && c.shift
        == shift
}

impl SimultaneousKeypresses {
    /// The label shown for the chord: the held modifiers, then the key in
    /// uppercase, joined by " + ".
    pub fn format(&self) -> (r: String)
        ensures
            r@ == chord_label(self@),
    {
        let mut r = String::new();
        if self.ctrl {
            r.append("Ctrl + ");
        }
        if self.alt {
            r.append("Alt + ");
        }
        if self.shift {
            r.append("Shift + ");
        }
        let key = to_uppercase(self.key.as_str());
        r.append(key.as_str());
        r
    }

    /// A chord of the given key, uppercased, with no modifier held.
    pub fn new(key: &str) -> (r: Self)
        ensures
            r@ == chord_of_key(key@),
    {
        SimultaneousKeypresses { key: to_uppercase(key), ctrl: false, alt: false, shift: false }
    }

    /// A chord of the slint key with no modifier held, named as
    /// `slint_to_human_readable` names the key's text, in uppercase.
    pub fn from_key(key: Key) -> (r: Self)
        ensures
            r@ == chord_of_key(human_readable_name(seq![key_char(key)])),
    {
        let text = slint_key_text(SlintKey::Other(key));
        Self::from_key_text(text.as_str())
    }

    /// A chord of the key whose slint text is `text`, with no modifier held.
    pub fn from_key_text(text: &str) -> (r: Self)
        ensures
            r@ == chord_of_key(human_readable_name(text@)),
    {
        let name = slint_to_human_readable(text);
        Self::new(name.as_str())
    }

    /// The same chord with Ctrl held.
    pub fn ctrl(self) -> (r: Self)
        ensures
            r@ == with_ctrl(self@),
    {
        let mut s = self;
        s.ctrl = true;
        s
    }

    /// The same chord with Alt held.
    pub fn alt(self) -> (r: Self)
        ensures
            r@ == with_alt(self@),
    {
        let mut s = self;
        s.alt = true;
        s
    }

    /// The same chord with Shift held.
    pub fn shift(self) -> (r: Self)
        ensures
            r@ == with_shift(self@),
    {
        let mut s = self;
        s.shift = true;
        s
    }

    /// Whether a key press (the text slint reports and the modifiers held)
    /// triggers this chord.
    pub fn matches(&self, text: &str, ctrl: bool, alt: bool, shift: bool) -> (r: bool)
        ensures
            r == chord_matches(self@, text@, ctrl, alt, shift),
    {
        let stored_key = human_readable_to_slint(self.key.as_str());
        let stored = stored_key.as_str();
        let mut key_match = if str_eq(text, stored) {
            true
        } else if is_one_byte(text) && is_one_byte(stored) {
            let a = to_lowercase(text);
            let b = to_lowercase(stored);
            str_eq(a.as_str(), b.as_str())
        } else {
            false
        };
        // A Return key press may come as "\r" or as "\n".
        if !key_match && is_one_byte(text) && (str_eq(text, "\r") || str_eq(text, "\n")) {
            if str_eq(stored, "\r") || str_eq(stored, "\n") {
                key_match = true;
            }
        }
        key_match && self.ctrl == ctrl && self.alt == alt && self.shift == shift
    }

    /// Whether the two chords are the same (same key name and modifiers).
    pub fn same_as(&self, other: &SimultaneousKeypresses) -> (r: bool)
        ensures
            r == (self@ == other@),
    {
        str_eq(self.key.as_str(), other.key.as_str()) && self.ctrl == other.ctrl && self.alt
            == other.alt && self.shift == other.shift
    }
}

/// The chords of a list of key presses.
pub open spec fn chords(v: Seq<SimultaneousKeypresses>) -> Seq<KeyChord> {
    v.map_values(|k: SimultaneousKeypresses| k@)
}

/// Whether some chord of the list is triggered by the key press.
pub open spec fn binds(list: Seq<KeyChord>, text: Seq<char>, ctrl: bool, alt: bool, shift: bool) -> bool {
    exists|i: int| 0 <= i < list.len() && #[trigger] chord_matches(list[i], text, ctrl, alt, shift)
}

/// Whether the action has a shortcut in `m` that the key press triggers.
pub open spec fn event_binds(
    m: Map<InputEvent, Seq<KeyChord>>,
    e: InputEvent,
    text: Seq<char>,
    ctrl: bool,
    alt: bool,
    shift: bool,
) -> bool {
    m.dom().contains(e) && binds(m[e], text, ctrl, alt, shift)
}

/// The chords bound to an action, none when the action is not in the map.
pub open spec fn bindings_of(m: Map<InputEvent, Seq<KeyChord>>, e: InputEvent) -> Seq<KeyChord> {
    if m.dom().contains(e) {
        m[e]
    } else {
        Seq::empty()
    }
}

/// The table after `kp` is added to the chords of `e`, unless already there.
pub open spec fn with_chord_added(m: Map<InputEvent, Seq<KeyChord>>, e: InputEvent, kp: KeyChord) -> Map<
    InputEvent,
    Seq<KeyChord>,
> {
    m.insert(
        e,
        if bindings_of(m, e).contains(kp) {
            bindings_of(m, e)
        } else {
            bindings_of(m, e).push(kp)
        },
    )
}

/// The actions of the map whose rank is below `n`, in rank order.
pub open spec fn present_prefix(m: Map<InputEvent, Seq<KeyChord>>, n: int) -> Seq<InputEvent>
    decreases n,
{
    if n <= 0 {
        Seq::empty()
    } else if m.dom().contains(event_of_rank(n - 1)) {
        present_prefix(m, n - 1).push(event_of_rank(n - 1))
    } else {
        present_prefix(m, n - 1)
    }
}

/// The actions of the map in declaration order, as a `BTreeMap` keyed by
/// `InputEvent` walks them.
pub open spec fn present_events(m: Map<InputEvent, Seq<KeyChord>>) -> Seq<InputEvent> {
    present_prefix(m, EVENT_COUNT as int)
}

/// `e` is the first action, in declaration order, that has a shortcut the key
/// press triggers.
pub open spec fn is_first_binding(
    m: Map<InputEvent, Seq<KeyChord>>,
    e: InputEvent,
    text: Seq<char>,
    ctrl: bool,
    alt: bool,
    shift: bool,
) -> bool {
    &&& event_binds(m, e, text, ctrl, alt, shift)
    &&& forall|e2: InputEvent| e2.rank() < e.rank() ==> !event_binds(m, e2, text, ctrl, alt, shift)
}

/// `e` is the first action of the map, in declaration order, with that name.
pub open spec fn is_first_named(m: Map<InputEvent, Seq<KeyChord>>, e: InputEvent, name: Seq<char>) -> bool {
    &&& m.dom().contains(e)
    &&& e.name_text() == name
    &&& forall|e2: InputEvent|
        e2.rank() < e.rank() && m.dom().contains(e2) ==> e2.name_text() != name
}

/// No action of the map has that name.
pub open spec fn none_named(m: Map<InputEvent, Seq<KeyChord>>, name: Seq<char>) -> bool {
    forall|e: InputEvent| m.dom().contains(e) ==> e.name_text() != name
}

/// The shortcut table: for each action present, the list of chords that
/// trigger it. Actions are kept in declaration order.
pub struct Shortcuts {
    slots: Vec<Option<Vec<SimultaneousKeypresses>>>,
}

impl Shortcuts {
    /// One slot per action, at the action's rank.
    #[verifier::type_invariant]
    spec fn one_slot_per_event(self) -> bool {
        self.slots@.len() == EVENT_COUNT
    }
}

impl View for Shortcuts {
    type V = Map<InputEvent, Seq<KeyChord>>;

    closed spec fn view(&self) -> Map<InputEvent, Seq<KeyChord>> {
        Map::new(
            |e: InputEvent| self.slots@[e.rank()] is Some,
            |e: InputEvent| chords(self.slots@[e.rank()]->Some_0@),
        )
    }
}

/// Two actions with the same rank are the same action.
pub proof fn lemma_rank_injective(a: InputEvent, b: InputEvent)
    ensures
        a.rank() == b.rank() ==> a == b,
{
    lemma_rank(a);
    lemma_rank(b);
}

/// A list of empty slots, one per action.
fn empty_slots() -> (v: Vec<Option<Vec<SimultaneousKeypresses>>>)
    ensures
        v@.len() == EVENT_COUNT,
        forall|i: int| 0 <= i < EVENT_COUNT ==> v@[i] is None,
{
    let mut v: Vec<Option<Vec<SimultaneousKeypresses>>> = Vec::new();
    let mut i: usize = 0;
    while i < EVENT_COUNT
        invariant
            i <= EVENT_COUNT,
            v@.len() == i,
            forall|j: int| 0 <= j < i ==> v@[j] is None,
        decreases EVENT_COUNT - i,
    {
        v.push(None);
        i = i + 1;
    }
    v
}

/// Whether one of the key presses is the same chord as `kp`.
fn contains_chord(list: &Vec<SimultaneousKeypresses>, kp: &SimultaneousKeypresses) -> (r: bool)
    ensures
        r == chords(list@).contains(kp@),
{
    let mut j: usize = 0;
    while j < list.len()
        invariant
            j <= list.len(),
            forall|k: int| 0 <= k < j ==> list@[k]@ != kp@,
        decreases list.len() - j,
    {
        if list[j].same_as(kp) {
            assert(chords(list@)[j as int] == kp@);
            return true;
        }
        j = j + 1;
    }
    assert forall|k: int| 0 <= k < chords(list@).len() implies chords(list@)[k] != kp@ by {
        assert(chords(list@)[k] == list@[k]@);
    }
    false
}

impl Shortcuts {
    /// A table with no action in it.
    pub fn new() -> (s: Self)
        ensures
            s@ == Map::<InputEvent, Seq<KeyChord>>::empty(),
    {
        let s = Shortcuts { slots: empty_slots() };
        assert(s@ =~= Map::<InputEvent, Seq<KeyChord>>::empty()) by {
            assert forall|e: InputEvent| !s@.dom().contains(e) by {
                lemma_rank(e);
            }
        }
        s
    }

    /// Binds `keys` to `event`, replacing what was bound to it.
    pub fn insert(&mut self, event: InputEvent, keys: Vec<SimultaneousKeypresses>)
        ensures
            final(self)@ == old(self)@.insert(event, chords(keys@)),
    {
        proof {
            use_type_invariant(&*self);
        }
        let ghost old_map = self@;
        let ghost keys_view = chords(keys@);
        let i = event.index();
        let mut slots = empty_slots();
        std::mem::swap(&mut slots, &mut self.slots);
        slots.set(i, Some(keys));
        self.slots = slots;
        proof {
            lemma_rank(event);
            assert forall|e: InputEvent| #![auto]
                self@.dom().contains(e) == old_map.insert(event, keys_view).dom().contains(e) by {
                lemma_rank_injective(e, event);
                lemma_rank(e);
            }
            assert forall|e: InputEvent| #![auto] self@.dom().contains(e) implies self@[e]
                == old_map.insert(event, keys_view)[e] by {
                lemma_rank_injective(e, event);
                lemma_rank(e);
            }
            assert(self@ =~= old_map.insert(event, keys_view));
        }
    }

    /// The key presses bound to `event`, if the action is in the table.
    pub fn get(&self, event: InputEvent) -> (r: Option<&Vec<SimultaneousKeypresses>>)
        ensures
            match r {
                Some(v) => self@.dom().contains(event) && chords(v@) == self@[event],
                None => !self@.dom().contains(event),
            },
    {
        proof {
            use_type_invariant(self);
            lemma_rank(event);
        }
        self.slots[event.index()].as_ref()
    }

    /// Whether the action is in the table.
    pub fn contains_key(&self, event: InputEvent) -> (r: bool)
        ensures
            r == self@.dom().contains(event),
    {
        proof {
            use_type_invariant(self);
            lemma_rank(event);
        }
        self.slots[event.index()].is_some()
    }

    /// Adds `keypress` to the chords of `event` (entering the action with no
    /// chord first if it is absent), unless the same chord is already there.
    /// Returns whether it was added.
    pub fn add_binding(&mut self, event: InputEvent, keypress: SimultaneousKeypresses) -> (added: bool)
        ensures
            added == !bindings_of(old(self)@, event).contains(keypress@),
            final(self)@ == with_chord_added(old(self)@, event, keypress@),
    {
        proof {
            use_type_invariant(&*self);
            lemma_rank(event);
        }
        let ghost old_map = self@;
        let ghost kp = keypress@;
        let i = event.index();
        let mut slots = empty_slots();
        std::mem::swap(&mut slots, &mut self.slots);
        let ghost before = slots@;
        let current = slots.remove(i);
        let mut list = match current {
            Some(v) => v,
            None => Vec::new(),
        };
        assert(chords(list@) == bindings_of(old_map, event));
        let added = !contains_chord(&list, &keypress);
        let ghost list_before = list@;
        if added {
            list.push(keypress);
            assert(chords(list@) =~= chords(list_before).push(kp));
        }
        slots.insert(i, Some(list));
        assert(slots@ =~= before.update(i as int, Some(list)));
        self.slots = slots;
        proof {
            let new_list = if added {
                bindings_of(old_map, event).push(kp)
            } else {
                bindings_of(old_map, event)
            };
            assert forall|e: InputEvent| #![auto]
                self@.dom().contains(e) == old_map.insert(event, new_list).dom().contains(e) by {
                lemma_rank_injective(e, event);
                lemma_rank(e);
            }
            assert forall|e: InputEvent| #![auto] self@.dom().contains(e) implies self@[e]
                == old_map.insert(event, new_list)[e] by {
                lemma_rank_injective(e, event);
                lemma_rank(e);
            }
            assert(self@ =~= old_map.insert(event, new_list));
        }
        added
    }

    /// The actions of the table, in declaration order.
    pub fn events(&self) -> (r: Vec<InputEvent>)
        ensures
            r@ == present_events(self@),
    {
        proof {
            use_type_invariant(self);
        }
        let mut out: Vec<InputEvent> = Vec::new();
        let mut r: usize = 0;
        while r < EVENT_COUNT
            invariant
                r <= EVENT_COUNT,
                self.slots@.len() == EVENT_COUNT,
                out@ == present_prefix(self@, r as int),
            decreases EVENT_COUNT - r,
        {
            let e = InputEvent::at_index(r);
            if self.slots[r].is_some() {
                out.push(e);
            }
            r = r + 1;
        }
        out
    }

    /// The first action, in declaration order, whose name (as `{:?}` prints
    /// it) is `name`.
    pub fn find_event_by_name(&self, name: &str) -> (r: Option<InputEvent>)
        ensures
            match r {
                Some(e) => is_first_named(self@, e, name@),
                None => none_named(self@, name@),
            },
    {
        proof {
            use_type_invariant(self);
        }
        let mut r: usize = 0;
        while r < EVENT_COUNT
            invariant
                r <= EVENT_COUNT,
                self.slots@.len() == EVENT_COUNT,
                forall|e: InputEvent|
                    e.rank() < r && self@.dom().contains(e) ==> e.name_text() != name@,
            decreases EVENT_COUNT - r,
        {
            let e = InputEvent::at_index(r);
            if self.slots[r].is_some() && str_eq(e.name(), name) {
                return Some(e);
            }
            proof {
                assert forall|e2: InputEvent|
                    e2.rank() < r + 1 && self@.dom().contains(e2) implies e2.name_text() != name@ by {
                    lemma_rank_injective(e2, e);
                }
            }
            r = r + 1;
        }
        proof {
            assert forall|e: InputEvent| self@.dom().contains(e) implies e.name_text() != name@ by {
                lemma_rank(e);
            }
        }
        None
    }
}

/// Finds the action that a key press triggers: the first action, in
/// declaration order, with a chord that `matches` the press.
pub fn lookup(shortcuts: &Shortcuts, text: &str, ctrl: bool, alt: bool, shift: bool) -> (r: Option<
    InputEvent,
>)
    ensures
        match r {
            Some(e) => is_first_binding(shortcuts@, e, text@, ctrl, alt, shift),
            None => forall|e: InputEvent| !event_binds(shortcuts@, e, text@, ctrl, alt, shift),
        },
{
    proof {
        use_type_invariant(shortcuts);
    }
    let mut r: usize = 0;
    while r < EVENT_COUNT
        invariant
            r <= EVENT_COUNT,
            shortcuts.slots@.len() == EVENT_COUNT,
            forall|e: InputEvent| e.rank() < r ==> !event_binds(shortcuts@, e, text@, ctrl, alt, shift),
        decreases EVENT_COUNT - r,
    {
        let e = InputEvent::at_index(r);
        if let Some(list) = &shortcuts.slots[r] {
            let mut j: usize = 0;
            while j < list.len()
                invariant
                    j <= list.len(),
                    r < EVENT_COUNT,
                    e.rank() == r,
                    shortcuts.slots@.len() == EVENT_COUNT,
                    shortcuts.slots@[r as int] == Some(*list),
                    forall|e2: InputEvent|
                        e2.rank() < r ==> !event_binds(shortcuts@, e2, text@, ctrl, alt, shift),
                    forall|k: int| 0 <= k < j ==> !chord_matches(list@[k]@, text@, ctrl, alt, shift),
                decreases list.len() - j,
            {
                if list[j].matches(text, ctrl, alt, shift) {
                    proof {
                        assert(chords(list@)[j as int] == list@[j as int]@);
                        assert(chord_matches(chords(list@)[j as int], text@, ctrl, alt, shift));
                        assert(shortcuts@.dom().contains(e));
                        assert(shortcuts@[e] == chords(list@));
                    }
                    return Some(e);
                }
                j = j + 1;
            }
            proof {
                assert forall|k: int| 0 <= k < chords(list@).len() implies !chord_matches(
                    #[trigger] chords(list@)[k],
                    text@,
                    ctrl,
                    alt,
                    shift,
                ) by {
                    assert(chords(list@)[k] == list@[k]@);
                }
            }
        }
        proof {
            assert forall|e2: InputEvent| e2.rank() < r + 1 implies !event_binds(
                shortcuts@,
                e2,
                text@,
                ctrl,
                alt,
                shift,
            ) by {
                lemma_rank_injective(e2, e);
            }
        }
        r = r + 1;
    }
    proof {
        assert forall|e: InputEvent| !event_binds(shortcuts@, e, text@, ctrl, alt, shift) by {
            lemma_rank(e);
        }
    }
    None
}

/// What became of a key press while a shortcut was being recorded.
#[derive(Clone, Copy, Debug, PartialEq, Eq, Structural)]
pub enum RecordOutcome {
    /// Only a modifier was pressed: keep waiting for the key.
    StillRecording,
    /// Recording is over; `added` tells whether a new chord entered the table.
    Finished { added: bool },
}

/// The chord recorded from a key press: the key text's name (as
/// `slint_to_human_readable` gives it) and the modifiers held.
pub open spec fn recorded_chord(text: Seq<char>, ctrl: bool, alt: bool, shift: bool) -> KeyChord {
    KeyChord { key: human_readable_name(text), ctrl, alt, shift }
}

/// Whether the key text is that of a modifier key.
pub open spec fn is_modifier_text(text: Seq<char>) -> bool {
    text == SpecialKey::Control.text() || text == SpecialKey::Shift.text() || text
        == SpecialKey::Alt.text() || text == SpecialKey::Meta.text()
}

impl Shortcuts {
    /// Records a key press as a new chord of the action named `event_name`
    /// (its `{:?}` name). A modifier alone keeps the recording going; any other
    /// key finishes it, adding the chord to the action if the action is in the
    /// table and the chord is not bound to it yet.
    pub fn record(&mut self, event_name: &str, text: &str, ctrl: bool, alt: bool, shift: bool) -> (r:
        RecordOutcome)
        ensures
            is_modifier_text(text@) ==> r == RecordOutcome::StillRecording && final(self)@ == old(
                self,
            )@,
            !is_modifier_text(text@) && none_named(old(self)@, event_name@) ==> r
                == (RecordOutcome::Finished { added: false }) && final(self)@ == old(self)@,
            forall|e: InputEvent|
                !is_modifier_text(text@) && #[trigger] is_first_named(old(self)@, e, event_name@) ==> {
                    let kp = recorded_chord(text@, ctrl, alt, shift);
                    let added = !old(self)@[e].contains(kp);
                    &&& r == (RecordOutcome::Finished { added })
                    &&& final(self)@ == with_chord_added(old(self)@, e, kp)
                },
    {
        if is_modifier(text) {
            return RecordOutcome::StillRecording;
        }
        let target = self.find_event_by_name(event_name);
        match target {
            Some(event) => {
                let keypress = SimultaneousKeypresses {
                    key: slint_to_human_readable(text),
                    ctrl,
                    alt,
                    shift,
                };
                let added = self.add_binding(event, keypress);
                proof {
                    assert forall|e: InputEvent| #[trigger]
                        is_first_named(old(self)@, e, event_name@) implies e == event by {
                        lemma_rank(e);
                        lemma_rank(event);
                        lemma_rank_injective(e, event);
                        if e.rank() < event.rank() {
                        } else if event.rank() < e.rank() {
                        }
                    }
                }
                RecordOutcome::Finished { added }
            },
            None => RecordOutcome::Finished { added: false },
        }
    }
}

/// The chords bound to each action by default.
pub open spec fn default_bindings(e: InputEvent) -> Seq<KeyChord> {
    match e {
        InputEvent::OpenFile => seq![with_ctrl(chord_of_key("O"@))],
        InputEvent::Fullscreen => seq![chord_of_key("F"@)],
        InputEvent::AlwaysOnTop => seq![with_ctrl(chord_of_key("T"@))],
        InputEvent::ToggleThumbnails => seq![chord_of_key("T"@)],
        InputEvent::CropSelection => seq![with_ctrl(chord_of_key("Y"@))],
        InputEvent::Exit => seq![chord_of_key("Esc"@), chord_of_key("Q"@)],
        InputEvent::PreviousImage => seq![chord_of_key("A"@), chord_of_key("Left"@)],
        InputEvent::NextImage => seq![chord_of_key("D"@), chord_of_key("Right"@)],
        InputEvent::ZoomActualSize => seq![chord_of_key("1"@)],
        InputEvent::ResetView => seq![chord_of_key("V"@)],
        InputEvent::Copy => seq![with_ctrl(chord_of_key("C"@))],
        InputEvent::Paste => seq![with_ctrl(chord_of_key("V"@))],
        InputEvent::SaveAs => seq![with_shift(with_ctrl(chord_of_key("S"@)))],
        InputEvent::Resize => seq![chord_of_key("R"@)],
        InputEvent::ColorCorrections => seq![chord_of_key("C"@)],
        InputEvent::Preferences => seq![chord_of_key("P"@)],
        InputEvent::BrowseToFileLocation => seq![with_ctrl(chord_of_key("B"@))],
        InputEvent::ZenMode => seq![chord_of_key("Z"@)],
        InputEvent::PerfectFullscreen => seq![chord_of_key("Return"@)],
        InputEvent::SaveLayout1 => seq![with_shift(chord_of_key("F1"@))],
        InputEvent::SaveLayout2 => seq![with_shift(chord_of_key("F2"@))],
        InputEvent::SaveLayout3 => seq![with_shift(chord_of_key("F3"@))],
        InputEvent::LoadLayout1 => seq![chord_of_key("F1"@)],
        InputEvent::LoadLayout2 => seq![chord_of_key("F2"@)],
        InputEvent::LoadLayout3 => seq![chord_of_key("F3"@)],
    }
}

/// Building a table of default shortcuts.
pub trait ShortcutExt: Sized {
    fn default_keys() -> Self;
}

impl ShortcutExt for Shortcuts {
    /// The default table: every action, with the chords of `default_bindings`.
    fn default_keys() -> (s: Shortcuts)
        ensures
            forall|e: InputEvent| #[trigger] s@.dom().contains(e) && s@[e] == default_bindings(e),
    {
        let mut s = Shortcuts::new();
        s.insert(InputEvent::OpenFile, vec![SimultaneousKeypresses::new("O").ctrl()]);
        s.insert(InputEvent::Fullscreen, vec![SimultaneousKeypresses::new("F")]);
        s.insert(InputEvent::AlwaysOnTop, vec![SimultaneousKeypresses::new("T").ctrl()]);
        s.insert(InputEvent::ToggleThumbnails, vec![SimultaneousKeypresses::new("T")]);
        s.insert(InputEvent::CropSelection, vec![SimultaneousKeypresses::new("Y").ctrl()]);
        s.insert(
            InputEvent::Exit,
            vec![SimultaneousKeypresses::new("Esc"), SimultaneousKeypresses::new("Q")],
        );
        s.insert(
            InputEvent::PreviousImage,
            vec![SimultaneousKeypresses::new("A"), SimultaneousKeypresses::new("Left")],
        );
        s.insert(
            InputEvent::NextImage,
            vec![SimultaneousKeypresses::new("D"), SimultaneousKeypresses::new("Right")],
        );
        s.insert(InputEvent::ZoomActualSize, vec![SimultaneousKeypresses::new("1")]);
        s.insert(InputEvent::ResetView, vec![SimultaneousKeypresses::new("V")]);
        s.insert(InputEvent::Copy, vec![SimultaneousKeypresses::new("C").ctrl()]);
        s.insert(InputEvent::Paste, vec![SimultaneousKeypresses::new("V").ctrl()]);
        s.insert(InputEvent::SaveAs, vec![SimultaneousKeypresses::new("S").ctrl().shift()]);
        s.insert(InputEvent::Resize, vec![SimultaneousKeypresses::new("R")]);
        s.insert(InputEvent::ColorCorrections, vec![SimultaneousKeypresses::new("C")]);
        s.insert(InputEvent::Preferences, vec![SimultaneousKeypresses::new("P")]);
        s.insert(InputEvent::BrowseToFileLocation, vec![SimultaneousKeypresses::new("B").ctrl()]);
        s.insert(InputEvent::ZenMode, vec![SimultaneousKeypresses::new("Z")]);
        s.insert(InputEvent::PerfectFullscreen, vec![SimultaneousKeypresses::new("Return")]);
        s.insert(InputEvent::SaveLayout1, vec![SimultaneousKeypresses::new("F1").shift()]);
        s.insert(InputEvent::SaveLayout2, vec![SimultaneousKeypresses::new("F2").shift()]);
        s.insert(InputEvent::SaveLayout3, vec![SimultaneousKeypresses::new("F3").shift()]);
        s.insert(InputEvent::LoadLayout1, vec![SimultaneousKeypresses::new("F1")]);
        s.insert(InputEvent::LoadLayout2, vec![SimultaneousKeypresses::new("F2")]);
        s.insert(InputEvent::LoadLayout3, vec![SimultaneousKeypresses::new("F3")]);
        s
    }
}

impl Default for Shortcuts {
    /// An empty table.
    fn default() -> (s: Shortcuts)
        ensures
            s@ == Map::<InputEvent, Seq<KeyChord>>::empty(),
    {
        Shortcuts::new()
    }
}

/// A single ASCII character is not a key name of two or more characters.
proof fn lemma_single_char_names(t: Seq<char>)
    requires
        t.len() == 1,
    ensures
        t != "RETURN"@ && t != "ENTER"@ && t != "ESC"@ && t != "ESCAPE"@ && t != "DELETE"@ && t
            != "DEL"@ && t != "BACKSPACE"@ && t != "TAB"@ && t != "SPACE"@ && t != "LEFT"@ && t
            != "RIGHT"@ && t != "UP"@ && t != "DOWN"@ && t != "F1"@ && t != "F2"@ && t != "F3"@ && t
            != "F4"@ && t != "F5"@ && t != "F6"@ && t != "F7"@ && t != "F8"@ && t != "F9"@ && t
            != "F10"@ && t != "F11"@ && t != "F12"@,
{
    reveal_strlit("RETURN");
    reveal_strlit("ENTER");
    reveal_strlit("ESC");
    reveal_strlit("ESCAPE");
    reveal_strlit("DELETE");
    reveal_strlit("DEL");
    reveal_strlit("BACKSPACE");
    reveal_strlit("TAB");
    reveal_strlit("SPACE");
    reveal_strlit("LEFT");
    reveal_strlit("RIGHT");
    reveal_strlit("UP");
    reveal_strlit("DOWN");
    reveal_strlit("F1");
    reveal_strlit("F2");
    reveal_strlit("F3");
    reveal_strlit("F4");
    reveal_strlit("F5");
    reveal_strlit("F6");
    reveal_strlit("F7");
    reveal_strlit("F8");
    reveal_strlit("F9");
    reveal_strlit("F10");
    reveal_strlit("F11");
    reveal_strlit("F12");
}

/// A key press whose text is one ASCII character matches the chord recorded
/// from it.
proof fn lemma_recorded_ascii_chord_matches(text: Seq<char>, ctrl: bool, alt: bool, shift: bool)
    requires
        text.len() == 1,
        is_ascii_chars(text),
    ensures
        chord_matches(recorded_chord(text, ctrl, alt, shift), text, ctrl, alt, shift),
{
    let c = text[0];
    assert(text =~= seq![c]);
    vstd::utf8::is_ascii_chars_encode_utf8(text);
    assert(byte_len(text) == 1);
    reveal_strlit("\r");
    reveal_strlit("\n");
    reveal_strlit("\u{001b}");
    reveal_strlit("\u{007f}");
    reveal_strlit("\u{0008}");
    reveal_strlit("\t");
    reveal_strlit(" ");
    reveal_strlit("\u{f702}");
    reveal_strlit("\u{f060}");
    reveal_strlit("\u{f703}");
    reveal_strlit("\u{f061}");
    reveal_strlit("\u{f700}");
    reveal_strlit("\u{f062}");
    reveal_strlit("\u{f701}");
    reveal_strlit("\u{f063}");
    reveal_strlit("Return");
    reveal_strlit("Esc");
    reveal_strlit("Delete");
    reveal_strlit("Backspace");
    reveal_strlit("Tab");
    reveal_strlit("Space");
    reveal_strlit("RETURN");
    reveal_strlit("ESC");
    reveal_strlit("DELETE");
    reveal_strlit("BACKSPACE");
    reveal_strlit("TAB");
    reveal_strlit("SPACE");
    reveal_strlit("ENTER");
    reveal_strlit("ESCAPE");
    reveal_strlit("DEL");
    reveal_strlit("LEFT");
    reveal_strlit("RIGHT");
    reveal_strlit("UP");
    reveal_strlit("DOWN");
    reveal_strlit("F1");
    reveal_strlit("F2");
    reveal_strlit("F3");
    reveal_strlit("F4");
    reveal_strlit("F5");
    reveal_strlit("F6");
    reveal_strlit("F7");
    reveal_strlit("F8");
    reveal_strlit("F9");
    reveal_strlit("F10");
    reveal_strlit("F11");
    reveal_strlit("F12");
    let lower = lowercase(text);
    assert(lower =~= seq![ascii_lower_char(c)]);
    let name = human_readable_name(text);
    let stored = slint_text_of_name(name);
    assert("\u{001b}"@ =~= SpecialKey::Escape.text());
    assert("\u{007f}"@ =~= SpecialKey::Delete.text());
    assert("\u{0008}"@ =~= SpecialKey::Backspace.text());
    assert("\t"@ =~= SpecialKey::Tab.text());
    assert(" "@ =~= SpecialKey::Space.text());
    assert("\r"@ =~= seq!['\r']);
    assert("\n"@ =~= SpecialKey::Return.text());
    if lower == "\r"@ || lower == "\n"@ || text == SpecialKey::Return.text() {
        assert(name == "Return"@);
        assert(text == "\r"@ || text == "\n"@) by {
            assert(lower[0] == ascii_lower_char(c));
        }
        assert(uppercase(name) =~= "RETURN"@);
        assert(stored == "\r"@);
        assert(key_texts_match(text, stored));
    } else if text == "\u{001b}"@ {
        assert(uppercase(name) =~= "ESC"@);
        assert(key_texts_match(text, stored));
    } else if text == "\u{007f}"@ {
        assert(uppercase(name) =~= "DELETE"@);
        assert("DELETE"@[0] != "RETURN"@[0] && "DELETE"@[0] != "ESCAPE"@[0]);
        assert(key_texts_match(text, stored));
    } else if text == "\u{0008}"@ {
        assert(uppercase(name) =~= "BACKSPACE"@);
        assert(key_texts_match(text, stored));
    } else if text == "\t"@ {
        assert(uppercase(name) =~= "TAB"@);
        assert("TAB"@[0] != "ESC"@[0] && "TAB"@[0] != "DEL"@[0]);
        assert(key_texts_match(text, stored));
    } else if text == " "@ {
        assert(uppercase(name) =~= "SPACE"@);
        assert("SPACE"@[0] != "ENTER"@[0]);
        assert(key_texts_match(text, stored));
    } else {
        assert(c <= '\u{7f}');
        assert forall|k: SpecialKey| (k.code() as u32) > 0x7f implies text != k.text() by {
            assert(k.text()[0] == k.code());
        }
        assert(text != "\u{f702}"@ && text != "\u{f060}"@ && text != "\u{f703}"@ && text
            != "\u{f061}"@ && text != "\u{f700}"@ && text != "\u{f062}"@ && text != "\u{f701}"@
            && text != "\u{f063}"@) by {
            assert("\u{f702}"@[0] == '\u{f702}');
            assert("\u{f060}"@[0] == '\u{f060}');
            assert("\u{f703}"@[0] == '\u{f703}');
            assert("\u{f061}"@[0] == '\u{f061}');
            assert("\u{f700}"@[0] == '\u{f700}');
            assert("\u{f062}"@[0] == '\u{f062}');
            assert("\u{f701}"@[0] == '\u{f701}');
            assert("\u{f063}"@[0] == '\u{f063}');
        }
        assert(text != SpecialKey::Return.text());
        assert(text != SpecialKey::Escape.text());
        assert(text != SpecialKey::Delete.text());
        assert(text != SpecialKey::Backspace.text());
        assert(text != SpecialKey::Tab.text());
        assert(text != SpecialKey::Space.text());
        assert(text != SpecialKey::LeftArrow.text());
        assert(text != SpecialKey::RightArrow.text());
        assert(text != SpecialKey::UpArrow.text());
        assert(text != SpecialKey::DownArrow.text());
        assert(text != SpecialKey::F1.text());
        assert(text != SpecialKey::F2.text());
        assert(text != SpecialKey::F3.text());
        assert(text != SpecialKey::F4.text());
        assert(text != SpecialKey::F5.text());
        assert(text != SpecialKey::F6.text());
        assert(text != SpecialKey::F7.text());
        assert(text != SpecialKey::F8.text());
        assert(text != SpecialKey::F9.text());
        assert(text != SpecialKey::F10.text());
        assert(text != SpecialKey::F11.text());
        assert(text != SpecialKey::F12.text());
        assert(lower != "\r"@);
        assert(lower != "\n"@);
        assert(name == text);
        let up = uppercase(name);
        assert(up.len() == 1);
        lemma_single_char_names(up);
        assert(stored == text);
        assert(key_texts_match(text, stored));
    }
}

/// A key press whose text is one private-use character, other than the
/// four legacy arrow codes, matches the chord recorded from it.
proof fn lemma_recorded_private_use_chord_matches(text: Seq<char>, ctrl: bool, alt: bool, shift: bool)
    requires
        text.len() == 1,
        is_private_use(text[0]),
        text != "\u{f060}"@,
        text != "\u{f061}"@,
        text != "\u{f062}"@,
        text != "\u{f063}"@,
    ensures
        chord_matches(recorded_chord(text, ctrl, alt, shift), text, ctrl, alt, shift),
{
    let c = text[0];
    assert(text =~= seq![c]);
    reveal_strlit("\r");
    reveal_strlit("\n");
    reveal_strlit("\u{001b}");
    reveal_strlit("\u{007f}");
    reveal_strlit("\u{0008}");
    reveal_strlit("\t");
    reveal_strlit(" ");
    reveal_strlit("\u{f702}");
    reveal_strlit("\u{f703}");
    reveal_strlit("\u{f700}");
    reveal_strlit("\u{f701}");
    reveal_strlit("Left");
    reveal_strlit("Right");
    reveal_strlit("Up");
    reveal_strlit("Down");
    reveal_strlit("F1");
    reveal_strlit("F2");
    reveal_strlit("F3");
    reveal_strlit("F4");
    reveal_strlit("F5");
    reveal_strlit("F6");
    reveal_strlit("F7");
    reveal_strlit("F8");
    reveal_strlit("F9");
    reveal_strlit("F10");
    reveal_strlit("F11");
    reveal_strlit("F12");
    reveal_strlit("RETURN");
    reveal_strlit("ENTER");
    reveal_strlit("ESC");
    reveal_strlit("ESCAPE");
    reveal_strlit("DELETE");
    reveal_strlit("DEL");
    reveal_strlit("BACKSPACE");
    reveal_strlit("TAB");
    reveal_strlit("SPACE");
    reveal_strlit("LEFT");
    reveal_strlit("RIGHT");
    reveal_strlit("UP");
    reveal_strlit("DOWN");
    assert(is_plain_text(text));
    assert(lowercase(text) =~= text);
    assert(lowercase(text) != "\r"@ && lowercase(text) != "\n"@);
    assert(text != SpecialKey::Return.text() && text != SpecialKey::Escape.text() && text
        != SpecialKey::Delete.text() && text != SpecialKey::Backspace.text() && text
        != SpecialKey::Tab.text() && text != SpecialKey::Space.text());
    assert(text != "\u{001b}"@ && text != "\u{007f}"@ && text != "\u{0008}"@ && text != "\t"@
        && text != " "@);
    let name = human_readable_name(text);
    let stored = slint_text_of_name(name);
    if text == SpecialKey::LeftArrow.text() {
        assert(name == "Left"@);
        assert(uppercase(name) =~= "LEFT"@);
        assert(stored == "\u{f702}"@);
        assert(stored =~= text);
    } else if text == SpecialKey::RightArrow.text() {
        assert(name == "Right"@);
        assert(uppercase(name) =~= "RIGHT"@);
        assert("RIGHT"@[0] != "ENTER"@[0] && "RIGHT"@[0] != "SPACE"@[0]);
        assert(stored == "\u{f703}"@);
        assert(stored =~= text);
    } else if text == SpecialKey::UpArrow.text() {
        assert(name == "Up"@);
        assert(uppercase(name) =~= "UP"@);
        assert(stored =~= text);
    } else if text == SpecialKey::DownArrow.text() {
        assert(name == "Down"@);
        assert(uppercase(name) =~= "DOWN"@);
        assert("DOWN"@[0] != "LEFT"@[0]);
        assert(stored == "\u{f701}"@);
        assert(stored =~= text);
    } else if text == SpecialKey::F1.text() {
        assert(name == "F1"@);
        assert(uppercase(name) =~= "F1"@);
        assert("F1"@[0] != "UP"@[0]);
        assert(stored == SpecialKey::F1.text());
    } else if text == SpecialKey::F2.text() {
        assert(name == "F2"@);
        assert(uppercase(name) =~= "F2"@);
        assert("F2"@[0] != "UP"@[0] && "F2"@[1] != "F1"@[1]);
        assert(stored == SpecialKey::F2.text());
    } else if text == SpecialKey::F3.text() {
        assert(name == "F3"@);
        assert(uppercase(name) =~= "F3"@);
        assert("F3"@[0] != "UP"@[0] && "F3"@[1] != "F1"@[1] && "F3"@[1] != "F2"@[1]);
        assert(stored == SpecialKey::F3.text());
    } else if text == SpecialKey::F4.text() {
        assert(name == "F4"@);
        assert(uppercase(name) =~= "F4"@);
        assert(
            "F4"@[0] != "UP"@[0]
            && "F4"@[1] != "F1"@[1]
            && "F4"@[1] != "F2"@[1]
            && "F4"@[1] != "F3"@[1]
        );
        assert(stored == SpecialKey::F4.text());
    } else if text == SpecialKey::F5.text() {
        assert(name == "F5"@);
        assert(uppercase(name) =~= "F5"@);
        assert(
            "F5"@[0] != "UP"@[0]
            && "F5"@[1] != "F1"@[1]
            && "F5"@[1] != "F2"@[1]
            && "F5"@[1] != "F3"@[1]
            && "F5"@[1] != "F4"@[1]
        );
        assert(stored == SpecialKey::F5.text());
    } else if text == SpecialKey::F6.text() {
        assert(name == "F6"@);
        assert(uppercase(name) =~= "F6"@);
        assert(
            "F6"@[0] != "UP"@[0]
            && "F6"@[1] != "F1"@[1]
            && "F6"@[1] != "F2"@[1]
            && "F6"@[1] != "F3"@[1]
            && "F6"@[1] != "F4"@[1]
            && "F6"@[1] != "F5"@[1]
        );
        assert(stored == SpecialKey::F6.text());
    } else if text == SpecialKey::F7.text() {
        assert(name == "F7"@);
        assert(uppercase(name) =~= "F7"@);
        assert(
            "F7"@[0] != "UP"@[0]
            && "F7"@[1] != "F1"@[1]
            && "F7"@[1] != "F2"@[1]
            && "F7"@[1] != "F3"@[1]
            && "F7"@[1] != "F4"@[1]
            && "F7"@[1] != "F5"@[1]
            && "F7"@[1] != "F6"@[1]
        );
        assert(stored == SpecialKey::F7.text());
    } else if text == SpecialKey::F8.text() {
        assert(name == "F8"@);
        assert(uppercase(name) =~= "F8"@);
        assert(
            "F8"@[0] != "UP"@[0]
            && "F8"@[1] != "F1"@[1]
            && "F8"@[1] != "F2"@[1]
            && "F8"@[1] != "F3"@[1]
            && "F8"@[1] != "F4"@[1]
            && "F8"@[1] != "F5"@[1]
            && "F8"@[1] != "F6"@[1]
            && "F8"@[1] != "F7"@[1]
        );
        assert(stored == SpecialKey::F8.text());
    } else if text == SpecialKey::F9.text() {
        assert(name == "F9"@);
        assert(uppercase(name) =~= "F9"@);
        assert(
            "F9"@[0] != "UP"@[0]
            && "F9"@[1] != "F1"@[1]
            && "F9"@[1] != "F2"@[1]
            && "F9"@[1] != "F3"@[1]
            && "F9"@[1] != "F4"@[1]
            && "F9"@[1] != "F5"@[1]
            && "F9"@[1] != "F6"@[1]
            && "F9"@[1] != "F7"@[1]
            && "F9"@[1] != "F8"@[1]
        );
        assert(stored == SpecialKey::F9.text());
    } else if text == SpecialKey::F10.text() {
        assert(name == "F10"@);
        assert(uppercase(name) =~= "F10"@);
        assert("F10"@[0] != "ESC"@[0] && "F10"@[0] != "DEL"@[0] && "F10"@[0] != "TAB"@[0]);
        assert(stored == SpecialKey::F10.text());
    } else if text == SpecialKey::F11.text() {
        assert(name == "F11"@);
        assert(uppercase(name) =~= "F11"@);
        assert(
            "F11"@[0] != "ESC"@[0]
            && "F11"@[0] != "DEL"@[0]
            && "F11"@[0] != "TAB"@[0]
            && "F11"@[2] != "F10"@[2]
        );
        assert(stored == SpecialKey::F11.text());
    } else if text == SpecialKey::F12.text() {
        assert(name == "F12"@);
        assert(uppercase(name) =~= "F12"@);
        assert(
            "F12"@[0] != "ESC"@[0]
            && "F12"@[0] != "DEL"@[0]
            && "F12"@[0] != "TAB"@[0]
            && "F12"@[2] != "F10"@[2]
            && "F12"@[2] != "F11"@[2]
        );
        assert(stored == SpecialKey::F12.text());
    } else {
        assert(text != "\u{f702}"@ && text != "\u{f703}"@ && text != "\u{f700}"@ && text
            != "\u{f701}"@);
        assert(name == text);
        let up = uppercase(name);
        assert(up =~= text);
        lemma_single_char_names(up);
        assert(stored == text);
    }
    assert(key_texts_match(text, stored));
}

/// A chord recorded from a key press whose text is one ASCII or private-use
/// character (slint's special keys among them), other than the four legacy
/// arrow codes U+F060 to U+F063, is triggered by that same key press:
/// recording a shortcut and then pressing it again gives a match.
pub proof fn law_recorded_chord_matches_press(text: Seq<char>, ctrl: bool, alt: bool, shift: bool)
    requires
        text.len() == 1,
        is_plain_text(text),
        text != "\u{f060}"@,
        text != "\u{f061}"@,
        text != "\u{f062}"@,
        text != "\u{f063}"@,
    ensures
        chord_matches(recorded_chord(text, ctrl, alt, shift), text, ctrl, alt, shift),
{
    if is_private_use(text[0]) {
        lemma_recorded_private_use_chord_matches(text, ctrl, alt, shift);
    } else {
        assert(is_ascii_chars(text));
        lemma_recorded_ascii_chord_matches(text, ctrl, alt, shift);
    }
}

/// The names of slint's special keys that shortcuts are written with.
pub open spec fn special_key_names() -> Seq<Seq<char>> {
    seq!["Return"@, "Esc"@, "Delete"@, "Backspace"@, "Tab"@, "Space"@, "Left"@, "Right"@, "Up"@, "Down"@, "F1"@, "F2"@, "F3"@, "F4"@, "F5"@, "F6"@, "F7"@, "F8"@, "F9"@, "F10"@, "F11"@, "F12"@]
}

/// A special key's name, turned into slint's text for the key and back,
/// is the same name: `slint_to_human_readable` undoes `human_readable_to_slint`
/// on the names of slint's special keys.
pub proof fn law_special_key_names_round_trip(n: Seq<char>)
    requires
        special_key_names().contains(n),
    ensures
        human_readable_name(slint_text_of_name(n)) == n,
{
    reveal_strlit("BACKSPACE");
    reveal_strlit("Backspace");
    reveal_strlit("DEL");
    reveal_strlit("DELETE");
    reveal_strlit("DOWN");
    reveal_strlit("Delete");
    reveal_strlit("Down");
    reveal_strlit("ENTER");
    reveal_strlit("ESC");
    reveal_strlit("ESCAPE");
    reveal_strlit("Esc");
    reveal_strlit("F1");
    reveal_strlit("F10");
    reveal_strlit("F11");
    reveal_strlit("F12");
    reveal_strlit("F2");
    reveal_strlit("F3");
    reveal_strlit("F4");
    reveal_strlit("F5");
    reveal_strlit("F6");
    reveal_strlit("F7");
    reveal_strlit("F8");
    reveal_strlit("F9");
    reveal_strlit("LEFT");
    reveal_strlit("Left");
    reveal_strlit("RETURN");
    reveal_strlit("RIGHT");
    reveal_strlit("Return");
    reveal_strlit("Right");
    reveal_strlit("SPACE");
    reveal_strlit("Space");
    reveal_strlit("TAB");
    reveal_strlit("Tab");
    reveal_strlit("UP");
    reveal_strlit("Up");
    reveal_strlit("\r");
    reveal_strlit("\n");
    reveal_strlit("\u{001b}");
    reveal_strlit("\u{007f}");
    reveal_strlit("\u{0008}");
    reveal_strlit("\t");
    reveal_strlit(" ");
    reveal_strlit("\u{f702}");
    reveal_strlit("\u{f060}");
    reveal_strlit("\u{f703}");
    reveal_strlit("\u{f061}");
    reveal_strlit("\u{f700}");
    reveal_strlit("\u{f062}");
    reveal_strlit("\u{f701}");
    reveal_strlit("\u{f063}");
    let i = choose|i: int| 0 <= i < special_key_names().len() && special_key_names()[i] == n;
    if i == 0 {
        assert(n == "Return"@);
        assert(uppercase(n) =~= "RETURN"@);
        assert(slint_text_of_name(n) == "\r"@);
        assert(lowercase(slint_text_of_name(n)) =~= slint_text_of_name(n));
        assert(human_readable_name(slint_text_of_name(n)) == n);
    } else if i == 1 {
        assert(n == "Esc"@);
        assert(uppercase(n) =~= "ESC"@);
        assert(slint_text_of_name(n) == "\u{001b}"@);
        assert(lowercase(slint_text_of_name(n)) =~= slint_text_of_name(n));
        assert(
            slint_text_of_name(n)[0] != "\r"@[0]
            && slint_text_of_name(n)[0] != "\n"@[0]
            && slint_text_of_name(n)[0] != SpecialKey::Return.text()[0]
        );
        assert(human_readable_name(slint_text_of_name(n)) == n);
    } else if i == 2 {
        assert(n == "Delete"@);
        assert(uppercase(n) =~= "DELETE"@);
        assert("DELETE"@[0] != "RETURN"@[0] && "DELETE"@[0] != "ESCAPE"@[0]);
        assert(slint_text_of_name(n) == "\u{007f}"@);
        assert(lowercase(slint_text_of_name(n)) =~= slint_text_of_name(n));
        assert(
            slint_text_of_name(n)[0] != "\r"@[0]
            && slint_text_of_name(n)[0] != "\n"@[0]
            && slint_text_of_name(n)[0] != SpecialKey::Return.text()[0]
            && slint_text_of_name(n)[0] != "\u{001b}"@[0]
        );
        assert(human_readable_name(slint_text_of_name(n)) == n);
    } else if i == 3 {
        assert(n == "Backspace"@);
        assert(uppercase(n) =~= "BACKSPACE"@);
        assert(slint_text_of_name(n) == "\u{0008}"@);
        assert(lowercase(slint_text_of_name(n)) =~= slint_text_of_name(n));
        assert(
            slint_text_of_name(n)[0] != "\r"@[0]
            && slint_text_of_name(n)[0] != "\n"@[0]
            && slint_text_of_name(n)[0] != SpecialKey::Return.text()[0]
            && slint_text_of_name(n)[0] != "\u{001b}"@[0]
            && slint_text_of_name(n)[0] != "\u{007f}"@[0]
        );
        assert(human_readable_name(slint_text_of_name(n)) == n);
    } else if i == 4 {
        assert(n == "Tab"@);
        assert(uppercase(n) =~= "TAB"@);
        assert("TAB"@[0] != "ESC"@[0] && "TAB"@[0] != "DEL"@[0]);
        assert(slint_text_of_name(n) == "\t"@);
        assert(lowercase(slint_text_of_name(n)) =~= slint_text_of_name(n));
        assert(
            slint_text_of_name(n)[0] != "\r"@[0]
            && slint_text_of_name(n)[0] != "\n"@[0]
            && slint_text_of_name(n)[0] != SpecialKey::Return.text()[0]
            && slint_text_of_name(n)[0] != "\u{001b}"@[0]
            && slint_text_of_name(n)[0] != "\u{007f}"@[0]
            && slint_text_of_name(n)[0] != "\u{0008}"@[0]
        );
        assert(human_readable_name(slint_text_of_name(n)) == n);
    } else if i == 5 {
        assert(n == "Space"@);
        assert(uppercase(n) =~= "SPACE"@);
        assert("SPACE"@[0] != "ENTER"@[0]);
        assert(slint_text_of_name(n) == " "@);
        assert(lowercase(slint_text_of_name(n)) =~= slint_text_of_name(n));
        assert(
            slint_text_of_name(n)[0] != "\r"@[0]
            && slint_text_of_name(n)[0] != "\n"@[0]
            && slint_text_of_name(n)[0] != SpecialKey::Return.text()[0]
            && slint_text_of_name(n)[0] != "\u{001b}"@[0]
            && slint_text_of_name(n)[0] != "\u{007f}"@[0]
            && slint_text_of_name(n)[0] != "\u{0008}"@[0]
            && slint_text_of_name(n)[0] != "\t"@[0]
        );
        assert(human_readable_name(slint_text_of_name(n)) == n);
    } else if i == 6 {
        assert(n == "Left"@);
        assert(uppercase(n) =~= "LEFT"@);
        assert(slint_text_of_name(n) == "\u{f702}"@);
        assert(lowercase(slint_text_of_name(n)) =~= slint_text_of_name(n));
        assert(
            slint_text_of_name(n)[0] != "\r"@[0]
            && slint_text_of_name(n)[0] != "\n"@[0]
            && slint_text_of_name(n)[0] != SpecialKey::Return.text()[0]
            && slint_text_of_name(n)[0] != "\u{001b}"@[0]
            && slint_text_of_name(n)[0] != "\u{007f}"@[0]
            && slint_text_of_name(n)[0] != "\u{0008}"@[0]
            && slint_text_of_name(n)[0] != "\t"@[0]
            && slint_text_of_name(n)[0] != " "@[0]
        );
        assert(human_readable_name(slint_text_of_name(n)) == n);
    } else if i == 7 {
        assert(n == "Right"@);
        assert(uppercase(n) =~= "RIGHT"@);
        assert("RIGHT"@[0] != "ENTER"@[0] && "RIGHT"@[0] != "SPACE"@[0]);
        assert(slint_text_of_name(n) == "\u{f703}"@);
        assert(lowercase(slint_text_of_name(n)) =~= slint_text_of_name(n));
        assert(
            slint_text_of_name(n)[0] != "\r"@[0]
            && slint_text_of_name(n)[0] != "\n"@[0]
            && slint_text_of_name(n)[0] != SpecialKey::Return.text()[0]
            && slint_text_of_name(n)[0] != "\u{001b}"@[0]
            && slint_text_of_name(n)[0] != "\u{007f}"@[0]
            && slint_text_of_name(n)[0] != "\u{0008}"@[0]
            && slint_text_of_name(n)[0] != "\t"@[0]
            && slint_text_of_name(n)[0] != " "@[0]
            && slint_text_of_name(n)[0] != "\u{f702}"@[0]
            && slint_text_of_name(n)[0] != "\u{f060}"@[0]
        );
        assert(human_readable_name(slint_text_of_name(n)) == n);
    } else if i == 8 {
        assert(n == "Up"@);
        assert(uppercase(n) =~= "UP"@);
        assert(slint_text_of_name(n) == "\u{f700}"@);
        assert(lowercase(slint_text_of_name(n)) =~= slint_text_of_name(n));
        assert(
            slint_text_of_name(n)[0] != "\r"@[0]
            && slint_text_of_name(n)[0] != "\n"@[0]
            && slint_text_of_name(n)[0] != SpecialKey::Return.text()[0]
            && slint_text_of_name(n)[0] != "\u{001b}"@[0]
            && slint_text_of_name(n)[0] != "\u{007f}"@[0]
            && slint_text_of_name(n)[0] != "\u{0008}"@[0]
            && slint_text_of_name(n)[0] != "\t"@[0]
            && slint_text_of_name(n)[0] != " "@[0]
            && slint_text_of_name(n)[0] != "\u{f702}"@[0]
            && slint_text_of_name(n)[0] != "\u{f060}"@[0]
            && slint_text_of_name(n)[0] != "\u{f703}"@[0]
            && slint_text_of_name(n)[0] != "\u{f061}"@[0]
        );
        assert(human_readable_name(slint_text_of_name(n)) == n);
    } else if i == 9 {
        assert(n == "Down"@);
        assert(uppercase(n) =~= "DOWN"@);
        assert("DOWN"@[0] != "LEFT"@[0]);
        assert(slint_text_of_name(n) == "\u{f701}"@);
        assert(lowercase(slint_text_of_name(n)) =~= slint_text_of_name(n));
        assert(
            slint_text_of_name(n)[0] != "\r"@[0]
            && slint_text_of_name(n)[0] != "\n"@[0]
            && slint_text_of_name(n)[0] != SpecialKey::Return.text()[0]
            && slint_text_of_name(n)[0] != "\u{001b}"@[0]
            && slint_text_of_name(n)[0] != "\u{007f}"@[0]
            && slint_text_of_name(n)[0] != "\u{0008}"@[0]
            && slint_text_of_name(n)[0] != "\t"@[0]
            && slint_text_of_name(n)[0] != " "@[0]
            && slint_text_of_name(n)[0] != "\u{f702}"@[0]
            && slint_text_of_name(n)[0] != "\u{f060}"@[0]
            && slint_text_of_name(n)[0] != "\u{f703}"@[0]
            && slint_text_of_name(n)[0] != "\u{f061}"@[0]
            && slint_text_of_name(n)[0] != "\u{f700}"@[0]
            && slint_text_of_name(n)[0] != "\u{f062}"@[0]
        );
        assert(human_readable_name(slint_text_of_name(n)) == n);
    } else if i == 10 {
        assert(n == "F1"@);
        assert(uppercase(n) =~= "F1"@);
        assert("F1"@[0] != "UP"@[0]);
        assert(slint_text_of_name(n) == SpecialKey::F1.text());
        assert(lowercase(slint_text_of_name(n)) =~= slint_text_of_name(n));
        assert(
            slint_text_of_name(n)[0] != "\r"@[0]
            && slint_text_of_name(n)[0] != "\n"@[0]
            && slint_text_of_name(n)[0] != SpecialKey::Return.text()[0]
            && slint_text_of_name(n)[0] != "\u{001b}"@[0]
            && slint_text_of_name(n)[0] != "\u{007f}"@[0]
            && slint_text_of_name(n)[0] != "\u{0008}"@[0]
            && slint_text_of_name(n)[0] != "\t"@[0]
            && slint_text_of_name(n)[0] != " "@[0]
            && slint_text_of_name(n)[0] != "\u{f702}"@[0]
            && slint_text_of_name(n)[0] != "\u{f060}"@[0]
            && slint_text_of_name(n)[0] != "\u{f703}"@[0]
            && slint_text_of_name(n)[0] != "\u{f061}"@[0]
            && slint_text_of_name(n)[0] != "\u{f700}"@[0]
            && slint_text_of_name(n)[0] != "\u{f062}"@[0]
            && slint_text_of_name(n)[0] != "\u{f701}"@[0]
            && slint_text_of_name(n)[0] != "\u{f063}"@[0]
        );
        assert(human_readable_name(slint_text_of_name(n)) == n);
    } else if i == 11 {
        assert(n == "F2"@);
        assert(uppercase(n) =~= "F2"@);
        assert("F2"@[0] != "UP"@[0] && "F2"@[1] != "F1"@[1]);
        assert(slint_text_of_name(n) == SpecialKey::F2.text());
        assert(lowercase(slint_text_of_name(n)) =~= slint_text_of_name(n));
        assert(
            slint_text_of_name(n)[0] != "\r"@[0]
            && slint_text_of_name(n)[0] != "\n"@[0]
            && slint_text_of_name(n)[0] != SpecialKey::Return.text()[0]
            && slint_text_of_name(n)[0] != "\u{001b}"@[0]
            && slint_text_of_name(n)[0] != "\u{007f}"@[0]
            && slint_text_of_name(n)[0] != "\u{0008}"@[0]
            && slint_text_of_name(n)[0] != "\t"@[0]
            && slint_text_of_name(n)[0] != " "@[0]
            && slint_text_of_name(n)[0] != "\u{f702}"@[0]
            && slint_text_of_name(n)[0] != "\u{f060}"@[0]
            && slint_text_of_name(n)[0] != "\u{f703}"@[0]
            && slint_text_of_name(n)[0] != "\u{f061}"@[0]
            && slint_text_of_name(n)[0] != "\u{f700}"@[0]
            && slint_text_of_name(n)[0] != "\u{f062}"@[0]
            && slint_text_of_name(n)[0] != "\u{f701}"@[0]
            && slint_text_of_name(n)[0] != "\u{f063}"@[0]
            && slint_text_of_name(n)[0] != SpecialKey::F1.text()[0]
        );
        assert(human_readable_name(slint_text_of_name(n)) == n);
    } else if i == 12 {
        assert(n == "F3"@);
        assert(uppercase(n) =~= "F3"@);
        assert("F3"@[0] != "UP"@[0] && "F3"@[1] != "F1"@[1] && "F3"@[1] != "F2"@[1]);
        assert(slint_text_of_name(n) == SpecialKey::F3.text());
        assert(lowercase(slint_text_of_name(n)) =~= slint_text_of_name(n));
        assert(
            slint_text_of_name(n)[0] != "\r"@[0]
            && slint_text_of_name(n)[0] != "\n"@[0]
            && slint_text_of_name(n)[0] != SpecialKey::Return.text()[0]
            && slint_text_of_name(n)[0] != "\u{001b}"@[0]
            && slint_text_of_name(n)[0] != "\u{007f}"@[0]
            && slint_text_of_name(n)[0] != "\u{0008}"@[0]
            && slint_text_of_name(n)[0] != "\t"@[0]
            && slint_text_of_name(n)[0] != " "@[0]
            && slint_text_of_name(n)[0] != "\u{f702}"@[0]
            && slint_text_of_name(n)[0] != "\u{f060}"@[0]
            && slint_text_of_name(n)[0] != "\u{f703}"@[0]
            && slint_text_of_name(n)[0] != "\u{f061}"@[0]
            && slint_text_of_name(n)[0] != "\u{f700}"@[0]
            && slint_text_of_name(n)[0] != "\u{f062}"@[0]
            && slint_text_of_name(n)[0] != "\u{f701}"@[0]
            && slint_text_of_name(n)[0] != "\u{f063}"@[0]
            && slint_text_of_name(n)[0] != SpecialKey::F1.text()[0]
            && slint_text_of_name(n)[0] != SpecialKey::F2.text()[0]
        );
        assert(human_readable_name(slint_text_of_name(n)) == n);
    } else if i == 13 {
        assert(n == "F4"@);
        assert(uppercase(n) =~= "F4"@);
        assert(
            "F4"@[0] != "UP"@[0]
            && "F4"@[1] != "F1"@[1]
            && "F4"@[1] != "F2"@[1]
            && "F4"@[1] != "F3"@[1]
        );
        assert(slint_text_of_name(n) == SpecialKey::F4.text());
        assert(lowercase(slint_text_of_name(n)) =~= slint_text_of_name(n));
        assert(
            slint_text_of_name(n)[0] != "\r"@[0]
            && slint_text_of_name(n)[0] != "\n"@[0]
            && slint_text_of_name(n)[0] != SpecialKey::Return.text()[0]
            && slint_text_of_name(n)[0] != "\u{001b}"@[0]
            && slint_text_of_name(n)[0] != "\u{007f}"@[0]
            && slint_text_of_name(n)[0] != "\u{0008}"@[0]
            && slint_text_of_name(n)[0] != "\t"@[0]
            && slint_text_of_name(n)[0] != " "@[0]
            && slint_text_of_name(n)[0] != "\u{f702}"@[0]
            && slint_text_of_name(n)[0] != "\u{f060}"@[0]
            && slint_text_of_name(n)[0] != "\u{f703}"@[0]
            && slint_text_of_name(n)[0] != "\u{f061}"@[0]
            && slint_text_of_name(n)[0] != "\u{f700}"@[0]
            && slint_text_of_name(n)[0] != "\u{f062}"@[0]
            && slint_text_of_name(n)[0] != "\u{f701}"@[0]
            && slint_text_of_name(n)[0] != "\u{f063}"@[0]
            && slint_text_of_name(n)[0] != SpecialKey::F1.text()[0]
            && slint_text_of_name(n)[0] != SpecialKey::F2.text()[0]
            && slint_text_of_name(n)[0] != SpecialKey::F3.text()[0]
        );
        assert(human_readable_name(slint_text_of_name(n)) == n);
    } else if i == 14 {
        assert(n == "F5"@);
        assert(uppercase(n) =~= "F5"@);
        assert(
            "F5"@[0] != "UP"@[0]
            && "F5"@[1] != "F1"@[1]
            && "F5"@[1] != "F2"@[1]
            && "F5"@[1] != "F3"@[1]
            && "F5"@[1] != "F4"@[1]
        );
        assert(slint_text_of_name(n) == SpecialKey::F5.text());
        assert(lowercase(slint_text_of_name(n)) =~= slint_text_of_name(n));
        assert(
            slint_text_of_name(n)[0] != "\r"@[0]
            && slint_text_of_name(n)[0] != "\n"@[0]
            && slint_text_of_name(n)[0] != SpecialKey::Return.text()[0]
            && slint_text_of_name(n)[0] != "\u{001b}"@[0]
            && slint_text_of_name(n)[0] != "\u{007f}"@[0]
            && slint_text_of_name(n)[0] != "\u{0008}"@[0]
            && slint_text_of_name(n)[0] != "\t"@[0]
            && slint_text_of_name(n)[0] != " "@[0]
            && slint_text_of_name(n)[0] != "\u{f702}"@[0]
            && slint_text_of_name(n)[0] != "\u{f060}"@[0]
            && slint_text_of_name(n)[0] != "\u{f703}"@[0]
            && slint_text_of_name(n)[0] != "\u{f061}"@[0]
            && slint_text_of_name(n)[0] != "\u{f700}"@[0]
            && slint_text_of_name(n)[0] != "\u{f062}"@[0]
            && slint_text_of_name(n)[0] != "\u{f701}"@[0]
            && slint_text_of_name(n)[0] != "\u{f063}"@[0]
            && slint_text_of_name(n)[0] != SpecialKey::F1.text()[0]
            && slint_text_of_name(n)[0] != SpecialKey::F2.text()[0]
            && slint_text_of_name(n)[0] != SpecialKey::F3.text()[0]
            && slint_text_of_name(n)[0] != SpecialKey::F4.text()[0]
        );
        assert(human_readable_name(slint_text_of_name(n)) == n);
    } else if i == 15 {
        assert(n == "F6"@);
        assert(uppercase(n) =~= "F6"@);
        assert(
            "F6"@[0] != "UP"@[0]
            && "F6"@[1] != "F1"@[1]
            && "F6"@[1] != "F2"@[1]
            && "F6"@[1] != "F3"@[1]
            && "F6"@[1] != "F4"@[1]
            && "F6"@[1] != "F5"@[1]
        );
        assert(slint_text_of_name(n) == SpecialKey::F6.text());
        assert(lowercase(slint_text_of_name(n)) =~= slint_text_of_name(n));
        assert(
            slint_text_of_name(n)[0] != "\r"@[0]
            && slint_text_of_name(n)[0] != "\n"@[0]
            && slint_text_of_name(n)[0] != SpecialKey::Return.text()[0]
            && slint_text_of_name(n)[0] != "\u{001b}"@[0]
            && slint_text_of_name(n)[0] != "\u{007f}"@[0]
            && slint_text_of_name(n)[0] != "\u{0008}"@[0]
            && slint_text_of_name(n)[0] != "\t"@[0]
            && slint_text_of_name(n)[0] != " "@[0]
            && slint_text_of_name(n)[0] != "\u{f702}"@[0]
            && slint_text_of_name(n)[0] != "\u{f060}"@[0]
            && slint_text_of_name(n)[0] != "\u{f703}"@[0]
            && slint_text_of_name(n)[0] != "\u{f061}"@[0]
            && slint_text_of_name(n)[0] != "\u{f700}"@[0]
            && slint_text_of_name(n)[0] != "\u{f062}"@[0]
            && slint_text_of_name(n)[0] != "\u{f701}"@[0]
            && slint_text_of_name(n)[0] != "\u{f063}"@[0]
            && slint_text_of_name(n)[0] != SpecialKey::F1.text()[0]
            && slint_text_of_name(n)[0] != SpecialKey::F2.text()[0]
            && slint_text_of_name(n)[0] != SpecialKey::F3.text()[0]
            && slint_text_of_name(n)[0] != SpecialKey::F4.text()[0]
            && slint_text_of_name(n)[0] != SpecialKey::F5.text()[0]
        );
        assert(human_readable_name(slint_text_of_name(n)) == n);
    } else if i == 16 {
        assert(n == "F7"@);
        assert(uppercase(n) =~= "F7"@);
        assert(
            "F7"@[0] != "UP"@[0]
            && "F7"@[1] != "F1"@[1]
            && "F7"@[1] != "F2"@[1]
            && "F7"@[1] != "F3"@[1]
            && "F7"@[1] != "F4"@[1]
            && "F7"@[1] != "F5"@[1]
            && "F7"@[1] != "F6"@[1]
        );
        assert(slint_text_of_name(n) == SpecialKey::F7.text());
        assert(lowercase(slint_text_of_name(n)) =~= slint_text_of_name(n));
        assert(
            slint_text_of_name(n)[0] != "\r"@[0]
            && slint_text_of_name(n)[0] != "\n"@[0]
            && slint_text_of_name(n)[0] != SpecialKey::Return.text()[0]
            && slint_text_of_name(n)[0] != "\u{001b}"@[0]
            && slint_text_of_name(n)[0] != "\u{007f}"@[0]
            && slint_text_of_name(n)[0] != "\u{0008}"@[0]
            && slint_text_of_name(n)[0] != "\t"@[0]
            && slint_text_of_name(n)[0] != " "@[0]
            && slint_text_of_name(n)[0] != "\u{f702}"@[0]
            && slint_text_of_name(n)[0] != "\u{f060}"@[0]
            && slint_text_of_name(n)[0] != "\u{f703}"@[0]
            && slint_text_of_name(n)[0] != "\u{f061}"@[0]
            && slint_text_of_name(n)[0] != "\u{f700}"@[0]
            && slint_text_of_name(n)[0] != "\u{f062}"@[0]
            && slint_text_of_name(n)[0] != "\u{f701}"@[0]
            && slint_text_of_name(n)[0] != "\u{f063}"@[0]
            && slint_text_of_name(n)[0] != SpecialKey::F1.text()[0]
            && slint_text_of_name(n)[0] != SpecialKey::F2.text()[0]
            && slint_text_of_name(n)[0] != SpecialKey::F3.text()[0]
            && slint_text_of_name(n)[0] != SpecialKey::F4.text()[0]
            && slint_text_of_name(n)[0] != SpecialKey::F5.text()[0]
            && slint_text_of_name(n)[0] != SpecialKey::F6.text()[0]
        );
        assert(human_readable_name(slint_text_of_name(n)) == n);
    } else if i == 17 {
        assert(n == "F8"@);
        assert(uppercase(n) =~= "F8"@);
        assert(
            "F8"@[0] != "UP"@[0]
            && "F8"@[1] != "F1"@[1]
            && "F8"@[1] != "F2"@[1]
            && "F8"@[1] != "F3"@[1]
            && "F8"@[1] != "F4"@[1]
            && "F8"@[1] != "F5"@[1]
            && "F8"@[1] != "F6"@[1]
            && "F8"@[1] != "F7"@[1]
        );
        assert(slint_text_of_name(n) == SpecialKey::F8.text());
        assert(lowercase(slint_text_of_name(n)) =~= slint_text_of_name(n));
        assert(
            slint_text_of_name(n)[0] != "\r"@[0]
            && slint_text_of_name(n)[0] != "\n"@[0]
            && slint_text_of_name(n)[0] != SpecialKey::Return.text()[0]
            && slint_text_of_name(n)[0] != "\u{001b}"@[0]
            && slint_text_of_name(n)[0] != "\u{007f}"@[0]
            && slint_text_of_name(n)[0] != "\u{0008}"@[0]
            && slint_text_of_name(n)[0] != "\t"@[0]
            && slint_text_of_name(n)[0] != " "@[0]
            && slint_text_of_name(n)[0] != "\u{f702}"@[0]
            && slint_text_of_name(n)[0] != "\u{f060}"@[0]
            && slint_text_of_name(n)[0] != "\u{f703}"@[0]
            && slint_text_of_name(n)[0] != "\u{f061}"@[0]
            && slint_text_of_name(n)[0] != "\u{f700}"@[0]
            && slint_text_of_name(n)[0] != "\u{f062}"@[0]
            && slint_text_of_name(n)[0] != "\u{f701}"@[0]
            && slint_text_of_name(n)[0] != "\u{f063}"@[0]
            && slint_text_of_name(n)[0] != SpecialKey::F1.text()[0]
            && slint_text_of_name(n)[0] != SpecialKey::F2.text()[0]
            && slint_text_of_name(n)[0] != SpecialKey::F3.text()[0]
            && slint_text_of_name(n)[0] != SpecialKey::F4.text()[0]
            && slint_text_of_name(n)[0] != SpecialKey::F5.text()[0]
            && slint_text_of_name(n)[0] != SpecialKey::F6.text()[0]
            && slint_text_of_name(n)[0] != SpecialKey::F7.text()[0]
        );
        assert(human_readable_name(slint_text_of_name(n)) == n);
    } else if i == 18 {
        assert(n == "F9"@);
        assert(uppercase(n) =~= "F9"@);
        assert(
            "F9"@[0] != "UP"@[0]
            && "F9"@[1] != "F1"@[1]
            && "F9"@[1] != "F2"@[1]
            && "F9"@[1] != "F3"@[1]
            && "F9"@[1] != "F4"@[1]
            && "F9"@[1] != "F5"@[1]
            && "F9"@[1] != "F6"@[1]
            && "F9"@[1] != "F7"@[1]
            && "F9"@[1] != "F8"@[1]
        );
        assert(slint_text_of_name(n) == SpecialKey::F9.text());
        assert(lowercase(slint_text_of_name(n)) =~= slint_text_of_name(n));
        assert(
            slint_text_of_name(n)[0] != "\r"@[0]
            && slint_text_of_name(n)[0] != "\n"@[0]
            && slint_text_of_name(n)[0] != SpecialKey::Return.text()[0]
            && slint_text_of_name(n)[0] != "\u{001b}"@[0]
            && slint_text_of_name(n)[0] != "\u{007f}"@[0]
            && slint_text_of_name(n)[0] != "\u{0008}"@[0]
            && slint_text_of_name(n)[0] != "\t"@[0]
            && slint_text_of_name(n)[0] != " "@[0]
            && slint_text_of_name(n)[0] != "\u{f702}"@[0]
            && slint_text_of_name(n)[0] != "\u{f060}"@[0]
            && slint_text_of_name(n)[0] != "\u{f703}"@[0]
            && slint_text_of_name(n)[0] != "\u{f061}"@[0]
            && slint_text_of_name(n)[0] != "\u{f700}"@[0]
            && slint_text_of_name(n)[0] != "\u{f062}"@[0]
            && slint_text_of_name(n)[0] != "\u{f701}"@[0]
            && slint_text_of_name(n)[0] != "\u{f063}"@[0]
            && slint_text_of_name(n)[0] != SpecialKey::F1.text()[0]
            && slint_text_of_name(n)[0] != SpecialKey::F2.text()[0]
            && slint_text_of_name(n)[0] != SpecialKey::F3.text()[0]
            && slint_text_of_name(n)[0] != SpecialKey::F4.text()[0]
            && slint_text_of_name(n)[0] != SpecialKey::F5.text()[0]
            && slint_text_of_name(n)[0] != SpecialKey::F6.text()[0]
            && slint_text_of_name(n)[0] != SpecialKey::F7.text()[0]
            && slint_text_of_name(n)[0] != SpecialKey::F8.text()[0]
        );
        assert(human_readable_name(slint_text_of_name(n)) == n);
    } else if i == 19 {
        assert(n == "F10"@);
        assert(uppercase(n) =~= "F10"@);
        assert("F10"@[0] != "ESC"@[0] && "F10"@[0] != "DEL"@[0] && "F10"@[0] != "TAB"@[0]);
        assert(slint_text_of_name(n) == SpecialKey::F10.text());
        assert(lowercase(slint_text_of_name(n)) =~= slint_text_of_name(n));
        assert(
            slint_text_of_name(n)[0] != "\r"@[0]
            && slint_text_of_name(n)[0] != "\n"@[0]
            && slint_text_of_name(n)[0] != SpecialKey::Return.text()[0]
            && slint_text_of_name(n)[0] != "\u{001b}"@[0]
            && slint_text_of_name(n)[0] != "\u{007f}"@[0]
            && slint_text_of_name(n)[0] != "\u{0008}"@[0]
            && slint_text_of_name(n)[0] != "\t"@[0]
            && slint_text_of_name(n)[0] != " "@[0]
            && slint_text_of_name(n)[0] != "\u{f702}"@[0]
            && slint_text_of_name(n)[0] != "\u{f060}"@[0]
            && slint_text_of_name(n)[0] != "\u{f703}"@[0]
            && slint_text_of_name(n)[0] != "\u{f061}"@[0]
            && slint_text_of_name(n)[0] != "\u{f700}"@[0]
            && slint_text_of_name(n)[0] != "\u{f062}"@[0]
            && slint_text_of_name(n)[0] != "\u{f701}"@[0]
            && slint_text_of_name(n)[0] != "\u{f063}"@[0]
            && slint_text_of_name(n)[0] != SpecialKey::F1.text()[0]
            && slint_text_of_name(n)[0] != SpecialKey::F2.text()[0]
            && slint_text_of_name(n)[0] != SpecialKey::F3.text()[0]
            && slint_text_of_name(n)[0] != SpecialKey::F4.text()[0]
            && slint_text_of_name(n)[0] != SpecialKey::F5.text()[0]
            && slint_text_of_name(n)[0] != SpecialKey::F6.text()[0]
            && slint_text_of_name(n)[0] != SpecialKey::F7.text()[0]
            && slint_text_of_name(n)[0] != SpecialKey::F8.text()[0]
            && slint_text_of_name(n)[0] != SpecialKey::F9.text()[0]
        );
        assert(human_readable_name(slint_text_of_name(n)) == n);
    } else if i == 20 {
        assert(n == "F11"@);
        assert(uppercase(n) =~= "F11"@);
        assert(
            "F11"@[0] != "ESC"@[0]
            && "F11"@[0] != "DEL"@[0]
            && "F11"@[0] != "TAB"@[0]
            && "F11"@[2] != "F10"@[2]
        );
        assert(slint_text_of_name(n) == SpecialKey::F11.text());
        assert(lowercase(slint_text_of_name(n)) =~= slint_text_of_name(n));
        assert(
            slint_text_of_name(n)[0] != "\r"@[0]
            && slint_text_of_name(n)[0] != "\n"@[0]
            && slint_text_of_name(n)[0] != SpecialKey::Return.text()[0]
            && slint_text_of_name(n)[0] != "\u{001b}"@[0]
            && slint_text_of_name(n)[0] != "\u{007f}"@[0]
            && slint_text_of_name(n)[0] != "\u{0008}"@[0]
            && slint_text_of_name(n)[0] != "\t"@[0]
            && slint_text_of_name(n)[0] != " "@[0]
            && slint_text_of_name(n)[0] != "\u{f702}"@[0]
            && slint_text_of_name(n)[0] != "\u{f060}"@[0]
            && slint_text_of_name(n)[0] != "\u{f703}"@[0]
            && slint_text_of_name(n)[0] != "\u{f061}"@[0]
            && slint_text_of_name(n)[0] != "\u{f700}"@[0]
            && slint_text_of_name(n)[0] != "\u{f062}"@[0]
            && slint_text_of_name(n)[0] != "\u{f701}"@[0]
            && slint_text_of_name(n)[0] != "\u{f063}"@[0]
            && slint_text_of_name(n)[0] != SpecialKey::F1.text()[0]
            && slint_text_of_name(n)[0] != SpecialKey::F2.text()[0]
            && slint_text_of_name(n)[0] != SpecialKey::F3.text()[0]
            && slint_text_of_name(n)[0] != SpecialKey::F4.text()[0]
            && slint_text_of_name(n)[0] != SpecialKey::F5.text()[0]
            && slint_text_of_name(n)[0] != SpecialKey::F6.text()[0]
            && slint_text_of_name(n)[0] != SpecialKey::F7.text()[0]
            && slint_text_of_name(n)[0] != SpecialKey::F8.text()[0]
            && slint_text_of_name(n)[0] != SpecialKey::F9.text()[0]
            && slint_text_of_name(n)[0] != SpecialKey::F10.text()[0]
        );
        assert(human_readable_name(slint_text_of_name(n)) == n);
    } else if i == 21 {
        assert(n == "F12"@);
        assert(uppercase(n) =~= "F12"@);
        assert(
            "F12"@[0] != "ESC"@[0]
            && "F12"@[0] != "DEL"@[0]
            && "F12"@[0] != "TAB"@[0]
            && "F12"@[2] != "F10"@[2]
            && "F12"@[2] != "F11"@[2]
        );
        assert(slint_text_of_name(n) == SpecialKey::F12.text());
        assert(lowercase(slint_text_of_name(n)) =~= slint_text_of_name(n));
        assert(
            slint_text_of_name(n)[0] != "\r"@[0]
            && slint_text_of_name(n)[0] != "\n"@[0]
            && slint_text_of_name(n)[0] != SpecialKey::Return.text()[0]
            && slint_text_of_name(n)[0] != "\u{001b}"@[0]
            && slint_text_of_name(n)[0] != "\u{007f}"@[0]
            && slint_text_of_name(n)[0] != "\u{0008}"@[0]
            && slint_text_of_name(n)[0] != "\t"@[0]
            && slint_text_of_name(n)[0] != " "@[0]
            && slint_text_of_name(n)[0] != "\u{f702}"@[0]
            && slint_text_of_name(n)[0] != "\u{f060}"@[0]
            && slint_text_of_name(n)[0] != "\u{f703}"@[0]
            && slint_text_of_name(n)[0] != "\u{f061}"@[0]
            && slint_text_of_name(n)[0] != "\u{f700}"@[0]
            && slint_text_of_name(n)[0] != "\u{f062}"@[0]
            && slint_text_of_name(n)[0] != "\u{f701}"@[0]
            && slint_text_of_name(n)[0] != "\u{f063}"@[0]
            && slint_text_of_name(n)[0] != SpecialKey::F1.text()[0]
            && slint_text_of_name(n)[0] != SpecialKey::F2.text()[0]
            && slint_text_of_name(n)[0] != SpecialKey::F3.text()[0]
            && slint_text_of_name(n)[0] != SpecialKey::F4.text()[0]
            && slint_text_of_name(n)[0] != SpecialKey::F5.text()[0]
            && slint_text_of_name(n)[0] != SpecialKey::F6.text()[0]
            && slint_text_of_name(n)[0] != SpecialKey::F7.text()[0]
            && slint_text_of_name(n)[0] != SpecialKey::F8.text()[0]
            && slint_text_of_name(n)[0] != SpecialKey::F9.text()[0]
            && slint_text_of_name(n)[0] != SpecialKey::F10.text()[0]
            && slint_text_of_name(n)[0] != SpecialKey::F11.text()[0]
        );
        assert(human_readable_name(slint_text_of_name(n)) == n);
    }
}

/// When some action has a chord that the key press triggers, there is a first
/// such action in declaration order, at or before it.
pub proof fn lemma_first_binding_exists(
    m: Map<InputEvent, Seq<KeyChord>>,
    e: InputEvent,
    text: Seq<char>,
    ctrl: bool,
    alt: bool,
    shift: bool,
)
    requires
        event_binds(m, e, text, ctrl, alt, shift),
    ensures
        exists|e2: InputEvent| #[trigger]
            is_first_binding(m, e2, text, ctrl, alt, shift) && e2.rank() <= e.rank(),
    decreases e.rank(),
{
    lemma_rank(e);
    if exists|e2: InputEvent| e2.rank() < e.rank() && event_binds(m, e2, text, ctrl, alt, shift) {
        let e2 = choose|e2: InputEvent|
            e2.rank() < e.rank() && event_binds(m, e2, text, ctrl, alt, shift);
        lemma_first_binding_exists(m, e2, text, ctrl, alt, shift);
    } else {
        assert(is_first_binding(m, e, text, ctrl, alt, shift));
    }
}

/// After a key press whose text is one ASCII or private-use character (other
/// than the four legacy arrow codes U+F060 to U+F063) is recorded for an
/// action of the table (as `Shortcuts::record` and `add_binding` update
/// it), `lookup` of the same key press finds that action or one declared
/// before it.
pub proof fn law_recorded_press_is_found(
    m: Map<InputEvent, Seq<KeyChord>>,
    e: InputEvent,
    text: Seq<char>,
    ctrl: bool,
    alt: bool,
    shift: bool,
)
    requires
        m.dom().contains(e),
        text.len() == 1,
        is_plain_text(text),
        text != "\u{f060}"@,
        text != "\u{f061}"@,
        text != "\u{f062}"@,
        text != "\u{f063}"@,
    ensures
        exists|e2: InputEvent| #[trigger]
            is_first_binding(
                with_chord_added(m, e, recorded_chord(text, ctrl, alt, shift)),
                e2,
                text,
                ctrl,
                alt,
                shift,
            ) && e2.rank() <= e.rank(),
{
    let kp = recorded_chord(text, ctrl, alt, shift);
    let list = if m[e].contains(kp) {
        m[e]
    } else {
        m[e].push(kp)
    };
    law_recorded_chord_matches_press(text, ctrl, alt, shift);
    if m[e].contains(kp) {
        let i = choose|i: int| 0 <= i < m[e].len() && m[e][i] == kp;
        assert(chord_matches(list[i], text, ctrl, alt, shift));
    } else {
        assert(chord_matches(list[m[e].len() as int], text, ctrl, alt, shift));
    }
    let m2 = m.insert(e, list);
    assert(event_binds(m2, e, text, ctrl, alt, shift));
    lemma_first_binding_exists(m2, e, text, ctrl, alt, shift);
    assert(m2 == with_chord_added(m, e, kp));
}

/// One line of the shortcut list shown in the settings window.
pub struct ShortcutRow {
    pub description: String,
    pub event_name: String,
    pub keys: Vec<String>,
}

/// The labels of a list of chords.
pub open spec fn chord_labels(list: Seq<KeyChord>) -> Seq<Seq<char>> {
    list.map_values(|c: KeyChord| chord_label(c))
}

/// The labels of the key presses, as `format` shows them.
fn format_all(list: &Vec<SimultaneousKeypresses>) -> (r: Vec<String>)
    ensures
        r@.len() == list@.len(),
        forall|i: int| 0 <= i < list@.len() ==> #[trigger] r@[i]@ == chord_label(list@[i]@),
{
    let mut out: Vec<String> = Vec::new();
    let mut j: usize = 0;
    while j < list.len()
        invariant
            j <= list.len(),
            out@.len() == j,
            forall|i: int| 0 <= i < j ==> #[trigger] out@[i]@ == chord_label(list@[i]@),
        decreases list.len() - j,
    {
        out.push(list[j].format());
        j = j + 1;
    }
    out
}

impl Shortcuts {
    /// The rows of the shortcut list: one per action of the table, in
    /// declaration order, with the action's description, its name and the
    /// labels of its chords.
    pub fn rows(&self) -> (r: Vec<ShortcutRow>)
        ensures
            r@.len() == present_events(self@).len(),
            forall|i: int|
                0 <= i < r@.len() ==> {
                    let e = present_events(self@)[i];
                    &&& (#[trigger] r@[i]).description@ == e.description_text()
                    &&& r@[i].event_name@ == e.name_text()
                    &&& r@[i].keys@.len() == self@[e].len()
                    &&& forall|j: int|
                        0 <= j < r@[i].keys@.len() ==> #[trigger] r@[i].keys@[j]@ == chord_label(
                            self@[e][j],
                        )
                },
    {
        proof {
            use_type_invariant(self);
        }
        let mut out: Vec<ShortcutRow> = Vec::new();
        let mut r: usize = 0;
        while r < EVENT_COUNT
            invariant
                r <= EVENT_COUNT,
                self.slots@.len() == EVENT_COUNT,
                out@.len() == present_prefix(self@, r as int).len(),
                forall|i: int|
                    0 <= i < out@.len() ==> {
                        let e = present_prefix(self@, r as int)[i];
                        &&& (#[trigger] out@[i]).description@ == e.description_text()
                        &&& out@[i].event_name@ == e.name_text()
                        &&& out@[i].keys@.len() == self@[e].len()
                        &&& forall|j: int|
                            0 <= j < out@[i].keys@.len() ==> #[trigger] out@[i].keys@[j]@
                                == chord_label(self@[e][j])
                    },
            decreases EVENT_COUNT - r,
        {
            let e = InputEvent::at_index(r);
            if let Some(list) = &self.slots[r] {
                let keys = format_all(list);
                let row = ShortcutRow {
                    description: String::from_str(e.description()),
                    event_name: String::from_str(e.name()),
                    keys,
                };
                proof {
                    assert forall|j: int| 0 <= j < keys@.len() implies #[trigger] keys@[j]@
                        == chord_label(self@[e][j]) by {
                        assert(self@[e] == chords(list@));
                        assert(chords(list@)[j] == list@[j]@);
                    }
                }
                out.push(row);
            }
            r = r + 1;
        }
        out
    }
}

/// What a layout shortcut asks for.
#[derive(Clone, Copy, Debug, PartialEq, Eq, Structural)]
pub enum LayoutCommand {
    /// Save the window layout into the slot.
    Save(usize),
    /// Restore the window layout kept in the slot.
    Load(usize),
}

impl InputEvent {
    /// The layout command of the action, if it is one of the layout actions;
    /// slots are numbered from 0.
    pub fn layout_command(&self) -> (r: Option<LayoutCommand>)
        ensures
            r == match *self {
                InputEvent::SaveLayout1 => Some(LayoutCommand::Save(0)),
                InputEvent::SaveLayout2 => Some(LayoutCommand::Save(1)),
                InputEvent::SaveLayout3 => Some(LayoutCommand::Save(2)),
                InputEvent::LoadLayout1 => Some(LayoutCommand::Load(0)),
                InputEvent::LoadLayout2 => Some(LayoutCommand::Load(1)),
                InputEvent::LoadLayout3 => Some(LayoutCommand::Load(2)),
                _ => None,
            },
    {
        match self {
            InputEvent::SaveLayout1 => Some(LayoutCommand::Save(0)),
            InputEvent::SaveLayout2 => Some(LayoutCommand::Save(1)),
            InputEvent::SaveLayout3 => Some(LayoutCommand::Save(2)),
            InputEvent::LoadLayout1 => Some(LayoutCommand::Load(0)),
            InputEvent::LoadLayout2 => Some(LayoutCommand::Load(1)),
            InputEvent::LoadLayout3 => Some(LayoutCommand::Load(2)),
            _ => None,
        }
    }
}

/// What a key text is told apart by when it is matched: a one-byte text by
/// its character in lowercase, with "\n" taken as "\r"; any other text by
/// itself.
pub open spec fn press_class(t: Seq<char>) -> Seq<char> {
    if byte_len(t) == 1 {
        seq![if ascii_lower_char(t[0]) == '\n' { '\r' } else { ascii_lower_char(t[0]) }]
    } else {
        t
    }
}

proof fn lemma_utf8_len_at_least(t: Seq<char>)
    ensures
        byte_len(t) >= t.len(),
    decreases t.len(),
{
    if t.len() > 0 {
        lemma_utf8_len_at_least(t.drop_first());
    }
}

/// A text of one byte is one ASCII character.
proof fn lemma_one_byte(t: Seq<char>)
    requires
        byte_len(t) == 1,
    ensures
        t.len() == 1,
        '\0' <= t[0] <= '\u{7f}',
        is_plain_text(t),
        lowercase(t) == seq![ascii_lower_char(t[0])],
{
    lemma_utf8_len_at_least(t);
    if t.len() == 0 {
        assert(byte_len(t) == 0);
    }
    lemma_utf8_len_at_least(t.drop_first());
    assert(t.drop_first().len() == 0);
    assert(lowercase(t) =~= seq![ascii_lower_char(t[0])]);
}

/// Two key texts that the same press matches are told apart by nothing.
proof fn lemma_match_class(text: Seq<char>, a: Seq<char>)
    requires
        key_texts_match(text, a),
    ensures
        press_class(text) == press_class(a),
{
    reveal_strlit("\r");
    reveal_strlit("\n");
    if text == a {
    } else if byte_len(text) == 1 && byte_len(a) == 1 && lowercase(text) == lowercase(a) {
        lemma_one_byte(text);
        lemma_one_byte(a);
        assert(lowercase(text)[0] == lowercase(a)[0]);
    } else {
        assert((text == "\r"@ || text == "\n"@) && (a == "\r"@ || a == "\n"@));
        vstd::utf8::is_ascii_chars_encode_utf8(a);
        assert(byte_len(a) == 1);
        assert(text[0] == '\r' || text[0] == '\n');
        assert(a[0] == '\r' || a[0] == '\n');
    }
}

/// What tells a chord apart when a press is matched against it: the class
/// of its key's slint text, and its modifiers.
pub open spec fn chord_class(c: KeyChord) -> (Seq<char>, bool, bool, bool) {
    (press_class(slint_text_of_name(c.key)), c.ctrl, c.alt, c.shift)
}

/// A press that triggers a chord has the chord's class.
proof fn lemma_matching_chord_class(c: KeyChord, text: Seq<char>, ctrl: bool, alt: bool, shift: bool)
    requires
        chord_matches(c, text, ctrl, alt, shift),
    ensures
        chord_class(c) == (press_class(text), ctrl, alt, shift),
{
    lemma_match_class(text, slint_text_of_name(c.key));
}

/// The action of the default table whose chord has class `k` (each such
/// class is one character).
spec fn default_event_of_class(k: (Seq<char>, bool, bool, bool)) -> InputEvent {
    if k.0[0] == 'o' && k.1 == true && k.2 == false && k.3 == false {
        InputEvent::OpenFile
    } else if k.0[0] == 'f' && k.1 == false && k.2 == false && k.3 == false {
        InputEvent::Fullscreen
    } else if k.0[0] == 't' && k.1 == true && k.2 == false && k.3 == false {
        InputEvent::AlwaysOnTop
    } else if k.0[0] == 't' && k.1 == false && k.2 == false && k.3 == false {
        InputEvent::ToggleThumbnails
    } else if k.0[0] == 'y' && k.1 == true && k.2 == false && k.3 == false {
        InputEvent::CropSelection
    } else if k.0[0] == '\u{001b}' && k.1 == false && k.2 == false && k.3 == false {
        InputEvent::Exit
    } else if k.0[0] == 'q' && k.1 == false && k.2 == false && k.3 == false {
        InputEvent::Exit
    } else if k.0[0] == 'a' && k.1 == false && k.2 == false && k.3 == false {
        InputEvent::PreviousImage
    } else if k.0[0] == '\u{f702}' && k.1 == false && k.2 == false && k.3 == false {
        InputEvent::PreviousImage
    } else if k.0[0] == 'd' && k.1 == false && k.2 == false && k.3 == false {
        InputEvent::NextImage
    } else if k.0[0] == '\u{f703}' && k.1 == false && k.2 == false && k.3 == false {
        InputEvent::NextImage
    } else if k.0[0] == '1' && k.1 == false && k.2 == false && k.3 == false {
        InputEvent::ZoomActualSize
    } else if k.0[0] == 'v' && k.1 == false && k.2 == false && k.3 == false {
        InputEvent::ResetView
    } else if k.0[0] == 'c' && k.1 == true && k.2 == false && k.3 == false {
        InputEvent::Copy
    } else if k.0[0] == 'v' && k.1 == true && k.2 == false && k.3 == false {
        InputEvent::Paste
    } else if k.0[0] == 's' && k.1 == true && k.2 == false && k.3 == true {
        InputEvent::SaveAs
    } else if k.0[0] == 'r' && k.1 == false && k.2 == false && k.3 == false {
        InputEvent::Resize
    } else if k.0[0] == 'c' && k.1 == false && k.2 == false && k.3 == false {
        InputEvent::ColorCorrections
    } else if k.0[0] == 'p' && k.1 == false && k.2 == false && k.3 == false {
        InputEvent::Preferences
    } else if k.0[0] == 'b' && k.1 == true && k.2 == false && k.3 == false {
        InputEvent::BrowseToFileLocation
    } else if k.0[0] == 'z' && k.1 == false && k.2 == false && k.3 == false {
        InputEvent::ZenMode
    } else if k.0[0] == '\r' && k.1 == false && k.2 == false && k.3 == false {
        InputEvent::PerfectFullscreen
    } else if k.0[0] == '\u{f704}' && k.1 == false && k.2 == false && k.3 == true {
        InputEvent::SaveLayout1
    } else if k.0[0] == '\u{f705}' && k.1 == false && k.2 == false && k.3 == true {
        InputEvent::SaveLayout2
    } else if k.0[0] == '\u{f706}' && k.1 == false && k.2 == false && k.3 == true {
        InputEvent::SaveLayout3
    } else if k.0[0] == '\u{f704}' && k.1 == false && k.2 == false && k.3 == false {
        InputEvent::LoadLayout1
    } else if k.0[0] == '\u{f705}' && k.1 == false && k.2 == false && k.3 == false {
        InputEvent::LoadLayout2
    } else if k.0[0] == '\u{f706}' && k.1 == false && k.2 == false && k.3 == false {
        InputEvent::LoadLayout3
    } else {
        InputEvent::Exit
    }
}

/// A one-character key name that is a capital letter or a digit is its own
/// slint text, and its class is the character in lowercase.
proof fn lemma_plain_key_chord(name: Seq<char>, c: char)
    requires
        name == seq![c],
        ('A' <= c <= 'Z') || ('0' <= c <= '9'),
    ensures
        chord_of_key(name).key == name,
        slint_text_of_name(name) == name,
        press_class(name) == seq![ascii_lower_char(c)],
{
    assert(is_plain_text(name));
    assert(uppercase(name) =~= name);
    lemma_single_char_names(name);
    vstd::utf8::is_ascii_chars_encode_utf8(name);
    assert(byte_len(name) == 1);
}

/// A one-character text outside ASCII is more than one byte.
proof fn lemma_not_one_byte(t: Seq<char>)
    requires
        t.len() == 1,
        t[0] > '\u{7f}',
    ensures
        byte_len(t) != 1,
{
    if byte_len(t) == 1 {
        lemma_one_byte(t);
    }
}

/// Each chord of the default table has a class of its own, which names its
/// action.
proof fn lemma_default_classes(e: InputEvent, i: int)
    requires
        0 <= i < default_bindings(e).len(),
    ensures
        default_event_of_class(chord_class(default_bindings(e)[i])) == e,
{
    reveal_strlit("1");
    reveal_strlit("A");
    reveal_strlit("B");
    reveal_strlit("BACKSPACE");
    reveal_strlit("C");
    reveal_strlit("D");
    reveal_strlit("DEL");
    reveal_strlit("DELETE");
    reveal_strlit("DOWN");
    reveal_strlit("ENTER");
    reveal_strlit("ESC");
    reveal_strlit("ESCAPE");
    reveal_strlit("Esc");
    reveal_strlit("F");
    reveal_strlit("F1");
    reveal_strlit("F2");
    reveal_strlit("F3");
    reveal_strlit("LEFT");
    reveal_strlit("Left");
    reveal_strlit("O");
    reveal_strlit("P");
    reveal_strlit("Q");
    reveal_strlit("R");
    reveal_strlit("RETURN");
    reveal_strlit("RIGHT");
    reveal_strlit("Return");
    reveal_strlit("Right");
    reveal_strlit("S");
    reveal_strlit("SPACE");
    reveal_strlit("T");
    reveal_strlit("TAB");
    reveal_strlit("UP");
    reveal_strlit("V");
    reveal_strlit("Y");
    reveal_strlit("Z");
    reveal_strlit("\r");
    reveal_strlit("\u{001b}");
    reveal_strlit("\u{f702}");
    reveal_strlit("\u{f703}");
    let c = default_bindings(e)[i];
    match e {
        InputEvent::OpenFile => {
            assert("O"@ =~= seq!['O']);
            lemma_plain_key_chord("O"@, 'O');
        },
        InputEvent::Fullscreen => {
            assert("F"@ =~= seq!['F']);
            lemma_plain_key_chord("F"@, 'F');
        },
        InputEvent::AlwaysOnTop => {
            assert("T"@ =~= seq!['T']);
            lemma_plain_key_chord("T"@, 'T');
        },
        InputEvent::ToggleThumbnails => {
            assert("T"@ =~= seq!['T']);
            lemma_plain_key_chord("T"@, 'T');
        },
        InputEvent::CropSelection => {
            assert("Y"@ =~= seq!['Y']);
            lemma_plain_key_chord("Y"@, 'Y');
        },
        InputEvent::Exit => {
            if i == 0 {
                assert(uppercase("Esc"@) =~= "ESC"@);
                assert(uppercase("ESC"@) =~= "ESC"@);
                assert(slint_text_of_name("ESC"@) =~= seq!['\u{001b}']);
                vstd::utf8::is_ascii_chars_encode_utf8(seq!['\u{001b}']);
            }
            if i == 1 {
                assert("Q"@ =~= seq!['Q']);
                lemma_plain_key_chord("Q"@, 'Q');
            }
        },
        InputEvent::PreviousImage => {
            if i == 0 {
                assert("A"@ =~= seq!['A']);
                lemma_plain_key_chord("A"@, 'A');
            }
            if i == 1 {
                assert(uppercase("Left"@) =~= "LEFT"@);
                assert(uppercase("LEFT"@) =~= "LEFT"@);
                assert(slint_text_of_name("LEFT"@) =~= seq!['\u{f702}']);
                lemma_not_one_byte(seq!['\u{f702}']);
            }
        },
        InputEvent::NextImage => {
            if i == 0 {
                assert("D"@ =~= seq!['D']);
                lemma_plain_key_chord("D"@, 'D');
            }
            if i == 1 {
                assert(uppercase("Right"@) =~= "RIGHT"@);
                assert(uppercase("RIGHT"@) =~= "RIGHT"@);
                assert("RIGHT"@[0] != "ENTER"@[0] && "RIGHT"@[0] != "SPACE"@[0]);
                assert(slint_text_of_name("RIGHT"@) =~= seq!['\u{f703}']);
                lemma_not_one_byte(seq!['\u{f703}']);
            }
        },
        InputEvent::ZoomActualSize => {
            assert("1"@ =~= seq!['1']);
            lemma_plain_key_chord("1"@, '1');
        },
        InputEvent::ResetView => {
            assert("V"@ =~= seq!['V']);
            lemma_plain_key_chord("V"@, 'V');
        },
        InputEvent::Copy => {
            assert("C"@ =~= seq!['C']);
            lemma_plain_key_chord("C"@, 'C');
        },
        InputEvent::Paste => {
            assert("V"@ =~= seq!['V']);
            lemma_plain_key_chord("V"@, 'V');
        },
        InputEvent::SaveAs => {
            assert("S"@ =~= seq!['S']);
            lemma_plain_key_chord("S"@, 'S');
        },
        InputEvent::Resize => {
            assert("R"@ =~= seq!['R']);
            lemma_plain_key_chord("R"@, 'R');
        },
        InputEvent::ColorCorrections => {
            assert("C"@ =~= seq!['C']);
            lemma_plain_key_chord("C"@, 'C');
        },
        InputEvent::Preferences => {
            assert("P"@ =~= seq!['P']);
            lemma_plain_key_chord("P"@, 'P');
        },
        InputEvent::BrowseToFileLocation => {
            assert("B"@ =~= seq!['B']);
            lemma_plain_key_chord("B"@, 'B');
        },
        InputEvent::ZenMode => {
            assert("Z"@ =~= seq!['Z']);
            lemma_plain_key_chord("Z"@, 'Z');
        },
        InputEvent::PerfectFullscreen => {
            assert(uppercase("Return"@) =~= "RETURN"@);
            assert(uppercase("RETURN"@) =~= "RETURN"@);
            assert(slint_text_of_name("RETURN"@) =~= seq!['\r']);
            vstd::utf8::is_ascii_chars_encode_utf8(seq!['\r']);
        },
        InputEvent::SaveLayout1 => {
            assert(uppercase("F1"@) =~= "F1"@);
            assert(uppercase("F1"@) =~= "F1"@);
            assert("F1"@[0] != "UP"@[0] && "F1"@[0] != "UP"@[0]);
            assert(slint_text_of_name("F1"@) == SpecialKey::F1.text());
            lemma_not_one_byte(SpecialKey::F1.text());
        },
        InputEvent::SaveLayout2 => {
            assert(uppercase("F2"@) =~= "F2"@);
            assert(uppercase("F2"@) =~= "F2"@);
            assert("F2"@[0] != "UP"@[0] && "F2"@[0] != "UP"@[0] && "F2"@[1] != "F1"@[1]);
            assert(slint_text_of_name("F2"@) == SpecialKey::F2.text());
            lemma_not_one_byte(SpecialKey::F2.text());
        },
        InputEvent::SaveLayout3 => {
            assert(uppercase("F3"@) =~= "F3"@);
            assert(uppercase("F3"@) =~= "F3"@);
            assert("F3"@[0] != "UP"@[0] && "F3"@[0] != "UP"@[0] && "F3"@[1] != "F1"@[1] && "F3"@[1] != "F2"@[1]);
            assert(slint_text_of_name("F3"@) == SpecialKey::F3.text());
            lemma_not_one_byte(SpecialKey::F3.text());
        },
        InputEvent::LoadLayout1 => {
            assert(uppercase("F1"@) =~= "F1"@);
            assert(uppercase("F1"@) =~= "F1"@);
            assert("F1"@[0] != "UP"@[0] && "F1"@[0] != "UP"@[0]);
            assert(slint_text_of_name("F1"@) == SpecialKey::F1.text());
            lemma_not_one_byte(SpecialKey::F1.text());
        },
        InputEvent::LoadLayout2 => {
            assert(uppercase("F2"@) =~= "F2"@);
            assert(uppercase("F2"@) =~= "F2"@);
            assert("F2"@[0] != "UP"@[0] && "F2"@[0] != "UP"@[0] && "F2"@[1] != "F1"@[1]);
            assert(slint_text_of_name("F2"@) == SpecialKey::F2.text());
            lemma_not_one_byte(SpecialKey::F2.text());
        },
        InputEvent::LoadLayout3 => {
            assert(uppercase("F3"@) =~= "F3"@);
            assert(uppercase("F3"@) =~= "F3"@);
            assert("F3"@[0] != "UP"@[0] && "F3"@[0] != "UP"@[0] && "F3"@[1] != "F1"@[1] && "F3"@[1] != "F2"@[1]);
            assert(slint_text_of_name("F3"@) == SpecialKey::F3.text());
            lemma_not_one_byte(SpecialKey::F3.text());
        },
    }
}

/// In the default table a key press triggers at most one action, so which
/// action `lookup` finds does not depend on the order of the actions.
pub proof fn law_default_keys_bind_at_most_one(
    m: Map<InputEvent, Seq<KeyChord>>,
    e1: InputEvent,
    e2: InputEvent,
    text: Seq<char>,
    ctrl: bool,
    alt: bool,
    shift: bool,
)
    requires
        forall|e: InputEvent| #[trigger] m.dom().contains(e) && m[e] == default_bindings(e),
        event_binds(m, e1, text, ctrl, alt, shift),
        event_binds(m, e2, text, ctrl, alt, shift),
    ensures
        e1 == e2,
{
    assert(m.dom().contains(e1) && m[e1] == default_bindings(e1));
    assert(m.dom().contains(e2) && m[e2] == default_bindings(e2));
    let i1 = choose|i: int|
        0 <= i < m[e1].len() && #[trigger] chord_matches(m[e1][i], text, ctrl, alt, shift);
    let i2 = choose|i: int|
        0 <= i < m[e2].len() && #[trigger] chord_matches(m[e2][i], text, ctrl, alt, shift);
    lemma_matching_chord_class(m[e1][i1], text, ctrl, alt, shift);
    lemma_matching_chord_class(m[e2][i2], text, ctrl, alt, shift);
    lemma_default_classes(e1, i1);
    lemma_default_classes(e2, i2);
}

} // verus!
