use slint::platform::Key;
use slint::SharedString;
use voutil::shortcuts::{
    human_readable_to_slint, is_modifier, lookup, slint_to_human_readable, InputEvent, LayoutCommand, RecordOutcome, ShortcutExt, Shortcuts, SimultaneousKeypresses, EVENT_COUNT,
};

const ALL_EVENTS: [InputEvent; 25] = [
    InputEvent::AlwaysOnTop,
    InputEvent::Fullscreen,
    InputEvent::OpenFile,
    InputEvent::NextImage,
    InputEvent::PreviousImage,
    InputEvent::ResetView,
    InputEvent::ZoomActualSize,
    InputEvent::Copy,
    InputEvent::Paste,
    InputEvent::SaveAs,
    InputEvent::CropSelection,
    InputEvent::Resize,
    InputEvent::ColorCorrections,
    InputEvent::Preferences,
    InputEvent::BrowseToFileLocation,
    InputEvent::ZenMode,
    InputEvent::PerfectFullscreen,
    InputEvent::ToggleThumbnails,
    InputEvent::SaveLayout1,
    InputEvent::SaveLayout2,
    InputEvent::SaveLayout3,
    InputEvent::LoadLayout1,
    InputEvent::LoadLayout2,
    InputEvent::LoadLayout3,
    InputEvent::Exit,
];

#[test]
fn descriptions_of_actions() {
    assert_eq!(InputEvent::OpenFile.description(), "Open File");
    assert_eq!(InputEvent::ZoomActualSize.description(), "Zoom to Actual Size (1:1)");
    assert_eq!(InputEvent::PerfectFullscreen.description(), "Fullscreen (Zen + Reset)");
    assert_eq!(InputEvent::Exit.description(), "Quit Application / Close Window");
    assert_eq!(InputEvent::SaveAs.description(), "Save as...");
}

#[test]
fn names_are_debug_names() {
    for e in ALL_EVENTS {
        assert_eq!(e.name(), format!("{:?}", e));
    }
}

#[test]
fn index_follows_declaration_order() {
    for (i, e) in ALL_EVENTS.iter().enumerate() {
        assert_eq!(e.index(), i);
        assert_eq!(InputEvent::at_index(i), *e);
    }
    assert_eq!(ALL_EVENTS.len(), EVENT_COUNT);
    let mut sorted = ALL_EVENTS.to_vec();
    sorted.sort();
    assert_eq!(sorted, ALL_EVENTS.to_vec());
}

#[test]
fn new_uppercases_key() {
    let k = SimultaneousKeypresses::new("o");
    assert_eq!(k.key, "O");
    assert!(!k.ctrl && !k.alt && !k.shift);
    assert_eq!(SimultaneousKeypresses::new("Esc").key, "ESC");
    assert_eq!(SimultaneousKeypresses::new("é").key, "É");
}

#[test]
fn modifier_builders() {
    let k = SimultaneousKeypresses::new("s").ctrl().shift();
    assert!(k.ctrl && k.shift && !k.alt);
    let a = SimultaneousKeypresses::new("x").alt();
    assert!(a.alt && !a.ctrl && !a.shift);
}

#[test]
fn format_labels() {
    assert_eq!(SimultaneousKeypresses::new("s").ctrl().shift().format(), "Ctrl + Shift + S");
    assert_eq!(SimultaneousKeypresses::new("f1").format(), "F1");
    assert_eq!(SimultaneousKeypresses::new("q").ctrl().alt().shift().format(), "Ctrl + Alt + Shift + Q");
    let raw = SimultaneousKeypresses { key: "Return".to_string(), ctrl: false, alt: true, shift: false };
    assert_eq!(raw.format(), "Alt + RETURN");
}

#[test]
fn matches_letters_in_any_case() {
    let k = SimultaneousKeypresses::new("O").ctrl();
    assert!(k.matches("o", true, false, false));
    assert!(k.matches("O", true, false, false));
    assert!(!k.matches("o", false, false, false));
    assert!(!k.matches("o", true, true, false));
    assert!(!k.matches("p", true, false, false));
}

#[test]
fn matches_return_as_cr_or_lf() {
    let k = SimultaneousKeypresses::new("Return");
    assert!(k.matches("\r", false, false, false));
    assert!(k.matches("\n", false, false, false));
    assert!(!k.matches("r", false, false, false));
}

#[test]
fn matches_special_keys() {
    assert!(SimultaneousKeypresses::new("Left").matches("\u{f702}", false, false, false));
    assert!(SimultaneousKeypresses::new("Esc").matches("\u{1b}", false, false, false));
    assert!(SimultaneousKeypresses::new("F1").shift().matches("\u{F704}", false, false, true));
    assert!(SimultaneousKeypresses::new("Space").matches(" ", false, false, false));
    assert!(!SimultaneousKeypresses::new("Left").matches("\u{f060}", false, false, false));
}

#[test]
fn slint_texts_to_names() {
    assert_eq!(slint_to_human_readable("\r"), "Return");
    assert_eq!(slint_to_human_readable("\n"), "Return");
    assert_eq!(slint_to_human_readable("\u{1b}"), "Esc");
    assert_eq!(slint_to_human_readable("\u{7f}"), "Delete");
    assert_eq!(slint_to_human_readable("\u{8}"), "Backspace");
    assert_eq!(slint_to_human_readable("\t"), "Tab");
    assert_eq!(slint_to_human_readable(" "), "Space");
    assert_eq!(slint_to_human_readable("\u{f060}"), "Left");
    assert_eq!(slint_to_human_readable("\u{f703}"), "Right");
    assert_eq!(slint_to_human_readable("\u{f062}"), "Up");
    assert_eq!(slint_to_human_readable("\u{f701}"), "Down");
    assert_eq!(slint_to_human_readable("\u{F704}"), "F1");
    assert_eq!(slint_to_human_readable("\u{F70F}"), "F12");
    assert_eq!(slint_to_human_readable("a"), "a");
    assert_eq!(slint_to_human_readable("ab"), "ab");
}

#[test]
fn names_to_slint_texts() {
    assert_eq!(human_readable_to_slint("Enter"), "\r");
    assert_eq!(human_readable_to_slint("return"), "\r");
    assert_eq!(human_readable_to_slint("esc"), "\u{1b}");
    assert_eq!(human_readable_to_slint("ESCAPE"), "\u{1b}");
    assert_eq!(human_readable_to_slint("del"), "\u{7f}");
    assert_eq!(human_readable_to_slint("Backspace"), "\u{8}");
    assert_eq!(human_readable_to_slint("tab"), "\t");
    assert_eq!(human_readable_to_slint("Space"), " ");
    assert_eq!(human_readable_to_slint("left"), "\u{f702}");
    assert_eq!(human_readable_to_slint("UP"), "\u{f700}");
    assert_eq!(human_readable_to_slint("f1"), "\u{F704}");
    assert_eq!(human_readable_to_slint("F12"), "\u{F70F}");
    assert_eq!(human_readable_to_slint("x"), "x");
    assert_eq!(human_readable_to_slint("Ctrl"), "Ctrl");
}

#[test]
fn special_key_texts_are_slint_texts() {
    assert_eq!(human_readable_to_slint("F5"), SharedString::from(Key::F5).as_str());
    assert_eq!(slint_to_human_readable(SharedString::from(Key::F3).as_str()), "F3");
    assert_eq!(slint_to_human_readable(SharedString::from(Key::Return).as_str()), "Return");
}

#[test]
fn modifiers_are_detected() {
    assert!(is_modifier("\u{11}"));
    assert!(is_modifier("\u{10}"));
    assert!(is_modifier("\u{12}"));
    assert!(is_modifier("\u{17}"));
    assert!(!is_modifier("a"));
    assert!(!is_modifier("\u{13}"));
}

#[test]
fn from_key_names_slint_keys() {
    assert_eq!(SimultaneousKeypresses::from_key(Key::Escape).key, "ESC");
    assert_eq!(SimultaneousKeypresses::from_key(Key::F2).key, "F2");
    assert_eq!(SimultaneousKeypresses::from_key(Key::A).key, "A");
    assert_eq!(SimultaneousKeypresses::from_key_text("\n").key, "RETURN");
}

#[test]
fn default_keys_cover_every_action() {
    let s = Shortcuts::default_keys();
    for e in ALL_EVENTS {
        assert!(s.contains_key(e));
        assert!(!s.get(e).unwrap().is_empty());
    }
    let exit = s.get(InputEvent::Exit).unwrap();
    assert_eq!(exit.len(), 2);
    assert_eq!(exit[0].key, "ESC");
    assert_eq!(exit[1].key, "Q");
    let save_as = &s.get(InputEvent::SaveAs).unwrap()[0];
    assert!(save_as.ctrl && save_as.shift && !save_as.alt);
    assert_eq!(save_as.key, "S");
}

#[test]
fn default_keys_lookup() {
    let s = Shortcuts::default_keys();
    assert_eq!(lookup(&s, "o", true, false, false), Some(InputEvent::OpenFile));
    assert_eq!(lookup(&s, "f", false, false, false), Some(InputEvent::Fullscreen));
    assert_eq!(lookup(&s, "t", true, false, false), Some(InputEvent::AlwaysOnTop));
    assert_eq!(lookup(&s, "t", false, false, false), Some(InputEvent::ToggleThumbnails));
    assert_eq!(lookup(&s, "y", true, false, false), Some(InputEvent::CropSelection));
    assert_eq!(lookup(&s, "\u{1b}", false, false, false), Some(InputEvent::Exit));
    assert_eq!(lookup(&s, "q", false, false, false), Some(InputEvent::Exit));
    assert_eq!(lookup(&s, "a", false, false, false), Some(InputEvent::PreviousImage));
    assert_eq!(lookup(&s, "\u{f702}", false, false, false), Some(InputEvent::PreviousImage));
    assert_eq!(lookup(&s, "d", false, false, false), Some(InputEvent::NextImage));
    assert_eq!(lookup(&s, "\u{f703}", false, false, false), Some(InputEvent::NextImage));
    assert_eq!(lookup(&s, "1", false, false, false), Some(InputEvent::ZoomActualSize));
    assert_eq!(lookup(&s, "v", false, false, false), Some(InputEvent::ResetView));
    assert_eq!(lookup(&s, "c", true, false, false), Some(InputEvent::Copy));
    assert_eq!(lookup(&s, "v", true, false, false), Some(InputEvent::Paste));
    assert_eq!(lookup(&s, "S", true, false, true), Some(InputEvent::SaveAs));
    assert_eq!(lookup(&s, "r", false, false, false), Some(InputEvent::Resize));
    assert_eq!(lookup(&s, "c", false, false, false), Some(InputEvent::ColorCorrections));
    assert_eq!(lookup(&s, "p", false, false, false), Some(InputEvent::Preferences));
    assert_eq!(lookup(&s, "b", true, false, false), Some(InputEvent::BrowseToFileLocation));
    assert_eq!(lookup(&s, "z", false, false, false), Some(InputEvent::ZenMode));
    assert_eq!(lookup(&s, "\n", false, false, false), Some(InputEvent::PerfectFullscreen));
    assert_eq!(lookup(&s, "\r", false, false, false), Some(InputEvent::PerfectFullscreen));
    assert_eq!(lookup(&s, "\u{F704}", false, false, true), Some(InputEvent::SaveLayout1));
    assert_eq!(lookup(&s, "\u{F705}", false, false, true), Some(InputEvent::SaveLayout2));
    assert_eq!(lookup(&s, "\u{F706}", false, false, true), Some(InputEvent::SaveLayout3));
    assert_eq!(lookup(&s, "\u{F704}", false, false, false), Some(InputEvent::LoadLayout1));
    assert_eq!(lookup(&s, "\u{F705}", false, false, false), Some(InputEvent::LoadLayout2));
    assert_eq!(lookup(&s, "\u{F706}", false, false, false), Some(InputEvent::LoadLayout3));
    assert_eq!(lookup(&s, "x", false, false, false), None);
    assert_eq!(lookup(&s, "o", false, false, false), None);
    assert_eq!(lookup(&s, "o", true, true, false), None);
}

#[test]
fn lookup_takes_first_action_in_order() {
    let mut s = Shortcuts::new();
    s.insert(InputEvent::Exit, vec![SimultaneousKeypresses::new("k")]);
    s.insert(InputEvent::Copy, vec![SimultaneousKeypresses::new("K")]);
    assert_eq!(lookup(&s, "k", false, false, false), Some(InputEvent::Copy));
    assert_eq!(lookup(&Shortcuts::new(), "k", false, false, false), None);
}

#[test]
fn insert_replaces_bindings() {
    let mut s = Shortcuts::default_keys();
    s.insert(InputEvent::OpenFile, Vec::new());
    assert!(s.contains_key(InputEvent::OpenFile));
    assert!(s.get(InputEvent::OpenFile).unwrap().is_empty());
    assert_eq!(lookup(&s, "o", true, false, false), None);
}

#[test]
fn empty_table() {
    let s = Shortcuts::default();
    assert!(s.events().is_empty());
    assert!(s.get(InputEvent::Exit).is_none());
    assert!(!s.contains_key(InputEvent::Exit));
    assert!(s.rows().is_empty());
}

#[test]
fn events_in_declaration_order() {
    let mut s = Shortcuts::new();
    s.insert(InputEvent::Exit, Vec::new());
    s.insert(InputEvent::AlwaysOnTop, Vec::new());
    s.insert(InputEvent::Paste, Vec::new());
    assert_eq!(s.events(), vec![InputEvent::AlwaysOnTop, InputEvent::Paste, InputEvent::Exit]);
    assert_eq!(Shortcuts::default_keys().events(), ALL_EVENTS.to_vec());
}

#[test]
fn add_binding_only_once() {
    let mut s = Shortcuts::new();
    assert!(s.add_binding(InputEvent::Copy, SimultaneousKeypresses::new("k")));
    assert!(!s.add_binding(InputEvent::Copy, SimultaneousKeypresses::new("k")));
    assert!(s.add_binding(InputEvent::Copy, SimultaneousKeypresses::new("k").ctrl()));
    assert_eq!(s.get(InputEvent::Copy).unwrap().len(), 2);
}

#[test]
fn record_shortcut_then_press_it() {
    let mut s = Shortcuts::default_keys();
    assert_eq!(s.record("OpenFile", "\u{11}", true, false, false), RecordOutcome::StillRecording);
    assert_eq!(s.record("OpenFile", "k", true, false, false), RecordOutcome::Finished { added: true });
    assert_eq!(lookup(&s, "k", true, false, false), Some(InputEvent::OpenFile));
    assert_eq!(s.get(InputEvent::OpenFile).unwrap()[1].key, "k");
    assert_eq!(s.record("OpenFile", "k", true, false, false), RecordOutcome::Finished { added: false });
    assert_eq!(s.record("NoSuchAction", "k", false, false, false), RecordOutcome::Finished { added: false });
    assert_eq!(lookup(&s, "k", false, false, false), None);
}

#[test]
fn record_special_key_then_press_it() {
    let mut s = Shortcuts::new();
    s.insert(InputEvent::ZenMode, Vec::new());
    assert_eq!(s.record("ZenMode", "\u{F70A}", false, true, false), RecordOutcome::Finished { added: true });
    assert_eq!(s.get(InputEvent::ZenMode).unwrap()[0].key, "F7");
    assert_eq!(lookup(&s, "\u{F70A}", false, true, false), Some(InputEvent::ZenMode));
    assert_eq!(s.record("ZenMode", "\n", false, false, false), RecordOutcome::Finished { added: true });
    assert_eq!(lookup(&s, "\n", false, false, false), Some(InputEvent::ZenMode));
    assert_eq!(lookup(&s, "\r", false, false, false), Some(InputEvent::ZenMode));
}

#[test]
fn find_event_by_name_only_in_table() {
    let mut s = Shortcuts::new();
    assert_eq!(s.find_event_by_name("Copy"), None);
    s.insert(InputEvent::Copy, Vec::new());
    assert_eq!(s.find_event_by_name("Copy"), Some(InputEvent::Copy));
    assert_eq!(s.find_event_by_name("copy"), None);
}

#[test]
fn rows_of_default_keys() {
    let rows = Shortcuts::default_keys().rows();
    assert_eq!(rows.len(), 25);
    assert_eq!(rows[0].description, "Toggle Always on Top");
    assert_eq!(rows[0].event_name, "AlwaysOnTop");
    assert_eq!(rows[0].keys, vec!["Ctrl + T".to_string()]);
    assert_eq!(rows[24].event_name, "Exit");
    assert_eq!(rows[24].keys, vec!["ESC".to_string(), "Q".to_string()]);
    assert_eq!(rows[9].keys, vec!["Ctrl + Shift + S".to_string()]);
}

#[test]
fn layout_commands() {
    assert_eq!(InputEvent::SaveLayout1.layout_command(), Some(LayoutCommand::Save(0)));
    assert_eq!(InputEvent::SaveLayout3.layout_command(), Some(LayoutCommand::Save(2)));
    assert_eq!(InputEvent::LoadLayout2.layout_command(), Some(LayoutCommand::Load(1)));
    assert_eq!(InputEvent::Copy.layout_command(), None);
}

#[test]
fn special_key_names_round_trip() {
    let names = [
        "Return", "Esc", "Delete", "Backspace", "Tab", "Space", "Left", "Right", "Up", "Down", "F1", "F2", "F3", "F4",
        "F5", "F6", "F7", "F8", "F9", "F10", "F11", "F12",
    ];
    for n in names {
        assert_eq!(slint_to_human_readable(&human_readable_to_slint(n)), n);
    }
}

#[test]
fn recorded_special_keys_match_themselves() {
    for key in [Key::LeftArrow, Key::RightArrow, Key::UpArrow, Key::DownArrow, Key::F1, Key::F7, Key::F12, Key::Delete] {
        let text = SharedString::from(key);
        let chord = SimultaneousKeypresses { key: slint_to_human_readable(text.as_str()), ctrl: true, alt: false, shift: false };
        assert!(chord.matches(text.as_str(), true, false, false));
    }
    let legacy = SimultaneousKeypresses { key: slint_to_human_readable("\u{f060}"), ctrl: false, alt: false, shift: false };
    assert!(!legacy.matches("\u{f060}", false, false, false));
}

#[test]
fn default_keys_bind_each_press_once() {
    let table = Shortcuts::default_keys();
    let presses: Vec<String> = ["o", "O", "f", "t", "y", "q", "a", "d", "1", "v", "c", "s", "r", "p", "b", "z", "\r", "\n", "\u{1b}"]
        .iter()
        .map(|s| s.to_string())
        .chain([Key::LeftArrow, Key::RightArrow, Key::F1, Key::F2, Key::F3].iter().map(|k| SharedString::from(*k).to_string()))
        .collect();
    for text in &presses {
        for mods in 0..8u8 {
            let (ctrl, alt, shift) = (mods & 1 != 0, mods & 2 != 0, mods & 4 != 0);
            let hits = ALL_EVENTS
                .iter()
                .filter(|e| table.get(**e).map_or(false, |keys| keys.iter().any(|k| k.matches(text, ctrl, alt, shift))))
                .count();
            assert!(hits <= 1, "{:?} {} {} {}", text, ctrl, alt, shift);
        }
    }
}
