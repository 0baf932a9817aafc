# voutil

The core of Voutil, an image viewer, as a library whose behaviour is stated
in contracts and proved with Verus, and a small command-line front end.

## Layout

- `src/` — the verified library:
  - `shortcuts.rs`, `keys.rs`: the actions, their key chords, the default
    table, looking up a key press, recording a new chord, key names.
  - `selection.rs`: hit tests on a selection and its handles, and the
    pointer state machine that draws, moves and resizes it.
  - `navigation.rs`: stepping to the next or previous image that opens.
  - `library.rs`, `sorting.rs`: which files of a folder are listed, their
    order, the window title, the order of arriving thumbnails.
  - `imaging.rs`: RGBA8 images decoded from file bytes, thumbnails, and the
    edits made to them (flip, rotate, crop, resize) through the `image`
    crate; packing decoded HEIF planes.
  - `naming.rs`: names offered when saving ("name (2).png"), formats and
    encodings.
  - `settings.rs`, `accent.rs`: theme, HEIF decoder limits, the accent
    colour's "#RRGGBB" text.
  - `commands.rs`: what a shortcut of the main window does to the view.
  - `text.rs`: case mapping and decimal writing used by the rest.
- `app/` — the command-line front end: settings files (serde, `dirs-next`),
  reading folders and files, the clipboard, the system theme.
- `tests/` — tests of the library on concrete values.
