//! What a shortcut does to the main window: the window flags it changes and
//! the request it makes.

use vstd::prelude::*;
use vstd::string::StringExecFns;
use crate::shortcuts::InputEvent;
use crate::text::{decimal, u64_to_decimal};

verus! {

/// The main window's display flags that shortcuts change.
#[derive(Clone, Copy, Debug, PartialEq, Eq, Structural)]
pub struct ViewFlags {
    pub fullscreen: bool,
    pub always_on_top: bool,
    pub zen_mode: bool,
    /// Zen mode as it was when the perfect fullscreen was entered.
    pub zen_mode_before_enter: bool,
    pub thumbnails_visible: bool,
}

/// A request to the main window that goes with a shortcut.
#[derive(Clone, Copy, Debug, PartialEq, Eq, Structural)]
pub enum UiRequest {
    Nothing,
    RequestOpenFile,
    ToggleThumbnailWindow,
    SaveLayout(usize),
    LoadLayout(usize),
    CropInPlace,
    ResetView,
    Exit,
    PreviousImage,
    NextImage,
    ViewOneToOne,
    CopyToClipboard,
    PasteFromClipboard,
    SaveAs,
    ShowResize,
    ShowColorCorrection,
    ShowSettings,
    BrowseToFileLocation,
}

/// The flags and request that a shortcut of the main window gives.
pub open spec fn dispatch_spec(event: InputEvent, f: ViewFlags) -> (ViewFlags, UiRequest) {
    match event {
        InputEvent::OpenFile => (f, UiRequest::RequestOpenFile),
        InputEvent::Fullscreen => (ViewFlags { fullscreen: !f.fullscreen, ..f }, UiRequest::Nothing),
        InputEvent::AlwaysOnTop => (ViewFlags { always_on_top: !f.always_on_top, ..f }, UiRequest::Nothing),
        InputEvent::ToggleThumbnails => (f, UiRequest::ToggleThumbnailWindow),
        InputEvent::SaveLayout1 => (f, UiRequest::SaveLayout(0)),
        InputEvent::SaveLayout2 => (f, UiRequest::SaveLayout(1)),
        InputEvent::SaveLayout3 => (f, UiRequest::SaveLayout(2)),
        InputEvent::LoadLayout1 => (f, UiRequest::LoadLayout(0)),
        InputEvent::LoadLayout2 => (f, UiRequest::LoadLayout(1)),
        InputEvent::LoadLayout3 => (f, UiRequest::LoadLayout(2)),
        InputEvent::CropSelection => (f, UiRequest::CropInPlace),
        InputEvent::Exit => if f.fullscreen {
            (ViewFlags { zen_mode: f.zen_mode_before_enter, fullscreen: false, ..f }, UiRequest::ResetView)
        } else if f.thumbnails_visible {
            (f, UiRequest::ToggleThumbnailWindow)
        } else {
            (f, UiRequest::Exit)
        },
        InputEvent::PreviousImage => (f, UiRequest::PreviousImage),
        InputEvent::NextImage => (f, UiRequest::NextImage),
        InputEvent::ZoomActualSize => (f, UiRequest::ViewOneToOne),
        InputEvent::ResetView => (f, UiRequest::ResetView),
        InputEvent::Copy => (f, UiRequest::CopyToClipboard),
        InputEvent::Paste => (f, UiRequest::PasteFromClipboard),
        InputEvent::SaveAs => (f, UiRequest::SaveAs),
        InputEvent::Resize => (f, UiRequest::ShowResize),
        InputEvent::ColorCorrections => (f, UiRequest::ShowColorCorrection),
        InputEvent::Preferences => (f, UiRequest::ShowSettings),
        InputEvent::BrowseToFileLocation => (f, UiRequest::BrowseToFileLocation),
        InputEvent::ZenMode => (ViewFlags { zen_mode: !f.zen_mode, ..f }, UiRequest::Nothing),
        InputEvent::PerfectFullscreen => if f.fullscreen {
            (ViewFlags { zen_mode: f.zen_mode_before_enter, fullscreen: false, ..f }, UiRequest::ResetView)
        } else {
            (
                ViewFlags { zen_mode_before_enter: f.zen_mode, zen_mode: true, fullscreen: true, ..f },
                UiRequest::ResetView,
            )
        },
    }
}

/// What a shortcut of the main window does: the new flags, and the request
/// the window carries out (the view is reset before the flags change).
pub fn dispatch(event: InputEvent, flags: ViewFlags) -> (r: (ViewFlags, UiRequest))
    ensures
        r == dispatch_spec(event, flags),
        event == InputEvent::NextImage ==> r == (flags, UiRequest::NextImage),
        event == InputEvent::PreviousImage ==> r == (flags, UiRequest::PreviousImage),
{
    let f = flags;
    match event {
        InputEvent::OpenFile => (f, UiRequest::RequestOpenFile),
        InputEvent::Fullscreen => (ViewFlags { fullscreen: !f.fullscreen, ..f }, UiRequest::Nothing),
        InputEvent::AlwaysOnTop => (ViewFlags { always_on_top: !f.always_on_top, ..f }, UiRequest::Nothing),
        InputEvent::ToggleThumbnails => (f, UiRequest::ToggleThumbnailWindow),
        InputEvent::SaveLayout1 => (f, UiRequest::SaveLayout(0)),
        InputEvent::SaveLayout2 => (f, UiRequest::SaveLayout(1)),
        InputEvent::SaveLayout3 => (f, UiRequest::SaveLayout(2)),
        InputEvent::LoadLayout1 => (f, UiRequest::LoadLayout(0)),
        InputEvent::LoadLayout2 => (f, UiRequest::LoadLayout(1)),
        InputEvent::LoadLayout3 => (f, UiRequest::LoadLayout(2)),
        InputEvent::CropSelection => (f, UiRequest::CropInPlace),
        InputEvent::Exit => {
            if f.fullscreen {
                (ViewFlags { zen_mode: f.zen_mode_before_enter, fullscreen: false, ..f }, UiRequest::ResetView)
            } else if f.thumbnails_visible {
                (f, UiRequest::ToggleThumbnailWindow)
            } else {
                (f, UiRequest::Exit)
            }
        },
        InputEvent::PreviousImage => (f, UiRequest::PreviousImage),
        InputEvent::NextImage => (f, UiRequest::NextImage),
        InputEvent::ZoomActualSize => (f, UiRequest::ViewOneToOne),
        InputEvent::ResetView => (f, UiRequest::ResetView),
        InputEvent::Copy => (f, UiRequest::CopyToClipboard),
        InputEvent::Paste => (f, UiRequest::PasteFromClipboard),
        InputEvent::SaveAs => (f, UiRequest::SaveAs),
        InputEvent::Resize => (f, UiRequest::ShowResize),
        InputEvent::ColorCorrections => (f, UiRequest::ShowColorCorrection),
        InputEvent::Preferences => (f, UiRequest::ShowSettings),
        InputEvent::BrowseToFileLocation => (f, UiRequest::BrowseToFileLocation),
        InputEvent::ZenMode => (ViewFlags { zen_mode: !f.zen_mode, ..f }, UiRequest::Nothing),
        InputEvent::PerfectFullscreen => {
            if f.fullscreen {
                (ViewFlags { zen_mode: f.zen_mode_before_enter, fullscreen: false, ..f }, UiRequest::ResetView)
            } else {
                (
                    ViewFlags { zen_mode_before_enter: f.zen_mode, zen_mode: true, fullscreen: true, ..f },
                    UiRequest::ResetView,
                )
            }
        },
    }
}

/// Pressing a toggle shortcut (fullscreen, always on top, zen mode) twice
/// gives back the flags it started from.
pub proof fn law_toggles_undo_themselves(event: InputEvent, f: ViewFlags)
    requires
        event == InputEvent::Fullscreen || event == InputEvent::AlwaysOnTop || event
            == InputEvent::ZenMode,
    ensures
        dispatch_spec(event, dispatch_spec(event, f).0).0 == f,
{
}

/// Entering the perfect fullscreen and then leaving it, by the same shortcut
/// or by the exit shortcut, restores fullscreen and zen mode as they were.
pub proof fn law_perfect_fullscreen_round_trip(f: ViewFlags, leave: InputEvent)
    requires
        !f.fullscreen,
        leave == InputEvent::PerfectFullscreen || leave == InputEvent::Exit,
    ensures
        ({
            let inside = dispatch_spec(InputEvent::PerfectFullscreen, f).0;
            let back = dispatch_spec(leave, inside).0;
            &&& inside.fullscreen && inside.zen_mode
            &&& back.fullscreen == f.fullscreen
            &&& back.zen_mode == f.zen_mode
            &&& back.always_on_top == f.always_on_top
            &&& back.thumbnails_visible == f.thumbnails_visible
        }),
{
}

/// What became of a layout shortcut.
#[derive(Clone, Copy, Debug, PartialEq, Eq, Structural)]
pub enum LayoutStatus {
    Saved,
    SaveFailed,
    Loaded,
    Empty,
}

/// The status line for a layout slot: the slot shown from 1, and for a failed
/// save the error's text.
pub open spec fn layout_status_text(slot: nat, status: LayoutStatus, error: Seq<char>) -> Seq<char> {
    let n = decimal(slot + 1);
    match status {
        LayoutStatus::Saved => "Layout "@ + n + " saved."@,
        LayoutStatus::SaveFailed => "Failed to save Layout "@ + n + ": "@ + error,
        LayoutStatus::Loaded => "Layout "@ + n + " loaded."@,
        LayoutStatus::Empty => "Layout "@ + n + " is empty."@,
    }
}

/// The status line shown after a layout shortcut on slot `slot` (counted
/// from 0, shown from 1): "Layout 2 saved.", "Failed to save Layout 2: ...",
/// "Layout 2 loaded." or "Layout 2 is empty.".
pub fn layout_message(slot: usize, status: LayoutStatus, error: &str) -> (r: String)
    requires
        slot < usize::MAX,
    ensures
        r@ == layout_status_text(slot as nat, status, error@),
{
    let n = u64_to_decimal((slot + 1) as u64);
    let mut r = match status {
        LayoutStatus::SaveFailed => String::from_str("Failed to save Layout "),
        _ => String::from_str("Layout "),
    };
    r.append(n.as_str());
    match status {
        LayoutStatus::Saved => r.append(" saved."),
        LayoutStatus::SaveFailed => {
            r.append(": ");
            r.append(error);
        },
        LayoutStatus::Loaded => r.append(" loaded."),
        LayoutStatus::Empty => r.append(" is empty."),
    }
    r
}

/// The navigation shortcuts step in their own direction and leave the
/// window's flags alone: the next-image shortcut requests the next image, the
/// previous-image shortcut the previous one.
pub proof fn law_navigation_requests_its_direction(f: ViewFlags)
    ensures
        dispatch_spec(InputEvent::NextImage, f) == (f, UiRequest::NextImage),
        dispatch_spec(InputEvent::PreviousImage, f) == (f, UiRequest::PreviousImage),
{
}

} // verus!
