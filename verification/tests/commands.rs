use voutil::commands::{dispatch, layout_message, LayoutStatus, UiRequest, ViewFlags};
use voutil::shortcuts::InputEvent;

fn flags() -> ViewFlags {
    ViewFlags {
        fullscreen: false,
        always_on_top: false,
        zen_mode: false,
        zen_mode_before_enter: false,
        thumbnails_visible: false,
    }
}

#[test]
fn toggles() {
    let (f, r) = dispatch(InputEvent::Fullscreen, flags());
    assert!(f.fullscreen);
    assert_eq!(r, UiRequest::Nothing);
    let (g, _) = dispatch(InputEvent::Fullscreen, f);
    assert_eq!(g, flags());
    let (z, _) = dispatch(InputEvent::ZenMode, flags());
    assert!(z.zen_mode);
    let (t, _) = dispatch(InputEvent::AlwaysOnTop, flags());
    assert!(t.always_on_top);
}

#[test]
fn perfect_fullscreen_and_back() {
    let start = ViewFlags { zen_mode: false, ..flags() };
    let (inside, r) = dispatch(InputEvent::PerfectFullscreen, start);
    assert_eq!(r, UiRequest::ResetView);
    assert!(inside.fullscreen && inside.zen_mode && !inside.zen_mode_before_enter);
    let (back, r2) = dispatch(InputEvent::Exit, inside);
    assert_eq!(r2, UiRequest::ResetView);
    assert!(!back.fullscreen && !back.zen_mode);
    let (back2, _) = dispatch(InputEvent::PerfectFullscreen, inside);
    assert!(!back2.fullscreen && !back2.zen_mode);
}

#[test]
fn exit_steps() {
    let (_, r) = dispatch(InputEvent::Exit, flags());
    assert_eq!(r, UiRequest::Exit);
    let (_, r) = dispatch(InputEvent::Exit, ViewFlags { thumbnails_visible: true, ..flags() });
    assert_eq!(r, UiRequest::ToggleThumbnailWindow);
}

#[test]
fn plain_requests() {
    assert_eq!(dispatch(InputEvent::OpenFile, flags()).1, UiRequest::RequestOpenFile);
    assert_eq!(dispatch(InputEvent::SaveLayout2, flags()).1, UiRequest::SaveLayout(1));
    assert_eq!(dispatch(InputEvent::LoadLayout3, flags()).1, UiRequest::LoadLayout(2));
    assert_eq!(dispatch(InputEvent::ZoomActualSize, flags()).1, UiRequest::ViewOneToOne);
    assert_eq!(dispatch(InputEvent::Resize, flags()).1, UiRequest::ShowResize);
    assert_eq!(dispatch(InputEvent::Copy, flags()).0, flags());
}

#[test]
fn layout_messages() {
    assert_eq!(layout_message(0, LayoutStatus::Saved, ""), "Layout 1 saved.");
    assert_eq!(layout_message(1, LayoutStatus::Loaded, ""), "Layout 2 loaded.");
    assert_eq!(layout_message(2, LayoutStatus::Empty, ""), "Layout 3 is empty.");
    assert_eq!(layout_message(9, LayoutStatus::SaveFailed, "disk full"), "Failed to save Layout 10: disk full");
}
