use voutil::selection::{
    clamp_corner, clamp_resized_corners, clamp_to_image, drag_offset, ordered_rect, ordered_rect_min1,
    resize_corners, Cursor, DragMode, ResizeHandle, SelectionRect, SelectionState, MIN_SELECTION_SIZE,
};

fn rect(x: u32, y: u32, w: u32, h: u32) -> SelectionRect {
    SelectionRect { x, y, w, h }
}

#[test]
fn contains_is_half_open() {
    let r = rect(10, 20, 30, 40);
    assert!(r.contains(10, 20));
    assert!(r.contains(39, 59));
    assert!(!r.contains(40, 20));
    assert!(!r.contains(10, 60));
    assert!(!r.contains(9, 25));
}

#[test]
fn resize_handles_at_corners_and_edges() {
    let r = rect(100, 100, 200, 100);
    assert_eq!(r.get_resize_handle(100, 100, 5), Some(ResizeHandle::TopLeft));
    assert_eq!(r.get_resize_handle(298, 102, 5), Some(ResizeHandle::TopRight));
    assert_eq!(r.get_resize_handle(103, 199, 5), Some(ResizeHandle::BottomLeft));
    assert_eq!(r.get_resize_handle(300, 200, 5), Some(ResizeHandle::BottomRight));
    assert_eq!(r.get_resize_handle(200, 101, 5), Some(ResizeHandle::Top));
    assert_eq!(r.get_resize_handle(200, 198, 5), Some(ResizeHandle::Bottom));
    assert_eq!(r.get_resize_handle(96, 150, 5), Some(ResizeHandle::Left));
    assert_eq!(r.get_resize_handle(304, 150, 5), Some(ResizeHandle::Right));
    assert_eq!(r.get_resize_handle(200, 150, 5), None);
    assert_eq!(r.get_resize_handle(200, 95, 5), None);
    assert_eq!(r.get_resize_handle(200, 101, 0), None);
}

#[test]
fn edge_handle_needs_point_within_span() {
    let r = rect(100, 100, 200, 100);
    assert_eq!(r.get_resize_handle(50, 101, 5), None);
    assert_eq!(r.get_resize_handle(101, 50, 5), None);
}

#[test]
fn clamp_to_image_pixels() {
    assert_eq!(clamp_to_image(-5, 100), 0);
    assert_eq!(clamp_to_image(50, 100), 50);
    assert_eq!(clamp_to_image(150, 100), 99);
    assert_eq!(clamp_to_image(3, 0), u32::MAX);
}

#[test]
fn draw_selection() {
    let mut s = SelectionState::new();
    s.pointer_down(50, 40, 10);
    assert_eq!(s.drag_mode, DragMode::Selecting);
    assert_eq!(s.selection, None);
    s.pointer_drag(10, 90, 100, 80);
    assert_eq!(s.selection, Some(rect(10, 40, 40, 40)));
    s.pointer_drag(500, -20, 100, 80);
    assert_eq!(s.selection, Some(rect(50, 0, 50, 40)));
    s.pointer_up();
    assert_eq!(s.drag_mode, DragMode::Idle);
    assert_eq!(s.selection, Some(rect(50, 0, 50, 40)));
    assert_eq!(s.selection_start_point, None);
}

#[test]
fn small_selection_dropped_on_release() {
    let mut s = SelectionState::new();
    s.pointer_down(10, 10, 2);
    s.pointer_drag(15, 40, 100, 100);
    assert_eq!(s.selection, Some(rect(10, 10, 5, 30)));
    s.pointer_up();
    assert_eq!(s.selection, None);
    assert_eq!(MIN_SELECTION_SIZE, 10);
}

#[test]
fn move_selection_inside_image() {
    let mut s = SelectionState::new();
    s.selection = Some(rect(20, 20, 30, 30));
    s.pointer_down(35, 35, 5);
    assert_eq!(s.drag_mode, DragMode::MovingSelection);
    assert_eq!(s.initial_selection_on_drag, Some(rect(20, 20, 30, 30)));
    s.pointer_drag(45, 30, 100, 100);
    assert_eq!(s.selection, Some(rect(30, 15, 30, 30)));
    s.pointer_drag(500, -500, 100, 100);
    assert_eq!(s.selection, Some(rect(70, 0, 30, 30)));
    s.pointer_drag(35, 35, 100, 100);
    assert_eq!(s.selection, Some(rect(20, 20, 30, 30)));
}

#[test]
fn resize_selection_by_corner() {
    let mut s = SelectionState::new();
    s.selection = Some(rect(20, 20, 30, 30));
    s.pointer_down(50, 50, 5);
    assert_eq!(s.drag_mode, DragMode::ResizingSelection(ResizeHandle::BottomRight));
    s.pointer_drag(70, 60, 100, 100);
    assert_eq!(s.selection, Some(rect(20, 20, 50, 40)));
    s.pointer_drag(0, 0, 100, 100);
    assert_eq!(s.selection, Some(rect(1, 1, 19, 19)));
    s.pointer_drag(20, 20, 100, 100);
    assert_eq!(s.selection, Some(rect(20, 20, 1, 1)));
    s.pointer_drag(1000, 1000, 100, 100);
    assert_eq!(s.selection, Some(rect(20, 20, 80, 80)));
}

#[test]
fn resize_selection_by_left_edge() {
    let mut s = SelectionState::new();
    s.selection = Some(rect(20, 20, 30, 30));
    s.pointer_down(21, 35, 3);
    assert_eq!(s.drag_mode, DragMode::ResizingSelection(ResizeHandle::Left));
    s.pointer_drag(-40, 0, 100, 100);
    assert_eq!(s.selection, Some(rect(0, 20, 50, 30)));
}

#[test]
fn press_outside_starts_new_selection() {
    let mut s = SelectionState::new();
    s.selection = Some(rect(20, 20, 30, 30));
    s.pointer_down(90, 90, 5);
    assert_eq!(s.drag_mode, DragMode::Selecting);
    assert_eq!(s.selection, None);
    assert_eq!(s.selection_start_point, Some((90, 90)));
}

#[test]
fn cursors_over_selection() {
    let mut s = SelectionState::new();
    assert_eq!(s.hover_cursor(5, 5, 3), Cursor::Default);
    s.selection = Some(rect(20, 20, 30, 30));
    assert_eq!(s.hover_cursor(20, 35, 3), Cursor::EwResize);
    assert_eq!(s.hover_cursor(35, 49, 3), Cursor::NsResize);
    assert_eq!(s.hover_cursor(20, 20, 3), Cursor::NwseResize);
    assert_eq!(s.hover_cursor(50, 20, 3), Cursor::NeswResize);
    assert_eq!(s.hover_cursor(35, 35, 3), Cursor::Move);
    assert_eq!(s.hover_cursor(90, 90, 3), Cursor::Default);
    assert_eq!(Cursor::NsResize.name(), "ns-resize");
    assert_eq!(Cursor::Move.name(), "move");
    assert_eq!(Cursor::Default.name(), "default");
}

#[test]
fn aspect_ratio_pieces() {
    assert_eq!(clamp_corner(-3, 50), 0);
    assert_eq!(clamp_corner(70, 50), 50);
    assert_eq!(ordered_rect(30, 5, 10, 25), rect(10, 5, 20, 20));
    assert_eq!(ordered_rect(-4, 0, 0, 0), rect(u32::MAX - 3, 0, 4, 0));
    assert_eq!(drag_offset((10, 20), 15, 5), (5, -15));
    let c = resize_corners(rect(10, 10, 20, 20), ResizeHandle::TopRight, 5, -3);
    assert_eq!(c, (10, 7, 35, 30));
    assert_eq!(clamp_resized_corners((-5, 120, 0, 300), 100, 100), (0, 99, 1, 100));
    assert_eq!(ordered_rect_min1((5, 5, 5, 9)), rect(5, 5, 1, 4));
}

#[test]
fn hit_test_on_selection() {
    let mut s = SelectionState::new();
    assert!(!s.hit_test(5, 5, 3));
    s.selection = Some(rect(20, 20, 30, 30));
    assert!(s.hit_test(21, 21, 3));
    assert!(s.hit_test(35, 35, 3));
    assert!(s.hit_test(51, 35, 3));
    assert!(s.hit_test(35, 18, 3));
    assert!(!s.hit_test(10, 10, 3));
    assert!(!s.hit_test(54, 35, 3));
}
