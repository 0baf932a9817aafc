//! Editing a rectangular selection on the image with the pointer: hit tests
//! on the selection and its resize handles, and the drag state machine.

use vstd::prelude::*;

verus! {

/// The value that `v as i32` gives: the two's complement reading of `v`'s bits.
pub open spec fn wrap_i32(v: u32) -> int {
    if v <= i32::MAX {
        v as int
    } else {
        v - 0x1_0000_0000
    }
}

/// The value that `v as u32` gives for an `i32` value `v`.
pub open spec fn wrap_u32(v: int) -> int {
    if v >= 0 {
        v
    } else {
        v + 0x1_0000_0000
    }
}

/// `v as i32`.
pub fn u32_as_i32(v: u32) -> (r: i32)
    ensures
        r == wrap_i32(v),
{
    if v <= 0x7fff_ffff {
        v as i32
    } else {
        ((v - 0x8000_0000) as i32) - 0x4000_0000 - 0x4000_0000
    }
}

/// `v as u32`.
pub fn i32_as_u32(v: i32) -> (r: u32)
    ensures
        r == wrap_u32(v as int),
{
    if v >= 0 {
        v as u32
    } else {
        ((v + 0x4000_0000 + 0x4000_0000) as u32) + 0x8000_0000
    }
}

pub open spec fn abs(d: int) -> int {
    if d < 0 {
        -d
    } else {
        d
    }
}

/// `d.abs()` does not overflow on `d`.
pub open spec fn abs_fits(d: int) -> bool {
    i32::MIN < d <= i32::MAX
}

fn abs_i32(d: i32) -> (r: i32)
    requires
        d != i32::MIN,
    ensures
        r == abs(d as int),
{
    if d < 0 {
        -d
    } else {
        d
    }
}

/// A rectangle on the image, in pixels.
#[derive(Default, Clone, Copy, Debug, PartialEq, Eq, Structural)]
pub struct SelectionRect {
    pub x: u32,
    pub y: u32,
    pub w: u32,
    pub h: u32,
}

/// A handle by which a selection is resized: an edge or a corner.
#[derive(Clone, Copy, Debug, PartialEq, Eq, Structural)]
pub enum ResizeHandle {
    Top,
    Bottom,
    Left,
    Right,
    TopLeft,
    TopRight,
    BottomLeft,
    BottomRight,
}

/// What a pointer drag is doing.
#[derive(Clone, Copy, Debug, PartialEq, Eq, Structural)]
pub enum DragMode {
    Idle,
    Selecting,
    MovingSelection,
    ResizingSelection(ResizeHandle),
}

impl Default for DragMode {
    /// No drag.
    fn default() -> (r: DragMode)
        ensures
            r == DragMode::Idle,
    {
        DragMode::Idle
    }
}

impl SelectionRect {
    /// The rectangle covers the point: `x <= px < x + w` and `y <= py < y + h`.
    pub open spec fn covers(self, px: u32, py: u32) -> bool {
        px >= self.x && px < self.x + self.w && py >= self.y && py < self.y + self.h
    }

    /// `contains` computes `x + w` and `y + h` without overflow on this point.
    pub open spec fn contains_defined(self, px: u32, py: u32) -> bool {
        &&& px >= self.x ==> self.x + self.w <= u32::MAX
        &&& (px >= self.x && px < self.x + self.w && py >= self.y) ==> self.y + self.h <= u32::MAX
    }

    /// Whether the rectangle covers the point.
    pub fn contains(&self, px: u32, py: u32) -> (r: bool)
        requires
            self.contains_defined(px, py),
        ensures
            r == self.covers(px, py),
    {
        px >= self.x && px < self.x + self.w && py >= self.y && py < self.y + self.h
    }

    /// `get_resize_handle` computes its distances without overflow: the far
    /// edges fit in `u32` and no difference overflows or is `i32::MIN`.
    pub open spec fn handle_query_defined(self, px: u32, py: u32) -> bool {
        &&& self.x + self.w <= u32::MAX
        &&& self.y + self.h <= u32::MAX
        &&& abs_fits(wrap_i32(px) - wrap_i32(self.x))
        &&& abs_fits(wrap_i32(px) - wrap_i32((self.x + self.w) as u32))
        &&& abs_fits(wrap_i32(py) - wrap_i32(self.y))
        &&& abs_fits(wrap_i32(py) - wrap_i32((self.y + self.h) as u32))
    }

    /// The handle under the point, with distances taken as `i32` values (as
    /// the `as i32` casts give them) and compared with the tolerance: corners
    /// first, then edges within the rectangle's span.
    pub open spec fn handle_at(self, px: u32, py: u32, tolerance: u32) -> Option<ResizeHandle> {
        let t = wrap_i32(tolerance);
        let on_left = abs(wrap_i32(px) - wrap_i32(self.x)) < t;
        let on_right = abs(wrap_i32(px) - wrap_i32((self.x + self.w) as u32)) < t;
        let on_top = abs(wrap_i32(py) - wrap_i32(self.y)) < t;
        let on_bottom = abs(wrap_i32(py) - wrap_i32((self.y + self.h) as u32)) < t;
        let within_horizontal = px >= self.x && px <= self.x + self.w;
        let within_vertical = py >= self.y && py <= self.y + self.h;
        if on_top && on_left {
            Some(ResizeHandle::TopLeft)
        } else if on_top && on_right {
            Some(ResizeHandle::TopRight)
        } else if on_bottom && on_left {
            Some(ResizeHandle::BottomLeft)
        } else if on_bottom && on_right {
            Some(ResizeHandle::BottomRight)
        } else if on_top && within_horizontal {
            Some(ResizeHandle::Top)
        } else if on_bottom && within_horizontal {
            Some(ResizeHandle::Bottom)
        } else if on_left && within_vertical {
            Some(ResizeHandle::Left)
        } else if on_right && within_vertical {
            Some(ResizeHandle::Right)
        } else {
            None
        }
    }

    /// The resize handle within `tolerance` pixels of the point, if any.
    pub fn get_resize_handle(&self, px: u32, py: u32, tolerance: u32) -> (r: Option<ResizeHandle>)
        requires
            self.handle_query_defined(px, py),
        ensures
            r == self.handle_at(px, py, tolerance),
    {
        let right = self.x + self.w;
        let bottom = self.y + self.h;
        let px_i = u32_as_i32(px);
        let py_i = u32_as_i32(py);
        let t = u32_as_i32(tolerance);
        let on_left = abs_i32(px_i - u32_as_i32(self.x)) < t;
        let on_right = abs_i32(px_i - u32_as_i32(right)) < t;
        let on_top = abs_i32(py_i - u32_as_i32(self.y)) < t;
        let on_bottom = abs_i32(py_i - u32_as_i32(bottom)) < t;

        let within_horizontal = px >= self.x && px <= right;
        let within_vertical = py >= self.y && py <= bottom;

        if on_top && on_left {
            Some(ResizeHandle::TopLeft)
        } else if on_top && on_right {
            Some(ResizeHandle::TopRight)
        } else if on_bottom && on_left {
            Some(ResizeHandle::BottomLeft)
        } else if on_bottom && on_right {
            Some(ResizeHandle::BottomRight)
        } else if on_top && within_horizontal {
            Some(ResizeHandle::Top)
        } else if on_bottom && within_horizontal {
            Some(ResizeHandle::Bottom)
        } else if on_left && within_vertical {
            Some(ResizeHandle::Left)
        } else if on_right && within_vertical {
            Some(ResizeHandle::Right)
        } else {
            None
        }
    }
}

pub open spec fn max(a: int, b: int) -> int {
    if a >= b {
        a
    } else {
        b
    }
}

pub open spec fn min(a: int, b: int) -> int {
    if a <= b {
        a
    } else {
        b
    }
}

/// `v.max(lo).min(hi)`.
pub open spec fn bound(v: int, lo: int, hi: int) -> int {
    min(max(v, lo), hi)
}

/// `v.clamp(lo, hi)`, for `lo <= hi`.
pub open spec fn clamp(v: int, lo: int, hi: int) -> int {
    if v < lo {
        lo
    } else if v > hi {
        hi
    } else {
        v
    }
}

pub open spec fn fits_i32(v: int) -> bool {
    i32::MIN <= v <= i32::MAX
}

/// `v.max(lo).min(hi)` on `i32`.
fn bound_i32(v: i32, lo: i32, hi: i32) -> (r: i32)
    ensures
        r == bound(v as int, lo as int, hi as int),
{
    let a = if v >= lo {
        v
    } else {
        lo
    };
    if a <= hi {
        a
    } else {
        hi
    }
}

/// Turns a pointer position in image pixels (possibly outside the image) into
/// a pixel of the image: `v.max(0).min(size as i32 - 1) as u32`.
pub fn clamp_to_image(v: i32, size: u32) -> (r: u32)
    requires
        wrap_i32(size) > i32::MIN,
    ensures
        r == wrap_u32(bound(v as int, 0, wrap_i32(size) - 1)),
{
    let hi = u32_as_i32(size) - 1;
    i32_as_u32(bound_i32(v, 0, hi))
}

/// The rectangle spanned by two corners given in any order.
pub open spec fn rect_from_corners(x1: int, y1: int, x2: int, y2: int) -> SelectionRect {
    SelectionRect {
        x: wrap_u32(min(x1, x2)) as u32,
        y: wrap_u32(min(y1, y2)) as u32,
        w: abs(x2 - x1) as u32,
        h: abs(y2 - y1) as u32,
    }
}

/// The selection drawn from the start point to the pointer, when no aspect
/// ratio is imposed: both corners clamped into `0..=size`, then ordered.
pub open spec fn drawn_rect(start: (u32, u32), ux: i32, uy: i32, img_w: u32, img_h: u32) -> SelectionRect {
    rect_from_corners(
        clamp(wrap_i32(start.0), 0, img_w as int),
        clamp(wrap_i32(start.1), 0, img_h as int),
        clamp(ux as int, 0, img_w as int),
        clamp(uy as int, 0, img_h as int),
    )
}

/// The selection moved by the pointer's offset from where the drag began,
/// kept from leaving the image on the left and top and, as far as its size
/// allows, on the right and bottom.
pub open spec fn moved_rect(
    initial: SelectionRect,
    mouse: (u32, u32),
    ux: i32,
    uy: i32,
    img_w: u32,
    img_h: u32,
) -> SelectionRect {
    let dx = ux - wrap_i32(mouse.0);
    let dy = uy - wrap_i32(mouse.1);
    SelectionRect {
        x: min(max(wrap_i32(initial.x) + dx, 0), if img_w >= initial.w { img_w - initial.w } else { 0 }) as u32,
        y: min(max(wrap_i32(initial.y) + dy, 0), if img_h >= initial.h { img_h - initial.h } else { 0 }) as u32,
        w: initial.w,
        h: initial.h,
    }
}

/// The moving drag computes without overflow.
pub open spec fn move_defined(initial: SelectionRect, mouse: (u32, u32), ux: i32, uy: i32) -> bool {
    let dx = ux - wrap_i32(mouse.0);
    let dy = uy - wrap_i32(mouse.1);
    &&& fits_i32(dx)
    &&& fits_i32(dy)
    &&& fits_i32(wrap_i32(initial.x) + dx)
    &&& fits_i32(wrap_i32(initial.y) + dy)
}

/// The corners `(x1, y1, x2, y2)` of the selection after its handle is
/// dragged by `(dx, dy)`.
pub open spec fn resized_corners(initial: SelectionRect, handle: ResizeHandle, dx: int, dy: int) -> (
    int,
    int,
    int,
    int,
) {
    let x1 = wrap_i32(initial.x);
    let y1 = wrap_i32(initial.y);
    let x2 = wrap_i32((initial.x + initial.w) as u32);
    let y2 = wrap_i32((initial.y + initial.h) as u32);
    match handle {
        ResizeHandle::Left => (x1 + dx, y1, x2, y2),
        ResizeHandle::Right => (x1, y1, x2 + dx, y2),
        ResizeHandle::Top => (x1, y1 + dy, x2, y2),
        ResizeHandle::Bottom => (x1, y1, x2, y2 + dy),
        ResizeHandle::TopLeft => (x1 + dx, y1 + dy, x2, y2),
        ResizeHandle::TopRight => (x1, y1 + dy, x2 + dx, y2),
        ResizeHandle::BottomLeft => (x1 + dx, y1, x2, y2 + dy),
        ResizeHandle::BottomRight => (x1, y1, x2 + dx, y2 + dy),
    }
}

/// The corners of a resized selection clamped into the image: the first
/// corner into `0..=size - 1`, the second into `1..=size`.
pub open spec fn clamped_corners(c: (int, int, int, int), img_w: u32, img_h: u32) -> (int, int, int, int) {
    (
        bound(c.0, 0, wrap_i32((img_w - 1) as u32)),
        bound(c.1, 0, wrap_i32((img_h - 1) as u32)),
        bound(c.2, 1, wrap_i32(img_w)),
        bound(c.3, 1, wrap_i32(img_h)),
    )
}

/// The rectangle spanned by two corners given in any order, at least one
/// pixel wide and high.
pub open spec fn rect_from_corners_min1(c: (int, int, int, int)) -> SelectionRect {
    SelectionRect {
        x: wrap_u32(min(c.0, c.2)) as u32,
        y: wrap_u32(min(c.1, c.3)) as u32,
        w: wrap_u32(max(abs(c.2 - c.0), 1)) as u32,
        h: wrap_u32(max(abs(c.3 - c.1), 1)) as u32,
    }
}

/// The selection after its handle is dragged, when no aspect ratio is imposed.
pub open spec fn resized_rect(
    initial: SelectionRect,
    handle: ResizeHandle,
    mouse: (u32, u32),
    ux: i32,
    uy: i32,
    img_w: u32,
    img_h: u32,
) -> SelectionRect {
    let dx = ux - wrap_i32(mouse.0);
    let dy = uy - wrap_i32(mouse.1);
    rect_from_corners_min1(clamped_corners(resized_corners(initial, handle, dx, dy), img_w, img_h))
}

/// The resizing drag computes without overflow or underflow.
pub open spec fn resize_defined(
    initial: SelectionRect,
    handle: ResizeHandle,
    mouse: (u32, u32),
    ux: i32,
    uy: i32,
    img_w: u32,
    img_h: u32,
) -> bool {
    let dx = ux - wrap_i32(mouse.0);
    let dy = uy - wrap_i32(mouse.1);
    let c = resized_corners(initial, handle, dx, dy);
    let k = clamped_corners(c, img_w, img_h);
    &&& fits_i32(dx)
    &&& fits_i32(dy)
    &&& initial.x + initial.w <= u32::MAX
    &&& initial.y + initial.h <= u32::MAX
    &&& fits_i32(c.0) && fits_i32(c.1) && fits_i32(c.2) && fits_i32(c.3)
    &&& fits_i32(c.2 - c.0) && fits_i32(c.3 - c.1)
    &&& img_w >= 1 && img_h >= 1
    &&& abs_fits(k.2 - k.0) && abs_fits(k.3 - k.1)
}

/// The mouse cursor shown over the image.
#[derive(Clone, Copy, Debug, PartialEq, Eq, Structural)]
pub enum Cursor {
    Default,
    Move,
    NsResize,
    EwResize,
    NwseResize,
    NeswResize,
}

impl Cursor {
    pub open spec fn name_text(self) -> Seq<char> {
        match self {
            Cursor::Default => "default"@,
            Cursor::Move => "move"@,
            Cursor::NsResize => "ns-resize"@,
            Cursor::EwResize => "ew-resize"@,
            Cursor::NwseResize => "nwse-resize"@,
            Cursor::NeswResize => "nesw-resize"@,
        }
    }

    /// The cursor's CSS name.
    pub fn name(&self) -> (r: &str)
        ensures
            r@ == self.name_text(),
    {
        match self {
            Cursor::Default => "default",
            Cursor::Move => "move",
            Cursor::NsResize => "ns-resize",
            Cursor::EwResize => "ew-resize",
            Cursor::NwseResize => "nwse-resize",
            Cursor::NeswResize => "nesw-resize",
        }
    }
}

/// The cursor that shows how a handle resizes.
pub open spec fn handle_cursor(h: ResizeHandle) -> Cursor {
    match h {
        ResizeHandle::Top | ResizeHandle::Bottom => Cursor::NsResize,
        ResizeHandle::Left | ResizeHandle::Right => Cursor::EwResize,
        ResizeHandle::TopLeft | ResizeHandle::BottomRight => Cursor::NwseResize,
        ResizeHandle::TopRight | ResizeHandle::BottomLeft => Cursor::NeswResize,
    }
}

/// Smallest width and height a selection keeps when the pointer is released.
pub const MIN_SELECTION_SIZE: u32 = 10;

/// The selection and the drag under way.
pub struct SelectionState {
    pub selection: Option<SelectionRect>,
    pub drag_mode: DragMode,
    pub selection_start_point: Option<(u32, u32)>,
    pub initial_selection_on_drag: Option<SelectionRect>,
    pub initial_mouse_on_drag: Option<(u32, u32)>,
}

impl SelectionState {
    /// No selection and no drag.
    pub fn new() -> (s: Self)
        ensures
            s.selection is None,
            s.drag_mode == DragMode::Idle,
            s.selection_start_point is None,
            s.initial_selection_on_drag is None,
            s.initial_mouse_on_drag is None,
    {
        SelectionState {
            selection: None,
            drag_mode: DragMode::Idle,
            selection_start_point: None,
            initial_selection_on_drag: None,
            initial_mouse_on_drag: None,
        }
    }

    /// The queries that a press at `(x, y)` makes on the current selection
    /// compute without overflow.
    pub open spec fn press_defined(self, x: u32, y: u32) -> bool {
        self.selection matches Some(s) ==> s.handle_query_defined(x, y) && s.contains_defined(x, y)
    }

    /// The pointer is pressed on pixel `(x, y)`: a press on a handle of the
    /// selection starts resizing it, a press inside it starts moving it, and
    /// any other press drops it and starts drawing a new one from there.
    pub fn pointer_down(&mut self, x: u32, y: u32, tolerance: u32)
        requires
            old(self).press_defined(x, y),
        ensures
            match old(self).selection {
                Some(s) if s.handle_at(x, y, tolerance) is Some => {
                    &&& final(self).drag_mode == DragMode::ResizingSelection(s.handle_at(x, y, tolerance)->0)
                    &&& final(self).initial_selection_on_drag == Some(s)
                    &&& final(self).initial_mouse_on_drag == Some((x, y))
                    &&& final(self).selection == old(self).selection
                    &&& final(self).selection_start_point == old(self).selection_start_point
                },
                Some(s) if s.covers(x, y) => {
                    &&& final(self).drag_mode == DragMode::MovingSelection
                    &&& final(self).initial_selection_on_drag == Some(s)
                    &&& final(self).initial_mouse_on_drag == Some((x, y))
                    &&& final(self).selection == old(self).selection
                    &&& final(self).selection_start_point == old(self).selection_start_point
                },
                _ => {
                    &&& final(self).drag_mode == DragMode::Selecting
                    &&& final(self).selection is None
                    &&& final(self).selection_start_point == Some((x, y))
                    &&& final(self).initial_selection_on_drag == old(self).initial_selection_on_drag
                    &&& final(self).initial_mouse_on_drag == old(self).initial_mouse_on_drag
                },
            },
    {
        if let Some(selection) = self.selection {
            if let Some(handle) = selection.get_resize_handle(x, y, tolerance) {
                self.drag_mode = DragMode::ResizingSelection(handle);
                self.initial_selection_on_drag = Some(selection);
                self.initial_mouse_on_drag = Some((x, y));
                return;
            } else if selection.contains(x, y) {
                self.drag_mode = DragMode::MovingSelection;
                self.initial_selection_on_drag = Some(selection);
                self.initial_mouse_on_drag = Some((x, y));
                return;
            }
        }
        self.drag_mode = DragMode::Selecting;
        self.selection = None;
        self.selection_start_point = Some((x, y));
    }

    /// The pointer is released: the drag ends, and a selection narrower or
    /// lower than `MIN_SELECTION_SIZE` is dropped.
    pub fn pointer_up(&mut self)
        ensures
            final(self).drag_mode == DragMode::Idle,
            final(self).selection_start_point is None,
            final(self).initial_selection_on_drag is None,
            final(self).initial_mouse_on_drag is None,
            final(self).selection matches Some(s) ==> s.w >= MIN_SELECTION_SIZE && s.h
                >= MIN_SELECTION_SIZE,
            final(self).selection == match old(self).selection {
                Some(s) => if s.w < MIN_SELECTION_SIZE || s.h < MIN_SELECTION_SIZE {
                    None
                } else {
                    Some(s)
                },
                None => None,
            },
    {
        if let Some(selection) = self.selection {
            if selection.w < MIN_SELECTION_SIZE || selection.h < MIN_SELECTION_SIZE {
                self.selection = None;
            }
        }
        self.drag_mode = DragMode::Idle;
        self.selection_start_point = None;
        self.initial_selection_on_drag = None;
        self.initial_mouse_on_drag = None;
    }

    /// The cursor to show over pixel `(x, y)` when no drag is under way.
    pub fn hover_cursor(&self, x: u32, y: u32, tolerance: u32) -> (r: Cursor)
        requires
            self.press_defined(x, y),
        ensures
            r == match self.selection {
                Some(s) => match s.handle_at(x, y, tolerance) {
                    Some(h) => handle_cursor(h),
                    None => if s.covers(x, y) {
                        Cursor::Move
                    } else {
                        Cursor::Default
                    },
                },
                None => Cursor::Default,
            },
    {
        if let Some(selection) = self.selection {
            if let Some(handle) = selection.get_resize_handle(x, y, tolerance) {
                match handle {
                    ResizeHandle::Top | ResizeHandle::Bottom => Cursor::NsResize,
                    ResizeHandle::Left | ResizeHandle::Right => Cursor::EwResize,
                    ResizeHandle::TopLeft | ResizeHandle::BottomRight => Cursor::NwseResize,
                    ResizeHandle::TopRight | ResizeHandle::BottomLeft => Cursor::NeswResize,
                }
            } else if selection.contains(x, y) {
                Cursor::Move
            } else {
                Cursor::Default
            }
        } else {
            Cursor::Default
        }
    }

    /// Whether a press at pixel `(x, y)` would grab the selection: it lands
    /// on one of its resize handles or inside it.
    pub fn hit_test(&self, x: u32, y: u32, tolerance: u32) -> (r: bool)
        requires
            self.press_defined(x, y),
        ensures
            r == match self.selection {
                Some(s) => s.handle_at(x, y, tolerance) is Some || s.covers(x, y),
                None => false,
            },
    {
        if let Some(selection) = self.selection {
            selection.get_resize_handle(x, y, tolerance).is_some() || selection.contains(x, y)
        } else {
            false
        }
    }
}

/// `v.clamp(lo, hi)` on `i32`.
fn clamp_i32(v: i32, lo: i32, hi: i32) -> (r: i32)
    requires
        lo <= hi,
    ensures
        r == clamp(v as int, lo as int, hi as int),
{
    if v < lo {
        lo
    } else if v > hi {
        hi
    } else {
        v
    }
}

/// Clamps a corner coordinate of a drawn selection into `0..=size`:
/// `v.clamp(0, size as i32)`.
pub fn clamp_corner(v: i32, size: u32) -> (r: i32)
    requires
        size <= i32::MAX,
    ensures
        r == clamp(v as int, 0, size as int),
{
    clamp_i32(v, 0, size as i32)
}

/// The rectangle spanned by two corners given in any order: the corners are
/// swapped into order, the left and top ones give the position (`as u32`) and
/// the differences the size.
pub fn ordered_rect(x1: i32, y1: i32, x2: i32, y2: i32) -> (r: SelectionRect)
    requires
        abs_fits(x2 - x1),
        abs_fits(y2 - y1),
    ensures
        r == rect_from_corners(x1 as int, y1 as int, x2 as int, y2 as int),
{
    let (lx, rx) = if x1 > x2 {
        (x2, x1)
    } else {
        (x1, x2)
    };
    let (ty, by) = if y1 > y2 {
        (y2, y1)
    } else {
        (y1, y2)
    };
    SelectionRect { x: i32_as_u32(lx), y: i32_as_u32(ty), w: (rx - lx) as u32, h: (by - ty) as u32 }
}

/// The corners of the selection after its handle is dragged by `(dx, dy)`.
pub fn resize_corners(initial: SelectionRect, handle: ResizeHandle, dx: i32, dy: i32) -> (r: (
    i32,
    i32,
    i32,
    i32,
))
    requires
        initial.x + initial.w <= u32::MAX,
        initial.y + initial.h <= u32::MAX,
        ({
            let c = resized_corners(initial, handle, dx as int, dy as int);
            fits_i32(c.0) && fits_i32(c.1) && fits_i32(c.2) && fits_i32(c.3)
        }),
    ensures
        (r.0 as int, r.1 as int, r.2 as int, r.3 as int) == resized_corners(
            initial,
            handle,
            dx as int,
            dy as int,
        ),
{
    let mut x1 = u32_as_i32(initial.x);
    let mut y1 = u32_as_i32(initial.y);
    let mut x2 = u32_as_i32(initial.x + initial.w);
    let mut y2 = u32_as_i32(initial.y + initial.h);
    match handle {
        ResizeHandle::Left => {
            x1 = x1 + dx;
        },
        ResizeHandle::Right => {
            x2 = x2 + dx;
        },
        ResizeHandle::Top => {
            y1 = y1 + dy;
        },
        ResizeHandle::Bottom => {
            y2 = y2 + dy;
        },
        ResizeHandle::TopLeft => {
            x1 = x1 + dx;
            y1 = y1 + dy;
        },
        ResizeHandle::TopRight => {
            x2 = x2 + dx;
            y1 = y1 + dy;
        },
        ResizeHandle::BottomLeft => {
            x1 = x1 + dx;
            y2 = y2 + dy;
        },
        ResizeHandle::BottomRight => {
            x2 = x2 + dx;
            y2 = y2 + dy;
        },
    }
    (x1, y1, x2, y2)
}

/// Clamps the corners of a resized selection into the image: the first
/// corner into `0..=size - 1`, the second into `1..=size`.
pub fn clamp_resized_corners(c: (i32, i32, i32, i32), img_w: u32, img_h: u32) -> (r: (
    i32,
    i32,
    i32,
    i32,
))
    requires
        img_w >= 1,
        img_h >= 1,
    ensures
        (r.0 as int, r.1 as int, r.2 as int, r.3 as int) == clamped_corners(
            (c.0 as int, c.1 as int, c.2 as int, c.3 as int),
            img_w,
            img_h,
        ),
{
    (
        bound_i32(c.0, 0, u32_as_i32(img_w - 1)),
        bound_i32(c.1, 0, u32_as_i32(img_h - 1)),
        bound_i32(c.2, 1, u32_as_i32(img_w)),
        bound_i32(c.3, 1, u32_as_i32(img_h)),
    )
}

/// The rectangle spanned by two corners given in any order, at least one
/// pixel wide and high.
pub fn ordered_rect_min1(c: (i32, i32, i32, i32)) -> (r: SelectionRect)
    requires
        abs_fits(c.2 - c.0),
        abs_fits(c.3 - c.1),
    ensures
        r == rect_from_corners_min1((c.0 as int, c.1 as int, c.2 as int, c.3 as int)),
{
    let (x1, y1, x2, y2) = c;
    let (lx, rx) = if x1 > x2 {
        (x2, x1)
    } else {
        (x1, x2)
    };
    let (ty, by) = if y1 > y2 {
        (y2, y1)
    } else {
        (y1, y2)
    };
    let w = if rx - lx >= 1 {
        rx - lx
    } else {
        1
    };
    let h = if by - ty >= 1 {
        by - ty
    } else {
        1
    };
    SelectionRect { x: i32_as_u32(lx), y: i32_as_u32(ty), w: i32_as_u32(w), h: i32_as_u32(h) }
}

/// The pointer's offset from where the drag began, in image pixels.
pub fn drag_offset(mouse: (u32, u32), ux: i32, uy: i32) -> (r: (i32, i32))
    requires
        fits_i32(ux - wrap_i32(mouse.0)),
        fits_i32(uy - wrap_i32(mouse.1)),
    ensures
        r.0 == ux - wrap_i32(mouse.0),
        r.1 == uy - wrap_i32(mouse.1),
{
    (ux - u32_as_i32(mouse.0), uy - u32_as_i32(mouse.1))
}

impl SelectionState {
    /// The drag under way computes without overflow for the pointer at
    /// `(ux, uy)`.
    pub open spec fn drag_defined(self, ux: i32, uy: i32, img_w: u32, img_h: u32) -> bool {
        match self.drag_mode {
            DragMode::Selecting => img_w <= i32::MAX && img_h <= i32::MAX,
            DragMode::MovingSelection => match (self.initial_selection_on_drag, self.initial_mouse_on_drag) {
                (Some(s), Some(m)) => move_defined(s, m, ux, uy),
                _ => true,
            },
            DragMode::ResizingSelection(handle) => match (self.initial_selection_on_drag, self.initial_mouse_on_drag) {
                (Some(s), Some(m)) => resize_defined(s, handle, m, ux, uy, img_w, img_h),
                _ => true,
            },
            DragMode::Idle => true,
        }
    }

    /// The pointer moves to `(ux, uy)` (image pixels, not clamped) while no
    /// aspect ratio is imposed: a drawn selection follows the pointer, a moved
    /// one keeps its size and is shifted by the pointer's offset, a resized one
    /// has its handle moved by that offset. The drag itself is unchanged.
    pub fn pointer_drag(&mut self, ux: i32, uy: i32, img_w: u32, img_h: u32)
        requires
            old(self).drag_defined(ux, uy, img_w, img_h),
        ensures
            final(self).drag_mode == old(self).drag_mode,
            final(self).selection_start_point == old(self).selection_start_point,
            final(self).initial_selection_on_drag == old(self).initial_selection_on_drag,
            final(self).initial_mouse_on_drag == old(self).initial_mouse_on_drag,
            final(self).selection == match old(self).drag_mode {
                DragMode::Selecting => match old(self).selection_start_point {
                    Some(start) => Some(drawn_rect(start, ux, uy, img_w, img_h)),
                    None => old(self).selection,
                },
                DragMode::MovingSelection => match (old(self).initial_selection_on_drag, old(self).initial_mouse_on_drag) {
                    (Some(s), Some(m)) => Some(moved_rect(s, m, ux, uy, img_w, img_h)),
                    _ => old(self).selection,
                },
                DragMode::ResizingSelection(handle) => match (old(self).initial_selection_on_drag, old(self).initial_mouse_on_drag) {
                    (Some(s), Some(m)) => Some(resized_rect(s, handle, m, ux, uy, img_w, img_h)),
                    _ => old(self).selection,
                },
                DragMode::Idle => old(self).selection,
            },
    {
        match self.drag_mode {
            DragMode::Selecting => {
                if let Some(start) = self.selection_start_point {
                    let x1 = clamp_corner(u32_as_i32(start.0), img_w);
                    let y1 = clamp_corner(u32_as_i32(start.1), img_h);
                    let x2 = clamp_corner(ux, img_w);
                    let y2 = clamp_corner(uy, img_h);
                    self.selection = Some(ordered_rect(x1, y1, x2, y2));
                }
            },
            DragMode::MovingSelection => {
                if let (Some(initial), Some(mouse)) = (
                    self.initial_selection_on_drag,
                    self.initial_mouse_on_drag,
                ) {
                    let (dx, dy) = drag_offset(mouse, ux, uy);
                    let mx = u32_as_i32(initial.x) + dx;
                    let my = u32_as_i32(initial.y) + dy;
                    let room_x = if img_w >= initial.w {
                        img_w - initial.w
                    } else {
                        0
                    };
                    let room_y = if img_h >= initial.h {
                        img_h - initial.h
                    } else {
                        0
                    };
                    let nx = (if mx > 0 {
                        mx
                    } else {
                        0
                    }) as u32;
                    let ny = (if my > 0 {
                        my
                    } else {
                        0
                    }) as u32;
                    self.selection = Some(
                        SelectionRect {
                            x: if nx < room_x {
                                nx
                            } else {
                                room_x
                            },
                            y: if ny < room_y {
                                ny
                            } else {
                                room_y
                            },
                            w: initial.w,
                            h: initial.h,
                        },
                    );
                }
            },
            DragMode::ResizingSelection(handle) => {
                if let (Some(initial), Some(mouse)) = (
                    self.initial_selection_on_drag,
                    self.initial_mouse_on_drag,
                ) {
                    let (dx, dy) = drag_offset(mouse, ux, uy);
                    let c = resize_corners(initial, handle, dx, dy);
                    let k = clamp_resized_corners(c, img_w, img_h);
                    self.selection = Some(ordered_rect_min1(k));
                }
            },
            DragMode::Idle => {},
        }
    }
}

/// A selection drawn with the pointer lies inside the image, whatever the
/// pointer's position.
pub proof fn law_drawn_selection_inside_image(start: (u32, u32), ux: i32, uy: i32, img_w: u32, img_h: u32)
    requires
        img_w <= i32::MAX,
        img_h <= i32::MAX,
    ensures
        ({
            let r = drawn_rect(start, ux, uy, img_w, img_h);
            r.x + r.w <= img_w && r.y + r.h <= img_h
        }),
{
}

/// Moving a selection keeps its size, and a selection that fits in the image
/// stays inside it wherever the pointer goes.
pub proof fn law_moved_selection_inside_image(
    initial: SelectionRect,
    mouse: (u32, u32),
    ux: i32,
    uy: i32,
    img_w: u32,
    img_h: u32,
)
    requires
        initial.w <= img_w,
        initial.h <= img_h,
    ensures
        ({
            let r = moved_rect(initial, mouse, ux, uy, img_w, img_h);
            &&& r.w == initial.w && r.h == initial.h
            &&& r.x + r.w <= img_w && r.y + r.h <= img_h
        }),
{
}

/// Pressing inside a selection that lies in the image and dragging without
/// moving the pointer leaves the selection where it was.
pub proof fn law_move_without_offset_keeps_selection(s: SelectionRect, x: u32, y: u32, img_w: u32, img_h: u32)
    requires
        s.x + s.w <= img_w,
        s.y + s.h <= img_h,
        img_w <= i32::MAX,
        img_h <= i32::MAX,
        x <= i32::MAX,
        y <= i32::MAX,
    ensures
        moved_rect(s, (x, y), x as i32, y as i32, img_w, img_h) == s,
{
}

/// A resized selection lies inside the image and is at least one pixel wide
/// and high.
pub proof fn law_resized_selection_inside_image(
    initial: SelectionRect,
    handle: ResizeHandle,
    mouse: (u32, u32),
    ux: i32,
    uy: i32,
    img_w: u32,
    img_h: u32,
)
    requires
        1 <= img_w <= i32::MAX,
        1 <= img_h <= i32::MAX,
    ensures
        ({
            let r = resized_rect(initial, handle, mouse, ux, uy, img_w, img_h);
            &&& r.w >= 1 && r.h >= 1
            &&& r.x + r.w <= img_w && r.y + r.h <= img_h
        }),
{
}

/// Dragging a handle by `(dx, dy)` moves only the edges the handle is on:
/// the top and left handles move the first corner's `y` and `x`, the bottom
/// and right handles the second corner's, and every other coordinate stays
/// where the selection had it.
pub proof fn law_handle_moves_its_edges(initial: SelectionRect, handle: ResizeHandle, dx: int, dy: int)
    requires
        initial.x + initial.w <= i32::MAX,
        initial.y + initial.h <= i32::MAX,
    ensures
        ({
            let c = resized_corners(initial, handle, dx, dy);
            let x = initial.x as int;
            let y = initial.y as int;
            let r = initial.x + initial.w;
            let b = initial.y + initial.h;
            &&& handle == ResizeHandle::Left ==> c == (x + dx, y, r, b)
            &&& handle == ResizeHandle::Right ==> c == (x, y, r + dx, b)
            &&& handle == ResizeHandle::Top ==> c == (x, y + dy, r, b)
            &&& handle == ResizeHandle::Bottom ==> c == (x, y, r, b + dy)
            &&& handle == ResizeHandle::TopLeft ==> c == (x + dx, y + dy, r, b)
            &&& handle == ResizeHandle::TopRight ==> c == (x, y + dy, r + dx, b)
            &&& handle == ResizeHandle::BottomLeft ==> c == (x + dx, y, r, b + dy)
            &&& handle == ResizeHandle::BottomRight ==> c == (x, y, r + dx, b + dy)
        }),
{
}

} // verus!
