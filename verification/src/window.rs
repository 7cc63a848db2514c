//! The window chrome: which edge or corner of the keyboard the pointer is
//! on, the cursor to show for it, and the pixel format to draw in.
use vstd::prelude::*;

verus! {

/// An edge or corner of the keyboard surface, grabbed to resize it.
#[derive(Clone, Copy, PartialEq, Eq, Debug, Structural)]
pub enum ResizeEdge {
    NoEdge,
    Left,
    Right,
    Top,
    Bottom,
    TopLeft,
    TopRight,
    BottomLeft,
    BottomRight,
}

/// Width, in pixels, of the band along each edge that grabs for resizing.
pub const EDGE_BAND: u32 = 12;

/// The edge or corner for a pointer that is within the resize band along
/// the left, right, top or bottom edge as the flags say. A corner needs
/// the two bands that meet there and no other; a pointer in two opposite
/// bands (on a very small surface) or in none grabs nothing.
pub open spec fn spec_edge_from_flags(on_left: bool, on_right: bool, on_top: bool, on_bottom: bool) -> ResizeEdge {
    match (on_left, on_right, on_top, on_bottom) {
        (true, false, true, false) => ResizeEdge::TopLeft,
        (false, true, true, false) => ResizeEdge::TopRight,
        (true, false, false, true) => ResizeEdge::BottomLeft,
        (false, true, false, true) => ResizeEdge::BottomRight,
        (true, false, false, false) => ResizeEdge::Left,
        (false, true, false, false) => ResizeEdge::Right,
        (false, false, true, false) => ResizeEdge::Top,
        (false, false, false, true) => ResizeEdge::Bottom,
        _ => ResizeEdge::NoEdge,
    }
}

/// The edge or corner that a pointer grabs; see [`spec_edge_from_flags`].
pub fn edge_from_flags(on_left: bool, on_right: bool, on_top: bool, on_bottom: bool) -> (e: ResizeEdge)
    ensures
        e == spec_edge_from_flags(on_left, on_right, on_top, on_bottom),
{
    match (on_left, on_right, on_top, on_bottom) {
        (true, false, true, false) => ResizeEdge::TopLeft,
        (false, true, true, false) => ResizeEdge::TopRight,
        (true, false, false, true) => ResizeEdge::BottomLeft,
        (false, true, false, true) => ResizeEdge::BottomRight,
        (true, false, false, false) => ResizeEdge::Left,
        (false, true, false, false) => ResizeEdge::Right,
        (false, false, true, false) => ResizeEdge::Top,
        (false, false, false, true) => ResizeEdge::Bottom,
        _ => ResizeEdge::NoEdge,
    }
}

/// A grab is a corner exactly when the pointer is in the two bands that
/// meet there and in neither of the other two; every flag pattern with a
/// pair of opposite bands grabs nothing.
pub proof fn edge_grab_is_consistent(on_left: bool, on_right: bool, on_top: bool, on_bottom: bool)
    ensures
        (on_left && on_right) || (on_top && on_bottom) ==> spec_edge_from_flags(
            on_left,
            on_right,
            on_top,
            on_bottom,
        ) == ResizeEdge::NoEdge,
        !on_left && !on_right && !on_top && !on_bottom ==> spec_edge_from_flags(
            on_left,
            on_right,
            on_top,
            on_bottom,
        ) == ResizeEdge::NoEdge,
        spec_edge_from_flags(on_left, on_right, on_top, on_bottom) == ResizeEdge::TopLeft <==> (
        on_left && !on_right && on_top && !on_bottom),
        spec_edge_from_flags(on_left, on_right, on_top, on_bottom) == ResizeEdge::BottomRight <==> (
        !on_left && on_right && !on_top && on_bottom),
{
}

/// The shape of the mouse cursor over the keyboard.
#[derive(Clone, Copy, PartialEq, Eq, Debug, Structural)]
pub enum CursorShape {
    Default,
    Pointer,
    Grab,
    WResize,
    EResize,
    NResize,
    SResize,
    NwResize,
    NeResize,
    SwResize,
    SeResize,
}

/// The resize cursor for an edge or corner.
pub open spec fn spec_edge_cursor(edge: ResizeEdge) -> CursorShape {
    match edge {
        ResizeEdge::Left => CursorShape::WResize,
        ResizeEdge::Right => CursorShape::EResize,
        ResizeEdge::Top => CursorShape::NResize,
        ResizeEdge::Bottom => CursorShape::SResize,
        ResizeEdge::TopLeft => CursorShape::NwResize,
        ResizeEdge::TopRight => CursorShape::NeResize,
        ResizeEdge::BottomLeft => CursorShape::SwResize,
        ResizeEdge::BottomRight => CursorShape::SeResize,
        ResizeEdge::NoEdge => CursorShape::Default,
    }
}

/// The cursor to show: during a resize, or over a resize band, the resize
/// cursor of that edge (the ongoing resize wins); otherwise, over the drag
/// bar, a pointing hand on the close button and an open hand elsewhere;
/// and the default arrow over the keys.
pub open spec fn spec_cursor_shape(
    resizing: ResizeEdge,
    hovered_edge: ResizeEdge,
    in_drag_bar: bool,
    on_close_button: bool,
) -> CursorShape {
    if resizing != ResizeEdge::NoEdge {
        spec_edge_cursor(resizing)
    } else if hovered_edge != ResizeEdge::NoEdge {
        spec_edge_cursor(hovered_edge)
    } else if in_drag_bar {
        if on_close_button {
            CursorShape::Pointer
        } else {
            CursorShape::Grab
        }
    } else {
        CursorShape::Default
    }
}

/// The cursor to show; see [`spec_cursor_shape`].
pub fn cursor_shape(
    resizing: ResizeEdge,
    hovered_edge: ResizeEdge,
    in_drag_bar: bool,
    on_close_button: bool,
) -> (shape: CursorShape)
    ensures
        shape == spec_cursor_shape(resizing, hovered_edge, in_drag_bar, on_close_button),
{
    if resizing != ResizeEdge::NoEdge || hovered_edge != ResizeEdge::NoEdge {
        let active_edge = if resizing != ResizeEdge::NoEdge {
            resizing
        } else {
            hovered_edge
        };
        match active_edge {
            ResizeEdge::Left => CursorShape::WResize,
            ResizeEdge::Right => CursorShape::EResize,
            ResizeEdge::Top => CursorShape::NResize,
            ResizeEdge::Bottom => CursorShape::SResize,
            ResizeEdge::TopLeft => CursorShape::NwResize,
            ResizeEdge::TopRight => CursorShape::NeResize,
            ResizeEdge::BottomLeft => CursorShape::SwResize,
            ResizeEdge::BottomRight => CursorShape::SeResize,
            ResizeEdge::NoEdge => CursorShape::Default,
        }
    } else if in_drag_bar {
        if on_close_button {
            CursorShape::Pointer
        } else {
            CursorShape::Grab
        }
    } else {
        CursorShape::Default
    }
}

/// A shared-memory pixel format that the keyboard draws in.
#[derive(Clone, Copy, PartialEq, Eq, Debug, Structural)]
pub enum ShmFormat {
    Xrgb8888,
    Argb8888,
}

/// The format to draw in: XRGB8888 where the compositor offers it, else
/// ARGB8888, else none (and nothing is drawn).
pub fn choose_shm_format(has_xrgb8888: bool, has_argb8888: bool) -> (f: Option<ShmFormat>)
    ensures
        f == if has_xrgb8888 {
            Some(ShmFormat::Xrgb8888)
        } else if has_argb8888 {
            Some(ShmFormat::Argb8888)
        } else {
            None::<ShmFormat>
        },
{
    if has_xrgb8888 {
        Some(ShmFormat::Xrgb8888)
    } else if has_argb8888 {
        Some(ShmFormat::Argb8888)
    } else {
        None
    }
}

} // verus!
