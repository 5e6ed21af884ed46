//! Normalized window events and the pointer/button normalization rules.
use vstd::prelude::*;

verus! {

/// One of the buttons on a mouse.
#[derive(Clone, Copy, Debug, PartialEq, Eq, Structural)]
pub enum MouseButton {
    Left,
    Right,
    Middle,
}

/// An exact fraction `num / den`. Cursor coordinates are reported this way so that no
/// precision is lost before a consumer picks its own numeric type.
#[derive(Clone, Copy, Debug, PartialEq, Eq, Structural)]
pub struct Ratio {
    pub num: i64,
    pub den: i64,
}

/// An interaction with an editor window.
#[derive(Clone, Copy, Debug, PartialEq, Eq, Structural)]
pub enum WindowEvent {
    /// Pointer position as fractions of the window's width and height, origin at the
    /// top-left. Values leave [0, 1] when the pointer is outside the window.
    CursorMovement(Ratio, Ratio),
    MouseClick(MouseButton),
    MouseRelease(MouseButton),
}

/// Where a backend puts the origin of the pointer positions it reports.
#[derive(Clone, Copy, Debug, PartialEq, Eq, Structural)]
pub enum Origin {
    TopLeft,
    BottomLeft,
}

/// The movement event for a native pointer position `(x, y)`, reported relative to `origin`,
/// inside a window of `size_xy` pixels.
pub open spec fn cursor_spec(size_xy: (i32, i32), x: i32, y: i32, origin: Origin) -> WindowEvent {
    let top = match origin {
        Origin::TopLeft => y as int,
        Origin::BottomLeft => size_xy.1 - y,
    };
    WindowEvent::CursorMovement(
        Ratio { num: x as i64, den: size_xy.0 as i64 },
        Ratio { num: top as i64, den: size_xy.1 as i64 },
    )
}

/// Normalizes a native pointer position against the window's size at creation.
pub fn cursor_position(size_xy: (i32, i32), x: i32, y: i32, origin: Origin) -> (r: WindowEvent)
    requires
        size_xy.0 > 0,
        size_xy.1 > 0,
    ensures
        r == cursor_spec(size_xy, x, y, origin),
{
    let top: i64 = match origin {
        Origin::TopLeft => y as i64,
        Origin::BottomLeft => size_xy.1 as i64 - y as i64,
    };
    WindowEvent::CursorMovement(
        Ratio { num: x as i64, den: size_xy.0 as i64 },
        Ratio { num: top, den: size_xy.1 as i64 },
    )
}

/// The button that an X11 detail code names, if any.
pub open spec fn x11_button_of(detail: u8) -> Option<MouseButton> {
    if detail == 1 {
        Some(MouseButton::Left)
    } else if detail == 2 {
        Some(MouseButton::Middle)
    } else if detail == 3 {
        Some(MouseButton::Right)
    } else {
        None
    }
}

/// Decodes an X11 pointer button detail code.
pub fn convert_mouse_button_detail(detail: u8) -> (r: Option<MouseButton>)
    ensures
        r == x11_button_of(detail),
{
    match detail {
        1 => Some(MouseButton::Left),
        2 => Some(MouseButton::Middle),
        3 => Some(MouseButton::Right),
        _ => None,
    }
}

} // verus!
