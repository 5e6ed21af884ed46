//! Native input notifications and their translation into window events.
use vstd::prelude::*;

use crate::error::Backend;
use crate::event::{
    convert_mouse_button_detail, cursor_position, cursor_spec, x11_button_of, MouseButton, Origin,
    WindowEvent,
};

verus! {

/// A native input notification, reduced to plain values. Positions are in pixels relative
/// to the window, measured from the backend's origin; `button` is the backend's own button
/// number (X11 detail code, Win32 virtual-key code, AppKit button number).
#[derive(Clone, Copy, Debug, PartialEq, Eq, Structural)]
pub enum Notification {
    Motion { x: i32, y: i32 },
    Press { button: u32, x: i32, y: i32 },
    Release { button: u32, x: i32, y: i32 },
    Other,
}

/// What the native side must do about pointer capture after a notification.
#[derive(Clone, Copy, Debug, PartialEq, Eq, Structural)]
pub enum CaptureAction {
    /// Nothing changes.
    Keep,
    /// Keep reporting movement while the pointer leaves the window.
    Engage,
    /// Stop the capture engaged by the matching press.
    Release,
}

pub open spec fn origin_of(backend: Backend) -> Origin {
    match backend {
        Backend::AppKit => Origin::BottomLeft,
        _ => Origin::TopLeft,
    }
}

/// Which backends deliver input through native callbacks (and so manage pointer capture).
pub open spec fn is_callback_backend(backend: Backend) -> bool {
    backend != Backend::X11
}

/// The button that a backend's button number names, if any.
pub open spec fn button_spec(backend: Backend, id: u32) -> Option<MouseButton> {
    match backend {
        Backend::X11 => if id < 256 { x11_button_of(id as u8) } else { None },
        Backend::Win32 => if id == 1 {
            Some(MouseButton::Left)
        } else if id == 2 {
            Some(MouseButton::Right)
        } else if id == 4 {
            Some(MouseButton::Middle)
        } else {
            None
        },
        Backend::AppKit => if id == 0 {
            Some(MouseButton::Left)
        } else if id == 1 {
            Some(MouseButton::Right)
        } else if id == 2 {
            Some(MouseButton::Middle)
        } else {
            None
        },
    }
}

/// Decodes a backend's button number.
pub fn button_of(backend: Backend, id: u32) -> (r: Option<MouseButton>)
    ensures
        r == button_spec(backend, id),
{
    match backend {
        Backend::X11 => if id < 256 {
            convert_mouse_button_detail(id as u8)
        } else {
            None
        },
        Backend::Win32 => if id == 1 {
            Some(MouseButton::Left)
        } else if id == 2 {
            Some(MouseButton::Right)
        } else if id == 4 {
            Some(MouseButton::Middle)
        } else {
            None
        },
        Backend::AppKit => if id == 0 {
            Some(MouseButton::Left)
        } else if id == 1 {
            Some(MouseButton::Right)
        } else if id == 2 {
            Some(MouseButton::Middle)
        } else {
            None
        },
    }
}

/// The events that a notification yields, in order.
pub open spec fn translate_spec(backend: Backend, size_xy: (i32, i32), n: Notification) -> Seq<
    WindowEvent,
> {
    let origin = origin_of(backend);
    match n {
        Notification::Motion { x, y } => seq![cursor_spec(size_xy, x, y, origin)],
        Notification::Press { button, x, y } => match button_spec(backend, button) {
            Some(b) => if backend == Backend::AppKit {
                seq![cursor_spec(size_xy, x, y, origin), WindowEvent::MouseClick(b)]
            } else {
                seq![WindowEvent::MouseClick(b)]
            },
            None => Seq::empty(),
        },
        Notification::Release { button, x, y } => match button_spec(backend, button) {
            Some(b) => if backend == Backend::AppKit {
                seq![cursor_spec(size_xy, x, y, origin), WindowEvent::MouseRelease(b)]
            } else {
                seq![WindowEvent::MouseRelease(b)]
            },
            None => Seq::empty(),
        },
        Notification::Other => Seq::empty(),
    }
}

/// The capture change that a notification calls for.
pub open spec fn capture_spec(backend: Backend, n: Notification) -> CaptureAction {
    if !is_callback_backend(backend) {
        CaptureAction::Keep
    } else {
        match n {
            Notification::Press { button, .. } => if button_spec(backend, button) is Some {
                CaptureAction::Engage
            } else {
                CaptureAction::Keep
            },
            Notification::Release { button, .. } => if button_spec(backend, button) is Some {
                CaptureAction::Release
            } else {
                CaptureAction::Keep
            },
            _ => CaptureAction::Keep,
        }
    }
}

/// Translates one native notification into the events it yields and the capture change
/// it calls for.
pub fn translate(backend: Backend, size_xy: (i32, i32), n: Notification) -> (r: (
    Vec<WindowEvent>,
    CaptureAction,
))
    requires
        size_xy.0 > 0,
        size_xy.1 > 0,
    ensures
        r.0@ == translate_spec(backend, size_xy, n),
        r.1 == capture_spec(backend, n),
{
    let origin = match backend {
        Backend::AppKit => Origin::BottomLeft,
        _ => Origin::TopLeft,
    };
    let callback = match backend {
        Backend::X11 => false,
        _ => true,
    };
    let mut events: Vec<WindowEvent> = Vec::new();
    let mut capture = CaptureAction::Keep;
    match n {
        Notification::Motion { x, y } => {
            events.push(cursor_position(size_xy, x, y, origin));
        },
        Notification::Press { button, x, y } => {
            if let Some(b) = button_of(backend, button) {
                if let Backend::AppKit = backend {
                    events.push(cursor_position(size_xy, x, y, origin));
                }
                events.push(WindowEvent::MouseClick(b));
                if callback {
                    capture = CaptureAction::Engage;
                }
            }
        },
        Notification::Release { button, x, y } => {
            if let Some(b) = button_of(backend, button) {
                if let Backend::AppKit = backend {
                    events.push(cursor_position(size_xy, x, y, origin));
                }
                events.push(WindowEvent::MouseRelease(b));
                if callback {
                    capture = CaptureAction::Release;
                }
            }
        },
        Notification::Other => {},
    }
    assert(events@ =~= translate_spec(backend, size_xy, n));
    (events, capture)
}

pub open spec fn low_word_signed(v: u64) -> int {
    let w = v as int % 0x10000;
    if w >= 0x8000 { w - 0x10000 } else { w }
}

pub open spec fn high_word_signed(v: u64) -> int {
    low_word_signed(v / 0x10000)
}

/// Win32 message numbers of the pointer notifications that are translated.
pub const WM_MOUSEMOVE: u32 = 0x0200;
pub const WM_LBUTTONDOWN: u32 = 0x0201;
pub const WM_LBUTTONUP: u32 = 0x0202;
pub const WM_RBUTTONDOWN: u32 = 0x0204;
pub const WM_RBUTTONUP: u32 = 0x0205;
pub const WM_MBUTTONDOWN: u32 = 0x0207;
pub const WM_MBUTTONUP: u32 = 0x0208;

/// The notification that a Win32 window message stands for: the pointer position sits in
/// the two low signed 16-bit words of `lparam`, the button in the message number.
pub open spec fn win32_message_spec(msg: u32, lparam: u64) -> Notification {
    let x = low_word_signed(lparam) as i32;
    let y = high_word_signed(lparam) as i32;
    if msg == WM_MOUSEMOVE {
        Notification::Motion { x, y }
    } else if msg == WM_LBUTTONDOWN {
        Notification::Press { button: 1, x, y }
    } else if msg == WM_LBUTTONUP {
        Notification::Release { button: 1, x, y }
    } else if msg == WM_RBUTTONDOWN {
        Notification::Press { button: 2, x, y }
    } else if msg == WM_RBUTTONUP {
        Notification::Release { button: 2, x, y }
    } else if msg == WM_MBUTTONDOWN {
        Notification::Press { button: 4, x, y }
    } else if msg == WM_MBUTTONUP {
        Notification::Release { button: 4, x, y }
    } else {
        Notification::Other
    }
}

fn signed_word(v: u64) -> (r: i32)
    ensures
        r == low_word_signed(v),
{
    let w: u64 = v % 0x10000;
    if w >= 0x8000 {
        w as i32 - 0x10000
    } else {
        w as i32
    }
}

/// Decodes a Win32 window message and its `lparam` (as raw bits).
pub fn decode_win32_message(msg: u32, lparam: u64) -> (r: Notification)
    ensures
        r == win32_message_spec(msg, lparam),
{
    let x = signed_word(lparam);
    let y = signed_word(lparam / 0x10000);
    if msg == WM_MOUSEMOVE {
        Notification::Motion { x, y }
    } else if msg == WM_LBUTTONDOWN {
        Notification::Press { button: 1, x, y }
    } else if msg == WM_LBUTTONUP {
        Notification::Release { button: 1, x, y }
    } else if msg == WM_RBUTTONDOWN {
        Notification::Press { button: 2, x, y }
    } else if msg == WM_RBUTTONUP {
        Notification::Release { button: 2, x, y }
    } else if msg == WM_MBUTTONDOWN {
        Notification::Press { button: 4, x, y }
    } else if msg == WM_MBUTTONUP {
        Notification::Release { button: 4, x, y }
    } else {
        Notification::Other
    }
}

} // verus!
