use vst_window::{
    convert_mouse_button_detail, decode_win32_message, format_last_error, translate,
    wrap_last_error, Backend, CaptureAction, ErrorKind, MouseButton, Notification, Ratio,
    SetupError, WindowClassRegistry, WindowEvent,
};

#[test]
fn x11_detail_codes() {
    assert_eq!(convert_mouse_button_detail(1), Some(MouseButton::Left));
    assert_eq!(convert_mouse_button_detail(2), Some(MouseButton::Middle));
    assert_eq!(convert_mouse_button_detail(3), Some(MouseButton::Right));
    assert_eq!(convert_mouse_button_detail(0), None);
    assert_eq!(convert_mouse_button_detail(4), None);
    assert_eq!(convert_mouse_button_detail(255), None);
}

#[test]
fn win32_messages_decode_position_and_button() {
    let lparam = (20u64 << 16) | 10;
    assert_eq!(decode_win32_message(0x0200, lparam), Notification::Motion { x: 10, y: 20 });
    assert_eq!(decode_win32_message(0x0201, lparam), Notification::Press { button: 1, x: 10, y: 20 });
    assert_eq!(decode_win32_message(0x0202, lparam), Notification::Release { button: 1, x: 10, y: 20 });
    assert_eq!(decode_win32_message(0x0204, lparam), Notification::Press { button: 2, x: 10, y: 20 });
    assert_eq!(decode_win32_message(0x0205, lparam), Notification::Release { button: 2, x: 10, y: 20 });
    assert_eq!(decode_win32_message(0x0207, lparam), Notification::Press { button: 4, x: 10, y: 20 });
    assert_eq!(decode_win32_message(0x0208, lparam), Notification::Release { button: 4, x: 10, y: 20 });
    assert_eq!(decode_win32_message(0x000F, lparam), Notification::Other);
}

#[test]
fn win32_positions_are_signed_words() {
    let lparam = (0xFFFEu64 << 16) | 0xFFFF;
    assert_eq!(decode_win32_message(0x0200, lparam), Notification::Motion { x: -1, y: -2 });
    let high_bits = 0xDEAD_0000_0000_0000u64 | (5u64 << 16) | 7;
    assert_eq!(decode_win32_message(0x0200, high_bits), Notification::Motion { x: 7, y: 5 });
}

#[test]
fn translate_exact_fractions() {
    let (events, capture) = translate(Backend::Win32, (300, 200), Notification::Motion { x: 75, y: 50 });
    assert_eq!(
        events,
        vec![WindowEvent::CursorMovement(Ratio { num: 75, den: 300 }, Ratio { num: 50, den: 200 })]
    );
    assert_eq!(capture, CaptureAction::Keep);
    let (events, _) = translate(Backend::AppKit, (300, 200), Notification::Motion { x: 75, y: 50 });
    assert_eq!(
        events,
        vec![WindowEvent::CursorMovement(Ratio { num: 75, den: 300 }, Ratio { num: 150, den: 200 })]
    );
}

#[test]
fn last_error_formatting() {
    assert_eq!(format_last_error("GetModuleHandleW", 0), "call to GetModuleHandleW failed: error code 0");
    assert_eq!(
        format_last_error("DestroyWindow", 4294967295),
        "call to DestroyWindow failed: error code 4294967295"
    );
    let e = wrap_last_error("RegisterClassExW", 1410);
    assert_eq!(e.backend(), Backend::Win32);
    assert_eq!(e.kind, ErrorKind::Other);
    assert_eq!(e.chain_message(), "platform error (Win32): call to RegisterClassExW failed: error code 1410");
}

#[test]
fn error_constructors_and_chain() {
    let e = SetupError::with_context(Backend::X11, ErrorKind::Other, String::from("bad atom"), "failed to intern strings");
    assert_eq!(e.describe(), "failed to intern strings (X11)");
    assert_eq!(e.context.as_deref(), Some("failed to intern strings"));
    let mut e = SetupError::new_boxed(Backend::AppKit, String::from("outer"));
    e.sources.push(String::from("inner"));
    assert_eq!(e.chain_message(), "platform error (AppKit): outer: inner");
    let e = SetupError::with_context_boxed(Backend::Win32, String::from("x"), "failed to destroy child window");
    assert_eq!(e.chain_message(), "failed to destroy child window (Win32): x");
    let e = SetupError::new(Backend::X11, ErrorKind::ConnectionFailure, String::from("gone"));
    assert_eq!(e.kind, ErrorKind::ConnectionFailure);
    assert!(e.context.is_none());
    assert_eq!(Backend::AppKit.name(), "AppKit");
    assert_eq!(Backend::Win32.name(), "Win32");
    assert_eq!(Backend::X11.name(), "X11");
}

#[test]
fn invalid_parent_message_uses_hex() {
    let e = SetupError::invalid_parent(Backend::Win32, 0xdead_beef);
    assert_eq!(e.sources[0], "supplied parent pointer (0xdeadbeef) is not valid for this platform");
}

#[test]
fn two_windows_register_class_once() {
    let mut reg = WindowClassRegistry::new();
    assert!(reg.needs_registration());
    assert_eq!(reg.acquire(Some(77)), Some(77));
    assert!(!reg.needs_registration());
    assert_eq!(reg.acquire(Some(99)), Some(77));
    assert_eq!(reg.count(), 2);
    assert_eq!(reg.release(), None);
    assert_eq!(reg.release(), Some(77));
    assert_eq!(reg.count(), 0);
    assert!(reg.needs_registration());
    assert_eq!(reg.release(), None);
    assert_eq!(reg.count(), 0);
}

#[test]
fn failed_registration_leaves_registry_empty() {
    let mut reg = WindowClassRegistry::new();
    assert_eq!(reg.acquire(None), None);
    assert_eq!(reg.count(), 0);
    assert!(reg.needs_registration());
}
