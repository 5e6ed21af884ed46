use vst_window::{
    setup, validate_setup, Backend, CaptureAction, EditorWindow, ErrorKind, MouseButton,
    NativeFailure, Notification, Ratio, TeardownStep, WindowEvent,
};

fn open(backend: Backend, size: (i32, i32)) -> EditorWindow {
    setup(backend, 0x2a, size, Ok(11)).expect("setup must succeed")
}

fn ratio_value(r: Ratio) -> f32 {
    r.num as f32 / r.den as f32
}

fn drain(w: &mut EditorWindow) -> Vec<WindowEvent> {
    let mut out = Vec::new();
    while let Some(e) = w.poll_event() {
        out.push(e);
    }
    out
}

#[test]
fn setup_yields_open_window_with_one_pairing() {
    for backend in [Backend::AppKit, Backend::Win32, Backend::X11] {
        let w = open(backend, (300, 200));
        assert!(w.is_open());
        assert_eq!(w.live_pairings(), 1);
        assert_eq!(w.pending_len(), 0);
        assert_eq!(w.size(), (300, 200));
        assert_eq!(w.window_id(), 11);
        assert_eq!(w.backend(), backend);
    }
}

#[test]
fn events_are_polled_in_notification_order() {
    let mut w = open(Backend::X11, (300, 200));
    w.notify(Notification::Press { button: 1, x: 0, y: 0 });
    w.notify(Notification::Motion { x: 150, y: 100 });
    w.notify(Notification::Release { button: 3, x: 0, y: 0 });
    assert_eq!(
        drain(&mut w),
        vec![
            WindowEvent::MouseClick(MouseButton::Left),
            WindowEvent::CursorMovement(Ratio { num: 150, den: 300 }, Ratio { num: 100, den: 200 }),
            WindowEvent::MouseRelease(MouseButton::Right),
        ]
    );
    assert_eq!(w.poll_event(), None);
}

#[test]
fn corners_map_to_unit_square_top_left_origin() {
    let mut w = open(Backend::X11, (300, 200));
    w.notify(Notification::Motion { x: 0, y: 0 });
    w.notify(Notification::Motion { x: 300, y: 200 });
    let events = drain(&mut w);
    match events[0] {
        WindowEvent::CursorMovement(x, y) => {
            assert_eq!(ratio_value(x), 0.0);
            assert_eq!(ratio_value(y), 0.0);
        }
        _ => panic!("expected a movement"),
    }
    match events[1] {
        WindowEvent::CursorMovement(x, y) => {
            assert_eq!(ratio_value(x), 1.0);
            assert_eq!(ratio_value(y), 1.0);
        }
        _ => panic!("expected a movement"),
    }
}

#[test]
fn corners_map_to_unit_square_bottom_left_origin() {
    let mut w = open(Backend::AppKit, (300, 200));
    w.notify(Notification::Motion { x: 0, y: 200 });
    w.notify(Notification::Motion { x: 300, y: 0 });
    assert_eq!(
        drain(&mut w),
        vec![
            WindowEvent::CursorMovement(Ratio { num: 0, den: 300 }, Ratio { num: 0, den: 200 }),
            WindowEvent::CursorMovement(Ratio { num: 300, den: 300 }, Ratio { num: 200, den: 200 }),
        ]
    );
}

#[test]
fn pointer_outside_window_exceeds_unit_range() {
    let mut w = open(Backend::Win32, (300, 200));
    w.notify(Notification::Motion { x: -30, y: 400 });
    match w.poll_event() {
        Some(WindowEvent::CursorMovement(x, y)) => {
            assert!(ratio_value(x) < 0.0);
            assert_eq!(ratio_value(y), 2.0);
        }
        other => panic!("unexpected {:?}", other),
    }
}

#[test]
fn unrecognized_button_queues_nothing() {
    for (backend, id) in [(Backend::X11, 4u32), (Backend::Win32, 3), (Backend::AppKit, 7)] {
        let mut w = open(backend, (300, 200));
        assert_eq!(w.notify(Notification::Press { button: id, x: 1, y: 1 }), CaptureAction::Keep);
        assert_eq!(w.notify(Notification::Release { button: id, x: 1, y: 1 }), CaptureAction::Keep);
        assert_eq!(w.pending_len(), 0);
        assert_eq!(w.poll_event(), None);
    }
}

#[test]
fn other_notifications_queue_nothing() {
    let mut w = open(Backend::X11, (300, 200));
    w.notify(Notification::Other);
    assert_eq!(w.poll_event(), None);
}

#[test]
fn appkit_press_reports_position_then_button() {
    let mut w = open(Backend::AppKit, (300, 200));
    let capture = w.notify(Notification::Press { button: 1, x: 150, y: 50 });
    assert_eq!(capture, CaptureAction::Engage);
    assert_eq!(
        drain(&mut w),
        vec![
            WindowEvent::CursorMovement(Ratio { num: 150, den: 300 }, Ratio { num: 150, den: 200 }),
            WindowEvent::MouseClick(MouseButton::Right),
        ]
    );
}

#[test]
fn capture_follows_press_and_release_on_callback_backends() {
    let mut w = open(Backend::Win32, (300, 200));
    assert_eq!(w.notify(Notification::Press { button: 4, x: 0, y: 0 }), CaptureAction::Engage);
    assert_eq!(w.notify(Notification::Release { button: 4, x: 0, y: 0 }), CaptureAction::Release);
    assert_eq!(
        drain(&mut w),
        vec![
            WindowEvent::MouseClick(MouseButton::Middle),
            WindowEvent::MouseRelease(MouseButton::Middle),
        ]
    );
    let mut x = open(Backend::X11, (300, 200));
    assert_eq!(x.notify(Notification::Press { button: 2, x: 0, y: 0 }), CaptureAction::Keep);
}

#[test]
fn negative_width_is_invalid_size() {
    let e = setup(Backend::X11, 0x2a, (-1, 200), Ok(11)).unwrap_err();
    assert_eq!(e.kind, ErrorKind::InvalidWindowSize { width: -1, height: 200, bound: 65535 });
    assert_eq!(e.backend(), Backend::X11);
    assert_eq!(
        e.sources[0],
        "supplied window size (width: -1, height: 200) is not valid for this platform"
    );
}

#[test]
fn width_over_platform_maximum_is_invalid_size() {
    let e = setup(Backend::Win32, 0x2a, (32768, 200), Ok(11)).unwrap_err();
    assert_eq!(e.kind, ErrorKind::InvalidWindowSize { width: 32768, height: 200, bound: 32767 });
    assert!(setup(Backend::Win32, 0x2a, (32767, 200), Ok(11)).is_ok());
    let e = setup(Backend::X11, 0x2a, (65536, 200), Ok(11)).unwrap_err();
    assert_eq!(e.kind, ErrorKind::InvalidWindowSize { width: 65536, height: 200, bound: 65535 });
}

#[test]
fn null_parent_is_invalid_parent() {
    for backend in [Backend::AppKit, Backend::Win32, Backend::X11] {
        let e = setup(backend, 0, (300, 200), Ok(11)).unwrap_err();
        assert_eq!(e.kind, ErrorKind::InvalidParent { parent: 0 });
        assert_eq!(e.backend(), backend);
        assert_eq!(e.sources[0], "supplied parent pointer (null) is not valid for this platform");
    }
}

#[test]
fn x11_parent_must_fit_window_id() {
    let e = validate_setup(Backend::X11, 0x1_0000_0000, (300, 200)).unwrap_err();
    assert_eq!(e.kind, ErrorKind::InvalidParent { parent: 0x1_0000_0000 });
    assert_eq!(
        e.sources[0],
        "supplied parent pointer (0x100000000) is not valid for this platform"
    );
    assert!(validate_setup(Backend::Win32, 0x1_0000_0000, (300, 200)).is_ok());
}

#[test]
fn size_is_checked_before_parent() {
    let e = validate_setup(Backend::X11, 0, (0, 200)).unwrap_err();
    assert_eq!(e.kind, ErrorKind::InvalidWindowSize { width: 0, height: 200, bound: 65535 });
}

#[test]
fn native_failures_map_to_error_kinds() {
    let e = setup(
        Backend::X11,
        0x2a,
        (300, 200),
        Err(NativeFailure::Connect { message: String::from("no display") }),
    )
    .unwrap_err();
    assert_eq!(e.kind, ErrorKind::ConnectionFailure);
    assert_eq!(e.describe(), "couldn't connect to display server (X11)");
    assert_eq!(e.chain_message(), "couldn't connect to display server (X11): no display");

    let e = setup(Backend::X11, 0x2a, (300, 200), Err(NativeFailure::ParentRejected)).unwrap_err();
    assert_eq!(e.kind, ErrorKind::InvalidParent { parent: 0x2a });

    let e = setup(
        Backend::Win32,
        0x2a,
        (300, 200),
        Err(NativeFailure::Call { called_fn: String::from("CreateWindowExW"), code: 1400 }),
    )
    .unwrap_err();
    assert_eq!(e.kind, ErrorKind::InvalidParent { parent: 0x2a });

    let e = setup(
        Backend::Win32,
        0x2a,
        (300, 200),
        Err(NativeFailure::Call { called_fn: String::from("RegisterClassExW"), code: 5 }),
    )
    .unwrap_err();
    assert_eq!(e.kind, ErrorKind::Other);
    assert_eq!(e.sources, vec![String::from("call to RegisterClassExW failed: error code 5")]);
    assert_eq!(e.describe(), "platform error (Win32)");

    let e = setup(
        Backend::X11,
        0x2a,
        (300, 200),
        Err(NativeFailure::Request { message: String::from("request failed") }),
    )
    .unwrap_err();
    assert_eq!(e.kind, ErrorKind::Other);
    assert_eq!(e.chain_message(), "platform error (X11): request failed");

    let e = setup(
        Backend::X11,
        0x2a,
        (300, 200),
        Err(NativeFailure::ConnectionLost { message: String::from("broken pipe") }),
    )
    .unwrap_err();
    assert_eq!(e.kind, ErrorKind::ConnectionFailure);
    assert_eq!(e.describe(), "display server connection error (X11)");
}

#[test]
fn teardown_is_idempotent() {
    let mut w = open(Backend::Win32, (300, 200));
    w.notify(Notification::Motion { x: 1, y: 1 });
    assert_eq!(
        w.close(),
        vec![TeardownStep::DetachCapture, TeardownStep::DestroyWindow, TeardownStep::ReleaseClass]
    );
    assert!(!w.is_open());
    assert_eq!(w.live_pairings(), 0);
    assert_eq!(w.poll_event(), None);
    assert_eq!(w.close(), vec![]);
    w.notify(Notification::Press { button: 1, x: 0, y: 0 });
    assert_eq!(w.poll_event(), None);

    let mut x = open(Backend::X11, (300, 200));
    assert_eq!(x.close(), vec![TeardownStep::DetachCapture, TeardownStep::DestroyWindow]);
    assert_eq!(x.close(), vec![]);
}
