//! The editor window handle: setup checks, event delivery and teardown.
use vstd::prelude::*;

use std::collections::VecDeque;

use crate::error::{Backend, ErrorKind, SetupError, format_last_error};
use crate::event::{Origin, Ratio, WindowEvent};
use crate::input::{
    button_spec, capture_spec, origin_of, translate, translate_spec, CaptureAction, Notification,
};

verus! {

/// Largest window extent, in pixels, on each axis: X11 sizes are 16-bit unsigned.
pub const X11_MAX_EXTENT: i32 = 65535;
/// Largest window extent on Win32, whose coordinates are 16-bit signed.
pub const WIN32_MAX_EXTENT: i32 = 32767;
/// Largest window extent on AppKit, which accepts any positive size.
pub const APPKIT_MAX_EXTENT: i32 = 2147483647;

/// Win32's error code for a window handle that does not denote a window.
pub const ERROR_INVALID_WINDOW_HANDLE: u32 = 1400;

pub open spec fn max_extent_spec(backend: Backend) -> i32 {
    match backend {
        Backend::X11 => X11_MAX_EXTENT,
        Backend::Win32 => WIN32_MAX_EXTENT,
        Backend::AppKit => APPKIT_MAX_EXTENT,
    }
}

/// The largest extent a backend accepts on either axis.
pub fn max_window_extent(backend: Backend) -> (r: i32)
    ensures
        r == max_extent_spec(backend),
{
    match backend {
        Backend::X11 => X11_MAX_EXTENT,
        Backend::Win32 => WIN32_MAX_EXTENT,
        Backend::AppKit => APPKIT_MAX_EXTENT,
    }
}

/// A size is accepted when both extents are positive and within the backend's bound.
pub open spec fn size_ok(backend: Backend, size_xy: (i32, i32)) -> bool {
    &&& 0 < size_xy.0 <= max_extent_spec(backend)
    &&& 0 < size_xy.1 <= max_extent_spec(backend)
}

/// A parent reference is accepted when it is not null and, on X11, fits a window id.
pub open spec fn parent_ok(backend: Backend, parent: u64) -> bool {
    &&& parent != 0
    &&& (backend == Backend::X11 ==> parent <= u32::MAX)
}

/// Why the native side could not build a window.
#[derive(Debug)]
pub enum NativeFailure {
    /// The display server could not be reached.
    Connect { message: String },
    /// The display server connection failed while the window was being built.
    ConnectionLost { message: String },
    /// The platform reported that the parent does not denote a surface.
    ParentRejected,
    /// A native call failed with an error code.
    Call { called_fn: String, code: u32 },
    /// A native request failed; `message` says which and why.
    Request { message: String },
}

pub open spec fn failure_kind(parent: u64, f: NativeFailure) -> ErrorKind {
    match f {
        NativeFailure::Connect { .. } => ErrorKind::ConnectionFailure,
        NativeFailure::ConnectionLost { .. } => ErrorKind::ConnectionFailure,
        NativeFailure::ParentRejected => ErrorKind::InvalidParent { parent },
        NativeFailure::Call { code, .. } => if code == ERROR_INVALID_WINDOW_HANDLE {
            ErrorKind::InvalidParent { parent }
        } else {
            ErrorKind::Other
        },
        NativeFailure::Request { .. } => ErrorKind::Other,
    }
}

/// Converts a native failure into the library's error.
pub fn failure_error(backend: Backend, parent: u64, f: NativeFailure) -> (r: SetupError)
    ensures
        r.backend == backend,
        r.kind == failure_kind(parent, f),
{
    match f {
        NativeFailure::Connect { message } => SetupError::with_context(
            backend,
            ErrorKind::ConnectionFailure,
            message,
            "couldn't connect to display server",
        ),
        NativeFailure::ConnectionLost { message } => SetupError::with_context(
            backend,
            ErrorKind::ConnectionFailure,
            message,
            "display server connection error",
        ),
        NativeFailure::ParentRejected => SetupError::invalid_parent(backend, parent),
        NativeFailure::Call { called_fn, code } => if code == ERROR_INVALID_WINDOW_HANDLE {
            SetupError::invalid_parent(backend, parent)
        } else {
            SetupError::new_boxed(backend, format_last_error(called_fn.as_str(), code))
        },
        NativeFailure::Request { message } => SetupError::new_boxed(backend, message),
    }
}

/// The error a setup request gets before any native work: a size outside the backend's
/// bounds first, then a parent it does not accept.
pub open spec fn request_error(backend: Backend, parent: u64, size_xy: (i32, i32)) -> Option<
    ErrorKind,
> {
    if !size_ok(backend, size_xy) {
        Some(
            ErrorKind::InvalidWindowSize {
                width: size_xy.0,
                height: size_xy.1,
                bound: max_extent_spec(backend),
            },
        )
    } else if !parent_ok(backend, parent) {
        Some(ErrorKind::InvalidParent { parent })
    } else {
        None
    }
}

/// The error of a failed setup: the request's own, else the native failure's.
pub open spec fn setup_error_kind(
    backend: Backend,
    parent: u64,
    size_xy: (i32, i32),
    created: Result<u64, NativeFailure>,
) -> ErrorKind {
    match request_error(backend, parent, size_xy) {
        Some(k) => k,
        None => failure_kind(parent, created->Err_0),
    }
}

/// Checks a setup request before any native resource is acquired: the size first, then
/// the parent.
pub fn validate_setup(backend: Backend, parent: u64, size_xy: (i32, i32)) -> (r: Result<
    (),
    SetupError,
>)
    ensures
        r is Ok <==> request_error(backend, parent, size_xy) is None,
        r matches Err(e) ==> e.backend == backend && request_error(backend, parent, size_xy)
            == Some(e.kind),
{
    let bound = max_window_extent(backend);
    if size_xy.0 <= 0 || size_xy.0 > bound || size_xy.1 <= 0 || size_xy.1 > bound {
        return Err(SetupError::invalid_size(backend, size_xy, bound));
    }
    let fits = match backend {
        Backend::X11 => parent <= 0xffff_ffffu64,
        _ => true,
    };
    if parent == 0 || !fits {
        return Err(SetupError::invalid_parent(backend, parent));
    }
    Ok(())
}

/// What teardown must release, in this order.
#[derive(Clone, Copy, Debug, PartialEq, Eq, Structural)]
pub enum TeardownStep {
    /// Sever the native back-reference to the event delegate and drop the delivery channel.
    DetachCapture,
    /// Destroy the child window (on AppKit: release the retained host surface).
    DestroyWindow,
    /// Give back the reference to the shared window class.
    ReleaseClass,
}

/// Abstract state of an editor window.
pub ghost struct WindowModel {
    pub backend: Backend,
    pub size_xy: (i32, i32),
    pub window_id: u64,
    /// Events captured and not yet polled, oldest first.
    pub pending: Seq<WindowEvent>,
    pub open: bool,
    /// Live pairings of the window with an event capture.
    pub pairings: nat,
    /// Whether the window holds a reference to the shared window class.
    pub holds_class: bool,
}

impl WindowModel {
    pub open spec fn well_formed(self) -> bool {
        &&& self.size_xy.0 > 0
        &&& self.size_xy.1 > 0
        &&& self.open ==> self.pairings == 1
        &&& !self.open ==> self.pairings == 0 && self.pending.len() == 0
    }
}

/// The state of a window just built with the given native id.
pub open spec fn opened(backend: Backend, size_xy: (i32, i32), window_id: u64) -> WindowModel {
    WindowModel {
        backend,
        size_xy,
        window_id,
        pending: Seq::empty(),
        open: true,
        pairings: 1,
        holds_class: backend == Backend::Win32,
    }
}

/// The state after a native notification reaches the window: an open window queues the
/// events it translates to; a closed one ignores it.
pub open spec fn notified(m: WindowModel, n: Notification) -> WindowModel {
    if m.open {
        WindowModel { pending: m.pending + translate_spec(m.backend, m.size_xy, n), ..m }
    } else {
        m
    }
}

/// The capture change a notification calls for on this window.
pub open spec fn notified_capture(m: WindowModel, n: Notification) -> CaptureAction {
    if m.open {
        capture_spec(m.backend, n)
    } else {
        CaptureAction::Keep
    }
}

/// The state after one poll, and the event it returns: the oldest pending one, if any.
pub open spec fn polled(m: WindowModel) -> (WindowModel, Option<WindowEvent>) {
    if m.pending.len() > 0 {
        (WindowModel { pending: m.pending.drop_first(), ..m }, Some(m.pending[0]))
    } else {
        (m, None)
    }
}

/// The state after teardown.
pub open spec fn closed(m: WindowModel) -> WindowModel {
    WindowModel { pending: Seq::empty(), open: false, pairings: 0, ..m }
}

/// What a teardown of `m` releases, in order: capture before window before class, and
/// nothing for a window already torn down.
pub open spec fn teardown_steps(m: WindowModel) -> Seq<TeardownStep> {
    if !m.open {
        Seq::empty()
    } else if m.holds_class {
        seq![TeardownStep::DetachCapture, TeardownStep::DestroyWindow, TeardownStep::ReleaseClass]
    } else {
        seq![TeardownStep::DetachCapture, TeardownStep::DestroyWindow]
    }
}

/// An embedded editor window: the native window's id and size, the events captured from
/// it and not yet polled, and where it stands in its lifecycle.
#[derive(Debug)]
pub struct EditorWindow {
    backend: Backend,
    size_xy: (i32, i32),
    window_id: u64,
    events: VecDeque<WindowEvent>,
    open: bool,
    pairings: u8,
    holds_class: bool,
}

impl View for EditorWindow {
    type V = WindowModel;

    closed spec fn view(&self) -> WindowModel {
        WindowModel {
            backend: self.backend,
            size_xy: self.size_xy,
            window_id: self.window_id,
            pending: self.events@,
            open: self.open,
            pairings: self.pairings as nat,
            holds_class: self.holds_class,
        }
    }
}

/// Builds the window handle once the native side has tried to create the window.
/// `created` is the native window's id, or why it could not be built. The request is
/// checked as `validate_setup` does before the native outcome is considered.
pub fn setup(
    backend: Backend,
    parent: u64,
    size_xy: (i32, i32),
    created: Result<u64, NativeFailure>,
) -> (r: Result<EditorWindow, SetupError>)
    ensures
        r is Ok <==> request_error(backend, parent, size_xy) is None && created is Ok,
        r matches Ok(w) ==> w@ == opened(backend, size_xy, created->Ok_0) && w@.well_formed(),
        r matches Ok(w) ==> w@.open && w@.pairings == 1 && w@.pending.len() == 0,
        r matches Err(e) ==> e.backend == backend && e.kind == setup_error_kind(
            backend,
            parent,
            size_xy,
            created,
        ),
{
    match validate_setup(backend, parent, size_xy) {
        Err(e) => Err(e),
        Ok(()) => match created {
            Err(f) => Err(failure_error(backend, parent, f)),
            Ok(window_id) => {
                let holds_class = match backend {
                    Backend::Win32 => true,
                    _ => false,
                };
                Ok(
                    EditorWindow {
                        backend,
                        size_xy,
                        window_id,
                        events: VecDeque::new(),
                        open: true,
                        pairings: 1,
                        holds_class,
                    },
                )
            },
        },
    }
}

impl EditorWindow {
    /// The backend that built this window.
    pub fn backend(&self) -> (r: Backend)
        ensures
            r == self@.backend,
    {
        self.backend
    }

    /// The size the window was created with.
    pub fn size(&self) -> (r: (i32, i32))
        ensures
            r == self@.size_xy,
    {
        self.size_xy
    }

    /// The native window's id.
    pub fn window_id(&self) -> (r: u64)
        ensures
            r == self@.window_id,
    {
        self.window_id
    }

    /// Whether the window has not been torn down.
    pub fn is_open(&self) -> (r: bool)
        ensures
            r == self@.open,
    {
        self.open
    }

    /// Number of live event-capture pairings.
    pub fn live_pairings(&self) -> (r: u8)
        ensures
            r == self@.pairings,
    {
        self.pairings
    }

    /// Number of events waiting to be polled.
    pub fn pending_len(&self) -> (r: usize)
        ensures
            r == self@.pending.len(),
    {
        self.events.len()
    }

    /// Hands a native notification to the window. Returns the capture change the native
    /// side must make.
    pub fn notify(&mut self, n: Notification) -> (r: CaptureAction)
        requires
            old(self)@.well_formed(),
        ensures
            final(self)@ == notified(old(self)@, n),
            r == notified_capture(old(self)@, n),
            final(self)@.well_formed(),
    {
        if !self.open {
            return CaptureAction::Keep;
        }
        let (events, capture) = translate(self.backend, self.size_xy, n);
        let ghost start = self.events@;
        let mut i: usize = 0;
        while i < events.len()
            invariant
                0 <= i <= events@.len(),
                self.events@ == start + events@.subrange(0, i as int),
                self.backend == old(self).backend,
                self.size_xy == old(self).size_xy,
                self.window_id == old(self).window_id,
                self.open == old(self).open,
                self.pairings == old(self).pairings,
                self.holds_class == old(self).holds_class,
            decreases events@.len() - i,
        {
            self.events.push_back(events[i]);
            assert(events@.subrange(0, i as int + 1) =~= events@.subrange(0, i as int).push(
                events@[i as int],
            ));
            i = i + 1;
        }
        assert(events@.subrange(0, events@.len() as int) =~= events@);
        capture
    }

    /// Returns the oldest event not yet polled, if any. Never blocks.
    pub fn poll_event(&mut self) -> (r: Option<WindowEvent>)
        requires
            old(self)@.well_formed(),
        ensures
            final(self)@ == polled(old(self)@).0,
            r == polled(old(self)@).1,
            final(self)@.well_formed(),
    {
        let r = self.events.pop_front();
        proof {
            if old(self)@.pending.len() > 0 {
                assert(self.events@ =~= old(self)@.pending.drop_first());
            }
        }
        r
    }

    /// Tears the window down. Returns what the native side must release, in order; a
    /// window already torn down returns nothing.
    pub fn close(&mut self) -> (r: Vec<TeardownStep>)
        requires
            old(self)@.well_formed(),
        ensures
            final(self)@ == closed(old(self)@),
            r@ == teardown_steps(old(self)@),
            final(self)@.well_formed(),
    {
        let mut steps: Vec<TeardownStep> = Vec::new();
        if self.open {
            steps.push(TeardownStep::DetachCapture);
            steps.push(TeardownStep::DestroyWindow);
            if self.holds_class {
                steps.push(TeardownStep::ReleaseClass);
            }
        }
        self.events.clear();
        self.open = false;
        self.pairings = 0;
        assert(self.events@ =~= Seq::<WindowEvent>::empty());
        assert(steps@ =~= teardown_steps(old(self)@));
        steps
    }
}

/// Everything a drain loop of polls returns, in order, until the window has no event.
pub open spec fn drained(m: WindowModel) -> Seq<WindowEvent>
    decreases m.pending.len(),
{
    if m.pending.len() > 0 {
        seq![polled(m).1->Some_0] + drained(polled(m).0)
    } else {
        Seq::empty()
    }
}

/// A drain loop returns exactly the pending events, oldest first.
pub proof fn lemma_drained_is_pending(m: WindowModel)
    ensures
        drained(m) == m.pending,
    decreases m.pending.len(),
{
    if m.pending.len() > 0 {
        lemma_drained_is_pending(polled(m).0);
        assert(seq![m.pending[0]] + m.pending.drop_first() =~= m.pending);
    } else {
        assert(m.pending =~= Seq::<WindowEvent>::empty());
    }
}

/// Events come out in the order their notifications came in: after notifications `a` and
/// then `b` reach an open window, draining it returns what was pending before, then the
/// events of `a`, then those of `b`.
pub proof fn lemma_fifo(m: WindowModel, a: Notification, b: Notification)
    requires
        m.well_formed(),
        m.open,
    ensures
        drained(notified(notified(m, a), b)) == m.pending + translate_spec(m.backend, m.size_xy, a)
            + translate_spec(m.backend, m.size_xy, b),
{
    lemma_drained_is_pending(notified(notified(m, a), b));
}

/// The native pointer position at the window's top-left corner maps to (0, 0), and the one
/// at its bottom-right corner to (1, 1), whichever origin the backend reports from.
pub proof fn lemma_corners(backend: Backend, size_xy: (i32, i32))
    requires
        size_ok(backend, size_xy),
    ensures
        ({
            let (w, h) = size_xy;
            let top_left = match origin_of(backend) {
                Origin::TopLeft => Notification::Motion { x: 0, y: 0 },
                Origin::BottomLeft => Notification::Motion { x: 0, y: h },
            };
            let bottom_right = match origin_of(backend) {
                Origin::TopLeft => Notification::Motion { x: w, y: h },
                Origin::BottomLeft => Notification::Motion { x: w, y: 0 },
            };
            &&& translate_spec(backend, size_xy, top_left) == seq![
                WindowEvent::CursorMovement(
                    Ratio { num: 0, den: w as i64 },
                    Ratio { num: 0, den: h as i64 },
                ),
            ]
            &&& translate_spec(backend, size_xy, bottom_right) == seq![
                WindowEvent::CursorMovement(
                    Ratio { num: w as i64, den: w as i64 },
                    Ratio { num: h as i64, den: h as i64 },
                ),
            ]
        }),
{
}

/// A press or release of a button the backend does not recognize queues nothing and
/// changes no capture.
pub proof fn lemma_unrecognized_button_ignored(m: WindowModel, button: u32, x: i32, y: i32)
    requires
        button_spec(m.backend, button) is None,
    ensures
        notified(m, Notification::Press { button, x, y }) == m,
        notified(m, Notification::Release { button, x, y }) == m,
        notified_capture(m, Notification::Press { button, x, y }) == CaptureAction::Keep,
        notified_capture(m, Notification::Release { button, x, y }) == CaptureAction::Keep,
{
    assert(m.pending + Seq::<WindowEvent>::empty() =~= m.pending);
}

/// Teardown is idempotent: a second teardown releases nothing and changes nothing, and a
/// torn-down window yields no event, whatever notifications reach it afterwards.
pub proof fn lemma_teardown_idempotent(m: WindowModel, n: Notification)
    requires
        m.well_formed(),
    ensures
        closed(closed(m)) == closed(m),
        teardown_steps(closed(m)) == Seq::<TeardownStep>::empty(),
        polled(closed(m)) == (closed(m), None::<WindowEvent>),
        notified(closed(m), n) == closed(m),
        drained(notified(closed(m), n)) == Seq::<WindowEvent>::empty(),
{
    assert(closed(closed(m)) == closed(m));
    lemma_drained_is_pending(closed(m));
}

} // verus!
