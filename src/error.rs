//! Error taxonomy shared by every backend.
use vstd::prelude::*;

use crate::text::{decimal_string, push_radix, radix_digits, signed_decimal, signed_decimal_string};

verus! {

/// The platform implementation that produced a value or an error.
#[derive(Clone, Copy, Debug, PartialEq, Eq, Structural)]
pub enum Backend {
    AppKit,
    Win32,
    X11,
}

pub open spec fn backend_name(b: Backend) -> Seq<char> {
    match b {
        Backend::AppKit => "AppKit"@,
        Backend::Win32 => "Win32"@,
        Backend::X11 => "X11"@,
    }
}

impl Backend {
    /// Human-readable name of the backend.
    pub fn name(&self) -> (r: &'static str)
        ensures
            r@ == backend_name(*self),
    {
        match *self {
            Backend::AppKit => "AppKit",
            Backend::Win32 => "Win32",
            Backend::X11 => "X11",
        }
    }
}

/// What went wrong while setting up a window.
#[derive(Clone, Copy, Debug, PartialEq, Eq, Structural)]
pub enum ErrorKind {
    /// The parent reference is null or not recognized by the platform.
    InvalidParent { parent: u64 },
    /// The requested size (`width`, `height`) lies outside what the platform can represent;
    /// `bound` is the largest extent it accepts on either axis.
    InvalidWindowSize { width: i32, height: i32, bound: i32 },
    /// The display server or session could not be reached.
    ConnectionFailure,
    /// Any other native failure; its diagnostic is in the error's source chain.
    Other,
}

/// An error raised while setting up an editor window: the backend that raised it, its
/// kind, an optional context line, and the chain of underlying diagnostics, outermost first.
#[derive(Debug)]
pub struct SetupError {
    pub backend: Backend,
    pub kind: ErrorKind,
    pub context: Option<String>,
    pub sources: Vec<String>,
}

/// One line describing an error: its context, or a generic phrase, and the backend.
pub open spec fn describe_spec(context: Option<String>, backend: Backend) -> Seq<char> {
    let lead = match context {
        Some(c) => c@,
        None => "platform error"@,
    };
    lead + " ("@ + backend_name(backend) + ")"@
}

/// `head` followed by each diagnostic of `sources`, each after a colon.
pub open spec fn chain_spec(head: Seq<char>, sources: Seq<String>) -> Seq<char>
    decreases sources.len(),
{
    if sources.len() == 0 {
        head
    } else {
        chain_spec(head, sources.drop_last()) + ": "@ + sources.last()@
    }
}

pub open spec fn invalid_parent_message(parent: u64) -> Seq<char> {
    "supplied parent pointer ("@ + (if parent == 0 {
        "null"@
    } else {
        "0x"@ + radix_digits(parent as nat, 16)
    }) + ") is not valid for this platform"@
}

pub open spec fn invalid_size_message(size_xy: (i32, i32)) -> Seq<char> {
    "supplied window size (width: "@ + signed_decimal(size_xy.0 as int) + ", height: "@
        + signed_decimal(size_xy.1 as int) + ") is not valid for this platform"@
}

pub open spec fn last_error_message(called_fn: Seq<char>, code: u32) -> Seq<char> {
    "call to "@ + called_fn + " failed: error code "@ + radix_digits(code as nat, 10)
}

impl SetupError {
    /// The backend that raised this error.
    pub fn backend(&self) -> (r: Backend)
        ensures
            r == self.backend,
    {
        self.backend
    }

    /// An error of a given kind whose cause is described by `source`.
    pub fn new(backend: Backend, kind: ErrorKind, source: String) -> (r: SetupError)
        ensures
            r.backend == backend,
            r.kind == kind,
            r.context is None,
            r.sources@ == seq![source],
    {
        let mut sources = Vec::new();
        sources.push(source);
        SetupError { backend, kind, context: None, sources }
    }

    /// Like `new`, with a context line that says what was being attempted.
    pub fn with_context(backend: Backend, kind: ErrorKind, source: String, context: &str) -> (r:
        SetupError)
        ensures
            r.backend == backend,
            r.kind == kind,
            r.context matches Some(c) && c@ == context@,
            r.sources@ == seq![source],
    {
        let mut sources = Vec::new();
        sources.push(source);
        SetupError { backend, kind, context: Some(String::from_str(context)), sources }
    }

    /// An opaque native failure described only by its diagnostic.
    pub fn new_boxed(backend: Backend, source: String) -> (r: SetupError)
        ensures
            r.backend == backend,
            r.kind == ErrorKind::Other,
            r.context is None,
            r.sources@ == seq![source],
    {
        Self::new(backend, ErrorKind::Other, source)
    }

    /// An opaque native failure with a context line.
    pub fn with_context_boxed(backend: Backend, source: String, context: &str) -> (r: SetupError)
        ensures
            r.backend == backend,
            r.kind == ErrorKind::Other,
            r.context matches Some(c) && c@ == context@,
            r.sources@ == seq![source],
    {
        Self::with_context(backend, ErrorKind::Other, source, context)
    }

    /// The parent reference was rejected.
    pub fn invalid_parent(backend: Backend, parent: u64) -> (r: SetupError)
        ensures
            r.backend == backend,
            r.kind == (ErrorKind::InvalidParent { parent }),
            r.context is None,
            r.sources.len() == 1,
            r.sources@[0]@ == invalid_parent_message(parent),
    {
        let mut msg = String::from_str("supplied parent pointer (");
        if parent == 0 {
            msg.append("null");
        } else {
            msg.append("0x");
            push_radix(&mut msg, parent, 16);
        }
        msg.append(") is not valid for this platform");
        assert(msg@ =~= invalid_parent_message(parent));
        Self::new(backend, ErrorKind::InvalidParent { parent }, msg)
    }

    /// The requested size was rejected; `bound` is the largest extent accepted.
    pub fn invalid_size(backend: Backend, size_xy: (i32, i32), bound: i32) -> (r: SetupError)
        ensures
            r.backend == backend,
            r.kind == (ErrorKind::InvalidWindowSize { width: size_xy.0, height: size_xy.1, bound }),
            r.context is None,
            r.sources.len() == 1,
            r.sources@[0]@ == invalid_size_message(size_xy),
    {
        let mut msg = String::from_str("supplied window size (width: ");
        let w = signed_decimal_string(size_xy.0 as i64);
        msg.append(w.as_str());
        msg.append(", height: ");
        let h = signed_decimal_string(size_xy.1 as i64);
        msg.append(h.as_str());
        msg.append(") is not valid for this platform");
        assert(msg@ =~= invalid_size_message(size_xy));
        Self::new(
            backend,
            ErrorKind::InvalidWindowSize { width: size_xy.0, height: size_xy.1, bound },
            msg,
        )
    }

    /// One line naming the context, or saying that the platform failed, and the backend.
    pub fn describe(&self) -> (r: String)
        ensures
            r@ == describe_spec(self.context, self.backend),
    {
        let mut out = match &self.context {
            Some(c) => c.clone(),
            None => String::from_str("platform error"),
        };
        out.append(" (");
        out.append(self.backend.name());
        out.append(")");
        assert(out@ =~= describe_spec(self.context, self.backend));
        out
    }

    /// The description followed by every underlying diagnostic, separated by colons.
    pub fn chain_message(&self) -> (r: String)
        ensures
            r@ == chain_spec(describe_spec(self.context, self.backend), self.sources@),
    {
        let head = self.describe();
        let mut out = head.clone();
        let mut i: usize = 0;
        while i < self.sources.len()
            invariant
                0 <= i <= self.sources@.len(),
                out@ == chain_spec(head@, self.sources@.subrange(0, i as int)),
                head@ == describe_spec(self.context, self.backend),
            decreases self.sources@.len() - i,
        {
            out.append(": ");
            out.append(self.sources[i].as_str());
            proof {
                let s = self.sources@.subrange(0, i as int + 1);
                assert(s.drop_last() =~= self.sources@.subrange(0, i as int));
                assert(s.last() == self.sources@[i as int]);
            }
            i = i + 1;
        }
        assert(self.sources@.subrange(0, self.sources@.len() as int) =~= self.sources@);
        out
    }
}

/// The message for a failed native call: the function's name and the error code.
pub fn format_last_error(called_fn: &str, code: u32) -> (r: String)
    ensures
        r@ == last_error_message(called_fn@, code),
{
    let mut out = String::from_str("call to ");
    out.append(called_fn);
    out.append(" failed: error code ");
    let digits = decimal_string(code as u64);
    out.append(digits.as_str());
    assert(out@ =~= last_error_message(called_fn@, code));
    out
}

/// A Win32 error for a failed native call with the given error code.
pub fn wrap_last_error(called_fn: &str, code: u32) -> (r: SetupError)
    ensures
        r.backend == Backend::Win32,
        r.kind == ErrorKind::Other,
        r.context is None,
        r.sources.len() == 1,
        r.sources@[0]@ == last_error_message(called_fn@, code),
{
    SetupError::new_boxed(Backend::Win32, format_last_error(called_fn, code))
}

} // verus!
