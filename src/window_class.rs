//! Reference counting of the process-wide window class that Win32 child windows share.
use vstd::prelude::*;

verus! {

/// Abstract state of the registry: how many live windows use the class, and the class's
/// token while it is registered.
pub ghost struct ClassState {
    pub count: nat,
    pub token: Option<u16>,
}

impl ClassState {
    pub open spec fn well_formed(self) -> bool {
        (self.count == 0) == (self.token is None)
    }
}

/// The state after a window asks for the class. `fresh` is the token of a registration
/// made for this request; it is used only when nothing is registered. The flag says
/// whether the class became registered by this request.
pub open spec fn acquire_spec(s: ClassState, fresh: Option<u16>) -> (ClassState, Option<u16>, bool) {
    if s.count > 0 {
        (ClassState { count: s.count + 1, token: s.token }, s.token, false)
    } else {
        match fresh {
            Some(t) => (ClassState { count: 1, token: Some(t) }, Some(t), true),
            None => (s, None, false),
        }
    }
}

/// The state after a window gives the class back, and the token to unregister, if this
/// was the last user.
pub open spec fn release_spec(s: ClassState) -> (ClassState, Option<u16>) {
    if s.count == 0 {
        (s, None)
    } else if s.count == 1 {
        (ClassState { count: 0, token: None }, s.token)
    } else {
        (ClassState { count: (s.count - 1) as nat, token: s.token }, None)
    }
}

/// Counts the windows that use the shared class and holds its token while any does.
#[derive(Debug)]
pub struct WindowClassRegistry {
    count: u64,
    token: Option<u16>,
}

impl View for WindowClassRegistry {
    type V = ClassState;

    closed spec fn view(&self) -> ClassState {
        ClassState { count: self.count as nat, token: self.token }
    }
}

impl WindowClassRegistry {
    /// Largest number of simultaneous users the registry counts.
    pub open spec fn capacity() -> nat {
        u64::MAX as nat
    }

    /// A registry with nothing registered.
    pub fn new() -> (r: WindowClassRegistry)
        ensures
            r@ == (ClassState { count: 0, token: None }),
    {
        WindowClassRegistry { count: 0, token: None }
    }

    /// Whether a window that asks for the class now must register it first.
    pub fn needs_registration(&self) -> (r: bool)
        ensures
            r == (self@.count == 0),
    {
        self.count == 0
    }

    /// Number of live windows that use the class.
    pub fn count(&self) -> (r: u64)
        ensures
            r == self@.count,
    {
        self.count
    }

    /// Takes a reference to the class for a new window. Where nothing is registered,
    /// `fresh` is the token of the registration just made for this window (`None` if it
    /// failed). Returns the class token to create the window with, or `None` if there is
    /// none to use.
    pub fn acquire(&mut self, fresh: Option<u16>) -> (r: Option<u16>)
        requires
            old(self)@.well_formed(),
            old(self)@.count < Self::capacity(),
        ensures
            final(self)@ == acquire_spec(old(self)@, fresh).0,
            r == acquire_spec(old(self)@, fresh).1,
            final(self)@.well_formed(),
    {
        if self.count > 0 {
            self.count = self.count + 1;
            self.token
        } else {
            match fresh {
                Some(t) => {
                    self.count = 1;
                    self.token = Some(t);
                    Some(t)
                },
                None => None,
            }
        }
    }

    /// Gives back a window's reference. Returns the token to unregister when this was the
    /// last window that used the class.
    pub fn release(&mut self) -> (r: Option<u16>)
        requires
            old(self)@.well_formed(),
        ensures
            final(self)@ == release_spec(old(self)@).0,
            r == release_spec(old(self)@).1,
            final(self)@.well_formed(),
    {
        if self.count == 0 {
            None
        } else if self.count == 1 {
            let t = self.token;
            self.count = 0;
            self.token = None;
            t
        } else {
            self.count = self.count - 1;
            None
        }
    }
}

/// Two windows opened one after the other and both torn down: the class is registered at
/// most once, exactly when nothing was registered before, and the count of users returns
/// to where it started, with nothing left registered if nothing was before.
pub proof fn lemma_two_windows_share_class(s: ClassState, fresh1: Option<u16>, fresh2: Option<u16>)
    requires
        s.well_formed(),
        fresh1 is Some,
    ensures
        ({
            let (s1, t1, reg1) = acquire_spec(s, fresh1);
            let (s2, t2, reg2) = acquire_spec(s1, fresh2);
            let (s3, u1) = release_spec(s2);
            let (s4, u2) = release_spec(s3);
            &&& t1 is Some && t2 == t1
            &&& reg1 == (s.count == 0)
            &&& !reg2
            &&& s4 == s
            &&& u1 is None
            &&& (s.count == 0 ==> u2 == t1)
            &&& (s.count > 0 ==> u2 is None)
        }),
{
}

} // verus!
