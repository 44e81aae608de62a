//! The open register map: its handle, construction from the engine's result,
//! and teardown.

use vstd::prelude::*;

use crate::error::{Error, MAX_ERRNO};

verus! {

/// The engine returned an encoded error instead of a handle: the top
/// `MAX_ERRNO` addresses stand for the negated error numbers.
pub open spec fn is_err_ptr(raw: usize) -> bool {
    raw as int > usize::MAX as int - MAX_ERRNO as int
}

/// The error code that an encoded error pointer stands for.
pub open spec fn ptr_errno(raw: usize) -> int {
    raw as int - usize::MAX as int - 1
}

/// An open register map: the engine's handle, together with the transport
/// (for instance a mapped memory region) that must stay alive while the
/// handle is open.
///
/// A `Regmap` can be moved but not copied, so its handle is closed once.
pub struct Regmap<T> {
    ptr: usize,
    bus: T,
}

/// Where the teardown of a register map stands.
#[derive(Clone, Copy, Debug, PartialEq, Eq, Structural)]
pub enum Lifecycle {
    /// The engine's handle is open.
    Open { handle: usize },
    /// The handle is closed; the transport is still held.
    NativeClosed,
    /// Handle and transport are both released.
    Released,
}

/// What the owner of a register map does next while tearing it down.
#[derive(Clone, Copy, Debug, PartialEq, Eq, Structural)]
pub enum TeardownAction {
    /// Close the engine's handle.
    CloseNative { handle: usize },
    /// Release the transport.
    ReleaseTransport,
    /// Nothing is left to release.
    Done,
}

impl Lifecycle {
    /// One step of teardown: the handle is closed first, then the transport
    /// released, then nothing more happens.
    pub open spec fn spec_step(self) -> (Lifecycle, TeardownAction) {
        match self {
            Lifecycle::Open { handle } => (Lifecycle::NativeClosed, TeardownAction::CloseNative { handle }),
            Lifecycle::NativeClosed => (Lifecycle::Released, TeardownAction::ReleaseTransport),
            Lifecycle::Released => (Lifecycle::Released, TeardownAction::Done),
        }
    }

    /// The next state of teardown and the action that leads there.
    pub fn step(self) -> (r: (Lifecycle, TeardownAction))
        ensures
            r == self.spec_step(),
    {
        match self {
            Lifecycle::Open { handle } => (Lifecycle::NativeClosed, TeardownAction::CloseNative { handle }),
            Lifecycle::NativeClosed => (Lifecycle::Released, TeardownAction::ReleaseTransport),
            Lifecycle::Released => (Lifecycle::Released, TeardownAction::Done),
        }
    }
}

/// The actions of `n` steps of teardown from `s`.
pub open spec fn teardown_trace(s: Lifecycle, n: nat) -> Seq<TeardownAction>
    decreases n,
{
    if n == 0 {
        Seq::empty()
    } else {
        seq![s.spec_step().1] + teardown_trace(s.spec_step().0, (n - 1) as nat)
    }
}

proof fn lemma_released_stays_done(n: nat)
    ensures
        teardown_trace(Lifecycle::Released, n) =~= Seq::new(n, |i: int| TeardownAction::Done),
    decreases n,
{
    if n > 0 {
        lemma_released_stays_done((n - 1) as nat);
    }
}

/// Teardown of an open map closes its handle exactly once, then releases its
/// transport exactly once, and does nothing after: however many steps are
/// run, the actions are the close, the release, and then only `Done`.
pub proof fn lemma_teardown_once_in_order(handle: usize, n: nat)
    requires
        n >= 2,
    ensures
        teardown_trace(Lifecycle::Open { handle }, n) =~= seq![
            TeardownAction::CloseNative { handle },
            TeardownAction::ReleaseTransport,
        ] + Seq::new((n - 2) as nat, |i: int| TeardownAction::Done),
{
    lemma_released_stays_done((n - 2) as nat);
    assert(teardown_trace(Lifecycle::NativeClosed, (n - 1) as nat) == seq![
        TeardownAction::ReleaseTransport,
    ] + teardown_trace(Lifecycle::Released, (n - 2) as nat));
}

impl<T> Regmap<T> {
    /// The engine's handle.
    pub closed spec fn spec_handle(&self) -> usize {
        self.ptr
    }

    /// The transport held while the handle is open.
    pub closed spec fn spec_bus(&self) -> T {
        self.bus
    }

    /// Takes the result of the engine's open call. A handle yields an open
    /// map that holds it and the transport; an encoded error yields that
    /// error, no map, and the transport is dropped here, once.
    pub fn from_init_result(raw: usize, bus: T) -> (r: Result<Regmap<T>, Error>)
        ensures
            r is Err <==> is_err_ptr(raw),
            r matches Ok(m) ==> m.spec_handle() == raw && m.spec_bus() == bus,
            r matches Err(e) ==> e.spec_code() as int == ptr_errno(raw),
    {
        if raw > usize::MAX - (MAX_ERRNO as usize) {
            let below: usize = usize::MAX - raw;
            Err(Error::from_errno(-(below as i32) - 1))
        } else {
            Ok(Regmap { ptr: raw, bus })
        }
    }

    /// The engine's handle, for register reads and writes.
    pub fn native_handle(&self) -> (r: usize)
        ensures
            r == self.spec_handle(),
    {
        self.ptr
    }

    /// The transport held by this map.
    pub fn bus(&self) -> (r: &T)
        ensures
            *r == self.spec_bus(),
    {
        &self.bus
    }

    /// Starts teardown: gives up the map for its open state and its transport.
    /// Running [`Lifecycle::step`] from the state closes the handle, then tells
    /// when to release the transport.
    pub fn into_teardown(self) -> (r: (Lifecycle, T))
        ensures
            r.0 == (Lifecycle::Open { handle: self.spec_handle() }),
            r.1 == self.spec_bus(),
    {
        (Lifecycle::Open { handle: self.ptr }, self.bus)
    }
}

} // verus!
