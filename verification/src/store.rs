//! The single-slot container for the live backend process handle, and the
//! teardown step that drains it on application exit.

use vstd::prelude::*;

verus! {

/// An opaque reference to a spawned backend process.
///
/// The supervisor never inspects the process behind a handle; the identifier
/// only lets the shutdown path find and terminate the child that the startup
/// path spawned earlier.
#[derive(Clone, Copy, PartialEq, Eq, Structural, Debug)]
pub struct ProcessHandle {
    pub id: u64,
}

/// A single-slot container holding the live child process handle, or nothing.
///
/// It is written by the startup sequence and drained by the shutdown
/// sequence, which may run on different threads of the host runtime; the
/// caller therefore guards the store with a mutual-exclusion lock at the
/// boundary. At most one occupant ever exists, and `take` removes it
/// atomically, so a handle is surrendered exactly once.
pub struct ProcessHandleStore {
    slot: Option<ProcessHandle>,
}

impl View for ProcessHandleStore {
    type V = Option<ProcessHandle>;

    closed spec fn view(&self) -> Option<ProcessHandle> {
        self.slot
    }
}

impl ProcessHandleStore {
    /// An empty store: no backend has been spawned yet.
    pub fn new() -> (s: Self)
        ensures
            s@ is None,
    {
        ProcessHandleStore { slot: None }
    }

    /// Records the handle of a freshly spawned backend, overwriting any
    /// previous occupant.
    pub fn store(&mut self, h: ProcessHandle)
        ensures
            final(self)@ == Some(h),
    {
        self.slot = Some(h);
    }

    /// Removes and returns the occupant, leaving the slot empty.
    ///
    /// On an empty store this returns `None` and changes nothing, so it is
    /// safe to call any number of times: after one `store`, the first `take`
    /// returns the handle and every later one returns `None`.
    pub fn take(&mut self) -> (r: Option<ProcessHandle>)
        ensures
            r == old(self)@,
            final(self)@ is None,
    {
        let r = self.slot;
        self.slot = None;
        r
    }
}

/// What the shutdown path must do after draining the store.
#[derive(Clone, Copy, PartialEq, Eq, Structural, Debug)]
pub enum TeardownAction {
    /// A backend was spawned during startup and still has to be terminated.
    Terminate(ProcessHandle),
    /// No handle was held; exiting requires no further work.
    Nothing,
}

/// The shutdown hook's decision: drains the store and says whether a child
/// process remains to be terminated.
///
/// Calling it when no handle is present is a no-op, so teardown is
/// idempotent; termination itself is best-effort work of the boundary and
/// never reported back.
pub fn teardown(s: &mut ProcessHandleStore) -> (a: TeardownAction)
    ensures
        final(s)@ is None,
        a == (match old(s)@ {
            Some(h) => TeardownAction::Terminate(h),
            None => TeardownAction::Nothing,
        }),
{
    match s.take() {
        Some(h) => TeardownAction::Terminate(h),
        None => TeardownAction::Nothing,
    }
}

} // verus!
