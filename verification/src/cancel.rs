//! The one-shot cancellation latch of a run.
use vstd::prelude::*;

verus! {

/// A latch that opens once and stays open. Waiting on it is the business of
/// the program that owns the tasks; the latch itself only remembers whether
/// cancellation was requested, so that a waiter that comes late still sees
/// the request.
#[derive(Clone, Copy, Debug, PartialEq, Eq, Structural)]
pub struct CancellationSignal {
    requested: bool,
}

impl CancellationSignal {
    /// Whether cancellation has been requested.
    pub closed spec fn raised(&self) -> bool {
        self.requested
    }

    /// A latch that nobody has opened yet.
    pub fn new() -> (r: CancellationSignal)
        ensures
            !r.raised(),
    {
        CancellationSignal { requested: false }
    }

    /// Opens the latch. Opening an open latch changes nothing.
    pub fn request(&mut self)
        ensures
            final(self).raised(),
            old(self).raised() ==> *final(self) == *old(self),
    {
        self.requested = true;
    }

    /// Whether cancellation has been requested.
    #[verifier::when_used_as_spec(raised)]
    pub fn is_requested(&self) -> (r: bool)
        ensures
            r == self.raised(),
    {
        self.requested
    }
}

} // verus!
