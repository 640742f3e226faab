use vstd::prelude::*;

verus! {

/// A single-shot stop signal. The UI layer triggers it; the session loop
/// polls it once per iteration and winds down when it is set. The signal
/// only ever goes from unset to set, never back.
pub struct CancellationGate {
    signaled: bool,
}

/// The abstract effect of `trigger` on a gate's state: whatever the state
/// was, afterwards it is signaled.
pub open spec fn triggered(state: bool) -> bool {
    true
}

impl View for CancellationGate {
    type V = bool;

    closed spec fn view(&self) -> bool {
        self.signaled
    }
}

impl CancellationGate {
    /// A fresh gate is not signaled.
    pub fn new() -> (r: Self)
        ensures
            r@ == false,
    {
        CancellationGate { signaled: false }
    }

    /// Set the signal permanently. Triggering an already-signaled gate is
    /// a no-op, not an error.
    pub fn trigger(&mut self)
        ensures
            final(self)@ == triggered(old(self)@),
    {
        self.signaled = true;
    }

    /// Non-blocking poll of the signal.
    pub fn is_signaled(&self) -> (r: bool)
        ensures
            r == self@,
    {
        self.signaled
    }
}

/// Triggering a gate twice leaves it in the same state as triggering it
/// once: the observable effect of a second `trigger` is nothing.
pub proof fn lemma_trigger_idempotent(state: bool)
    ensures
        triggered(triggered(state)) == triggered(state),
{
}

} // verus!
