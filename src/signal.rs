//! A single-use shutdown notification: signalled by the callback handler,
//! awaited by the serve loop.

use vstd::prelude::*;

verus! {

/// What a shutdown signal has seen: whether it was signalled, and whether
/// the waiting side has observed that.
pub struct SignalState {
    pub signaled: bool,
    pub consumed: bool,
}

/// The state after `signal`: signalled, whatever it was before.
pub open spec fn after_signal(s: SignalState) -> SignalState {
    SignalState { signaled: true, consumed: s.consumed }
}

/// The state after a wait: a signalled state is marked observed; an
/// unsignalled one is left as it is, the wait still pending.
pub open spec fn after_wait(s: SignalState) -> SignalState {
    if s.signaled {
        SignalState { signaled: true, consumed: true }
    } else {
        s
    }
}

/// A write-once shutdown flag. Signalling more than once is a no-op.
pub struct ShutdownSignal {
    signaled: bool,
    consumed: bool,
}

impl View for ShutdownSignal {
    type V = SignalState;

    closed spec fn view(&self) -> SignalState {
        SignalState { signaled: self.signaled, consumed: self.consumed }
    }
}

impl ShutdownSignal {
    /// A signal that has not fired.
    pub fn new() -> (r: ShutdownSignal)
        ensures
            r@ == (SignalState { signaled: false, consumed: false }),
    {
        ShutdownSignal { signaled: false, consumed: false }
    }

    /// Fires the signal. Returns whether this call was the one that fired
    /// it; a later call changes nothing and returns `false`.
    pub fn signal(&mut self) -> (first: bool)
        ensures
            final(self)@ == after_signal(old(self)@),
            first == !old(self)@.signaled,
    {
        let first = !self.signaled;
        self.signaled = true;
        first
    }

    /// The waiting side: `true` once the signal has fired, which it then
    /// records as observed; `false` while it is still pending.
    pub fn wait(&mut self) -> (ready: bool)
        ensures
            final(self)@ == after_wait(old(self)@),
            ready == old(self)@.signaled,
    {
        if self.signaled {
            self.consumed = true;
        }
        self.signaled
    }

    pub fn is_signaled(&self) -> (r: bool)
        ensures
            r == self@.signaled,
    {
        self.signaled
    }
}

/// Signalling twice is the same as signalling once: the second call is a
/// no-op that reports it did not fire the signal. Both calls return, since
/// `signal` has no precondition and always terminates.
pub proof fn lemma_signal_twice_is_noop(s: SignalState)
    ensures
        after_signal(after_signal(s)) == after_signal(s),
        after_signal(s).signaled,
{
}

/// Once signalled, every wait is ready at once, and waiting again changes
/// nothing.
pub proof fn lemma_wait_after_signal_is_ready(s: SignalState)
    ensures
        after_signal(s).signaled,
        after_wait(after_signal(s)).signaled,
        after_wait(after_wait(after_signal(s))) == after_wait(after_signal(s)),
{
}

} // verus!
