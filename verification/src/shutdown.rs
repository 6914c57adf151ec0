//! A fire-once stop notification shared by every component.

use vstd::prelude::*;

verus! {

/// Why the process is going down.
#[derive(Clone, Copy, Debug, PartialEq, Eq, Structural)]
pub enum ShutdownCause {
    /// The operating system asked the process to terminate.
    Termination,
    /// An operator asked for a shutdown.
    Operator,
    /// A supervised job, identified by its index, ended.
    Job(usize),
}

/// The shared stop notification. It starts unfired, is fired at most once in
/// effect, and can be observed any number of times before and after.
pub struct ShutdownSignal {
    cause: Option<ShutdownCause>,
}

impl ShutdownSignal {
    /// The cause recorded by the call that fired the signal, if any did.
    pub closed spec fn cause(&self) -> Option<ShutdownCause> {
        self.cause
    }

    /// Whether the signal has fired.
    pub open spec fn fired(&self) -> bool {
        self.cause() is Some
    }

    /// The cause that the signal holds once it is fired with `cause`: the one
    /// it fired with first.
    pub open spec fn cause_after(&self, cause: ShutdownCause) -> Option<ShutdownCause> {
        if self.fired() {
            self.cause()
        } else {
            Some(cause)
        }
    }

    /// A signal that has not fired.
    pub fn new() -> (signal: ShutdownSignal)
        ensures
            !signal.fired(),
    {
        ShutdownSignal { cause: None }
    }

    /// Fires the signal. Only the first call has an effect; it returns `true`
    /// and records `cause`. Every later call returns `false` and changes nothing.
    pub fn fire(&mut self, cause: ShutdownCause) -> (first: bool)
        ensures
            first == !old(self).fired(),
            final(self).fired(),
            final(self).cause() == old(self).cause_after(cause),
    {
        if self.cause.is_none() {
            self.cause = Some(cause);
            true
        } else {
            false
        }
    }

    /// Whether the signal has fired.
    pub fn is_fired(&self) -> (fired: bool)
        ensures
            fired == self.fired(),
    {
        self.cause.is_some()
    }

    /// The cause that the signal fired with, if it has fired.
    pub fn fired_cause(&self) -> (cause: Option<ShutdownCause>)
        ensures
            cause == self.cause(),
    {
        self.cause
    }

    /// Firing is idempotent: where `fired` is the signal after it was fired
    /// with `first`, firing it again leaves it as it is, whatever the second
    /// cause.
    pub proof fn lemma_fire_is_idempotent(
        &self,
        fired: ShutdownSignal,
        first: ShutdownCause,
        second: ShutdownCause,
    )
        requires
            fired.cause() == self.cause_after(first),
        ensures
            fired.fired(),
            fired.cause_after(second) == fired.cause(),
    {
    }
}

} // verus!
