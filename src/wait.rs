//! Pollable units of work and single-use readiness conditions.
use vstd::prelude::*;

verus! {

/// Outcome of polling a unit of work once.
#[derive(Debug, PartialEq, Eq, Structural)]
pub enum Poll<T> {
    /// Not done yet: poll again later.
    Pending,
    /// Done, with the result.
    Ready(T),
}

/// The hardware readiness flags that the clock bring-up waits on.
#[derive(Debug, Clone, Copy, PartialEq, Eq, Structural)]
pub enum ReadyFlag {
    /// The external oscillator is stable.
    Oscillator,
    /// The frequency multiplier is locked.
    Multiplier,
}

/// What a resolved condition asks the caller to do: clear the flag it watched.
#[derive(Debug, Clone, Copy, PartialEq, Eq, Structural)]
pub struct Acknowledge {
    pub flag: ReadyFlag,
}

/// A single-use wait on one readiness flag.
///
/// It stays pending while the flag reads unset; the first time the flag reads
/// set it resolves, asking for the flag to be cleared, and may not be polled
/// again.
#[derive(Debug)]
pub struct WaitCondition {
    flag: ReadyFlag,
    resolved: bool,
}

impl WaitCondition {
    /// The flag this condition watches.
    pub closed spec fn watched(&self) -> ReadyFlag {
        self.flag
    }

    /// Whether this condition has already resolved.
    pub closed spec fn is_resolved(&self) -> bool {
        self.resolved
    }

    /// A fresh, unresolved condition on `flag`.
    pub fn new(flag: ReadyFlag) -> (r: WaitCondition)
        ensures
            r.watched() == flag,
            !r.is_resolved(),
    {
        WaitCondition { flag, resolved: false }
    }

    /// The flag this condition watches.
    pub fn flag(&self) -> (r: ReadyFlag)
        ensures
            r == self.watched(),
    {
        self.flag
    }

    /// Whether this condition has already resolved.
    pub fn resolved(&self) -> (r: bool)
        ensures
            r == self.is_resolved(),
    {
        self.resolved
    }

    /// Polls the condition against the current reading of its flag.
    pub fn poll(&mut self, flag_set: bool) -> (r: Poll<Acknowledge>)
        requires
            !old(self).is_resolved(),
        ensures
            final(self).watched() == old(self).watched(),
            final(self).is_resolved() == flag_set,
            flag_set ==> r == Poll::Ready(Acknowledge { flag: old(self).watched() }),
            !flag_set ==> r == Poll::<Acknowledge>::Pending,
    {
        if flag_set {
            self.resolved = true;
            Poll::Ready(Acknowledge { flag: self.flag })
        } else {
            Poll::Pending
        }
    }
}

} // verus!
