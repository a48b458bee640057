//! The poll task's rule for switching targets: a request is taken up before the next walk, never
//! during one, and a request whose session could not be opened stays pending and is tried again
//! at the next cycle while the old session stays in use.

use vstd::prelude::*;

verus! {

/// The request to switch targets that the poll task has not carried out yet.
pub struct TargetSwitch<T> {
    pub pending: Option<T>,
}

impl<T> TargetSwitch<T> {
    /// No request pending.
    pub fn new() -> (r: Self)
        ensures
            r.pending is None,
    {
        TargetSwitch { pending: None }
    }

    /// A request arrived; the newest one replaces any that is still pending.
    pub fn request(&mut self, target: T)
        ensures
            final(self).pending == Some(target),
    {
        self.pending = Some(target);
    }

    /// The target to open a session with before the next walk, if a request is pending.
    pub fn to_connect(&self) -> (r: Option<&T>)
        ensures
            r is Some <==> self.pending is Some,
            r matches Some(t) ==> self.pending == Some(*t),
    {
        match &self.pending {
            Some(t) => Some(t),
            None => None,
        }
    }

    /// The outcome of opening that session: once it is open nothing is pending; when it could
    /// not be opened the request stays pending for the next cycle.
    pub fn connected(&mut self, opened: bool)
        ensures
            opened ==> final(self).pending is None,
            !opened ==> final(self).pending == old(self).pending,
    {
        if opened {
            self.pending = None;
        }
    }
}

} // verus!
