//! The per-request lifecycle after dispatch: each backend's outcome arrives
//! once, in either order, and the reply exists exactly when both have — a
//! join, never a race.

use vstd::prelude::*;
use crate::outcome::{reconciled, reply_spec, ForwardOutcome};

verus! {

/// Which backend an outcome belongs to.
#[derive(Clone, Copy, Debug, PartialEq, Eq, Structural)]
pub enum BackendRole {
    Stable,
    Dev,
}

/// The progress of one dispatched inbound request: which of its two
/// outbound calls have come to an outcome so far.
#[derive(Clone, Copy, Debug)]
pub struct Exchange {
    pub stable: Option<ForwardOutcome>,
    pub dev: Option<ForwardOutcome>,
}

impl Exchange {
    /// A freshly dispatched request: neither backend has an outcome yet.
    pub fn new() -> (e: Exchange)
        ensures
            e.stable is None,
            e.dev is None,
    {
        Exchange { stable: None, dev: None }
    }

    /// Whether the given backend's outcome has already arrived.
    pub fn has(&self, role: BackendRole) -> (r: bool)
        ensures
            r == match role {
                BackendRole::Stable => self.stable is Some,
                BackendRole::Dev => self.dev is Some,
            },
    {
        match role {
            BackendRole::Stable => self.stable.is_some(),
            BackendRole::Dev => self.dev.is_some(),
        }
    }

    /// Records the outcome of the given backend as it completes. Exactly one
    /// outcome exists per backend per request, so each role is recorded once;
    /// the other backend's entry is untouched, whichever order they finish in.
    pub fn record(&mut self, role: BackendRole, outcome: ForwardOutcome)
        requires
            match role {
                BackendRole::Stable => old(self).stable is None,
                BackendRole::Dev => old(self).dev is None,
            },
        ensures
            match role {
                BackendRole::Stable => final(self).stable == Some(outcome) && final(self).dev
                    == old(self).dev,
                BackendRole::Dev => final(self).dev == Some(outcome) && final(self).stable == old(
                    self,
                ).stable,
            },
    {
        match role {
            BackendRole::Stable => self.stable = Some(outcome),
            BackendRole::Dev => self.dev = Some(outcome),
        }
    }

    /// The reply owed to the original caller: it exists exactly when both
    /// outcomes are available, and its value is the reconciled stable
    /// outcome — the dev outcome gates completion but never the code.
    pub fn reply(&self) -> (r: Option<u16>)
        ensures
            r is Some <==> (self.stable is Some && self.dev is Some),
            (r matches Some(code) ==> code == reply_spec(self.stable->0, self.dev->0)),
            (r matches Some(code) ==> code == reconciled(self.stable->0)),
    {
        match (&self.stable, &self.dev) {
            (Some(stable), Some(_dev)) => Some(stable.reconcile()),
            _ => None,
        }
    }
}

} // verus!
