//! The result of one outbound call, and the rule that turns the stable
//! backend's result into the status code the original caller sees.

use vstd::prelude::*;

verus! {

/// Status returned to the caller when the stable backend failed at the
/// transport level without surfacing any HTTP status code.
pub const STATUS_INTERNAL_SERVER_ERROR: u16 = 500;

/// The outcome of a single outbound POST to one backend.
///
/// Either the backend answered with an HTTP status code, or the call failed
/// below the HTTP layer (connection refused, timeout, TLS or DNS failure).
/// A transport failure may still carry a status code when the underlying
/// client surfaces one alongside the error.
#[derive(Clone, Copy, Debug, PartialEq, Eq, Structural)]
pub enum ForwardOutcome {
    /// The backend replied; the code is whatever it sent (2xx, 4xx, 5xx, ...).
    Status(u16),
    /// The call failed at the transport level, with or without an associated
    /// status code.
    TransportFailure(Option<u16>),
}

/// The status code owed to the caller for a given stable-backend outcome:
/// any status the stable backend surfaced is relayed verbatim, and a bare
/// transport failure becomes a generic internal error.
pub open spec fn reconciled(stable: ForwardOutcome) -> u16 {
    match stable {
        ForwardOutcome::Status(code) => code,
        ForwardOutcome::TransportFailure(Some(code)) => code,
        ForwardOutcome::TransportFailure(None) => STATUS_INTERNAL_SERVER_ERROR,
    }
}

/// The status code the caller sees once both outcomes are available. The dev
/// outcome is an argument — the reply may only be computed after both calls
/// finished — but the value is determined by the stable outcome alone.
pub open spec fn reply_spec(stable: ForwardOutcome, dev: ForwardOutcome) -> u16 {
    reconciled(stable)
}

impl ForwardOutcome {
    /// Maps this outcome, taken as the stable backend's, to the status code
    /// relayed to the original caller.
    pub fn reconcile(&self) -> (code: u16)
        ensures
            code == reconciled(*self),
    {
        match self {
            ForwardOutcome::Status(code) => *code,
            ForwardOutcome::TransportFailure(Some(code)) => *code,
            ForwardOutcome::TransportFailure(None) => STATUS_INTERNAL_SERVER_ERROR,
        }
    }
}

/// Computes the one reply for an inbound request, given that both backends
/// have come to an outcome. Taking both outcomes encodes the join: the reply
/// exists only after the dev call completed too, yet its value never depends
/// on what the dev backend did.
pub fn reply_status(stable: &ForwardOutcome, dev: &ForwardOutcome) -> (code: u16)
    ensures
        code == reply_spec(*stable, *dev),
        code == reconciled(*stable),
{
    stable.reconcile()
}

/// The dev backend's outcome never influences the reply: for one stable
/// outcome, any two dev outcomes yield the same status code.
pub proof fn lemma_reply_ignores_dev(stable: ForwardOutcome, dev1: ForwardOutcome, dev2: ForwardOutcome)
    ensures
        reply_spec(stable, dev1) == reply_spec(stable, dev2),
{
}

} // verus!
