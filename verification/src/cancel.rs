//! The one-shot cancellation mechanism of a run. A caller arms a token,
//! requests cancellation through it at most meaningfully once, and a single
//! watcher consumes the signal: it blocks until the signal arrives — it
//! never polls — and then attempts termination only if a liveness probe
//! still finds the child running, because the child may have exited
//! naturally between signal delivery and wake-up.

use vstd::prelude::*;

verus! {

/// One cancellation message. Only a message carrying `true` requests
/// termination; a `false` message is ignored by the watcher.
pub struct Interrupt(pub bool);

/// The one-shot token of a run: whether a request to cancel is pending.
/// Arming creates it with nothing pending; each effective request sets the
/// pending flag, and setting it again changes nothing.
pub struct CancelToken {
    pending: bool,
}

/// Whether a cancellation message requests termination.
pub open spec fn signal_requests_cancel(signal: Option<Interrupt>) -> bool {
    match signal {
        Some(i) => i.0,
        None => false,
    }
}

/// The pending flag after one request carrying `signal` reaches a token
/// whose pending flag is `pending`.
pub open spec fn request_next(pending: bool, signal: Interrupt) -> bool {
    pending || signal.0
}

impl CancelToken {
    /// Whether a request to cancel is pending on this token.
    pub closed spec fn spec_pending(&self) -> bool {
        self.pending
    }

    /// A fresh token with no request pending.
    pub fn new() -> (r: CancelToken)
        ensures
            !r.spec_pending(),
    {
        CancelToken { pending: false }
    }

    /// Whether a request to cancel has been delivered to this token.
    pub fn is_pending(&self) -> (r: bool)
        ensures
            r == self.spec_pending(),
    {
        self.pending
    }

    /// Deliver one cancellation message to the token. A message carrying
    /// `false` changes nothing; one carrying `true` sets the pending flag,
    /// whether or not it was already set.
    pub fn request(&mut self, signal: Interrupt)
        ensures
            final(self).spec_pending() == request_next(old(self).spec_pending(), signal),
    {
        if signal.0 {
            self.pending = true;
        }
    }
}

/// Requesting cancellation twice leaves the token exactly as one request
/// does: the token is idempotent under its own signal.
pub proof fn lemma_request_idempotent(pending: bool, signal: Interrupt)
    ensures
        request_next(request_next(pending, signal), signal) == request_next(pending, signal),
{
}

/// The watcher's decision on waking: terminate the child exactly when a
/// termination request was delivered and the liveness probe still finds the
/// child running. A child that already exited naturally is never killed.
pub fn should_kill(signal_received: bool, process_alive: bool) -> (r: bool)
    ensures
        r == (signal_received && process_alive),
{
    signal_received && process_alive
}

} // verus!
