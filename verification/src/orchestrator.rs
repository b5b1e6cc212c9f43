//! Serialises generation requests: at most one in flight at a time.
//!
//! The machine moves `Idle -> Pending(id) -> Settled(id, result)`, and
//! from `Settled` back to `Pending` only when a new dispatch is accepted;
//! the settled value stays observable until then. A completion whose id
//! is not the most recently dispatched one is ignored, which guards
//! against stale or duplicate completions.

use vstd::prelude::*;
use crate::error::ErrorKind;

verus! {

/// The observable state of the request orchestrator.
#[derive(Clone, Copy, Debug)]
pub enum RequestState {
    /// No request was ever dispatched, or none since construction.
    Idle,
    /// The request with this id is in flight.
    Pending(u64),
    /// The request with this id completed, with success or a failure;
    /// observable until the next dispatch is accepted.
    Settled(u64, Result<(), ErrorKind>),
}

/// Owns the single-flight rule for generation requests.
pub struct RequestOrchestrator {
    state: RequestState,
    next_id: u64,
}

impl RequestOrchestrator {
    /// The state a caller observes.
    pub closed spec fn spec_state(&self) -> RequestState {
        self.state
    }

    /// Well-formed: the id carried by a pending or settled state is
    /// never the one the next accepted dispatch will draw, so an
    /// accepted dispatch always carries a fresh id.
    pub closed spec fn wf(&self) -> bool {
        match self.state {
            RequestState::Idle => true,
            RequestState::Pending(id) => id != self.next_id,
            RequestState::Settled(id, _) => id != self.next_id,
        }
    }

    pub fn new() -> (orchestrator: RequestOrchestrator)
        ensures
            orchestrator.wf(),
            orchestrator.spec_state() == RequestState::Idle,
    {
        RequestOrchestrator { state: RequestState::Idle, next_id: 0 }
    }

    /// Asks to begin a request carrying `payload`. Rejected — a no-op,
    /// with no observable effect on state — exactly while a request is
    /// pending: this is the single-flight guarantee. On acceptance a
    /// fresh id is allocated, the state becomes pending on it, and the
    /// payload is handed back for the caller to start the backend call.
    pub fn dispatch(&mut self, payload: String) -> (ticket: Option<(u64, String)>)
        requires
            old(self).wf(),
        ensures
            final(self).wf(),
            (old(self).spec_state() matches RequestState::Pending(_)) ==> ticket is None
                && final(self).spec_state() == old(self).spec_state(),
            !(old(self).spec_state() matches RequestState::Pending(_)) ==> (ticket matches Some(
                granted,
            ) && final(self).spec_state() == RequestState::Pending(granted.0) && granted.1@
                == payload@),
            old(self).spec_state() matches RequestState::Settled(superseded, _) ==> (
            ticket matches Some(granted) && granted.0 != superseded),
    {
        match self.state {
            RequestState::Pending(_) => None,
            _ => {
                let id = self.next_id;
                self.next_id = if self.next_id == u64::MAX {
                    0
                } else {
                    self.next_id + 1
                };
                self.state = RequestState::Pending(id);
                Some((id, payload))
            },
        }
    }

    /// Reports the completion of the request with `id`. The state
    /// settles on the result only if `id` is the request now pending;
    /// a completion for a superseded or unknown id is a no-op.
    pub fn settle(&mut self, id: u64, result: Result<(), ErrorKind>)
        requires
            old(self).wf(),
        ensures
            final(self).wf(),
            old(self).spec_state() == RequestState::Pending(id) ==> final(self).spec_state()
                == RequestState::Settled(id, result),
            old(self).spec_state() != RequestState::Pending(id) ==> final(self).spec_state()
                == old(self).spec_state(),
    {
        match self.state {
            RequestState::Pending(current) => {
                if current == id {
                    self.state = RequestState::Settled(id, result);
                }
            },
            _ => {},
        }
    }

    /// A read-only snapshot, for disabling resubmission while pending
    /// and for showing a settled failure.
    pub fn current_state(&self) -> (state: RequestState)
        ensures
            state == self.spec_state(),
    {
        self.state
    }
}

} // verus!
