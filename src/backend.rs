use std::sync::Arc;
use vstd::prelude::*;
use vstd::rwlock::RwLock;

use crate::errors::VeigoIdError;
use crate::memory_backend::{exhausted, next_spec, MemoryState, SequenceModel};

verus! {

/// The errors a backend may answer with for `timestamp`: a clock skew that
/// reports `timestamp` and a later recorded one, an exhausted counter, or a
/// failure of the backend's own storage.
pub open spec fn backend_refusal(e: VeigoIdError, timestamp: u128) -> bool {
    match e {
        VeigoIdError::ClockSkew { now, last } => now == timestamp && last > timestamp,
        VeigoIdError::Backend(_) => true,
        _ => e == exhausted(),
    }
}

/// Hands out sequence numbers per (timestamp, context), atomically.
pub trait StateBackend {
    /// The next sequence number for `context` within second `timestamp`.
    ///
    /// A later timestamp than any seen starts a new second and answers 0; the
    /// same timestamp increments the context's counter; an earlier one is
    /// refused with a clock skew carrying both timestamps.
    fn next_sequence(&self, timestamp: u128, context: u128) -> (r: Result<u128, VeigoIdError>)
        ensures
            r matches Err(e) ==> backend_refusal(e, timestamp),
    ;
}

/// A backend in process memory. The timestamp and the counters sit behind one
/// exclusive lock, so no caller sees one updated without the other.
pub struct InMemoryBackend {
    state: RwLock<MemoryState, spec_fn(MemoryState) -> bool>,
}

impl InMemoryBackend {
    /// Every state may be stored under the lock.
    #[verifier::type_invariant]
    spec fn accepts_any_state(&self) -> bool {
        self.state.pred() == (|s: MemoryState| true)
    }

    /// A shared backend that has served nothing yet.
    pub fn new() -> (r: Arc<Self>) {
        let state = RwLock::new(MemoryState::new(), Ghost(|s: MemoryState| true));
        Arc::new(InMemoryBackend { state })
    }
}

impl StateBackend for InMemoryBackend {
    /// One step of the state machine on whatever state the lock holds when taken.
    fn next_sequence(&self, timestamp: u128, context: u128) -> (r: Result<u128, VeigoIdError>)
        ensures
            exists|s: SequenceModel| r == next_spec(s, timestamp, context).1,
    {
        proof {
            use_type_invariant(self);
        }
        let (mut state, handle) = self.state.acquire_write();
        let ghost before = state@;
        let r = state.next_sequence(timestamp, context);
        assert(r == next_spec(before, timestamp, context).1);
        handle.release_write(state);
        r
    }
}

} // verus!
