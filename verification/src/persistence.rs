//! What a write to the local store belongs to.

use vstd::prelude::*;

use crate::performance::{no_context, PerformanceContext};

verus! {

/// The request, session and sequence numbers of a write. Identifiers are the 128 bits of
/// a UUID.
#[derive(Clone, Copy, PartialEq, Eq, Structural)]
pub struct PersistenceContext {
    pub request_id: u128,
    pub session_id: u128,
    pub capture_sequence: Option<u64>,
    pub stash_sequence: Option<u64>,
    pub generation_id: Option<u128>,
}

impl PersistenceContext {
    /// A write that belongs to a request of a session.
    pub fn new(request_id: u128, session_id: u128) -> (context: Self)
        ensures
            context == (PersistenceContext {
                request_id,
                session_id,
                capture_sequence: None,
                stash_sequence: None,
                generation_id: None,
            }),
    {
        PersistenceContext {
            request_id,
            session_id,
            capture_sequence: None,
            stash_sequence: None,
            generation_id: None,
        }
    }

    /// The same write, with its sequence numbers.
    pub fn with_sequences(
        self,
        capture_sequence: Option<u64>,
        stash_sequence: Option<u64>,
    ) -> (context: Self)
        ensures
            context == (PersistenceContext { capture_sequence, stash_sequence, ..self }),
    {
        PersistenceContext { capture_sequence, stash_sequence, ..self }
    }

    /// The same write, with the generation of the draft that it makes.
    pub fn with_generation(self, generation_id: u128) -> (context: Self)
        ensures
            context == (PersistenceContext { generation_id: Some(generation_id), ..self }),
    {
        PersistenceContext { generation_id: Some(generation_id), ..self }
    }
}

/// What a measurement of a write belongs to.
pub open spec fn measured(context: PersistenceContext) -> PerformanceContext {
    PerformanceContext {
        request_id: Some(context.request_id),
        session_id: Some(context.session_id),
        capture_sequence: context.capture_sequence,
        stash_sequence: context.stash_sequence,
        generation_id: context.generation_id,
        ..no_context()
    }
}

/// What a measurement of a write belongs to.
pub fn performance_from_persistence_context(context: PersistenceContext) -> (performance:
    PerformanceContext)
    ensures
        performance == measured(context),
{
    let mut performance = PerformanceContext::default();
    performance.request_id = Some(context.request_id);
    performance.session_id = Some(context.session_id);
    performance.capture_sequence = context.capture_sequence;
    performance.stash_sequence = context.stash_sequence;
    performance.generation_id = context.generation_id;
    performance
}

/// A draft that stands in the local store.
#[derive(Clone, Copy, PartialEq, Eq, Structural)]
pub struct LatestDraft {
    pub context: PersistenceContext,
    pub generation_id: u128,
    pub document_id: u128,
    pub revision: u64,
}

} // verus!
