//! App-owned lifecycle for optional Medium/Full GPU refinement.
use vstd::prelude::*;

use crate::clock::Instant;
use crate::frame_trace::EvaluationTraceId;
use crate::logical_frame::{EditGeneration, FrameIdentity};
use crate::quality::PreviewQuality;

verus! {

#[derive(Debug, Clone, Copy, PartialEq, Eq, Structural)]
pub enum RefinementPublicationState {
    Preparing,
    SubmissionInFlight,
    ReadyToPublish,
}

/// One refinement in progress. The engine's side of the job is found again by
/// `id`.
#[derive(Debug, Clone, Copy, PartialEq, Eq, Structural)]
pub struct RefinementJob {
    pub id: u64,
    pub origin: FrameIdentity,
    pub generation: EditGeneration,
    pub target_quality: PreviewQuality,
    pub evaluation: EvaluationTraceId,
    pub publication: RefinementPublicationState,
    pub started_at: Instant,
}

impl RefinementJob {
    /// Whether the job still works on the current edit generation.
    pub open spec fn fresh(self, generation: u64) -> bool {
        self.generation.0 == generation
    }

    pub fn is_fresh(&self, generation: u64) -> (r: bool)
        ensures
            r == self.fresh(generation),
    {
        self.generation.get() == generation
    }
}

/// A job is fresh for its own generation and for no other.
pub proof fn jobs_are_fresh_for_their_generation(job: RefinementJob, generation: u64)
    ensures
        job.generation.0 == generation ==> job.fresh(generation),
        job.generation.0 != generation ==> !job.fresh(generation),
{
}

} // verus!
