//! Preview quality levels and evaluation intents.
use vstd::prelude::*;

verus! {

/// How much of the terrain stack an evaluation resolves.
#[derive(Debug, Clone, Copy, PartialEq, Eq, Hash, Structural)]
pub enum PreviewQuality {
    Draft,
    Medium,
    Full,
    Export,
}

impl PreviewQuality {
    /// The rung that follows on the refinement ladder.
    pub open spec fn next(self) -> Option<PreviewQuality> {
        match self {
            PreviewQuality::Draft => Some(PreviewQuality::Medium),
            PreviewQuality::Medium => Some(PreviewQuality::Full),
            PreviewQuality::Full | PreviewQuality::Export => None,
        }
    }

    pub fn next_refine(self) -> (r: Option<PreviewQuality>)
        ensures
            r == self.next(),
    {
        match self {
            PreviewQuality::Draft => Some(PreviewQuality::Medium),
            PreviewQuality::Medium => Some(PreviewQuality::Full),
            PreviewQuality::Full | PreviewQuality::Export => None,
        }
    }
}

/// What an evaluation is for: the visible part of a gesture, or a complete
/// field.
#[derive(Debug, Clone, Copy, PartialEq, Eq, Hash, Structural)]
pub enum GpuEvaluationIntent {
    InteractiveLocal,
    Complete,
}

/// Counters that one GPU evaluation reports.
#[derive(Debug, Clone, Copy, PartialEq, Eq, Hash, Structural)]
pub struct GpuEvalStats {
    pub operations_dispatched: u64,
    pub operations_deferred: u64,
    pub dirty_texels: u64,
    pub readback_bytes: u64,
    pub resolution: u32,
    pub cold_execution: bool,
}

/// The ladder is climbed rung by rung: Draft leads to Medium, Medium to Full, and
/// nothing follows Full or Export. So at most two climbs lie ahead, and no rung
/// comes back.
pub proof fn the_ladder_climbs_to_full(quality: PreviewQuality)
    ensures
        quality.next() is None <==> (quality is Full || quality is Export),
        quality is Draft ==> (quality.next() matches Some(rung) && rung is Medium && rung.next()
            == Some(PreviewQuality::Full)),
        quality is Medium ==> (quality.next() matches Some(rung) && rung is Full),
        quality.next() matches Some(rung) ==> rung != quality && (rung.next() matches Some(top)
            ==> top != quality && top.next() is None),
{
}

} // verus!
