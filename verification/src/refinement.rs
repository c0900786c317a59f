//! Optional Medium and Full refinement on the GPU, one unit per frame.
//!
//! The engine encodes a job in units and keeps at most one submission in
//! flight. The methods here hold the gates around it: a job runs only for the
//! current generation and only while no input waits, and its candidate is
//! published only if both still hold.
use vstd::prelude::*;

use crate::clock::{Duration, Instant};
use crate::eval::{
    BuildProgress, EvalCore, EvalEffect, EvalProfile, EvalState, EvalUi, FrameDeadlineKind,
    RefineTiming,
};
use crate::frame_trace::{EvaluationTraceId, FrameTraceEventKind};
use crate::logical_frame::{EditGeneration, FrameIdentity, LogicalFrameId};
use crate::quality::PreviewQuality;
use crate::refinement_job::{RefinementJob, RefinementPublicationState};

verus! {

/// What the engine reports of one unit.
#[derive(Debug, Clone, Copy, PartialEq, Eq, Structural)]
pub enum GpuRefinementStep {
    Submitted,
    Progressed,
    AwaitingGpu,
    ReadyToPublish,
}

/// Units of a job and its submissions in flight.
#[derive(Debug, Clone, Copy, PartialEq, Eq, Structural)]
pub struct EngineProgress {
    pub completed_units: usize,
    pub total_units: usize,
    pub submissions_in_flight: u8,
}

/// What came of asking the engine for one unit.
#[derive(Debug, Clone, Copy, PartialEq, Eq, Structural)]
pub enum UnitOutcome {
    /// There is no device or no engine.
    Unavailable,
    Failed,
    Stepped { step: GpuRefinementStep, in_flight_before: u8, in_flight_after: u8 },
}

/// Whether the job may run this frame.
#[derive(Debug, Clone, Copy, PartialEq, Eq, Structural)]
pub enum RefinementGate {
    NoJob,
    /// Drop the job and record that newer work replaced it.
    Superseded(RefinementJob),
    /// Ask the engine for one unit of the job.
    Advance(RefinementJob),
}

/// What to do after a unit.
#[derive(Debug, Clone, Copy, PartialEq, Eq, Structural)]
pub enum RefinementVerdict {
    /// The job is gone without a trace record.
    Dropped,
    /// Hand the job back, record the failure, and let the CPU take over where
    /// `enqueue` says so.
    Failed { job: RefinementJob, enqueue: bool },
    /// The job goes on. `progressed` is false while the GPU is awaited.
    Continue { record: FrameTraceEventKind, progressed: bool },
    /// The candidate is complete and came too late: hand it back.
    Outdated { record: FrameTraceEventKind, job: RefinementJob },
    /// Publish the candidate.
    Publish { record: FrameTraceEventKind, job: RefinementJob },
}

impl EvalState {
    /// Only Medium and Full are refined, and one job at a time.
    pub open spec fn refinement_admitted(self, quality: PreviewQuality) -> bool {
        &&& self.core.refinement_job is None
        &&& quality == PreviewQuality::Medium || quality == PreviewQuality::Full
    }

    pub fn can_begin_refinement(&self, quality: PreviewQuality) -> (r: bool)
        ensures
            r == self.refinement_admitted(quality),
    {
        self.core.refinement_job.is_none() && match quality {
            PreviewQuality::Medium | PreviewQuality::Full => true,
            PreviewQuality::Draft | PreviewQuality::Export => false,
        }
    }

    /// The number after `last`, never zero.
    pub open spec fn next_job_id(last: u64) -> u64 {
        let next = vstd::wrapping::u64_specs::wrapping_add(last, 1);
        if next >= 1 {
            next
        } else {
            1
        }
    }

    /// The job that a frame `origin` starts.
    pub open spec fn new_job(
        self,
        quality: PreviewQuality,
        origin: Option<FrameIdentity>,
        evaluation: EvaluationTraceId,
        now: Instant,
    ) -> RefinementJob {
        RefinementJob {
            id: Self::next_job_id(self.core.next_refinement_job_id),
            origin: match origin {
                Some(identity) => identity,
                None => FrameIdentity {
                    id: LogicalFrameId(0),
                    generation_at_start: EditGeneration(0),
                    generation: EditGeneration(0),
                },
            },
            generation: EditGeneration(self.core.eval_token),
            target_quality: quality,
            evaluation,
            publication: RefinementPublicationState::Preparing,
            started_at: now,
        }
    }

    /// Starts a job if it is admitted and the engine opened it. The result is
    /// the job, for the caller to keep the engine's side under its id.
    pub fn begin_gpu_refinement(
        &mut self,
        quality: PreviewQuality,
        engine_opened: bool,
        origin: Option<FrameIdentity>,
        evaluation: EvaluationTraceId,
        now: Instant,
    ) -> (r: Option<RefinementJob>)
        ensures
            !old(self).refinement_admitted(quality) || !engine_opened ==> {
                &&& r is None
                &&& *final(self) == *old(self)
            },
            old(self).refinement_admitted(quality) && engine_opened ==> {
                let job = old(self).new_job(quality, origin, evaluation, now);
                &&& r == Some(job)
                &&& final(self).core == (EvalCore {
                    refinement_job: Some(job),
                    next_refinement_job_id: job.id,
                    ..old(self).core
                })
                &&& final(self).ui == (EvalUi {
                    refining: true,
                    quality,
                    build_progress: Some(
                        BuildProgress::InFlight { quality, elapsed: Duration { nanos: 0 } },
                    ),
                    ..old(self).ui
                })
                &&& Self::texts_unchanged(*old(self), *final(self))
            },
    {
        if !self.can_begin_refinement(quality) || !engine_opened {
            return None;
        }
        let next: u64 = self.core.next_refinement_job_id.wrapping_add(1);
        let id: u64 = if next >= 1 {
            next
        } else {
            1
        };
        let job = RefinementJob {
            id,
            origin: match origin {
                Some(identity) => identity,
                None => FrameIdentity {
                    id: LogicalFrameId(0),
                    generation_at_start: EditGeneration(0),
                    generation: EditGeneration(0),
                },
            },
            generation: EditGeneration(self.core.eval_token),
            target_quality: quality,
            evaluation,
            publication: RefinementPublicationState::Preparing,
            started_at: now,
        };
        self.core = EvalCore {
            refinement_job: Some(job),
            next_refinement_job_id: id,
            ..self.core
        };
        self.ui = EvalUi {
            refining: true,
            quality,
            build_progress: Some(
                BuildProgress::InFlight { quality, elapsed: Duration { nanos: 0 } },
            ),
            ..self.ui
        };
        Some(job)
    }

    /// What stands before a unit of `job`: a job of an older generation, or one
    /// that input or a required evaluation overtakes, is dropped.
    pub open spec fn gate_of(self, input_pending: bool) -> RefinementGate {
        match self.core.refinement_job {
            None => RefinementGate::NoJob,
            Some(job) => if !job.fresh(self.core.eval_token) || input_pending
                || self.core.pending_eval {
                RefinementGate::Superseded(job)
            } else {
                RefinementGate::Advance(job)
            },
        }
    }

    /// Takes the job out for one unit.
    pub fn refinement_gate(&mut self, input_pending: bool) -> (r: RefinementGate)
        ensures
            r == old(self).gate_of(input_pending),
            final(self).core == (EvalCore { refinement_job: None, ..old(self).core }),
            Self::only_core_changed(*old(self), *final(self)),
    {
        let job = self.core.refinement_job;
        self.core = EvalCore { refinement_job: None, ..self.core };
        match job {
            None => RefinementGate::NoJob,
            Some(job) => if !job.is_fresh(self.core.eval_token) || input_pending
                || self.core.pending_eval {
                RefinementGate::Superseded(job)
            } else {
                RefinementGate::Advance(job)
            },
        }
    }

    /// The publication state after a unit.
    pub open spec fn publication_after(
        step: GpuRefinementStep,
        in_flight_after: u8,
    ) -> RefinementPublicationState {
        match step {
            GpuRefinementStep::Submitted => RefinementPublicationState::SubmissionInFlight,
            GpuRefinementStep::ReadyToPublish => RefinementPublicationState::ReadyToPublish,
            GpuRefinementStep::Progressed | GpuRefinementStep::AwaitingGpu => if in_flight_after
                == 0 {
                RefinementPublicationState::Preparing
            } else {
                RefinementPublicationState::SubmissionInFlight
            },
        }
    }

    /// The trace record of a unit.
    pub open spec fn record_of(
        step: GpuRefinementStep,
        in_flight_before: u8,
        in_flight_after: u8,
    ) -> FrameTraceEventKind {
        match step {
            GpuRefinementStep::Submitted => FrameTraceEventKind::RefinementSubmissionQueued,
            GpuRefinementStep::ReadyToPublish => FrameTraceEventKind::RefinementCandidateCompleted,
            GpuRefinementStep::Progressed if in_flight_before == 1 && in_flight_after
                == 0 => FrameTraceEventKind::RefinementSubmissionCompleted,
            _ => FrameTraceEventKind::RefinementUnitProgress,
        }
    }

    fn unit_record(
        step: GpuRefinementStep,
        in_flight_before: u8,
        in_flight_after: u8,
    ) -> (r: (FrameTraceEventKind, RefinementPublicationState))
        ensures
            r.0 == Self::record_of(step, in_flight_before, in_flight_after),
            r.1 == Self::publication_after(step, in_flight_after),
    {
        let idle = if in_flight_after == 0 {
            RefinementPublicationState::Preparing
        } else {
            RefinementPublicationState::SubmissionInFlight
        };
        match step {
            GpuRefinementStep::Submitted => (
                FrameTraceEventKind::RefinementSubmissionQueued,
                RefinementPublicationState::SubmissionInFlight,
            ),
            GpuRefinementStep::ReadyToPublish => (
                FrameTraceEventKind::RefinementCandidateCompleted,
                RefinementPublicationState::ReadyToPublish,
            ),
            GpuRefinementStep::Progressed => if in_flight_before == 1 && in_flight_after == 0 {
                (
                    FrameTraceEventKind::RefinementSubmissionCompleted,
                    RefinementPublicationState::Preparing,
                )
            } else {
                (FrameTraceEventKind::RefinementUnitProgress, idle)
            },
            GpuRefinementStep::AwaitingGpu => (FrameTraceEventKind::RefinementUnitProgress, idle),
        }
    }

    /// What follows from the outcome of a unit of `job`.
    pub open spec fn verdict_of(
        self,
        job: RefinementJob,
        outcome: UnitOutcome,
        input_pending: bool,
    ) -> RefinementVerdict {
        match outcome {
            UnitOutcome::Unavailable => RefinementVerdict::Dropped,
            UnitOutcome::Failed => RefinementVerdict::Failed {
                job,
                enqueue: !self.core.worker_refine_pending,
            },
            UnitOutcome::Stepped { step, in_flight_before, in_flight_after } => {
                let record = Self::record_of(step, in_flight_before, in_flight_after);
                let advanced = RefinementJob {
                    publication: Self::publication_after(step, in_flight_after),
                    ..job
                };
                if step != GpuRefinementStep::ReadyToPublish {
                    RefinementVerdict::Continue {
                        record,
                        progressed: step != GpuRefinementStep::AwaitingGpu,
                    }
                } else if !job.fresh(self.core.eval_token) || input_pending {
                    RefinementVerdict::Outdated { record, job: advanced }
                } else {
                    RefinementVerdict::Publish { record, job: advanced }
                }
            },
        }
    }

    /// Takes the outcome of one unit of `job` in. A job that goes on is kept;
    /// every other outcome leaves no job behind.
    pub fn advance_gpu_refinement(
        &mut self,
        job: RefinementJob,
        outcome: UnitOutcome,
        input_pending: bool,
        elapsed: Duration,
    ) -> (r: RefinementVerdict)
        ensures
            r == old(self).verdict_of(job, outcome, input_pending),
            Self::texts_unchanged(*old(self), *final(self)),
            r is Continue ==> {
                &&& final(self).core == (EvalCore {
                    refinement_job: Some(
                        RefinementJob {
                            publication: Self::publication_after(
                                outcome->step,
                                outcome->in_flight_after,
                            ),
                            ..job
                        },
                    ),
                    ..old(self).core
                })
                &&& final(self).ui == (EvalUi {
                    build_progress: Some(
                        BuildProgress::InFlight { quality: job.target_quality, elapsed },
                    ),
                    ..old(self).ui
                })
            },
            !(r is Continue) ==> *final(self) == *old(self),
    {
        match outcome {
            UnitOutcome::Unavailable => RefinementVerdict::Dropped,
            UnitOutcome::Failed => RefinementVerdict::Failed {
                job,
                enqueue: !self.core.worker_refine_pending,
            },
            UnitOutcome::Stepped { step, in_flight_before, in_flight_after } => {
                let (record, publication) = Self::unit_record(
                    step,
                    in_flight_before,
                    in_flight_after,
                );
                let advanced = RefinementJob { publication, ..job };
                if step != GpuRefinementStep::ReadyToPublish {
                    self.core = EvalCore { refinement_job: Some(advanced), ..self.core };
                    self.ui = EvalUi {
                        build_progress: Some(
                            BuildProgress::InFlight { quality: job.target_quality, elapsed },
                        ),
                        ..self.ui
                    };
                    return RefinementVerdict::Continue {
                        record,
                        progressed: step != GpuRefinementStep::AwaitingGpu,
                    };
                }
                if !job.is_fresh(self.core.eval_token) || input_pending {
                    RefinementVerdict::Outdated { record, job: advanced }
                } else {
                    RefinementVerdict::Publish { record, job: advanced }
                }
            },
        }
    }

    /// Takes a published candidate in: its quality is now on screen and the
    /// next rung is scheduled.
    pub fn refinement_published(&mut self, job: RefinementJob, now: Instant, timing: RefineTiming)
        -> (r: EvalEffect)
        requires
            job.target_quality == PreviewQuality::Medium || job.target_quality
                == PreviewQuality::Full,
        ensures
            final(self).core == (EvalCore {
                scheduler_quality: job.target_quality,
                last_complete_generation: job.generation,
                last_accepted_evaluation_id: job.evaluation.0,
                last_eval_gpu_supported: true,
                pending_plan_invalidation: false,
                needs_height_upload: false,
                last_refine: now,
                ..old(self).core
            }),
            final(self).ui == (EvalUi {
                quality: job.target_quality,
                refining: job.target_quality == PreviewQuality::Medium,
                build_progress: if job.target_quality == PreviewQuality::Medium {
                    Some(BuildProgress::Stage(job.target_quality))
                } else {
                    None
                },
                draft_displayed: job.target_quality == PreviewQuality::Medium,
                profile: EvalProfile { quality: job.target_quality, ..old(self).ui.profile },
            }),
            Self::texts_unchanged(*old(self), *final(self)),
            r == (EvalEffect::ScheduleDeadline {
                kind: FrameDeadlineKind::OptionalRefinement,
                generation: EditGeneration(old(self).core.eval_token),
                after: timing.refine_interval,
            }),
    {
        let refining = job.target_quality.next_refine().is_some();
        self.core = EvalCore {
            scheduler_quality: job.target_quality,
            last_complete_generation: job.generation,
            last_accepted_evaluation_id: job.evaluation.get(),
            last_eval_gpu_supported: true,
            pending_plan_invalidation: false,
            needs_height_upload: false,
            ..self.core
        };
        self.ui = EvalUi {
            quality: job.target_quality,
            refining,
            build_progress: if refining {
                Some(BuildProgress::Stage(job.target_quality))
            } else {
                None
            },
            draft_displayed: match job.target_quality {
                PreviewQuality::Medium => true,
                _ => false,
            },
            profile: EvalProfile { quality: job.target_quality, ..self.ui.profile },
        };
        self.note_refinement_activity(now, timing)
    }
}

/// Publication is gated: a candidate is published only for the generation that
/// is current and only while no input waits.
pub proof fn only_fresh_candidates_are_published(
    state: EvalState,
    job: RefinementJob,
    outcome: UnitOutcome,
    input_pending: bool,
)
    requires
        state.verdict_of(job, outcome, input_pending) is Publish,
    ensures
        job.generation.0 == state.core.eval_token,
        !input_pending,
        outcome is Stepped,
        outcome->step == GpuRefinementStep::ReadyToPublish,
{
}

/// Input preempts refinement: with an event waiting no job advances.
pub proof fn waiting_input_stops_refinement(state: EvalState)
    ensures
        !(state.gate_of(true) is Advance),
{
}

/// A job that a rebuild leaves behind never advances.
pub proof fn outdated_jobs_never_advance(state: EvalState, job: RefinementJob, input_pending: bool)
    requires
        state.core.refinement_job == Some(job),
        job.generation.0 != state.core.eval_token,
    ensures
        state.gate_of(input_pending) == RefinementGate::Superseded(job),
{
}

/// A refinement starts toward Medium or Full, where none runs and the engine opened
/// it: under the current generation, with an identity of its own, and shown as in
/// flight. Otherwise nothing changes.
pub proof fn refinements_start_one_at_a_time(
    state: &mut EvalState,
    quality: PreviewQuality,
    opened: bool,
    origin: Option<FrameIdentity>,
    evaluation: EvaluationTraceId,
    now: Instant,
    job: Option<RefinementJob>,
)
    requires
        call_ensures(
            EvalState::begin_gpu_refinement,
            (state, quality, opened, origin, evaluation, now),
            job,
        ),
    ensures
        old(state).core.refinement_job is Some || !opened || quality is Draft || quality is Export
            ==> job is None && *final(state) == *old(state),
        old(state).core.refinement_job is None && opened && (quality is Medium || quality is Full)
            ==> job is Some,
        job matches Some(started) ==> {
            &&& final(state).core.refinement_job == job
            &&& started.generation.0 == old(state).core.eval_token
            &&& started.target_quality == quality
            &&& started.evaluation == evaluation
            &&& started.started_at == now
            &&& started.publication is Preparing
            &&& origin matches Some(frame) ==> started.origin == frame
            &&& started.id >= 1
            &&& old(state).core.next_refinement_job_id < u64::MAX ==> started.id
                == old(state).core.next_refinement_job_id + 1
            &&& final(state).core.next_refinement_job_id == started.id
            &&& final(state).ui.refining
            &&& final(state).ui.quality == quality
            &&& final(state).core.scheduler_quality == old(state).core.scheduler_quality
        },
{
}

/// A fresh job advances while no input waits and no evaluation is pending, and is
/// superseded otherwise; without a job there is nothing to do. Either way it is taken
/// out.
pub proof fn fresh_jobs_advance(state: &mut EvalState, input_pending: bool, gate: RefinementGate)
    requires
        call_ensures(EvalState::refinement_gate, (state, input_pending), gate),
    ensures
        old(state).core.refinement_job is None ==> gate is NoJob,
        old(state).core.refinement_job matches Some(job) ==> {
            &&& job.generation.0 == old(state).core.eval_token && !input_pending
                && !old(state).core.pending_eval ==> gate == RefinementGate::Advance(job)
            &&& job.generation.0 != old(state).core.eval_token || input_pending
                || old(state).core.pending_eval ==> gate == RefinementGate::Superseded(job)
        },
        final(state).core.refinement_job is None,
{
}

/// A unit that does not complete its job keeps it for the next frame, with the
/// progress shown toward its quality. A complete candidate is published while it is
/// fresh and no input waits, and handed back otherwise. A failed job goes to the
/// worker unless that is busy, and a lost engine drops it.
pub proof fn units_lead_to_publication(
    state: &mut EvalState,
    job: RefinementJob,
    outcome: UnitOutcome,
    input_pending: bool,
    elapsed: Duration,
    verdict: RefinementVerdict,
)
    requires
        call_ensures(
            EvalState::advance_gpu_refinement,
            (state, job, outcome, input_pending, elapsed),
            verdict,
        ),
    ensures
        outcome is Unavailable ==> verdict is Dropped,
        outcome is Failed ==> (verdict matches RefinementVerdict::Failed { job: back, enqueue }
            && back == job && enqueue == !old(state).core.worker_refine_pending),
        outcome matches UnitOutcome::Stepped { step, in_flight_before, in_flight_after } ==> {
            &&& !(step is ReadyToPublish) ==> {
                &&& verdict matches RefinementVerdict::Continue { progressed, record } && (
                progressed <==> !(step is AwaitingGpu)) && (step is Submitted ==> record
                    is RefinementSubmissionQueued) && (step is AwaitingGpu ==> record
                    is RefinementUnitProgress) && (step is Progressed && in_flight_before == 1
                    && in_flight_after == 0 ==> record is RefinementSubmissionCompleted)
                &&& final(state).core.refinement_job matches Some(kept) && kept.id == job.id
                    && kept.generation == job.generation && kept.target_quality
                    == job.target_quality && (step is Submitted || in_flight_after > 0
                    ==> kept.publication is SubmissionInFlight) && (!(step is Submitted)
                    && in_flight_after == 0 ==> kept.publication is Preparing)
                &&& final(state).ui.build_progress == Some(
                    BuildProgress::InFlight { quality: job.target_quality, elapsed },
                )
            }
            &&& step is ReadyToPublish && job.generation.0 == old(state).core.eval_token
                && !input_pending ==> (verdict matches RefinementVerdict::Publish {
                job: ready,
                record,
            } && ready.id == job.id && ready.publication is ReadyToPublish && record
                is RefinementCandidateCompleted)
            &&& step is ReadyToPublish && (job.generation.0 != old(state).core.eval_token
                || input_pending) ==> verdict is Outdated
        },
        !(verdict is Continue) ==> *final(state) == *old(state),
{
}

/// A published candidate is on screen: its quality is the rung that was reached, its
/// generation is complete, and nothing is left to upload. Medium goes on to Full, and
/// Full ends the build.
pub proof fn published_candidates_are_on_screen(
    state: &mut EvalState,
    job: RefinementJob,
    now: Instant,
    timing: RefineTiming,
    effect: EvalEffect,
)
    requires
        job.target_quality is Medium || job.target_quality is Full,
        call_ensures(EvalState::refinement_published, (state, job, now, timing), effect),
    ensures
        final(state).core.scheduler_quality == job.target_quality,
        final(state).core.last_complete_generation == job.generation,
        final(state).core.last_accepted_evaluation_id == job.evaluation.0,
        final(state).core.last_eval_gpu_supported,
        !final(state).core.needs_height_upload,
        !final(state).core.pending_plan_invalidation,
        final(state).core.last_refine == now,
        final(state).ui.quality == job.target_quality,
        job.target_quality is Medium ==> final(state).ui.refining && final(state).ui.draft_displayed && final(state).ui.build_progress is Some,
        job.target_quality is Full ==> !final(state).ui.refining && !final(state).ui.draft_displayed && final(state).ui.build_progress is None,
        effect == (EvalEffect::ScheduleDeadline {
            kind: FrameDeadlineKind::OptionalRefinement,
            generation: EditGeneration(old(state).core.eval_token),
            after: timing.refine_interval,
        }),
{
}

/// A refinement begins at medium or full quality, and only where none is running.
pub proof fn refinements_begin_one_at_a_time(state: EvalState, quality: PreviewQuality, can: bool)
    requires
        call_ensures(EvalState::can_begin_refinement, (&state, quality), can),
    ensures
        state.core.refinement_job is Some ==> !can,
        quality is Draft || quality is Export ==> !can,
        state.core.refinement_job is None && (quality is Medium || quality is Full) ==> can,
{
}

} // verus!
