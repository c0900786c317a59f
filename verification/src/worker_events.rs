//! Results and failures of the background evaluator.
//!
//! The worker is never awaited: each turn of the event loop drains what has
//! come in. A result of the current token proves that no edit followed its
//! submission, so the dirty scope that it carried is exactly what is pending,
//! and only then is the scope cleared.
use vstd::prelude::*;

use crate::clock::Instant;
use crate::dirty::WorkerDirty;
use crate::eval::{
    BuildProgress, EvalCore, EvalEffect, EvalPath, EvalProfile, EvalState, EvalTexts, EvalUi,
    FrameDeadlineKind, RefineTiming, TerrainPreviewFreshness,
};
use crate::logical_frame::EditGeneration;
use crate::quality::PreviewQuality;

verus! {

/// A finished evaluation, apart from its field.
#[derive(Debug, Clone, Copy, PartialEq, Eq, Structural)]
pub struct WorkerCompletion {
    pub token: u64,
    pub quality: PreviewQuality,
    pub width: u32,
    pub height: u32,
    pub tiles_x: u32,
    pub tiles_z: u32,
    pub eval_us: u64,
}

/// What the worker reports.
#[derive(Debug)]
pub enum WorkerEvent {
    Completed(WorkerCompletion),
    Failed { token: u64, quality: PreviewQuality, layer_name: Option<String>, error: String },
    Disconnected,
}

/// What to do with the report.
#[derive(Debug)]
pub enum WorkerStep {
    /// Install the field, hand the checkpoints to the GPU and queue the tiles,
    /// then perform the effect.
    Publish(EvalEffect),
    /// The result belongs to an older edit.
    Discard,
    /// The failure has been taken in.
    Noted,
    /// The worker is gone; perform the effects.
    Restart(Vec<EvalEffect>),
}

impl EvalCore {
    /// The state after a fresh result was published at `now`.
    pub open spec fn published(self, done: WorkerCompletion, now: Instant) -> EvalCore {
        EvalCore {
            preview_dirty: true,
            needs_height_upload: true,
            worker_refine_pending: false,
            pending_gpu_dirty_region: None,
            worker_dirty: WorkerDirty { mark_all: false, dirty_from: None, region: None },
            worker_cache_res: Some(done.width),
            last_complete_generation: EditGeneration(done.token),
            last_refine: now,
            ..self
        }
    }
}

impl EvalUi {
    /// What is shown once a result is published: the ladder goes on while there
    /// is a finer quality, and otherwise the build is over.
    pub open spec fn published(self, done: WorkerCompletion) -> EvalUi {
        let refining = done.quality.next() is Some;
        EvalUi {
            refining,
            quality: done.quality,
            build_progress: if refining {
                Some(BuildProgress::Stage(done.quality))
            } else {
                None
            },
            draft_displayed: refining,
            profile: EvalProfile {
                cpu_published: if self.profile.cpu_published < u64::MAX {
                    (self.profile.cpu_published + 1) as u64
                } else {
                    u64::MAX
                },
                path: EvalPath::CpuPublished,
                quality: done.quality,
                eval_us: done.eval_us,
                tex_w: done.width,
                tex_h: done.height,
                tiles_x: done.tiles_x,
                tiles_z: done.tiles_z,
                ..self.profile
            },
        }
    }
}

impl EvalState {
    /// What publishing a fresh result does.
    pub open spec fn publishes(
        before: EvalState,
        after: EvalState,
        done: WorkerCompletion,
        now: Instant,
    ) -> bool {
        &&& after.core == before.core.published(done, now)
        &&& after.ui == before.ui.published(done)
        &&& after.texts == (EvalTexts {
            refining_layer_name: if done.quality.next() is Some {
                before.texts.refining_layer_name
            } else {
                None
            },
            freshness: TerrainPreviewFreshness::Current,
            evaluation_failure: None,
            ..before.texts
        })
        &&& after.deferred_full_field is None
        &&& after.pending_plan_edits == before.pending_plan_edits
    }

    fn publish(&mut self, done: WorkerCompletion, now: Instant)
        ensures
            Self::publishes(*old(self), *final(self), done, now),
    {
        let mut scope = self.core.worker_dirty;
        scope.consume();
        self.core = EvalCore {
            preview_dirty: true,
            needs_height_upload: true,
            worker_refine_pending: false,
            pending_gpu_dirty_region: None,
            worker_dirty: scope,
            worker_cache_res: Some(done.width),
            last_complete_generation: EditGeneration::new(done.token),
            last_refine: now,
            ..self.core
        };
        let refining = done.quality.next_refine().is_some();
        let published: u64 = self.ui.profile.cpu_published.saturating_add(1);
        self.ui = EvalUi {
            refining,
            quality: done.quality,
            build_progress: if refining {
                Some(BuildProgress::Stage(done.quality))
            } else {
                None
            },
            draft_displayed: refining,
            profile: EvalProfile {
                cpu_published: published,
                path: EvalPath::CpuPublished,
                quality: done.quality,
                eval_us: done.eval_us,
                tex_w: done.width,
                tex_h: done.height,
                tiles_x: done.tiles_x,
                tiles_z: done.tiles_z,
                ..self.ui.profile
            },
        };
        if !refining {
            self.texts.refining_layer_name = None;
        }
        self.texts.freshness = TerrainPreviewFreshness::Current;
        self.texts.evaluation_failure = None;
        self.deferred_full_field = None;
    }

    /// What a report does to the state. Results and failures of older tokens
    /// change nothing; a worker that is gone takes its checkpoints with it.
    pub open spec fn took(
        before: EvalState,
        after: EvalState,
        event: WorkerEvent,
        now: Instant,
    ) -> bool {
        match event {
            WorkerEvent::Completed(done) => if done.token == before.core.eval_token {
                Self::publishes(before, after, done, now)
            } else {
                after == before
            },
            WorkerEvent::Failed { token, quality, layer_name, error } => if token
                == before.core.eval_token {
                Self::failed(
                    before,
                    after,
                    quality,
                    layer_name,
                    false,
                    "evaluation worker failed: "@ + error@,
                )
            } else {
                after == before
            },
            WorkerEvent::Disconnected => Self::failed(
                EvalState {
                    core: EvalCore {
                        worker_dirty: WorkerDirty::everything(),
                        worker_cache_res: None,
                        ..before.core
                    },
                    ..before
                },
                after,
                before.core.scheduler_quality,
                None,
                true,
                "evaluation worker disconnected or panicked"@,
            ),
        }
    }

    /// Takes in one report of the worker.
    pub fn take_worker_event(&mut self, event: WorkerEvent, now: Instant, timing: RefineTiming) -> (r:
        WorkerStep)
        ensures
            Self::took(*old(self), *final(self), event, now),
            match event {
                WorkerEvent::Completed(done) => if done.token == old(self).core.eval_token {
                    r == WorkerStep::Publish(
                        EvalEffect::ScheduleDeadline {
                            kind: FrameDeadlineKind::OptionalRefinement,
                            generation: EditGeneration(old(self).core.eval_token),
                            after: timing.refine_interval,
                        },
                    )
                } else {
                    r is Discard
                },
                WorkerEvent::Failed { .. } => r is Noted,
                WorkerEvent::Disconnected => r matches WorkerStep::Restart(effects) && effects@
                    == seq![
                    EvalEffect::RestartWorker,
                    EvalEffect::SetWorkerToken(old(self).core.eval_token),
                ],
            },
    {
        match event {
            WorkerEvent::Completed(done) => {
                if done.token != self.core.eval_token {
                    return WorkerStep::Discard;
                }
                self.publish(done, now);
                WorkerStep::Publish(
                    EvalEffect::ScheduleDeadline {
                        kind: FrameDeadlineKind::OptionalRefinement,
                        generation: EditGeneration::new(self.core.eval_token),
                        after: timing.refine_interval,
                    },
                )
            },
            WorkerEvent::Failed { token, quality, layer_name, error } => {
                let mut message = "evaluation worker failed: ".to_owned();
                message.append(error.as_str());
                self.handle_evaluation_failure_details(token, quality, layer_name, false, message);
                WorkerStep::Noted
            },
            WorkerEvent::Disconnected => {
                let mut effects: Vec<EvalEffect> = Vec::new();
                effects.push(EvalEffect::RestartWorker);
                effects.push(EvalEffect::SetWorkerToken(self.core.eval_token));
                let mut scope = self.core.worker_dirty;
                scope.mark_all_dirty();
                self.core = EvalCore { worker_dirty: scope, worker_cache_res: None, ..self.core };
                let token: u64 = self.core.eval_token;
                let quality = self.core.scheduler_quality;
                self.handle_evaluation_failure_details(
                    token,
                    quality,
                    None,
                    true,
                    "evaluation worker disconnected or panicked".to_owned(),
                );
                WorkerStep::Restart(effects)
            },
        }
    }
}

/// No dirt is lost on the way to the worker: whatever it reports, the pending
/// scope stays as it was, or everything becomes dirty, or a result of the
/// current token has just resolved it.
pub proof fn only_fresh_results_clear_the_scope(
    before: EvalState,
    after: EvalState,
    event: WorkerEvent,
    now: Instant,
)
    requires
        EvalState::took(before, after, event, now),
    ensures
        ({
            ||| after.core.worker_dirty == before.core.worker_dirty
            ||| after.core.worker_dirty == WorkerDirty::everything()
            ||| {
                &&& event matches WorkerEvent::Completed(done)
                &&& done.token == before.core.eval_token
                &&& after.core.worker_cache_res == Some(done.width)
                &&& after.core.last_complete_generation.0 == before.core.eval_token
            }
        }),
        after.core.eval_token == before.core.eval_token,
{
}

/// A failure keeps the last good terrain: neither what is complete nor what is
/// shown of it moves.
pub proof fn failures_keep_the_last_good_terrain(
    before: EvalState,
    after: EvalState,
    event: WorkerEvent,
    now: Instant,
)
    requires
        EvalState::took(before, after, event, now),
        !(event is Completed),
    ensures
        after.core.last_complete_generation == before.core.last_complete_generation,
        after.core.needs_height_upload == before.core.needs_height_upload,
        after.texts.freshness == before.texts.freshness,
        after.ui.quality == before.ui.quality,
        after.ui.profile == before.ui.profile,
{
}

/// A result of the current generation is published whole: the scope that it resolved
/// is clean, its resolution is what the worker's cache holds, its generation is
/// complete, and the field waits to be uploaded. The ladder goes on below Full and
/// the build is over otherwise. A result of any other generation is discarded and
/// changes nothing.
pub proof fn current_results_are_published(
    state: &mut EvalState,
    done: WorkerCompletion,
    now: Instant,
    timing: RefineTiming,
    step: WorkerStep,
)
    requires
        call_ensures(
            EvalState::take_worker_event,
            (state, WorkerEvent::Completed(done), now, timing),
            step,
        ),
    ensures
        done.token != old(state).core.eval_token ==> step is Discard && *final(state) == *old(state),
        done.token == old(state).core.eval_token ==> {
            &&& step is Publish
            &&& !final(state).core.worker_refine_pending
            &&& !final(state).core.worker_dirty.mark_all
            &&& final(state).core.worker_dirty.dirty_from is None
            &&& final(state).core.worker_dirty.region is None
            &&& final(state).core.worker_cache_res == Some(done.width)
            &&& final(state).core.last_complete_generation.0 == done.token
            &&& final(state).core.needs_height_upload
            &&& final(state).core.preview_dirty
            &&& final(state).core.pending_gpu_dirty_region is None
            &&& final(state).core.last_refine == now
            &&& final(state).core.pending_eval == old(state).core.pending_eval
            &&& final(state).deferred_full_field is None
            &&& final(state).texts.freshness is Current
            &&& final(state).texts.evaluation_failure is None
            &&& final(state).ui.quality == done.quality
            &&& final(state).ui.profile.tex_w == done.width
            &&& final(state).ui.profile.tex_h == done.height
            &&& final(state).ui.profile.tiles_x == done.tiles_x
            &&& final(state).ui.profile.tiles_z == done.tiles_z
            &&& final(state).ui.profile.eval_us == done.eval_us
            &&& final(state).ui.profile.quality == done.quality
            &&& final(state).ui.profile.path is CpuPublished
            &&& old(state).ui.profile.cpu_published < u64::MAX
                ==> final(state).ui.profile.cpu_published == old(state).ui.profile.cpu_published + 1
            &&& done.quality is Draft || done.quality is Medium ==> final(state).ui.refining
                && final(state).ui.draft_displayed && final(state).ui.build_progress == Some(
                BuildProgress::Stage(done.quality),
            )
            &&& done.quality is Full || done.quality is Export ==> !final(state).ui.refining
                && !final(state).ui.draft_displayed && final(state).ui.build_progress is None
                && final(state).texts.refining_layer_name is None
        },
{
}

/// A worker that is gone is replaced and told the generation; its replacement starts
/// with everything dirty and without a cache, and is free. A failure of the current
/// generation only frees the worker, and one of another changes nothing.
pub proof fn lost_workers_start_over(
    state: &mut EvalState,
    event: WorkerEvent,
    now: Instant,
    timing: RefineTiming,
    step: WorkerStep,
)
    requires
        call_ensures(EvalState::take_worker_event, (state, event, now, timing), step),
    ensures
        event is Disconnected ==> {
            &&& step matches WorkerStep::Restart(effects) && effects@.len() == 2 && effects@[0]
                is RestartWorker && effects@[1] == EvalEffect::SetWorkerToken(
                old(state).core.eval_token,
            )
            &&& final(state).core.worker_dirty.mark_all
            &&& final(state).core.worker_cache_res is None
            &&& !final(state).core.worker_refine_pending
            &&& !final(state).ui.refining
            &&& final(state).texts.evaluation_failure matches Some(failure)
                && failure.worker_restarted && failure.quality == old(state).core.scheduler_quality
        },
        event matches WorkerEvent::Failed { token, quality, .. } ==> {
            &&& step is Noted
            &&& token != old(state).core.eval_token ==> *final(state) == *old(state)
            &&& token == old(state).core.eval_token ==> !final(state).core.worker_refine_pending
                && !final(state).ui.refining && final(state).core.worker_dirty
                == old(state).core.worker_dirty && final(state).core.worker_cache_res
                == old(state).core.worker_cache_res && (
            final(state).texts.evaluation_failure matches Some(failure)
                && !failure.worker_restarted && failure.quality == quality)
        },
        final(state).core.eval_token == old(state).core.eval_token,
{
}

} // verus!
