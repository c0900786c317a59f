//! One interactive evaluation, step by step.
//!
//! The order is: choose the quality, bring the compiled plan up to date, run
//! the GPU engine, take its result in, and hand what the GPU cannot do to the
//! background evaluator. The caller runs the engine, the plan cache and the
//! worker between these steps and never waits for the CPU.
use vstd::prelude::*;

use crate::dirty::{TexelRect, UvRect};
use crate::eval::{
    BuildProgress, DeferredFullField, EvalCore, EvalPath, EvalProfile, EvalState, EvalTexts, EvalUi,
    PlanEdit, TerrainPreviewFreshness,
};
use crate::frame_trace::EvaluationTraceId;
use crate::logical_frame::{EditGeneration, FrameIdentity};
use crate::quality::{GpuEvaluationIntent, PreviewQuality};

verus! {

/// What the caller sees when an evaluation starts.
#[derive(Debug)]
pub struct StepObservation {
    /// The selected layer takes bounded strokes.
    pub selected_is_bounded_sculpt: bool,
    pub selected_layer_name: Option<String>,
    /// Resolution of a Full evaluation of the document.
    pub full_resolution: u32,
    /// Extent of the height texture on screen.
    pub texture: Option<(u32, u32)>,
}

impl StepObservation {
    /// A Full texture is still resident.
    pub open spec fn retains_full(self) -> bool {
        self.texture == Some((self.full_resolution, self.full_resolution))
    }

    fn retained_full(&self) -> (r: bool)
        ensures
            r == self.retains_full(),
    {
        match self.texture {
            Some((w, h)) => w == self.full_resolution && h == self.full_resolution,
            None => false,
        }
    }
}

/// An evaluation in progress.
#[derive(Debug, Clone, Copy, PartialEq, Eq, Structural)]
pub struct EvalStep {
    pub token: u64,
    pub quality: PreviewQuality,
    pub intent: GpuEvaluationIntent,
}

/// What to ask the plan cache for.
pub enum PlanRequest {
    /// Nothing changed: take the current plan.
    Acquire,
    /// Recompile for these edits.
    Update(Vec<PlanEdit>),
}

/// What to tell the engine about the dirty rectangle before it runs.
#[derive(Debug, Clone, Copy, PartialEq, Eq, Structural)]
pub enum DirtyRectUse {
    Keep,
    Region(UvRect),
    Clear,
}

/// A globally coupled suffix that the engine left for later.
#[derive(Debug)]
pub struct DeferredSuffix {
    pub layer_name: Option<String>,
    pub deferred_layers: usize,
}

/// What the GPU engine reports of an evaluation.
#[derive(Debug)]
pub struct GpuResult {
    pub did_eval: bool,
    pub fully_gpu: bool,
    /// The engine fell back to the CPU for part of the stack.
    pub cpu_fallback: bool,
    pub deferred: Option<DeferredSuffix>,
    /// Index of the first layer that the CPU has to take over.
    pub resume_cpu_from: Option<usize>,
    pub width: u32,
    pub height: u32,
    /// The output carries an identity that it can be presented under.
    pub has_output: bool,
    /// The texels that changed; `None` is the whole field.
    pub dirty_region: Option<TexelRect>,
    pub tiles_x: u32,
    pub tiles_z: u32,
}

impl GpuResult {
    /// Every texel of the output changed.
    pub open spec fn whole_field(self) -> bool {
        match self.dirty_region {
            None => true,
            Some(r) => r == (TexelRect { x: 0, y: 0, w: self.width, h: self.height }),
        }
    }

    fn is_whole_field(&self) -> (r: bool)
        ensures
            r == self.whole_field(),
    {
        match self.dirty_region {
            None => true,
            Some(r) => r.x == 0 && r.y == 0 && r.w == self.width && r.h == self.height,
        }
    }

    /// The engine could not even seed the stack.
    pub open spec fn seed_failed(self) -> bool {
        self.resume_cpu_from == Some(0usize) && !self.fully_gpu && !self.did_eval
    }

    fn is_seed_failure(&self) -> (r: bool)
        ensures
            r == self.seed_failed(),
    {
        let from_start = match self.resume_cpu_from {
            Some(first) => first == 0,
            None => false,
        };
        from_start && !self.fully_gpu && !self.did_eval
    }

    /// The CPU has to finish the stack.
    pub open spec fn needs_cpu(self) -> bool {
        self.resume_cpu_from is Some
    }
}

/// How the result reaches the screen.
#[derive(Debug, Clone, Copy, PartialEq, Eq, Structural)]
pub enum Presentation {
    /// A newer edit has replaced the evaluation.
    RefusedStale,
    /// The engine produced nothing to show.
    RefusedNoOutput,
    /// Accepted, but without an identity to present under.
    AcceptedUnseen,
    /// Bind the engine's texture.
    Shared,
    /// Copy the changed texels.
    Region(TexelRect),
}

/// What to do after the GPU came back.
#[derive(Debug, Clone, Copy, PartialEq, Eq, Structural)]
pub struct GpuVerdict {
    pub presentation: Presentation,
    /// Hand the stack to the background evaluator.
    pub enqueue: bool,
    /// The output may seed the streamed pyramid.
    pub pyramid: bool,
    pub used_gpu: bool,
    pub completed: bool,
}

/// The trace identity under which the engine runs: the frame that asked for the
/// work, and the generation that may publish it.
#[derive(Debug, Clone, Copy, PartialEq, Eq, Structural)]
pub struct GpuEvaluationTraceContext {
    pub frame_id: u64,
    pub generation: u64,
    pub evaluation_id: u64,
}

/// Correlates GPU work with the logical frame that requested it while keeping
/// publication authority tied to the captured evaluation token.
pub fn gpu_evaluation_trace_context(
    logical_frame: Option<FrameIdentity>,
    publication_generation: u64,
    evaluation: EvaluationTraceId,
) -> (r: GpuEvaluationTraceContext)
    ensures
        r == (GpuEvaluationTraceContext {
            frame_id: match logical_frame {
                Some(identity) => identity.id.0,
                None => 0,
            },
            generation: publication_generation,
            evaluation_id: evaluation.0,
        }),
{
    GpuEvaluationTraceContext {
        frame_id: match logical_frame {
            Some(identity) => identity.id.get(),
            None => 0,
        },
        generation: publication_generation,
        evaluation_id: evaluation.get(),
    }
}

impl EvalState {
    /// The quality at which the next evaluation runs.
    pub open spec fn step_quality(self, observation: StepObservation) -> PreviewQuality {
        if !self.core.force_draft {
            self.core.scheduler_quality
        } else if observation.selected_is_bounded_sculpt
            && self.core.pending_gpu_dirty_region is Some && self.core.last_eval_gpu_supported
            && observation.retains_full() {
            PreviewQuality::Full
        } else {
            PreviewQuality::Draft
        }
    }

    /// What opening an evaluation leaves.
    pub open spec fn step_opened(
        before: EvalState,
        after: EvalState,
        intent: GpuEvaluationIntent,
        observation: StepObservation,
        step: EvalStep,
    ) -> bool {
        &&& step == (EvalStep {
            token: before.core.eval_token,
            quality: before.step_quality(observation),
            intent,
        })
        &&& after.core == (EvalCore {
            force_draft: false,
            scheduler_quality: step.quality,
            ..before.core
        })
        &&& after.ui == (EvalUi {
            profile: EvalProfile {
                first_visible_preview_us: 0,
                settled_authoritative_us: 0,
                ..before.ui.profile
            },
            ..before.ui
        })
        &&& crate::eval::opt_text(after.texts.refining_layer_name) == crate::eval::refining_target(
            observation.selected_layer_name,
        )
        &&& after.texts == (EvalTexts {
            refining_layer_name: after.texts.refining_layer_name,
            ..before.texts
        })
        &&& after.deferred_full_field == before.deferred_full_field
        &&& after.pending_plan_edits == before.pending_plan_edits
    }

    /// Chooses the quality and opens the evaluation. A bounded stroke over a
    /// resident Full texture stays at Full; every other forced evaluation
    /// starts at Draft.
    pub fn run_eval_step_with_intent(
        &mut self,
        intent: GpuEvaluationIntent,
        observation: StepObservation,
    ) -> (r: EvalStep)
        ensures
            Self::step_opened(*old(self), *final(self), intent, observation, r),
    {
        let quality = if !self.core.force_draft {
            self.core.scheduler_quality
        } else if observation.selected_is_bounded_sculpt
            && self.core.pending_gpu_dirty_region.is_some() && self.core.last_eval_gpu_supported
            && observation.retained_full() {
            PreviewQuality::Full
        } else {
            PreviewQuality::Draft
        };
        self.core = EvalCore { force_draft: false, scheduler_quality: quality, ..self.core };
        self.ui = EvalUi {
            profile: EvalProfile {
                first_visible_preview_us: 0,
                settled_authoritative_us: 0,
                ..self.ui.profile
            },
            ..self.ui
        };
        self.texts.refining_layer_name = match observation.selected_layer_name {
            Some(name) => Some(name),
            None => Some("terrain".to_owned()),
        };
        EvalStep { token: self.core.eval_token, quality, intent }
    }

    /// The pending plan edits became the request, and nothing else changed.
    pub open spec fn plan_requested(
        before: EvalState,
        after: EvalState,
        request: PlanRequest,
    ) -> bool {
        &&& match request {
            PlanRequest::Acquire => before.pending_plan_edits@.len() == 0,
            PlanRequest::Update(edits) => {
                &&& before.pending_plan_edits@.len() > 0
                &&& edits@ == before.pending_plan_edits@
            },
        }
        &&& after.pending_plan_edits@ == Seq::<PlanEdit>::empty()
        &&& after == EvalState { pending_plan_edits: after.pending_plan_edits, ..before }
    }

    /// Hands the pending plan edits over.
    pub fn take_plan_request(&mut self) -> (r: PlanRequest)
        ensures
            Self::plan_requested(*old(self), *final(self), r),
    {
        let mut edits: Vec<PlanEdit> = Vec::new();
        std::mem::swap(&mut edits, &mut self.pending_plan_edits);
        if edits.len() == 0 {
            PlanRequest::Acquire
        } else {
            PlanRequest::Update(edits)
        }
    }

    /// The plan is current. Its invalidation stays until an evaluation has
    /// consumed it.
    pub fn plan_acquired(&mut self)
        ensures
            *final(self) == (EvalState {
                core: EvalCore { pending_plan_invalidation: true, ..old(self).core },
                ..*old(self)
            }),
    {
        self.core = EvalCore { pending_plan_invalidation: true, ..self.core };
    }

    /// The state once the stack turned out to have no compiled plan.
    pub open spec fn without_plan(self, eval_us: u64) -> EvalState {
        EvalState {
            core: EvalCore { last_eval_gpu_supported: false, ..self.core },
            ui: EvalUi {
                profile: EvalProfile { path: EvalPath::AsyncCpu, eval_us, ..self.ui.profile },
                ..self.ui
            },
            ..self
        }
    }

    /// The stack has no compiled plan: the background evaluator takes it. The
    /// result says whether it still has to be asked.
    pub fn plan_unsupported(&mut self, eval_us: u64) -> (enqueue: bool)
        ensures
            enqueue == !old(self).core.worker_refine_pending,
            *final(self) == old(self).without_plan(eval_us),
    {
        self.core = EvalCore { last_eval_gpu_supported: false, ..self.core };
        self.ui = EvalUi {
            profile: EvalProfile { path: EvalPath::AsyncCpu, eval_us, ..self.ui.profile },
            ..self.ui
        };
        !self.core.worker_refine_pending
    }

    /// Which rectangle the engine may restrict itself to.
    pub open spec fn rect_use(self, intent: GpuEvaluationIntent) -> DirtyRectUse {
        match intent {
            GpuEvaluationIntent::Complete => DirtyRectUse::Clear,
            GpuEvaluationIntent::InteractiveLocal => match self.core.pending_gpu_dirty_region {
                Some(region) => DirtyRectUse::Region(region),
                None => DirtyRectUse::Keep,
            },
        }
    }

    /// Which rectangle the engine may restrict itself to. A complete evaluation
    /// is globally coupled even where the edit was bounded, so it clears the
    /// rectangle of the gesture.
    pub fn dirty_rect_for(&self, intent: GpuEvaluationIntent) -> (r: DirtyRectUse)
        ensures
            r == self.rect_use(intent),
    {
        match intent {
            GpuEvaluationIntent::Complete => DirtyRectUse::Clear,
            GpuEvaluationIntent::InteractiveLocal => match self.core.pending_gpu_dirty_region {
                Some(region) => DirtyRectUse::Region(region),
                None => DirtyRectUse::Keep,
            },
        }
    }

    /// How a current result reaches the screen.
    pub open spec fn presentation_of(result: GpuResult) -> Presentation {
        if !result.did_eval {
            Presentation::RefusedNoOutput
        } else if !result.has_output {
            Presentation::AcceptedUnseen
        } else if result.whole_field() {
            Presentation::Shared
        } else {
            Presentation::Region(result.dirty_region->0)
        }
    }

    fn presentation(result: &GpuResult) -> (r: Presentation)
        ensures
            r == Self::presentation_of(*result),
    {
        if !result.did_eval {
            return Presentation::RefusedNoOutput;
        }
        if !result.has_output {
            return Presentation::AcceptedUnseen;
        }
        if result.is_whole_field() {
            return Presentation::Shared;
        }
        match result.dirty_region {
            Some(region) => Presentation::Region(region),
            None => Presentation::Shared,
        }
    }

    /// The deciding part after a current result.
    pub open spec fn core_after(
        core: EvalCore,
        step: EvalStep,
        result: GpuResult,
        evaluation: EvaluationTraceId,
    ) -> EvalCore {
        EvalCore {
            needs_height_upload: !result.did_eval && core.needs_height_upload,
            last_complete_generation: if result.did_eval {
                EditGeneration(step.token)
            } else {
                core.last_complete_generation
            },
            last_accepted_evaluation_id: if result.did_eval {
                evaluation.0
            } else {
                core.last_accepted_evaluation_id
            },
            last_eval_gpu_supported: result.resume_cpu_from is None && !result.cpu_fallback,
            pending_plan_invalidation: core.pending_plan_invalidation && (result.deferred is Some
                || result.cpu_fallback),
            pending_gpu_dirty_region: if step.intent == GpuEvaluationIntent::InteractiveLocal {
                None
            } else {
                core.pending_gpu_dirty_region
            },
            ..core
        }
    }

    fn core_with_result(
        core: EvalCore,
        step: EvalStep,
        result: &GpuResult,
        evaluation: EvaluationTraceId,
    ) -> (r: EvalCore)
        ensures
            r == Self::core_after(core, step, *result, evaluation),
    {
        EvalCore {
            needs_height_upload: !result.did_eval && core.needs_height_upload,
            last_complete_generation: if result.did_eval {
                EditGeneration(step.token)
            } else {
                core.last_complete_generation
            },
            last_accepted_evaluation_id: if result.did_eval {
                evaluation.get()
            } else {
                core.last_accepted_evaluation_id
            },
            last_eval_gpu_supported: result.resume_cpu_from.is_none() && !result.cpu_fallback,
            pending_plan_invalidation: core.pending_plan_invalidation && (
            result.deferred.is_some() || result.cpu_fallback),
            pending_gpu_dirty_region: match step.intent {
                GpuEvaluationIntent::InteractiveLocal => None,
                GpuEvaluationIntent::Complete => core.pending_gpu_dirty_region,
            },
            ..core
        }
    }

    /// Where a current result ran.
    pub open spec fn path_of(result: GpuResult) -> EvalPath {
        if result.seed_failed() {
            EvalPath::GpuThenAsyncCpu
        } else if result.deferred is Some {
            EvalPath::GpuFullFieldDeferred
        } else if result.needs_cpu() {
            EvalPath::GpuThenAsyncCpu
        } else {
            EvalPath::Gpu
        }
    }

    /// Whether the interface shows a refinement after a current result.
    pub open spec fn refining_after(before: bool, step: EvalStep, result: GpuResult) -> bool {
        if result.seed_failed() {
            before
        } else if result.deferred is Some || result.needs_cpu() {
            true
        } else {
            step.quality.next() is Some
        }
    }

    /// The build progress after a current result.
    pub open spec fn progress_after(
        before: Option<BuildProgress>,
        step: EvalStep,
        result: GpuResult,
    ) -> Option<BuildProgress> {
        if result.seed_failed() {
            before
        } else if result.deferred is Some || result.needs_cpu() {
            Some(BuildProgress::StageFloored(step.quality))
        } else if step.quality.next() is Some {
            before
        } else {
            None
        }
    }

    /// The shown numbers after a current result.
    pub open spec fn ui_after(
        ui: EvalUi,
        step: EvalStep,
        result: GpuResult,
        visible_us: u64,
        settled_us: u64,
    ) -> EvalUi {
        EvalUi {
            quality: step.quality,
            refining: Self::refining_after(ui.refining, step, result),
            build_progress: Self::progress_after(ui.build_progress, step, result),
            profile: EvalProfile {
                tex_w: result.width,
                tex_h: result.height,
                tiles_x: result.tiles_x,
                tiles_z: result.tiles_z,
                quality: step.quality,
                path: Self::path_of(result),
                first_visible_preview_us: visible_us,
                settled_authoritative_us: if result.fully_gpu && !result.cpu_fallback
                    && result.deferred is None {
                    settled_us
                } else {
                    ui.profile.settled_authoritative_us
                },
                ..ui.profile
            },
            ..ui
        }
    }

    fn ui_with_result(
        ui: EvalUi,
        step: EvalStep,
        result: &GpuResult,
        visible_us: u64,
        settled_us: u64,
    ) -> (r: EvalUi)
        ensures
            r == Self::ui_after(ui, step, *result, visible_us, settled_us),
    {
        let seed_failed = result.is_seed_failure();
        let suffix_pending = result.deferred.is_some() || result.resume_cpu_from.is_some();
        let climbs = step.quality.next_refine().is_some();
        let path = if seed_failed {
            EvalPath::GpuThenAsyncCpu
        } else if result.deferred.is_some() {
            EvalPath::GpuFullFieldDeferred
        } else if result.resume_cpu_from.is_some() {
            EvalPath::GpuThenAsyncCpu
        } else {
            EvalPath::Gpu
        };
        let settled = result.fully_gpu && !result.cpu_fallback && result.deferred.is_none();
        EvalUi {
            quality: step.quality,
            refining: if seed_failed {
                ui.refining
            } else {
                suffix_pending || climbs
            },
            build_progress: if seed_failed {
                ui.build_progress
            } else if suffix_pending {
                Some(BuildProgress::StageFloored(step.quality))
            } else if climbs {
                ui.build_progress
            } else {
                None
            },
            profile: EvalProfile {
                tex_w: result.width,
                tex_h: result.height,
                tiles_x: result.tiles_x,
                tiles_z: result.tiles_z,
                quality: step.quality,
                path,
                first_visible_preview_us: visible_us,
                settled_authoritative_us: if settled {
                    settled_us
                } else {
                    ui.profile.settled_authoritative_us
                },
                ..ui.profile
            },
            ..ui
        }
    }

    /// The background evaluator has to finish what the GPU left.
    pub open spec fn cpu_takes_over(result: GpuResult) -> bool {
        result.seed_failed() || (result.deferred is None && result.needs_cpu())
    }

    /// The layer name under which a deferred suffix is shown.
    pub open spec fn suffix_name(suffix: DeferredSuffix) -> Seq<char> {
        match suffix.layer_name {
            Some(name) => name@,
            None => "global layer"@,
        }
    }

    /// What a current result leaves of the deferred suffix and of the shown
    /// freshness.
    pub open spec fn suffix_settled(
        before: EvalState,
        after: EvalState,
        step: EvalStep,
        result: GpuResult,
    ) -> bool {
        if result.seed_failed() {
            &&& after.deferred_full_field == before.deferred_full_field
            &&& after.texts.freshness == before.texts.freshness
        } else if let Some(suffix) = result.deferred {
            &&& after.deferred_full_field matches Some(pending)
            &&& pending.generation == step.token
            &&& pending.layer_name@ == Self::suffix_name(suffix)
            &&& pending.deferred_layers == suffix.deferred_layers
            &&& pending.settle_at is None
            &&& after.texts.freshness == (TerrainPreviewFreshness::Deferred {
                layer_name: pending.layer_name,
                deferred_layers: suffix.deferred_layers,
                settling: false,
            })
        } else if result.needs_cpu() {
            &&& after.deferred_full_field is None
            &&& after.texts.freshness == match before.deferred_full_field {
                Some(pending) => TerrainPreviewFreshness::RefiningSuffix {
                    layer_name: pending.layer_name,
                    quality: step.quality,
                },
                None => before.texts.freshness,
            }
        } else {
            &&& after.deferred_full_field is None
            &&& after.texts.freshness is Current
        }
    }

    /// Schedules what the GPU deferred or left to the CPU.
    fn settle_suffix(&mut self, step: EvalStep, result: GpuResult)
        ensures
            final(self).core == old(self).core,
            final(self).ui == old(self).ui,
            final(self).pending_plan_edits == old(self).pending_plan_edits,
            Self::suffix_settled(*old(self), *final(self), step, result),
            final(self).texts == (EvalTexts {
                freshness: final(self).texts.freshness,
                ..old(self).texts
            }),
    {
        if result.is_seed_failure() {
            return;
        }
        if let Some(suffix) = result.deferred {
            let layer_name = match suffix.layer_name {
                Some(name) => name,
                None => "global layer".to_owned(),
            };
            self.texts.freshness =
            TerrainPreviewFreshness::Deferred {
                layer_name: layer_name.clone(),
                deferred_layers: suffix.deferred_layers,
                settling: false,
            };
            self.deferred_full_field = Some(
                DeferredFullField {
                    generation: step.token,
                    layer_name,
                    deferred_layers: suffix.deferred_layers,
                    settle_at: None,
                },
            );
            return;
        }
        if result.resume_cpu_from.is_some() {
            if let Some(pending) = self.deferred_full_field.take() {
                self.texts.freshness =
                TerrainPreviewFreshness::RefiningSuffix {
                    layer_name: pending.layer_name,
                    quality: step.quality,
                };
            }
            return;
        }
        self.deferred_full_field = None;
        self.texts.freshness = TerrainPreviewFreshness::Current;
    }

    /// What a current result of the engine leaves.
    pub open spec fn result_accepted(
        before: EvalState,
        after: EvalState,
        step: EvalStep,
        result: GpuResult,
        evaluation: EvaluationTraceId,
        visible_us: u64,
        settled_us: u64,
    ) -> bool {
        &&& after.core == Self::core_after(before.core, step, result, evaluation)
        &&& after.ui == Self::ui_after(before.ui, step, result, visible_us, settled_us)
        &&& Self::suffix_settled(before, after, step, result)
        &&& after.texts == (EvalTexts { freshness: after.texts.freshness, ..before.texts })
        &&& after.pending_plan_edits == before.pending_plan_edits
    }

    /// Takes the engine's result in. A result of an older generation is
    /// refused and changes nothing; a current one is accepted, and what the GPU
    /// deferred or could not do is scheduled.
    pub fn accept_gpu_result(
        &mut self,
        step: EvalStep,
        result: GpuResult,
        evaluation: EvaluationTraceId,
        visible_us: u64,
        settled_us: u64,
    ) -> (r: GpuVerdict)
        ensures
            step.token != old(self).core.eval_token ==> {
                &&& *final(self) == *old(self)
                &&& r == (GpuVerdict {
                    presentation: Presentation::RefusedStale,
                    enqueue: false,
                    pyramid: false,
                    used_gpu: false,
                    completed: false,
                })
            },
            step.token == old(self).core.eval_token ==> {
                &&& r == (GpuVerdict {
                    presentation: Self::presentation_of(result),
                    enqueue: Self::cpu_takes_over(result) && !old(self).core.worker_refine_pending,
                    pyramid: result.has_output,
                    used_gpu: true,
                    completed: true,
                })
                &&& Self::result_accepted(
                    *old(self),
                    *final(self),
                    step,
                    result,
                    evaluation,
                    visible_us,
                    settled_us,
                )
            },
    {
        if step.token != self.core.eval_token {
            return GpuVerdict {
                presentation: Presentation::RefusedStale,
                enqueue: false,
                pyramid: false,
                used_gpu: false,
                completed: false,
            };
        }
        let presentation = Self::presentation(&result);
        let pyramid = result.has_output;
        let takes_over = result.is_seed_failure() || (result.deferred.is_none()
            && result.resume_cpu_from.is_some());
        let enqueue = takes_over && !self.core.worker_refine_pending;
        self.core = Self::core_with_result(self.core, step, &result, evaluation);
        self.ui = Self::ui_with_result(self.ui, step, &result, visible_us, settled_us);
        self.settle_suffix(step, result);
        GpuVerdict { presentation, enqueue, pyramid, used_gpu: true, completed: true }
    }

    /// The state once the work went to the background evaluator.
    pub open spec fn on_cpu_path(self) -> EvalState {
        EvalState {
            ui: EvalUi {
                profile: EvalProfile { path: EvalPath::AsyncCpu, ..self.ui.profile },
                ..self.ui
            },
            ..self
        }
    }

    /// The state once the engine failed.
    pub open spec fn without_gpu(self) -> EvalState {
        EvalState {
            core: EvalCore { last_eval_gpu_supported: false, ..self.core },
            ..self.on_cpu_path()
        }
    }

    /// The engine failed: the last good terrain stays on screen and the
    /// background evaluator takes the stack.
    pub fn gpu_evaluation_failed(&mut self) -> (r: GpuVerdict)
        ensures
            r == (GpuVerdict {
                presentation: Presentation::RefusedNoOutput,
                enqueue: !old(self).core.worker_refine_pending,
                pyramid: false,
                used_gpu: true,
                completed: true,
            }),
            *final(self) == old(self).without_gpu(),
    {
        self.core = EvalCore { last_eval_gpu_supported: false, ..self.core };
        self.ui = EvalUi {
            profile: EvalProfile { path: EvalPath::AsyncCpu, ..self.ui.profile },
            ..self.ui
        };
        GpuVerdict {
            presentation: Presentation::RefusedNoOutput,
            enqueue: !self.core.worker_refine_pending,
            pyramid: false,
            used_gpu: true,
            completed: true,
        }
    }

    /// Without a GPU result the background evaluator is the last resort. The
    /// result says whether it has to be asked, which completes the step.
    pub fn cpu_last_resort(&mut self, used_gpu: bool) -> (enqueue: bool)
        ensures
            enqueue == (!used_gpu && !old(self).core.worker_refine_pending),
            *final(self) == if enqueue {
                old(self).on_cpu_path()
            } else {
                *old(self)
            },
    {
        let enqueue = !used_gpu && !self.core.worker_refine_pending;
        if enqueue {
            self.ui = EvalUi {
                profile: EvalProfile { path: EvalPath::AsyncCpu, ..self.ui.profile },
                ..self.ui
            };
        }
        enqueue
    }

    /// The state once the evaluation is closed.
    pub open spec fn closed(self, step: EvalStep, completed: bool, eval_us: u64) -> EvalState {
        EvalState {
            ui: EvalUi {
                quality: if completed {
                    step.quality
                } else {
                    self.ui.quality
                },
                build_progress: if completed {
                    Some(BuildProgress::Stage(step.quality))
                } else {
                    self.ui.build_progress
                },
                draft_displayed: if completed {
                    step.quality == PreviewQuality::Draft || step.quality == PreviewQuality::Medium
                } else {
                    self.ui.draft_displayed
                },
                profile: EvalProfile { eval_us, ..self.ui.profile },
                ..self.ui
            },
            ..self
        }
    }

    /// Closes the evaluation.
    pub fn finish_eval_step(&mut self, step: EvalStep, completed: bool, eval_us: u64)
        ensures
            *final(self) == old(self).closed(step, completed, eval_us),
    {
        self.ui = EvalUi { profile: EvalProfile { eval_us, ..self.ui.profile }, ..self.ui };
        if completed {
            self.ui = EvalUi {
                quality: step.quality,
                build_progress: Some(BuildProgress::Stage(step.quality)),
                draft_displayed: match step.quality {
                    PreviewQuality::Draft | PreviewQuality::Medium => true,
                    PreviewQuality::Full | PreviewQuality::Export => false,
                },
                ..self.ui
            };
        }
    }
}

/// An evaluation runs under the current generation. What an edit forced runs at
/// Draft unless a bounded stroke goes over a resident Full texture, and then at
/// Full; what no edit forced runs at the rung that the ladder has reached. The
/// force is spent by it, and the ladder goes on from the quality that ran.
pub proof fn an_evaluation_runs_at_the_quality_due(
    before: EvalState,
    after: EvalState,
    intent: GpuEvaluationIntent,
    observation: StepObservation,
    step: EvalStep,
)
    requires
        EvalState::step_opened(before, after, intent, observation, step),
    ensures
        step.token == before.core.eval_token,
        step.intent == intent,
        !before.core.force_draft ==> step.quality == before.core.scheduler_quality,
        before.core.force_draft && (!observation.selected_is_bounded_sculpt
            || before.core.pending_gpu_dirty_region is None || !before.core.last_eval_gpu_supported
            || observation.texture is None) ==> step.quality is Draft,
        before.core.force_draft && (observation.texture matches Some((w, h)) && (w
            != observation.full_resolution || h != observation.full_resolution))
            ==> step.quality is Draft,
        before.core.force_draft && observation.selected_is_bounded_sculpt
            && before.core.pending_gpu_dirty_region is Some && before.core.last_eval_gpu_supported
            && (observation.texture matches Some((w, h)) && w == observation.full_resolution && h
            == observation.full_resolution) ==> step.quality is Full,
        !after.core.force_draft,
        after.core.scheduler_quality == step.quality,
        after.core.eval_token == before.core.eval_token,
        after.core.worker_dirty == before.core.worker_dirty,
        after.ui.profile.first_visible_preview_us == 0,
        after.ui.profile.settled_authoritative_us == 0,
        observation.selected_layer_name matches Some(name)
            ==> crate::eval::opt_text(after.texts.refining_layer_name) == Some(name@),
{
}

/// The engine is restricted to the rectangle of the gesture only for the gesture's
/// own preview; a complete evaluation is restricted to nothing.
pub proof fn only_previews_keep_to_the_rectangle(state: EvalState, intent: GpuEvaluationIntent)
    ensures
        intent is Complete ==> state.rect_use(intent) is Clear,
        intent is InteractiveLocal && state.core.pending_gpu_dirty_region is None
            ==> state.rect_use(intent) is Keep,
        intent is InteractiveLocal ==> (state.core.pending_gpu_dirty_region matches Some(region)
            ==> state.rect_use(intent) == DirtyRectUse::Region(region)),
{
}

/// The background evaluator takes over whatever layers the GPU left undone, from
/// whichever layer on, unless they wait as a deferred suffix. A stack that could
/// not even be seeded does not wait. Where no layer was left, there is nothing to
/// take over.
pub proof fn undone_layers_are_taken_over(result: GpuResult, first: usize)
    ensures
        result.resume_cpu_from == Some(first) && result.deferred is None
            ==> EvalState::cpu_takes_over(result),
        result.resume_cpu_from is None ==> !EvalState::cpu_takes_over(result),
        result.resume_cpu_from == Some(0usize) && !result.did_eval && !result.fully_gpu
            ==> EvalState::cpu_takes_over(result),
        result.deferred is Some && (result.did_eval || result.fully_gpu)
            ==> !EvalState::cpu_takes_over(result),
        result.deferred is Some && result.resume_cpu_from == Some(first) && first > 0
            ==> !EvalState::cpu_takes_over(result),
{
}

/// What reaches the screen: nothing of an engine that did not evaluate, nothing of
/// an output without an identity, and else the texels that changed, or all of them
/// by sharing the texture.
pub proof fn changed_texels_reach_the_screen(result: GpuResult)
    ensures
        !result.did_eval ==> EvalState::presentation_of(result) is RefusedNoOutput,
        result.did_eval && !result.has_output ==> EvalState::presentation_of(
            result,
        ) is AcceptedUnseen,
        result.did_eval && result.has_output && result.dirty_region is None
            ==> EvalState::presentation_of(result) is Shared,
        result.did_eval && result.has_output ==> (result.dirty_region matches Some(region) ==> {
            &&& region.x == 0 && region.y == 0 && region.w == result.width && region.h
                == result.height ==> EvalState::presentation_of(result) is Shared
            &&& region.x != 0 || region.y != 0 || region.w != result.width || region.h
                != result.height ==> EvalState::presentation_of(result) == Presentation::Region(
                region,
            )
        }),
{
}

/// A current result that evaluated the stack completes its generation and needs no
/// upload from the CPU; one that did not completes nothing and leaves the upload
/// pending. The plan's invalidation is consumed unless part of the stack is still
/// to come. What was dirty for the worker stays dirty, and so does the rectangle
/// of the gesture until its own preview has run.
pub proof fn results_complete_their_generation(
    core: EvalCore,
    step: EvalStep,
    result: GpuResult,
    evaluation: EvaluationTraceId,
)
    ensures
        ({
            let after = EvalState::core_after(core, step, result, evaluation);
            &&& result.did_eval ==> after.last_complete_generation.0 == step.token
                && after.last_accepted_evaluation_id == evaluation.0 && !after.needs_height_upload
            &&& !result.did_eval ==> after.last_complete_generation == core.last_complete_generation
                && after.last_accepted_evaluation_id == core.last_accepted_evaluation_id
                && after.needs_height_upload == core.needs_height_upload
            &&& result.resume_cpu_from is Some || result.cpu_fallback
                ==> !after.last_eval_gpu_supported
            &&& result.resume_cpu_from is None && !result.cpu_fallback
                ==> after.last_eval_gpu_supported
            &&& result.deferred is None && !result.cpu_fallback ==> !after.pending_plan_invalidation
            &&& result.deferred is Some || result.cpu_fallback ==> after.pending_plan_invalidation
                == core.pending_plan_invalidation
            &&& step.intent is InteractiveLocal ==> after.pending_gpu_dirty_region is None
            &&& step.intent is Complete ==> after.pending_gpu_dirty_region
                == core.pending_gpu_dirty_region
            &&& after.worker_dirty == core.worker_dirty
            &&& after.eval_token == core.eval_token
            &&& after.worker_refine_pending == core.worker_refine_pending
            &&& after.pending_eval == core.pending_eval
            &&& after.scheduler_quality == core.scheduler_quality
        }),
{
}

/// The interface shows a build as refining exactly while something is still to
/// come: a deferred suffix, layers for the CPU, or a further rung. Once nothing is,
/// no progress is shown either.
pub proof fn the_interface_refines_while_work_is_left(
    ui: EvalUi,
    step: EvalStep,
    result: GpuResult,
    visible_us: u64,
    settled_us: u64,
)
    requires
        result.did_eval || result.fully_gpu || result.resume_cpu_from != Some(0usize),
    ensures
        ({
            let after = EvalState::ui_after(ui, step, result, visible_us, settled_us);
            &&& result.deferred is Some || result.resume_cpu_from is Some ==> after.refining
                && after.build_progress == Some(BuildProgress::StageFloored(step.quality))
            &&& result.deferred is None && result.resume_cpu_from is None && (step.quality is Draft
                || step.quality is Medium) ==> after.refining && after.build_progress
                == ui.build_progress
            &&& result.deferred is None && result.resume_cpu_from is None && (step.quality is Full
                || step.quality is Export) ==> !after.refining && after.build_progress is None
            &&& result.deferred is Some ==> after.profile.path is GpuFullFieldDeferred
            &&& result.deferred is None && result.resume_cpu_from is Some
                ==> after.profile.path is GpuThenAsyncCpu
            &&& result.deferred is None && result.resume_cpu_from is None
                ==> after.profile.path is Gpu
        }),
{
}

/// The profile holds what ran: the quality, the extent, the tiles and the time of
/// the first picture; the settled time only of an evaluation that left nothing to
/// the CPU or for later.
pub proof fn the_profile_holds_what_ran(
    ui: EvalUi,
    step: EvalStep,
    result: GpuResult,
    visible_us: u64,
    settled_us: u64,
)
    ensures
        ({
            let after = EvalState::ui_after(ui, step, result, visible_us, settled_us);
            &&& after.quality == step.quality
            &&& after.profile.quality == step.quality
            &&& after.profile.tex_w == result.width
            &&& after.profile.tex_h == result.height
            &&& after.profile.tiles_x == result.tiles_x
            &&& after.profile.tiles_z == result.tiles_z
            &&& after.profile.first_visible_preview_us == visible_us
            &&& result.fully_gpu && !result.cpu_fallback && result.deferred is None
                ==> after.profile.settled_authoritative_us == settled_us
            &&& !result.fully_gpu || result.cpu_fallback || result.deferred is Some
                ==> after.profile.settled_authoritative_us == ui.profile.settled_authoritative_us
            &&& after.draft_displayed == ui.draft_displayed
            &&& after.profile.gen_id == ui.profile.gen_id
            &&& result.resume_cpu_from == Some(0usize) && !result.fully_gpu && !result.did_eval
                ==> after.refining == ui.refining && after.build_progress == ui.build_progress
                && after.profile.path is GpuThenAsyncCpu
        }),
{
}

/// A suffix that the GPU deferred is pending under the generation that ran, held
/// until the gesture ends, and shown as deferred. A result that leaves nothing
/// clears it and is current; one that leaves layers to the CPU hands it over.
pub proof fn deferred_suffixes_are_remembered(
    before: EvalState,
    after: EvalState,
    step: EvalStep,
    result: GpuResult,
)
    requires
        EvalState::suffix_settled(before, after, step, result),
        result.did_eval || result.fully_gpu || result.resume_cpu_from != Some(0usize),
    ensures
        result.deferred matches Some(suffix) ==> {
            &&& after.deferred_full_field matches Some(pending) && pending.generation == step.token
                && pending.settle_at is None && pending.deferred_layers == suffix.deferred_layers
                && (suffix.layer_name matches Some(name) ==> pending.layer_name@ == name@)
            &&& after.texts.freshness matches TerrainPreviewFreshness::Deferred {
                deferred_layers,
                settling,
                ..
            } && deferred_layers == suffix.deferred_layers && !settling
        },
        result.deferred is None ==> after.deferred_full_field is None,
        result.deferred is None && result.resume_cpu_from is None ==> after.texts.freshness
            is Current,
        result.deferred is None && result.resume_cpu_from is Some ==> (
        before.deferred_full_field matches Some(pending) ==> after.texts.freshness
            == (TerrainPreviewFreshness::RefiningSuffix {
            layer_name: pending.layer_name,
            quality: step.quality,
        })),
        result.deferred is None && result.resume_cpu_from is Some && before.deferred_full_field
            is None ==> after.texts.freshness == before.texts.freshness,
{
}

/// A closed evaluation that completed is what the interface shows, as a draft while
/// a rung lies ahead of it; one that did not complete changes only its timing.
pub proof fn completed_evaluations_are_shown(
    state: EvalState,
    step: EvalStep,
    completed: bool,
    eval_us: u64,
)
    ensures
        ({
            let after = state.closed(step, completed, eval_us);
            &&& after.ui.profile.eval_us == eval_us
            &&& after.core == state.core
            &&& completed ==> after.ui.quality == step.quality && after.ui.build_progress == Some(
                BuildProgress::Stage(step.quality),
            )
            &&& completed && (step.quality is Draft || step.quality is Medium)
                ==> after.ui.draft_displayed
            &&& completed && (step.quality is Full || step.quality is Export)
                ==> !after.ui.draft_displayed
            &&& !completed ==> after.ui.quality == state.ui.quality && after.ui.build_progress
                == state.ui.build_progress && after.ui.draft_displayed == state.ui.draft_displayed
            &&& after.ui.refining == state.ui.refining
        }),
{
}

/// A stack without a plan or an engine that failed is remembered as beyond the GPU,
/// and the profile says that the CPU has it. Nothing else that evaluation decides
/// by changes.
pub proof fn lost_engines_are_remembered(state: EvalState, eval_us: u64)
    ensures
        !state.without_plan(eval_us).core.last_eval_gpu_supported,
        state.without_plan(eval_us).ui.profile.path is AsyncCpu,
        state.without_plan(eval_us).ui.profile.eval_us == eval_us,
        state.without_plan(eval_us).core.worker_dirty == state.core.worker_dirty,
        state.without_plan(eval_us).core.eval_token == state.core.eval_token,
        !state.without_gpu().core.last_eval_gpu_supported,
        state.without_gpu().ui.profile.path is AsyncCpu,
        state.without_gpu().core.worker_dirty == state.core.worker_dirty,
        state.without_gpu().core.eval_token == state.core.eval_token,
        state.without_gpu().core.needs_height_upload == state.core.needs_height_upload,
        state.on_cpu_path().core == state.core,
        state.on_cpu_path().ui.profile.path is AsyncCpu,
        state.on_cpu_path().ui.refining == state.ui.refining,
{
}

/// Every pending edit reaches the plan once: it is part of the request, and none is
/// left pending.
pub proof fn every_pending_edit_reaches_the_plan(
    before: EvalState,
    after: EvalState,
    request: PlanRequest,
    edit: PlanEdit,
)
    requires
        EvalState::plan_requested(before, after, request),
        before.pending_plan_edits@.contains(edit),
    ensures
        request matches PlanRequest::Update(edits) && edits@.contains(edit) && edits@.len()
            == before.pending_plan_edits@.len(),
        after.pending_plan_edits@.len() == 0,
        after.core == before.core,
{
}

/// A current result is accepted, whatever it holds, and one that a newer edit has
/// outrun is refused and changes nothing. The worker is asked exactly for layers
/// that were left undone and are not deferred, or for a stack that could not be
/// seeded, and never while it has a job.
pub proof fn verdicts_ask_for_undone_layers(
    state: &mut EvalState,
    step: EvalStep,
    result: GpuResult,
    evaluation: EvaluationTraceId,
    visible_us: u64,
    settled_us: u64,
    verdict: GpuVerdict,
)
    requires
        call_ensures(
            EvalState::accept_gpu_result,
            (state, step, result, evaluation, visible_us, settled_us),
            verdict,
        ),
    ensures
        step.token != old(state).core.eval_token ==> !verdict.used_gpu && !verdict.completed
            && !verdict.enqueue && !verdict.pyramid && verdict.presentation is RefusedStale
            && *final(state) == *old(state),
        step.token == old(state).core.eval_token ==> {
            &&& verdict.used_gpu && verdict.completed
            &&& result.resume_cpu_from is Some && result.deferred is None
                && !old(state).core.worker_refine_pending ==> verdict.enqueue
            &&& !verdict.enqueue ==> result.resume_cpu_from is None || result.deferred is Some
                || old(state).core.worker_refine_pending
            &&& result.resume_cpu_from is None || old(state).core.worker_refine_pending
                ==> !verdict.enqueue
            &&& result.deferred is Some && result.did_eval ==> !verdict.enqueue
            &&& verdict.pyramid <==> result.has_output
            &&& result.did_eval ==> final(state).core.last_complete_generation.0 == step.token
            &&& result.did_eval && result.has_output && result.dirty_region is None
                ==> verdict.presentation is Shared
            &&& !result.did_eval ==> verdict.presentation is RefusedNoOutput
            &&& final(state).core.worker_dirty == old(state).core.worker_dirty
        },
{
}

/// Where there is no plan, no engine, or the engine failed, the worker is asked
/// unless it has a job; where the GPU answered it is not a last resort.
pub proof fn without_a_gpu_the_worker_is_asked(
    state: &mut EvalState,
    used_gpu: bool,
    enqueue: bool,
)
    requires
        call_ensures(EvalState::cpu_last_resort, (state, used_gpu), enqueue),
    ensures
        used_gpu || old(state).core.worker_refine_pending ==> !enqueue && *final(state) == *old(state),
        !used_gpu && !old(state).core.worker_refine_pending ==> enqueue && final(state).ui.profile.path is AsyncCpu,
{
}

/// As above, for a stack without a plan.
pub proof fn without_a_plan_the_worker_is_asked(
    state: &mut EvalState,
    eval_us: u64,
    enqueue: bool,
)
    requires
        call_ensures(EvalState::plan_unsupported, (state, eval_us), enqueue),
    ensures
        enqueue <==> !old(state).core.worker_refine_pending,
        !final(state).core.last_eval_gpu_supported,
{
}

/// As above, for an engine that failed: nothing of it is shown.
pub proof fn after_a_failed_engine_the_worker_is_asked(
    state: &mut EvalState,
    verdict: GpuVerdict,
)
    requires
        call_ensures(EvalState::gpu_evaluation_failed, (state,), verdict),
    ensures
        verdict.enqueue <==> !old(state).core.worker_refine_pending,
        verdict.presentation is RefusedNoOutput,
        !verdict.pyramid,
        verdict.used_gpu,
        verdict.completed,
        !final(state).core.last_eval_gpu_supported,
{
}

/// The engine runs under the frame that asked for the work and the generation that
/// may publish it.
pub proof fn traces_name_frame_and_generation(
    frame: Option<FrameIdentity>,
    generation: u64,
    evaluation: EvaluationTraceId,
    context: GpuEvaluationTraceContext,
)
    requires
        call_ensures(gpu_evaluation_trace_context, (frame, generation, evaluation), context),
    ensures
        frame matches Some(identity) ==> context.frame_id == identity.id.0,
        frame is None ==> context.frame_id == 0,
        context.generation == generation,
        context.evaluation_id == evaluation.0,
{
}

/// A plan that was acquired has the next one checked against it, and nothing else
/// changes.
pub proof fn acquired_plans_are_invalidated_next(state: &mut EvalState)
    requires
        call_ensures(EvalState::plan_acquired, (state,), ()),
    ensures
        final(state).core.pending_plan_invalidation,
        final(state).core.eval_token == old(state).core.eval_token,
        final(state).pending_plan_edits == old(state).pending_plan_edits,
        final(state).ui == old(state).ui,
{
}

/// A result changes nothing of the texts but what is said of the preview's freshness,
/// and no plan edit is lost over it.
pub proof fn results_leave_the_rest(
    state: &mut EvalState,
    step: EvalStep,
    result: GpuResult,
    evaluation: EvaluationTraceId,
    visible_us: u64,
    settled_us: u64,
    verdict: GpuVerdict,
)
    requires
        call_ensures(
            EvalState::accept_gpu_result,
            (state, step, result, evaluation, visible_us, settled_us),
            verdict,
        ),
    ensures
        final(state).texts.status == old(state).texts.status,
        final(state).texts.refining_layer_name == old(state).texts.refining_layer_name,
        final(state).texts.evaluation_failure == old(state).texts.evaluation_failure,
        final(state).pending_plan_edits == old(state).pending_plan_edits,
        final(state).core.eval_token == old(state).core.eval_token,
{
}

} // verus!
