//! The evaluation state of the editor: which generation is current, what is
//! pending, what the worker has been asked, and what the interface shows of it.
//!
//! Outside work (the GPU engine, the CPU worker, the plan cache) is performed
//! by the caller; each method here takes what that work returned and says what
//! to do next.
use vstd::prelude::*;

use crate::clock::{Duration, Instant};
use crate::document_reset::RenderDirt;
use crate::dirty::{FullField, LayerId, StackLayer, UvRect, WorkerDirty};
use crate::logical_frame::{EditGeneration, FrameRequestReason};
use crate::frame_trace::FrameTraceEventKind;
use crate::quality::PreviewQuality;
use crate::refinement_job::RefinementJob;

verus! {

/// Quiet time after a gesture before a deferred suffix settles.
pub const SUFFIX_SETTLE_MS: u64 = 75;

/// Work of the event loop that waits for an instant.
#[derive(Debug, Clone, Copy, PartialEq, Eq, Structural)]
pub enum FrameDeadlineKind {
    InteractiveEvaluation,
    OptionalRefinement,
    FullFieldRefinement,
    DeferredFullField,
}

/// Delays of the refinement ladder.
#[derive(Debug, Clone, Copy, PartialEq, Eq, Structural)]
pub struct RefineTiming {
    pub refine_interval: Duration,
    pub post_input_grace: Duration,
}

/// Progress of a build, for the caller to turn into a fraction.
#[derive(Debug, Clone, Copy, PartialEq, Eq, Structural)]
pub enum BuildProgress {
    /// Nothing is done yet.
    Begun,
    /// The fraction that stands for a finished quality.
    Stage(PreviewQuality),
    /// As `Stage`, but never below the floor of a visible start.
    StageFloored(PreviewQuality),
    /// A refinement toward `quality` has run for `elapsed`.
    InFlight { quality: PreviewQuality, elapsed: Duration },
}

/// How the shown terrain relates to the current edit.
#[derive(Debug)]
pub enum TerrainPreviewFreshness {
    Current,
    LastCompleteStale,
    Deferred { layer_name: String, deferred_layers: usize, settling: bool },
    RefiningSuffix { layer_name: String, quality: PreviewQuality },
}

/// Where the last evaluation ran.
#[derive(Debug, Clone, Copy, PartialEq, Eq, Structural)]
pub enum EvalPath {
    Idle,
    AsyncCpu,
    GpuThenAsyncCpu,
    GpuFullFieldDeferred,
    Gpu,
    CpuPublished,
}

impl EvalPath {
    pub open spec fn name(self) -> Seq<char> {
        match self {
            EvalPath::Idle => ""@,
            EvalPath::AsyncCpu => "async CPU"@,
            EvalPath::GpuThenAsyncCpu => "GPU→async CPU"@,
            EvalPath::GpuFullFieldDeferred => "GPU (FullField deferred)"@,
            EvalPath::Gpu => "GPU"@,
            EvalPath::CpuPublished => "CPU (async)"@,
        }
    }

    pub fn label(self) -> (r: &'static str)
        ensures
            r@ == self.name(),
    {
        match self {
            EvalPath::Idle => "",
            EvalPath::AsyncCpu => "async CPU",
            EvalPath::GpuThenAsyncCpu => "GPU→async CPU",
            EvalPath::GpuFullFieldDeferred => "GPU (FullField deferred)",
            EvalPath::Gpu => "GPU",
            EvalPath::CpuPublished => "CPU (async)",
        }
    }
}

/// The profile's name for a quality.
pub open spec fn quality_name(quality: PreviewQuality) -> Seq<char> {
    match quality {
        PreviewQuality::Draft => "Draft (fast)"@,
        PreviewQuality::Medium => "Medium"@,
        PreviewQuality::Full => "Final (viewport)"@,
        PreviewQuality::Export => "Export quality"@,
    }
}

pub fn quality_label(quality: PreviewQuality) -> (r: &'static str)
    ensures
        r@ == quality_name(quality),
{
    match quality {
        PreviewQuality::Draft => "Draft (fast)",
        PreviewQuality::Medium => "Medium",
        PreviewQuality::Full => "Final (viewport)",
        PreviewQuality::Export => "Export quality",
    }
}

/// The part of the profile that evaluation writes.
#[derive(Debug, Clone, Copy, PartialEq, Eq, Structural)]
pub struct EvalProfile {
    pub gen_id: u64,
    /// Results of the background evaluator that were taken in.
    pub cpu_published: u64,
    pub path: EvalPath,
    pub quality: PreviewQuality,
    pub first_visible_preview_us: u64,
    pub settled_authoritative_us: u64,
    pub eval_us: u64,
    pub tex_w: u32,
    pub tex_h: u32,
    pub tiles_x: u32,
    pub tiles_z: u32,
}

/// A failure that stays on screen until it is acted upon.
#[derive(Debug)]
pub struct EvaluationFailureStatus {
    pub layer_name: Option<String>,
    pub quality: PreviewQuality,
    pub message: String,
    pub worker_restarted: bool,
}

/// What the interface shows of evaluation, apart from texts.
#[derive(Debug, Clone, Copy, PartialEq, Eq, Structural)]
pub struct EvalUi {
    pub refining: bool,
    pub quality: PreviewQuality,
    pub build_progress: Option<BuildProgress>,
    pub draft_displayed: bool,
    pub profile: EvalProfile,
}

/// The texts that the interface shows of evaluation.
#[derive(Debug)]
pub struct EvalTexts {
    pub refining_layer_name: Option<String>,
    pub freshness: TerrainPreviewFreshness,
    pub status: String,
    pub evaluation_failure: Option<EvaluationFailureStatus>,
}

/// A globally coupled suffix that waits for the gesture to end.
#[derive(Debug)]
pub struct DeferredFullField {
    pub generation: u64,
    pub layer_name: String,
    pub deferred_layers: usize,
    pub settle_at: Option<Instant>,
}

impl DeferredFullField {
    /// The suffix may settle: it is armed, its time has come and no newer edit
    /// has replaced it.
    pub open spec fn due(self, generation: u64, now: Instant) -> bool {
        &&& self.generation == generation
        &&& self.settle_at matches Some(at) && at.nanos <= now.nanos
    }

    /// A running gesture disarms the suffix.
    pub fn hold_during_gesture(&mut self)
        ensures
            *final(self) == (DeferredFullField { settle_at: None, ..*old(self) }),
    {
        self.settle_at = None;
    }

    /// Arms the suffix once after the gesture. Later calls do not move the
    /// deadline.
    pub fn arm_after_gesture(&mut self, now: Instant) -> (r: bool)
        requires
            now.nanos + 75_000_000 <= u128::MAX,
        ensures
            r == (old(self).settle_at is None),
            *final(self) == (DeferredFullField {
                settle_at: if old(self).settle_at is None {
                    Some(Instant { nanos: (now.nanos + 75_000_000) as u128 })
                } else {
                    old(self).settle_at
                },
                ..*old(self)
            }),
    {
        if self.settle_at.is_some() {
            return false;
        }
        self.settle_at = now.checked_add(Duration::from_millis(SUFFIX_SETTLE_MS));
        true
    }

    pub fn ready(&self, generation: u64, now: Instant) -> (r: bool)
        ensures
            r == self.due(generation, now),
    {
        match self.settle_at {
            Some(at) => self.generation == generation && at.nanos <= now.nanos,
            None => false,
        }
    }
}

/// What the caller has to do, in order.
#[derive(Debug, Clone, Copy, PartialEq, Eq, Structural)]
pub enum EvalEffect {
    SetWorkerToken(u64),
    RestartWorker,
    /// Hand the engine's side of the job back and record why.
    AbandonRefinement { job: RefinementJob, record: FrameTraceEventKind },
    ClearDeadline(FrameDeadlineKind),
    DiscardStaleDeadlines(EditGeneration),
    /// Wake for `kind` once `after` has passed.
    ScheduleDeadline { kind: FrameDeadlineKind, generation: EditGeneration, after: Duration },
    RequestFrame(FrameRequestReason),
    /// Dirty the layer and what follows it in the interface thread's evaluator.
    EvaluatorDirtyFrom(LayerId),
    /// As `EvaluatorDirtyFrom`, from the layer's own stage on.
    EvaluatorDirtyFromStage(LayerId),
    EvaluatorAllDirty,
    /// Only this layer's content changed on the GPU.
    GpuMarkDirty(LayerId),
    GpuMarkDirtyFrom(LayerId),
    GpuMarkAllDirty,
    /// Count the output on and retire what was streamed of it, in one step.
    AdvanceOutputRevision,
    /// Set the runtime up for the document's resolution and extent, which counts
    /// the output on.
    ReconfigureRuntime,
    /// Retire what was streamed.
    RetireStreaming,
    /// Stop every compile that was asked for the project at hand.
    CancelPipelineCompiles,
    /// Forget the height, the last good field, the auxiliary maps, the strata and
    /// the timings of the layers.
    DropPublishedFields,
    ClearEvaluatorCaches,
    ClearPlanCache,
    /// What the renderer holds of the document counts as never uploaded.
    RefreshUploads(RenderDirt),
    /// Show no dirty tile and no figure of streaming.
    ForgetStreamedFigures,
}

/// A node of the document that owns plan operations.
#[derive(Debug, Clone, Copy, PartialEq, Eq, Structural)]
pub enum NodeRef {
    Layer(LayerId),
    Group(LayerId),
}

/// An edit that the compiled plan has not seen.
#[derive(Debug, Clone, Copy, PartialEq, Eq, Structural)]
pub enum PlanEdit {
    Structure,
    Parameters { node: NodeRef },
    /// The height content of a layer changed inside a region.
    Content { layer: LayerId, region: UvRect },
}

/// A request for the background evaluator. The scope is a copy: it stays
/// pending until a fresh result is consumed.
#[derive(Debug, Clone, Copy, PartialEq, Eq, Structural)]
pub struct WorkerRequest {
    pub token: u64,
    pub quality: PreviewQuality,
    pub preview_res: u32,
    pub scope: WorkerDirty,
}

/// Resolution on screen against those of the document.
#[derive(Debug, Clone, Copy, PartialEq, Eq, Structural)]
pub struct VisibleResolution {
    pub texture_width: u32,
    pub preview_resolution: u32,
    /// Resolution of Medium under the interactive ceiling.
    pub medium: u32,
}

impl VisibleResolution {
    /// The highest quality that the shown texture already has.
    pub open spec fn shown_quality(self) -> PreviewQuality {
        let width = if self.texture_width >= 1 {
            self.texture_width
        } else {
            1
        };
        if width >= crate::dirty::min_key(
            self.preview_resolution,
            crate::dirty::INTERACTIVE_PREVIEW_CAP,
        ) {
            PreviewQuality::Full
        } else if width >= self.medium {
            PreviewQuality::Medium
        } else {
            PreviewQuality::Draft
        }
    }

    pub fn quality(&self) -> (r: PreviewQuality)
        ensures
            r == self.shown_quality(),
    {
        let width: u32 = if self.texture_width >= 1 {
            self.texture_width
        } else {
            1
        };
        let preview: u32 = crate::dirty::interactive_resolution(self.preview_resolution);
        if width >= preview {
            PreviewQuality::Full
        } else if width >= self.medium {
            PreviewQuality::Medium
        } else {
            PreviewQuality::Draft
        }
    }
}

/// What evaluation decides by.
#[derive(Debug, Clone, Copy, PartialEq, Eq, Structural)]
pub struct EvalCore {
    pub eval_token: u64,
    pub pending_eval: bool,
    pub pending_eval_immediate: bool,
    pub force_draft: bool,
    pub scheduler_quality: PreviewQuality,
    pub last_eval_gpu_supported: bool,
    pub pending_gpu_dirty_region: Option<UvRect>,
    /// An invalidation of the compiled plan waits for a complete evaluation.
    pub pending_plan_invalidation: bool,
    pub worker_dirty: WorkerDirty,
    pub worker_cache_res: Option<u32>,
    pub worker_refine_pending: bool,
    pub refinement_job: Option<RefinementJob>,
    pub next_refinement_job_id: u64,
    pub last_edit: Instant,
    pub last_refine: Instant,
    pub last_complete_generation: EditGeneration,
    pub last_accepted_evaluation_id: u64,
    pub needs_height_upload: bool,
    pub preview_dirty: bool,
}

/// The evaluation state of the editor.
#[derive(Debug)]
pub struct EvalState {
    pub core: EvalCore,
    pub ui: EvalUi,
    pub texts: EvalTexts,
    pub deferred_full_field: Option<DeferredFullField>,
    pub pending_plan_edits: Vec<PlanEdit>,
}

/// The effects of dropping a refinement job, if there is one.
pub open spec fn superseding(job: Option<RefinementJob>) -> Seq<EvalEffect> {
    match job {
        Some(job) => seq![
            EvalEffect::AbandonRefinement { job, record: FrameTraceEventKind::RefinementSuperseded },
        ],
        None => seq![],
    }
}

/// The text of an optional string.
pub open spec fn opt_text(s: Option<String>) -> Option<Seq<char>> {
    match s {
        Some(text) => Some(text@),
        None => None,
    }
}

/// What the interface calls the layer that is being refined: the selected one,
/// or the terrain as a whole.
pub open spec fn refining_target(selected: Option<String>) -> Option<Seq<char>> {
    match selected {
        Some(name) => Some(name@),
        None => Some("terrain"@),
    }
}

fn refining_name(selected: Option<String>) -> (r: Option<String>)
    ensures
        opt_text(r) == refining_target(selected),
{
    match selected {
        Some(name) => Some(name),
        None => Some("terrain".to_owned()),
    }
}

pub open spec fn failure_status(worker_restarted: bool) -> Seq<char> {
    if worker_restarted {
        "Terrain evaluation failed; worker restarted"@
    } else {
        "Terrain evaluation failed; last good preview retained"@
    }
}

impl EvalUi {
    /// Nothing is shown yet.
    pub open spec fn blank() -> EvalUi {
        EvalUi {
            refining: false,
            quality: PreviewQuality::Draft,
            build_progress: None,
            draft_displayed: false,
            profile: EvalProfile {
                gen_id: 0,
                cpu_published: 0,
                path: EvalPath::Idle,
                quality: PreviewQuality::Draft,
                first_visible_preview_us: 0,
                settled_authoritative_us: 0,
                eval_us: 0,
                tex_w: 0,
                tex_h: 0,
                tiles_x: 0,
                tiles_z: 0,
            },
        }
    }
}

impl EvalCore {
    /// Nothing was evaluated yet; the worker starts with everything dirty.
    pub open spec fn fresh(now: Instant) -> EvalCore {
        EvalCore {
            eval_token: 0,
            pending_eval: false,
            pending_eval_immediate: false,
            force_draft: false,
            scheduler_quality: PreviewQuality::Draft,
            last_eval_gpu_supported: false,
            pending_gpu_dirty_region: None,
            pending_plan_invalidation: false,
            worker_dirty: WorkerDirty { mark_all: true, dirty_from: None, region: None },
            worker_cache_res: None,
            worker_refine_pending: false,
            refinement_job: None,
            next_refinement_job_id: 0,
            last_edit: now,
            last_refine: now,
            last_complete_generation: EditGeneration(0),
            last_accepted_evaluation_id: 0,
            needs_height_upload: false,
            preview_dirty: true,
        }
    }

    /// The state after a rebuild was asked for under `token`.
    pub open spec fn rebuilding(self, token: u64, immediate: bool, now: Instant) -> EvalCore {
        EvalCore {
            eval_token: token,
            refinement_job: None,
            worker_refine_pending: false,
            pending_eval: true,
            pending_eval_immediate: immediate,
            force_draft: true,
            last_edit: now,
            ..self
        }
    }
}

impl EvalState {
    /// The state at launch, before any document was evaluated.
    pub fn new(now: Instant) -> (r: Self)
        ensures
            r.core == EvalCore::fresh(now),
            r.ui == EvalUi::blank(),
            r.texts.refining_layer_name is None,
            r.texts.freshness == TerrainPreviewFreshness::Current,
            r.texts.status@ == Seq::<char>::empty(),
            r.texts.evaluation_failure is None,
            r.deferred_full_field is None,
            r.pending_plan_edits@ == Seq::<PlanEdit>::empty(),
    {
        let core = EvalCore {
            eval_token: 0,
            pending_eval: false,
            pending_eval_immediate: false,
            force_draft: false,
            scheduler_quality: PreviewQuality::Draft,
            last_eval_gpu_supported: false,
            pending_gpu_dirty_region: None,
            pending_plan_invalidation: false,
            worker_dirty: WorkerDirty { mark_all: true, dirty_from: None, region: None },
            worker_cache_res: None,
            worker_refine_pending: false,
            refinement_job: None,
            next_refinement_job_id: 0,
            last_edit: now,
            last_refine: now,
            last_complete_generation: EditGeneration(0),
            last_accepted_evaluation_id: 0,
            needs_height_upload: false,
            preview_dirty: true,
        };
        let ui = EvalUi {
            refining: false,
            quality: PreviewQuality::Draft,
            build_progress: None,
            draft_displayed: false,
            profile: EvalProfile {
                gen_id: 0,
                cpu_published: 0,
                path: EvalPath::Idle,
                quality: PreviewQuality::Draft,
                first_visible_preview_us: 0,
                settled_authoritative_us: 0,
                eval_us: 0,
                tex_w: 0,
                tex_h: 0,
                tiles_x: 0,
                tiles_z: 0,
            },
        };
        EvalState {
            core,
            ui,
            texts: EvalTexts {
                refining_layer_name: None,
                freshness: TerrainPreviewFreshness::Current,
                status: String::new(),
                evaluation_failure: None,
            },
            deferred_full_field: None,
            pending_plan_edits: Vec::new(),
        }
    }

    /// Only the deciding part may differ.
    pub open spec fn only_core_changed(before: EvalState, after: EvalState) -> bool {
        &&& after.ui == before.ui
        &&& after.texts == before.texts
        &&& after.deferred_full_field == before.deferred_full_field
        &&& after.pending_plan_edits == before.pending_plan_edits
    }

    /// Only the deciding part and the shown numbers may differ.
    pub open spec fn texts_unchanged(before: EvalState, after: EvalState) -> bool {
        &&& after.texts == before.texts
        &&& after.deferred_full_field == before.deferred_full_field
        &&& after.pending_plan_edits == before.pending_plan_edits
    }

    /// Remembers that a refinement ran and schedules the next one.
    pub fn note_refinement_activity(&mut self, now: Instant, timing: RefineTiming) -> (r:
        EvalEffect)
        ensures
            final(self).core == (EvalCore { last_refine: now, ..old(self).core }),
            Self::only_core_changed(*old(self), *final(self)),
            r == (EvalEffect::ScheduleDeadline {
                kind: FrameDeadlineKind::OptionalRefinement,
                generation: EditGeneration(old(self).core.eval_token),
                after: timing.refine_interval,
            }),
    {
        self.core = EvalCore { last_refine: now, ..self.core };
        EvalEffect::ScheduleDeadline {
            kind: FrameDeadlineKind::OptionalRefinement,
            generation: EditGeneration(self.core.eval_token),
            after: timing.refine_interval,
        }
    }

    /// The effects of a rebuild under `token`, with the interactive evaluation
    /// due after `delay`.
    pub open spec fn rebuild_effects(
        token: u64,
        job: Option<RefinementJob>,
        delay: Duration,
        timing: RefineTiming,
    ) -> Seq<EvalEffect> {
        seq![EvalEffect::SetWorkerToken(token)] + superseding(job) + seq![
            EvalEffect::ClearDeadline(FrameDeadlineKind::FullFieldRefinement),
            EvalEffect::DiscardStaleDeadlines(EditGeneration(token)),
            EvalEffect::ScheduleDeadline {
                kind: FrameDeadlineKind::InteractiveEvaluation,
                generation: EditGeneration(token),
                after: delay,
            },
            EvalEffect::ScheduleDeadline {
                kind: FrameDeadlineKind::OptionalRefinement,
                generation: EditGeneration(token),
                after: timing.post_input_grace,
            },
            EvalEffect::RequestFrame(FrameRequestReason::RequiredEvaluation),
        ]
    }

    /// Drops the refinement in progress, if there is one.
    pub fn supersede_gpu_refinement(&mut self) -> (r: Option<EvalEffect>)
        ensures
            final(self).core == (EvalCore { refinement_job: None, ..old(self).core }),
            Self::only_core_changed(*old(self), *final(self)),
            r == match old(self).core.refinement_job {
                Some(job) => Some(
                    EvalEffect::AbandonRefinement {
                        job,
                        record: FrameTraceEventKind::RefinementSuperseded,
                    },
                ),
                None => None,
            },
    {
        let job = self.core.refinement_job;
        self.core = EvalCore { refinement_job: None, ..self.core };
        match job {
            None => None,
            Some(job) => Some(
                EvalEffect::AbandonRefinement {
                    job,
                    record: FrameTraceEventKind::RefinementSuperseded,
                },
            ),
        }
    }

    fn rebuild_effect_list(
        token: u64,
        job: Option<RefinementJob>,
        delay: Duration,
        timing: RefineTiming,
    ) -> (r: Vec<EvalEffect>)
        ensures
            r@ == Self::rebuild_effects(token, job, delay, timing),
    {
        let mut effects: Vec<EvalEffect> = Vec::new();
        effects.push(EvalEffect::SetWorkerToken(token));
        if let Some(job) = job {
            effects.push(
                EvalEffect::AbandonRefinement {
                    job,
                    record: FrameTraceEventKind::RefinementSuperseded,
                },
            );
        }
        effects.push(EvalEffect::ClearDeadline(FrameDeadlineKind::FullFieldRefinement));
        effects.push(EvalEffect::DiscardStaleDeadlines(EditGeneration(token)));
        effects.push(
            EvalEffect::ScheduleDeadline {
                kind: FrameDeadlineKind::InteractiveEvaluation,
                generation: EditGeneration(token),
                after: delay,
            },
        );
        effects.push(
            EvalEffect::ScheduleDeadline {
                kind: FrameDeadlineKind::OptionalRefinement,
                generation: EditGeneration(token),
                after: timing.post_input_grace,
            },
        );
        effects.push(EvalEffect::RequestFrame(FrameRequestReason::RequiredEvaluation));
        assert(effects@ =~= Self::rebuild_effects(token, job, delay, timing));
        effects
    }

    /// What dirties a layer and everything behind it outside this state. The
    /// output counts on, so nothing streamed of it is shown any more.
    pub open spec fn suffix_dirt(id: LayerId) -> Seq<EvalEffect> {
        seq![
            EvalEffect::EvaluatorDirtyFrom(id),
            EvalEffect::AdvanceOutputRevision,
            EvalEffect::GpuMarkDirtyFrom(id),
        ]
    }

    /// As `suffix_dirt`, where the evaluator can confine itself to a stage.
    pub open spec fn stage_dirt(id: LayerId) -> Seq<EvalEffect> {
        seq![
            EvalEffect::EvaluatorDirtyFromStage(id),
            EvalEffect::AdvanceOutputRevision,
            EvalEffect::GpuMarkDirtyFrom(id),
        ]
    }

    /// What dirties every layer outside this state.
    pub open spec fn whole_dirt() -> Seq<EvalEffect> {
        seq![
            EvalEffect::EvaluatorAllDirty,
            EvalEffect::ReconfigureRuntime,
            EvalEffect::RetireStreaming,
            EvalEffect::GpuMarkAllDirty,
        ]
    }

    /// A parameter edit of layer `id` without a known extent: the plan hears of
    /// it, the worker's suffix starts no later than `id`, and the output of the
    /// last evaluation is outdated.
    pub fn mark_dirty_from(&mut self, layers: &[StackLayer], id: LayerId) -> (r: Vec<EvalEffect>)
        ensures
            r@ == Self::suffix_dirt(id),
            final(self).pending_plan_edits@ == old(self).pending_plan_edits@.push(
                PlanEdit::Parameters { node: NodeRef::Layer(id) },
            ),
            final(self).core == (EvalCore {
                worker_dirty: old(self).core.worker_dirty.with_edit(layers@, id, None),
                ..old(self).core
            }),
            final(self).ui == old(self).ui,
            final(self).texts == old(self).texts,
            final(self).deferred_full_field == old(self).deferred_full_field,
    {
        self.track_parameter_edit(layers, id);
        let mut effects: Vec<EvalEffect> = Vec::new();
        effects.push(EvalEffect::EvaluatorDirtyFrom(id));
        effects.push(EvalEffect::AdvanceOutputRevision);
        effects.push(EvalEffect::GpuMarkDirtyFrom(id));
        effects
    }

    fn track_parameter_edit(&mut self, layers: &[StackLayer], id: LayerId)
        ensures
            final(self).pending_plan_edits@ == old(self).pending_plan_edits@.push(
                PlanEdit::Parameters { node: NodeRef::Layer(id) },
            ),
            final(self).core == (EvalCore {
                worker_dirty: old(self).core.worker_dirty.with_edit(layers@, id, None),
                ..old(self).core
            }),
            final(self).ui == old(self).ui,
            final(self).texts == old(self).texts,
            final(self).deferred_full_field == old(self).deferred_full_field,
    {
        self.pending_plan_edits.push(PlanEdit::Parameters { node: NodeRef::Layer(id) });
        let mut scope = self.core.worker_dirty;
        scope.track_worker_dirty_from(layers, id, None);
        self.core = EvalCore { worker_dirty: scope, ..self.core };
    }

    /// As `mark_dirty_from`, for an edit that the evaluator can confine to a
    /// stage of the layer: plan, worker and GPU hear the same of it.
    pub fn mark_dirty_from_stage(&mut self, layers: &[StackLayer], id: LayerId) -> (r: Vec<
        EvalEffect,
    >)
        ensures
            r@ == Self::stage_dirt(id),
            final(self).pending_plan_edits@ == old(self).pending_plan_edits@.push(
                PlanEdit::Parameters { node: NodeRef::Layer(id) },
            ),
            final(self).core == (EvalCore {
                worker_dirty: old(self).core.worker_dirty.with_edit(layers@, id, None),
                ..old(self).core
            }),
            final(self).ui == old(self).ui,
            final(self).texts == old(self).texts,
            final(self).deferred_full_field == old(self).deferred_full_field,
    {
        self.track_parameter_edit(layers, id);
        let mut effects: Vec<EvalEffect> = Vec::new();
        effects.push(EvalEffect::EvaluatorDirtyFromStage(id));
        effects.push(EvalEffect::AdvanceOutputRevision);
        effects.push(EvalEffect::GpuMarkDirtyFrom(id));
        effects
    }

    /// The whole stack changed.
    pub fn mark_all_layers_dirty(&mut self) -> (r: Vec<EvalEffect>)
        ensures
            r@ == Self::whole_dirt(),
            final(self).pending_plan_edits@ == old(self).pending_plan_edits@.push(
                PlanEdit::Structure,
            ),
            final(self).core == (EvalCore {
                worker_dirty: WorkerDirty::everything(),
                ..old(self).core
            }),
            final(self).ui == old(self).ui,
            final(self).texts == old(self).texts,
            final(self).deferred_full_field == old(self).deferred_full_field,
    {
        self.pending_plan_edits.push(PlanEdit::Structure);
        let mut scope = self.core.worker_dirty;
        scope.mark_all_dirty();
        self.core = EvalCore { worker_dirty: scope, ..self.core };
        let mut effects: Vec<EvalEffect> = Vec::new();
        effects.push(EvalEffect::EvaluatorAllDirty);
        effects.push(EvalEffect::ReconfigureRuntime);
        effects.push(EvalEffect::RetireStreaming);
        effects.push(EvalEffect::GpuMarkAllDirty);
        effects
    }

    /// The layer that a shape edit outdates: that of the session, else the
    /// selected one.
    pub fn shape_dirty_target(session: Option<LayerId>, selected: Option<LayerId>) -> (r: Option<
        LayerId,
    >)
        ensures
            r == match session {
                Some(id) => Some(id),
                None => selected,
            },
    {
        match session {
            Some(id) => Some(id),
            None => selected,
        }
    }

    /// The document changed: start over at Draft under the new `token`, once
    /// edits have been quiet for the debounce.
    pub fn request_rebuild(
        &mut self,
        token: u64,
        selected_layer_name: Option<String>,
        edit_debounce_ms: u64,
        now: Instant,
        timing: RefineTiming,
    ) -> (r: Vec<EvalEffect>)
        ensures
            final(self).core == (EvalCore {
                scheduler_quality: PreviewQuality::Draft,
                ..old(self).core.rebuilding(token, false, now)
            }),
            final(self).ui == (EvalUi {
                refining: true,
                quality: PreviewQuality::Draft,
                build_progress: Some(BuildProgress::Begun),
                profile: EvalProfile { gen_id: token, ..old(self).ui.profile },
                ..old(self).ui
            }),
            opt_text(final(self).texts.refining_layer_name) == refining_target(
                selected_layer_name,
            ),
            final(self).texts == (EvalTexts {
                refining_layer_name: final(self).texts.refining_layer_name,
                freshness: if old(self).core.pending_gpu_dirty_region is Some {
                    TerrainPreviewFreshness::LastCompleteStale
                } else {
                    TerrainPreviewFreshness::Current
                },
                ..old(self).texts
            }),
            final(self).deferred_full_field is None,
            final(self).pending_plan_edits == old(self).pending_plan_edits,
            r@ == Self::rebuild_effects(
                token,
                old(self).core.refinement_job,
                Duration {
                    nanos: (if edit_debounce_ms >= 1 {
                        edit_debounce_ms as int
                    } else {
                        1
                    } * 1_000_000) as u128,
                },
                timing,
            ),
    {
        let job = self.core.refinement_job;
        self.texts.freshness = if self.core.pending_gpu_dirty_region.is_some() {
            TerrainPreviewFreshness::LastCompleteStale
        } else {
            TerrainPreviewFreshness::Current
        };
        self.texts.refining_layer_name = refining_name(selected_layer_name);
        self.core = EvalCore {
            eval_token: token,
            refinement_job: None,
            worker_refine_pending: false,
            pending_eval: true,
            pending_eval_immediate: false,
            force_draft: true,
            last_edit: now,
            scheduler_quality: PreviewQuality::Draft,
            ..self.core
        };
        self.ui = EvalUi {
            refining: true,
            quality: PreviewQuality::Draft,
            build_progress: Some(BuildProgress::Begun),
            profile: EvalProfile { gen_id: token, ..self.ui.profile },
            ..self.ui
        };
        self.deferred_full_field = None;
        let debounce: u64 = if edit_debounce_ms >= 1 {
            edit_debounce_ms
        } else {
            1
        };
        Self::rebuild_effect_list(token, job, Duration::from_millis(debounce), timing)
    }

    /// An interactive structural edit: keep the resolution on screen and
    /// evaluate at once. The new token makes results in flight stale.
    pub fn request_rebuild_immediate(
        &mut self,
        visible: Option<VisibleResolution>,
        now: Instant,
        timing: RefineTiming,
    ) -> (r: Vec<EvalEffect>)
        ensures
            ({
                let token = vstd::wrapping::u64_specs::wrapping_add(old(self).core.eval_token, 1);
                &&& final(self).core == (EvalCore {
                    scheduler_quality: match visible {
                        Some(v) => v.shown_quality(),
                        None => old(self).core.scheduler_quality,
                    },
                    ..old(self).core.rebuilding(token, true, now)
                })
                &&& final(self).ui == (EvalUi {
                    refining: false,
                    build_progress: None,
                    quality: match visible {
                        Some(v) => v.shown_quality(),
                        None => old(self).ui.quality,
                    },
                    profile: EvalProfile { gen_id: token, ..old(self).ui.profile },
                    ..old(self).ui
                })
                &&& r@ == Self::rebuild_effects(
                    token,
                    old(self).core.refinement_job,
                    Duration { nanos: 0 },
                    timing,
                )
            }),
            final(self).texts == (EvalTexts {
                freshness: TerrainPreviewFreshness::Current,
                ..old(self).texts
            }),
            final(self).deferred_full_field is None,
            final(self).pending_plan_edits == old(self).pending_plan_edits,
    {
        let job = self.core.refinement_job;
        let token: u64 = self.core.eval_token.wrapping_add(1);
        let (scheduled, shown) = match visible {
            Some(v) => (v.quality(), v.quality()),
            None => (self.core.scheduler_quality, self.ui.quality),
        };
        self.core = EvalCore {
            eval_token: token,
            refinement_job: None,
            worker_refine_pending: false,
            pending_eval: true,
            pending_eval_immediate: true,
            force_draft: true,
            last_edit: now,
            scheduler_quality: scheduled,
            ..self.core
        };
        self.ui = EvalUi {
            refining: false,
            build_progress: None,
            quality: shown,
            profile: EvalProfile { gen_id: token, ..self.ui.profile },
            ..self.ui
        };
        self.texts.freshness = TerrainPreviewFreshness::Current;
        self.deferred_full_field = None;
        Self::rebuild_effect_list(token, job, Duration { nanos: 0 }, timing)
    }

    /// A bounded scope over a Full cache goes straight to Full.
    pub open spec fn promotes_to_full(self, requested: PreviewQuality, field: FullField) -> bool {
        self.core.worker_dirty.full_scope_admitted(requested, self.core.worker_cache_res, field)
    }

    /// The quality to submit at: a bounded scope over a Full cache goes straight
    /// to Full, and the ladder then settles there.
    pub fn straight_to_full_quality(&mut self, requested: PreviewQuality, field: FullField) -> (r:
        PreviewQuality)
        ensures
            Self::texts_unchanged(*old(self), *final(self)),
            old(self).promotes_to_full(requested, field) ==> {
                &&& r == PreviewQuality::Full
                &&& final(self).core == (EvalCore {
                    scheduler_quality: PreviewQuality::Full,
                    ..old(self).core
                })
                &&& final(self).ui == (EvalUi { quality: PreviewQuality::Full, ..old(self).ui })
            },
            !old(self).promotes_to_full(requested, field) ==> {
                &&& r == requested
                &&& *final(self) == *old(self)
            },
    {
        if !self.core.worker_dirty.admits_full_scope(requested, self.core.worker_cache_res, field) {
            return requested;
        }
        self.core = EvalCore { scheduler_quality: PreviewQuality::Full, ..self.core };
        self.ui = EvalUi { quality: PreviewQuality::Full, ..self.ui };
        PreviewQuality::Full
    }

    /// What the background evaluator is asked for at `quality`.
    pub open spec fn request_for(self, quality: PreviewQuality, field: FullField) -> WorkerRequest {
        WorkerRequest {
            token: self.core.eval_token,
            quality: if self.promotes_to_full(quality, field) {
                PreviewQuality::Full
            } else {
                quality
            },
            preview_res: field.full_res(),
            scope: self.core.worker_dirty,
        }
    }

    /// What building a request leaves: the quality follows a promotion, and the
    /// dirty scope stays.
    pub open spec fn request_built(
        before: EvalState,
        after: EvalState,
        quality: PreviewQuality,
        selected_layer_name: Option<String>,
        field: FullField,
    ) -> bool {
        &&& after.core == (EvalCore {
            scheduler_quality: if before.promotes_to_full(quality, field) {
                PreviewQuality::Full
            } else {
                before.core.scheduler_quality
            },
            ..before.core
        })
        &&& after.ui == (EvalUi {
            quality: if before.promotes_to_full(quality, field) {
                PreviewQuality::Full
            } else {
                before.ui.quality
            },
            ..before.ui
        })
        &&& opt_text(after.texts.refining_layer_name) == refining_target(selected_layer_name)
        &&& after.texts == (EvalTexts {
            refining_layer_name: after.texts.refining_layer_name,
            ..before.texts
        })
        &&& after.deferred_full_field == before.deferred_full_field
        &&& after.pending_plan_edits == before.pending_plan_edits
    }

    /// Builds the request that hands the stack to the background evaluator. The
    /// dirty scope is copied, not drained: a job that is dropped before it runs
    /// loses nothing.
    pub fn enqueue_async_eval(
        &mut self,
        quality: PreviewQuality,
        selected_layer_name: Option<String>,
        field: FullField,
    ) -> (r: WorkerRequest)
        ensures
            r == old(self).request_for(quality, field),
            Self::request_built(*old(self), *final(self), quality, selected_layer_name, field),
    {
        self.texts.refining_layer_name = refining_name(selected_layer_name);
        let quality = self.straight_to_full_quality(quality, field);
        WorkerRequest {
            token: self.core.eval_token,
            quality,
            preview_res: field.full_resolution(),
            scope: self.core.worker_dirty,
        }
    }

    /// The state once the worker has a job.
    pub open spec fn submitted(self) -> EvalState {
        EvalState {
            core: EvalCore { worker_refine_pending: true, ..self.core },
            ui: EvalUi { refining: true, ..self.ui },
            ..self
        }
    }

    /// The worker took the request.
    pub fn async_eval_submitted(&mut self)
        ensures
            *final(self) == old(self).submitted(),
    {
        self.core = EvalCore { worker_refine_pending: true, ..self.core };
        self.ui = EvalUi { refining: true, ..self.ui };
    }

    /// What a refused submission leaves: everything is dirty for the worker that
    /// replaces the old one, and the failure is shown.
    pub open spec fn submission_refused(
        before: EvalState,
        after: EvalState,
        quality: PreviewQuality,
        message: Seq<char>,
    ) -> bool {
        Self::failed(
            EvalState {
                core: EvalCore {
                    worker_dirty: WorkerDirty::everything(),
                    worker_cache_res: None,
                    ..before.core
                },
                ..before
            },
            after,
            quality,
            None,
            true,
            "evaluation worker submission failed: "@ + message,
        )
    }

    /// The worker is gone. Its replacement has no checkpoints, so everything is
    /// dirty; the failure is shown.
    pub fn async_eval_rejected(&mut self, quality: PreviewQuality, message: String) -> (r: Vec<
        EvalEffect,
    >)
        ensures
            r@ == seq![
                EvalEffect::RestartWorker,
                EvalEffect::SetWorkerToken(old(self).core.eval_token),
            ],
            Self::submission_refused(*old(self), *final(self), quality, message@),
    {
        let mut effects: Vec<EvalEffect> = Vec::new();
        effects.push(EvalEffect::RestartWorker);
        effects.push(EvalEffect::SetWorkerToken(self.core.eval_token));
        let mut scope = self.core.worker_dirty;
        scope.mark_all_dirty();
        self.core = EvalCore { worker_dirty: scope, worker_cache_res: None, ..self.core };
        let mut shown = "evaluation worker submission failed: ".to_owned();
        shown.append(message.as_str());
        let token = self.core.eval_token;
        self.handle_evaluation_failure_details(token, quality, None, true, shown);
        effects
    }

    /// What a failure of the current generation leaves: nothing pending, the
    /// last good terrain untouched, and the failure on screen.
    pub open spec fn failed(
        before: EvalState,
        after: EvalState,
        quality: PreviewQuality,
        layer_name: Option<String>,
        worker_restarted: bool,
        message: Seq<char>,
    ) -> bool {
        &&& after.texts.status@ == failure_status(worker_restarted)
        &&& after.texts.evaluation_failure matches Some(failure)
        &&& failure.layer_name == match layer_name {
            Some(name) => Some(name),
            None => before.texts.refining_layer_name,
        }
        &&& failure.quality == quality
        &&& failure.message@ == message
        &&& failure.worker_restarted == worker_restarted
        &&& after.texts.refining_layer_name is None
        &&& after.texts.freshness == before.texts.freshness
        &&& after.core == (EvalCore { worker_refine_pending: false, ..before.core })
        &&& after.ui == (EvalUi { refining: false, build_progress: None, ..before.ui })
        &&& after.deferred_full_field == before.deferred_full_field
        &&& after.pending_plan_edits == before.pending_plan_edits
    }

    /// Takes in a failed evaluation. A failure of an older generation changes
    /// nothing.
    pub fn handle_evaluation_failure_details(
        &mut self,
        token: u64,
        quality: PreviewQuality,
        layer_name: Option<String>,
        worker_restarted: bool,
        message: String,
    )
        ensures
            token != old(self).core.eval_token ==> *final(self) == *old(self),
            token == old(self).core.eval_token ==> Self::failed(
                *old(self),
                *final(self),
                quality,
                layer_name,
                worker_restarted,
                message@,
            ),
    {
        if token != self.core.eval_token {
            return;
        }
        let current_name = self.texts.refining_layer_name.take();
        let shown_name = match layer_name {
            Some(name) => Some(name),
            None => current_name,
        };
        self.core = EvalCore { worker_refine_pending: false, ..self.core };
        self.ui = EvalUi { refining: false, build_progress: None, ..self.ui };
        self.texts.status = if worker_restarted {
            "Terrain evaluation failed; worker restarted".to_owned()
        } else {
            "Terrain evaluation failed; last good preview retained".to_owned()
        };
        self.texts.evaluation_failure = Some(
            EvaluationFailureStatus { layer_name: shown_name, quality, message, worker_restarted },
        );
    }
}

/// An immediate rebuild makes the work in flight stale: the new token differs
/// from the one that the work runs under, so neither its result nor its failure
/// is taken in, and no refinement is left.
pub proof fn immediate_rebuild_outdates_work_in_flight(core: EvalCore, now: Instant)
    ensures
        core.rebuilding(
            vstd::wrapping::u64_specs::wrapping_add(core.eval_token, 1),
            true,
            now,
        ).eval_token != core.eval_token,
        core.rebuilding(
            vstd::wrapping::u64_specs::wrapping_add(core.eval_token, 1),
            true,
            now,
        ).refinement_job is None,
{
}

/// A deferred suffix settles once: from the moment it is armed its deadline
/// stands, and it is due from then on and for its own generation only.
pub proof fn suffix_is_due_from_its_deadline_on(
    suffix: DeferredFullField,
    generation: u64,
    earlier: Instant,
    later: Instant,
)
    requires
        earlier.nanos <= later.nanos,
        suffix.due(generation, earlier),
    ensures
        suffix.due(generation, later),
        forall|other: u64| other != generation ==> !suffix.due(other, later),
{
}

/// Only a small scope goes straight to Full: a bounded suffix over checkpoints of
/// the Full resolution that touches at most a quarter of the Full tile grid. A
/// cold cache takes the ladder, and so does every scope on a grid of fewer than
/// four tiles.
pub proof fn only_small_scopes_go_straight_to_full(
    state: EvalState,
    requested: PreviewQuality,
    field: FullField,
)
    ensures
        requested == PreviewQuality::Full || requested == PreviewQuality::Export
            ==> !state.promotes_to_full(requested, field),
        state.core.worker_cache_res is None ==> !state.promotes_to_full(requested, field),
        state.core.worker_dirty.region is None ==> !state.promotes_to_full(requested, field),
        state.promotes_to_full(requested, field) ==> (field.tile_count matches Some(count) && 4
            * field.scope_tiles <= count),
        field.scope_tiles >= 1 && (field.tile_count matches Some(count) && count < 4)
            ==> !state.promotes_to_full(requested, field),
{
}

/// A suffix that a gesture holds is never due.
pub proof fn held_suffix_is_not_due(suffix: DeferredFullField, generation: u64, now: Instant)
    ensures
        !(DeferredFullField { settle_at: None, ..suffix }).due(generation, now),
{
}

/// What is on screen counts as Full from the Full resolution of the document on,
/// up to the interactive ceiling, below that as Medium from Medium's resolution
/// on, and else as Draft.
pub proof fn the_shown_quality_follows_the_texture(visible: VisibleResolution)
    requires
        visible.texture_width >= 1,
    ensures
        visible.texture_width >= visible.preview_resolution || visible.texture_width >= 8192
            ==> visible.shown_quality() is Full,
        visible.texture_width < visible.preview_resolution && visible.texture_width < 8192
            && visible.texture_width >= visible.medium ==> visible.shown_quality() is Medium,
        visible.texture_width < visible.preview_resolution && visible.texture_width < 8192
            && visible.texture_width < visible.medium ==> visible.shown_quality() is Draft,
        (VisibleResolution { texture_width: 0, ..visible }).shown_quality() == (VisibleResolution {
            texture_width: 1,
            ..visible
        }).shown_quality(),
{
}

/// A rebuild starts over: its token is the current generation, an evaluation is
/// pending and forced, at once or not as was asked, no job of the worker or of the
/// GPU is left, and the edit counts from now. What is dirty stays dirty.
pub proof fn a_rebuild_starts_over(core: EvalCore, token: u64, immediate: bool, now: Instant)
    ensures
        ({
            let after = core.rebuilding(token, immediate, now);
            &&& after.eval_token == token
            &&& after.pending_eval
            &&& after.pending_eval_immediate <==> immediate
            &&& after.force_draft
            &&& after.refinement_job is None
            &&& !after.worker_refine_pending
            &&& after.last_edit == now
            &&& after.worker_dirty == core.worker_dirty
            &&& after.worker_cache_res == core.worker_cache_res
            &&& after.pending_gpu_dirty_region == core.pending_gpu_dirty_region
            &&& after.last_complete_generation == core.last_complete_generation
            &&& after.last_refine == core.last_refine
            &&& after.next_refinement_job_id == core.next_refinement_job_id
            &&& after.needs_height_upload == core.needs_height_upload
        }),
{
}

/// A rebuild tells the worker its token before anything else, abandons the job at
/// hand if there is one and no other, wakes the loop for the evaluation after the
/// delay and for the refinement after the grace, both under the new token, and
/// asks for a frame last.
pub proof fn a_rebuild_is_announced(
    token: u64,
    job: Option<RefinementJob>,
    delay: Duration,
    timing: RefineTiming,
)
    ensures
        ({
            let effects = EvalState::rebuild_effects(token, job, delay, timing);
            &&& effects.first() == EvalEffect::SetWorkerToken(token)
            &&& effects.last() == EvalEffect::RequestFrame(FrameRequestReason::RequiredEvaluation)
            &&& effects.contains(
                EvalEffect::ScheduleDeadline {
                    kind: FrameDeadlineKind::InteractiveEvaluation,
                    generation: EditGeneration(token),
                    after: delay,
                },
            )
            &&& effects.contains(
                EvalEffect::ScheduleDeadline {
                    kind: FrameDeadlineKind::OptionalRefinement,
                    generation: EditGeneration(token),
                    after: timing.post_input_grace,
                },
            )
            &&& effects.contains(EvalEffect::DiscardStaleDeadlines(EditGeneration(token)))
            &&& effects.contains(EvalEffect::ClearDeadline(FrameDeadlineKind::FullFieldRefinement))
            &&& job matches Some(running) ==> effects.len() == 7 && effects[1]
                == (EvalEffect::AbandonRefinement {
                job: running,
                record: FrameTraceEventKind::RefinementSuperseded,
            })
            &&& job is None ==> effects.len() == 6 && forall|i: int|
                0 <= i < effects.len() ==> !(#[trigger] effects[i] is AbandonRefinement)
        }),
{
    let effects = EvalState::rebuild_effects(token, job, delay, timing);
    let shift: int = if job is Some {
        1
    } else {
        0
    };
    assert(effects[1 + shift] == EvalEffect::ClearDeadline(FrameDeadlineKind::FullFieldRefinement));
    assert(effects[2 + shift] == EvalEffect::DiscardStaleDeadlines(EditGeneration(token)));
    assert(effects[3 + shift] is ScheduleDeadline);
    assert(effects[4 + shift] is ScheduleDeadline);
}

/// Every way of dirtying reaches both evaluators: the one of the interface thread
/// hears of the layer or of everything, the GPU of the same, and the output of the
/// last evaluation counts on.
pub proof fn dirt_reaches_both_evaluators(id: LayerId)
    ensures
        EvalState::suffix_dirt(id).contains(EvalEffect::EvaluatorDirtyFrom(id)),
        EvalState::suffix_dirt(id).contains(EvalEffect::GpuMarkDirtyFrom(id)),
        EvalState::suffix_dirt(id).contains(EvalEffect::AdvanceOutputRevision),
        EvalState::stage_dirt(id).contains(EvalEffect::EvaluatorDirtyFromStage(id)),
        EvalState::stage_dirt(id).contains(EvalEffect::GpuMarkDirtyFrom(id)),
        EvalState::stage_dirt(id).contains(EvalEffect::AdvanceOutputRevision),
        EvalState::whole_dirt().contains(EvalEffect::EvaluatorAllDirty),
        EvalState::whole_dirt().contains(EvalEffect::GpuMarkAllDirty),
        EvalState::whole_dirt().contains(EvalEffect::ReconfigureRuntime),
        EvalState::whole_dirt().contains(EvalEffect::RetireStreaming),
{
    let suffix = EvalState::suffix_dirt(id);
    let stage = EvalState::stage_dirt(id);
    let whole = EvalState::whole_dirt();
    assert(suffix[0] is EvaluatorDirtyFrom && suffix[1] is AdvanceOutputRevision && suffix[2]
        is GpuMarkDirtyFrom);
    assert(stage[0] is EvaluatorDirtyFromStage && stage[1] is AdvanceOutputRevision && stage[2]
        is GpuMarkDirtyFrom);
    assert(whole[0] is EvaluatorAllDirty && whole[1] is ReconfigureRuntime && whole[2]
        is RetireStreaming && whole[3] is GpuMarkAllDirty);
}

/// The worker is asked under the current generation for all that is dirty, at the
/// quality that was asked or, for a small scope over a Full cache, at Full, and
/// nothing counts as clean before it has answered.
pub proof fn the_worker_is_asked_for_all_that_is_dirty(
    before: EvalState,
    after: EvalState,
    quality: PreviewQuality,
    selected_layer_name: Option<String>,
    field: FullField,
)
    requires
        EvalState::request_built(before, after, quality, selected_layer_name, field),
    ensures
        ({
            let request = before.request_for(quality, field);
            &&& request.token == before.core.eval_token
            &&& request.scope == before.core.worker_dirty
            &&& request.preview_res <= 8192 && request.preview_res <= field.preview_resolution
            &&& request.quality == quality || request.quality is Full
            &&& before.core.worker_dirty.mark_all ==> request.quality == quality
            &&& request.quality != quality ==> after.core.scheduler_quality is Full
                && after.ui.quality is Full
        }),
        after.core.worker_dirty == before.core.worker_dirty,
        after.core.eval_token == before.core.eval_token,
        after.core.worker_refine_pending == before.core.worker_refine_pending,
        after.submitted().core.worker_refine_pending,
        after.submitted().ui.refining,
        after.submitted().core.worker_dirty == before.core.worker_dirty,
        after.submitted().core.eval_token == before.core.eval_token,
        selected_layer_name matches Some(name) ==> opt_text(after.texts.refining_layer_name)
            == Some(name@),
{
}

/// A small scope over a Full cache is asked for at Full, whatever rung was due.
pub proof fn small_scopes_are_asked_at_full(
    state: EvalState,
    quality: PreviewQuality,
    field: FullField,
)
    requires
        quality is Draft || quality is Medium,
        !state.core.worker_dirty.mark_all,
        state.core.worker_dirty.dirty_from is Some,
        state.core.worker_dirty.region is Some,
        state.core.worker_cache_res == Some(field.full_res()),
        field.tile_count is Some,
        4 * field.scope_tiles <= field.tile_count->0,
    ensures
        state.request_for(quality, field).quality is Full,
{
}

/// A refused submission forgets nothing that is dirty: the worker that replaces
/// the old one starts with everything, without a cache, and is free for the next
/// request. The failure is on screen with its quality, and the terrain that is
/// shown stays as fresh as it was.
pub proof fn a_refusal_leaves_everything_dirty(
    before: EvalState,
    after: EvalState,
    quality: PreviewQuality,
    message: Seq<char>,
    layers: Seq<StackLayer>,
    index: int,
    u: u32,
    v: u32,
)
    requires
        EvalState::submission_refused(before, after, quality, message),
    ensures
        after.core.worker_dirty.covers(layers, index, u, v),
        after.core.worker_cache_res is None,
        !after.core.worker_refine_pending,
        after.core.eval_token == before.core.eval_token,
        !after.ui.refining,
        after.ui.build_progress is None,
        after.texts.evaluation_failure matches Some(failure) && failure.quality == quality
            && failure.worker_restarted,
        after.texts.freshness == before.texts.freshness,
{
}

/// A failure ends the wait and shows what failed, and changes nothing that the
/// next evaluation decides by: the generation, what is dirty and what is pending
/// stay.
pub proof fn a_failure_ends_the_wait(
    before: EvalState,
    after: EvalState,
    quality: PreviewQuality,
    layer_name: Option<String>,
    restarted: bool,
    message: Seq<char>,
)
    requires
        EvalState::failed(before, after, quality, layer_name, restarted, message),
    ensures
        !after.core.worker_refine_pending,
        !after.ui.refining,
        after.ui.build_progress is None,
        after.core.worker_dirty == before.core.worker_dirty,
        after.core.eval_token == before.core.eval_token,
        after.core.pending_eval == before.core.pending_eval,
        after.core.last_complete_generation == before.core.last_complete_generation,
        after.texts.evaluation_failure matches Some(failure) && failure.quality == quality
            && failure.message@ == message && failure.worker_restarted == restarted && (
        layer_name is Some ==> failure.layer_name == layer_name) && (layer_name is None
            ==> failure.layer_name == before.texts.refining_layer_name),
        after.texts.refining_layer_name is None,
        after.pending_plan_edits == before.pending_plan_edits,
        after.deferred_full_field == before.deferred_full_field,
{
}

/// An armed suffix of the current generation is due exactly once its instant has
/// come.
pub proof fn a_suffix_waits_for_its_instant(suffix: DeferredFullField, at: Instant, now: Instant)
    requires
        suffix.settle_at == Some(at),
    ensures
        at.nanos <= now.nanos ==> suffix.due(suffix.generation, now),
        now.nanos < at.nanos ==> !suffix.due(suffix.generation, now),
{
}

/// At launch nothing is pending, nothing runs, and the worker has everything to
/// do.
pub proof fn a_launch_leaves_the_worker_everything(
    now: Instant,
    layers: Seq<StackLayer>,
    index: int,
    u: u32,
    v: u32,
)
    ensures
        EvalCore::fresh(now).worker_dirty.covers(layers, index, u, v),
        !EvalCore::fresh(now).pending_eval,
        !EvalCore::fresh(now).worker_refine_pending,
        EvalCore::fresh(now).refinement_job is None,
        EvalCore::fresh(now).worker_cache_res is None,
        EvalCore::fresh(now).preview_dirty,
        EvalCore::fresh(now).last_edit == now,
        EvalCore::fresh(now).last_refine == now,
        !EvalUi::blank().refining,
        EvalUi::blank().build_progress is None,
        !EvalUi::blank().draft_displayed,
{
}

/// An edit starts over at Draft under its token, once edits have been quiet for the
/// debounce, which is never shorter than a millisecond. What the worker has to do
/// stays, the shown terrain counts as stale where a gesture is being previewed, and
/// the interface shows a build that has begun.
pub proof fn edits_are_debounced(
    state: &mut EvalState,
    token: u64,
    name: Option<String>,
    debounce_ms: u64,
    now: Instant,
    timing: RefineTiming,
    effects: Vec<EvalEffect>,
)
    requires
        call_ensures(
            EvalState::request_rebuild,
            (state, token, name, debounce_ms, now, timing),
            effects,
        ),
    ensures
        final(state).core.eval_token == token,
        final(state).core.pending_eval,
        !final(state).core.pending_eval_immediate,
        final(state).core.force_draft,
        final(state).core.scheduler_quality is Draft,
        final(state).core.worker_dirty == old(state).core.worker_dirty,
        !final(state).core.worker_refine_pending,
        final(state).core.refinement_job is None,
        final(state).core.last_edit == now,
        final(state).ui.refining,
        final(state).ui.quality is Draft,
        final(state).ui.build_progress == Some(BuildProgress::Begun),
        final(state).ui.profile.gen_id == token,
        final(state).deferred_full_field is None,
        old(state).core.pending_gpu_dirty_region is Some ==> final(state).texts.freshness
            is LastCompleteStale,
        old(state).core.pending_gpu_dirty_region is None ==> final(state).texts.freshness
            is Current,
        effects@.first() == EvalEffect::SetWorkerToken(token),
        effects@.contains(
            EvalEffect::ScheduleDeadline {
                kind: FrameDeadlineKind::InteractiveEvaluation,
                generation: EditGeneration(token),
                after: Duration {
                    nanos: (1_000_000 * (if debounce_ms == 0 {
                        1
                    } else {
                        debounce_ms as int
                    })) as u128,
                },
            },
        ),
        effects@.last() == EvalEffect::RequestFrame(FrameRequestReason::RequiredEvaluation),
{
    a_rebuild_is_announced(
        token,
        old(state).core.refinement_job,
        Duration {
            nanos: (if debounce_ms >= 1 {
                debounce_ms as int
            } else {
                1
            } * 1_000_000) as u128,
        },
        timing,
    );
}

/// A structural edit is evaluated at once under the next token, at the quality that
/// is on screen, and shows no build in progress.
pub proof fn structural_edits_are_evaluated_at_once(
    state: &mut EvalState,
    visible: Option<VisibleResolution>,
    now: Instant,
    timing: RefineTiming,
    effects: Vec<EvalEffect>,
)
    requires
        call_ensures(EvalState::request_rebuild_immediate, (state, visible, now, timing), effects),
    ensures
        final(state).core.eval_token != old(state).core.eval_token,
        old(state).core.eval_token < u64::MAX ==> final(state).core.eval_token
            == old(state).core.eval_token + 1,
        final(state).core.pending_eval,
        final(state).core.pending_eval_immediate,
        final(state).core.force_draft,
        !final(state).core.worker_refine_pending,
        final(state).core.refinement_job is None,
        final(state).core.worker_dirty == old(state).core.worker_dirty,
        final(state).core.last_edit == now,
        !final(state).ui.refining,
        final(state).ui.build_progress is None,
        visible is None ==> final(state).core.scheduler_quality
            == old(state).core.scheduler_quality && final(state).ui.quality
            == old(state).ui.quality,
        visible matches Some(shown) ==> final(state).core.scheduler_quality == final(state).ui.quality && (shown.texture_width >= 8192 ==> final(state).ui.quality is Full),
        final(state).ui.profile.gen_id == final(state).core.eval_token,
        final(state).texts.freshness is Current,
        final(state).deferred_full_field is None,
        effects@.first() == EvalEffect::SetWorkerToken(final(state).core.eval_token),
        effects@.contains(
            EvalEffect::ScheduleDeadline {
                kind: FrameDeadlineKind::InteractiveEvaluation,
                generation: EditGeneration(final(state).core.eval_token),
                after: Duration { nanos: 0 },
            },
        ),
{
    a_rebuild_is_announced(
        final(state).core.eval_token,
        old(state).core.refinement_job,
        Duration { nanos: 0 },
        timing,
    );
}

/// Every edit of a layer reaches the plan, the worker and both evaluators: the plan
/// hears of the layer, and the worker recomputes it and everything behind it
/// everywhere.
pub proof fn edits_reach_everyone(
    state: &mut EvalState,
    layers: &[StackLayer],
    id: LayerId,
    effects: Vec<EvalEffect>,
    index: int,
    u: u32,
    v: u32,
)
    requires
        call_ensures(EvalState::mark_dirty_from, (state, layers, id), effects)
            || call_ensures(EvalState::mark_dirty_from_stage, (state, layers, id), effects),
        crate::dirty::first_position(layers@, id) matches Some(at) ==> at <= index,
    ensures
        final(state).pending_plan_edits@.last() == (PlanEdit::Parameters {
            node: NodeRef::Layer(id),
        }),
        final(state).pending_plan_edits@.len() == old(state).pending_plan_edits@.len() + 1,
        final(state).core.worker_dirty.covers(layers@, index, u, v),
        final(state).core.eval_token == old(state).core.eval_token,
        effects@.contains(EvalEffect::AdvanceOutputRevision),
        effects@.contains(EvalEffect::GpuMarkDirtyFrom(id)),
{
    dirt_reaches_both_evaluators(id);
    if crate::dirty::first_position(layers@, id) is Some {
        crate::dirty::tracking_covers_the_edit(
            old(state).core.worker_dirty,
            layers@,
            id,
            None,
            index,
            u,
            v,
        );
    }
}

/// An edit of the whole stack dirties all of it.
pub proof fn structural_edits_dirty_everything(
    state: &mut EvalState,
    effects: Vec<EvalEffect>,
    layers: Seq<StackLayer>,
    index: int,
    u: u32,
    v: u32,
)
    requires
        call_ensures(EvalState::mark_all_layers_dirty, (state,), effects),
    ensures
        final(state).pending_plan_edits@.last() is Structure,
        final(state).core.worker_dirty.covers(layers, index, u, v),
        effects@.contains(EvalEffect::EvaluatorAllDirty),
        effects@.contains(EvalEffect::GpuMarkAllDirty),
        effects@.contains(EvalEffect::RetireStreaming),
        effects@.contains(EvalEffect::ReconfigureRuntime),
{
    dirt_reaches_both_evaluators(LayerId(0));
}

/// A suffix is armed once, 75 milliseconds ahead; later calls leave its instant.
pub proof fn suffixes_are_armed_once(suffix: &mut DeferredFullField, now: Instant, armed: bool)
    requires
        now.nanos + 75_000_000 <= u128::MAX,
        call_ensures(DeferredFullField::arm_after_gesture, (suffix, now), armed),
    ensures
        armed <==> old(suffix).settle_at is None,
        armed ==> (final(suffix).settle_at matches Some(at) && at.nanos == now.nanos + 75_000_000),
        !armed ==> final(suffix).settle_at == old(suffix).settle_at,
        final(suffix).generation == old(suffix).generation,
{
}

/// A shape edit outdates the layer of its session, and without one the selected.
pub proof fn shape_edits_outdate_their_layer(
    session: Option<LayerId>,
    selected: Option<LayerId>,
    target: Option<LayerId>,
)
    requires
        call_ensures(EvalState::shape_dirty_target, (session, selected), target),
    ensures
        session is Some ==> target == session,
        session is None ==> target == selected,
{
}

/// A held gesture keeps a deferred refinement from settling.
pub proof fn gestures_hold_the_refinement(deferred: &mut DeferredFullField)
    requires
        call_ensures(DeferredFullField::hold_during_gesture, (deferred,), ()),
    ensures
        final(deferred).settle_at is None,
{
}

/// A superseded refinement is abandoned as such, and without one nothing is.
pub proof fn superseded_refinements_are_abandoned(state: &mut EvalState, effect: Option<EvalEffect>)
    requires
        call_ensures(EvalState::supersede_gpu_refinement, (state,), effect),
    ensures
        final(state).core.refinement_job is None,
        effect is Some <==> old(state).core.refinement_job is Some,
        old(state).core.refinement_job matches Some(running) ==> effect == Some(
            EvalEffect::AbandonRefinement {
                job: running,
                record: FrameTraceEventKind::RefinementSuperseded,
            },
        ),
        final(state).ui == old(state).ui,
        final(state).texts == old(state).texts,
        final(state).deferred_full_field == old(state).deferred_full_field,
        final(state).pending_plan_edits == old(state).pending_plan_edits,
{
}

/// Each quality is shown under a name of its own.
pub proof fn qualities_are_shown_by_name(quality: PreviewQuality, label: &'static str)
    requires
        call_ensures(quality_label, (quality,), label),
    ensures
        quality is Draft ==> label@ == "Draft (fast)"@,
        quality is Medium ==> label@ == "Medium"@,
        quality is Full ==> label@ == "Final (viewport)"@,
        quality is Export ==> label@ == "Export quality"@,
{
}

/// Each path of an evaluation is shown under its own name.
pub proof fn paths_are_shown_by_name(path: EvalPath, label: &'static str)
    requires
        call_ensures(EvalPath::label, (path,), label),
    ensures
        path is Idle ==> label@ == ""@,
        path is AsyncCpu ==> label@ == "async CPU"@,
        path is GpuThenAsyncCpu ==> label@ == "GPU→async CPU"@,
        path is GpuFullFieldDeferred ==> label@ == "GPU (FullField deferred)"@,
        path is Gpu ==> label@ == "GPU"@,
        path is CpuPublished ==> label@ == "CPU (async)"@,
{
}

/// A failure of the generation at hand is shown with what was said of it, and ends
/// what was pending; one of another generation changes nothing.
pub proof fn failures_are_shown_once(
    state: &mut EvalState,
    token: u64,
    quality: PreviewQuality,
    layer_name: Option<String>,
    restarted: bool,
    message: String,
)
    requires
        call_ensures(
            EvalState::handle_evaluation_failure_details,
            (state, token, quality, layer_name, restarted, message),
            (),
        ),
    ensures
        token != old(state).core.eval_token ==> *final(state) == *old(state),
        token == old(state).core.eval_token && restarted ==> final(state).texts.status@
            == "Terrain evaluation failed; worker restarted"@,
        token == old(state).core.eval_token && !restarted ==> final(state).texts.status@
            == "Terrain evaluation failed; last good preview retained"@,
        token == old(state).core.eval_token ==> {
            &&& final(state).texts.evaluation_failure matches Some(failure) && failure.quality
                == quality && failure.message@ == message@ && failure.worker_restarted == restarted
            &&& layer_name is Some ==> (final(state).texts.evaluation_failure matches Some(failure) && failure.layer_name == layer_name)
            &&& layer_name is None ==> (final(state).texts.evaluation_failure matches Some(failure) && failure.layer_name == old(state).texts.refining_layer_name)
            &&& !final(state).core.worker_refine_pending
            &&& !final(state).ui.refining
            &&& final(state).ui.build_progress is None
            &&& final(state).ui.quality == old(state).ui.quality
            &&& final(state).core.eval_token == old(state).core.eval_token
            &&& final(state).core.pending_eval == old(state).core.pending_eval
            &&& final(state).texts.freshness == old(state).texts.freshness
            &&& final(state).deferred_full_field == old(state).deferred_full_field
        },
{
}

/// At launch nothing is evaluated, pending or shown, and everything is dirty.
pub proof fn launches_have_everything_to_do(now: Instant, state: EvalState)
    requires
        call_ensures(EvalState::new, (now,), state),
    ensures
        state.core.eval_token == 0,
        !state.core.pending_eval,
        !state.core.pending_eval_immediate,
        !state.core.force_draft,
        state.core.scheduler_quality is Draft,
        !state.core.last_eval_gpu_supported,
        state.core.pending_gpu_dirty_region is None,
        !state.core.pending_plan_invalidation,
        state.core.worker_dirty.mark_all,
        !state.core.worker_refine_pending,
        state.core.refinement_job is None,
        !state.core.needs_height_upload,
        state.core.preview_dirty,
        state.core.last_edit == now,
        state.core.last_refine == now,
        !state.ui.refining,
        state.ui.quality is Draft,
        state.ui.build_progress is None,
        !state.ui.draft_displayed,
        state.ui.profile.path is Idle,
        state.texts.evaluation_failure is None,
        state.deferred_full_field is None,
        state.pending_plan_edits@.len() == 0,
{
}

/// A request names its target and leaves what was deferred, the plan edits and the
/// dirt that it copies.
pub proof fn requests_leave_the_rest(
    state: &mut EvalState,
    quality: PreviewQuality,
    selected: Option<String>,
    field: FullField,
    request: WorkerRequest,
)
    requires
        call_ensures(EvalState::enqueue_async_eval, (state, quality, selected, field), request),
    ensures
        request.token == old(state).core.eval_token,
        request.scope == old(state).core.worker_dirty,
        final(state).core.worker_dirty == old(state).core.worker_dirty,
        final(state).core.worker_refine_pending == old(state).core.worker_refine_pending,
        final(state).deferred_full_field == old(state).deferred_full_field,
        final(state).pending_plan_edits == old(state).pending_plan_edits,
        final(state).texts.status == old(state).texts.status,
        selected matches Some(name) ==> (final(state).texts.refining_layer_name matches Some(shown)
            && shown@ == name@),
        selected is None ==> (final(state).texts.refining_layer_name matches Some(shown) && shown@
            == "terrain"@),
{
    let shown = final(state).texts.refining_layer_name;
    assert(opt_text(shown) is Some);
}

} // verus!
