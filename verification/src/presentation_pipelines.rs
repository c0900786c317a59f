//! Pipelines that are compiled when the editor first needs them.
//!
//! A feature belongs to the renderer or to the editor's overlays. Its owner
//! holds the state of the resource; this module decides when a compile is asked
//! for, what a finished one means, and what the status line says.
use vstd::prelude::*;

use crate::clock::{Duration, Instant};
use crate::dirty::WorkerDirty;
use crate::eval::{
    EvalCore, EvalEffect, EvalProfile, EvalState, EvalTexts, EvalUi, PlanEdit, RefineTiming,
    TerrainPreviewFreshness, VisibleResolution,
};
use crate::logical_frame::FrameRequestReason;

verus! {

/// A part of the presentation that has a pipeline of its own.
#[derive(Debug, Clone, Copy, PartialEq, Eq, Structural)]
pub enum PresentationPipelineFeature {
    InfiniteTerrain,
    Overhang,
    Vegetation,
    Guides,
    Brush,
    Other(u16),
}

/// Who holds the resource of a feature.
#[derive(Debug, Clone, Copy, PartialEq, Eq, Structural)]
pub enum PipelineOwner {
    Renderer,
    Overlays,
}

impl PresentationPipelineFeature {
    /// Guides and brush are editor visuals; everything else is the renderer's.
    pub open spec fn owned_by(self) -> PipelineOwner {
        match self {
            PresentationPipelineFeature::Guides | PresentationPipelineFeature::Brush => {
                PipelineOwner::Overlays
            },
            _ => PipelineOwner::Renderer,
        }
    }

    pub fn owner(self) -> (r: PipelineOwner)
        ensures
            r == self.owned_by(),
    {
        match self {
            PresentationPipelineFeature::Guides | PresentationPipelineFeature::Brush => {
                PipelineOwner::Overlays
            },
            _ => PipelineOwner::Renderer,
        }
    }
}

/// The state of a resource that may not be there.
#[derive(Debug, Clone, Copy, PartialEq, Eq, Structural)]
pub enum OptionalResourceState {
    Absent,
    Pending,
    Ready,
    Failed,
}

/// What the interface says of pipeline compilation.
#[derive(Debug)]
pub enum TerrainPipelineStatus {
    Idle,
    Pending { label: String },
    Failed { message: String },
}

/// A compile is to be asked for. `state` is `None` where the owner is not there.
/// A failed resource is only tried again on request.
pub open spec fn is_wanted(state: Option<OptionalResourceState>, retry: bool) -> bool {
    match state {
        Some(OptionalResourceState::Absent) => true,
        Some(OptionalResourceState::Failed) => retry,
        _ => false,
    }
}

pub fn should_request(state: Option<OptionalResourceState>, retry: bool) -> (r: bool)
    ensures
        r == is_wanted(state, retry),
{
    match state {
        Some(OptionalResourceState::Absent) => true,
        Some(OptionalResourceState::Failed) => retry,
        _ => false,
    }
}

/// A compile of a feature for a project and a device.
#[derive(Debug, Clone, Copy, PartialEq, Eq, Structural)]
pub struct PipelineRequest {
    pub feature: PresentationPipelineFeature,
    pub id: u64,
    pub project_generation: u64,
    pub device_generation: u64,
}

/// What the compiler reports about itself.
#[derive(Debug)]
pub enum CompileSight {
    Idle,
    Pending { label: String },
    Failed { message: String },
}

/// What a finished compile asks for.
#[derive(Debug)]
pub enum CompletionStep {
    /// It was for another project or device.
    Discard,
    /// Tell the owner of the failure, then ask for a frame.
    Fail { owner: PipelineOwner },
    /// Hand the bundle to its owner and report what came of it.
    Install { owner: PipelineOwner },
}

/// What a handed-over bundle asks for.
#[derive(Debug)]
pub enum InstallStep {
    /// Tell the owner and the compiler of the failure, then ask for a frame.
    Fail { owner: PipelineOwner },
    /// Go on with the infinite terrain.
    FinishInfinite,
    /// Ask for a frame.
    Show,
}

/// The generations that a compile has to match, and the shown status.
#[derive(Debug)]
pub struct PipelineBoard {
    pub project_generation: u64,
    pub device_generation: u64,
    pub status: TerrainPipelineStatus,
}

impl PipelineBoard {
    /// The request is for the project and the device at hand.
    pub open spec fn is_live(self, request: PipelineRequest) -> bool {
        request.project_generation == self.project_generation && request.device_generation
            == self.device_generation
    }

    /// The project at hand was left: `after` is the board of the next one.
    pub open spec fn left_for(self, after: PipelineBoard) -> bool {
        after == PipelineBoard {
            project_generation: vstd::wrapping::u64_specs::wrapping_add(
                self.project_generation,
                1,
            ),
            status: TerrainPipelineStatus::Idle,
            ..self
        }
    }

    /// A new project makes every compile in flight stale.
    pub fn advance_project(&mut self)
        ensures
            old(self).left_for(*final(self)),
    {
        self.project_generation = self.project_generation.wrapping_add(1);
        self.status = TerrainPipelineStatus::Idle;
    }

    /// A compile was asked for.
    pub fn show_requested(&mut self, label: String)
        ensures
            *final(self) == (PipelineBoard {
                status: TerrainPipelineStatus::Pending { label },
                ..*old(self)
            }),
    {
        self.status = TerrainPipelineStatus::Pending { label };
    }

    /// Shows what the compiler is at. A failure that was kept is shown before
    /// anything else, and an idle compiler changes nothing.
    pub fn show_progress(&mut self, retained_failure: Option<String>, seen: CompileSight)
        ensures
            *final(self) == (PipelineBoard {
                status: match (retained_failure, seen) {
                    (Some(message), _) => TerrainPipelineStatus::Failed { message },
                    (None, CompileSight::Idle) => old(self).status,
                    (None, CompileSight::Pending { label }) => TerrainPipelineStatus::Pending {
                        label,
                    },
                    (None, CompileSight::Failed { message }) => TerrainPipelineStatus::Failed {
                        message,
                    },
                },
                ..*old(self)
            }),
    {
        match retained_failure {
            Some(message) => {
                self.status = TerrainPipelineStatus::Failed { message };
            },
            None => match seen {
                CompileSight::Idle => {},
                CompileSight::Pending { label } => {
                    self.status = TerrainPipelineStatus::Pending { label };
                },
                CompileSight::Failed { message } => {
                    self.status = TerrainPipelineStatus::Failed { message };
                },
            },
        }
    }

    /// Takes in a finished compile; `failure` is why there is no bundle.
    pub fn take_completion(&mut self, request: PipelineRequest, failure: Option<String>) -> (r:
        CompletionStep)
        ensures
            !old(self).is_live(request) ==> r is Discard && *final(self) == *old(self),
            old(self).is_live(request) ==> match failure {
                Some(message) => {
                    &&& r == (CompletionStep::Fail { owner: request.feature.owned_by() })
                    &&& *final(self) == (PipelineBoard {
                        status: TerrainPipelineStatus::Failed { message },
                        ..*old(self)
                    })
                },
                None => {
                    &&& r == (CompletionStep::Install { owner: request.feature.owned_by() })
                    &&& *final(self) == *old(self)
                },
            },
    {
        if request.project_generation != self.project_generation || request.device_generation
            != self.device_generation {
            return CompletionStep::Discard;
        }
        let owner = request.feature.owner();
        match failure {
            Some(message) => {
                self.status = TerrainPipelineStatus::Failed { message };
                CompletionStep::Fail { owner }
            },
            None => CompletionStep::Install { owner },
        }
    }

    /// The error of a bundle whose owner is not there.
    pub fn owner_missing(owner: PipelineOwner) -> (r: &'static str)
        ensures
            r@ == match owner {
                PipelineOwner::Overlays => "editor overlay owner is unavailable"@,
                PipelineOwner::Renderer => "renderer is unavailable"@,
            },
    {
        match owner {
            PipelineOwner::Overlays => "editor overlay owner is unavailable",
            PipelineOwner::Renderer => "renderer is unavailable",
        }
    }

    /// A bundle was handed to its owner. Overhang and vegetation read the
    /// height, so it is uploaded again for them.
    pub fn installed(
        &mut self,
        eval: &mut EvalState,
        feature: PresentationPipelineFeature,
        label: &str,
        outcome: Result<(), String>,
    ) -> (r: InstallStep)
        ensures
            match outcome {
                Err(message) => {
                    &&& r == (InstallStep::Fail { owner: feature.owned_by() })
                    &&& *final(self) == (PipelineBoard {
                        status: TerrainPipelineStatus::Failed { message },
                        ..*old(self)
                    })
                    &&& *final(eval) == *old(eval)
                },
                Ok(_) => if feature == PresentationPipelineFeature::InfiniteTerrain {
                    &&& r is FinishInfinite
                    &&& *final(self) == *old(self)
                    &&& *final(eval) == *old(eval)
                } else {
                    &&& r is Show
                    &&& *final(self) == (PipelineBoard {
                        status: TerrainPipelineStatus::Idle,
                        ..*old(self)
                    })
                    &&& final(eval).core == (EvalCore {
                        needs_height_upload: old(eval).core.needs_height_upload || feature
                            == PresentationPipelineFeature::Overhang || feature
                            == PresentationPipelineFeature::Vegetation,
                        ..old(eval).core
                    })
                    &&& final(eval).texts.status@ == label@ + " ready"@
                    &&& final(eval).texts == (EvalTexts {
                        status: final(eval).texts.status,
                        ..old(eval).texts
                    })
                    &&& final(eval).ui == old(eval).ui
                    &&& final(eval).deferred_full_field == old(eval).deferred_full_field
                    &&& final(eval).pending_plan_edits == old(eval).pending_plan_edits
                },
            },
    {
        match outcome {
            Err(message) => {
                self.status = TerrainPipelineStatus::Failed { message };
                InstallStep::Fail { owner: feature.owner() }
            },
            Ok(()) => {
                if feature == PresentationPipelineFeature::InfiniteTerrain {
                    return InstallStep::FinishInfinite;
                }
                if feature == PresentationPipelineFeature::Overhang || feature
                    == PresentationPipelineFeature::Vegetation {
                    eval.core = EvalCore { needs_height_upload: true, ..eval.core };
                }
                self.status = TerrainPipelineStatus::Idle;
                let mut status = label.to_owned();
                status.append(" ready");
                eval.texts.status = status;
                InstallStep::Show
            },
        }
    }
}

/// What is known when the infinite bundle has been installed.
#[derive(Debug)]
pub struct InfiniteSight {
    /// The document is an infinite world.
    pub has_settings: bool,
    pub has_renderer: bool,
    /// What came of activating the variant.
    pub activated: Result<(), String>,
    pub topology_valid: bool,
}

impl PipelineBoard {
    /// The infinite terrain can now be presented.
    pub open spec fn presents_infinite(sight: InfiniteSight) -> bool {
        sight.has_settings && sight.has_renderer && sight.activated is Ok && sight.topology_valid
    }

    /// Shows the infinite terrain once its bundle is installed: the whole stack
    /// is dirty and evaluated at once. The document may have changed since the
    /// compile was asked for; then nothing happens. The result is what is left
    /// to do after the renderer has been set up for the world.
    pub fn finish_infinite(
        &mut self,
        eval: &mut EvalState,
        sight: InfiniteSight,
        visible: Option<VisibleResolution>,
        now: Instant,
        timing: RefineTiming,
    ) -> (r: Option<Vec<EvalEffect>>)
        ensures
            *final(self) == (PipelineBoard {
                status: if !sight.has_settings || !sight.has_renderer {
                    old(self).status
                } else {
                    match sight.activated {
                        Err(message) => TerrainPipelineStatus::Failed { message },
                        Ok(_) => if sight.topology_valid {
                            TerrainPipelineStatus::Idle
                        } else {
                            old(self).status
                        },
                    }
                },
                ..*old(self)
            }),
            !Self::presents_infinite(sight) ==> r is None && *final(eval) == *old(eval),
            Self::presents_infinite(sight) ==> {
                let token = vstd::wrapping::u64_specs::wrapping_add(old(eval).core.eval_token, 1);
                &&& r matches Some(effects)
                &&& effects@ == (EvalState::whole_dirt() + EvalState::rebuild_effects(
                    token,
                    old(eval).core.refinement_job,
                    Duration { nanos: 0 },
                    timing,
                )).push(EvalEffect::RequestFrame(FrameRequestReason::Completion))
                &&& final(eval).core == (EvalCore {
                    scheduler_quality: match visible {
                        Some(v) => v.shown_quality(),
                        None => old(eval).core.scheduler_quality,
                    },
                    worker_dirty: WorkerDirty::everything(),
                    ..old(eval).core.rebuilding(token, true, now)
                })
                &&& final(eval).ui == (EvalUi {
                    refining: false,
                    build_progress: None,
                    quality: match visible {
                        Some(v) => v.shown_quality(),
                        None => old(eval).ui.quality,
                    },
                    profile: EvalProfile { gen_id: token, ..old(eval).ui.profile },
                    ..old(eval).ui
                })
                &&& final(eval).texts.status@ == "Infinite terrain renderer ready"@
                &&& final(eval).texts == (EvalTexts {
                    status: final(eval).texts.status,
                    freshness: TerrainPreviewFreshness::Current,
                    ..old(eval).texts
                })
                &&& final(eval).deferred_full_field is None
                &&& final(eval).pending_plan_edits@ == old(eval).pending_plan_edits@.push(
                    PlanEdit::Structure,
                )
            },
    {
        if !sight.has_settings || !sight.has_renderer {
            return None;
        }
        if let Err(message) = sight.activated {
            self.status = TerrainPipelineStatus::Failed { message };
            return None;
        }
        if !sight.topology_valid {
            return None;
        }
        self.status = TerrainPipelineStatus::Idle;
        eval.texts.status = "Infinite terrain renderer ready".to_owned();
        let mut effects = eval.mark_all_layers_dirty();
        let mut rebuild = eval.request_rebuild_immediate(visible, now, timing);
        effects.append(&mut rebuild);
        effects.push(EvalEffect::RequestFrame(FrameRequestReason::Completion));
        Some(effects)
    }
}

/// A failed compile that is tried again.
#[derive(Debug)]
pub struct RetryStep {
    pub feature: PresentationPipelineFeature,
    /// Submit the compile. Where its owner or the compiler is gone, or the
    /// resource is there by now, there is nothing to submit.
    pub submit: bool,
    pub status: String,
    pub frame: FrameRequestReason,
}

impl PipelineBoard {
    /// Tries the compile that failed again. Without a failed one nothing happens.
    /// `label` is the name of its feature, and `state` that of its resource.
    pub fn retry_failed_pipeline_compile(
        &mut self,
        failed: Option<PresentationPipelineFeature>,
        label: String,
        state: Option<OptionalResourceState>,
        has_compiler: bool,
    ) -> (r: Option<RetryStep>)
        ensures
            match failed {
                None => r is None && *final(self) == *old(self),
                Some(feature) => {
                    &&& r matches Some(step)
                    &&& step.feature == feature
                    &&& step.submit == (is_wanted(state, true) && has_compiler)
                    &&& step.status@ == "Retrying "@ + label@ + "…"@
                    &&& step.frame == FrameRequestReason::UiActions
                    &&& *final(self) == (PipelineBoard {
                        status: if step.submit {
                            TerrainPipelineStatus::Pending { label }
                        } else {
                            old(self).status
                        },
                        ..*old(self)
                    })
                },
            },
    {
        match failed {
            None => None,
            Some(feature) => {
                let status = retry_status(label.as_str());
                let submit = should_request(state, true) && has_compiler;
                if submit {
                    self.show_requested(label);
                }
                Some(
                    RetryStep { feature, submit, status, frame: FrameRequestReason::UiActions },
                )
            },
        }
    }
}

/// The status line of a retry.
pub fn retry_status(label: &str) -> (r: String)
    ensures
        r@ == "Retrying "@ + label@ + "…"@,
{
    let mut text = "Retrying ".to_owned();
    text.append(label);
    text.append("…");
    text
}

/// A compile is live for its own project and device only: once either has moved
/// on, it is live no more.
pub proof fn compiles_live_for_one_project_and_device(
    board: PipelineBoard,
    request: PipelineRequest,
    project_generation: u64,
    device_generation: u64,
)
    requires
        board.is_live(request),
    ensures
        (PipelineBoard { project_generation, device_generation, ..board }).is_live(request) <==> (
        project_generation == board.project_generation && device_generation
            == board.device_generation),
{
}

/// Guides and brush belong to the overlays, and everything else to the renderer.
pub proof fn features_belong_to_their_owner(feature: PresentationPipelineFeature)
    ensures
        feature is Guides || feature is Brush ==> feature.owned_by() is Overlays,
        feature is InfiniteTerrain || feature is Overhang || feature is Vegetation || feature
            is Other ==> feature.owned_by() is Renderer,
{
}

/// An absent resource is compiled, a failed one only on request, and one that is
/// there or on its way is not; nor is anything without an owner.
pub proof fn missing_resources_are_compiled(state: Option<OptionalResourceState>, retry: bool)
    ensures
        state == Some(OptionalResourceState::Absent) ==> is_wanted(state, retry),
        state == Some(OptionalResourceState::Failed) ==> (is_wanted(state, retry) <==> retry),
        state == Some(OptionalResourceState::Pending) || state == Some(
            OptionalResourceState::Ready,
        ) || state is None ==> !is_wanted(state, retry),
{
}

/// A compile of the project and the device at hand is installed, or its failure is
/// shown; any other is discarded and changes nothing.
pub proof fn live_compiles_are_installed(
    board: &mut PipelineBoard,
    request: PipelineRequest,
    failure: Option<String>,
    step: CompletionStep,
)
    requires
        call_ensures(PipelineBoard::take_completion, (board, request, failure), step),
    ensures
        request.project_generation != old(board).project_generation || request.device_generation
            != old(board).device_generation ==> step is Discard && *final(board) == *old(board),
        request.project_generation == old(board).project_generation && request.device_generation
            == old(board).device_generation ==> {
            &&& failure is None ==> step == (CompletionStep::Install {
                owner: request.feature.owned_by(),
            }) && *final(board) == *old(board)
            &&& failure matches Some(message) ==> step == (CompletionStep::Fail {
                owner: request.feature.owned_by(),
            }) && final(board).status == (TerrainPipelineStatus::Failed { message })
        },
{
}

/// An installed bundle is ready; those that read the height have it uploaded again;
/// the infinite terrain goes on to be finished; a refused one is shown as failed.
pub proof fn installed_bundles_are_ready(
    board: &mut PipelineBoard,
    eval: &mut EvalState,
    feature: PresentationPipelineFeature,
    label: &str,
    outcome: Result<(), String>,
    step: InstallStep,
)
    requires
        call_ensures(PipelineBoard::installed, (board, eval, feature, label, outcome), step),
    ensures
        outcome matches Err(message) ==> step == (InstallStep::Fail { owner: feature.owned_by() })
            && final(board).status == (TerrainPipelineStatus::Failed { message }) && *final(eval)
            == *old(eval),
        outcome is Ok && feature is InfiniteTerrain ==> step is FinishInfinite && *final(eval)
            == *old(eval),
        outcome is Ok && !(feature is InfiniteTerrain) ==> step is Show && final(board).status
            is Idle,
        outcome is Ok && (feature is Overhang || feature is Vegetation) ==> final(eval).core.needs_height_upload,
        feature is Guides || feature is Brush || feature is Other || feature is InfiniteTerrain
            ==> final(eval).core.needs_height_upload == old(eval).core.needs_height_upload,
        final(eval).core.pending_eval == old(eval).core.pending_eval,
{
}

/// The infinite terrain is evaluated at once when its renderer is there, activated
/// and has a world to show; otherwise nothing is evaluated.
pub proof fn infinite_terrain_is_shown_when_it_can_be(
    board: &mut PipelineBoard,
    eval: &mut EvalState,
    sight: InfiniteSight,
    visible: Option<VisibleResolution>,
    now: Instant,
    timing: RefineTiming,
    effects: Option<Vec<EvalEffect>>,
)
    requires
        call_ensures(
            PipelineBoard::finish_infinite,
            (board, eval, sight, visible, now, timing),
            effects,
        ),
    ensures
        effects is Some <==> sight.has_settings && sight.has_renderer && sight.activated is Ok
            && sight.topology_valid,
        effects is None ==> *final(eval) == *old(eval),
        effects is Some ==> final(eval).core.pending_eval && final(eval).core.pending_eval_immediate
            && final(eval).core.worker_dirty.mark_all && final(eval).core.eval_token != old(eval).core.eval_token && final(board).status is Idle,
        sight.has_settings && sight.has_renderer ==> (sight.activated matches Err(message)
            ==> final(board).status == (TerrainPipelineStatus::Failed { message })),
        !sight.has_settings || !sight.has_renderer ==> *final(board) == *old(board),
{
}

/// A failed compile is tried again where its resource is still missing and there is
/// a compiler; it then shows as pending. Without a failed one nothing happens.
pub proof fn failed_compiles_are_tried_again(
    board: &mut PipelineBoard,
    failed: Option<PresentationPipelineFeature>,
    label: String,
    state: Option<OptionalResourceState>,
    compiler: bool,
    step: Option<RetryStep>,
)
    requires
        call_ensures(
            PipelineBoard::retry_failed_pipeline_compile,
            (board, failed, label, state, compiler),
            step,
        ),
    ensures
        failed is None ==> step is None && *final(board) == *old(board),
        failed matches Some(feature) ==> (step matches Some(retry) && retry.feature == feature && (
        retry.submit <==> compiler && (state == Some(OptionalResourceState::Absent) || state
            == Some(OptionalResourceState::Failed))) && (retry.submit ==> final(board).status
            is Pending) && (!retry.submit ==> *final(board) == *old(board))),
{
}

/// A failure that was kept is shown before anything the compiler is at.
pub proof fn kept_failures_are_shown_first(
    board: &mut PipelineBoard,
    kept: Option<String>,
    seen: CompileSight,
)
    requires
        call_ensures(PipelineBoard::show_progress, (board, kept, seen), ()),
    ensures
        kept matches Some(message) ==> final(board).status == (TerrainPipelineStatus::Failed {
            message,
        }),
        kept is None && seen is Idle ==> *final(board) == *old(board),
        kept is None ==> (seen matches CompileSight::Pending { label } ==> final(board).status
            == (TerrainPipelineStatus::Pending { label })),
        kept is None ==> (seen matches CompileSight::Failed { message } ==> final(board).status
            == (TerrainPipelineStatus::Failed { message })),
        final(board).project_generation == old(board).project_generation,
{
}

/// What is missing is named by its owner.
pub proof fn missing_owners_are_named(owner: PipelineOwner, text: &'static str)
    requires
        call_ensures(PipelineBoard::owner_missing, (owner,), text),
    ensures
        owner is Overlays ==> text@ == "editor overlay owner is unavailable"@,
        owner is Renderer ==> text@ == "renderer is unavailable"@,
{
}

/// A request is shown as pending under its own label.
pub proof fn requests_are_shown_as_pending(board: &mut PipelineBoard, label: String)
    requires
        call_ensures(PipelineBoard::show_requested, (board, label), ()),
    ensures
        final(board).status == (TerrainPipelineStatus::Pending { label }),
{
}

} // verus!
