//! What a new document may not inherit from the one before it.
//!
//! Opening, creating and closing a project drop evaluation state, tile pages
//! and presentation state of the previous document. GPU allocations are kept
//! where they fit; their contents become unreachable.
use vstd::prelude::*;

use crate::dirty::WorkerDirty;
use crate::eval::{
    EvalCore, EvalEffect, EvalState, EvalTexts, EvalUi, FrameDeadlineKind, PlanEdit,
    TerrainPreviewFreshness,
};
use crate::pipeline_compile::TerrainShaderVariant;
use crate::quality::PreviewQuality;
use crate::refinement_job::RefinementJob;
use crate::tile_stream::{StreamEffect, TileStream};

verus! {

/// What the renderer holds of the document, by fingerprints that no document
/// has after a reset.
#[derive(Debug, Clone, Copy, PartialEq, Eq, Structural)]
pub struct RenderDirt {
    pub aux_upload_fp: u64,
    pub veg_upload_fp: u64,
    pub overhang_upload_fp: u64,
    pub placement_tint_dirty: bool,
    pub mask_overlay_dirty: bool,
}

impl RenderDirt {
    /// Nothing that was uploaded counts.
    pub open spec fn stale() -> RenderDirt {
        RenderDirt {
            aux_upload_fp: u64::MAX,
            veg_upload_fp: u64::MAX,
            overhang_upload_fp: u64::MAX,
            placement_tint_dirty: true,
            mask_overlay_dirty: true,
        }
    }

    /// Everything has to be uploaded again.
    pub fn everything() -> (r: Self)
        ensures
            r == RenderDirt::stale(),
    {
        RenderDirt {
            aux_upload_fp: u64::MAX,
            veg_upload_fp: u64::MAX,
            overhang_upload_fp: u64::MAX,
            placement_tint_dirty: true,
            mask_overlay_dirty: true,
        }
    }
}

impl EvalCore {
    /// The state for a document that has not been evaluated.
    pub open spec fn for_new_document(self) -> EvalCore {
        EvalCore {
            refinement_job: None,
            scheduler_quality: PreviewQuality::Draft,
            pending_plan_invalidation: false,
            worker_dirty: WorkerDirty::everything(),
            worker_cache_res: None,
            pending_gpu_dirty_region: None,
            needs_height_upload: false,
            preview_dirty: true,
            ..self
        }
    }
}

impl EvalUi {
    /// What is shown of a document that has not been evaluated.
    pub open spec fn for_new_document(self) -> EvalUi {
        EvalUi {
            refining: false,
            build_progress: None,
            draft_displayed: false,
            quality: PreviewQuality::Draft,
            ..self
        }
    }
}

impl EvalState {
    /// The state `after` belongs to a document that has not been evaluated.
    pub open spec fn reset_for(before: EvalState, after: EvalState) -> bool {
        &&& after.core == before.core.for_new_document()
        &&& after.ui == before.ui.for_new_document()
        &&& after.texts == (EvalTexts {
            evaluation_failure: None,
            freshness: TerrainPreviewFreshness::Current,
            ..before.texts
        })
        &&& after.deferred_full_field is None
        &&& after.pending_plan_edits@ == seq![PlanEdit::Structure]
    }

    /// What the previous document leaves behind outside this state, and how it is
    /// dropped: its refinement, every field that was published of it, the caches
    /// of the evaluator and of the plan, what the renderer holds, and a deadline.
    pub open spec fn dropping(job: Option<RefinementJob>) -> Seq<EvalEffect> {
        seq![EvalEffect::ForgetStreamedFigures] + crate::eval::superseding(job) + seq![
            EvalEffect::DropPublishedFields,
            EvalEffect::ClearEvaluatorCaches,
            EvalEffect::RefreshUploads(RenderDirt::stale()),
            EvalEffect::ClearPlanCache,
            EvalEffect::ClearDeadline(FrameDeadlineKind::FullFieldRefinement),
        ]
    }

    /// Drops the evaluation state of the previous document.
    fn drop_document(&mut self) -> (r: Vec<EvalEffect>)
        ensures
            Self::reset_for(*old(self), *final(self)),
            r@ == Self::dropping(old(self).core.refinement_job),
    {
        let mut effects: Vec<EvalEffect> = Vec::new();
        effects.push(EvalEffect::ForgetStreamedFigures);
        if let Some(effect) = self.supersede_gpu_refinement() {
            effects.push(effect);
        }
        effects.push(EvalEffect::DropPublishedFields);
        effects.push(EvalEffect::ClearEvaluatorCaches);
        effects.push(EvalEffect::RefreshUploads(RenderDirt::everything()));
        effects.push(EvalEffect::ClearPlanCache);
        effects.push(EvalEffect::ClearDeadline(FrameDeadlineKind::FullFieldRefinement));
        assert(effects@ =~= Self::dropping(old(self).core.refinement_job));
        let mut scope = self.core.worker_dirty;
        scope.mark_all_dirty();
        self.core = EvalCore {
            scheduler_quality: PreviewQuality::Draft,
            pending_plan_invalidation: false,
            worker_dirty: scope,
            worker_cache_res: None,
            pending_gpu_dirty_region: None,
            needs_height_upload: false,
            preview_dirty: true,
            ..self.core
        };
        self.ui = EvalUi {
            refining: false,
            build_progress: None,
            draft_displayed: false,
            quality: PreviewQuality::Draft,
            ..self.ui
        };
        self.texts.evaluation_failure = None;
        self.texts.freshness = TerrainPreviewFreshness::Current;
        self.deferred_full_field = None;
        let mut edits: Vec<PlanEdit> = Vec::new();
        edits.push(PlanEdit::Structure);
        self.pending_plan_edits = edits;
        effects
    }
}

/// The world of a document, as far as the runtime is configured by it.
#[derive(Debug, Clone, Copy, PartialEq, Eq, Structural)]
pub enum WorldSight {
    Bounded { preview_resolution: u32, tile_size: u32, halo: u32 },
    /// `topology_valid` says whether the settings describe a world at all, and
    /// `topology_taken` whether the runtime takes one that they describe.
    Infinite {
        topology_valid: bool,
        topology_taken: bool,
        tile_size: u32,
        halo: u32,
        page_capacity: usize,
    },
}

/// The smallest resolution of a bounded pyramid.
pub const MIN_PYRAMID_RESOLUTION: u32 = 256;

/// Pages of the tile atlas for a bounded world.
pub const BOUNDED_ATLAS_PAGES: u32 = 128;

/// The resolution of the pyramid of a bounded world.
pub fn pyramid_resolution(preview_resolution: u32) -> (r: u32)
    ensures
        r == if preview_resolution >= 256 {
            preview_resolution
        } else {
            256
        },
{
    if preview_resolution >= MIN_PYRAMID_RESOLUTION {
        preview_resolution
    } else {
        MIN_PYRAMID_RESOLUTION
    }
}

/// The shape of a tile atlas.
#[derive(Debug, Clone, Copy, PartialEq, Eq, Structural)]
pub struct AtlasShape {
    pub tile_size: u32,
    pub halo: u32,
    pub max_pages: u32,
}

/// How the atlas is addressed.
#[derive(Debug, Clone, Copy, PartialEq, Eq, Structural)]
pub enum AtlasAddressing {
    Hierarchy,
    Infinite,
}

/// What to do with the tile atlas.
#[derive(Debug, Clone, Copy, PartialEq, Eq, Structural)]
pub struct AtlasPlan {
    pub shape: AtlasShape,
    /// Allocate anew; otherwise the atlas at hand is kept.
    pub replace: bool,
    pub addressing: AtlasAddressing,
}

impl WorldSight {
    /// The infinite presentation can be set up.
    pub open spec fn infinite_ready(self) -> bool {
        self matches WorldSight::Infinite { topology_valid, .. } && topology_valid
    }

    fn is_infinite_ready(&self) -> (r: bool)
        ensures
            r == self.infinite_ready(),
    {
        match self {
            WorldSight::Infinite { topology_valid, .. } => *topology_valid,
            WorldSight::Bounded { .. } => false,
        }
    }

    /// The atlas that fits the world on a device with `device_layers` layers.
    /// There is always at least one page.
    pub open spec fn atlas_shape(self, device_layers: u32) -> AtlasShape {
        let limit = if device_layers >= 1 {
            device_layers
        } else {
            1
        };
        match self {
            WorldSight::Bounded { tile_size, halo, .. } => AtlasShape {
                tile_size,
                halo,
                max_pages: if 128 <= limit {
                    128
                } else {
                    limit
                },
            },
            WorldSight::Infinite { tile_size, halo, page_capacity, .. } => AtlasShape {
                tile_size,
                halo,
                max_pages: if page_capacity == 0 {
                    1
                } else if page_capacity <= limit {
                    page_capacity as u32
                } else {
                    limit
                },
            },
        }
    }

    fn shape_of_atlas(&self, device_layers: u32) -> (r: AtlasShape)
        ensures
            r == self.atlas_shape(device_layers),
    {
        let limit: u32 = if device_layers >= 1 {
            device_layers
        } else {
            1
        };
        match self {
            WorldSight::Bounded { tile_size, halo, .. } => AtlasShape {
                tile_size: *tile_size,
                halo: *halo,
                max_pages: if BOUNDED_ATLAS_PAGES <= limit {
                    BOUNDED_ATLAS_PAGES
                } else {
                    limit
                },
            },
            WorldSight::Infinite { tile_size, halo, page_capacity, .. } => AtlasShape {
                tile_size: *tile_size,
                halo: *halo,
                max_pages: if *page_capacity == 0 {
                    1
                } else if *page_capacity <= limit as usize {
                    *page_capacity as u32
                } else {
                    limit
                },
            },
        }
    }

    /// An atlas at hand does not fit: its tiles differ, or an infinite world
    /// needs another number of pages.
    pub open spec fn outgrows(self, existing: Option<AtlasShape>, device_layers: u32) -> bool {
        let wanted = self.atlas_shape(device_layers);
        match existing {
            None => true,
            Some(atlas) => atlas.tile_size != wanted.tile_size || atlas.halo != wanted.halo || (
            self.infinite_ready() && atlas.max_pages != wanted.max_pages),
        }
    }

    /// What becomes of the tile atlas. An allocation that fits is kept.
    pub open spec fn planned_atlas(
        self,
        existing: Option<AtlasShape>,
        device_layers: u32,
    ) -> AtlasPlan {
        AtlasPlan {
            shape: self.atlas_shape(device_layers),
            replace: self.outgrows(existing, device_layers),
            addressing: if self.infinite_ready() {
                AtlasAddressing::Infinite
            } else {
                AtlasAddressing::Hierarchy
            },
        }
    }

    /// Plans the tile atlas.
    pub fn atlas_plan(&self, existing: Option<AtlasShape>, device_layers: u32) -> (r: AtlasPlan)
        ensures
            r == self.planned_atlas(existing, device_layers),
    {
        let shape = self.shape_of_atlas(device_layers);
        let infinite = self.is_infinite_ready();
        let replace = match existing {
            None => true,
            Some(atlas) => atlas.tile_size != shape.tile_size || atlas.halo != shape.halo || (
            infinite && atlas.max_pages != shape.max_pages),
        };
        AtlasPlan {
            shape,
            replace,
            addressing: if infinite {
                AtlasAddressing::Infinite
            } else {
                AtlasAddressing::Hierarchy
            },
        }
    }
}

/// How the terrain is traversed.
#[derive(Debug, Clone, Copy, PartialEq, Eq, Structural)]
pub enum TerrainTraversalMode {
    Bounded,
    Infinite,
}

/// What to do with the renderer.
#[derive(Debug, Clone, Copy, PartialEq, Eq, Structural)]
pub enum PresentationPlan {
    NoRenderer,
    /// Activate the variant and reset the renderer; an infinite world is then
    /// framed.
    Present { variant: TerrainShaderVariant, traversal: TerrainTraversalMode, frame_infinite: bool },
    /// Show a neutral bounded placeholder and compile the infinite variant.
    /// Infinite traversal must not become active before it is there.
    Placeholder,
}

impl PresentationPlan {
    /// The document can be evaluated for presentation at once.
    pub open spec fn is_ready(self) -> bool {
        !(self is Placeholder)
    }

    pub fn ready(self) -> (r: bool)
        ensures
            r == self.is_ready(),
    {
        match self {
            PresentationPlan::Placeholder => false,
            _ => true,
        }
    }
}

impl WorldSight {
    /// The shader variant that the world needs.
    pub open spec fn variant(self) -> TerrainShaderVariant {
        if self.infinite_ready() {
            TerrainShaderVariant::Infinite
        } else {
            TerrainShaderVariant::Bounded
        }
    }

    pub fn requested_variant(&self) -> (r: TerrainShaderVariant)
        ensures
            r == self.variant(),
    {
        if self.is_infinite_ready() {
            TerrainShaderVariant::Infinite
        } else {
            TerrainShaderVariant::Bounded
        }
    }

    /// What becomes of the renderer. `has_variant` says whether it has the
    /// requested variant.
    pub open spec fn planned_presentation(self, has_renderer: bool, has_variant: bool) ->
        PresentationPlan {
        if !has_renderer {
            PresentationPlan::NoRenderer
        } else if has_variant {
            PresentationPlan::Present {
                variant: self.variant(),
                traversal: if self is Infinite {
                    TerrainTraversalMode::Infinite
                } else {
                    TerrainTraversalMode::Bounded
                },
                frame_infinite: self.infinite_ready(),
            }
        } else {
            PresentationPlan::Placeholder
        }
    }

    /// Plans the presentation.
    pub fn presentation_plan(&self, has_renderer: bool, has_variant: bool) -> (r: PresentationPlan)
        ensures
            r == self.planned_presentation(has_renderer, has_variant),
    {
        if !has_renderer {
            return PresentationPlan::NoRenderer;
        }
        if !has_variant {
            return PresentationPlan::Placeholder;
        }
        let traversal = match self {
            WorldSight::Infinite { .. } => TerrainTraversalMode::Infinite,
            WorldSight::Bounded { .. } => TerrainTraversalMode::Bounded,
        };
        PresentationPlan::Present {
            variant: self.requested_variant(),
            traversal,
            frame_infinite: self.is_infinite_ready(),
        }
    }
}

/// What went wrong while the runtime was set up for a document.
#[derive(Debug)]
pub struct ResetTroubles {
    /// The settings of an infinite world describe none, or the runtime refuses it.
    pub topology: Option<String>,
    /// The tile atlas could not be allocated.
    pub atlas: Option<String>,
    /// The shader variant could not be activated.
    pub activation: Option<String>,
}

impl ResetTroubles {
    /// The text of the last trouble.
    pub open spec fn shown(self) -> Option<Seq<char>> {
        match (self.activation, self.atlas, self.topology) {
            (Some(error), _, _) => Some(error@),
            (None, Some(error), _) => Some("GPU tile atlas disabled: "@ + error@),
            (None, None, Some(error)) => Some("Invalid Infinite topology: "@ + error@),
            (None, None, None) => None,
        }
    }

    /// The status line: each step overwrites what an earlier one said.
    pub fn status(self) -> (r: Option<String>)
        ensures
            crate::eval::opt_text(r) == self.shown(),
    {
        if let Some(error) = self.activation {
            return Some(error);
        }
        if let Some(error) = self.atlas {
            let mut status = "GPU tile atlas disabled: ".to_owned();
            status.append(error.as_str());
            return Some(status);
        }
        if let Some(error) = self.topology {
            let mut status = "Invalid Infinite topology: ".to_owned();
            status.append(error.as_str());
            return Some(status);
        }
        None
    }
}

/// What the host has when a document is set up.
#[derive(Debug, Clone, Copy, PartialEq, Eq, Structural)]
pub struct HostSight {
    pub has_gpu: bool,
    pub device_layers: u32,
    pub atlas: Option<AtlasShape>,
    pub has_gpu_engine: bool,
    pub has_renderer: bool,
    /// The renderer has the shader variant that the world needs.
    pub has_variant: bool,
}

/// A document that is about to be set up, and where.
#[derive(Debug, Clone, Copy, PartialEq, Eq, Structural)]
pub struct DocumentSight {
    pub world: WorldSight,
    pub host: HostSight,
}

/// A step of setting the runtime up for a document. The steps are taken in
/// order.
#[derive(Debug, Clone, Copy, PartialEq, Eq, Structural)]
pub enum ResetStep {
    Eval(EvalEffect),
    Stream(StreamEffect),
    /// Configure the runtime for a bounded pyramid of this resolution.
    ConfigureBounded { resolution: u32 },
    /// Configure the runtime for the topology of the infinite world, or say why
    /// it refuses.
    ConfigureInfinite,
    /// Say why the settings describe no infinite world. The runtime stays as it
    /// is.
    ReportTopology,
    Atlas(AtlasPlan),
    ResetGpuEngine,
    Present(PresentationPlan),
}

impl ResetStep {
    /// The steps that effects of the evaluation are.
    pub open spec fn of_effects(effects: Seq<EvalEffect>) -> Seq<ResetStep> {
        effects.map_values(|effect: EvalEffect| ResetStep::Eval(effect))
    }

    pub open spec fn of_stream(effects: Seq<StreamEffect>) -> Seq<ResetStep> {
        effects.map_values(|effect: StreamEffect| ResetStep::Stream(effect))
    }
}

impl WorldSight {
    /// The runtime is configured for the world, which counts the output on. A
    /// runtime that refuses the topology stays as it is.
    pub open spec fn configures(self) -> bool {
        match self {
            WorldSight::Bounded { .. } => true,
            WorldSight::Infinite { topology_valid, topology_taken, .. } => topology_valid
                && topology_taken,
        }
    }

    fn is_configured(&self) -> (r: bool)
        ensures
            r == self.configures(),
    {
        match self {
            WorldSight::Bounded { .. } => true,
            WorldSight::Infinite { topology_valid, topology_taken, .. } => *topology_valid
                && *topology_taken,
        }
    }

    /// How the runtime is configured.
    pub open spec fn configuration(self) -> ResetStep {
        match self {
            WorldSight::Bounded { preview_resolution, .. } => ResetStep::ConfigureBounded {
                resolution: if preview_resolution >= 256 {
                    preview_resolution
                } else {
                    256
                },
            },
            WorldSight::Infinite { topology_valid, .. } => if topology_valid {
                ResetStep::ConfigureInfinite
            } else {
                ResetStep::ReportTopology
            },
        }
    }

    fn configuration_step(&self) -> (r: ResetStep)
        ensures
            r == self.configuration(),
    {
        match self {
            WorldSight::Bounded { preview_resolution, .. } => ResetStep::ConfigureBounded {
                resolution: pyramid_resolution(*preview_resolution),
            },
            WorldSight::Infinite { topology_valid, .. } => if *topology_valid {
                ResetStep::ConfigureInfinite
            } else {
                ResetStep::ReportTopology
            },
        }
    }
}

impl DocumentSight {
    /// Everything that setting the runtime up consists of: what the previous
    /// document left is dropped, its tile work included; the runtime, the atlas,
    /// the engine and the renderer are set up for the new one; and what was
    /// streamed is retired.
    pub open spec fn reset_steps(self, job: Option<RefinementJob>) -> Seq<ResetStep> {
        let atlas = if self.host.has_gpu {
            seq![
                ResetStep::Atlas(
                    self.world.planned_atlas(self.host.atlas, self.host.device_layers),
                ),
            ]
        } else {
            seq![]
        };
        let engine = if self.host.has_gpu && self.host.has_gpu_engine {
            seq![ResetStep::ResetGpuEngine]
        } else {
            seq![]
        };
        ResetStep::of_effects(EvalState::dropping(job)) + seq![
            ResetStep::Stream(StreamEffect::ClearTileWork),
            self.world.configuration(),
        ] + atlas + engine + seq![
            ResetStep::Present(
                self.world.planned_presentation(self.host.has_renderer, self.host.has_variant),
            ),
        ] + ResetStep::of_stream(TileStream::retirement())
    }

    /// The stream once the runtime is set up: nothing of the previous document is
    /// queued, resident or shown.
    pub open spec fn stream_after(self, stream: TileStream) -> TileStream {
        if self.world.configures() {
            stream.counted_on().retired()
        } else {
            stream.retired()
        }
    }

    /// The document can be evaluated for presentation at once. Only a renderer
    /// that lacks the world's shader variant has it wait.
    pub open spec fn is_ready(self) -> bool {
        !self.host.has_renderer || self.host.has_variant
    }
}

/// The runtime as it is set up for a document.
#[derive(Debug)]
pub struct RuntimeReset {
    pub steps: Vec<ResetStep>,
    /// The document can be evaluated for presentation at once.
    pub presentation_ready: bool,
}

/// Appends effects of the evaluation to the steps.
pub(crate) fn push_effects(steps: &mut Vec<ResetStep>, effects: &Vec<EvalEffect>)
    ensures
        final(steps)@ == old(steps)@ + ResetStep::of_effects(effects@),
{
    let mut i: usize = 0;
    assert(steps@ =~= old(steps)@ + ResetStep::of_effects(effects@.take(0)));
    while i < effects.len()
        invariant
            i <= effects@.len(),
            steps@ == old(steps)@ + ResetStep::of_effects(effects@.take(i as int)),
        decreases effects@.len() - i,
    {
        steps.push(ResetStep::Eval(effects[i]));
        i += 1;
        assert(steps@ =~= old(steps)@ + ResetStep::of_effects(effects@.take(i as int)));
    }
    assert(effects@.take(i as int) =~= effects@);
}

/// Sets the runtime up for a document, so that it inherits nothing from the one
/// before. New, opened and closed projects share it.
pub fn reset_runtime_for_document(
    eval: &mut EvalState,
    stream: &mut TileStream,
    sight: DocumentSight,
) -> (r: RuntimeReset)
    ensures
        EvalState::reset_for(*old(eval), *final(eval)),
        *final(stream) == sight.stream_after(*old(stream)),
        r.steps@ == sight.reset_steps(old(eval).core.refinement_job),
        r.presentation_ready == sight.is_ready(),
{
    let mut steps: Vec<ResetStep> = Vec::new();
    let dropped = eval.drop_document();
    push_effects(&mut steps, &dropped);
    steps.push(ResetStep::Stream(StreamEffect::ClearTileWork));
    steps.push(sight.world.configuration_step());
    if sight.host.has_gpu {
        steps.push(
            ResetStep::Atlas(sight.world.atlas_plan(sight.host.atlas, sight.host.device_layers)),
        );
        if sight.host.has_gpu_engine {
            steps.push(ResetStep::ResetGpuEngine);
        }
    }
    let plan = sight.world.presentation_plan(sight.host.has_renderer, sight.host.has_variant);
    steps.push(ResetStep::Present(plan));
    let retired = if sight.world.is_configured() {
        stream.advance_output_revision()
    } else {
        stream.retire_streamed_residency()
    };
    assert(retired@ =~= seq![retired@[0], retired@[1], retired@[2]]);
    steps.push(ResetStep::Stream(retired[0]));
    steps.push(ResetStep::Stream(retired[1]));
    steps.push(ResetStep::Stream(retired[2]));
    assert(steps@ =~= sight.reset_steps(old(eval).core.refinement_job));
    RuntimeReset { steps, presentation_ready: plan.ready() }
}

/// Nothing that was streamed of a document survives the reset for the next one:
/// no tile is queued, no page of any output is shown, and synchronizing shows
/// none before there is new content.
pub proof fn nothing_streamed_survives_a_reset(
    sight: DocumentSight,
    before: TileStream,
    revision: u64,
    sync: crate::tile_stream::SyncSight,
)
    ensures
        sight.stream_after(before).live_content is None,
        sight.stream_after(before).gpu_pyramid is None,
        !sight.stream_after(before).shows(revision),
        !(crate::tile_stream::stream_decision(sight.stream_after(before).observed(sync)) is Enable),
        sight.stream_after(before).wf(),
{
}

/// A reset document inherits nothing: no refinement, no suffix, no failure and
/// no clean part survive, and the plan starts over.
pub proof fn a_new_document_inherits_nothing(before: EvalState, after: EvalState)
    requires
        EvalState::reset_for(before, after),
    ensures
        after.core.refinement_job is None,
        after.core.worker_dirty.mark_all,
        after.core.worker_cache_res is None,
        after.core.pending_gpu_dirty_region is None,
        after.deferred_full_field is None,
        after.texts.evaluation_failure is None,
        !after.ui.refining,
        after.pending_plan_edits@ == seq![PlanEdit::Structure],
{
}

/// Resetting twice is resetting once.
pub proof fn resetting_is_idempotent(once: EvalState, twice: EvalState)
    requires
        exists|before: EvalState| EvalState::reset_for(before, once),
        EvalState::reset_for(once, twice),
    ensures
        twice.core == once.core,
        twice.ui == once.ui,
        twice.texts == once.texts,
        twice.pending_plan_edits@ == once.pending_plan_edits@,
{
}

/// An atlas that was made for a world on a device fits it from then on.
pub proof fn an_atlas_of_the_right_shape_is_kept(world: WorldSight, device_layers: u32)
    ensures
        !world.outgrows(Some(world.atlas_shape(device_layers)), device_layers),
        world.atlas_shape(device_layers).max_pages >= 1,
        device_layers >= 1 ==> world.atlas_shape(device_layers).max_pages <= device_layers,
{
}

/// The infinite variant is asked for exactly where an infinite world can be set
/// up.
pub proof fn infinite_frames_need_the_infinite_variant(world: WorldSight)
    ensures
        world.infinite_ready() <==> world.variant() == TerrainShaderVariant::Infinite,
        world is Bounded ==> world.variant() == TerrainShaderVariant::Bounded,
{
}

/// A new document is dirty everywhere, starts at Draft, and shows nothing in
/// progress; no job, cache, region or pending upload of the one before is left.
pub proof fn new_documents_start_dirty(core: EvalCore, ui: EvalUi)
    ensures
        core.for_new_document().worker_dirty.mark_all,
        core.for_new_document().worker_cache_res is None,
        core.for_new_document().refinement_job is None,
        core.for_new_document().scheduler_quality is Draft,
        core.for_new_document().pending_gpu_dirty_region is None,
        !core.for_new_document().needs_height_upload,
        !core.for_new_document().pending_plan_invalidation,
        core.for_new_document().preview_dirty,
        core.for_new_document().eval_token == core.eval_token,
        !ui.for_new_document().refining,
        ui.for_new_document().build_progress is None,
        !ui.for_new_document().draft_displayed,
        ui.for_new_document().quality is Draft,
{
}

/// Nothing that was uploaded of a document counts for the next one.
pub proof fn uploads_do_not_carry_over()
    ensures
        RenderDirt::stale().placement_tint_dirty,
        RenderDirt::stale().mask_overlay_dirty,
        RenderDirt::stale().aux_upload_fp == u64::MAX,
        RenderDirt::stale().veg_upload_fp == u64::MAX,
        RenderDirt::stale().overhang_upload_fp == u64::MAX,
{
}

/// What a document leaves outside is dropped: its refinement if there is one, its
/// published fields, the caches of evaluator and plan, what the renderer holds of it
/// and its deadline.
pub proof fn everything_outside_is_dropped(job: Option<RefinementJob>)
    ensures
        ({
            let effects = EvalState::dropping(job);
            &&& effects.contains(EvalEffect::DropPublishedFields)
            &&& effects.contains(EvalEffect::ClearEvaluatorCaches)
            &&& effects.contains(EvalEffect::ClearPlanCache)
            &&& effects.contains(EvalEffect::RefreshUploads(RenderDirt::stale()))
            &&& effects.contains(EvalEffect::ForgetStreamedFigures)
            &&& effects.contains(EvalEffect::ClearDeadline(FrameDeadlineKind::FullFieldRefinement))
            &&& job matches Some(running) ==> effects[1] matches EvalEffect::AbandonRefinement {
                job: dropped,
                ..
            } && dropped == running
        }),
{
    let effects = EvalState::dropping(job);
    let shift: int = if job is Some {
        1
    } else {
        0
    };
    assert(effects[0] is ForgetStreamedFigures);
    assert(effects[1 + shift] is DropPublishedFields);
    assert(effects[2 + shift] is ClearEvaluatorCaches);
    assert(effects[3 + shift] is RefreshUploads);
    assert(effects[4 + shift] is ClearPlanCache);
    assert(effects[5 + shift] is ClearDeadline);
}

/// The atlas has the tiles of its world and at least one page: 128 for a bounded
/// world and as many as asked for an infinite one, but never more than the device has
/// layers.
pub proof fn atlases_fit_world_and_device(world: WorldSight, layers: u32)
    ensures
        ({
            let shape = world.atlas_shape(layers);
            &&& shape.max_pages >= 1
            &&& layers >= 1 ==> shape.max_pages <= layers
            &&& world matches WorldSight::Bounded { tile_size, halo, .. } ==> {
                &&& shape.tile_size == tile_size && shape.halo == halo
                &&& layers >= 128 ==> shape.max_pages == 128
                &&& 1 <= layers < 128 ==> shape.max_pages == layers
            }
            &&& world matches WorldSight::Infinite { tile_size, halo, page_capacity, .. } ==> {
                &&& shape.tile_size == tile_size && shape.halo == halo
                &&& 1 <= page_capacity <= layers ==> shape.max_pages == page_capacity
                &&& page_capacity > layers && layers >= 1 ==> shape.max_pages == layers
            }
        }),
{
}

/// An atlas is replaced where there is none, where its tiles do not fit, and for an
/// infinite world where its pages do not; a bounded world takes any number of pages.
/// It is addressed as the world is traversed.
pub proof fn unfit_atlases_are_replaced(
    world: WorldSight,
    existing: Option<AtlasShape>,
    layers: u32,
    plan: AtlasPlan,
)
    requires
        call_ensures(WorldSight::atlas_plan, (&world, existing, layers), plan),
    ensures
        plan.shape == world.atlas_shape(layers),
        existing is None ==> plan.replace,
        existing matches Some(atlas) ==> {
            &&& atlas.tile_size != plan.shape.tile_size || atlas.halo != plan.shape.halo
                ==> plan.replace
            &&& atlas.tile_size == plan.shape.tile_size && atlas.halo == plan.shape.halo && world
                is Bounded ==> !plan.replace
            &&& (world matches WorldSight::Infinite { topology_valid, .. } && topology_valid)
                && atlas.max_pages != plan.shape.max_pages ==> plan.replace
            &&& atlas == plan.shape ==> !plan.replace
        },
        world is Bounded ==> plan.addressing is Hierarchy,
        world matches WorldSight::Infinite { topology_valid, .. } ==> (plan.addressing is Infinite
            <==> topology_valid),
{
}

/// A renderer that has the variant presents the world, bounded or infinite; one that
/// lacks it shows a placeholder, and the document is not ready; without a renderer
/// there is nothing to wait for.
pub proof fn missing_variants_show_a_placeholder(
    world: WorldSight,
    renderer: bool,
    variant: bool,
    plan: PresentationPlan,
)
    requires
        call_ensures(WorldSight::presentation_plan, (&world, renderer, variant), plan),
    ensures
        !renderer ==> plan is NoRenderer,
        renderer && !variant ==> plan is Placeholder,
        plan.is_ready() <==> !renderer || variant,
        renderer && variant ==> (plan matches PresentationPlan::Present {
            variant: shown,
            traversal,
            frame_infinite,
        } && (world is Bounded ==> shown is Bounded && traversal is Bounded && !frame_infinite) && (
        world matches WorldSight::Infinite { topology_valid, .. } ==> traversal is Infinite && (
        topology_valid ==> shown is Infinite && frame_infinite) && (!topology_valid ==> shown
            is Bounded && !frame_infinite))),
{
}

/// The runtime is configured for a bounded world at its resolution, never below 256,
/// and for an infinite one where its settings describe one and the runtime takes it.
pub proof fn worlds_are_configured_as_they_are(world: WorldSight)
    ensures
        world matches WorldSight::Bounded { preview_resolution, .. } ==> world.configures() && (
        world.configuration() matches ResetStep::ConfigureBounded { resolution } && resolution
            >= 256 && resolution >= preview_resolution && (resolution == 256 || resolution
            == preview_resolution)),
        world matches WorldSight::Infinite { topology_valid, topology_taken, .. } ==> {
            &&& topology_valid ==> world.configuration() is ConfigureInfinite
            &&& !topology_valid ==> world.configuration() is ReportTopology
            &&& world.configures() <==> topology_valid && topology_taken
        },
{
}

/// Setting a document up drops what the previous one left before anything is
/// configured, sets up atlas and engine where there is a GPU for them, then the
/// presentation, and retires what was streamed last.
pub proof fn documents_are_set_up_in_order(sight: DocumentSight, job: Option<RefinementJob>)
    ensures
        ({
            let steps = sight.reset_steps(job);
            let dropped = EvalState::dropping(job).len() as int;
            let atlas: int = if sight.host.has_gpu {
                1
            } else {
                0
            };
            let engine: int = if sight.host.has_gpu && sight.host.has_gpu_engine {
                1
            } else {
                0
            };
            &&& steps.len() == dropped + 2 + atlas + engine + 4
            &&& forall|i: int| #![trigger steps[i]]
                0 <= i < dropped ==> steps[i] == ResetStep::Eval(EvalState::dropping(job)[i])
            &&& steps[dropped] == ResetStep::Stream(StreamEffect::ClearTileWork)
            &&& steps[dropped + 1] == sight.world.configuration()
            &&& sight.host.has_gpu ==> steps[dropped + 2] is Atlas
            &&& engine == 1 ==> steps[dropped + 3] is ResetGpuEngine
            &&& steps[dropped + 2 + atlas + engine] is Present
            &&& steps.last() == ResetStep::Stream(StreamEffect::StreamingOff)
        }),
{
}

/// The output counts on exactly where the runtime was configured.
pub proof fn configuring_counts_the_output_on(sight: DocumentSight, stream: TileStream)
    ensures
        sight.world.configures() ==> sight.stream_after(stream).output_revision
            != stream.output_revision,
        !sight.world.configures() ==> sight.stream_after(stream).output_revision
            == stream.output_revision,
        !sight.stream_after(stream).streaming,
        sight.stream_after(stream).gpu_pyramid is None,
        sight.stream_after(stream).latest_demand is None,
{
}

/// Of several troubles the last one is shown: the activation before the atlas, and
/// that before the topology.
pub proof fn the_last_trouble_is_shown(troubles: ResetTroubles)
    ensures
        troubles.activation matches Some(error) ==> troubles.shown() == Some(error@),
        troubles.activation is None ==> (troubles.atlas matches Some(error) ==> (
        troubles.shown() matches Some(text) && error@.is_suffix_of(text))),
        troubles.activation is None && troubles.atlas is None ==> (
        troubles.topology matches Some(error) ==> (troubles.shown() matches Some(text)
            && error@.is_suffix_of(text))),
        troubles.activation is None && troubles.atlas is None && troubles.topology is None
            ==> troubles.shown() is None,
{
    if let Some(text) = troubles.shown() {
        if let Some(error) = troubles.atlas {
            if troubles.activation is None {
                assert(text.subrange(text.len() - error@.len(), text.len() as int) =~= error@);
            }
        } else if let Some(error) = troubles.topology {
            if troubles.activation is None {
                assert(text.subrange(text.len() - error@.len(), text.len() as int) =~= error@);
            }
        }
    }
}

/// A pyramid has the resolution of the preview, but never less than 256 texels.
pub proof fn pyramids_have_at_least_a_page(preview: u32, resolution: u32)
    requires
        call_ensures(pyramid_resolution, (preview,), resolution),
    ensures
        resolution >= 256,
        resolution >= preview,
        preview >= 256 ==> resolution == preview,
        preview < 256 ==> resolution == 256,
{
}

} // verus!
