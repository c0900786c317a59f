//! What a batch of panel actions does to the evaluation state.
//!
//! Each domain folds its actions into an [`ApplyCtx`]; when the batch is done
//! the context says what became dirty, and how the terrain is rebuilt.
use vstd::prelude::*;

use crate::dirty::{LayerId, StackLayer, UvRect};
use crate::eval::{EvalCore, EvalEffect, EvalState, FrameDeadlineKind, NodeRef, PlanEdit};

pub mod chain;
pub mod masks;
pub mod resolution;
pub mod scenarios;
pub mod world_rules;

verus! {

/// Shared mutation flags for a single batch of actions.
#[derive(Debug, Clone, Copy, PartialEq, Eq, Structural)]
pub struct ApplyCtx {
    pub dirty_from: Option<LayerId>,
    /// Bounded edit scope shared by GPU preview and CPU worker. It becomes
    /// texels only once the evaluation quality is known.
    pub sculpt_dirty_region_uv: Option<UvRect>,
    pub doc_mutated: bool,
    pub mask_assets_mutated: bool,
    pub deferred_rebuild: bool,
    pub continue_loop: bool,
}

/// The union of an optional rectangle with another.
pub open spec fn joined(existing: Option<UvRect>, uv: UvRect) -> UvRect {
    match existing {
        Some(rect) => rect.hull(uv),
        None => uv,
    }
}

fn join(existing: Option<UvRect>, uv: UvRect) -> (r: UvRect)
    ensures
        r == joined(existing, uv),
{
    match existing {
        Some(rect) => rect.union(uv),
        None => uv,
    }
}

impl ApplyCtx {
    pub fn new() -> (r: Self)
        ensures
            r == (ApplyCtx {
                dirty_from: None,
                sculpt_dirty_region_uv: None,
                doc_mutated: false,
                mask_assets_mutated: false,
                deferred_rebuild: false,
                continue_loop: false,
            }),
    {
        ApplyCtx {
            dirty_from: None,
            sculpt_dirty_region_uv: None,
            doc_mutated: false,
            mask_assets_mutated: false,
            deferred_rebuild: false,
            continue_loop: false,
        }
    }

    /// Folds the footprint of a sculpt edit into the batch's scope.
    pub fn accumulate_sculpt_footprint(&mut self, uv: UvRect)
        ensures
            *final(self) == (ApplyCtx {
                sculpt_dirty_region_uv: Some(joined(old(self).sculpt_dirty_region_uv, uv)),
                ..*old(self)
            }),
    {
        self.sculpt_dirty_region_uv = Some(join(self.sculpt_dirty_region_uv, uv));
    }
}

/// What the caller sees of the edited layer when a batch ends.
#[derive(Debug, Clone, Copy, PartialEq, Eq, Structural)]
pub struct BatchObservation {
    /// The last good plan has the edited node in its present shape.
    pub plan_shape_matches: bool,
    pub edited_is_group: bool,
    /// The edited layer of the previewed stack is a painted base.
    pub edited_is_sculpt_base: bool,
    pub selection_changed: bool,
}

/// What the caller has to do after a batch, in order.
#[derive(Debug, Clone, Copy, PartialEq, Eq, Structural)]
pub enum BatchEffect {
    Eval(EvalEffect),
    RequestRebuild,
    RequestRebuildImmediate,
    MarkDocumentDirty,
    RevealSelection,
}

/// The plan edit of a batch that dirtied `id`: bounded content where there is a
/// footprint, parameters where the plan still has the node's shape, and
/// otherwise the structure.
pub open spec fn plan_edit_of(id: LayerId, region: Option<UvRect>, seen: BatchObservation) -> PlanEdit {
    match region {
        Some(region) => PlanEdit::Content { layer: id, region },
        None => if seen.plan_shape_matches {
            PlanEdit::Parameters {
                node: if seen.edited_is_group {
                    NodeRef::Group(id)
                } else {
                    NodeRef::Layer(id)
                },
            }
        } else {
            PlanEdit::Structure
        },
    }
}

/// The plan edits that a batch leaves.
pub open spec fn plan_edits_after(
    before: Seq<PlanEdit>,
    ctx: ApplyCtx,
    seen: BatchObservation,
) -> Seq<PlanEdit> {
    let scoped = match ctx.dirty_from {
        Some(id) => before.push(plan_edit_of(id, ctx.sculpt_dirty_region_uv, seen)),
        None => before,
    };
    if ctx.mask_assets_mutated {
        scoped.push(PlanEdit::Structure)
    } else {
        scoped
    }
}

/// The effects of a batch.
pub open spec fn batch_effects(ctx: ApplyCtx, seen: BatchObservation) -> Seq<BatchEffect> {
    let region = if ctx.sculpt_dirty_region_uv is Some {
        seq![
            BatchEffect::Eval(EvalEffect::ClearDeadline(FrameDeadlineKind::FullFieldRefinement)),
        ]
    } else {
        seq![]
    };
    let scoped = match ctx.dirty_from {
        Some(id) => seq![
            BatchEffect::Eval(EvalEffect::EvaluatorDirtyFrom(id)),
            BatchEffect::Eval(EvalEffect::AdvanceOutputRevision),
            if ctx.sculpt_dirty_region_uv is Some && seen.edited_is_sculpt_base {
                BatchEffect::Eval(EvalEffect::GpuMarkDirty(id))
            } else {
                BatchEffect::Eval(EvalEffect::GpuMarkDirtyFrom(id))
            },
            if ctx.sculpt_dirty_region_uv is Some || ctx.deferred_rebuild {
                BatchEffect::RequestRebuild
            } else {
                BatchEffect::RequestRebuildImmediate
            },
        ],
        None => seq![],
    };
    let masks = if ctx.mask_assets_mutated {
        EvalState::whole_dirt().map_values(|effect: EvalEffect| BatchEffect::Eval(effect)).push(
            BatchEffect::RequestRebuild,
        )
    } else {
        seq![]
    };
    let document = if ctx.doc_mutated || ctx.dirty_from is Some
        || ctx.sculpt_dirty_region_uv is Some {
        seq![BatchEffect::MarkDocumentDirty]
    } else {
        seq![]
    };
    let selection = if seen.selection_changed {
        seq![BatchEffect::RevealSelection]
    } else {
        seq![]
    };
    region + scoped + masks + document + selection
}

/// The deciding part after a batch.
pub open spec fn core_after_batch(
    core: EvalCore,
    layers: Seq<StackLayer>,
    ctx: ApplyCtx,
) -> EvalCore {
    let scope = match ctx.dirty_from {
        Some(id) => core.worker_dirty.with_edit(layers, id, ctx.sculpt_dirty_region_uv),
        None => core.worker_dirty,
    };
    EvalCore {
        pending_gpu_dirty_region: match ctx.sculpt_dirty_region_uv {
            Some(region) => Some(joined(core.pending_gpu_dirty_region, region)),
            None => core.pending_gpu_dirty_region,
        },
        worker_dirty: if ctx.mask_assets_mutated {
            crate::dirty::WorkerDirty::everything()
        } else {
            scope
        },
        ..core
    }
}

fn batch_effect_list(ctx: &ApplyCtx, seen: &BatchObservation) -> (r: Vec<BatchEffect>)
    ensures
        r@ == batch_effects(*ctx, *seen),
{
    let has_footprint = ctx.sculpt_dirty_region_uv.is_some();
    let mut effects: Vec<BatchEffect> = Vec::new();
    if has_footprint {
        effects.push(
            BatchEffect::Eval(EvalEffect::ClearDeadline(FrameDeadlineKind::FullFieldRefinement)),
        );
    }
    if let Some(id) = ctx.dirty_from {
        effects.push(BatchEffect::Eval(EvalEffect::EvaluatorDirtyFrom(id)));
        effects.push(BatchEffect::Eval(EvalEffect::AdvanceOutputRevision));
        if has_footprint && seen.edited_is_sculpt_base {
            effects.push(BatchEffect::Eval(EvalEffect::GpuMarkDirty(id)));
        } else {
            effects.push(BatchEffect::Eval(EvalEffect::GpuMarkDirtyFrom(id)));
        }
        if has_footprint || ctx.deferred_rebuild {
            effects.push(BatchEffect::RequestRebuild);
        } else {
            effects.push(BatchEffect::RequestRebuildImmediate);
        }
    }
    if ctx.mask_assets_mutated {
        effects.push(BatchEffect::Eval(EvalEffect::EvaluatorAllDirty));
        effects.push(BatchEffect::Eval(EvalEffect::ReconfigureRuntime));
        effects.push(BatchEffect::Eval(EvalEffect::RetireStreaming));
        effects.push(BatchEffect::Eval(EvalEffect::GpuMarkAllDirty));
        effects.push(BatchEffect::RequestRebuild);
    }
    if ctx.doc_mutated || ctx.dirty_from.is_some() || has_footprint {
        effects.push(BatchEffect::MarkDocumentDirty);
    }
    if seen.selection_changed {
        effects.push(BatchEffect::RevealSelection);
    }
    assert(effects@ =~= batch_effects(*ctx, *seen));
    effects
}

fn push_plan_edits(edits: &mut Vec<PlanEdit>, ctx: &ApplyCtx, seen: &BatchObservation)
    ensures
        final(edits)@ == plan_edits_after(old(edits)@, *ctx, *seen),
{
    if let Some(id) = ctx.dirty_from {
        let edit = match ctx.sculpt_dirty_region_uv {
            Some(region) => PlanEdit::Content { layer: id, region },
            None => if seen.plan_shape_matches {
                PlanEdit::Parameters {
                    node: if seen.edited_is_group {
                        NodeRef::Group(id)
                    } else {
                        NodeRef::Layer(id)
                    },
                }
            } else {
                PlanEdit::Structure
            },
        };
        edits.push(edit);
    }
    if ctx.mask_assets_mutated {
        edits.push(PlanEdit::Structure);
    }
}

fn core_with_batch(core: EvalCore, layers: &[StackLayer], ctx: &ApplyCtx) -> (r: EvalCore)
    ensures
        r == core_after_batch(core, layers@, *ctx),
{
    let pending_gpu_dirty_region = match ctx.sculpt_dirty_region_uv {
        Some(region) => Some(join(core.pending_gpu_dirty_region, region)),
        None => core.pending_gpu_dirty_region,
    };
    let mut worker_dirty = core.worker_dirty;
    if let Some(id) = ctx.dirty_from {
        worker_dirty.track_worker_dirty_from(layers, id, ctx.sculpt_dirty_region_uv);
    }
    if ctx.mask_assets_mutated {
        worker_dirty.mark_all_dirty();
    }
    EvalCore { pending_gpu_dirty_region, worker_dirty, ..core }
}

impl EvalState {
    /// Takes a finished batch in. A footprint keeps the rebuild bounded, a
    /// dirty layer makes the worker's suffix start no later than it, and
    /// changed masks make everything dirty.
    pub fn apply_actions(
        &mut self,
        ctx: &ApplyCtx,
        seen: &BatchObservation,
        layers: &[StackLayer],
    ) -> (r: Vec<BatchEffect>)
        ensures
            r@ == batch_effects(*ctx, *seen),
            final(self).core == core_after_batch(old(self).core, layers@, *ctx),
            final(self).pending_plan_edits@ == plan_edits_after(
                old(self).pending_plan_edits@,
                *ctx,
                *seen,
            ),
            final(self).deferred_full_field == if ctx.sculpt_dirty_region_uv is Some {
                None
            } else {
                old(self).deferred_full_field
            },
            final(self).ui == old(self).ui,
            final(self).texts == old(self).texts,
    {
        push_plan_edits(&mut self.pending_plan_edits, ctx, seen);
        self.core = core_with_batch(self.core, layers, ctx);
        if ctx.sculpt_dirty_region_uv.is_some() {
            self.deferred_full_field = None;
        }
        batch_effect_list(ctx, seen)
    }
}

/// An operation of a compiled plan that runs a layer's kernel.
pub struct KernelOp {
    pub layer: LayerId,
    pub type_id: String,
}

/// The plan runs a kernel of this type for the layer.
pub open spec fn runs_kernel(ops: Seq<KernelOp>, id: LayerId, type_id: Seq<char>) -> bool {
    exists|i: int|
        #![trigger ops[i]]
        0 <= i < ops.len() && ops[i].layer == id && ops[i].type_id@ == type_id
}

/// What a plan is asked about an edited node.
pub enum EditedNode<'a> {
    /// A layer, with the type of its kernel.
    Layer(&'a str),
    /// A group, with the number of operations that stem from it.
    Group(usize),
    Missing,
}

/// Whether the plan still has the edited node in its present shape: the kernel
/// of a layer has the same type, a group still owns operations.
pub fn plan_owner_shape_matches(ops: &Vec<KernelOp>, id: LayerId, node: EditedNode) -> (r: bool)
    ensures
        r == match node {
            EditedNode::Layer(type_id) => runs_kernel(ops@, id, type_id@),
            EditedNode::Group(operations) => operations > 0,
            EditedNode::Missing => false,
        },
{
    match node {
        EditedNode::Missing => false,
        EditedNode::Group(operations) => operations > 0,
        EditedNode::Layer(type_id) => has_kernel(ops, id, type_id),
    }
}

fn has_kernel(ops: &Vec<KernelOp>, id: LayerId, type_id: &str) -> (r: bool)
    ensures
        r == runs_kernel(ops@, id, type_id@),
{
    let mut i: usize = 0;
    while i < ops.len()
        invariant
            i <= ops@.len(),
            forall|j: int|
                #![trigger ops@[j]]
                0 <= j < i ==> !(ops@[j].layer == id && ops@[j].type_id@ == type_id@),
        decreases ops@.len() - i,
    {
        if ops[i].layer == id && crate::text::same_text(ops[i].type_id.as_str(), type_id) {
            assert(ops@[i as int].layer == id);
            return true;
        }
        i += 1;
    }
    false
}

/// What a batch asks of the evaluation, in order.
pub open spec fn evaluation_part(effects: Seq<BatchEffect>) -> Seq<EvalEffect>
    decreases effects.len(),
{
    if effects.len() == 0 {
        seq![]
    } else {
        let front = evaluation_part(effects.drop_last());
        match effects.last() {
            BatchEffect::Eval(effect) => front.push(effect),
            _ => front,
        }
    }
}

/// An effect of a batch is somewhere in what it asks of the evaluation.
proof fn lemma_evaluation_part_has(effects: Seq<BatchEffect>, at: int, effect: EvalEffect) -> (r:
    int)
    requires
        0 <= at < effects.len(),
        effects[at] == BatchEffect::Eval(effect),
    ensures
        0 <= r < evaluation_part(effects).len(),
        evaluation_part(effects)[r] == effect,
    decreases effects.len(),
{
    let front = effects.drop_last();
    if at < front.len() {
        assert(front[at] == effects[at]);
        lemma_evaluation_part_has(front, at, effect)
    } else {
        evaluation_part(front).len() as int
    }
}

/// A batch that dirties a layer or the masks retires what was streamed: once its
/// effects are performed, no page of any output is shown and nothing is queued.
pub proof fn a_dirtying_batch_retires_streamed_pages(
    before: crate::tile_stream::TileStream,
    ctx: ApplyCtx,
    seen: BatchObservation,
    revision: u64,
)
    requires
        ctx.dirty_from is Some || ctx.mask_assets_mutated,
    ensures
        ({
            let after = before.performed_all(evaluation_part(batch_effects(ctx, seen)));
            &&& after == after.retired()
            &&& after.wf()
            &&& !after.shows(revision)
            &&& !after.can_plan()
        }),
{
    let effects = batch_effects(ctx, seen);
    let footprint: int = if ctx.sculpt_dirty_region_uv is Some {
        1
    } else {
        0
    };
    let found = if ctx.dirty_from is Some {
        lemma_evaluation_part_has(effects, footprint + 1, EvalEffect::AdvanceOutputRevision)
    } else {
        lemma_evaluation_part_has(effects, footprint + 2, EvalEffect::RetireStreaming)
    };
    crate::tile_stream::no_effect_undoes_a_retirement(
        before,
        evaluation_part(effects),
        found,
        revision,
    );
}

/// A bounded edit stays bounded on its way to the worker: when nothing else is
/// pending and no mask changed, the worker's scope is the edited suffix inside
/// the footprint.
pub proof fn bounded_edit_reaches_the_worker_bounded(
    core: EvalCore,
    layers: Seq<StackLayer>,
    ctx: ApplyCtx,
    id: LayerId,
    region: UvRect,
)
    requires
        ctx.dirty_from == Some(id),
        ctx.sculpt_dirty_region_uv == Some(region),
        !ctx.mask_assets_mutated,
        core.worker_dirty == (crate::dirty::WorkerDirty {
            mark_all: false,
            dirty_from: None,
            region: None,
        }),
        crate::dirty::first_position(layers, id) is Some,
    ensures
        core_after_batch(core, layers, ctx).worker_dirty == (crate::dirty::WorkerDirty {
            mark_all: false,
            dirty_from: Some(id),
            region: Some(region),
        }),
{
}

/// A batch never clears dirt: what the worker had to recompute before, it has
/// to recompute afterwards.
pub proof fn batches_keep_pending_dirt(
    core: EvalCore,
    layers: Seq<StackLayer>,
    ctx: ApplyCtx,
    index: int,
    u: u32,
    v: u32,
)
    requires
        core.worker_dirty.covers(layers, index, u, v),
    ensures
        core_after_batch(core, layers, ctx).worker_dirty.covers(layers, index, u, v),
{
    if let Some(id) = ctx.dirty_from {
        crate::dirty::tracking_keeps_pending_dirt(
            core.worker_dirty,
            layers,
            id,
            ctx.sculpt_dirty_region_uv,
            index,
            u,
            v,
        );
    }
}

/// A batch asks for exactly what it changed: a dirty layer is evaluated again from
/// itself on, changed masks make everything dirty, a footprint ends the deferred
/// refinement, a changed document is saved and a changed selection shown.
pub proof fn batches_ask_for_what_changed(
    state: &mut EvalState,
    ctx: &ApplyCtx,
    seen: &BatchObservation,
    layers: &[StackLayer],
    effects: Vec<BatchEffect>,
    id: LayerId,
)
    requires
        call_ensures(EvalState::apply_actions, (state, ctx, seen, layers), effects),
    ensures
        effects@.contains(BatchEffect::RevealSelection) <==> seen.selection_changed,
        effects@.contains(BatchEffect::MarkDocumentDirty) <==> ctx.doc_mutated || ctx.dirty_from
            is Some || ctx.sculpt_dirty_region_uv is Some,
        effects@.contains(BatchEffect::RequestRebuildImmediate) <==> ctx.dirty_from is Some
            && ctx.sculpt_dirty_region_uv is None && !ctx.deferred_rebuild,
        effects@.contains(BatchEffect::RequestRebuild) <==> ctx.mask_assets_mutated || (
        ctx.dirty_from is Some && (ctx.sculpt_dirty_region_uv is Some || ctx.deferred_rebuild)),
        effects@.contains(BatchEffect::Eval(EvalEffect::EvaluatorDirtyFrom(id)))
            <==> ctx.dirty_from == Some(id),
        effects@.contains(BatchEffect::Eval(EvalEffect::AdvanceOutputRevision)) <==> ctx.dirty_from
            is Some,
        effects@.contains(BatchEffect::Eval(EvalEffect::GpuMarkDirty(id))) <==> ctx.dirty_from
            == Some(id) && ctx.sculpt_dirty_region_uv is Some && seen.edited_is_sculpt_base,
        effects@.contains(BatchEffect::Eval(EvalEffect::GpuMarkDirtyFrom(id))) <==> ctx.dirty_from
            == Some(id) && !(ctx.sculpt_dirty_region_uv is Some && seen.edited_is_sculpt_base),
        effects@.contains(
            BatchEffect::Eval(EvalEffect::ClearDeadline(FrameDeadlineKind::FullFieldRefinement)),
        ) <==> ctx.sculpt_dirty_region_uv is Some,
        effects@.contains(BatchEffect::Eval(EvalEffect::EvaluatorAllDirty))
            <==> ctx.mask_assets_mutated,
        effects@.contains(BatchEffect::Eval(EvalEffect::ReconfigureRuntime))
            <==> ctx.mask_assets_mutated,
        effects@.contains(BatchEffect::Eval(EvalEffect::RetireStreaming))
            <==> ctx.mask_assets_mutated,
        effects@.contains(BatchEffect::Eval(EvalEffect::GpuMarkAllDirty))
            <==> ctx.mask_assets_mutated,
{
    effect_is_asked(*ctx, *seen, BatchEffect::RevealSelection);
    effect_is_asked(*ctx, *seen, BatchEffect::MarkDocumentDirty);
    effect_is_asked(*ctx, *seen, BatchEffect::RequestRebuildImmediate);
    effect_is_asked(*ctx, *seen, BatchEffect::RequestRebuild);
    effect_is_asked(*ctx, *seen, BatchEffect::Eval(EvalEffect::EvaluatorDirtyFrom(id)));
    effect_is_asked(*ctx, *seen, BatchEffect::Eval(EvalEffect::AdvanceOutputRevision));
    effect_is_asked(*ctx, *seen, BatchEffect::Eval(EvalEffect::GpuMarkDirty(id)));
    effect_is_asked(*ctx, *seen, BatchEffect::Eval(EvalEffect::GpuMarkDirtyFrom(id)));
    effect_is_asked(
        *ctx,
        *seen,
        BatchEffect::Eval(EvalEffect::ClearDeadline(FrameDeadlineKind::FullFieldRefinement)),
    );
    effect_is_asked(*ctx, *seen, BatchEffect::Eval(EvalEffect::EvaluatorAllDirty));
    effect_is_asked(*ctx, *seen, BatchEffect::Eval(EvalEffect::ReconfigureRuntime));
    effect_is_asked(*ctx, *seen, BatchEffect::Eval(EvalEffect::RetireStreaming));
    effect_is_asked(*ctx, *seen, BatchEffect::Eval(EvalEffect::GpuMarkAllDirty));
}

/// An effect is in the list exactly where one of the batch's reasons calls for it.
proof fn effect_is_asked(ctx: ApplyCtx, seen: BatchObservation, effect: BatchEffect)
    ensures
        batch_effects(ctx, seen).contains(effect) <==> match effect {
            BatchEffect::RevealSelection => seen.selection_changed,
            BatchEffect::MarkDocumentDirty => ctx.doc_mutated || ctx.dirty_from is Some
                || ctx.sculpt_dirty_region_uv is Some,
            BatchEffect::RequestRebuildImmediate => ctx.dirty_from is Some
                && ctx.sculpt_dirty_region_uv is None && !ctx.deferred_rebuild,
            BatchEffect::RequestRebuild => ctx.mask_assets_mutated || (ctx.dirty_from is Some && (
            ctx.sculpt_dirty_region_uv is Some || ctx.deferred_rebuild)),
            BatchEffect::Eval(asked) => {
                ||| ctx.sculpt_dirty_region_uv is Some && asked == EvalEffect::ClearDeadline(
                    FrameDeadlineKind::FullFieldRefinement,
                )
                ||| ctx.mask_assets_mutated && (asked is EvaluatorAllDirty || asked
                    is ReconfigureRuntime || asked is RetireStreaming || asked is GpuMarkAllDirty)
                ||| ctx.dirty_from matches Some(id) && (asked == EvalEffect::EvaluatorDirtyFrom(id)
                    || asked is AdvanceOutputRevision || asked == (if ctx.sculpt_dirty_region_uv
                    is Some && seen.edited_is_sculpt_base {
                    EvalEffect::GpuMarkDirty(id)
                } else {
                    EvalEffect::GpuMarkDirtyFrom(id)
                }))
            },
        },
{
    let region = if ctx.sculpt_dirty_region_uv is Some {
        seq![
            BatchEffect::Eval(EvalEffect::ClearDeadline(FrameDeadlineKind::FullFieldRefinement)),
        ]
    } else {
        seq![]
    };
    let scoped = match ctx.dirty_from {
        Some(id) => seq![
            BatchEffect::Eval(EvalEffect::EvaluatorDirtyFrom(id)),
            BatchEffect::Eval(EvalEffect::AdvanceOutputRevision),
            if ctx.sculpt_dirty_region_uv is Some && seen.edited_is_sculpt_base {
                BatchEffect::Eval(EvalEffect::GpuMarkDirty(id))
            } else {
                BatchEffect::Eval(EvalEffect::GpuMarkDirtyFrom(id))
            },
            if ctx.sculpt_dirty_region_uv is Some || ctx.deferred_rebuild {
                BatchEffect::RequestRebuild
            } else {
                BatchEffect::RequestRebuildImmediate
            },
        ],
        None => seq![],
    };
    let masks = if ctx.mask_assets_mutated {
        seq![
            BatchEffect::Eval(EvalEffect::EvaluatorAllDirty),
            BatchEffect::Eval(EvalEffect::ReconfigureRuntime),
            BatchEffect::Eval(EvalEffect::RetireStreaming),
            BatchEffect::Eval(EvalEffect::GpuMarkAllDirty),
            BatchEffect::RequestRebuild,
        ]
    } else {
        seq![]
    };
    let document = if ctx.doc_mutated || ctx.dirty_from is Some
        || ctx.sculpt_dirty_region_uv is Some {
        seq![BatchEffect::MarkDocumentDirty]
    } else {
        seq![]
    };
    let selection = if seen.selection_changed {
        seq![BatchEffect::RevealSelection]
    } else {
        seq![]
    };
    assert(batch_effects(ctx, seen) =~= region + scoped + masks + document + selection);
    vstd::seq_lib::lemma_seq_concat_contains_all_elements(
        region + scoped + masks + document,
        selection,
        effect,
    );
    vstd::seq_lib::lemma_seq_concat_contains_all_elements(
        region + scoped + masks,
        document,
        effect,
    );
    vstd::seq_lib::lemma_seq_concat_contains_all_elements(region + scoped, masks, effect);
    vstd::seq_lib::lemma_seq_concat_contains_all_elements(region, scoped, effect);
    assert(region.contains(effect) <==> region.len() == 1 && region[0] == effect);
    assert(scoped.contains(effect) <==> scoped.len() == 4 && (scoped[0] == effect || scoped[1]
        == effect || scoped[2] == effect || scoped[3] == effect));
    assert(masks.contains(effect) <==> masks.len() == 5 && (masks[0] == effect || masks[1] == effect
        || masks[2] == effect || masks[3] == effect || masks[4] == effect));
    assert(document.contains(effect) <==> document.len() == 1 && document[0] == effect);
    assert(selection.contains(effect) <==> selection.len() == 1 && selection[0] == effect);
}

/// What a batch dirtied is rebuilt only after it was marked dirty: the request comes
/// behind the marks.
pub proof fn marks_come_before_the_rebuild(
    state: &mut EvalState,
    ctx: &ApplyCtx,
    seen: &BatchObservation,
    layers: &[StackLayer],
    effects: Vec<BatchEffect>,
    mark: int,
    request: int,
)
    requires
        call_ensures(EvalState::apply_actions, (state, ctx, seen, layers), effects),
        0 <= mark < effects@.len(),
        0 <= request < effects@.len(),
        effects@[mark] matches BatchEffect::Eval(effect) && (effect is EvaluatorDirtyFrom || effect
            is GpuMarkDirty || effect is GpuMarkDirtyFrom || effect is AdvanceOutputRevision),
        effects@[request] is RequestRebuild || effects@[request] is RequestRebuildImmediate,
    ensures
        mark < request,
{
    assert(EvalState::whole_dirt().len() == 4);
}

/// A batch leaves behind what its flags say: a footprint joins the pending region and
/// ends the deferred refinement, changed masks dirty everything, and a batch that
/// dirtied nothing leaves the worker's scope alone.
pub proof fn batches_dirty_what_they_touched(
    state: &mut EvalState,
    ctx: &ApplyCtx,
    seen: &BatchObservation,
    layers: &[StackLayer],
    effects: Vec<BatchEffect>,
)
    requires
        call_ensures(EvalState::apply_actions, (state, ctx, seen, layers), effects),
    ensures
        ctx.mask_assets_mutated ==> final(state).core.worker_dirty.mark_all,
        !ctx.mask_assets_mutated && ctx.dirty_from is None ==> final(state).core.worker_dirty
            == old(state).core.worker_dirty,
        ctx.sculpt_dirty_region_uv is None ==> final(state).core.pending_gpu_dirty_region == old(state).core.pending_gpu_dirty_region && final(state).deferred_full_field == old(state).deferred_full_field,
        ctx.sculpt_dirty_region_uv matches Some(region) ==> {
            &&& final(state).deferred_full_field is None
            &&& old(state).core.pending_gpu_dirty_region is None ==> final(state).core.pending_gpu_dirty_region == Some(region)
            &&& old(state).core.pending_gpu_dirty_region matches Some(pending) ==> final(state).core.pending_gpu_dirty_region == Some(pending.hull(region))
        },
        ctx.dirty_from is None && !ctx.mask_assets_mutated ==> final(state).pending_plan_edits@
            == old(state).pending_plan_edits@,
        ctx.mask_assets_mutated ==> final(state).pending_plan_edits@.len() > 0 && final(state).pending_plan_edits@.last() == PlanEdit::Structure,
        !ctx.mask_assets_mutated ==> (ctx.dirty_from matches Some(id) ==> {
            let edit = final(state).pending_plan_edits@.last();
            &&& final(state).pending_plan_edits@.drop_last() == old(state).pending_plan_edits@
            &&& ctx.sculpt_dirty_region_uv matches Some(region) ==> edit == (PlanEdit::Content {
                layer: id,
                region,
            })
            &&& ctx.sculpt_dirty_region_uv is None && !seen.plan_shape_matches ==> edit
                == PlanEdit::Structure
            &&& ctx.sculpt_dirty_region_uv is None && seen.plan_shape_matches
                && seen.edited_is_group ==> edit == (PlanEdit::Parameters {
                node: NodeRef::Group(id),
            })
            &&& ctx.sculpt_dirty_region_uv is None && seen.plan_shape_matches
                && !seen.edited_is_group ==> edit == (PlanEdit::Parameters {
                node: NodeRef::Layer(id),
            })
        }),
{
    if !ctx.mask_assets_mutated && ctx.dirty_from is Some {
        assert(final(state).pending_plan_edits@.drop_last() =~= old(state).pending_plan_edits@);
    }
}

/// A new batch has done nothing.
pub proof fn a_new_batch_is_clean(ctx: ApplyCtx)
    requires
        call_ensures(ApplyCtx::new, (), ctx),
    ensures
        ctx.dirty_from is None,
        ctx.sculpt_dirty_region_uv is None,
        !ctx.doc_mutated,
        !ctx.mask_assets_mutated,
        !ctx.deferred_rebuild,
        !ctx.continue_loop,
{
}

/// The footprints of a batch grow into one that holds them all.
pub proof fn footprints_grow_together(ctx: &mut ApplyCtx, uv: UvRect)
    requires
        call_ensures(ApplyCtx::accumulate_sculpt_footprint, (ctx, uv), ()),
    ensures
        old(ctx).sculpt_dirty_region_uv is None ==> final(ctx).sculpt_dirty_region_uv == Some(uv),
        old(ctx).sculpt_dirty_region_uv matches Some(before) ==> final(ctx).sculpt_dirty_region_uv
            == Some(before.hull(uv)),
        final(ctx).dirty_from == old(ctx).dirty_from,
        final(ctx).doc_mutated == old(ctx).doc_mutated,
{
}

/// The plan has an edited layer in its shape exactly where it runs the layer's kernel,
/// and a group exactly where operations stem from it.
pub proof fn shapes_are_those_of_the_plan(
    ops: &Vec<KernelOp>,
    id: LayerId,
    node: EditedNode<'_>,
    matching: bool,
)
    requires
        call_ensures(plan_owner_shape_matches, (ops, id, node), matching),
    ensures
        node is Missing ==> !matching,
        node matches EditedNode::Group(operations) ==> (matching <==> operations != 0),
        node matches EditedNode::Layer(type_id) ==> (matching <==> exists|i: int|
            #![trigger ops@[i]]
            0 <= i < ops@.len() && ops@[i].layer == id && ops@[i].type_id@ == type_id@),
{
}

} // verus!
