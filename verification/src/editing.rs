//! Commands of the editor: dispatch, undo and redo, the layer that a brush
//! writes, and camera bookmarks.
use vstd::prelude::*;

use crate::clock::{Duration, Instant};
use crate::dirty::{LayerId, StackLayer, WorkerDirty};
use crate::eval::{
    BuildProgress, EvalCore, EvalEffect, EvalProfile, EvalState, EvalTexts, EvalUi, NodeRef,
    PlanEdit, RefineTiming, TerrainPreviewFreshness,
};
use crate::project::PendingProjectAction;
use crate::quality::PreviewQuality;
use crate::text::{join_lines, push_decimal};

verus! {

/// A command by its meaning.
#[derive(Debug, Clone, Copy, PartialEq, Eq, Structural)]
pub enum CommandId {
    OpenCommandPalette,
    OpenQuickAdd,
    Undo,
    Redo,
    Save,
    SaveAs,
    FrameTerrain,
    NewProject,
    OpenProject,
    CloseProject,
    Other,
}

/// What a command does.
#[derive(Debug, Clone, Copy, PartialEq, Eq, Structural)]
pub enum CommandStep {
    SwitchWorkspace,
    ShowCommandPalette,
    ShowQuickAdd,
    Undo,
    Redo,
    Save,
    SaveAs,
    FrameTerrain,
    Project(PendingProjectAction),
    Ignore,
}

/// Dispatches a command. `names_workspace` says that it stands for a workspace,
/// which in the editor comes before anything else. Outside the editor only new
/// and opened projects make sense.
pub fn dispatch_command(command: CommandId, in_editor: bool, names_workspace: bool) -> (r:
    CommandStep)
    ensures
        r == if in_editor && names_workspace {
            CommandStep::SwitchWorkspace
        } else {
            match command {
                CommandId::NewProject => CommandStep::Project(PendingProjectAction::New),
                CommandId::OpenProject => CommandStep::Project(PendingProjectAction::Open),
                CommandId::Other => CommandStep::Ignore,
                _ => if !in_editor {
                    CommandStep::Ignore
                } else {
                    match command {
                        CommandId::OpenCommandPalette => CommandStep::ShowCommandPalette,
                        CommandId::OpenQuickAdd => CommandStep::ShowQuickAdd,
                        CommandId::Undo => CommandStep::Undo,
                        CommandId::Redo => CommandStep::Redo,
                        CommandId::Save => CommandStep::Save,
                        CommandId::SaveAs => CommandStep::SaveAs,
                        CommandId::FrameTerrain => CommandStep::FrameTerrain,
                        _ => CommandStep::Project(PendingProjectAction::Close),
                    }
                },
            }
        },
{
    if in_editor && names_workspace {
        return CommandStep::SwitchWorkspace;
    }
    match command {
        CommandId::NewProject => {
            return CommandStep::Project(PendingProjectAction::New);
        },
        CommandId::OpenProject => {
            return CommandStep::Project(PendingProjectAction::Open);
        },
        _ => {},
    }
    if !in_editor {
        return CommandStep::Ignore;
    }
    match command {
        CommandId::OpenCommandPalette => CommandStep::ShowCommandPalette,
        CommandId::OpenQuickAdd => CommandStep::ShowQuickAdd,
        CommandId::Undo => CommandStep::Undo,
        CommandId::Redo => CommandStep::Redo,
        CommandId::Save => CommandStep::Save,
        CommandId::SaveAs => CommandStep::SaveAs,
        CommandId::FrameTerrain => CommandStep::FrameTerrain,
        CommandId::CloseProject => CommandStep::Project(PendingProjectAction::Close),
        CommandId::NewProject | CommandId::OpenProject | CommandId::Other => CommandStep::Ignore,
    }
}

/// Whether switching the workspace outdates the placement tint and the preview:
/// where the biome colours changed, and always for the biome workspace.
pub fn workspace_outdates_tint(color_preview_changed: bool, to_biomes: bool) -> (r: bool)
    ensures
        r == (color_preview_changed || to_biomes),
{
    color_preview_changed || to_biomes
}

/// What an entry of the history was about.
#[derive(Debug, Clone, Copy, PartialEq, Eq, Structural)]
pub enum HistoryKind {
    MaskPaint,
    WorldRule,
    Scenario,
    BiomePaint,
    Document,
}

/// What a step through the document's own history touched.
#[derive(Debug, Clone, Copy, PartialEq, Eq, Structural)]
pub enum CommandImpact {
    Layer(LayerId),
    Masks,
    /// Something else, or nothing that is known.
    Other,
}

/// The histories that undo tries, in order, until one has an entry. The last
/// one always answers.
pub fn undo_order() -> (r: Vec<HistoryKind>)
    ensures
        r@ == seq![
            HistoryKind::MaskPaint,
            HistoryKind::WorldRule,
            HistoryKind::Scenario,
            HistoryKind::BiomePaint,
            HistoryKind::Document,
        ],
{
    let mut order: Vec<HistoryKind> = Vec::new();
    order.push(HistoryKind::MaskPaint);
    order.push(HistoryKind::WorldRule);
    order.push(HistoryKind::Scenario);
    order.push(HistoryKind::BiomePaint);
    order.push(HistoryKind::Document);
    order
}

/// The histories that redo tries, in order.
pub fn redo_order() -> (r: Vec<HistoryKind>)
    ensures
        r@ == seq![HistoryKind::WorldRule, HistoryKind::Scenario, HistoryKind::Document],
{
    let mut order: Vec<HistoryKind> = Vec::new();
    order.push(HistoryKind::WorldRule);
    order.push(HistoryKind::Scenario);
    order.push(HistoryKind::Document);
    order
}

/// What a step through the history asks for beside the evaluation state.
#[derive(Debug, Clone, Copy, PartialEq, Eq, Structural)]
pub struct HistoryOutcome {
    /// The mask overlay has to be drawn again.
    pub mask_overlay_dirty: bool,
    /// The terrain is rebuilt.
    pub rebuilds: bool,
    /// The index of authored features is built again from the strokes that the
    /// step left in the document.
    pub rebuild_index: bool,
}

impl HistoryKind {
    /// The step rebuilds the terrain. A scenario is only a recipe until it is
    /// run.
    pub open spec fn rebuilds(self) -> bool {
        self != HistoryKind::Scenario
    }

    /// The step may bring strokes back or take them out, so the index of an
    /// infinite project no longer fits them. Only the document's own history
    /// holds the layers.
    pub open spec fn moves_strokes(self, infinite_project: bool) -> bool {
        self == HistoryKind::Document && infinite_project
    }

    /// The masks may look different.
    pub open spec fn touches_masks(self, impact: CommandImpact) -> bool {
        self == HistoryKind::MaskPaint || (self == HistoryKind::Document && impact
            == CommandImpact::Masks)
    }

    /// What the status line says; the document's own history says nothing.
    pub open spec fn words(self, undo: bool) -> Option<Seq<char>> {
        match (self, undo) {
            (HistoryKind::MaskPaint, true) => Some("Undid mask paint stroke"@),
            (HistoryKind::WorldRule, true) => Some("Undid World Rule edit"@),
            (HistoryKind::Scenario, true) => Some("Undid Scenario edit"@),
            (HistoryKind::BiomePaint, true) => Some("Undid biome paint stroke"@),
            (HistoryKind::WorldRule, false) => Some("Redid World Rule edit"@),
            (HistoryKind::Scenario, false) => Some("Redid Scenario edit"@),
            _ => None,
        }
    }

    fn status(self, undo: bool) -> (r: Option<&'static str>)
        ensures
            match r {
                Some(text) => self.words(undo) == Some(text@),
                None => self.words(undo) is None,
            },
    {
        match (self, undo) {
            (HistoryKind::MaskPaint, true) => Some("Undid mask paint stroke"),
            (HistoryKind::WorldRule, true) => Some("Undid World Rule edit"),
            (HistoryKind::Scenario, true) => Some("Undid Scenario edit"),
            (HistoryKind::BiomePaint, true) => Some("Undid biome paint stroke"),
            (HistoryKind::WorldRule, false) => Some("Redid World Rule edit"),
            (HistoryKind::Scenario, false) => Some("Redid Scenario edit"),
            _ => None,
        }
    }

    /// The scope that a step outdates: one layer and what follows it, or
    /// everything.
    pub open spec fn scope_after(
        self,
        scope: WorkerDirty,
        layers: Seq<StackLayer>,
        impact: CommandImpact,
    ) -> WorkerDirty {
        match (self, impact) {
            (HistoryKind::Scenario, _) => scope,
            (HistoryKind::Document, CommandImpact::Layer(id)) => scope.with_edit(layers, id, None),
            _ => WorkerDirty::everything(),
        }
    }

    /// What a step dirties outside the evaluation state.
    pub open spec fn dirt(self, impact: CommandImpact) -> Seq<EvalEffect> {
        match (self, impact) {
            (HistoryKind::Scenario, _) => seq![],
            (HistoryKind::Document, CommandImpact::Layer(id)) => EvalState::suffix_dirt(id),
            _ => EvalState::whole_dirt(),
        }
    }

    /// The plan edit of a step, if it has one.
    pub open spec fn plan_edit(self, impact: CommandImpact) -> Option<PlanEdit> {
        match (self, impact) {
            (HistoryKind::Scenario, _) => None,
            (HistoryKind::Document, CommandImpact::Layer(id)) => Some(
                PlanEdit::Parameters { node: NodeRef::Layer(id) },
            ),
            _ => Some(PlanEdit::Structure),
        }
    }
}

impl EvalState {
    fn mark_history_step(
        &mut self,
        kind: HistoryKind,
        impact: CommandImpact,
        layers: &[StackLayer],
    ) -> (r: Vec<EvalEffect>)
        ensures
            r@ == kind.dirt(impact),
            final(self).core == (EvalCore {
                worker_dirty: kind.scope_after(old(self).core.worker_dirty, layers@, impact),
                preview_dirty: old(self).core.preview_dirty || kind.touches_masks(impact),
                ..old(self).core
            }),
            final(self).pending_plan_edits@ == match kind.plan_edit(impact) {
                Some(edit) => old(self).pending_plan_edits@.push(edit),
                None => old(self).pending_plan_edits@,
            },
            final(self).ui == old(self).ui,
            final(self).texts == old(self).texts,
            final(self).deferred_full_field == old(self).deferred_full_field,
    {
        if kind == HistoryKind::Scenario {
            return Vec::new();
        }
        if kind == HistoryKind::Document {
            if let CommandImpact::Layer(id) = impact {
                return self.mark_dirty_from(layers, id);
            }
        }
        let effects = self.mark_all_layers_dirty();
        let masks = kind == HistoryKind::MaskPaint || (kind == HistoryKind::Document && impact
            == CommandImpact::Masks);
        if masks {
            self.core = EvalCore { preview_dirty: true, ..self.core };
        }
        effects
    }

    /// Takes in one undone or redone entry. The document counts as changed in
    /// every case.
    pub fn apply_history_step(
        &mut self,
        kind: HistoryKind,
        undo: bool,
        impact: CommandImpact,
        infinite_project: bool,
        layers: &[StackLayer],
        token: u64,
        selected_layer_name: Option<String>,
        edit_debounce_ms: u64,
        now: Instant,
        timing: RefineTiming,
    ) -> (r: (HistoryOutcome, Vec<EvalEffect>))
        ensures
            r.0 == (HistoryOutcome {
                mask_overlay_dirty: kind.touches_masks(impact),
                rebuilds: kind.rebuilds(),
                rebuild_index: kind.moves_strokes(infinite_project),
            }),
            kind.words(undo) matches Some(words) ==> final(self).texts.status@ == words,
            kind.words(undo) is None ==> final(self).texts.status == old(self).texts.status,
            final(self).pending_plan_edits@ == match kind.plan_edit(impact) {
                Some(edit) => old(self).pending_plan_edits@.push(edit),
                None => old(self).pending_plan_edits@,
            },
            final(self).texts.evaluation_failure == old(self).texts.evaluation_failure,
            kind.rebuilds() ==> {
                &&& final(self).core == (EvalCore {
                    scheduler_quality: PreviewQuality::Draft,
                    worker_dirty: kind.scope_after(old(self).core.worker_dirty, layers@, impact),
                    preview_dirty: old(self).core.preview_dirty || kind.touches_masks(impact),
                    ..old(self).core.rebuilding(token, false, now)
                })
                &&& final(self).ui == (EvalUi {
                    refining: true,
                    quality: PreviewQuality::Draft,
                    build_progress: Some(BuildProgress::Begun),
                    profile: EvalProfile { gen_id: token, ..old(self).ui.profile },
                    ..old(self).ui
                })
                &&& final(self).deferred_full_field is None
                &&& crate::eval::opt_text(final(self).texts.refining_layer_name)
                    == crate::eval::refining_target(selected_layer_name)
                &&& final(self).texts.freshness == (
                if old(self).core.pending_gpu_dirty_region is Some {
                    TerrainPreviewFreshness::LastCompleteStale
                } else {
                    TerrainPreviewFreshness::Current
                })
                &&& r.1@ == kind.dirt(impact) + Self::rebuild_effects(
                    token,
                    old(self).core.refinement_job,
                    Duration {
                        nanos: (if edit_debounce_ms >= 1 {
                            edit_debounce_ms as int
                        } else {
                            1
                        } * 1_000_000) as u128,
                    },
                    timing,
                )
            },
            !kind.rebuilds() ==> {
                &&& final(self).core == old(self).core
                &&& final(self).ui == old(self).ui
                &&& final(self).deferred_full_field == old(self).deferred_full_field
                &&& final(self).texts.refining_layer_name == old(self).texts.refining_layer_name
                &&& final(self).texts.freshness == old(self).texts.freshness
                &&& r.1@ == Seq::<EvalEffect>::empty()
            },
    {
        let mut effects = self.mark_history_step(kind, impact, layers);
        let rebuilds = kind != HistoryKind::Scenario;
        if rebuilds {
            let mut rebuild = self.request_rebuild(
                token,
                selected_layer_name,
                edit_debounce_ms,
                now,
                timing,
            );
            effects.append(&mut rebuild);
        }
        if let Some(text) = kind.status(undo) {
            self.texts.status = text.to_owned();
        }
        let mask_overlay_dirty = match kind {
            HistoryKind::MaskPaint => true,
            HistoryKind::Document => match impact {
                CommandImpact::Masks => true,
                _ => false,
            },
            _ => false,
        };
        let rebuild_index = kind == HistoryKind::Document && infinite_project;
        (HistoryOutcome { mask_overlay_dirty, rebuilds, rebuild_index }, effects)
    }
}

/// How the layer that a brush writes was resolved.
#[derive(Debug)]
pub enum ShapeTargetDecision {
    UseExisting {
        id: LayerId,
        /// The layer keeps sculpt strokes, so the session stays on it.
        keeps_strokes: bool,
        name: Option<String>,
    },
    CreateNew { id: LayerId, name: String },
    UnavailableOnFoundation { tool_label: String },
}

/// The selection that brushes work on.
#[derive(Debug, Clone, Copy, PartialEq, Eq, Structural)]
pub struct ShapeSession {
    pub selected: Option<LayerId>,
    pub session_layer: Option<LayerId>,
}

impl ShapeSession {
    /// What the status line says of a resolved target. A stroke that stays on
    /// its layer says nothing.
    pub open spec fn target_words(self, decision: ShapeTargetDecision) -> Option<Seq<char>> {
        match decision {
            ShapeTargetDecision::UseExisting { id, name, .. } => if self.selected == Some(id) {
                None
            } else {
                Some(
                    "Brush is painting on Shape Layer \""@ + (match name {
                        Some(name) => name@,
                        None => "Shape Layer"@,
                    }) + "\""@,
                )
            },
            ShapeTargetDecision::CreateNew { name, .. } => Some(
                "Created new Shape Layer \""@ + name@ + "\" to paint on"@,
            ),
            ShapeTargetDecision::UnavailableOnFoundation { tool_label } => Some(
                tool_label@ + " isn't supported by the selected Foundation layer"@,
            ),
        }
    }

    /// Settles the layer that the brush writes. A layer that is created changes
    /// the topology of the plan once, at the start of the gesture; later dabs
    /// find it selected and leave the plan alone.
    pub fn ensure_shape_history_target(
        &mut self,
        eval: &mut EvalState,
        decision: ShapeTargetDecision,
    ) -> (r: Option<LayerId>)
        ensures
            match decision {
                ShapeTargetDecision::UseExisting { id, keeps_strokes, .. } => {
                    &&& r == Some(id)
                    &&& *final(self) == (ShapeSession {
                        selected: Some(id),
                        session_layer: if keeps_strokes {
                            Some(id)
                        } else {
                            old(self).session_layer
                        },
                    })
                    &&& final(eval).pending_plan_edits == old(eval).pending_plan_edits
                },
                ShapeTargetDecision::CreateNew { id, .. } => {
                    &&& r == Some(id)
                    &&& *final(self) == (ShapeSession {
                        selected: Some(id),
                        session_layer: Some(id),
                    })
                    &&& final(eval).pending_plan_edits@ == old(eval).pending_plan_edits@.push(
                        PlanEdit::Structure,
                    )
                },
                ShapeTargetDecision::UnavailableOnFoundation { .. } => {
                    &&& r is None
                    &&& *final(self) == *old(self)
                    &&& final(eval).pending_plan_edits == old(eval).pending_plan_edits
                },
            },
            old(self).target_words(decision) matches Some(words) ==> final(eval).texts.status@
                == words,
            old(self).target_words(decision) is None ==> final(eval).texts.status == old(
                eval,
            ).texts.status,
            final(eval).texts == (EvalTexts {
                status: final(eval).texts.status,
                ..old(eval).texts
            }),
            final(eval).core == old(eval).core,
            final(eval).ui == old(eval).ui,
            final(eval).deferred_full_field == old(eval).deferred_full_field,
    {
        match decision {
            ShapeTargetDecision::UseExisting { id, keeps_strokes, name } => {
                let moved = self.selected != Some(id);
                if keeps_strokes {
                    self.session_layer = Some(id);
                }
                self.selected = Some(id);
                if moved {
                    let mut status = "Brush is painting on Shape Layer \"".to_owned();
                    match name {
                        Some(name) => {
                            status.append(name.as_str());
                        },
                        None => {
                            status.append("Shape Layer");
                        },
                    }
                    status.append("\"");
                    eval.texts.status = status;
                }
                Some(id)
            },
            ShapeTargetDecision::CreateNew { id, name } => {
                self.selected = Some(id);
                self.session_layer = Some(id);
                eval.pending_plan_edits.push(PlanEdit::Structure);
                let mut status = "Created new Shape Layer \"".to_owned();
                status.append(name.as_str());
                status.append("\" to paint on");
                eval.texts.status = status;
                Some(id)
            },
            ShapeTargetDecision::UnavailableOnFoundation { tool_label } => {
                let mut status = tool_label;
                status.append(" isn't supported by the selected Foundation layer");
                eval.texts.status = status;
                None
            },
        }
    }
}

impl EvalState {
    /// A shape stroke outdates the layer of the session, else the selected one,
    /// and what follows it. The result is that layer, and what it dirties outside
    /// the evaluation state.
    pub fn mark_shape_dependents_outdated(
        &mut self,
        layers: &[StackLayer],
        session: &ShapeSession,
    ) -> (r: (Option<LayerId>, Vec<EvalEffect>))
        ensures
            r.0 == match session.session_layer {
                Some(id) => Some(id),
                None => session.selected,
            },
            match r.0 {
                None => *final(self) == *old(self) && r.1@ == Seq::<EvalEffect>::empty(),
                Some(id) => {
                    &&& r.1@ == Self::suffix_dirt(id)
                    &&& final(self).pending_plan_edits@ == old(self).pending_plan_edits@.push(
                        PlanEdit::Parameters { node: NodeRef::Layer(id) },
                    )
                    &&& final(self).core == (EvalCore {
                        worker_dirty: old(self).core.worker_dirty.with_edit(layers@, id, None),
                        ..old(self).core
                    })
                    &&& final(self).ui == old(self).ui
                    &&& final(self).texts == old(self).texts
                    &&& final(self).deferred_full_field == old(self).deferred_full_field
                },
            },
    {
        let target = Self::shape_dirty_target(session.session_layer, session.selected);
        let effects = match target {
            Some(id) => self.mark_dirty_from(layers, id),
            None => Vec::new(),
        };
        (target, effects)
    }

    /// Shows what an upstream change sets in motion, on one line.
    pub fn show_upstream_feedback(&mut self, feedback: &str)
        ensures
            final(self).texts.status@ == crate::text::on_one_line(feedback@, " Â· "@),
            final(self).texts == (EvalTexts {
                status: final(self).texts.status,
                ..old(self).texts
            }),
            final(self).core == old(self).core,
            final(self).ui == old(self).ui,
            final(self).deferred_full_field == old(self).deferred_full_field,
            final(self).pending_plan_edits == old(self).pending_plan_edits,
    {
        self.texts.status = join_lines(feedback, " Â· ");
    }
}

/// A layer of the stack, as far as shape authoring looks at it.
#[derive(Debug, Clone, Copy, PartialEq, Eq, Structural)]
pub struct ConstraintSight {
    pub id: LayerId,
    /// The layer holds terrain constraints.
    pub holds_constraints: bool,
}

/// Where shape objects are compiled to.
#[derive(Debug, Clone, Copy, PartialEq, Eq, Structural)]
pub enum AuthoringTarget {
    /// The layer that is managed already.
    Managed(LayerId),
    /// An existing layer, which is managed from now on.
    Adopt(LayerId),
    /// Create one.
    Create,
}

/// The stack has the layer.
pub open spec fn in_stack(layers: Seq<ConstraintSight>, id: LayerId) -> bool {
    exists|i: int| #![trigger layers[i]] 0 <= i < layers.len() && layers[i].id == id
}

fn stack_has(layers: &[ConstraintSight], id: LayerId) -> (r: bool)
    ensures
        r == in_stack(layers@, id),
{
    let mut i: usize = 0;
    while i < layers.len()
        invariant
            i <= layers@.len(),
            forall|j: int| #![trigger layers@[j]] 0 <= j < i ==> layers@[j].id != id,
        decreases layers@.len() - i,
    {
        if layers[i].id == id {
            assert(layers@[i as int].id == id);
            return true;
        }
        i += 1;
    }
    false
}

fn first_constraints(layers: &[ConstraintSight]) -> (r: Option<LayerId>)
    ensures
        match r {
            Some(id) => exists|i: int|
                #![trigger layers@[i]]
                {
                    &&& 0 <= i < layers@.len()
                    &&& layers@[i].id == id
                    &&& layers@[i].holds_constraints
                    &&& forall|j: int|
                        #![trigger layers@[j]]
                        0 <= j < i ==> !layers@[j].holds_constraints
                },
            None => forall|j: int|
                #![trigger layers@[j]]
                0 <= j < layers@.len() ==> !layers@[j].holds_constraints,
        },
{
    let mut i: usize = 0;
    while i < layers.len()
        invariant
            i <= layers@.len(),
            forall|j: int| #![trigger layers@[j]] 0 <= j < i ==> !layers@[j].holds_constraints,
        decreases layers@.len() - i,
    {
        let layer = layers[i];
        if layer.holds_constraints {
            assert(layers@[i as int].holds_constraints);
            return Some(layer.id);
        }
        i += 1;
    }
    None
}

/// Finds the layer that shape objects are compiled to: the managed one while it
/// exists, else the first that holds constraints, else a new one.
pub fn ensure_shape_authoring_layer(managed: Option<LayerId>, layers: &[ConstraintSight]) -> (r:
    AuthoringTarget)
    ensures
        match r {
            AuthoringTarget::Managed(id) => managed == Some(id) && in_stack(layers@, id),
            AuthoringTarget::Adopt(id) => {
                &&& managed matches Some(old) ==> !in_stack(layers@, old)
                &&& exists|i: int|
                    #![trigger layers@[i]]
                    {
                        &&& 0 <= i < layers@.len()
                        &&& layers@[i].id == id
                        &&& layers@[i].holds_constraints
                        &&& forall|j: int|
                            #![trigger layers@[j]]
                            0 <= j < i ==> !layers@[j].holds_constraints
                    }
            },
            AuthoringTarget::Create => {
                &&& managed matches Some(old) ==> !in_stack(layers@, old)
                &&& forall|j: int|
                    #![trigger layers@[j]]
                    0 <= j < layers@.len() ==> !layers@[j].holds_constraints
            },
        },
{
    if let Some(id) = managed {
        if stack_has(layers, id) {
            return AuthoringTarget::Managed(id);
        }
    }
    match first_constraints(layers) {
        Some(id) => AuthoringTarget::Adopt(id),
        None => AuthoringTarget::Create,
    }
}

fn bookmark_text(head: &str, index: usize) -> (r: String)
    requires
        index < 9,
    ensures
        r@ == head@ + crate::text::decimal((index + 1) as nat),
{
    let mut text = head.to_owned();
    push_decimal(&mut text, (index + 1) as u64);
    text
}

/// The status line of a saved bookmark; without a renderer nothing is saved.
pub fn save_camera_bookmark(index: usize, has_renderer: bool) -> (r: Option<String>)
    requires
        index < 9,
    ensures
        crate::eval::opt_text(r) == if has_renderer {
            Some("Saved camera bookmark "@ + crate::text::decimal((index + 1) as nat))
        } else {
            None
        },
{
    if has_renderer {
        Some(bookmark_text("Saved camera bookmark ", index))
    } else {
        None
    }
}

/// What came of recalling a bookmark.
#[derive(Debug)]
pub struct BookmarkRecall {
    /// Move the camera there.
    pub moves: bool,
    pub status: Option<String>,
}

/// Recalls a bookmark. An empty one is named; a full one needs a renderer.
pub fn recall_camera_bookmark(index: usize, occupied: bool, has_renderer: bool) -> (r:
    BookmarkRecall)
    requires
        index < 9,
    ensures
        r.moves == (occupied && has_renderer),
        crate::eval::opt_text(r.status) == if !occupied {
            Some(
                "Camera bookmark "@ + crate::text::decimal((index + 1) as nat) + " is empty"@,
            )
        } else if has_renderer {
            Some("Recalled camera bookmark "@ + crate::text::decimal((index + 1) as nat))
        } else {
            None
        },
{
    if !occupied {
        let mut status = bookmark_text("Camera bookmark ", index);
        status.append(" is empty");
        return BookmarkRecall { moves: false, status: Some(status) };
    }
    if has_renderer {
        BookmarkRecall {
            moves: true,
            status: Some(bookmark_text("Recalled camera bookmark ", index)),
        }
    } else {
        BookmarkRecall { moves: false, status: None }
    }
}

/// A step through the history never loses dirt that was pending.
pub proof fn history_keeps_pending_dirt(
    kind: HistoryKind,
    scope: WorkerDirty,
    layers: Seq<StackLayer>,
    impact: CommandImpact,
    index: int,
    u: u32,
    v: u32,
)
    requires
        scope.covers(layers, index, u, v),
    ensures
        kind.scope_after(scope, layers, impact).covers(layers, index, u, v),
{
    if let CommandImpact::Layer(id) = impact {
        if kind == HistoryKind::Document {
            crate::dirty::tracking_keeps_pending_dirt(scope, layers, id, None, index, u, v);
        }
    }
}

/// A gesture changes the topology of the plan once: the layer that a first dab
/// created is the one that later dabs of the gesture find selected, and finding
/// it says and changes nothing.
pub proof fn continuing_dabs_leave_the_topology_alone(
    session: ShapeSession,
    id: LayerId,
    name: Option<String>,
)
    requires
        session.selected == Some(id),
        session.session_layer == Some(id),
    ensures
        session.target_words(
            ShapeTargetDecision::UseExisting { id, keeps_strokes: true, name },
        ) is None,
{
}

/// In the editor a command does what it is named for; outside it only new and opened
/// projects are more than ignored. A workspace command comes first in the editor.
pub proof fn commands_do_what_they_are_named_for(
    command: CommandId,
    in_editor: bool,
    names_workspace: bool,
    step: CommandStep,
)
    requires
        call_ensures(dispatch_command, (command, in_editor, names_workspace), step),
    ensures
        in_editor && names_workspace ==> step is SwitchWorkspace,
        !(in_editor && names_workspace) ==> {
            &&& command is NewProject ==> step == CommandStep::Project(PendingProjectAction::New)
            &&& command is OpenProject ==> step == CommandStep::Project(PendingProjectAction::Open)
            &&& command is Other ==> step is Ignore
            &&& !in_editor && !(command is NewProject) && !(command is OpenProject) ==> step
                is Ignore
            &&& in_editor && command is Undo ==> step is Undo
            &&& in_editor && command is Redo ==> step is Redo
            &&& in_editor && command is Save ==> step is Save
            &&& in_editor && command is SaveAs ==> step is SaveAs
            &&& in_editor && command is FrameTerrain ==> step is FrameTerrain
            &&& in_editor && command is OpenCommandPalette ==> step is ShowCommandPalette
            &&& in_editor && command is OpenQuickAdd ==> step is ShowQuickAdd
            &&& in_editor && command is CloseProject ==> step == CommandStep::Project(
                PendingProjectAction::Close,
            )
        },
{
}

/// Undo and redo both end with the document's own history, and redo tries nothing
/// that undo does not, in the same order.
pub proof fn the_document_is_the_last_history(
    undo: Vec<HistoryKind>,
    redo: Vec<HistoryKind>,
)
    requires
        call_ensures(undo_order, (), undo),
        call_ensures(redo_order, (), redo),
    ensures
        undo@.len() == 5,
        undo@[0] is MaskPaint,
        undo@[1] is WorldRule,
        undo@[2] is Scenario,
        undo@[3] is BiomePaint,
        undo@.last() is Document,
        redo@.len() == 3,
        redo@[0] is WorldRule,
        redo@[1] is Scenario,
        redo@.last() is Document,
{
}

/// Every undone or redone entry but a scenario's rebuilds the terrain under the new
/// token, and whatever it touched is recomputed: the layer of a layer edit and all
/// behind it, and everything otherwise. A scenario is a recipe, and changes nothing
/// that is evaluated. Masks are drawn again where they were touched, and the index of
/// an infinite project is built again behind its document's own history.
pub proof fn history_steps_rebuild_what_they_touched(
    state: &mut EvalState,
    kind: HistoryKind,
    undo: bool,
    impact: CommandImpact,
    infinite: bool,
    layers: &[StackLayer],
    token: u64,
    name: Option<String>,
    debounce: u64,
    now: Instant,
    timing: RefineTiming,
    outcome: (HistoryOutcome, Vec<EvalEffect>),
    index: int,
    u: u32,
    v: u32,
)
    requires
        call_ensures(
            EvalState::apply_history_step,
            (state, kind, undo, impact, infinite, layers, token, name, debounce, now, timing),
            outcome,
        ),
        impact matches CommandImpact::Layer(id) ==> (crate::dirty::first_position(
            layers@,
            id,
        ) matches Some(at) ==> at <= index),
    ensures
        kind is Scenario ==> !outcome.0.rebuilds && outcome.1@.len() == 0 && final(state).core
            == old(state).core && final(state).pending_plan_edits@ == old(state).pending_plan_edits@,
        !(kind is Scenario) ==> {
            &&& outcome.0.rebuilds
            &&& final(state).core.eval_token == token
            &&& final(state).core.pending_eval
            &&& final(state).core.force_draft
            &&& !final(state).core.worker_refine_pending
            &&& final(state).core.refinement_job is None
            &&& final(state).core.worker_dirty.covers(layers@, index, u, v)
            &&& final(state).pending_plan_edits@.len() == old(state).pending_plan_edits@.len() + 1
            &&& kind is Document ==> (impact matches CommandImpact::Layer(id) ==> final(state).pending_plan_edits@.last() == (PlanEdit::Parameters { node: NodeRef::Layer(id) }))
            &&& !(kind is Document && impact is Layer) ==> final(state).pending_plan_edits@.last()
                is Structure
        },
        outcome.0.mask_overlay_dirty <==> kind is MaskPaint || (kind is Document && impact
            is Masks),
        outcome.0.mask_overlay_dirty ==> final(state).core.preview_dirty,
        outcome.0.rebuild_index <==> kind is Document && infinite,
{
    if let CommandImpact::Layer(id) = impact {
        if crate::dirty::first_position(layers@, id) is Some {
            crate::dirty::tracking_covers_the_edit(
                old(state).core.worker_dirty,
                layers@,
                id,
                None,
                index,
                u,
                v,
            );
        }
    }
}

/// What a history step dirties outside the evaluation state: the layer of a layer
/// edit, nothing for a scenario, and everything otherwise.
pub proof fn history_dirt_fits_the_step(kind: HistoryKind, impact: CommandImpact)
    ensures
        kind is Scenario ==> kind.dirt(impact).len() == 0,
        kind is Document ==> (impact matches CommandImpact::Layer(id) ==> kind.dirt(
            impact,
        ).contains(EvalEffect::EvaluatorDirtyFrom(id)) && kind.dirt(impact).contains(
            EvalEffect::GpuMarkDirtyFrom(id),
        )),
        !(kind is Scenario) && !(kind is Document && impact is Layer) ==> kind.dirt(
            impact,
        ).contains(EvalEffect::EvaluatorAllDirty) && kind.dirt(impact).contains(
            EvalEffect::GpuMarkAllDirty,
        ),
        kind.words(true) is Some <==> !(kind is Document),
        kind.words(false) is Some <==> kind is WorldRule || kind is Scenario,
{
    if let CommandImpact::Layer(id) = impact {
        crate::eval::dirt_reaches_both_evaluators(id);
    }
    crate::eval::dirt_reaches_both_evaluators(LayerId(0));
}

/// The brush writes the layer that was decided: it is selected, and a layer that
/// keeps strokes or is new becomes that of the session. Only a new layer changes the
/// topology of the plan. A refused brush changes no selection.
pub proof fn brushes_write_the_decided_layer(
    session: &mut ShapeSession,
    state: &mut EvalState,
    decision: ShapeTargetDecision,
    target: Option<LayerId>,
)
    requires
        call_ensures(
            ShapeSession::ensure_shape_history_target,
            (session, state, decision),
            target,
        ),
    ensures
        decision matches ShapeTargetDecision::UseExisting { id, keeps_strokes, .. } ==> {
            &&& target == Some(id)
            &&& final(session).selected == Some(id)
            &&& keeps_strokes ==> final(session).session_layer == Some(id)
            &&& !keeps_strokes ==> final(session).session_layer == old(session).session_layer
            &&& final(state).pending_plan_edits == old(state).pending_plan_edits
            &&& old(session).selected == Some(id) ==> final(state).texts.status == old(state).texts.status
        },
        decision matches ShapeTargetDecision::CreateNew { id, .. } ==> {
            &&& target == Some(id)
            &&& final(session).selected == Some(id)
            &&& final(session).session_layer == Some(id)
            &&& final(state).pending_plan_edits@.len() == old(state).pending_plan_edits@.len() + 1
            &&& final(state).pending_plan_edits@.last() is Structure
        },
        decision is UnavailableOnFoundation ==> target is None && *final(session) == *old(session)
            && final(state).pending_plan_edits == old(state).pending_plan_edits,
        final(state).core == old(state).core,
{
}

/// A shape stroke outdates the layer of its session, or else the selected one, and
/// everything behind it.
pub proof fn shape_strokes_outdate_their_layer(
    state: &mut EvalState,
    layers: &[StackLayer],
    session: &ShapeSession,
    outdated: (Option<LayerId>, Vec<EvalEffect>),
    index: int,
    u: u32,
    v: u32,
)
    requires
        call_ensures(EvalState::mark_shape_dependents_outdated, (state, layers, session), outdated),
    ensures
        session.session_layer is Some ==> outdated.0 == session.session_layer,
        session.session_layer is None ==> outdated.0 == session.selected,
        outdated.0 is None ==> *final(state) == *old(state) && outdated.1@.len() == 0,
        outdated.0 matches Some(id) ==> {
            &&& (crate::dirty::first_position(layers@, id) matches Some(at) ==> at <= index)
                ==> final(state).core.worker_dirty.covers(layers@, index, u, v)
            &&& final(state).pending_plan_edits@.last() == (PlanEdit::Parameters {
                node: NodeRef::Layer(id),
            })
            &&& outdated.1@.contains(EvalEffect::GpuMarkDirtyFrom(id))
            &&& outdated.1@.contains(EvalEffect::EvaluatorDirtyFrom(id))
        },
{
    if let Some(id) = outdated.0 {
        crate::eval::dirt_reaches_both_evaluators(id);
        if crate::dirty::first_position(layers@, id) matches Some(at) && at <= index {
            crate::dirty::tracking_covers_the_edit(
                old(state).core.worker_dirty,
                layers@,
                id,
                None,
                index,
                u,
                v,
            );
        }
    }
}

/// The camera moves to a bookmark that was saved, where there is a renderer, and an
/// empty one is named. Nothing is saved without a renderer.
pub proof fn bookmarks_need_a_renderer(
    at: usize,
    occupied: bool,
    renderer: bool,
    recall: BookmarkRecall,
    saved: Option<String>,
)
    requires
        at < 9,
        call_ensures(recall_camera_bookmark, (at, occupied, renderer), recall),
        call_ensures(save_camera_bookmark, (at, renderer), saved),
    ensures
        recall.moves <==> occupied && renderer,
        !occupied ==> recall.status is Some,
        occupied ==> (recall.status is Some <==> renderer),
        saved is Some <==> renderer,
{
}

/// A workspace outdates the tint where its colours change and always for biomes.
pub proof fn biome_workspaces_outdate_the_tint(changed: bool, biomes: bool, outdates: bool)
    requires
        call_ensures(workspace_outdates_tint, (changed, biomes), outdates),
    ensures
        changed ==> outdates,
        biomes ==> outdates,
        !changed && !biomes ==> !outdates,
{
}

/// A managed layer that the stack has is worked on, and no other layer counts as
/// managed; a layer that is adopted holds constraints.
pub proof fn shapes_are_authored_on_a_layer_of_theirs(
    managed: Option<LayerId>,
    layers: &[ConstraintSight],
    target: AuthoringTarget,
)
    requires
        call_ensures(ensure_shape_authoring_layer, (managed, layers), target),
    ensures
        managed matches Some(id) ==> (in_stack(layers@, id) ==> target == AuthoringTarget::Managed(
            id,
        )),
        managed is None ==> !(target is Managed),
        managed matches Some(id) ==> (!in_stack(layers@, id) ==> !(target is Managed)),
        target matches AuthoringTarget::Adopt(id) ==> exists|i: int|
            #![trigger layers@[i]]
            0 <= i < layers@.len() && layers@[i].id == id && layers@[i].holds_constraints,
{
}

} // verus!
