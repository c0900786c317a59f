//! Simulation scenarios: their commands, runs and bindings to layers.
use vstd::prelude::*;

use super::ApplyCtx;
use crate::dirty::{LayerId, StackLayer, WorkerDirty};

verus! {

#[derive(Debug, Clone, Copy, PartialEq, Eq, Structural)]
pub struct ScenarioId(pub u128);

/// A scenario, as far as the panel reads it: the identities of its passes and
/// its snapshots as texts, and how many matter simulations it holds.
#[derive(Debug)]
pub struct ScenarioEntry {
    pub id: ScenarioId,
    pub enabled: bool,
    pub passes: Vec<String>,
    pub snapshots: Vec<String>,
    pub matters: usize,
}

/// The scenarios of a document, the one that is selected, and the layers whose
/// simulation is out of date.
#[derive(Debug)]
pub struct ScenarioPanel {
    pub scenarios: Vec<ScenarioEntry>,
    pub selected: Option<ScenarioId>,
    pub outdated: Vec<LayerId>,
}

/// How an edited copy of a scenario differs from it.
#[derive(Debug)]
pub enum ScenarioEdit {
    Reset,
    /// A pass of the kind is added.
    AddPass { kind: u16 },
    /// The pass at `pass` goes to `to_index`.
    MovePass { pass: usize, to_index: usize },
    /// Painting of sources is switched for the matter simulation at `matter`;
    /// without one the copy is the same.
    PaintSources { matter: Option<usize>, enabled: bool },
    /// The fields that the matter simulation at `matter` applies, by their
    /// numbers, from which the scenario's outputs follow; without one the copy
    /// is the same.
    ApplySelected { matter: Option<usize>, fields: Vec<u16> },
}

/// What a new scenario holds.
#[derive(Debug)]
pub enum NewScenario {
    /// Nothing but its name.
    Named { name: String },
    ContinentalHydrology,
    /// The passes of a simulation of the matter, which is given by its number,
    /// and the simulation itself.
    Matter { matter: u16 },
}

/// An undoable change of the scenario list.
#[derive(Debug)]
pub enum ScenarioCommand {
    /// Insert the new scenario at `index`.
    Add { scenario: NewScenario, index: usize },
    SetEnabled { id: ScenarioId, enabled: bool, previous: bool },
    /// Replace the scenario by its edited copy.
    Replace { id: ScenarioId, edit: ScenarioEdit },
}

/// An action on scenarios. Snapshots and passes are named by the texts of their
/// identities.
#[derive(Debug)]
pub enum ScenarioAction {
    AddSimulationScenario { name: String },
    AddContinentalHydrologyPreset,
    /// `label` is how the matter is shown.
    AddMatterSimScenario { matter: u16, label: String },
    SelectSimulationScenario(ScenarioId),
    SetSimulationScenarioEnabled { id: ScenarioId, enabled: bool },
    RunSimulationScenario(ScenarioId),
    CancelSimulationScenario(ScenarioId),
    ResetSimulationScenario(ScenarioId),
    RebuildSimulationScenario(ScenarioId),
    FreezeScenarioResult { id: ScenarioId, snapshot: Option<String> },
    PreviewScenarioSnapshot { id: ScenarioId, snapshot: String },
    CompareScenarioSnapshot { id: ScenarioId, snapshot: Option<String> },
    ApplyScenarioOutputs { id: ScenarioId, snapshot: Option<String> },
    AddScenarioPass { id: ScenarioId, kind: u16 },
    ReorderScenarioPass { id: ScenarioId, pass: String, to_index: usize },
    SetMatterSourcePaint { id: ScenarioId, matter_index: usize, enabled: bool },
    SetMatterApplySelected { id: ScenarioId, matter_index: usize, fields: Vec<u16> },
}

/// What an action asks of a scenario itself, before the rest of it is applied.
/// `at` is the scenario's place in the list, a snapshot or pass is given by its
/// place in the scenario.
#[derive(Debug, Clone, Copy, PartialEq, Eq, Structural)]
pub enum ScenarioCall {
    /// Begin a run, and end it as `end_of_run` says.
    Run { at: usize },
    /// Request a cancellation, and mark the scenario cancelled.
    Cancel { at: usize },
    Rebuild { at: usize },
    /// Freeze the snapshot, or the current result.
    Freeze { at: usize, snapshot: Option<usize> },
    Preview { at: usize, snapshot: usize },
    Compare { at: usize, snapshot: Option<usize> },
    ApplyOutputs { at: usize, snapshot: Option<usize> },
    /// Try the move on a copy.
    MovePass { at: usize, pass: usize, to_index: usize },
}

/// What the scenario answered.
#[derive(Debug)]
pub struct CallAnswer {
    /// Whether a freeze, a preview or a move took place.
    pub accepted: bool,
    /// The number of output fields that were applied.
    pub fields: usize,
    /// The layers that the passes of a run are bound to.
    pub bound: Vec<LayerId>,
}

/// What an action asks for.
#[derive(Debug)]
pub struct ScenarioReply {
    pub command: Option<ScenarioCommand>,
    /// Dirty the hydrology stages in the interface thread's evaluator, and
    /// rebuild.
    pub rebuild_hydrology: bool,
    pub select_paint_tool: bool,
    pub status: Option<String>,
}

/// Position of the first scenario `id`.
pub open spec fn scenario_position(scenarios: Seq<ScenarioEntry>, id: ScenarioId) -> Option<int>
    decreases scenarios.len(),
{
    if scenarios.len() == 0 {
        None
    } else {
        match scenario_position(scenarios.drop_last(), id) {
            Some(at) => Some(at),
            None => if scenarios.last().id == id {
                Some(scenarios.len() - 1)
            } else {
                None
            },
        }
    }
}

fn find_scenario(scenarios: &[ScenarioEntry], id: ScenarioId) -> (r: Option<usize>)
    ensures
        match r {
            Some(at) => scenario_position(scenarios@, id) == Some(at as int) && at
                < scenarios@.len(),
            None => scenario_position(scenarios@, id) is None,
        },
{
    let mut found: Option<usize> = None;
    let mut i: usize = 0;
    assert(scenarios@.take(0) =~= Seq::<ScenarioEntry>::empty());
    while i < scenarios.len()
        invariant
            i <= scenarios@.len(),
            match found {
                Some(at) => scenario_position(scenarios@.take(i as int), id) == Some(at as int)
                    && at < i,
                None => scenario_position(scenarios@.take(i as int), id) is None,
            },
        decreases scenarios@.len() - i,
    {
        assert(scenarios@.take(i + 1).drop_last() =~= scenarios@.take(i as int));
        if found.is_none() && scenarios[i].id == id {
            found = Some(i);
        }
        i += 1;
    }
    assert(scenarios@.take(i as int) =~= scenarios@);
    found
}

/// Position of the first of `texts` that reads `wanted`.
pub open spec fn text_position(texts: Seq<String>, wanted: Seq<char>) -> Option<int>
    decreases texts.len(),
{
    if texts.len() == 0 {
        None
    } else {
        match text_position(texts.drop_last(), wanted) {
            Some(at) => Some(at),
            None => if texts.last()@ == wanted {
                Some(texts.len() - 1)
            } else {
                None
            },
        }
    }
}

/// Position of the identity that reads `wanted`.
pub fn find_text(texts: &Vec<String>, wanted: &str) -> (r: Option<usize>)
    ensures
        match r {
            Some(at) => text_position(texts@, wanted@) == Some(at as int) && at < texts@.len(),
            None => text_position(texts@, wanted@) is None,
        },
{
    let mut found: Option<usize> = None;
    let mut i: usize = 0;
    assert(texts@.take(0) =~= Seq::<String>::empty());
    while i < texts.len()
        invariant
            i <= texts@.len(),
            match found {
                Some(at) => text_position(texts@.take(i as int), wanted@) == Some(at as int) && at
                    < i,
                None => text_position(texts@.take(i as int), wanted@) is None,
            },
        decreases texts@.len() - i,
    {
        assert(texts@.take(i + 1).drop_last() =~= texts@.take(i as int));
        if found.is_none() && crate::text::same_text(texts[i].as_str(), wanted) {
            found = Some(i);
        }
        i += 1;
    }
    assert(texts@.take(i as int) =~= texts@);
    found
}

/// A position as an index.
pub open spec fn as_index(at: Option<int>) -> Option<usize> {
    match at {
        Some(at) => Some(at as usize),
        None => None,
    }
}

/// The snapshot that a choice names: none where nothing is chosen, or where the
/// scenario has no such snapshot.
pub open spec fn chosen_snapshot(entry: ScenarioEntry, choice: Option<String>) -> Option<usize> {
    match choice {
        Some(wanted) => as_index(text_position(entry.snapshots@, wanted@)),
        None => None,
    }
}

fn choose_snapshot(entry: &ScenarioEntry, choice: &Option<String>) -> (r: Option<usize>)
    ensures
        r == chosen_snapshot(*entry, *choice),
{
    match choice {
        Some(wanted) => find_text(&entry.snapshots, wanted.as_str()),
        None => None,
    }
}

/// The matter simulation at `index`, if the scenario has one.
pub open spec fn matter_at(entry: ScenarioEntry, index: usize) -> Option<usize> {
    if index < entry.matters {
        Some(index)
    } else {
        None
    }
}

/// Elements of `from` that do not occur in `gone`, in order.
pub open spec fn without_all(from: Seq<LayerId>, gone: Seq<LayerId>) -> Seq<LayerId> {
    from.filter(|id: LayerId| !gone.contains(id))
}

fn contains(ids: &Vec<LayerId>, id: LayerId) -> (r: bool)
    ensures
        r == ids@.contains(id),
{
    let mut i: usize = 0;
    while i < ids.len()
        invariant
            i <= ids@.len(),
            forall|j: int| #![trigger ids@[j]] 0 <= j < i ==> ids@[j] != id,
        decreases ids@.len() - i,
    {
        if ids[i] == id {
            assert(ids@[i as int] == id);
            return true;
        }
        i += 1;
    }
    false
}

/// Clears the outdated badge of every layer that a run recomputes.
pub fn clear_outdated(outdated: &Vec<LayerId>, bound: &Vec<LayerId>) -> (r: Vec<LayerId>)
    ensures
        r@ == without_all(outdated@, bound@),
{
    let ghost rule = |id: LayerId| !bound@.contains(id);
    let mut kept: Vec<LayerId> = Vec::new();
    let mut i: usize = 0;
    while i < outdated.len()
        invariant
            i <= outdated@.len(),
            rule == (|id: LayerId| !bound@.contains(id)),
            kept@ == outdated@.take(i as int).filter(rule),
        decreases outdated@.len() - i,
    {
        let id = outdated[i];
        proof {
            let front = outdated@.take(i as int);
            assert(outdated@.take(i + 1) =~= front.push(id));
            assert(front.push(id).drop_last() =~= front);
            reveal(Seq::filter);
        }
        if !contains(bound, id) {
            kept.push(id);
        }
        i += 1;
    }
    assert(outdated@.take(i as int) =~= outdated@);
    kept
}

/// How a synchronous run ends.
#[derive(Debug, Clone, Copy, PartialEq, Eq, Structural)]
pub enum RunEnd {
    Cancelled,
    /// Complete under the generation after the evaluator's.
    Complete { generation: u64 },
}

/// A run that was cancelled while it began ends as cancelled.
pub fn end_of_run(cancel_requested: bool, evaluator_generation: u64) -> (r: RunEnd)
    ensures
        r == if cancel_requested {
            RunEnd::Cancelled
        } else {
            RunEnd::Complete {
                generation: vstd::wrapping::u64_specs::wrapping_add(evaluator_generation, 1),
            }
        },
{
    if cancel_requested {
        RunEnd::Cancelled
    } else {
        RunEnd::Complete { generation: evaluator_generation.wrapping_add(1) }
    }
}

impl ScenarioAction {
    /// The scenario that the action is about.
    pub open spec fn subject(self) -> Option<ScenarioId> {
        match self {
            ScenarioAction::AddSimulationScenario { .. }
            | ScenarioAction::AddContinentalHydrologyPreset
            | ScenarioAction::AddMatterSimScenario { .. } => None,
            ScenarioAction::SelectSimulationScenario(id)
            | ScenarioAction::RunSimulationScenario(id)
            | ScenarioAction::CancelSimulationScenario(id)
            | ScenarioAction::ResetSimulationScenario(id)
            | ScenarioAction::RebuildSimulationScenario(id) => Some(id),
            ScenarioAction::SetSimulationScenarioEnabled { id, .. } => Some(id),
            ScenarioAction::FreezeScenarioResult { id, .. } => Some(id),
            ScenarioAction::PreviewScenarioSnapshot { id, .. } => Some(id),
            ScenarioAction::CompareScenarioSnapshot { id, .. } => Some(id),
            ScenarioAction::ApplyScenarioOutputs { id, .. } => Some(id),
            ScenarioAction::AddScenarioPass { id, .. } => Some(id),
            ScenarioAction::ReorderScenarioPass { id, .. } => Some(id),
            ScenarioAction::SetMatterSourcePaint { id, .. } => Some(id),
            ScenarioAction::SetMatterApplySelected { id, .. } => Some(id),
        }
    }

    fn scenario(&self) -> (r: Option<ScenarioId>)
        ensures
            r == self.subject(),
    {
        match self {
            ScenarioAction::AddSimulationScenario { .. }
            | ScenarioAction::AddContinentalHydrologyPreset
            | ScenarioAction::AddMatterSimScenario { .. } => None,
            ScenarioAction::SelectSimulationScenario(id)
            | ScenarioAction::RunSimulationScenario(id)
            | ScenarioAction::CancelSimulationScenario(id)
            | ScenarioAction::ResetSimulationScenario(id)
            | ScenarioAction::RebuildSimulationScenario(id) => Some(*id),
            ScenarioAction::SetSimulationScenarioEnabled { id, .. } => Some(*id),
            ScenarioAction::FreezeScenarioResult { id, .. } => Some(*id),
            ScenarioAction::PreviewScenarioSnapshot { id, .. } => Some(*id),
            ScenarioAction::CompareScenarioSnapshot { id, .. } => Some(*id),
            ScenarioAction::ApplyScenarioOutputs { id, .. } => Some(*id),
            ScenarioAction::AddScenarioPass { id, .. } => Some(*id),
            ScenarioAction::ReorderScenarioPass { id, .. } => Some(*id),
            ScenarioAction::SetMatterSourcePaint { id, .. } => Some(*id),
            ScenarioAction::SetMatterApplySelected { id, .. } => Some(*id),
        }
    }

    /// Place of the scenario that the action is about, where the list holds it.
    pub open spec fn place(self, scenarios: Seq<ScenarioEntry>) -> Option<int> {
        match self.subject() {
            Some(id) => scenario_position(scenarios, id),
            None => None,
        }
    }

    /// What the action asks of its scenario; nothing where the list does not
    /// hold it, nor of a snapshot or pass that the scenario does not have.
    pub open spec fn asks(self, scenarios: Seq<ScenarioEntry>) -> Option<ScenarioCall> {
        match self.place(scenarios) {
            None => None,
            Some(place) => {
                let entry = scenarios[place];
                let at = place as usize;
                match self {
                    ScenarioAction::RunSimulationScenario(_) => Some(ScenarioCall::Run { at }),
                    ScenarioAction::CancelSimulationScenario(_) => Some(ScenarioCall::Cancel { at }),
                    ScenarioAction::RebuildSimulationScenario(_) => Some(
                        ScenarioCall::Rebuild { at },
                    ),
                    ScenarioAction::FreezeScenarioResult { snapshot, .. } => Some(
                        ScenarioCall::Freeze { at, snapshot: chosen_snapshot(entry, snapshot) },
                    ),
                    ScenarioAction::PreviewScenarioSnapshot { snapshot, .. } => match text_position(
                        entry.snapshots@,
                        snapshot@,
                    ) {
                        Some(shown) => Some(ScenarioCall::Preview { at, snapshot: shown as usize }),
                        None => None,
                    },
                    ScenarioAction::CompareScenarioSnapshot { snapshot, .. } => Some(
                        ScenarioCall::Compare { at, snapshot: chosen_snapshot(entry, snapshot) },
                    ),
                    ScenarioAction::ApplyScenarioOutputs { snapshot, .. } => Some(
                        ScenarioCall::ApplyOutputs {
                            at,
                            snapshot: chosen_snapshot(entry, snapshot),
                        },
                    ),
                    ScenarioAction::ReorderScenarioPass { pass, to_index, .. } => match text_position(
                        entry.passes@,
                        pass@,
                    ) {
                        Some(moved) => Some(
                            ScenarioCall::MovePass { at, pass: moved as usize, to_index },
                        ),
                        None => None,
                    },
                    _ => None,
                }
            },
        }
    }
}

/// What the action asks of its scenario. The caller makes the call, and hands
/// the answer to `try_apply`. A run comes after its layers exist, a rebuild
/// before.
pub fn scenario_call(action: &ScenarioAction, scenarios: &[ScenarioEntry]) -> (r: Option<
    ScenarioCall,
>)
    ensures
        r == action.asks(scenarios@),
{
    let at = match action.scenario() {
        Some(id) => match find_scenario(scenarios, id) {
            Some(at) => at,
            None => {
                return None;
            },
        },
        None => {
            return None;
        },
    };
    match action {
        ScenarioAction::RunSimulationScenario(_) => Some(ScenarioCall::Run { at }),
        ScenarioAction::CancelSimulationScenario(_) => Some(ScenarioCall::Cancel { at }),
        ScenarioAction::RebuildSimulationScenario(_) => Some(ScenarioCall::Rebuild { at }),
        ScenarioAction::FreezeScenarioResult { id: _, snapshot } => Some(
            ScenarioCall::Freeze { at, snapshot: choose_snapshot(&scenarios[at], snapshot) },
        ),
        ScenarioAction::PreviewScenarioSnapshot { id: _, snapshot } => match find_text(
            &scenarios[at].snapshots,
            snapshot.as_str(),
        ) {
            Some(shown) => Some(ScenarioCall::Preview { at, snapshot: shown }),
            None => None,
        },
        ScenarioAction::CompareScenarioSnapshot { id: _, snapshot } => Some(
            ScenarioCall::Compare { at, snapshot: choose_snapshot(&scenarios[at], snapshot) },
        ),
        ScenarioAction::ApplyScenarioOutputs { id: _, snapshot } => Some(
            ScenarioCall::ApplyOutputs { at, snapshot: choose_snapshot(&scenarios[at], snapshot) },
        ),
        ScenarioAction::ReorderScenarioPass { id: _, pass, to_index } => match find_text(
            &scenarios[at].passes,
            pass.as_str(),
        ) {
            Some(moved) => Some(ScenarioCall::MovePass { at, pass: moved, to_index: *to_index }),
            None => None,
        },
        _ => None,
    }
}

/// The edit that an action makes on the scenario `entry`.
pub open spec fn edit_of(
    action: ScenarioAction,
    entry: ScenarioEntry,
    accepted: bool,
) -> Option<ScenarioEdit> {
    match action {
        ScenarioAction::ResetSimulationScenario(_) => Some(ScenarioEdit::Reset),
        ScenarioAction::AddScenarioPass { kind, .. } => Some(ScenarioEdit::AddPass { kind }),
        ScenarioAction::ReorderScenarioPass { pass, to_index, .. } => match text_position(
            entry.passes@,
            pass@,
        ) {
            Some(moved) if accepted => Some(
                ScenarioEdit::MovePass { pass: moved as usize, to_index },
            ),
            _ => None,
        },
        ScenarioAction::SetMatterSourcePaint { matter_index, enabled, .. } => Some(
            ScenarioEdit::PaintSources { matter: matter_at(entry, matter_index), enabled },
        ),
        ScenarioAction::SetMatterApplySelected { matter_index, fields, .. } => Some(
            ScenarioEdit::ApplySelected { matter: matter_at(entry, matter_index), fields },
        ),
        _ => None,
    }
}

/// The command of an action.
pub open spec fn command_of(
    action: ScenarioAction,
    scenarios: Seq<ScenarioEntry>,
    accepted: bool,
) -> Option<ScenarioCommand> {
    let index = scenarios.len() as usize;
    match action {
        ScenarioAction::AddSimulationScenario { name } => Some(
            ScenarioCommand::Add { scenario: NewScenario::Named { name }, index },
        ),
        ScenarioAction::AddContinentalHydrologyPreset => Some(
            ScenarioCommand::Add { scenario: NewScenario::ContinentalHydrology, index },
        ),
        ScenarioAction::AddMatterSimScenario { matter, .. } => Some(
            ScenarioCommand::Add { scenario: NewScenario::Matter { matter }, index },
        ),
        ScenarioAction::SetSimulationScenarioEnabled { id, enabled } => Some(
            ScenarioCommand::SetEnabled {
                id,
                enabled,
                previous: match scenario_position(scenarios, id) {
                    Some(at) => scenarios[at].enabled,
                    None => true,
                },
            },
        ),
        _ => match (action.subject(), action.place(scenarios)) {
            (Some(id), Some(at)) => match edit_of(action, scenarios[at], accepted) {
                Some(edit) => Some(ScenarioCommand::Replace { id, edit }),
                None => None,
            },
            _ => None,
        },
    }
}

/// The action changes the document.
pub open spec fn mutates(
    action: ScenarioAction,
    scenarios: Seq<ScenarioEntry>,
    accepted: bool,
) -> bool {
    match action {
        ScenarioAction::AddSimulationScenario { .. }
        | ScenarioAction::AddContinentalHydrologyPreset
        | ScenarioAction::AddMatterSimScenario { .. }
        | ScenarioAction::SelectSimulationScenario(_)
        | ScenarioAction::SetSimulationScenarioEnabled { .. }
        | ScenarioAction::RunSimulationScenario(_)
        | ScenarioAction::RebuildSimulationScenario(_) => true,
        ScenarioAction::FreezeScenarioResult { .. }
        | ScenarioAction::PreviewScenarioSnapshot { .. }
        | ScenarioAction::ReorderScenarioPass { .. } => action.asks(scenarios) is Some && accepted,
        _ => action.place(scenarios) is Some,
    }
}

/// The action recomputes hydrology.
pub open spec fn rebuilds(action: ScenarioAction, scenarios: Seq<ScenarioEntry>) -> bool {
    match action {
        ScenarioAction::RunSimulationScenario(_)
        | ScenarioAction::RebuildSimulationScenario(_) => true,
        ScenarioAction::ApplyScenarioOutputs { .. } => action.place(scenarios) is Some,
        _ => false,
    }
}

/// What the status line says; `None` leaves it.
pub open spec fn status_of(
    action: ScenarioAction,
    scenarios: Seq<ScenarioEntry>,
    answer: CallAnswer,
) -> Option<Seq<char>> {
    match action {
        ScenarioAction::AddContinentalHydrologyPreset => Some(
            "Added Continental Hydrology scenario"@,
        ),
        ScenarioAction::AddMatterSimScenario { matter: _, label } => Some(
            "Added "@ + label@ + " matter scenario"@,
        ),
        ScenarioAction::RunSimulationScenario(_) => Some("Running simulation scenario"@),
        _ => match action.asks(scenarios) {
            Some(ScenarioCall::Cancel { .. }) => Some("Cancelled simulation scenario"@),
            Some(ScenarioCall::Freeze { .. }) if answer.accepted => Some("Froze scenario result"@),
            Some(ScenarioCall::Preview { .. }) if answer.accepted => Some(
                "Previewing old scenario result"@,
            ),
            Some(ScenarioCall::Compare { .. }) => Some("Compare snapshot set"@),
            Some(ScenarioCall::ApplyOutputs { .. }) => Some(
                "Applied "@ + crate::text::decimal(answer.fields as nat)
                    + " scenario output field(s)"@,
            ),
            _ => None,
        },
    }
}

/// The layer from which the batch is dirty after the action: the last bound
/// layer of a run.
pub open spec fn dirty_from_after(
    action: ScenarioAction,
    scenarios: Seq<ScenarioEntry>,
    bound: Seq<LayerId>,
    before: Option<LayerId>,
) -> Option<LayerId> {
    if action.asks(scenarios) is Some && action is RunSimulationScenario && bound.len() > 0 {
        Some(bound.last())
    } else {
        before
    }
}

/// The layers that are out of date after the action: a run recomputes those
/// that it is bound to.
pub open spec fn outdated_after(
    action: ScenarioAction,
    scenarios: Seq<ScenarioEntry>,
    bound: Seq<LayerId>,
    before: Seq<LayerId>,
) -> Seq<LayerId> {
    if action.asks(scenarios) is Some && action is RunSimulationScenario {
        without_all(before, bound)
    } else {
        before
    }
}

fn status_text(
    action: &ScenarioAction,
    call: Option<ScenarioCall>,
    answer: &CallAnswer,
) -> (r: Option<String>)
    ensures
        forall|scenarios: Seq<ScenarioEntry>|
            #![trigger status_of(*action, scenarios, *answer)]
            call == action.asks(scenarios) ==> crate::eval::opt_text(r) == status_of(
                *action,
                scenarios,
                *answer,
            ),
{
    match action {
        ScenarioAction::AddContinentalHydrologyPreset => {
            return Some("Added Continental Hydrology scenario".to_owned());
        },
        ScenarioAction::AddMatterSimScenario { matter: _, label } => {
            let mut status = "Added ".to_owned();
            status.append(label.as_str());
            status.append(" matter scenario");
            return Some(status);
        },
        ScenarioAction::RunSimulationScenario(_) => {
            return Some("Running simulation scenario".to_owned());
        },
        _ => {},
    }
    match call {
        Some(ScenarioCall::Cancel { .. }) => Some("Cancelled simulation scenario".to_owned()),
        Some(ScenarioCall::Freeze { .. }) => if answer.accepted {
            Some("Froze scenario result".to_owned())
        } else {
            None
        },
        Some(ScenarioCall::Preview { .. }) => if answer.accepted {
            Some("Previewing old scenario result".to_owned())
        } else {
            None
        },
        Some(ScenarioCall::Compare { .. }) => Some("Compare snapshot set".to_owned()),
        Some(ScenarioCall::ApplyOutputs { .. }) => {
            let mut status = "Applied ".to_owned();
            crate::text::push_decimal(&mut status, answer.fields as u64);
            status.append(" scenario output field(s)");
            Some(status)
        },
        _ => None,
    }
}

fn matter_index_in(entry: &ScenarioEntry, index: usize) -> (r: Option<usize>)
    ensures
        r == matter_at(*entry, index),
{
    if index < entry.matters {
        Some(index)
    } else {
        None
    }
}

/// Applies one action on scenarios, once its call was answered. The caller
/// executes the command. A run or rebuild dirties the worker's scope from the
/// first layer of the hydrology stages on, so the worker never reuses a stale
/// checkpoint for a simulated layer.
pub fn try_apply(
    action: ScenarioAction,
    answer: &CallAnswer,
    panel: &mut ScenarioPanel,
    ctx: &mut ApplyCtx,
    worker: &mut WorkerDirty,
    layers: &[StackLayer],
    hydrology_order: u8,
) -> (r: ScenarioReply)
    ensures
        final(panel).scenarios == old(panel).scenarios,
        final(panel).selected == match action {
            ScenarioAction::SelectSimulationScenario(id) => Some(id),
            _ => old(panel).selected,
        },
        final(panel).outdated@ == outdated_after(
            action,
            old(panel).scenarios@,
            answer.bound@,
            old(panel).outdated@,
        ),
        r.command == command_of(action, old(panel).scenarios@, answer.accepted),
        r.rebuild_hydrology == rebuilds(action, old(panel).scenarios@),
        r.select_paint_tool == (action matches ScenarioAction::SetMatterSourcePaint {
            id,
            matter_index,
            enabled,
        } && enabled && (action.place(old(panel).scenarios@) matches Some(at) && matter_index
            < old(panel).scenarios@[at].matters)),
        crate::eval::opt_text(r.status) == status_of(action, old(panel).scenarios@, *answer),
        *final(ctx) == (ApplyCtx {
            doc_mutated: old(ctx).doc_mutated || mutates(
                action,
                old(panel).scenarios@,
                answer.accepted,
            ),
            dirty_from: dirty_from_after(
                action,
                old(panel).scenarios@,
                answer.bound@,
                old(ctx).dirty_from,
            ),
            ..*old(ctx)
        }),
        !rebuilds(action, old(panel).scenarios@) ==> *final(worker) == *old(worker),
        rebuilds(action, old(panel).scenarios@) ==> {
            &&& forall|at: int|
                #![trigger layers@[at]]
                WorkerDirty::is_first_in_stage(layers@, hydrology_order, at) ==> *final(worker)
                    == old(worker).with_edit(layers@, layers@[at].id, None)
            &&& (forall|i: int|
                #![trigger layers@[i]]
                0 <= i < layers@.len() ==> layers@[i].stage_order < hydrology_order)
                ==> *final(worker) == *old(worker)
        },
{
    let call = scenario_call(&action, panel.scenarios.as_slice());
    let status = status_text(&action, call, answer);
    let found = match action.scenario() {
        Some(id) => find_scenario(panel.scenarios.as_slice(), id),
        None => None,
    };
    let index = panel.scenarios.len();
    let mut command: Option<ScenarioCommand> = None;
    let mut mutated = found.is_some();
    let mut rebuild = false;
    let mut select_paint_tool = false;
    match action {
        ScenarioAction::AddSimulationScenario { name } => {
            command = Some(ScenarioCommand::Add { scenario: NewScenario::Named { name }, index });
            mutated = true;
        },
        ScenarioAction::AddContinentalHydrologyPreset => {
            command = Some(
                ScenarioCommand::Add { scenario: NewScenario::ContinentalHydrology, index },
            );
            mutated = true;
        },
        ScenarioAction::AddMatterSimScenario { matter, .. } => {
            command = Some(
                ScenarioCommand::Add { scenario: NewScenario::Matter { matter }, index },
            );
            mutated = true;
        },
        ScenarioAction::SelectSimulationScenario(id) => {
            panel.selected = Some(id);
            mutated = true;
        },
        ScenarioAction::SetSimulationScenarioEnabled { id, enabled } => {
            let previous = match found {
                Some(at) => panel.scenarios[at].enabled,
                None => true,
            };
            command = Some(ScenarioCommand::SetEnabled { id, enabled, previous });
            mutated = true;
        },
        ScenarioAction::RunSimulationScenario(_) => {
            if call.is_some() {
                if answer.bound.len() > 0 {
                    ctx.dirty_from = Some(answer.bound[answer.bound.len() - 1]);
                }
                panel.outdated = clear_outdated(&panel.outdated, &answer.bound);
            }
            rebuild = true;
            mutated = true;
        },
        ScenarioAction::RebuildSimulationScenario(_) => {
            rebuild = true;
            mutated = true;
        },
        ScenarioAction::CancelSimulationScenario(_)
        | ScenarioAction::CompareScenarioSnapshot { .. } => {},
        ScenarioAction::ResetSimulationScenario(id) => {
            if found.is_some() {
                command = Some(ScenarioCommand::Replace { id, edit: ScenarioEdit::Reset });
            }
        },
        ScenarioAction::AddScenarioPass { id, kind } => {
            if found.is_some() {
                command = Some(
                    ScenarioCommand::Replace { id, edit: ScenarioEdit::AddPass { kind } },
                );
            }
        },
        ScenarioAction::SetMatterSourcePaint { id, matter_index, enabled } => {
            if let Some(at) = found {
                let matter = matter_index_in(&panel.scenarios[at], matter_index);
                select_paint_tool = enabled && matter.is_some();
                command = Some(
                    ScenarioCommand::Replace {
                        id,
                        edit: ScenarioEdit::PaintSources { matter, enabled },
                    },
                );
            }
        },
        ScenarioAction::SetMatterApplySelected { id, matter_index, fields } => {
            if let Some(at) = found {
                let matter = matter_index_in(&panel.scenarios[at], matter_index);
                command = Some(
                    ScenarioCommand::Replace {
                        id,
                        edit: ScenarioEdit::ApplySelected { matter, fields },
                    },
                );
            }
        },
        ScenarioAction::ReorderScenarioPass { id, .. } => {
            mutated = false;
            if let Some(ScenarioCall::MovePass { at: _, pass, to_index }) = call {
                if answer.accepted {
                    mutated = true;
                    command = Some(
                        ScenarioCommand::Replace {
                            id,
                            edit: ScenarioEdit::MovePass { pass, to_index },
                        },
                    );
                }
            }
        },
        ScenarioAction::FreezeScenarioResult { .. }
        | ScenarioAction::PreviewScenarioSnapshot { .. } => {
            mutated = call.is_some() && answer.accepted;
        },
        ScenarioAction::ApplyScenarioOutputs { .. } => {
            rebuild = found.is_some();
        },
    }
    if mutated {
        ctx.doc_mutated = true;
    }
    if rebuild {
        worker.track_worker_dirty_from_eval_stage(layers, hydrology_order);
    }
    ScenarioReply { command, rebuild_hydrology: rebuild, select_paint_tool, status }
}

/// A pass of a scenario.
#[derive(Debug, Clone, Copy, PartialEq, Eq, Structural)]
pub struct ScenarioPass {
    pub enabled: bool,
    pub layer: Option<LayerId>,
    /// The number of the pass kind.
    pub kind: u16,
}

/// A layer of the stack, with the pass kind that it can serve.
#[derive(Debug, Clone, Copy, PartialEq, Eq, Structural)]
pub struct PassLayer {
    pub id: LayerId,
    pub serves: Option<u16>,
}

/// What to do about a pass without a layer.
#[derive(Debug, Clone, Copy, PartialEq, Eq, Structural)]
pub enum PassBinding {
    /// Disabled, or bound to a layer that exists.
    Keep,
    Bind(LayerId),
    /// Create a layer of the pass's kind and bind it.
    Create,
}

pub open spec fn layer_exists(layers: Seq<PassLayer>, id: LayerId) -> bool {
    exists|i: int| #![trigger layers[i]] 0 <= i < layers.len() && layers[i].id == id
}

fn has_layer(layers: &[PassLayer], id: LayerId) -> (r: bool)
    ensures
        r == layer_exists(layers@, id),
{
    let mut i: usize = 0;
    while i < layers.len()
        invariant
            i <= layers@.len(),
            forall|j: int| #![trigger layers@[j]] 0 <= j < i ==> layers@[j].id != id,
        decreases layers@.len() - i,
    {
        if layers[i].id == id {
            assert(layers@[i as int].id == id);
            return true;
        }
        i += 1;
    }
    false
}

/// The first layer that serves the kind.
pub open spec fn first_serving(layers: Seq<PassLayer>, kind: u16) -> Option<LayerId>
    decreases layers.len(),
{
    if layers.len() == 0 {
        None
    } else {
        match first_serving(layers.drop_last(), kind) {
            Some(id) => Some(id),
            None => if layers.last().serves == Some(kind) {
                Some(layers.last().id)
            } else {
                None
            },
        }
    }
}

/// How a pass gets its layer over `layers`.
pub open spec fn binding_of(pass: ScenarioPass, layers: Seq<PassLayer>) -> PassBinding {
    if !pass.enabled || (pass.layer matches Some(id) && layer_exists(layers, id)) {
        PassBinding::Keep
    } else {
        match first_serving(layers, pass.kind) {
            Some(id) => PassBinding::Bind(id),
            None => PassBinding::Create,
        }
    }
}

/// Decides how a pass gets its layer: an existing layer that serves its kind is
/// preferred over a new one.
pub fn ensure_scenario_layer(pass: ScenarioPass, layers: &[PassLayer]) -> (r: PassBinding)
    ensures
        r == binding_of(pass, layers@),
{
    if !pass.enabled {
        return PassBinding::Keep;
    }
    if let Some(id) = pass.layer {
        if has_layer(layers, id) {
            return PassBinding::Keep;
        }
    }
    let mut found: Option<LayerId> = None;
    let mut i: usize = 0;
    while i < layers.len()
        invariant
            i <= layers@.len(),
            found == first_serving(layers@.take(i as int), pass.kind),
        decreases layers@.len() - i,
    {
        let layer = layers[i];
        let serves = match layer.serves {
            Some(kind) => kind == pass.kind,
            None => false,
        };
        if found.is_none() && serves {
            found = Some(layer.id);
        }
        i += 1;
        assert(layers@.take(i as int).drop_last() =~= layers@.take(i - 1));
    }
    assert(layers@.take(i as int) =~= layers@);
    match found {
        Some(id) => PassBinding::Bind(id),
        None => PassBinding::Create,
    }
}

/// The stack once the first `n` passes have their layers; `created` holds the
/// layer that each pass would be given anew.
pub open spec fn stack_after(
    passes: Seq<ScenarioPass>,
    created: Seq<PassLayer>,
    layers: Seq<PassLayer>,
    n: int,
) -> Seq<PassLayer>
    decreases n,
{
    if n <= 0 {
        layers
    } else {
        let before = stack_after(passes, created, layers, n - 1);
        if binding_of(passes[n - 1], before) is Create {
            before.push(created[n - 1])
        } else {
            before
        }
    }
}

/// How each pass of a scenario gets its layer.
pub open spec fn pass_bindings(
    passes: Seq<ScenarioPass>,
    created: Seq<PassLayer>,
    layers: Seq<PassLayer>,
) -> Seq<PassBinding> {
    Seq::new(
        passes.len(),
        |i: int| binding_of(passes[i], stack_after(passes, created, layers, i)),
    )
}

/// Gives every pass of a scenario its layer, one after the other: a layer that
/// an earlier pass created serves later ones of its kind. `created` holds the
/// layer that each pass would be given anew; a new layer goes behind the others.
pub fn ensure_scenario_layers(
    passes: &[ScenarioPass],
    created: &[PassLayer],
    layers: Vec<PassLayer>,
) -> (r: (Vec<PassBinding>, Vec<PassLayer>))
    requires
        created@.len() == passes@.len(),
    ensures
        r.0@ == pass_bindings(passes@, created@, layers@),
        r.1@ == stack_after(passes@, created@, layers@, passes@.len() as int),
{
    let ghost first = layers@;
    let mut stack = layers;
    let mut bindings: Vec<PassBinding> = Vec::new();
    let mut i: usize = 0;
    while i < passes.len()
        invariant
            i <= passes@.len(),
            created@.len() == passes@.len(),
            stack@ == stack_after(passes@, created@, first, i as int),
            bindings@ == pass_bindings(passes@, created@, first).take(i as int),
        decreases passes@.len() - i,
    {
        let binding = ensure_scenario_layer(passes[i], stack.as_slice());
        if let PassBinding::Create = binding {
            stack.push(created[i]);
        }
        bindings.push(binding);
        i += 1;
        assert(bindings@ =~= pass_bindings(passes@, created@, first).take(i as int));
    }
    assert(bindings@ =~= pass_bindings(passes@, created@, first));
    (bindings, stack)
}

/// A layer that the stack has is still there after a pass more.
proof fn lemma_stack_grows(
    passes: Seq<ScenarioPass>,
    created: Seq<PassLayer>,
    layers: Seq<PassLayer>,
    n: int,
    m: int,
    at: int,
)
    requires
        0 <= n <= m,
        0 <= at < stack_after(passes, created, layers, n).len(),
    ensures
        at < stack_after(passes, created, layers, m).len(),
        stack_after(passes, created, layers, m)[at] == stack_after(passes, created, layers, n)[at],
    decreases m,
{
    if n < m {
        lemma_stack_grows(passes, created, layers, n, m - 1, at);
    }
}

/// The layer that serves a kind is one of the stack.
proof fn lemma_serving_exists(layers: Seq<PassLayer>, kind: u16)
    ensures
        match first_serving(layers, kind) {
            Some(id) => exists|i: int|
                #![trigger layers[i]]
                0 <= i < layers.len() && layers[i].id == id && layers[i].serves == Some(kind),
            None => forall|i: int|
                #![trigger layers[i]]
                0 <= i < layers.len() ==> layers[i].serves != Some(kind),
        },
    decreases layers.len(),
{
    if layers.len() > 0 {
        let rest = layers.drop_last();
        lemma_serving_exists(rest, kind);
        match first_serving(rest, kind) {
            Some(id) => {
                let i = choose|i: int|
                    #![trigger rest[i]]
                    0 <= i < rest.len() && rest[i].id == id && rest[i].serves == Some(kind);
                assert(layers[i] == rest[i]);
            },
            None => {
                assert forall|i: int| #![trigger layers[i]] 0 <= i < layers.len() && layers.last(
                ).serves != Some(kind) implies layers[i].serves != Some(kind) by {
                    if i < rest.len() {
                        assert(layers[i] == rest[i]);
                    }
                }
            },
        }
    }
}

/// Every enabled pass of a scenario ends up with a layer of the stack.
pub proof fn every_enabled_pass_has_a_layer(
    passes: Seq<ScenarioPass>,
    created: Seq<PassLayer>,
    layers: Seq<PassLayer>,
    i: int,
)
    requires
        created.len() == passes.len(),
        0 <= i < passes.len(),
        passes[i].enabled,
    ensures
        ({
            let stack = stack_after(passes, created, layers, passes.len() as int);
            match pass_bindings(passes, created, layers)[i] {
                PassBinding::Keep => passes[i].layer is Some && layer_exists(
                    stack,
                    passes[i].layer->0,
                ),
                PassBinding::Bind(id) => layer_exists(stack, id),
                PassBinding::Create => layer_exists(stack, created[i].id),
            }
        }),
{
    let before = stack_after(passes, created, layers, i);
    let stack = stack_after(passes, created, layers, passes.len() as int);
    match binding_of(passes[i], before) {
        PassBinding::Keep => {
            let id = passes[i].layer->0;
            let at = choose|at: int|
                #![trigger before[at]]
                0 <= at < before.len() && before[at].id == id;
            lemma_stack_grows(passes, created, layers, i, passes.len() as int, at);
            assert(stack[at].id == id);
        },
        PassBinding::Bind(id) => {
            lemma_serving_exists(before, passes[i].kind);
            let at = choose|at: int|
                #![trigger before[at]]
                0 <= at < before.len() && before[at].id == id && before[at].serves == Some(
                    passes[i].kind,
                );
            lemma_stack_grows(passes, created, layers, i, passes.len() as int, at);
            assert(stack[at].id == id);
        },
        PassBinding::Create => {
            let at = before.len() as int;
            let after = stack_after(passes, created, layers, i + 1);
            assert(after =~= before.push(created[i]));
            lemma_stack_grows(passes, created, layers, i + 1, passes.len() as int, at);
            assert(stack[at].id == created[i].id);
        },
    }
}

/// Passes of one kind share a new layer: where new layers serve the kind that
/// they are made for, at most one is created for each kind.
pub proof fn one_new_layer_serves_a_kind(
    passes: Seq<ScenarioPass>,
    created: Seq<PassLayer>,
    layers: Seq<PassLayer>,
    i: int,
    j: int,
)
    requires
        created.len() == passes.len(),
        0 <= i < j < passes.len(),
        created[i].serves == Some(passes[i].kind),
        pass_bindings(passes, created, layers)[i] is Create,
        pass_bindings(passes, created, layers)[j] is Create,
    ensures
        passes[i].kind != passes[j].kind,
{
    let before = stack_after(passes, created, layers, i);
    let after = stack_after(passes, created, layers, i + 1);
    let later = stack_after(passes, created, layers, j);
    assert(after =~= before.push(created[i]));
    let at = before.len() as int;
    lemma_stack_grows(passes, created, layers, i + 1, j, at);
    assert(later[at] == created[i]);
    lemma_serving_exists(later, passes[j].kind);
}

/// A rebuild reaches every simulated layer of the worker.
pub proof fn rebuilds_reach_the_worker(
    worker: WorkerDirty,
    layers: Seq<StackLayer>,
    hydrology_order: u8,
    first: int,
    index: int,
    u: u32,
    v: u32,
)
    requires
        WorkerDirty::is_first_in_stage(layers, hydrology_order, first),
        0 <= index < layers.len(),
        layers[index].stage_order >= hydrology_order,
    ensures
        worker.with_edit(layers, layers[first].id, None).covers(layers, index, u, v),
{
    crate::dirty::stage_suffix_covers_the_stages(
        worker,
        layers,
        hydrology_order,
        first,
        index,
        u,
        v,
    );
}

/// A scenario that the list does not hold is asked nothing and replaced by
/// nothing, and no layer of it becomes dirty.
pub proof fn unknown_scenarios_are_left_alone(
    action: ScenarioAction,
    scenarios: Seq<ScenarioEntry>,
    answer: CallAnswer,
    before: Option<LayerId>,
)
    requires
        action.subject() is Some,
        action.place(scenarios) is None,
    ensures
        action.asks(scenarios) is None,
        !(command_of(action, scenarios, answer.accepted) matches Some(
            ScenarioCommand::Replace { .. },
        )),
        dirty_from_after(action, scenarios, answer.bound@, before) == before,
{
}

/// A scenario is found at the first place that holds it, and only where one does.
pub proof fn scenarios_are_found_first(scenarios: Seq<ScenarioEntry>, id: ScenarioId)
    ensures
        scenario_position(scenarios, id) matches Some(at) ==> 0 <= at < scenarios.len()
            && scenarios[at].id == id && forall|i: int|
            #![trigger scenarios[i]]
            0 <= i < at ==> scenarios[i].id != id,
        scenario_position(scenarios, id) is None ==> forall|i: int|
            #![trigger scenarios[i]]
            0 <= i < scenarios.len() ==> scenarios[i].id != id,
    decreases scenarios.len(),
{
    if scenarios.len() > 0 {
        scenarios_are_found_first(scenarios.drop_last(), id);
        assert forall|i: int| #![trigger scenarios[i]] 0 <= i < scenarios.len() - 1 implies scenarios[i]
            == scenarios.drop_last()[i] by {}
    }
}

/// A text is found at the first place that reads it, and only where one does.
pub proof fn texts_are_found_first(texts: Seq<String>, wanted: Seq<char>)
    ensures
        text_position(texts, wanted) matches Some(at) ==> 0 <= at < texts.len() && texts[at]@
            == wanted && forall|i: int| #![trigger texts[i]] 0 <= i < at ==> texts[i]@ != wanted,
        text_position(texts, wanted) is None ==> forall|i: int|
            #![trigger texts[i]]
            0 <= i < texts.len() ==> texts[i]@ != wanted,
    decreases texts.len(),
{
    if texts.len() > 0 {
        texts_are_found_first(texts.drop_last(), wanted);
        assert forall|i: int| #![trigger texts[i]] 0 <= i < texts.len() - 1 implies texts[i]
            == texts.drop_last()[i] by {}
    }
}

/// A run clears the badges of the layers that it is bound to and of no other.
pub proof fn runs_clear_the_badges_of_their_layers(
    outdated: &Vec<LayerId>,
    bound: &Vec<LayerId>,
    left: Vec<LayerId>,
    id: LayerId,
)
    requires
        call_ensures(clear_outdated, (outdated, bound), left),
    ensures
        left@.contains(id) <==> outdated@.contains(id) && !bound@.contains(id),
{
    let rule = |id: LayerId| !bound@.contains(id);
    if left@.contains(id) {
        let i = choose|i: int| 0 <= i < left@.len() && left@[i] == id;
        outdated@.lemma_filter_pred(rule, i);
        outdated@.lemma_filter_contains_rev(rule, id);
    }
    if outdated@.contains(id) && !bound@.contains(id) {
        let i = choose|i: int| 0 <= i < outdated@.len() && outdated@[i] == id;
        outdated@.lemma_filter_contains(rule, i);
    }
}

/// A run that was cancelled while it began has no generation; any other completes
/// under the one after the evaluator's.
pub proof fn runs_complete_under_the_next_generation(cancelled: bool, generation: u64, end: RunEnd)
    requires
        call_ensures(end_of_run, (cancelled, generation), end),
    ensures
        end is Cancelled <==> cancelled,
        !cancelled && generation < u64::MAX ==> end == (RunEnd::Complete {
            generation: (generation + 1) as u64,
        }),
        !cancelled && generation == u64::MAX ==> end == (RunEnd::Complete { generation: 0 }),
{
}

/// An action that is about one scenario asks that scenario, and only for what the
/// action stands for; a snapshot or a pass is named by its own place.
pub proof fn actions_ask_their_scenario(
    action: &ScenarioAction,
    scenarios: &[ScenarioEntry],
    call: Option<ScenarioCall>,
)
    requires
        call_ensures(scenario_call, (action, scenarios), call),
    ensures
        *action matches ScenarioAction::RunSimulationScenario(id) ==> (scenario_position(
            scenarios@,
            id,
        ) matches Some(at) ==> call == Some(ScenarioCall::Run { at: at as usize })),
        *action matches ScenarioAction::CancelSimulationScenario(id) ==> (scenario_position(
            scenarios@,
            id,
        ) matches Some(at) ==> call == Some(ScenarioCall::Cancel { at: at as usize })),
        *action matches ScenarioAction::RebuildSimulationScenario(id) ==> (scenario_position(
            scenarios@,
            id,
        ) matches Some(at) ==> call == Some(ScenarioCall::Rebuild { at: at as usize })),
        *action matches ScenarioAction::PreviewScenarioSnapshot { id, snapshot } ==> (
        scenario_position(scenarios@, id) matches Some(at) ==> (call is Some <==> text_position(
            scenarios@[at].snapshots@,
            snapshot@,
        ) is Some)),
        *action matches ScenarioAction::PreviewScenarioSnapshot { id, snapshot } ==> (
        call matches Some(asked) ==> (asked matches ScenarioCall::Preview { at, snapshot: shown }
            && scenario_position(scenarios@, id) == Some(at as int) && scenarios@[at as int].id
            == id && scenarios@[at as int].snapshots@[shown as int]@ == snapshot@)),
        *action matches ScenarioAction::ReorderScenarioPass { id, pass, to_index } ==> (
        call matches Some(asked) ==> (asked matches ScenarioCall::MovePass {
            at,
            pass: moved,
            to_index: to,
        } && scenarios@[at as int].id == id && scenarios@[at as int].passes@[moved as int]@ == pass@
            && to == to_index)),
        *action matches ScenarioAction::FreezeScenarioResult { id, snapshot } ==> (
        scenario_position(scenarios@, id) matches Some(place) ==> (call matches Some(
            ScenarioCall::Freeze { at, snapshot: frozen },
        ) && at == place && frozen == chosen_snapshot(scenarios@[place], snapshot))),
        *action matches ScenarioAction::CompareScenarioSnapshot { id, snapshot } ==> (
        scenario_position(scenarios@, id) matches Some(place) ==> (call matches Some(
            ScenarioCall::Compare { at, snapshot: compared },
        ) && at == place && compared == chosen_snapshot(scenarios@[place], snapshot))),
        *action matches ScenarioAction::ApplyScenarioOutputs { id, snapshot } ==> (
        scenario_position(scenarios@, id) matches Some(place) ==> (call matches Some(
            ScenarioCall::ApplyOutputs { at, snapshot: applied },
        ) && at == place && applied == chosen_snapshot(scenarios@[place], snapshot))),
        *action is AddSimulationScenario || *action is AddContinentalHydrologyPreset || *action
            is AddMatterSimScenario || *action is SelectSimulationScenario || *action
            is SetSimulationScenarioEnabled || *action is ResetSimulationScenario || *action
            is AddScenarioPass || *action is SetMatterSourcePaint || *action
            is SetMatterApplySelected ==> call is None,
        action.subject() matches Some(id) ==> ((forall|i: int|
            #![trigger scenarios@[i]]
            0 <= i < scenarios@.len() ==> scenarios@[i].id != id) ==> call is None),
{
    scenario_list_fits(scenarios);
    if let Some(id) = action.subject() {
        scenarios_are_found_first(scenarios@, id);
        if let Some(at) = scenario_position(scenarios@, id) {
            let entry = scenarios@[at];
            text_list_fits(&entry.snapshots);
            text_list_fits(&entry.passes);
            match *action {
                ScenarioAction::PreviewScenarioSnapshot { id: _, snapshot } => {
                    texts_are_found_first(entry.snapshots@, snapshot@);
                },
                ScenarioAction::ReorderScenarioPass { id: _, pass, to_index: _ } => {
                    texts_are_found_first(entry.passes@, pass@);
                },
                _ => {},
            }
        }
    }
}

proof fn scenario_list_fits(scenarios: &[ScenarioEntry])
    ensures
        scenarios@.len() <= usize::MAX,
{
    assert(scenarios.len() == scenarios@.len());
}

proof fn text_list_fits(texts: &Vec<String>)
    ensures
        texts@.len() <= usize::MAX,
{
    assert(texts.len() == texts@.len());
}

/// A choice of no snapshot is none, and a chosen one that the scenario has is found
/// under its own text.
pub proof fn chosen_snapshots_are_found(entry: ScenarioEntry, choice: Option<String>)
    ensures
        choice is None ==> chosen_snapshot(entry, choice) is None,
        choice matches Some(wanted) ==> (chosen_snapshot(entry, choice) matches Some(at) ==> at
            < entry.snapshots@.len() && entry.snapshots@[at as int]@ == wanted@),
        choice matches Some(wanted) ==> (chosen_snapshot(entry, choice) is None ==> forall|i: int|
            #![trigger entry.snapshots@[i]]
            0 <= i < entry.snapshots@.len() ==> entry.snapshots@[i]@ != wanted@),
{
    text_list_fits(&entry.snapshots);
    if let Some(wanted) = choice {
        texts_are_found_first(entry.snapshots@, wanted@);
    }
}

/// New scenarios come last; a switch remembers how the scenario stood; an edit
/// replaces its own scenario and needs it to be there.
pub proof fn commands_change_their_scenario(
    action: ScenarioAction,
    answer: &CallAnswer,
    panel: &mut ScenarioPanel,
    ctx: &mut ApplyCtx,
    worker: &mut WorkerDirty,
    layers: &[StackLayer],
    order: u8,
    reply: ScenarioReply,
)
    requires
        call_ensures(try_apply, (action, answer, panel, ctx, worker, layers, order), reply),
    ensures
        action matches ScenarioAction::AddSimulationScenario { name } ==> reply.command == Some(
            ScenarioCommand::Add {
                scenario: NewScenario::Named { name },
                index: old(panel).scenarios@.len() as usize,
            },
        ),
        action is AddContinentalHydrologyPreset ==> reply.command == Some(
            ScenarioCommand::Add {
                scenario: NewScenario::ContinentalHydrology,
                index: old(panel).scenarios@.len() as usize,
            },
        ),
        action matches ScenarioAction::AddMatterSimScenario { matter, label } ==> reply.command
            == Some(
            ScenarioCommand::Add {
                scenario: NewScenario::Matter { matter },
                index: old(panel).scenarios@.len() as usize,
            },
        ),
        action matches ScenarioAction::SetSimulationScenarioEnabled { id, enabled } ==> (
        reply.command matches Some(
            ScenarioCommand::SetEnabled { id: switched, enabled: now, previous },
        ) && switched == id && now == enabled && (scenario_position(
            old(panel).scenarios@,
            id,
        ) matches Some(at) ==> previous == old(panel).scenarios@[at].enabled)),
        reply.command matches Some(ScenarioCommand::Replace { id, edit }) ==> {
            &&& action.subject() == Some(id)
            &&& scenario_position(old(panel).scenarios@, id) is Some
            &&& edit is Reset <==> action is ResetSimulationScenario
            &&& edit is AddPass <==> action is AddScenarioPass
            &&& edit is MovePass <==> action is ReorderScenarioPass
            &&& edit is PaintSources <==> action is SetMatterSourcePaint
            &&& edit is ApplySelected <==> action is SetMatterApplySelected
            &&& action matches ScenarioAction::AddScenarioPass { id: _, kind } ==> edit == (
            ScenarioEdit::AddPass { kind })
        },
        action matches ScenarioAction::SetMatterSourcePaint { id, matter_index, enabled } ==> (
        scenario_position(old(panel).scenarios@, id) matches Some(at) ==> {
            &&& matter_index < old(panel).scenarios@[at].matters ==> reply.command == Some(
                ScenarioCommand::Replace {
                    id,
                    edit: ScenarioEdit::PaintSources { matter: Some(matter_index), enabled },
                },
            )
            &&& matter_index >= old(panel).scenarios@[at].matters ==> reply.command == Some(
                ScenarioCommand::Replace {
                    id,
                    edit: ScenarioEdit::PaintSources { matter: None, enabled },
                },
            )
            &&& reply.select_paint_tool <==> enabled && matter_index < old(panel).scenarios@[at].matters
        }),
        action matches ScenarioAction::SetMatterApplySelected { id, matter_index, fields } ==> (
        scenario_position(old(panel).scenarios@, id) matches Some(at) ==> (matter_index < old(panel).scenarios@[at].matters ==> reply.command == Some(
            ScenarioCommand::Replace {
                id,
                edit: ScenarioEdit::ApplySelected { matter: Some(matter_index), fields },
            },
        ))),
        action is ReorderScenarioPass && !answer.accepted ==> reply.command is None,
        action is SelectSimulationScenario || action is RunSimulationScenario || action
            is CancelSimulationScenario || action is RebuildSimulationScenario || action
            is FreezeScenarioResult || action is PreviewScenarioSnapshot || action
            is CompareScenarioSnapshot || action is ApplyScenarioOutputs ==> reply.command is None,
        action is ResetSimulationScenario || action is AddScenarioPass || action
            is SetMatterSourcePaint || action is SetMatterApplySelected ==> (reply.command is Some
            <==> action.place(old(panel).scenarios@) is Some),
        !(action is SetMatterSourcePaint) ==> !reply.select_paint_tool,
{
}

/// A run and a rebuild recompute hydrology, applied outputs do where there is a
/// scenario, and nothing else does. A run dirties from its last layer.
pub proof fn runs_and_rebuilds_recompute(
    action: ScenarioAction,
    answer: &CallAnswer,
    panel: &mut ScenarioPanel,
    ctx: &mut ApplyCtx,
    worker: &mut WorkerDirty,
    layers: &[StackLayer],
    order: u8,
    reply: ScenarioReply,
)
    requires
        call_ensures(try_apply, (action, answer, panel, ctx, worker, layers, order), reply),
    ensures
        action is RunSimulationScenario || action is RebuildSimulationScenario
            ==> reply.rebuild_hydrology && final(ctx).doc_mutated,
        action matches ScenarioAction::ApplyScenarioOutputs { id, snapshot } ==> (
        reply.rebuild_hydrology <==> scenario_position(old(panel).scenarios@, id) is Some),
        !(action is RunSimulationScenario) && !(action is RebuildSimulationScenario) && !(action
            is ApplyScenarioOutputs) ==> !reply.rebuild_hydrology && *final(worker) == *old(worker),
        !(action is RunSimulationScenario) ==> final(ctx).dirty_from == old(ctx).dirty_from
            && final(panel).outdated@ == old(panel).outdated@,
        action matches ScenarioAction::RunSimulationScenario(id) ==> (scenario_position(
            old(panel).scenarios@,
            id,
        ) is Some && answer.bound@.len() > 0 ==> final(ctx).dirty_from == Some(
            answer.bound@[answer.bound@.len() - 1],
        )),
        action matches ScenarioAction::RunSimulationScenario(id) ==> (scenario_position(
            old(panel).scenarios@,
            id,
        ) is None || answer.bound@.len() == 0 ==> final(ctx).dirty_from == old(ctx).dirty_from),
        action matches ScenarioAction::SelectSimulationScenario(id) ==> final(panel).selected
            == Some(id),
        !(action is SelectSimulationScenario) ==> final(panel).selected == old(panel).selected,
        final(panel).scenarios == old(panel).scenarios,
        final(ctx).mask_assets_mutated == old(ctx).mask_assets_mutated,
        final(ctx).deferred_rebuild == old(ctx).deferred_rebuild,
{
}

/// The document is changed by what the scenarios took: a freeze, a preview or a move
/// that was refused changes nothing, nor does an edit of a scenario that is not there.
pub proof fn refused_calls_change_nothing(
    action: ScenarioAction,
    answer: &CallAnswer,
    panel: &mut ScenarioPanel,
    ctx: &mut ApplyCtx,
    worker: &mut WorkerDirty,
    layers: &[StackLayer],
    order: u8,
    reply: ScenarioReply,
)
    requires
        call_ensures(try_apply, (action, answer, panel, ctx, worker, layers, order), reply),
    ensures
        old(ctx).doc_mutated ==> final(ctx).doc_mutated,
        reply.command is Some ==> final(ctx).doc_mutated,
        action is FreezeScenarioResult || action is PreviewScenarioSnapshot || action
            is ReorderScenarioPass ==> (!answer.accepted ==> *final(ctx) == *old(ctx)),
        action is FreezeScenarioResult || action is PreviewScenarioSnapshot || action
            is ReorderScenarioPass ==> (answer.accepted && action.asks(old(panel).scenarios@)
            is Some ==> final(ctx).doc_mutated),
        action is CancelSimulationScenario || action is CompareScenarioSnapshot || action
            is ApplyScenarioOutputs || action is ResetSimulationScenario || action is AddScenarioPass
            || action is SetMatterSourcePaint || action is SetMatterApplySelected ==> {
            &&& action.place(old(panel).scenarios@) is Some ==> final(ctx).doc_mutated
            &&& action.place(old(panel).scenarios@) is None ==> *final(ctx) == *old(ctx)
        },
        action is AddSimulationScenario || action is SelectSimulationScenario || action
            is SetSimulationScenarioEnabled ==> final(ctx).doc_mutated,
{
}

/// The status line tells what was done, and is left where nothing was.
pub proof fn the_status_tells_what_was_done(
    action: ScenarioAction,
    answer: &CallAnswer,
    panel: &mut ScenarioPanel,
    ctx: &mut ApplyCtx,
    worker: &mut WorkerDirty,
    layers: &[StackLayer],
    order: u8,
    reply: ScenarioReply,
)
    requires
        call_ensures(try_apply, (action, answer, panel, ctx, worker, layers, order), reply),
    ensures
        action is AddContinentalHydrologyPreset ==> (reply.status matches Some(text) && text@
            == "Added Continental Hydrology scenario"@),
        action matches ScenarioAction::AddMatterSimScenario { matter, label } ==> (
        reply.status matches Some(text) && text@ == "Added "@ + label@ + " matter scenario"@),
        action is RunSimulationScenario ==> (reply.status matches Some(text) && text@
            == "Running simulation scenario"@),
        action is CancelSimulationScenario && action.place(old(panel).scenarios@) is Some ==> (
        reply.status matches Some(text) && text@ == "Cancelled simulation scenario"@),
        action is FreezeScenarioResult ==> (reply.status is Some <==> answer.accepted
            && action.place(old(panel).scenarios@) is Some),
        action is FreezeScenarioResult ==> (reply.status matches Some(text) ==> text@
            == "Froze scenario result"@),
        action is PreviewScenarioSnapshot && !answer.accepted ==> reply.status is None,
        action is PreviewScenarioSnapshot ==> (reply.status matches Some(text) ==> text@
            == "Previewing old scenario result"@),
        action is CompareScenarioSnapshot && action.place(old(panel).scenarios@) is Some ==> (
        reply.status matches Some(text) && text@ == "Compare snapshot set"@),
        action is ApplyScenarioOutputs && action.place(old(panel).scenarios@) is Some ==> (
        reply.status matches Some(text) && text@ == "Applied "@ + crate::text::decimal(
            answer.fields as nat,
        ) + " scenario output field(s)"@),
        action is AddSimulationScenario || action is SelectSimulationScenario || action
            is SetSimulationScenarioEnabled || action is RebuildSimulationScenario || action
            is ResetSimulationScenario || action is AddScenarioPass || action
            is ReorderScenarioPass ==> reply.status is None,
{
}

/// A pass that is off, or whose layer exists, is kept; any other is bound to the first
/// layer that serves its kind, and a layer is made only where none does.
pub proof fn passes_get_a_layer_of_their_kind(
    pass: ScenarioPass,
    layers: &[PassLayer],
    binding: PassBinding,
)
    requires
        call_ensures(ensure_scenario_layer, (pass, layers), binding),
    ensures
        !pass.enabled ==> binding is Keep,
        pass.layer matches Some(id) ==> (layer_exists(layers@, id) ==> binding is Keep),
        pass.enabled && pass.layer is None ==> !(binding is Keep),
        pass.enabled ==> (pass.layer matches Some(id) ==> (!layer_exists(layers@, id) ==> !(binding
            is Keep))),
        binding matches PassBinding::Bind(id) ==> exists|i: int|
            #![trigger layers@[i]]
            0 <= i < layers@.len() && layers@[i].id == id && layers@[i].serves == Some(pass.kind)
                && forall|j: int| 0 <= j < i ==> (#[trigger] layers@[j]).serves != Some(pass.kind),
        binding is Create ==> forall|i: int|
            #![trigger layers@[i]]
            0 <= i < layers@.len() ==> layers@[i].serves != Some(pass.kind),
{
    lemma_serving_exists(layers@, pass.kind);
    if first_serving(layers@, pass.kind) is Some {
        the_first_serves(layers@, pass.kind);
    }
}

proof fn the_first_serves(layers: Seq<PassLayer>, kind: u16)
    requires
        first_serving(layers, kind) is Some,
    ensures
        exists|i: int|
            #![trigger layers[i]]
            0 <= i < layers.len() && layers[i].id == first_serving(layers, kind)->0
                && layers[i].serves == Some(kind) && forall|j: int|
                0 <= j < i ==> (#[trigger] layers[j]).serves != Some(kind),
    decreases layers.len(),
{
    let rest = layers.drop_last();
    if first_serving(rest, kind) is Some {
        the_first_serves(rest, kind);
        let i = choose|i: int|
            #![trigger rest[i]]
            0 <= i < rest.len() && rest[i].id == first_serving(rest, kind)->0 && rest[i].serves
                == Some(kind) && forall|j: int|
                0 <= j < i ==> (#[trigger] rest[j]).serves != Some(kind);
        assert(layers[i] == rest[i]);
        assert forall|j: int| 0 <= j < i implies (#[trigger] layers[j]).serves != Some(kind) by {
            assert(layers[j] == rest[j]);
        }
    } else {
        lemma_serving_exists(rest, kind);
        let i = layers.len() - 1;
        assert(layers[i].serves == Some(kind));
        assert forall|j: int| 0 <= j < i implies (#[trigger] layers[j]).serves != Some(kind) by {
            assert(layers[j] == rest[j]);
        }
    }
}

/// The layers that there were stay in front, and the stack grows by the layers of the
/// passes that had to make one.
pub proof fn new_layers_go_behind_the_others(
    passes: Seq<ScenarioPass>,
    created: Seq<PassLayer>,
    layers: Seq<PassLayer>,
    n: int,
)
    requires
        0 <= n <= passes.len(),
        created.len() == passes.len(),
    ensures
        stack_after(passes, created, layers, n).len() >= layers.len(),
        stack_after(passes, created, layers, n).take(layers.len() as int) == layers,
        stack_after(passes, created, layers, n).len() <= layers.len() + n,
        n > 0 && pass_bindings(passes, created, layers)[n - 1] is Create ==> stack_after(
            passes,
            created,
            layers,
            n,
        ).last() == created[n - 1],
        n > 0 && !(pass_bindings(passes, created, layers)[n - 1] is Create) ==> stack_after(
            passes,
            created,
            layers,
            n,
        ) == stack_after(passes, created, layers, n - 1),
    decreases n,
{
    if n > 0 {
        new_layers_go_behind_the_others(passes, created, layers, n - 1);
        let before = stack_after(passes, created, layers, n - 1);
        assert(before.push(created[n - 1]).take(layers.len() as int) =~= before.take(
            layers.len() as int,
        ));
    } else {
        assert(layers.take(layers.len() as int) =~= layers);
    }
}

/// A scenario that is not there counts as having been on.
pub proof fn unknown_scenarios_count_as_on(
    id: ScenarioId,
    enabled: bool,
    answer: &CallAnswer,
    panel: &mut ScenarioPanel,
    ctx: &mut ApplyCtx,
    worker: &mut WorkerDirty,
    layers: &[StackLayer],
    order: u8,
    reply: ScenarioReply,
)
    requires
        call_ensures(
            try_apply,
            (
                ScenarioAction::SetSimulationScenarioEnabled { id, enabled },
                answer,
                panel,
                ctx,
                worker,
                layers,
                order,
            ),
            reply,
        ),
        scenario_position(old(panel).scenarios@, id) is None,
    ensures
        reply.command == Some(ScenarioCommand::SetEnabled { id, enabled, previous: true }),
{
}

/// A run of a scenario that is there takes the badge off the layers that it is bound
/// to and off no other; without the scenario every badge stays.
pub proof fn runs_take_the_badges_off(
    id: ScenarioId,
    answer: &CallAnswer,
    panel: &mut ScenarioPanel,
    ctx: &mut ApplyCtx,
    worker: &mut WorkerDirty,
    layers: &[StackLayer],
    order: u8,
    reply: ScenarioReply,
    layer: LayerId,
)
    requires
        call_ensures(
            try_apply,
            (
                ScenarioAction::RunSimulationScenario(id),
                answer,
                panel,
                ctx,
                worker,
                layers,
                order,
            ),
            reply,
        ),
    ensures
        scenario_position(old(panel).scenarios@, id) is None ==> final(panel).outdated@ == old(panel).outdated@,
        scenario_position(old(panel).scenarios@, id) is Some ==> (final(panel).outdated@.contains(layer) <==> old(panel).outdated@.contains(layer)
            && !answer.bound@.contains(layer)),
{
    let before = old(panel).outdated@;
    let after = final(panel).outdated@;
    let rule = |id: LayerId| !answer.bound@.contains(id);
    if scenario_position(old(panel).scenarios@, id) is Some {
        assert(after == before.filter(rule));
        if after.contains(layer) {
            let i = choose|i: int| 0 <= i < after.len() && after[i] == layer;
            before.lemma_filter_pred(rule, i);
            before.lemma_filter_contains_rev(rule, layer);
        }
        if before.contains(layer) && !answer.bound@.contains(layer) {
            let i = choose|i: int| 0 <= i < before.len() && before[i] == layer;
            before.lemma_filter_contains(rule, i);
        }
    }
}

} // verus!
