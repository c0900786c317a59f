//! World rules: their commands and what they invalidate.
use vstd::prelude::*;

use super::ApplyCtx;
use crate::dirty::{StackLayer, WorkerDirty};

verus! {

#[derive(Debug, Clone, Copy, PartialEq, Eq, Structural)]
pub struct WorldRuleId(pub u128);

/// Where a rule applies, by the number under which the host keeps the scope.
#[derive(Debug, Clone, Copy, PartialEq, Eq, Structural)]
pub struct RuleScope(pub u64);

/// The phase that a rule is forced into, by its number.
#[derive(Debug, Clone, Copy, PartialEq, Eq, Structural)]
pub struct RulePhase(pub u8);

/// An effect of a rule, by the text of its identity.
#[derive(Debug)]
pub struct RuleEffect {
    pub id: String,
    pub enabled: bool,
}

/// A rule, as far as the panel reads and changes it. The host keeps the rest of
/// it under its identity.
#[derive(Debug)]
pub struct WorldRule {
    pub id: WorldRuleId,
    pub enabled: bool,
    pub priority: i32,
    pub scope: RuleScope,
    pub phase: Option<RulePhase>,
    pub effects: Vec<RuleEffect>,
}

/// A rule with its effects as pairs of identity and flag.
pub struct RuleModel {
    pub id: WorldRuleId,
    pub enabled: bool,
    pub priority: i32,
    pub scope: RuleScope,
    pub phase: Option<RulePhase>,
    pub effects: Seq<(Seq<char>, bool)>,
}

impl View for WorldRule {
    type V = RuleModel;

    open spec fn view(&self) -> RuleModel {
        RuleModel {
            id: self.id,
            enabled: self.enabled,
            priority: self.priority,
            scope: self.scope,
            phase: self.phase,
            effects: effect_pairs(self.effects@),
        }
    }
}

/// Identity and flag of each effect.
pub open spec fn effect_pairs(effects: Seq<RuleEffect>) -> Seq<(Seq<char>, bool)> {
    effects.map_values(|e: RuleEffect| (e.id@, e.enabled))
}

/// The effects with the flag of the first effect `wanted` set.
pub open spec fn toggled(
    effects: Seq<(Seq<char>, bool)>,
    wanted: Seq<char>,
    enabled: bool,
) -> Seq<(Seq<char>, bool)>
    decreases effects.len(),
{
    if effects.len() == 0 {
        effects
    } else if effects[0].0 == wanted {
        effects.update(0, (wanted, enabled))
    } else {
        seq![effects[0]] + toggled(effects.drop_first(), wanted, enabled)
    }
}

/// The rules of a document, and the one that is selected.
#[derive(Debug)]
pub struct WorldRules {
    pub rules: Vec<WorldRule>,
    pub selected: Option<WorldRuleId>,
}

#[derive(Debug, Clone, Copy, PartialEq, Eq, Structural)]
pub struct RulePriority {
    pub id: WorldRuleId,
    pub priority: i32,
}

/// An undoable change of the rule list.
#[derive(Debug)]
pub enum WorldRuleCommand {
    Add { rule: WorldRule, index: usize },
    SetEnabled { id: WorldRuleId, enabled: bool, previous: bool },
    Remove { rule: WorldRule, index: usize },
    Reorder {
        id: WorldRuleId,
        source: usize,
        target: usize,
        previous_priorities: Vec<RulePriority>,
    },
    Replace { id: WorldRuleId, before: WorldRule, after: WorldRule },
}

/// An action on rules.
#[derive(Debug)]
pub enum WorldRuleAction {
    /// Add the rule, which is made of the name that was typed.
    AddWorldRule { rule: WorldRule },
    /// Add the rule of the preset, if there is such a preset.
    AddWorldRulePreset { name: String, rule: Option<WorldRule> },
    SelectWorldRule(WorldRuleId),
    SetWorldRuleEnabled { id: WorldRuleId, enabled: bool },
    RemoveWorldRule(WorldRuleId),
    ReorderWorldRule { id: WorldRuleId, before: Option<WorldRuleId> },
    SetWorldRuleScope { id: WorldRuleId, scope: RuleScope },
    SetWorldRulePhase { id: WorldRuleId, phase: Option<RulePhase> },
    /// Set the flag of the effect whose identity reads `effect`.
    ToggleWorldRuleEffect { rule: WorldRuleId, effect: String, enabled: bool },
}

#[derive(Debug)]
pub struct WorldRuleReply {
    pub command: Option<WorldRuleCommand>,
    /// The stages from that of this rule on have to be dirtied once the command
    /// is executed.
    pub invalidate_stage_of: Option<WorldRuleId>,
    pub request_rebuild: bool,
    pub status: Option<String>,
}

/// Position of the first rule `id`.
pub open spec fn rule_position(rules: Seq<WorldRule>, id: WorldRuleId) -> Option<int>
    decreases rules.len(),
{
    if rules.len() == 0 {
        None
    } else {
        match rule_position(rules.drop_last(), id) {
            Some(at) => Some(at),
            None => if rules.last().id == id {
                Some(rules.len() - 1)
            } else {
                None
            },
        }
    }
}

fn position(rules: &[WorldRule], id: WorldRuleId) -> (r: Option<usize>)
    ensures
        match r {
            Some(at) => rule_position(rules@, id) == Some(at as int) && at < rules@.len(),
            None => rule_position(rules@, id) is None,
        },
{
    let mut found: Option<usize> = None;
    let mut i: usize = 0;
    assert(rules@.take(0) =~= Seq::<WorldRule>::empty());
    while i < rules.len()
        invariant
            i <= rules@.len(),
            match found {
                Some(at) => rule_position(rules@.take(i as int), id) == Some(at as int) && at < i,
                None => rule_position(rules@.take(i as int), id) is None,
            },
        decreases rules@.len() - i,
    {
        assert(rules@.take(i + 1).drop_last() =~= rules@.take(i as int));
        if found.is_none() && rules[i].id == id {
            found = Some(i);
        }
        i += 1;
    }
    assert(rules@.take(i as int) =~= rules@);
    found
}

/// Identity and priority of every rule, in order.
pub open spec fn priorities(rules: Seq<WorldRule>) -> Seq<RulePriority> {
    rules.map_values(|r: WorldRule| RulePriority { id: r.id, priority: r.priority })
}

fn priority_list(rules: &[WorldRule]) -> (r: Vec<RulePriority>)
    ensures
        r@ == priorities(rules@),
{
    let mut list: Vec<RulePriority> = Vec::new();
    let mut i: usize = 0;
    while i < rules.len()
        invariant
            i <= rules@.len(),
            list@ == priorities(rules@.take(i as int)),
        decreases rules@.len() - i,
    {
        list.push(RulePriority { id: rules[i].id, priority: rules[i].priority });
        i += 1;
        assert(list@ =~= priorities(rules@.take(i as int)));
    }
    assert(rules@.take(i as int) =~= rules@);
    list
}

fn copy_rule(rule: &WorldRule) -> (r: WorldRule)
    ensures
        r@ == rule@,
{
    let mut effects: Vec<RuleEffect> = Vec::new();
    let mut i: usize = 0;
    while i < rule.effects.len()
        invariant
            i <= rule.effects@.len(),
            effect_pairs(effects@) == effect_pairs(rule.effects@).take(i as int),
        decreases rule.effects@.len() - i,
    {
        let id = rule.effects[i].id.as_str().to_owned();
        let enabled = rule.effects[i].enabled;
        let ghost front = effects@;
        effects.push(RuleEffect { id, enabled });
        i += 1;
        assert(effect_pairs(effects@) =~= effect_pairs(front).push((id@, enabled)));
        assert(effect_pairs(effects@) =~= effect_pairs(rule.effects@).take(i as int));
    }
    assert(effect_pairs(effects@) =~= effect_pairs(rule.effects@));
    WorldRule {
        id: rule.id,
        enabled: rule.enabled,
        priority: rule.priority,
        scope: rule.scope,
        phase: rule.phase,
        effects,
    }
}

/// Past a prefix that holds no effect `wanted`, only the rest is toggled.
proof fn lemma_toggled_behind(
    effects: Seq<(Seq<char>, bool)>,
    n: int,
    wanted: Seq<char>,
    enabled: bool,
)
    requires
        0 <= n <= effects.len(),
        forall|j: int| #![trigger effects[j]] 0 <= j < n ==> effects[j].0 != wanted,
    ensures
        toggled(effects, wanted, enabled) == effects.take(n) + toggled(
            effects.skip(n),
            wanted,
            enabled,
        ),
    decreases n,
{
    if n == 0 {
        assert(effects.skip(0) =~= effects);
        assert(effects.take(0) + toggled(effects, wanted, enabled) =~= toggled(
            effects,
            wanted,
            enabled,
        ));
    } else {
        let rest = effects.drop_first();
        assert forall|j: int| #![trigger rest[j]] 0 <= j < n - 1 implies rest[j].0 != wanted by {
            assert(rest[j] == effects[j + 1]);
        }
        lemma_toggled_behind(rest, n - 1, wanted, enabled);
        assert(rest.skip(n - 1) =~= effects.skip(n));
        assert(seq![effects[0]] + rest.take(n - 1) =~= effects.take(n));
        assert(toggled(effects, wanted, enabled) =~= effects.take(n) + toggled(
            effects.skip(n),
            wanted,
            enabled,
        ));
    }
}

fn toggle_effect(effects: &mut Vec<RuleEffect>, wanted: &str, enabled: bool)
    ensures
        effect_pairs(final(effects)@) == toggled(effect_pairs(old(effects)@), wanted@, enabled),
{
    let ghost pairs = effect_pairs(effects@);
    let mut i: usize = 0;
    while i < effects.len()
        invariant
            i <= effects@.len(),
            pairs == effect_pairs(effects@),
            *effects == *old(effects),
            forall|j: int| #![trigger pairs[j]] 0 <= j < i ==> pairs[j].0 != wanted@,
        decreases effects@.len() - i,
    {
        assert(pairs[i as int] == (effects@[i as int].id@, effects@[i as int].enabled));
        if crate::text::same_text(effects[i].id.as_str(), wanted) {
            let id = effects[i].id.as_str().to_owned();
            effects.set(i, RuleEffect { id, enabled });
            proof {
                lemma_toggled_behind(pairs, i as int, wanted@, enabled);
                assert(pairs.skip(i as int)[0] == pairs[i as int]);
                assert(effect_pairs(effects@) =~= pairs.take(i as int) + pairs.skip(
                    i as int,
                ).update(0, (wanted@, enabled)));
            }
            return ;
        }
        i += 1;
    }
    proof {
        lemma_toggled_behind(pairs, i as int, wanted@, enabled);
        assert(pairs.skip(i as int) =~= Seq::<(Seq<char>, bool)>::empty());
        assert(toggled(pairs, wanted@, enabled) =~= pairs);
    }
}

/// The rule as an editing action leaves it.
pub open spec fn edited(action: WorldRuleAction, rule: RuleModel) -> RuleModel {
    match action {
        WorldRuleAction::SetWorldRuleScope { scope, .. } => RuleModel { scope, ..rule },
        WorldRuleAction::SetWorldRulePhase { phase, .. } => RuleModel { phase, ..rule },
        WorldRuleAction::ToggleWorldRuleEffect { effect, enabled, .. } => RuleModel {
            effects: toggled(rule.effects, effect@, enabled),
            ..rule
        },
        _ => rule,
    }
}

/// The command replaces the rule `id` by what the action makes of it; there is
/// none where the list does not hold the rule.
pub open spec fn is_replacement(
    action: WorldRuleAction,
    rules: Seq<WorldRule>,
    id: WorldRuleId,
    command: Option<WorldRuleCommand>,
) -> bool {
    match rule_position(rules, id) {
        Some(at) => {
            &&& command matches Some(WorldRuleCommand::Replace { id: replaced, before, after })
            &&& replaced == id
            &&& before@ == rules[at]@
            &&& after@ == edited(action, rules[at]@)
        },
        None => command is None,
    }
}

/// `command` is what the action does to the rules.
pub open spec fn is_command_of(
    action: WorldRuleAction,
    rules: Seq<WorldRule>,
    command: Option<WorldRuleCommand>,
) -> bool {
    match action {
        WorldRuleAction::AddWorldRule { rule } => command == Some(
            WorldRuleCommand::Add { rule, index: rules.len() as usize },
        ),
        WorldRuleAction::AddWorldRulePreset { rule, .. } => match rule {
            Some(rule) => command == Some(
                WorldRuleCommand::Add { rule, index: rules.len() as usize },
            ),
            None => command is None,
        },
        WorldRuleAction::SelectWorldRule(_) => command is None,
        WorldRuleAction::SetWorldRuleEnabled { id, enabled } => command == Some(
            WorldRuleCommand::SetEnabled {
                id,
                enabled,
                previous: match rule_position(rules, id) {
                    Some(at) => rules[at].enabled,
                    None => true,
                },
            },
        ),
        WorldRuleAction::RemoveWorldRule(id) => match rule_position(rules, id) {
            Some(at) => {
                &&& command matches Some(WorldRuleCommand::Remove { rule, index })
                &&& rule@ == rules[at]@
                &&& index == at
            },
            None => command is None,
        },
        WorldRuleAction::ReorderWorldRule { id, before } => match rule_position(rules, id) {
            None => command is None,
            Some(source) => {
                &&& command matches Some(
                    WorldRuleCommand::Reorder {
                        id: moved,
                        source: from,
                        target,
                        previous_priorities,
                    },
                )
                &&& moved == id
                &&& from == source
                &&& target == match before {
                    Some(b) => match rule_position(rules, b) {
                        Some(at) => at,
                        None => rules.len() as int,
                    },
                    None => rules.len() as int,
                }
                &&& previous_priorities@ == priorities(rules)
            },
        },
        WorldRuleAction::SetWorldRuleScope { id, .. } => is_replacement(action, rules, id, command),
        WorldRuleAction::SetWorldRulePhase { id, .. } => is_replacement(action, rules, id, command),
        WorldRuleAction::ToggleWorldRuleEffect { rule, .. } => is_replacement(
            action,
            rules,
            rule,
            command,
        ),
    }
}

/// The action changes the document.
pub open spec fn changes_rules(action: WorldRuleAction, rules: Seq<WorldRule>) -> bool {
    match action {
        WorldRuleAction::AddWorldRule { .. }
        | WorldRuleAction::SelectWorldRule(_)
        | WorldRuleAction::SetWorldRuleEnabled { .. } => true,
        WorldRuleAction::AddWorldRulePreset { rule, .. } => rule is Some,
        WorldRuleAction::RemoveWorldRule(id) => rule_position(rules, id) is Some,
        WorldRuleAction::SetWorldRuleScope { id, .. } => rule_position(rules, id) is Some,
        WorldRuleAction::SetWorldRulePhase { id, .. } => rule_position(rules, id) is Some,
        WorldRuleAction::ToggleWorldRuleEffect { rule, .. } => rule_position(rules, rule) is Some,
        WorldRuleAction::ReorderWorldRule { id, .. } => rule_position(rules, id) is Some,
    }
}

/// The terrain has to be rebuilt: every change but a selection and a reorder.
pub open spec fn needs_rebuild(action: WorldRuleAction, rules: Seq<WorldRule>) -> bool {
    changes_rules(action, rules) && !(action is SelectWorldRule) && !(action is ReorderWorldRule)
}

/// The rule whose stage the action invalidates.
pub open spec fn invalidated(action: WorldRuleAction, rules: Seq<WorldRule>) -> Option<WorldRuleId> {
    match action {
        WorldRuleAction::SetWorldRuleEnabled { id, .. } => Some(id),
        WorldRuleAction::SetWorldRulePhase { id, .. } => if rule_position(rules, id) is Some {
            Some(id)
        } else {
            None
        },
        _ => None,
    }
}

pub open spec fn preset_text(name: Seq<char>, known: bool) -> Seq<char> {
    if known {
        "Added World Rule preset "@ + name
    } else {
        "Unknown World Rule preset: "@ + name
    }
}

fn replacement(action: &WorldRuleAction, rules: &[WorldRule], id: WorldRuleId) -> (r: Option<
    WorldRuleCommand,
>)
    ensures
        is_replacement(*action, rules@, id, r),
{
    match position(rules, id) {
        Some(at) => {
            let before = copy_rule(&rules[at]);
            let mut after = copy_rule(&rules[at]);
            match action {
                WorldRuleAction::SetWorldRuleScope { id: _, scope } => {
                    after.scope = *scope;
                },
                WorldRuleAction::SetWorldRulePhase { id: _, phase } => {
                    after.phase = *phase;
                },
                WorldRuleAction::ToggleWorldRuleEffect { rule: _, effect, enabled } => {
                    toggle_effect(&mut after.effects, effect.as_str(), *enabled);
                },
                _ => {},
            }
            Some(WorldRuleCommand::Replace { id, before, after })
        },
        None => None,
    }
}

/// Applies one action on world rules. The caller executes the command.
pub fn try_apply(action: WorldRuleAction, document: &mut WorldRules, ctx: &mut ApplyCtx) -> (r:
    WorldRuleReply)
    ensures
        final(document).rules == old(document).rules,
        final(document).selected == match action {
            WorldRuleAction::SelectWorldRule(id) => Some(id),
            _ => old(document).selected,
        },
        is_command_of(action, old(document).rules@, r.command),
        r.invalidate_stage_of == invalidated(action, old(document).rules@),
        r.request_rebuild == needs_rebuild(action, old(document).rules@),
        match action {
            WorldRuleAction::AddWorldRulePreset { name, rule } => r.status matches Some(status)
                && status@ == preset_text(name@, rule is Some),
            _ => r.status is None,
        },
        *final(ctx) == (ApplyCtx {
            doc_mutated: old(ctx).doc_mutated || changes_rules(action, old(document).rules@),
            ..*old(ctx)
        }),
{
    let mut reply = WorldRuleReply {
        command: None,
        invalidate_stage_of: None,
        request_rebuild: false,
        status: None,
    };
    let index = document.rules.len();
    match action {
        WorldRuleAction::AddWorldRule { rule } => {
            reply.command = Some(WorldRuleCommand::Add { rule, index });
            reply.request_rebuild = true;
            ctx.doc_mutated = true;
        },
        WorldRuleAction::AddWorldRulePreset { name, rule } => {
            match rule {
                Some(rule) => {
                    reply.command = Some(WorldRuleCommand::Add { rule, index });
                    reply.request_rebuild = true;
                    ctx.doc_mutated = true;
                    let mut status = "Added World Rule preset ".to_owned();
                    status.append(name.as_str());
                    reply.status = Some(status);
                },
                None => {
                    let mut status = "Unknown World Rule preset: ".to_owned();
                    status.append(name.as_str());
                    reply.status = Some(status);
                },
            }
        },
        WorldRuleAction::SelectWorldRule(id) => {
            document.selected = Some(id);
            ctx.doc_mutated = true;
        },
        WorldRuleAction::SetWorldRuleEnabled { id, enabled } => {
            let previous = match position(document.rules.as_slice(), id) {
                Some(at) => document.rules[at].enabled,
                None => true,
            };
            reply.command = Some(WorldRuleCommand::SetEnabled { id, enabled, previous });
            reply.invalidate_stage_of = Some(id);
            reply.request_rebuild = true;
            ctx.doc_mutated = true;
        },
        WorldRuleAction::RemoveWorldRule(id) => {
            if let Some(at) = position(document.rules.as_slice(), id) {
                let rule = copy_rule(&document.rules[at]);
                reply.command = Some(WorldRuleCommand::Remove { rule, index: at });
                reply.request_rebuild = true;
                ctx.doc_mutated = true;
            }
        },
        WorldRuleAction::ReorderWorldRule { id, before } => {
            let target: usize = match before {
                Some(b) => match position(document.rules.as_slice(), b) {
                    Some(at) => at,
                    None => index,
                },
                None => index,
            };
            if let Some(source) = position(document.rules.as_slice(), id) {
                reply.command = Some(
                    WorldRuleCommand::Reorder {
                        id,
                        source,
                        target,
                        previous_priorities: priority_list(document.rules.as_slice()),
                    },
                );
                ctx.doc_mutated = true;
            }
        },
        WorldRuleAction::SetWorldRuleScope { id, .. } => {
            reply.command = replacement(&action, document.rules.as_slice(), id);
            reply.request_rebuild = reply.command.is_some();
            ctx.doc_mutated = ctx.doc_mutated || reply.request_rebuild;
        },
        WorldRuleAction::SetWorldRulePhase { id, .. } => {
            reply.command = replacement(&action, document.rules.as_slice(), id);
            reply.request_rebuild = reply.command.is_some();
            if reply.request_rebuild {
                reply.invalidate_stage_of = Some(id);
            }
            ctx.doc_mutated = ctx.doc_mutated || reply.request_rebuild;
        },
        WorldRuleAction::ToggleWorldRuleEffect { rule, .. } => {
            reply.command = replacement(&action, document.rules.as_slice(), rule);
            reply.request_rebuild = reply.command.is_some();
            ctx.doc_mutated = ctx.doc_mutated || reply.request_rebuild;
        },
    }
    reply
}

/// Dirties the worker from the rule's stage on, where the rule has one.
pub fn invalidate_rule_stage(
    worker: &mut WorkerDirty,
    layers: &[StackLayer],
    stage_order: Option<u8>,
)
    ensures
        stage_order is None ==> *final(worker) == *old(worker),
        stage_order matches Some(order) ==> {
            &&& forall|at: int|
                #![trigger layers@[at]]
                WorkerDirty::is_first_in_stage(layers@, order, at) ==> *final(worker) == old(
                    worker,
                ).with_edit(layers@, layers@[at].id, None)
            &&& (forall|i: int|
                #![trigger layers@[i]]
                0 <= i < layers@.len() ==> layers@[i].stage_order < order) ==> *final(worker)
                == *old(worker)
        },
{
    if let Some(order) = stage_order {
        worker.track_worker_dirty_from_eval_stage(layers, order);
    }
}

/// Toggling an effect keeps every effect and its place; only a flag of an effect
/// with the wanted identity may change. Toggling again changes nothing.
pub proof fn toggling_changes_flags_only(
    effects: Seq<(Seq<char>, bool)>,
    wanted: Seq<char>,
    enabled: bool,
)
    ensures
        toggled(effects, wanted, enabled).len() == effects.len(),
        forall|i: int|
            #![trigger toggled(effects, wanted, enabled)[i]]
            0 <= i < effects.len() ==> {
                &&& toggled(effects, wanted, enabled)[i].0 == effects[i].0
                &&& effects[i].0 != wanted ==> toggled(effects, wanted, enabled)[i] == effects[i]
            },
        toggled(toggled(effects, wanted, enabled), wanted, enabled) == toggled(
            effects,
            wanted,
            enabled,
        ),
    decreases effects.len(),
{
    if effects.len() > 0 {
        let rest = effects.drop_first();
        toggling_changes_flags_only(rest, wanted, enabled);
        let once = toggled(effects, wanted, enabled);
        if effects[0].0 == wanted {
            assert(once.update(0, (wanted, enabled)) =~= once);
        } else {
            assert(once.drop_first() =~= toggled(rest, wanted, enabled));
            assert forall|i: int| #![trigger once[i]] 0 <= i < effects.len() implies {
                &&& once[i].0 == effects[i].0
                &&& effects[i].0 != wanted ==> once[i] == effects[i]
            } by {
                if i > 0 {
                    assert(once[i] == toggled(rest, wanted, enabled)[i - 1]);
                    assert(effects[i] == rest[i - 1]);
                }
            }
            assert(toggled(once, wanted, enabled) =~= once);
        }
    }
}

/// A rule is found at the first place that holds it, and only where one does.
pub proof fn rules_are_found_first(rules: Seq<WorldRule>, id: WorldRuleId)
    ensures
        rule_position(rules, id) matches Some(at) ==> 0 <= at < rules.len() && rules[at].id == id
            && forall|i: int| #![trigger rules[i]] 0 <= i < at ==> rules[i].id != id,
        rule_position(rules, id) is None ==> forall|i: int|
            #![trigger rules[i]]
            0 <= i < rules.len() ==> rules[i].id != id,
    decreases rules.len(),
{
    if rules.len() > 0 {
        rules_are_found_first(rules.drop_last(), id);
        assert forall|i: int| #![trigger rules[i]] 0 <= i < rules.len() - 1 implies rules[i]
            == rules.drop_last()[i] by {}
    }
}

/// A new rule comes last; a preset that is not known adds nothing and is named.
pub proof fn new_rules_come_last(
    action: WorldRuleAction,
    document: &mut WorldRules,
    ctx: &mut ApplyCtx,
    reply: WorldRuleReply,
)
    requires
        call_ensures(try_apply, (action, document, ctx), reply),
    ensures
        action matches WorldRuleAction::AddWorldRule { rule } ==> reply.command == Some(
            WorldRuleCommand::Add { rule, index: old(document).rules@.len() as usize },
        ) && reply.request_rebuild && final(ctx).doc_mutated,
        action matches WorldRuleAction::AddWorldRulePreset { name, rule } ==> {
            &&& reply.command is Some <==> rule is Some
            &&& reply.request_rebuild <==> rule is Some
            &&& rule matches Some(known) ==> reply.command == Some(
                WorldRuleCommand::Add { rule: known, index: old(document).rules@.len() as usize },
            ) && final(ctx).doc_mutated
            &&& rule is None ==> *final(ctx) == *old(ctx)
            &&& rule is Some ==> (reply.status matches Some(text) && text@
                == "Added World Rule preset "@ + name@)
            &&& rule is None ==> (reply.status matches Some(text) && text@
                == "Unknown World Rule preset: "@ + name@)
        },
{
}

/// A selection selects and asks for nothing else; no other action selects.
pub proof fn selecting_a_rule_only_selects(
    action: WorldRuleAction,
    document: &mut WorldRules,
    ctx: &mut ApplyCtx,
    reply: WorldRuleReply,
)
    requires
        call_ensures(try_apply, (action, document, ctx), reply),
    ensures
        action matches WorldRuleAction::SelectWorldRule(id) ==> final(document).selected == Some(id)
            && reply.command is None && !reply.request_rebuild && reply.invalidate_stage_of is None
            && final(ctx).doc_mutated,
        !(action is SelectWorldRule) ==> final(document).selected == old(document).selected,
        final(document).rules == old(document).rules,
{
}

/// A switched rule remembers how it stood, and the terrain is rebuilt from its stage.
pub proof fn switching_a_rule_rebuilds_its_stage(
    id: WorldRuleId,
    enabled: bool,
    document: &mut WorldRules,
    ctx: &mut ApplyCtx,
    reply: WorldRuleReply,
)
    requires
        call_ensures(
            try_apply,
            (WorldRuleAction::SetWorldRuleEnabled { id, enabled }, document, ctx),
            reply,
        ),
    ensures
        reply.invalidate_stage_of == Some(id),
        reply.request_rebuild,
        final(ctx).doc_mutated,
        reply.command matches Some(WorldRuleCommand::SetEnabled { id: switched, enabled: now, previous })
            && switched == id && now == enabled && (rule_position(
            old(document).rules@,
            id,
        ) matches Some(at) ==> previous == old(document).rules@[at].enabled),
{
}

/// Removing, moving and editing need the rule: without it nothing is asked for and
/// nothing changes; with it the command holds the rule as it stood.
pub proof fn only_known_rules_are_changed(
    action: WorldRuleAction,
    id: WorldRuleId,
    document: &mut WorldRules,
    ctx: &mut ApplyCtx,
    reply: WorldRuleReply,
)
    requires
        call_ensures(try_apply, (action, document, ctx), reply),
        action == WorldRuleAction::RemoveWorldRule(id) || (
        action matches WorldRuleAction::ReorderWorldRule { id: moved, .. } && moved == id) || (
        action matches WorldRuleAction::SetWorldRuleScope { id: edited, .. } && edited == id) || (
        action matches WorldRuleAction::SetWorldRulePhase { id: edited, .. } && edited == id) || (
        action matches WorldRuleAction::ToggleWorldRuleEffect { rule, .. } && rule == id),
    ensures
        (exists|i: int|
            #![trigger old(document).rules@[i]]
            0 <= i < old(document).rules@.len() && old(document).rules@[i].id == id)
            <==> reply.command is Some,
        reply.command is None ==> *final(ctx) == *old(ctx) && !reply.request_rebuild
            && reply.invalidate_stage_of is None,
        reply.command is Some ==> final(ctx).doc_mutated,
        reply.request_rebuild <==> reply.command is Some && !(action is ReorderWorldRule),
        reply.invalidate_stage_of is Some <==> reply.command is Some && action is SetWorldRulePhase,
        reply.command matches Some(WorldRuleCommand::Remove { rule, index }) ==> action
            is RemoveWorldRule && rule@ == old(document).rules@[index as int]@ && rule.id == id,
        action is RemoveWorldRule && reply.command is Some ==> reply.command->0 is Remove,
{
    let rules = old(document).rules@;
    rules_are_found_first(rules, id);
    if rule_position(rules, id) is Some {
        let at = rule_position(rules, id)->0;
        assert(rules[at].id == id);
        assert(rules[at]@.id == id);
    }
    assert(forall|rule: WorldRule| (#[trigger] rule@).id == rule.id);
}

/// An edit of a rule changes what it names and keeps the rest of it.
pub proof fn edits_change_what_they_name(
    action: WorldRuleAction,
    document: &mut WorldRules,
    ctx: &mut ApplyCtx,
    reply: WorldRuleReply,
)
    requires
        call_ensures(try_apply, (action, document, ctx), reply),
    ensures
        reply.command matches Some(WorldRuleCommand::Replace { id, before, after }) ==> {
            &&& after.id == before.id
            &&& after.enabled == before.enabled
            &&& after.priority == before.priority
            &&& rule_position(old(document).rules@, id) matches Some(at) && before@ == old(document).rules@[at]@
            &&& action matches WorldRuleAction::SetWorldRuleScope { id: edited, scope } ==> id
                == edited && after.scope == scope && after.phase == before.phase && after@.effects
                == before@.effects
            &&& action matches WorldRuleAction::SetWorldRulePhase { id: edited, phase } ==> id
                == edited && after.phase == phase && after.scope == before.scope && after@.effects
                == before@.effects
            &&& action matches WorldRuleAction::ToggleWorldRuleEffect { rule, .. } ==> id == rule
                && after.scope == before.scope && after.phase == before.phase
        },
        action is SetWorldRuleScope || action is SetWorldRulePhase || action
            is ToggleWorldRuleEffect ==> (reply.command matches Some(command) ==> command
            is Replace),
{
    if let Some(WorldRuleCommand::Replace { id, before, after }) = reply.command {
        assert(before@.id == before.id && after@.id == after.id);
        assert(before@.enabled == before.enabled && after@.enabled == after.enabled);
        assert(before@.priority == before.priority && after@.priority == after.priority);
        assert(before@.scope == before.scope && after@.scope == after.scope);
        assert(before@.phase == before.phase && after@.phase == after.phase);
    }
}

/// The first effect of the wanted identity gets the flag.
pub proof fn the_wanted_effect_gets_the_flag(
    effects: Seq<(Seq<char>, bool)>,
    wanted: Seq<char>,
    enabled: bool,
    at: int,
)
    requires
        0 <= at < effects.len(),
        effects[at].0 == wanted,
        forall|i: int| #![trigger effects[i]] 0 <= i < at ==> effects[i].0 != wanted,
    ensures
        toggled(effects, wanted, enabled) == effects.update(at, (wanted, enabled)),
{
    lemma_toggled_behind(effects, at, wanted, enabled);
    assert(effects.skip(at)[0] == effects[at]);
    assert(toggled(effects, wanted, enabled) =~= effects.update(at, (wanted, enabled)));
}

/// A moved rule goes before the one it was dropped on, or last, and the command knows
/// where it came from and every priority before.
pub proof fn moved_rules_go_where_they_were_dropped(
    id: WorldRuleId,
    before: Option<WorldRuleId>,
    document: &mut WorldRules,
    ctx: &mut ApplyCtx,
    reply: WorldRuleReply,
)
    requires
        call_ensures(
            try_apply,
            (WorldRuleAction::ReorderWorldRule { id, before }, document, ctx),
            reply,
        ),
    ensures
        rule_position(old(document).rules@, id) matches Some(at) ==> (
        reply.command matches Some(
            WorldRuleCommand::Reorder { id: moved, source, target, previous_priorities },
        ) && {
            &&& moved == id
            &&& source == at
            &&& before is None ==> target == old(document).rules@.len()
            &&& before matches Some(other) ==> (rule_position(
                old(document).rules@,
                other,
            ) matches Some(place) ==> target == place)
            &&& before matches Some(other) ==> (rule_position(old(document).rules@, other) is None
                ==> target == old(document).rules@.len())
            &&& previous_priorities@.len() == old(document).rules@.len()
            &&& forall|i: int|
                #![trigger previous_priorities@[i]]
                0 <= i < previous_priorities@.len() ==> previous_priorities@[i].id == old(document).rules@[i].id && previous_priorities@[i].priority == old(document).rules@[i].priority
        }),
{
}

/// A rule that is not there counts as having been on.
pub proof fn unknown_rules_count_as_on(
    id: WorldRuleId,
    enabled: bool,
    document: &mut WorldRules,
    ctx: &mut ApplyCtx,
    reply: WorldRuleReply,
)
    requires
        call_ensures(
            try_apply,
            (WorldRuleAction::SetWorldRuleEnabled { id, enabled }, document, ctx),
            reply,
        ),
        rule_position(old(document).rules@, id) is None,
    ensures
        reply.command == Some(WorldRuleCommand::SetEnabled { id, enabled, previous: true }),
{
}

} // verus!
