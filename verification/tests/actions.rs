//! Batches of panel actions and what they leave for evaluation.

use terra_app::actions::chain::{ChainStep, Domain, Verdict};
use terra_app::actions::masks::{
    paint_bounded_sculpt_stamp, paint_world_sculpt_stamp, MaskAction, MaskAsset, MaskBinding,
    MaskColor, MaskEdit, MaskEffect, MaskHost, MaskPanel, MaskUi, PaintBuffer, SculptTarget,
    WorldStrokeOutcome,
};
use terra_app::actions::resolution::{self, GridDimensions, OwnedRasterTarget};
use terra_app::actions::scenarios::{
    self, clear_outdated, end_of_run, ensure_scenario_layer, ensure_scenario_layers, find_text,
    scenario_call, CallAnswer, NewScenario, PassBinding, PassLayer, RunEnd, ScenarioAction,
    ScenarioCall, ScenarioCommand, ScenarioEdit, ScenarioEntry, ScenarioId, ScenarioPanel,
    ScenarioPass, ScenarioReply,
};
use terra_app::actions::world_rules::{
    self, invalidate_rule_stage, RuleEffect, RulePhase, RuleScope, WorldRule, WorldRuleAction,
    WorldRuleCommand, WorldRuleId, WorldRuleReply, WorldRules,
};
use terra_app::actions::{
    plan_owner_shape_matches, ApplyCtx, BatchEffect, BatchObservation, EditedNode, KernelOp,
};
use terra_app::clock::{Duration, Instant};
use terra_app::dirty::{LayerId, StackLayer, UvRect, WorkerDirty};
use terra_app::eval::{EvalState, NodeRef, PlanEdit, RefineTiming};
use terra_app::paint::MaskId;

const NOW: Instant = Instant {
    nanos: 5_000_000_000,
};
const LAYER: LayerId = LayerId(10);
const MASK: MaskId = MaskId(20);

const TIMING: RefineTiming = RefineTiming {
    refine_interval: Duration { nanos: 250_000_000 },
    post_input_grace: Duration { nanos: 400_000_000 },
};

fn rect(u: f32, v: f32, r: f32) -> UvRect {
    UvRect {
        min_u: (u - r).clamp(0.0, 1.0).to_bits(),
        min_v: (v - r).clamp(0.0, 1.0).to_bits(),
        max_u: (u + r).clamp(0.0, 1.0).to_bits(),
        max_v: (v + r).clamp(0.0, 1.0).to_bits(),
    }
}

fn seen() -> BatchObservation {
    BatchObservation {
        plan_shape_matches: true,
        edited_is_group: false,
        edited_is_sculpt_base: false,
        selection_changed: false,
    }
}

fn stack() -> Vec<StackLayer> {
    vec![StackLayer {
        id: LAYER,
        stage_order: 0,
    }]
}

fn settled() -> EvalState {
    let mut eval = EvalState::new(NOW);
    eval.core.worker_dirty = WorkerDirty::clean();
    eval
}

/// Applies a batch and the rebuild that it asks for.
fn apply(eval: &mut EvalState, ctx: &ApplyCtx, seen: &BatchObservation, layers: &[StackLayer]) {
    for effect in eval.apply_actions(ctx, seen, layers) {
        match effect {
            BatchEffect::RequestRebuild => {
                let token = eval.core.eval_token.wrapping_add(1);
                eval.request_rebuild(token, None, 90, NOW, TIMING);
            }
            BatchEffect::RequestRebuildImmediate => {
                eval.request_rebuild_immediate(None, NOW, TIMING);
            }
            _ => {}
        }
    }
}

fn panel() -> MaskPanel {
    MaskPanel {
        masks: Vec::new(),
        hosts: vec![MaskHost {
            id: LAYER,
            is_group: false,
        }],
        bindings: Vec::new(),
        ui: MaskUi {
            selected_mask: None,
            paint_mask: None,
            paint_tool_active: false,
            preview_dirty: false,
            overlay_dirty: false,
        },
        ctx: ApplyCtx::new(),
        stroke_before: None,
    }
}

fn asset(red: f32) -> MaskAsset {
    MaskAsset {
        id: MASK,
        name: "Painted".to_string(),
        color: MaskColor {
            red_bits: red.to_bits(),
            green_bits: 0,
            blue_bits: 0,
        },
        ops: 0,
        painted: true,
        paint: Some(PaintBuffer {
            width: 2,
            height: 1,
            samples: vec![0, 1],
        }),
    }
}

fn binding() -> MaskBinding {
    MaskBinding {
        host: LAYER,
        mask: MASK,
        strength_bits: 1.0f32.to_bits(),
        invert: false,
        combine: 0,
    }
}

fn target(supports_stroke: bool, is_foundation: bool, name: &str) -> Option<SculptTarget> {
    Some(SculptTarget {
        supports_stroke,
        is_foundation,
        is_shape_history: !is_foundation,
        name: name.to_string(),
    })
}

#[test]
fn infinite_action_gate_rejects_bounded_painted_masks() {
    let mut panel = panel();
    let reply = panel.try_apply(MaskAction::AddMask {
        asset: asset(1.0),
        rejection: Some("painted rasters are bounded".to_string()),
    });
    assert!(panel.masks.is_empty());
    assert!(reply
        .status
        .unwrap()
        .contains("unavailable in Infinite projects"));
    assert!(panel.ctx.continue_loop);
    assert!(!panel.ctx.doc_mutated);
}

#[test]
fn sculpt_stamp_populates_worker_dirty_region() {
    let mut ctx = ApplyCtx::new();
    let expected = rect(0.5, 0.5, 0.05);
    let reply = paint_bounded_sculpt_stamp(
        &mut ctx,
        LAYER,
        true,
        target(true, false, "Shape"),
        "Raise",
        expected,
        None,
    );
    assert!(reply.apply && reply.shape_session);
    let mut eval = settled();
    eval.apply_actions(&ctx, &seen(), &stack());

    let region = eval
        .core
        .worker_dirty
        .region
        .expect("a sculpt stamp seeds a bounded worker scope");
    assert_eq!(region, expected);
    assert_eq!(eval.core.worker_dirty.dirty_from, Some(LAYER));
    assert!(
        !eval.core.worker_dirty.mark_all,
        "a bounded sculpt edit must not escalate to whole-field"
    );
}

#[test]
fn unsupported_foundation_brush_does_not_silently_raise() {
    let mut ctx = ApplyCtx::new();
    let reply = paint_bounded_sculpt_stamp(
        &mut ctx,
        LAYER,
        true,
        target(false, true, "Base"),
        "Terrace",
        rect(0.5, 0.5, 0.2),
        None,
    );
    assert!(
        !reply.apply,
        "an unsupported foundation brush must not modify heights"
    );
    let mut eval = settled();
    eval.apply_actions(&ctx, &seen(), &stack());
    assert!(
        eval.core.worker_dirty.region.is_none() && eval.core.worker_dirty.dirty_from.is_none(),
        "a refused stroke invalidates nothing"
    );
    assert!(!eval.core.worker_dirty.mark_all);
    let status = reply.status.unwrap();
    assert!(
        status.contains("Terrace") && status.contains("Foundation"),
        "the artist must be told why the brush did nothing: {:?}",
        status
    );

    let lower = paint_bounded_sculpt_stamp(
        &mut ctx,
        LAYER,
        true,
        target(true, true, "Base"),
        "Lower",
        rect(0.5, 0.5, 0.2),
        None,
    );
    assert!(
        lower.apply,
        "Lower is supported on the foundation and must lower heights"
    );
    assert_eq!(ctx.dirty_from, Some(LAYER));
}

#[test]
fn a_constraint_brush_dirties_its_layer() {
    let mut ctx = ApplyCtx::new();
    let reply = paint_bounded_sculpt_stamp(
        &mut ctx,
        LAYER,
        true,
        target(true, false, "Constraints"),
        "Hardness",
        rect(0.5, 0.5, 0.05),
        None,
    );
    assert!(reply.apply);
    let mut eval = settled();
    eval.apply_actions(&ctx, &seen(), &stack());
    assert_eq!(eval.core.worker_dirty.dirty_from, Some(LAYER));
}

#[test]
fn unsupported_constraint_brush_creates_nothing() {
    let mut ctx = ApplyCtx::new();
    let reply = paint_bounded_sculpt_stamp(
        &mut ctx,
        LAYER,
        true,
        target(false, false, "Constraints"),
        "Raise",
        rect(0.5, 0.5, 0.05),
        None,
    );
    assert!(!reply.apply);
    let mut eval = settled();
    eval.apply_actions(&ctx, &seen(), &stack());
    assert!(eval.core.worker_dirty.region.is_none() && eval.core.worker_dirty.dirty_from.is_none());
    assert!(!eval.core.worker_dirty.mark_all);
    let status = reply.status.unwrap();
    assert!(
        status.contains("Raise") && status.contains("Constraints"),
        "unsupported constraint brush should explain its refusal: {:?}",
        status
    );
}

#[test]
fn a_drag_dirties_the_way_between_its_samples() {
    let mut ctx = ApplyCtx::new();
    let (before, after) = (rect(0.3, 0.5, 0.05), rect(0.6, 0.5, 0.05));
    paint_bounded_sculpt_stamp(
        &mut ctx,
        LAYER,
        true,
        target(true, false, "Shape"),
        "Raise",
        after,
        Some(before),
    );
    assert_eq!(ctx.sculpt_dirty_region_uv, Some(before.union(after)));
}

#[test]
fn a_world_dab_counts_once_it_is_indexed() {
    let outcomes = [
        (
            WorldStrokeOutcome::NoWorldHistory,
            "Infinite sculpting requires a world-space Shape Layer",
        ),
        (
            WorldStrokeOutcome::InvalidStroke("radius".to_string()),
            "Invalid world sculpt stroke: radius",
        ),
        (
            WorldStrokeOutcome::IndexFailed("full".to_string()),
            "Could not index world sculpt stroke: full",
        ),
    ];
    for (outcome, text) in outcomes {
        let mut ctx = ApplyCtx::new();
        let reply = paint_world_sculpt_stamp(&mut ctx, LAYER, true, outcome);
        assert_eq!(reply.status.as_deref(), Some(text));
        assert_eq!(reply.rebuild_index, text.starts_with("Could not index"));
        assert_eq!(ctx, ApplyCtx::new());
    }
    let mut ctx = ApplyCtx::new();
    let failed = WorldStrokeOutcome::IndexFailed("full".to_string());
    assert!(!paint_world_sculpt_stamp(&mut ctx, LAYER, false, failed).rebuild_index);
    let reply = paint_world_sculpt_stamp(&mut ctx, LAYER, true, WorldStrokeOutcome::Indexed);
    assert!(reply.apply && reply.status.is_none());
    assert_eq!(ctx.dirty_from, Some(LAYER));
    assert!(ctx.doc_mutated);
    let reply = paint_world_sculpt_stamp(&mut ctx, LAYER, false, WorldStrokeOutcome::Indexed);
    assert_eq!(
        reply.status.as_deref(),
        Some("World sculpt stamp used in a bounded project")
    );
}

#[test]
fn a_mask_stroke_is_undone_as_a_whole() {
    let mut panel = panel();
    panel.try_apply(MaskAction::AddMask {
        asset: asset(1.0),
        rejection: None,
    });
    let dab = |panel: &mut MaskPanel| {
        panel.try_apply(MaskAction::PaintMaskStamp {
            mask: MASK,
            bounded: true,
        })
    };
    assert_eq!(dab(&mut panel).effects, [MaskEffect::StampPaint(MASK)]);
    panel.masks[0].paint = Some(PaintBuffer {
        width: 2,
        height: 1,
        samples: vec![8, 9],
    });
    dab(&mut panel);
    let (before, effects) = panel.commit_mask_paint_stroke();
    let before = before.unwrap();
    assert_eq!((before.mask, before.samples), (MASK, vec![0, 1]));
    assert_eq!(effects[0], MaskEffect::PushPaintUndo(MASK));
    assert!(panel.stroke_before.is_none());
    assert!(panel.commit_mask_paint_stroke().0.is_none());
}

#[test]
fn unbinding_gives_the_bindings_back() {
    let mut panel = panel();
    panel.try_apply(MaskAction::AddMask {
        asset: asset(1.0),
        rejection: None,
    });
    assert_eq!(panel.masks.len(), 1);
    panel.try_apply(MaskAction::BindMaskToLayer {
        binding: binding(),
        rejection: None,
    });
    assert_eq!(panel.bindings, [binding()]);
    panel.try_apply(MaskAction::CycleMaskCombine {
        host: LAYER,
        mask: MASK,
        next: 3,
    });
    assert_eq!(panel.bindings[0].combine, 3);
    panel.try_apply(MaskAction::UpdateMaskBinding {
        host: LAYER,
        mask: MASK,
        strength_bits: 0.5f32.to_bits(),
        invert: true,
    });
    assert!(panel.bindings[0].invert);
    panel.try_apply(MaskAction::UnbindMask {
        host: LAYER,
        mask: MASK,
    });
    assert!(panel.bindings.is_empty());
}

#[test]
fn a_new_colour_does_not_rebuild_the_terrain() {
    let mut panel = panel();
    panel.masks.push(asset(1.0));
    panel.try_apply(MaskAction::UpdateMaskAsset {
        asset: asset(0.5),
        rejection: None,
    });
    assert!(!panel.ctx.mask_assets_mutated);
    assert_eq!(panel.masks[0].color.red_bits, 0.5f32.to_bits());
    let mut renamed = asset(0.5);
    renamed.name = "Other".to_string();
    panel.try_apply(MaskAction::UpdateMaskAsset {
        asset: renamed,
        rejection: None,
    });
    assert!(panel.ctx.mask_assets_mutated);
}

#[test]
fn colours_and_samples_are_compared_as_numbers() {
    let updated = |before: MaskAsset, after: MaskAsset| {
        let mut panel = panel();
        panel.masks.push(before);
        panel.try_apply(MaskAction::UpdateMaskAsset {
            asset: after,
            rejection: None,
        });
        panel.ctx.mask_assets_mutated
    };
    let painted = |red: f32, samples: [f32; 2]| {
        let mut asset = asset(red);
        if let Some(paint) = asset.paint.as_mut() {
            paint.samples = samples.iter().map(|sample| sample.to_bits()).collect();
        }
        asset
    };
    let ones = [1.0, 1.0];
    assert!(
        updated(painted(0.0, ones), painted(-0.0, ones)),
        "zeros of either sign are one colour"
    );
    assert!(
        !updated(painted(f32::NAN, ones), painted(f32::NAN, ones)),
        "what is no number differs from itself"
    );
    assert!(!updated(painted(0.1, [0.0, 1.0]), painted(0.2, [-0.0, 1.0])));
    assert!(updated(painted(0.1, [f32::NAN, 1.0]), painted(0.2, [f32::NAN, 1.0])));
    assert!(!updated(painted(f32::INFINITY, ones), painted(f32::NEG_INFINITY, ones)));
    assert!(updated(painted(f32::INFINITY, ones), painted(f32::INFINITY, ones)));
}

#[test]
fn a_distribution_grows_on_its_host() {
    let mut panel = panel();
    panel.hosts = vec![
        MaskHost {
            id: LAYER,
            is_group: false,
        },
        MaskHost {
            id: LayerId(11),
            is_group: true,
        },
    ];
    let node = panel.try_apply(MaskAction::AddDistNode {
        host: LAYER,
        kind: 4,
    });
    assert_eq!(
        node.effects,
        [MaskEffect::PushNode {
            host: LAYER,
            kind: 4
        }]
    );
    assert_eq!(panel.ctx.dirty_from, Some(LAYER));
    let effect = panel.try_apply(MaskAction::AddDistEffect {
        host: LayerId(11),
        kind: 5,
    });
    assert_eq!(
        effect.effects,
        [
            MaskEffect::AttachEffect {
                host: LayerId(11),
                kind: 5
            },
            MaskEffect::CustomPlacement { group: LayerId(11) },
            MaskEffect::AllLayersDirty,
            MaskEffect::RequestRebuild,
        ]
    );
    let nobody = panel.try_apply(MaskAction::AddDistNode {
        host: LayerId(99),
        kind: 4,
    });
    assert!(nobody.effects.is_empty());
}

#[test]
fn a_mask_stroke_is_undone_as_one() {
    let mut panel = panel();
    panel.masks.push(asset(1.0));
    panel.try_apply(MaskAction::PaintMaskStamp {
        mask: MASK,
        bounded: true,
    });
    panel.try_apply(MaskAction::PaintMaskStamp {
        mask: MASK,
        bounded: true,
    });
    let (before, effects) = panel.commit_mask_paint_stroke();
    assert_eq!(before.unwrap().samples, [0, 1]);
    assert!(effects.contains(&MaskEffect::PushPaintUndo(MASK)));
    assert!(panel.commit_mask_paint_stroke().0.is_none());
}

#[test]
fn a_mask_edit_is_handed_to_its_buffer() {
    let mut panel = panel();
    panel.masks.push(asset(1.0));
    let reply = panel.try_apply(MaskAction::EditMask {
        mask: MASK,
        edit: MaskEdit::FlipX,
    });
    assert!(reply.effects.contains(&MaskEffect::EditPaint {
        mask: MASK,
        edit: MaskEdit::FlipX,
    }));
    let missing = panel.try_apply(MaskAction::EditMask {
        mask: MaskId(99),
        edit: MaskEdit::Clear,
    });
    assert!(!missing.effects.contains(&MaskEffect::EditPaint {
        mask: MaskId(99),
        edit: MaskEdit::Clear,
    }));
}

#[test]
fn sculpt_resize_invalidates_once_and_is_undoable() {
    let mut ctx = ApplyCtx::new();
    let report = resolution::try_apply(
        OwnedRasterTarget::SculptBase(LAYER),
        GridDimensions {
            width: 256,
            height: 128,
        },
        Some(GridDimensions {
            width: 512,
            height: 512,
        }),
        Ok(()),
        &mut ctx,
    );
    assert_eq!(report.status, "Resized stored source to 256 x 128");
    assert!(!report.mask_redraw);
    let mut eval = settled();
    let token_before = eval.core.eval_token;
    apply(&mut eval, &ctx, &seen(), &stack());
    assert_eq!(eval.core.eval_token, token_before.wrapping_add(1));
    assert!(ctx.doc_mutated);
}

#[test]
fn painted_mask_resize_invalidates_once() {
    let mut ctx = ApplyCtx::new();
    let report = resolution::try_apply(
        OwnedRasterTarget::PaintedMask(MASK),
        GridDimensions {
            width: 128,
            height: 512,
        },
        Some(GridDimensions {
            width: 256,
            height: 256,
        }),
        Ok(()),
        &mut ctx,
    );
    let mut eval = settled();
    let token_before = eval.core.eval_token;
    apply(&mut eval, &ctx, &seen(), &stack());
    assert_eq!(eval.core.eval_token, token_before.wrapping_add(1));
    assert!(report.mask_redraw);
    assert!(eval.core.worker_dirty.mark_all);
}

#[test]
fn a_resize_says_when_it_adds_no_detail() {
    let mut ctx = ApplyCtx::new();
    let grow = |ctx: &mut ApplyCtx, outcome: Result<(), String>| {
        resolution::try_apply(
            OwnedRasterTarget::SculptBase(LAYER),
            GridDimensions {
                width: 512,
                height: 512,
            },
            Some(GridDimensions {
                width: 256,
                height: 256,
            }),
            outcome,
            ctx,
        )
    };
    assert_eq!(
        grow(&mut ctx, Ok(())).status,
        "Upsampled stored source to 512 x 512; this does not add source detail"
    );
    let mut untouched = ApplyCtx::new();
    assert_eq!(
        grow(&mut untouched, Err("too large".to_string())).status,
        "Source resize failed: too large"
    );
    assert_eq!(untouched, ApplyCtx::new());
}

const BASE: LayerId = LayerId(1);
const HYDRO: LayerId = LayerId(2);
const SCENARIO: ScenarioId = ScenarioId(5);
const HYDROLOGY_ORDER: u8 = 3;

fn scenario_stack() -> Vec<StackLayer> {
    vec![
        StackLayer {
            id: BASE,
            stage_order: 0,
        },
        StackLayer {
            id: HYDRO,
            stage_order: HYDROLOGY_ORDER,
        },
    ]
}

fn worker_would_recompute(worker: &WorkerDirty, layers: &[StackLayer], layer: LayerId) -> bool {
    if worker.mark_all {
        return true;
    }
    let position = |id: LayerId| layers.iter().position(|entry| entry.id == id);
    match worker.dirty_from {
        Some(from) => {
            matches!((position(from), position(layer)), (Some(f), Some(h)) if f <= h)
        }
        None => false,
    }
}

fn scenario_panel() -> ScenarioPanel {
    let texts = |list: &[&str]| list.iter().map(|text| text.to_string()).collect();
    ScenarioPanel {
        scenarios: vec![ScenarioEntry {
            id: SCENARIO,
            enabled: true,
            passes: texts(&["p1", "p2", "p2"]),
            snapshots: texts(&["s1", "s2"]),
            matters: 2,
        }],
        selected: None,
        outdated: vec![BASE, HYDRO],
    }
}

fn answered(accepted: bool) -> CallAnswer {
    CallAnswer {
        accepted,
        fields: 1,
        bound: vec![HYDRO],
    }
}

fn run_scenario_action(action: ScenarioAction) -> (EvalState, bool) {
    let mut eval = settled();
    let mut ctx = ApplyCtx::new();
    let layers = scenario_stack();
    let reply = scenarios::try_apply(
        action,
        &answered(true),
        &mut scenario_panel(),
        &mut ctx,
        &mut eval.core.worker_dirty,
        &layers,
        HYDROLOGY_ORDER,
    );
    eval.apply_actions(&ctx, &seen(), &layers);
    (eval, reply.rebuild_hydrology)
}

fn scenario_reply(
    panel: &mut ScenarioPanel,
    action: ScenarioAction,
    accepted: bool,
) -> (ScenarioReply, ApplyCtx) {
    let mut ctx = ApplyCtx::new();
    let mut worker = WorkerDirty::clean();
    let reply = scenarios::try_apply(
        action,
        &answered(accepted),
        panel,
        &mut ctx,
        &mut worker,
        &[],
        HYDROLOGY_ORDER,
    );
    assert_eq!(worker, WorkerDirty::clean());
    (reply, ctx)
}

#[test]
fn run_scenario_reaches_worker_for_bound_layer() {
    let (eval, _) = run_scenario_action(ScenarioAction::RunSimulationScenario(SCENARIO));
    assert!(
        worker_would_recompute(&eval.core.worker_dirty, &scenario_stack(), HYDRO),
        "Run must dirty the worker for the bound sim layer"
    );
}

#[test]
fn rebuild_scenario_reaches_worker_for_bound_layer() {
    let (eval, dirties_evaluator) =
        run_scenario_action(ScenarioAction::RebuildSimulationScenario(SCENARIO));
    assert!(
        dirties_evaluator,
        "precondition: Rebuild dirties the UI-thread evaluator"
    );
    assert!(
        worker_would_recompute(&eval.core.worker_dirty, &scenario_stack(), HYDRO),
        "Rebuild must dirty the worker for the bound sim layer, not just the UI evaluator"
    );
}

#[test]
fn apply_outputs_reaches_worker_for_bound_layer() {
    let (eval, dirties_evaluator) = run_scenario_action(ScenarioAction::ApplyScenarioOutputs {
        id: SCENARIO,
        snapshot: None,
    });
    assert!(
        dirties_evaluator,
        "precondition: Apply Outputs dirties the UI-thread evaluator"
    );
    assert!(
        worker_would_recompute(&eval.core.worker_dirty, &scenario_stack(), HYDRO),
        "Apply Outputs must dirty the worker for the bound sim layer"
    );
}

#[test]
fn scenario_commands_remember_what_was_before() {
    let mut panel = scenario_panel();
    panel.scenarios[0].enabled = false;
    let enable = ScenarioAction::SetSimulationScenarioEnabled {
        id: SCENARIO,
        enabled: true,
    };
    let (reply, ctx) = scenario_reply(&mut panel, enable, false);
    assert!(matches!(
        reply.command,
        Some(ScenarioCommand::SetEnabled {
            id: SCENARIO,
            enabled: true,
            previous: false,
        })
    ));
    assert!(ctx.doc_mutated);
    let lava = ScenarioAction::AddMatterSimScenario {
        matter: 4,
        label: "Lava".to_string(),
    };
    let (added, _) = scenario_reply(&mut panel, lava, false);
    assert!(matches!(
        added.command,
        Some(ScenarioCommand::Add {
            scenario: NewScenario::Matter { matter: 4 },
            index: 1
        })
    ));
    assert_eq!(added.status.as_deref(), Some("Added Lava matter scenario"));
    let named = ScenarioAction::AddSimulationScenario {
        name: "Flood".to_string(),
    };
    let (added, _) = scenario_reply(&mut panel, named, false);
    assert!(matches!(
        added.command,
        Some(ScenarioCommand::Add { scenario: NewScenario::Named { name }, index: 1 })
            if name == "Flood"
    ));
}

#[test]
fn scenarios_are_selected_and_a_run_renews_its_layers() {
    let mut panel = scenario_panel();
    let select = ScenarioAction::SelectSimulationScenario(ScenarioId(9));
    let (reply, ctx) = scenario_reply(&mut panel, select, false);
    assert!(reply.command.is_none() && ctx.doc_mutated);
    assert_eq!(panel.selected, Some(ScenarioId(9)));
    let run = ScenarioAction::RunSimulationScenario(SCENARIO);
    assert_eq!(
        scenario_call(&run, &panel.scenarios),
        Some(ScenarioCall::Run { at: 0 })
    );
    let (reply, ctx) = scenario_reply(&mut panel, run, false);
    assert!(reply.rebuild_hydrology);
    assert_eq!(ctx.dirty_from, Some(HYDRO));
    assert_eq!(panel.outdated, [BASE]);
    let unknown = ScenarioAction::RunSimulationScenario(ScenarioId(9));
    assert_eq!(scenario_call(&unknown, &panel.scenarios), None);
    let (reply, ctx) = scenario_reply(&mut panel, unknown, false);
    assert!(reply.rebuild_hydrology && ctx.dirty_from.is_none());
    assert_eq!(reply.status.as_deref(), Some("Running simulation scenario"));
}

#[test]
fn snapshots_are_found_by_the_text_of_their_identity() {
    let panel = scenario_panel();
    let freeze = |snapshot: Option<&str>| ScenarioAction::FreezeScenarioResult {
        id: SCENARIO,
        snapshot: snapshot.map(str::to_string),
    };
    let preview = |snapshot: &str| ScenarioAction::PreviewScenarioSnapshot {
        id: SCENARIO,
        snapshot: snapshot.to_string(),
    };
    let calls = [
        (freeze(None), Some(ScenarioCall::Freeze { at: 0, snapshot: None })),
        (freeze(Some("s2")), Some(ScenarioCall::Freeze { at: 0, snapshot: Some(1) })),
        (freeze(Some("s9")), Some(ScenarioCall::Freeze { at: 0, snapshot: None })),
        (preview("s1"), Some(ScenarioCall::Preview { at: 0, snapshot: 0 })),
        (preview("s9"), None),
    ];
    for (action, call) in &calls {
        assert_eq!(scenario_call(action, &panel.scenarios), *call);
    }
    let mut panel = panel;
    let (reply, ctx) = scenario_reply(&mut panel, freeze(None), true);
    assert_eq!(reply.status.as_deref(), Some("Froze scenario result"));
    assert!(ctx.doc_mutated);
    let (reply, ctx) = scenario_reply(&mut panel, freeze(None), false);
    assert!(reply.status.is_none() && !ctx.doc_mutated);
    let (reply, ctx) = scenario_reply(&mut panel, preview("s9"), true);
    assert!(reply.status.is_none() && !ctx.doc_mutated);
    let (reply, _) = scenario_reply(&mut panel, preview("s2"), true);
    assert_eq!(
        reply.status.as_deref(),
        Some("Previewing old scenario result")
    );
    let compare = ScenarioAction::CompareScenarioSnapshot {
        id: SCENARIO,
        snapshot: Some("s1".to_string()),
    };
    assert_eq!(
        scenario_call(&compare, &panel.scenarios),
        Some(ScenarioCall::Compare { at: 0, snapshot: Some(0) })
    );
    let (reply, _) = scenario_reply(&mut panel, compare, false);
    assert_eq!(reply.status.as_deref(), Some("Compare snapshot set"));
    let apply = ScenarioAction::ApplyScenarioOutputs {
        id: SCENARIO,
        snapshot: None,
    };
    let (reply, _) = scenario_reply(&mut panel, apply, false);
    assert_eq!(
        reply.status.as_deref(),
        Some("Applied 1 scenario output field(s)")
    );
    let cancel = ScenarioAction::CancelSimulationScenario(SCENARIO);
    let (reply, _) = scenario_reply(&mut panel, cancel, false);
    assert_eq!(
        reply.status.as_deref(),
        Some("Cancelled simulation scenario")
    );
}

#[test]
fn an_edit_replaces_the_scenario() {
    let mut panel = scenario_panel();
    let reorder = |pass: &str| ScenarioAction::ReorderScenarioPass {
        id: SCENARIO,
        pass: pass.to_string(),
        to_index: 0,
    };
    let edit = |panel: &mut ScenarioPanel, action: ScenarioAction, accepted: bool| {
        let (reply, ctx) = scenario_reply(panel, action, accepted);
        let paints = reply.select_paint_tool;
        match reply.command {
            Some(ScenarioCommand::Replace { id: SCENARIO, edit }) => {
                assert!(ctx.doc_mutated);
                Some((edit, paints))
            }
            _ => None,
        }
    };
    assert!(matches!(
        edit(&mut panel, reorder("p2"), true),
        Some((ScenarioEdit::MovePass { pass: 1, to_index: 0 }, false))
    ));
    assert!(edit(&mut panel, reorder("p2"), false).is_none());
    assert!(edit(&mut panel, reorder("p9"), true).is_none());
    let reset = ScenarioAction::ResetSimulationScenario(SCENARIO);
    assert!(matches!(
        edit(&mut panel, reset, false),
        Some((ScenarioEdit::Reset, false))
    ));
    let unknown = ScenarioAction::ResetSimulationScenario(ScenarioId(9));
    assert!(edit(&mut panel, unknown, false).is_none());
    let pass = ScenarioAction::AddScenarioPass {
        id: SCENARIO,
        kind: 7,
    };
    assert!(matches!(
        edit(&mut panel, pass, false),
        Some((ScenarioEdit::AddPass { kind: 7 }, false))
    ));
    let paint = |matter_index: usize| ScenarioAction::SetMatterSourcePaint {
        id: SCENARIO,
        matter_index,
        enabled: true,
    };
    assert!(matches!(
        edit(&mut panel, paint(1), false),
        Some((ScenarioEdit::PaintSources { matter: Some(1), enabled: true }, true))
    ));
    assert!(matches!(
        edit(&mut panel, paint(2), false),
        Some((ScenarioEdit::PaintSources { matter: None, enabled: true }, false))
    ));
    let selected = ScenarioAction::SetMatterApplySelected {
        id: SCENARIO,
        matter_index: 0,
        fields: vec![3, 5],
    };
    assert!(matches!(
        edit(&mut panel, selected, false),
        Some((ScenarioEdit::ApplySelected { matter: Some(0), fields }, false))
            if fields == [3, 5]
    ));
}

#[test]
fn a_run_ends_cancelled_or_under_a_new_generation() {
    assert_eq!(end_of_run(true, 4), RunEnd::Cancelled);
    assert_eq!(end_of_run(false, 4), RunEnd::Complete { generation: 5 });
    assert_eq!(
        clear_outdated(&vec![BASE, HYDRO], &vec![HYDRO]),
        vec![BASE]
    );
    let ids = vec!["a".to_string(), "b".to_string(), "b".to_string()];
    assert_eq!(find_text(&ids, "b"), Some(1));
    assert_eq!(find_text(&ids, "c"), None);
}

#[test]
fn a_pass_is_bound_to_a_layer_that_serves_it() {
    let pass = |layer: Option<LayerId>| ScenarioPass {
        enabled: true,
        layer,
        kind: 7,
    };
    let layers = [
        PassLayer {
            id: BASE,
            serves: None,
        },
        PassLayer {
            id: HYDRO,
            serves: Some(7),
        },
    ];
    assert_eq!(
        ensure_scenario_layer(pass(None), &layers),
        PassBinding::Bind(HYDRO)
    );
    assert_eq!(
        ensure_scenario_layer(pass(Some(HYDRO)), &layers),
        PassBinding::Keep
    );
    assert_eq!(
        ensure_scenario_layer(pass(None), &layers[..1]),
        PassBinding::Create
    );
}

#[test]
fn passes_of_one_kind_share_a_new_layer() {
    let pass = |enabled: bool, kind: u16| ScenarioPass {
        enabled,
        layer: None,
        kind,
    };
    let new_layer = |id: u128, kind: u16| PassLayer {
        id: LayerId(id),
        serves: Some(kind),
    };
    let passes = [pass(true, 7), pass(false, 7), pass(true, 7), pass(true, 9)];
    let created = [
        new_layer(50, 7),
        new_layer(51, 7),
        new_layer(52, 7),
        new_layer(53, 9),
    ];
    let (bindings, stack) = ensure_scenario_layers(&passes, &created, vec![]);
    assert_eq!(
        bindings,
        [
            PassBinding::Create,
            PassBinding::Keep,
            PassBinding::Bind(LayerId(50)),
            PassBinding::Create,
        ]
    );
    assert_eq!(stack, [new_layer(50, 7), new_layer(53, 9)]);
}

const RULE: WorldRuleId = WorldRuleId(8);
const MATERIALS_ORDER: u8 = 6;

fn rule(id: WorldRuleId, priority: i32) -> WorldRule {
    let effect = |id: &str| RuleEffect {
        id: id.to_string(),
        enabled: true,
    };
    WorldRule {
        id,
        enabled: true,
        priority,
        scope: RuleScope(1),
        phase: None,
        effects: vec![effect("snow"), effect("rock"), effect("rock")],
    }
}

fn rules() -> WorldRules {
    WorldRules {
        rules: vec![rule(WorldRuleId(7), 1), rule(RULE, 2)],
        selected: None,
    }
}

fn rule_reply(action: WorldRuleAction) -> (WorldRuleReply, WorldRules, ApplyCtx) {
    let mut ctx = ApplyCtx::new();
    let mut document = rules();
    let reply = world_rules::try_apply(action, &mut document, &mut ctx);
    (reply, document, ctx)
}

/// Whether the action dirties the evaluator from the rule's stage on, and whether
/// the worker recomputes a layer of that stage.
fn rule_action_reaches(action: WorldRuleAction) -> (bool, bool) {
    let mut worker = WorkerDirty::clean();
    let layers = [
        StackLayer {
            id: BASE,
            stage_order: 0,
        },
        StackLayer {
            id: HYDRO,
            stage_order: MATERIALS_ORDER,
        },
    ];
    let (reply, _, _) = rule_reply(action);
    let dirties_stage = reply.invalidate_stage_of == Some(RULE);
    if dirties_stage {
        invalidate_rule_stage(&mut worker, &layers, Some(MATERIALS_ORDER));
    }
    assert!(reply.request_rebuild);
    assert!(!worker_would_recompute(&worker, &layers, BASE));
    (
        dirties_stage,
        worker_would_recompute(&worker, &layers, HYDRO),
    )
}

#[test]
fn toggle_world_rule_enabled_reaches_worker() {
    let (evaluator, worker) = rule_action_reaches(WorldRuleAction::SetWorldRuleEnabled {
        id: RULE,
        enabled: false,
    });
    assert!(
        evaluator,
        "precondition: toggling dirties the UI-thread evaluator at the Materials stage"
    );
    assert!(
        worker,
        "toggling a World Rule must dirty the worker for the affected layers"
    );
}

#[test]
fn set_world_rule_phase_reaches_worker() {
    let (evaluator, worker) = rule_action_reaches(WorldRuleAction::SetWorldRulePhase {
        id: RULE,
        phase: Some(RulePhase(6)),
    });
    assert!(
        evaluator,
        "precondition: a phase change dirties the UI-thread evaluator at the Materials stage"
    );
    assert!(
        worker,
        "changing a World Rule's phase must dirty the worker for the affected layers"
    );
}

#[test]
fn reordering_a_rule_keeps_the_old_priorities() {
    let (reply, _, ctx) = rule_reply(WorldRuleAction::ReorderWorldRule {
        id: RULE,
        before: Some(WorldRuleId(7)),
    });
    match reply.command {
        Some(WorldRuleCommand::Reorder {
            source,
            target,
            previous_priorities,
            ..
        }) => {
            assert_eq!((source, target), (1, 0));
            assert_eq!(previous_priorities.len(), 2);
            assert_eq!(previous_priorities[1].priority, 2);
        }
        _ => panic!("expected a reorder"),
    }
    assert!(!reply.request_rebuild && ctx.doc_mutated);
}

#[test]
fn presets_are_added_where_there_are_such() {
    let (unknown, _, ctx) = rule_reply(WorldRuleAction::AddWorldRulePreset {
        name: "Mesa".to_string(),
        rule: None,
    });
    assert_eq!(
        unknown.status.as_deref(),
        Some("Unknown World Rule preset: Mesa")
    );
    assert!(unknown.command.is_none() && !unknown.request_rebuild && !ctx.doc_mutated);
    let (known, _, _) = rule_reply(WorldRuleAction::AddWorldRulePreset {
        name: "Mesa".to_string(),
        rule: Some(rule(WorldRuleId(30), 5)),
    });
    assert_eq!(
        known.status.as_deref(),
        Some("Added World Rule preset Mesa")
    );
    assert!(matches!(
        known.command,
        Some(WorldRuleCommand::Add { rule, index: 2 })
            if rule.id == WorldRuleId(30) && rule.priority == 5
    ));
    let (added, _, _) = rule_reply(WorldRuleAction::AddWorldRule {
        rule: rule(WorldRuleId(31), 0),
    });
    assert!(added.request_rebuild);
    assert!(matches!(
        added.command,
        Some(WorldRuleCommand::Add { index: 2, .. })
    ));
}

#[test]
fn a_rule_is_replaced_by_its_edited_copy() {
    let replaced = |action: WorldRuleAction| match rule_reply(action).0.command {
        Some(WorldRuleCommand::Replace {
            id: RULE,
            before,
            after,
        }) => (before, after),
        other => panic!("expected a replacement: {other:?}"),
    };
    let flags = |rule: &WorldRule| rule.effects.iter().map(|e| e.enabled).collect::<Vec<_>>();
    let (before, after) = replaced(WorldRuleAction::SetWorldRuleScope {
        id: RULE,
        scope: RuleScope(5),
    });
    assert_eq!((before.scope, after.scope), (RuleScope(1), RuleScope(5)));
    assert_eq!(after.phase, None);
    let (before, after) = replaced(WorldRuleAction::SetWorldRulePhase {
        id: RULE,
        phase: Some(RulePhase(6)),
    });
    assert_eq!((before.phase, after.phase), (None, Some(RulePhase(6))));
    assert_eq!(after.scope, RuleScope(1));
    let (before, after) = replaced(WorldRuleAction::ToggleWorldRuleEffect {
        rule: RULE,
        effect: "rock".to_string(),
        enabled: false,
    });
    assert_eq!(flags(&before), [true, true, true]);
    assert_eq!(flags(&after), [true, false, true]);
    assert_eq!(after.effects[1].id, "rock");
    let (_, after) = replaced(WorldRuleAction::ToggleWorldRuleEffect {
        rule: RULE,
        effect: "sand".to_string(),
        enabled: false,
    });
    assert_eq!(flags(&after), [true, true, true]);
}

#[test]
fn rules_that_are_not_there_are_left_alone() {
    let gone = WorldRuleId(99);
    let scope = WorldRuleAction::SetWorldRuleScope {
        id: gone,
        scope: RuleScope(5),
    };
    for action in [scope, WorldRuleAction::RemoveWorldRule(gone)] {
        let (reply, _, ctx) = rule_reply(action);
        assert!(reply.command.is_none() && !reply.request_rebuild && !ctx.doc_mutated);
    }
    let (removed, document, _) = rule_reply(WorldRuleAction::RemoveWorldRule(RULE));
    assert!(matches!(
        removed.command,
        Some(WorldRuleCommand::Remove { rule, index: 1 }) if rule.id == RULE
    ));
    assert_eq!(document.rules.len(), 2, "the command removes it");
    let (reply, document, ctx) = rule_reply(WorldRuleAction::SelectWorldRule(gone));
    assert_eq!(document.selected, Some(gone));
    assert!(ctx.doc_mutated && !reply.request_rebuild);
}

#[test]
fn a_batch_edits_the_plan_as_little_as_it_can() {
    let ctx = ApplyCtx {
        dirty_from: Some(LAYER),
        ..ApplyCtx::new()
    };
    let mut eval = settled();
    eval.apply_actions(&ctx, &seen(), &stack());
    assert_eq!(
        eval.pending_plan_edits,
        [PlanEdit::Parameters {
            node: NodeRef::Layer(LAYER)
        }]
    );
    let mut changed = settled();
    changed.apply_actions(
        &ctx,
        &BatchObservation {
            plan_shape_matches: false,
            ..seen()
        },
        &stack(),
    );
    assert_eq!(changed.pending_plan_edits, [PlanEdit::Structure]);
}

#[test]
fn a_plan_keeps_its_shape_while_the_kernel_does() {
    let ops = vec![KernelOp {
        layer: LAYER,
        type_id: "noise".to_string(),
    }];
    assert!(plan_owner_shape_matches(&ops, LAYER, EditedNode::Layer("noise")));
    assert!(!plan_owner_shape_matches(&ops, LAYER, EditedNode::Layer("flat")));
    assert!(plan_owner_shape_matches(&ops, LAYER, EditedNode::Group(1)));
    assert!(!plan_owner_shape_matches(&ops, LAYER, EditedNode::Group(0)));
    assert!(!plan_owner_shape_matches(&ops, LAYER, EditedNode::Missing));
}

#[test]
fn base_dabs_in_tree_are_content_only_plan_cache_hits() {
    let mut eval = settled();
    for u in [0.48, 0.50, 0.52] {
        let mut ctx = ApplyCtx::new();
        paint_bounded_sculpt_stamp(
            &mut ctx,
            LAYER,
            true,
            target(true, true, "Base"),
            "Raise",
            rect(u, 0.5, 0.04),
            None,
        );
        eval.apply_actions(
            &ctx,
            &BatchObservation {
                edited_is_sculpt_base: true,
                ..seen()
            },
            &stack(),
        );
        let edits = std::mem::take(&mut eval.pending_plan_edits);
        assert!(edits
            .iter()
            .all(|edit| matches!(edit, PlanEdit::Content { layer, .. } if *layer == LAYER)));
        assert_eq!(edits.len(), 1);
    }
}

fn declines() -> Verdict {
    Verdict {
        owned: false,
        skip: false,
    }
}

/// The domains that an action meets, and how it ends.
fn way(verdict: impl Fn(Domain) -> Verdict) -> (Vec<Domain>, ChainStep) {
    let mut met = Vec::new();
    let mut domain = Domain::Resolution;
    loop {
        met.push(domain);
        match domain.after(verdict(domain)) {
            ChainStep::Offer(next) => domain = next,
            end => return (met, end),
        }
    }
}

#[test]
fn an_action_is_handed_on_until_it_is_owned() {
    let (met, end) = way(|_| declines());
    assert_eq!(
        met,
        [
            Domain::Resolution,
            Domain::Layers,
            Domain::Masks,
            Domain::Biomes,
            Domain::WorldRules,
            Domain::Scenarios,
            Domain::Settings,
            Domain::Tools,
        ]
    );
    assert_eq!(end, ChainStep::Unhandled);
    let (met, end) = way(|domain| Verdict {
        owned: domain == Domain::Biomes,
        ..declines()
    });
    assert_eq!(met.last(), Some(&Domain::Biomes));
    assert_eq!(met.len(), 4);
    assert_eq!(end, ChainStep::Done);
}

#[test]
fn a_skipped_action_is_not_offered_further() {
    let skip = |at: Domain| {
        way(move |domain| Verdict {
            skip: domain == at,
            ..declines()
        })
    };
    assert_eq!(skip(Domain::Masks).0.len(), 3);
    assert_eq!(skip(Domain::Masks).1, ChainStep::Done);
    assert_eq!(skip(Domain::Resolution).0.len(), 8);
    assert_eq!(skip(Domain::Tools).1, ChainStep::Unhandled);
}
