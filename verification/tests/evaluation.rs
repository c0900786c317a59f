//! Requests for evaluation, the worker's scope and failures.

use terra_app::clock::{Duration, Instant};
use terra_app::dirty::{
    interactive_resolution, uv_to_texel_rect, FullField, LayerId, ScaledEdges, StackLayer,
    TexelRect, UvRect, WorkerDirty,
};
use terra_app::eval::{
    quality_label, BuildProgress, DeferredFullField, EvalEffect, EvalState, FrameDeadlineKind,
    PlanEdit, RefineTiming, VisibleResolution,
};
use terra_app::eval_step::{gpu_evaluation_trace_context, StepObservation};
use terra_app::frame_trace::EvaluationTraceId;
use terra_app::logical_frame::{EditGeneration, FrameIdentity, LogicalFrameId};
use terra_app::quality::{GpuEvaluationIntent, PreviewQuality};

const FLAT: LayerId = LayerId(10);

const TIMING: RefineTiming = RefineTiming {
    refine_interval: Duration { nanos: 250_000_000 },
    post_input_grace: Duration { nanos: 400_000_000 },
};

fn at(millis: u64) -> Instant {
    Instant {
        nanos: 5_000_000_000 + Duration::from_millis(millis).nanos,
    }
}

fn rect(u: f32, v: f32, r: f32) -> UvRect {
    UvRect {
        min_u: (u - r).clamp(0.0, 1.0).to_bits(),
        min_v: (v - r).clamp(0.0, 1.0).to_bits(),
        max_u: (u + r).clamp(0.0, 1.0).to_bits(),
        max_v: (v + r).clamp(0.0, 1.0).to_bits(),
    }
}

fn stack() -> Vec<StackLayer> {
    vec![StackLayer {
        id: FLAT,
        stage_order: 0,
    }]
}

/// State right after a completed job: nothing pending.
fn settled() -> EvalState {
    let mut eval = EvalState::new(at(0));
    eval.core.worker_dirty = WorkerDirty::clean();
    eval
}

fn small_scope() -> FullField {
    FullField {
        preview_resolution: 512,
        tile_count: Some(16),
        scope_tiles: 1,
    }
}

fn edges(region: [f32; 4], width: u32, height: u32) -> Option<ScaledEdges> {
    if !region.iter().all(|edge| edge.is_finite()) {
        return None;
    }
    let scaled = |edge: f32, extent: u32| edge.clamp(0.0, 1.0) * extent as f32;
    Some(ScaledEdges {
        min_x: scaled(region[0], width).floor() as u32,
        min_y: scaled(region[1], height).floor() as u32,
        max_x: scaled(region[2], width).ceil() as u32,
        max_y: scaled(region[3], height).ceil() as u32,
    })
}

fn texels(region: [f32; 4], width: u32, height: u32) -> (u32, u32, u32, u32) {
    let TexelRect { x, y, w, h } =
        uv_to_texel_rect(edges(region, width, height), width, height);
    (x, y, w, h)
}

#[test]
fn gpu_dirty_uv_is_converted_at_each_evaluation_resolution() {
    let region = [0.25, 0.5, 0.251, 0.502];
    assert_eq!(texels(region, 512, 512), (128, 256, 1, 2));
    assert_eq!(texels(region, 4096, 4096), (1024, 2048, 5, 9));
    assert_eq!(texels(region, 512, 256), (128, 128, 1, 1));
}

#[test]
fn invalid_gpu_dirty_uv_escalates_to_whole_field() {
    let region = [f32::NAN, 0.0, 1.0, 1.0];
    assert_eq!(texels(region, 512, 256), (0, 0, 512, 256));
}

#[test]
fn an_empty_texture_has_no_dirty_texels() {
    assert_eq!(texels([0.0, 0.0, 1.0, 1.0], 0, 256), (0, 0, 0, 0));
    assert_eq!(texels([2.0, 2.0, 2.0, 2.0], 4, 4), (3, 3, 1, 1));
}

#[test]
fn gpu_output_generation_is_independent_of_logical_frame_generation() {
    let logical_frame = FrameIdentity {
        id: LogicalFrameId::new(7),
        generation_at_start: EditGeneration::new(0),
        generation: EditGeneration::new(0),
    };
    let context = gpu_evaluation_trace_context(Some(logical_frame), 2, EvaluationTraceId::new(11));

    assert_eq!(context.frame_id, 7);
    assert_eq!(context.generation, 2);
    assert_eq!(context.evaluation_id, 11);
    assert_eq!(logical_frame.generation.get(), 0);
}

#[test]
fn full_field_suffix_deadline_starts_once_after_gesture_end() {
    let mut pending = DeferredFullField {
        generation: 7,
        layer_name: "Rivers".into(),
        deferred_layers: 3,
        settle_at: None,
    };
    pending.hold_during_gesture();
    assert_eq!(pending.settle_at, None);

    assert!(pending.arm_after_gesture(at(20)));
    let deadline = at(20 + 75);
    assert_eq!(pending.settle_at, Some(deadline));
    assert!(!pending.arm_after_gesture(at(20 + 40)));
    assert_eq!(
        pending.settle_at,
        Some(deadline),
        "idle ticks must not debounce"
    );
    assert!(!pending.ready(7, at(20 + 75 - 1)));
    assert!(pending.ready(7, deadline));
    assert!(
        !pending.ready(8, deadline),
        "stale generations never publish"
    );
}

#[test]
fn enqueue_copies_dirty_accumulators_instead_of_draining() {
    let mut eval = settled();
    let region = rect(0.4, 0.4, 0.05);
    eval.core.worker_dirty = WorkerDirty {
        mark_all: false,
        dirty_from: Some(FLAT),
        region: Some(region),
    };

    let request = eval.enqueue_async_eval(PreviewQuality::Draft, None, small_scope());
    eval.async_eval_submitted();

    assert!(eval.core.worker_refine_pending, "the job was submitted");
    assert_eq!(
        eval.core.worker_dirty.dirty_from,
        Some(FLAT),
        "dirty_from must survive submit (copied, not drained)"
    );
    assert_eq!(
        eval.core.worker_dirty.region,
        Some(region),
        "the UV scope must survive submit for re-carry on a dequeue-skip"
    );
    assert!(!eval.core.worker_dirty.mark_all);
    assert_eq!(request.scope, eval.core.worker_dirty);
    assert_eq!(request.preview_res, 512);
}

#[test]
fn track_worker_dirty_from_unions_and_escalates_region() {
    let layers = stack();
    let mut scope = WorkerDirty::clean();

    let a = rect(0.2, 0.2, 0.03);
    let b = rect(0.8, 0.8, 0.03);
    scope.track_worker_dirty_from(&layers, FLAT, Some(a));
    assert_eq!(scope.dirty_from, Some(FLAT));
    assert_eq!(scope.region, Some(a), "first bounded edit seeds");

    scope.track_worker_dirty_from(&layers, FLAT, Some(b));
    assert_eq!(
        scope.region,
        Some(a.union(b)),
        "a second bounded edit unions the scope"
    );

    scope.track_worker_dirty_from(&layers, FLAT, None);
    assert_eq!(
        scope.region, None,
        "a footprint-less edit escalates the scope to whole-field"
    );

    scope.track_worker_dirty_from(&layers, FLAT, Some(a));
    assert_eq!(
        scope.region, None,
        "a bounded edit after escalation must not narrow the whole-field scope"
    );
}

#[test]
fn a_union_is_the_smallest_box_around_both() {
    let joined = rect(0.2, 0.2, 0.1).union(rect(0.8, 0.6, 0.1));
    assert_eq!(joined.min_u, (0.2f32 - 0.1).to_bits());
    assert_eq!(joined.max_u, (0.8f32 + 0.1).to_bits());
    assert_eq!(joined.min_v, (0.2f32 - 0.1).to_bits());
    assert_eq!(joined.max_v, (0.6f32 + 0.1).to_bits());
}

#[test]
fn an_edit_of_an_unknown_layer_dirties_everything() {
    let mut scope = WorkerDirty::clean();
    scope.track_worker_dirty_from(&stack(), LayerId(99), Some(rect(0.5, 0.5, 0.1)));
    assert!(scope.mark_all);
    assert_eq!(scope.region, None);
}

#[test]
fn the_suffix_starts_at_the_earlier_layer() {
    let layers = vec![
        StackLayer { id: LayerId(1), stage_order: 0 },
        StackLayer { id: LayerId(2), stage_order: 3 },
        StackLayer { id: LayerId(3), stage_order: 5 },
    ];
    let mut scope = WorkerDirty::clean();
    scope.track_worker_dirty_from(&layers, LayerId(3), None);
    scope.track_worker_dirty_from(&layers, LayerId(2), None);
    assert_eq!(scope.dirty_from, Some(LayerId(2)));
    scope.track_worker_dirty_from(&layers, LayerId(3), None);
    assert_eq!(scope.dirty_from, Some(LayerId(2)));

    let mut staged = WorkerDirty::clean();
    staged.track_worker_dirty_from_eval_stage(&layers, 4);
    assert_eq!(staged.dirty_from, Some(LayerId(3)));
    let mut later = WorkerDirty::clean();
    later.track_worker_dirty_from_eval_stage(&layers, 6);
    assert_eq!(later, WorkerDirty::clean());
}

#[test]
fn footprintless_triggers_escalate_region_to_none() {
    let bounded = WorkerDirty {
        mark_all: false,
        dirty_from: Some(FLAT),
        region: Some(rect(0.5, 0.5, 0.02)),
    };
    {
        let mut eval = settled();
        eval.core.worker_dirty = bounded;
        eval.mark_dirty_from(&stack(), FLAT);
        assert_eq!(eval.core.worker_dirty.region, None, "param edit escalates");
    }
    {
        let mut eval = settled();
        eval.core.worker_dirty = WorkerDirty {
            dirty_from: None,
            ..bounded
        };
        eval.mark_all_layers_dirty();
        assert!(eval.core.worker_dirty.mark_all);
        assert_eq!(
            eval.core.worker_dirty.region, None,
            "mark_all clears the scope"
        );
    }
    {
        let mut eval = settled();
        eval.core.worker_dirty = bounded;
        eval.core
            .worker_dirty
            .track_worker_dirty_from_eval_stage(&stack(), 0);
        assert_eq!(eval.core.worker_dirty.region, None, "stage dirty escalates");
    }
}

#[test]
fn straight_to_full_gate_promotes_only_over_a_full_cache() {
    let mut eval = settled();
    let full_res = interactive_resolution(512);
    eval.core.worker_dirty = WorkerDirty {
        mark_all: false,
        dirty_from: Some(FLAT),
        region: Some(rect(0.5, 0.5, 0.02)),
    };

    eval.core.worker_cache_res = None;
    eval.core.scheduler_quality = PreviewQuality::Draft;
    assert_eq!(
        eval.straight_to_full_quality(PreviewQuality::Draft, small_scope()),
        PreviewQuality::Draft,
        "a cold worker cache keeps the Draft-first ladder"
    );
    assert_eq!(eval.core.scheduler_quality, PreviewQuality::Draft);

    eval.core.worker_cache_res = Some(full_res);
    assert_eq!(
        eval.straight_to_full_quality(PreviewQuality::Draft, small_scope()),
        PreviewQuality::Full,
        "a bounded scope over a Full cache submits straight at Full"
    );
    assert_eq!(eval.core.scheduler_quality, PreviewQuality::Full);
    assert_eq!(eval.ui.quality, PreviewQuality::Full);
}

#[test]
fn straight_to_full_gate_declines_without_a_bounded_scope() {
    let mut eval = settled();
    eval.core.worker_cache_res = Some(interactive_resolution(512));
    eval.core.worker_dirty = WorkerDirty {
        mark_all: false,
        dirty_from: Some(FLAT),
        region: None,
    };

    assert_eq!(
        eval.straight_to_full_quality(PreviewQuality::Draft, small_scope()),
        PreviewQuality::Draft,
        "no bounded scope: the ladder runs normally"
    );
}

#[test]
fn a_wide_scope_takes_the_ladder() {
    let mut eval = settled();
    eval.core.worker_cache_res = Some(512);
    eval.core.worker_dirty = WorkerDirty {
        mark_all: false,
        dirty_from: Some(FLAT),
        region: Some(rect(0.5, 0.5, 0.4)),
    };
    let wide = FullField {
        scope_tiles: 5,
        ..small_scope()
    };
    assert_eq!(
        eval.straight_to_full_quality(PreviewQuality::Draft, wide),
        PreviewQuality::Draft
    );
    assert_eq!(
        eval.straight_to_full_quality(
            PreviewQuality::Draft,
            FullField {
                scope_tiles: 4,
                ..wide
            }
        ),
        PreviewQuality::Full
    );
}

#[test]
fn a_small_grid_has_no_tile_to_promote() {
    let gate = |tiles: u32, scope: u32, requested: PreviewQuality| {
        let mut eval = settled();
        eval.core.worker_cache_res = Some(512);
        eval.core.worker_dirty = WorkerDirty {
            mark_all: false,
            dirty_from: Some(FLAT),
            region: Some(rect(0.5, 0.5, 0.02)),
        };
        let field = FullField {
            preview_resolution: 512,
            tile_count: Some(tiles),
            scope_tiles: scope,
        };
        eval.straight_to_full_quality(requested, field)
    };
    for tiles in 1..4 {
        assert_eq!(gate(tiles, 1, PreviewQuality::Draft), PreviewQuality::Draft);
        assert_eq!(gate(tiles, 1, PreviewQuality::Medium), PreviewQuality::Medium);
    }
    assert_eq!(gate(4, 1, PreviewQuality::Draft), PreviewQuality::Full);
    assert_eq!(gate(7, 1, PreviewQuality::Medium), PreviewQuality::Full);
    assert_eq!(gate(7, 2, PreviewQuality::Medium), PreviewQuality::Medium);
    assert_eq!(gate(8, 2, PreviewQuality::Medium), PreviewQuality::Full);
    assert_eq!(gate(16, 1, PreviewQuality::Export), PreviewQuality::Export);
}

#[test]
fn interactive_work_is_capped() {
    assert_eq!(interactive_resolution(4096), 4096);
    assert_eq!(interactive_resolution(16384), 8192);
}

#[test]
fn add_layer_keeps_last_good_until_async_cpu_evaluation_publishes() {
    let mut eval = settled();
    let published_before = eval.ui.profile.cpu_published;

    eval.request_rebuild_immediate(None, at(1), TIMING);

    assert!(
        eval.core.pending_eval,
        "the add-layer edit must queue Draft evaluation"
    );
    assert!(
        eval.core.force_draft,
        "the queued evaluation must start at Draft quality"
    );
    assert!(!eval.core.worker_refine_pending);

    let step = eval.run_eval_step_with_intent(
        GpuEvaluationIntent::InteractiveLocal,
        StepObservation {
            selected_is_bounded_sculpt: false,
            selected_layer_name: Some("Unsupported SPE".to_string()),
            full_resolution: 512,
            texture: None,
        },
    );
    assert_eq!(step.quality, PreviewQuality::Draft);
    assert!(
        eval.cpu_last_resort(false),
        "CPU fallback must be owned by the worker"
    );
    eval.enqueue_async_eval(step.quality, None, small_scope());
    eval.async_eval_submitted();

    assert!(eval.core.worker_refine_pending);
    assert_eq!(eval.ui.profile.path.label(), "async CPU");
    assert_eq!(
        eval.ui.profile.cpu_published, published_before,
        "the viewport must retain last-good until the worker result is consumed"
    );
}

#[test]
fn current_worker_failure_clears_pending_state_and_preserves_last_good() {
    let mut eval = settled();
    eval.core.eval_token = 23;
    eval.core.worker_refine_pending = true;
    eval.ui.refining = true;
    eval.ui.build_progress = Some(BuildProgress::Begun);
    eval.texts.refining_layer_name = Some("Hydraulic Erosion".into());
    let needs_upload = eval.core.needs_height_upload;

    eval.handle_evaluation_failure_details(
        23,
        PreviewQuality::Full,
        None,
        false,
        "synthetic worker failure".to_string(),
    );

    assert!(!eval.core.worker_refine_pending);
    assert!(!eval.ui.refining);
    assert_eq!(eval.ui.build_progress, None);
    assert_eq!(eval.texts.refining_layer_name, None);
    assert!(eval.texts.status.contains("last good preview"));
    let failure = eval
        .texts
        .evaluation_failure
        .as_ref()
        .expect("persistent evaluation failure");
    assert_eq!(failure.layer_name.as_deref(), Some("Hydraulic Erosion"));
    assert_eq!(failure.quality, PreviewQuality::Full);
    assert!(failure.message.contains("synthetic worker failure"));
    assert!(!failure.worker_restarted);
    assert_eq!(eval.core.needs_height_upload, needs_upload);
}

#[test]
fn stale_worker_failure_does_not_cancel_current_generation() {
    let mut eval = settled();
    eval.core.eval_token = 31;
    eval.core.worker_refine_pending = true;
    eval.ui.refining = true;
    eval.ui.build_progress = Some(BuildProgress::Begun);

    eval.handle_evaluation_failure_details(
        30,
        PreviewQuality::Draft,
        None,
        false,
        "stale failure".to_string(),
    );

    assert!(eval.core.worker_refine_pending);
    assert!(eval.ui.refining);
    assert_eq!(eval.ui.build_progress, Some(BuildProgress::Begun));
    assert!(eval.texts.evaluation_failure.is_none());
}

#[test]
fn restarted_worker_failure_is_actionable_and_preserves_last_good() {
    let mut eval = settled();
    eval.core.eval_token = 44;
    let needs_upload = eval.core.needs_height_upload;

    eval.handle_evaluation_failure_details(
        44,
        PreviewQuality::Medium,
        Some("Crater".into()),
        true,
        "worker disconnected".to_string(),
    );

    let failure = eval
        .texts
        .evaluation_failure
        .as_ref()
        .expect("persistent failure");
    assert_eq!(failure.layer_name.as_deref(), Some("Crater"));
    assert!(failure.worker_restarted);
    assert!(eval.texts.status.contains("worker restarted"));
    assert_eq!(eval.core.needs_height_upload, needs_upload);
}

#[test]
fn a_rejected_job_is_a_failure_after_a_restart() {
    let mut eval = settled();
    eval.core.eval_token = 5;
    let effects = eval.async_eval_rejected(PreviewQuality::Draft, "queue closed".to_string());
    assert!(effects.contains(&EvalEffect::RestartWorker));
    let failure = eval.texts.evaluation_failure.as_ref().unwrap();
    assert_eq!(
        failure.message,
        "evaluation worker submission failed: queue closed"
    );
    assert!(failure.worker_restarted);
}

#[test]
fn a_rebuild_outdates_what_is_in_flight() {
    let mut eval = settled();
    eval.core.eval_token = 8;
    eval.core.worker_refine_pending = true;
    let effects = eval.request_rebuild_immediate(
        Some(VisibleResolution {
            texture_width: 512,
            preview_resolution: 512,
            medium: 256,
        }),
        at(1),
        TIMING,
    );
    assert_eq!(eval.core.eval_token, 9);
    assert!(!eval.core.worker_refine_pending);
    assert!(effects.contains(&EvalEffect::SetWorkerToken(9)));
    assert!(effects.contains(&EvalEffect::DiscardStaleDeadlines(EditGeneration::new(9))));
    eval.handle_evaluation_failure_details(
        8,
        PreviewQuality::Draft,
        None,
        false,
        "late".to_string(),
    );
    assert!(eval.texts.evaluation_failure.is_none());
}

#[test]
fn a_debounced_rebuild_waits_for_its_deadline() {
    let mut eval = settled();
    let effects = eval.request_rebuild(3, Some("Ridge".to_string()), 90, at(1), TIMING);
    assert!(eval.core.pending_eval);
    assert!(!eval.core.pending_eval_immediate);
    assert_eq!(eval.core.eval_token, 3);
    assert!(effects.contains(&EvalEffect::ScheduleDeadline {
        kind: FrameDeadlineKind::InteractiveEvaluation,
        generation: EditGeneration::new(3),
        after: Duration::from_millis(90),
    }));
}

#[test]
fn the_visible_texture_tells_its_quality() {
    let seen = |texture_width: u32| VisibleResolution {
        texture_width,
        preview_resolution: 1024,
        medium: 512,
    };
    assert_eq!(seen(1024).quality(), PreviewQuality::Full);
    assert_eq!(seen(512).quality(), PreviewQuality::Medium);
    assert_eq!(seen(256).quality(), PreviewQuality::Draft);
}

#[test]
fn a_shape_edit_dirties_the_session_layer_first() {
    assert_eq!(
        EvalState::shape_dirty_target(Some(LayerId(1)), Some(LayerId(2))),
        Some(LayerId(1))
    );
    assert_eq!(EvalState::shape_dirty_target(None, Some(LayerId(2))), Some(LayerId(2)));
    assert_eq!(EvalState::shape_dirty_target(None, None), None);
}

#[test]
fn a_parameter_edit_leaves_the_structure_to_the_batch() {
    let mut eval = settled();
    eval.mark_dirty_from(&stack(), FLAT);
    assert_eq!(eval.core.worker_dirty.dirty_from, Some(FLAT));
    assert!(!eval.pending_plan_edits.contains(&PlanEdit::Parameters {
        node: terra_app::eval::NodeRef::Group(FLAT)
    }));
}

#[test]
fn a_refinement_on_the_worker_shows_once_it_is_answered() {
    let mut eval = settled();
    eval.refine_on_worker(PreviewQuality::Medium);
    assert_eq!(eval.core.scheduler_quality, PreviewQuality::Medium);
    assert_eq!(eval.ui.quality, PreviewQuality::Medium);
    assert_eq!(eval.ui.build_progress, None);
    eval.worker_refinement_submitted(PreviewQuality::Medium);
    assert_eq!(
        eval.ui.build_progress,
        Some(BuildProgress::InFlight {
            quality: PreviewQuality::Medium,
            elapsed: Duration { nanos: 0 },
        })
    );
}

#[test]
fn qualities_have_names_in_the_profile() {
    assert_eq!(quality_label(PreviewQuality::Draft), "Draft (fast)");
    assert_eq!(quality_label(PreviewQuality::Medium), "Medium");
    assert_eq!(quality_label(PreviewQuality::Full), "Final (viewport)");
    assert_eq!(quality_label(PreviewQuality::Export), "Export quality");
}
