//! The event loop: capture, replay, turns and shutdown.

use terra_app::clock::{Duration, Instant};
use terra_app::dirty::WorkerDirty;
use terra_app::eval::{
    BuildProgress, DeferredFullField, EvalEffect, FrameDeadlineKind, RefineTiming,
    TerrainPreviewFreshness,
};
use terra_app::frame_trace::FrameTraceEventKind;
use terra_app::input::{
    ElementState, InputEvent, InputModifiers, KeyCode, MouseButton, PointerCancelReason,
};
use terra_app::interaction::{
    apply_camera_fly, CameraKeys, CameraMotion, CursorPosition, FlyPlan, FollowUp, InputEffect,
    Interaction, KeyboardFocus, PointerContext,
};
use terra_app::lifecycle::{
    BootStanding, DeviceLostReason, EvaluationTiming, PresentationContext, PresentationTimings,
    Runtime, RuntimeEvent, SurfaceSize, WindowSignal, WindowStep,
};
use terra_app::logical_frame::{EditGeneration, FramePhase, FrameRequestReason};
use terra_app::paint::{BiomePaintTool, EditorTool, PaintGates, PaintPoint, StrokeState};
use terra_app::quality::{GpuEvaluationIntent, PreviewQuality};
use terra_app::turn::{
    boot_turn, export_turn, EditorSight, ExportTurn, HighDetailMode, JobsTick, LoopWake, Turn,
    TurnStart,
};
use terra_app::worker_events::{WorkerCompletion, WorkerEvent, WorkerStep};

const GRACE: Duration = Duration { nanos: 400_000_000 };

const TIMING: RefineTiming = RefineTiming {
    refine_interval: Duration { nanos: 250_000_000 },
    post_input_grace: GRACE,
};

fn at(millis: u64) -> Instant {
    Instant {
        nanos: 5_000_000_000 + Duration::from_millis(millis).nanos,
    }
}

fn runtime() -> Runtime {
    Runtime::new(Duration::from_millis(8), Some("verbose"), at(0))
}

fn gates() -> PaintGates {
    PaintGates {
        in_editor: true,
        gui_wants_pointer: false,
        cursor_in_viewport: true,
        modifiers_alt: false,
        tool: EditorTool::Other(0),
        tool_is_sculpt: false,
        tool_is_place_point: false,
        has_sculpt_stroke: false,
        foundation_supports: None,
        has_active_biome: false,
        has_paint_mask: false,
        has_selected_mask: false,
        mask_view: false,
    }
}

fn context() -> PointerContext {
    PointerContext {
        gates: gates(),
        gizmo_owns_click: false,
        right_travel_is_click: true,
        dragging_shape_point: false,
        dragging_layer_point: false,
        has_renderer: true,
        over_chrome: false,
    }
}

fn focus() -> KeyboardFocus {
    KeyboardFocus {
        in_editor: true,
        wants_text_input: false,
        quick_add_open: false,
        command_palette_open: false,
        renaming: false,
        tool_search_focused: false,
        tool_search_empty: true,
        context_menu_open: false,
        project_action_pending: false,
        template_picker_open: false,
        mask_view: false,
        biome_tool: BiomePaintTool::Paint,
        polygon_vertices: 0,
        has_active_biome: false,
    }
}

fn sight() -> EditorSight {
    EditorSight {
        gates: gates(),
        dragging_shape_point: false,
        dragging_layer_point: false,
        gui_interacting: false,
        scene_meaningful: false,
        placement_tint_dirty: false,
        mask_overlay_dirty: false,
    }
}

fn quiet_turn() -> Turn {
    Turn {
        in_editor: true,
        input_processed: false,
        ui_effects_applied: false,
        surface_changed: false,
        camera_flying: false,
        export_busy: false,
        jobs: JobsTick {
            any_pending: false,
            animate: false,
            redraw: false,
        },
        live_paint: false,
        did_eval: false,
    }
}

fn left(state: ElementState) -> InputEvent {
    InputEvent::PointerButton {
        state,
        button: MouseButton::Left,
    }
}

#[test]
fn repeated_focus_and_capture_loss_cancel_a_pointer_gesture_once() {
    let mut interaction = Interaction::new();
    let mut stroke = StrokeState::idle();
    interaction.mouse_pressed = Some(MouseButton::Left);
    let first = interaction.apply_input_event(
        &mut stroke,
        InputEvent::PointerCancelled(PointerCancelReason::FocusLost),
        &focus(),
        &context(),
    );
    assert!(first.redraw);
    assert_eq!(first.follow_up, FollowUp::FinishStroke);
    assert_eq!(interaction.mouse_pressed, None);
    let second = interaction.apply_input_event(
        &mut stroke,
        InputEvent::PointerCancelled(PointerCancelReason::CaptureLost),
        &focus(),
        &context(),
    );
    assert!(second.redraw);
    assert_eq!(second.follow_up, FollowUp::Nothing);
    assert_eq!(interaction.mouse_pressed, None);
}

#[test]
fn resize_capture_coalesces_to_the_latest_size() {
    let mut app = runtime();
    app.capture_surface_resize(
        SurfaceSize {
            width: 800,
            height: 600,
        },
        at(1),
    );
    app.capture_surface_resize(
        SurfaceSize {
            width: 1200,
            height: 700,
        },
        at(2),
    );
    assert_eq!(
        app.waiting.surface_resize,
        Some(SurfaceSize {
            width: 1200,
            height: 700,
        })
    );
    assert!(app.frames.has_pending());
    let changes = app.apply_surface_changes(at(3));
    assert!(changes.changed());
    assert!(!app.apply_surface_changes(at(4)).changed());
}

#[test]
fn device_loss_requests_controlled_shutdown() {
    let mut app = runtime();
    app.handle_runtime_event(
        RuntimeEvent::DeviceLost {
            reason: DeviceLostReason::Unknown,
            message: "injected".into(),
        },
        at(1),
    );
    assert!(app.frames.shutdown_requested());
    assert!(app.eval.texts.status.contains("injected"));
}

#[test]
fn shutdown_clears_pending_input_and_work() {
    let mut app = runtime();
    app.queue_input(InputEvent::CursorEntered, at(1), GRACE);
    app.eval.core.pending_eval = true;
    app.eval.core.pending_eval_immediate = true;
    app.eval.core.worker_refine_pending = true;
    app.frames
        .request_shutdown(EditGeneration::new(app.eval.core.eval_token));

    app.prepare_shutdown(at(2));

    assert!(!app.input.has_pending());
    assert!(!app.eval.core.pending_eval);
    assert!(!app.eval.core.pending_eval_immediate);
    assert!(!app.eval.core.worker_refine_pending);
    assert!(!app.frames.has_pending());
    assert_eq!(app.frames.active_identity(), None);
    assert_eq!(app.frames.take_presentation_identity(), None);
}

#[test]
fn capturing_a_press_applies_nothing_and_delays_refinement() {
    let mut app = runtime();
    let effect = app.queue_input(left(ElementState::Pressed), at(1), GRACE);
    assert_eq!(
        effect,
        Some(EvalEffect::ScheduleDeadline {
            kind: FrameDeadlineKind::OptionalRefinement,
            generation: EditGeneration::new(0),
            after: GRACE,
        })
    );
    assert_eq!(app.interaction.mouse_pressed, None);
    assert!(app.input.has_pending());
    assert_eq!(app.queue_input(InputEvent::CursorEntered, at(1), GRACE), None);
}

#[test]
fn events_after_the_seal_belong_to_the_next_frame() {
    let mut app = runtime();
    assert!(app.seal_input_frame(at(1)).is_none());
    app.queue_input(left(ElementState::Pressed), at(1), GRACE);
    app.queue_input(InputEvent::CursorEntered, at(2), GRACE);
    let sealed = app.seal_input_frame(at(3)).unwrap();
    assert_eq!(sealed.events.len(), 2);
    assert_eq!(sealed.pointer_samples, 1);
    assert_eq!(sealed.first_primary_press, Some(at(1)));
    assert_eq!(sealed.first_receipt, Some(at(1)));
    assert_eq!(sealed.last_sequence, Some(2));
    let current = app.frames.active_identity().unwrap();
    app.queue_input(InputEvent::CursorLeft, at(4), GRACE);
    assert!(app.frames.pending_identity().unwrap().id > current.id);
    assert!(app.input.has_pending());
    app.finish_input_frame(&sealed, true, at(5));
    assert_eq!(
        app.frames.active_phase(),
        Some(FramePhase::RequiredInteractiveWork)
    );
}

#[test]
fn losing_focus_is_followed_by_a_cancellation() {
    let mut app = runtime();
    let step = app.window_event(
        WindowSignal::Focused(false),
        BootStanding::Alive,
        at(1),
        GRACE,
    );
    assert!(matches!(step, WindowStep::Captured(_)));
    let sealed = app.seal_input_frame(at(2)).unwrap();
    let events: Vec<InputEvent> = sealed.events.iter().map(|event| event.event()).collect();
    assert_eq!(
        events,
        [
            InputEvent::Focused(false),
            InputEvent::PointerCancelled(PointerCancelReason::FocusLost)
        ]
    );
}

#[test]
fn window_signals_find_their_steps() {
    let mut app = runtime();
    let step = |app: &mut Runtime, signal: WindowSignal, standing: BootStanding| {
        app.window_event(signal, standing, at(1), GRACE)
    };
    assert_eq!(
        step(&mut app, WindowSignal::CursorEntered, BootStanding::Failed),
        WindowStep::Swallowed
    );
    assert_eq!(
        step(
            &mut app,
            WindowSignal::CloseRequested,
            BootStanding::FailureShown
        ),
        WindowStep::AcknowledgeFailure
    );
    assert_eq!(
        step(&mut app, WindowSignal::Other, BootStanding::Alive),
        WindowStep::Unhandled
    );
    assert_eq!(
        step(
            &mut app,
            WindowSignal::Resized(SurfaceSize {
                width: 4,
                height: 3
            }),
            BootStanding::Alive
        ),
        WindowStep::ResizeCaptured
    );
    assert_eq!(
        step(&mut app, WindowSignal::CloseRequested, BootStanding::Alive),
        WindowStep::ShutdownRequested
    );
    assert!(app.frames.shutdown_requested());
}

#[test]
fn bookmarks_follow_the_modifiers() {
    let mut interaction = Interaction::new();
    interaction.modifiers.ctrl = true;
    let saved = interaction.apply_keyboard_input(
        Some(KeyCode::Digit3),
        ElementState::Pressed,
        &focus(),
    );
    assert!(saved.effects.contains(&InputEffect::SaveCameraBookmark(2)));
    interaction.modifiers.alt = true;
    let recalled = interaction.apply_keyboard_input(
        Some(KeyCode::Digit3),
        ElementState::Pressed,
        &focus(),
    );
    assert!(recalled
        .effects
        .contains(&InputEffect::RecallCameraBookmark(2)));
    let released = interaction.apply_keyboard_input(
        Some(KeyCode::Digit3),
        ElementState::Released,
        &focus(),
    );
    assert!(!released.redraw);
    assert_eq!(released.effects.len(), 1);
}

#[test]
fn an_open_context_menu_swallows_escape() {
    let mut interaction = Interaction::new();
    let open = KeyboardFocus {
        context_menu_open: true,
        wants_text_input: true,
        ..focus()
    };
    let effects = interaction.finish_key(KeyCode::Escape, false, &open);
    assert_eq!(effects, [InputEffect::CloseContextMenu]);
    assert!(!interaction.gui.escape);
    let typing = KeyboardFocus {
        context_menu_open: false,
        ..open
    };
    interaction.finish_key(KeyCode::Escape, false, &typing);
    assert!(interaction.gui.escape);
}

#[test]
fn enter_closes_a_polygon_of_three() {
    let mut interaction = Interaction::new();
    let polygon = KeyboardFocus {
        biome_tool: BiomePaintTool::PolygonFill,
        polygon_vertices: 3,
        has_active_biome: true,
        ..focus()
    };
    assert_eq!(
        interaction.finish_key(KeyCode::Enter, false, &polygon),
        [InputEffect::CommitBiomePolygon]
    );
    let short = KeyboardFocus {
        polygon_vertices: 2,
        ..polygon
    };
    assert!(interaction
        .finish_key(KeyCode::NumpadEnter, false, &short)
        .is_empty());
}

#[test]
fn a_click_picks_a_shape_and_alt_leaves_it_to_the_camera() {
    let mut interaction = Interaction::new();
    let mut stroke = StrokeState::idle();
    let click = interaction.apply_pointer_button(
        &mut stroke,
        ElementState::Pressed,
        MouseButton::Left,
        &context(),
    );
    assert_eq!(click.effects, [InputEffect::PickShapeAtCursor]);
    assert!(interaction.gui.primary_pressed);
    let mut with_alt = Interaction::new();
    with_alt.modifiers = InputModifiers {
        alt: true,
        ..InputModifiers::default()
    };
    let orbit = with_alt.apply_pointer_button(
        &mut stroke,
        ElementState::Pressed,
        MouseButton::Left,
        &context(),
    );
    assert!(orbit.effects.is_empty());
}

#[test]
fn only_a_short_right_click_opens_the_menu() {
    let mut interaction = Interaction::new();
    let mut stroke = StrokeState::idle();
    interaction.mouse_pressed = Some(MouseButton::Right);
    let click = interaction.apply_pointer_button(
        &mut stroke,
        ElementState::Released,
        MouseButton::Right,
        &context(),
    );
    assert_eq!(click.effects, [InputEffect::OpenContextMenu]);
    interaction.mouse_pressed = Some(MouseButton::Right);
    let cancelled = interaction.cancel_pointer_gesture(&mut stroke, &context());
    assert!(!cancelled.effects.contains(&InputEffect::OpenContextMenu));
}

#[test]
fn a_right_drag_pans_and_a_middle_drag_pans_too() {
    let mut interaction = Interaction::new();
    let stroke = StrokeState::idle();
    let here = CursorPosition {
        x_bits: 1.0f64.to_bits(),
        y_bits: 1.0f64.to_bits(),
    };
    let there = CursorPosition {
        x_bits: 2.0f64.to_bits(),
        y_bits: 1.0f64.to_bits(),
    };
    interaction.apply_pointer_motion(&stroke, here, &context());
    interaction.mouse_pressed = Some(MouseButton::Right);
    let moved = interaction.apply_pointer_motion(&stroke, there, &context());
    assert!(moved.effects.contains(&InputEffect::MoveCamera {
        motion: CameraMotion::PanRight,
        from: here,
        to: there,
    }));
    assert_eq!(interaction.last_cursor, Some(there));
    interaction.mouse_pressed = Some(MouseButton::Middle);
    let back = interaction.apply_pointer_motion(&stroke, here, &context());
    assert!(back.effects.contains(&InputEffect::MoveCamera {
        motion: CameraMotion::Pan,
        from: there,
        to: here,
    }));
}

#[test]
fn flying_steps_are_capped() {
    let keys = CameraKeys {
        w: true,
        a: false,
        s: false,
        d: true,
        q: false,
        e: false,
    };
    assert!(keys.any());
    let interaction = Interaction {
        mouse_pressed: Some(MouseButton::Right),
        ..Interaction::new()
    };
    let (flying, plan) =
        apply_camera_fly(keys, &focus(), &interaction, &context(), at(0), at(10_000));
    assert!(flying);
    match plan {
        FlyPlan::Move {
            forward,
            right,
            up,
            step,
            fast,
        } => {
            assert_eq!((forward, right, up), (1, 1, 0));
            assert_eq!(step, Duration::from_millis(50));
            assert!(!fast);
        }
        other => panic!("expected a move, got {other:?}"),
    }
    let at_rest = CameraKeys {
        w: false,
        d: false,
        ..keys
    };
    let (resting, plan) =
        apply_camera_fly(at_rest, &focus(), &interaction, &context(), at(0), at(16));
    assert!(!resting);
    assert_eq!(plan, FlyPlan::Rest);
}

#[test]
fn a_finished_stroke_is_traced_and_delays_refinement() {
    let mut app = runtime();
    app.request_app_frame(FrameRequestReason::Input);
    app.begin_scheduled_frame_if_needed(at(1));
    app.stroke.sculpt_stroke_active = true;
    app.stroke.last_paint_point = Some(PaintPoint(4));
    let effects = app.finish_stroke(at(3));
    assert!(!app.stroke.sculpt_stroke_active);
    assert!(effects.contains(&InputEffect::MarkShapeDependentsOutdated));
    assert!(app
        .trace
        .events()
        .iter()
        .any(|event| event.kind == FrameTraceEventKind::StrokeRelease));
    assert!(!app
        .finish_stroke(at(4))
        .contains(&InputEffect::MarkShapeDependentsOutdated));
}

#[test]
fn a_presented_frame_closes_its_latency() {
    let mut app = runtime();
    app.request_app_frame(FrameRequestReason::Input);
    app.frames.begin(at(1), 1, 1);
    app.frames.mark_presentation_requested();
    app.trace.note_input_receipt(at(1), EditGeneration::new(0));
    let identity = app.frames.take_presentation_identity().unwrap();
    let summary = app.surface_presented(identity, at(6));
    assert_eq!(summary.input_visible.count, 1);
    assert_eq!(summary.input_visible.p50_us, 5_000);
}

#[test]
fn gpu_timings_are_reported_once_per_frame() {
    let mut app = runtime();
    let context = PresentationContext {
        frame_id: 3,
        generation: 2,
        evaluation_id: 1,
    };
    let timings = PresentationTimings {
        source_frame: 9,
        context,
        terrain_us: 10,
        shadow_us: 20,
        path_trace_us: 0,
        temporal_us: 5,
        denoise_us: 7,
    };
    assert_eq!(timings.gpu_us(), 42);
    app.presentation_resolved(timings, at(1));
    let once = app.trace.events().len();
    app.presentation_resolved(timings, at(2));
    assert_eq!(app.trace.events().len(), once);
    assert_eq!(app.reported_timing_frame, 9);
    app.evaluation_resolved(
        EvaluationTiming {
            context,
            gpu_us: 77,
        },
        at(3),
    );
    let event = app.trace.events().back().unwrap();
    assert_eq!(event.kind, FrameTraceEventKind::GpuEvaluationResolved);
    assert_eq!(event.duration, Some(Duration::from_micros(77)));
}

#[test]
fn a_turn_leaves_before_it_boots() {
    let mut app = runtime();
    assert_eq!(app.begin_turn(false, None, true, false, true), TurnStart::Exit);
    assert_eq!(app.begin_turn(false, None, false, false, true), TurnStart::Boot);
    assert_eq!(app.begin_turn(false, None, false, false, false), TurnStart::Run);
    assert!(!app.trace.verbose);
    app.begin_turn(true, None, false, false, false);
    assert!(app.trace.verbose);
}

#[test]
fn the_splash_keeps_ticking_until_boot_ends() {
    assert_eq!(
        boot_turn(false, false).wake,
        LoopWake::WaitFor(Duration::from_millis(33))
    );
    assert_eq!(boot_turn(true, false).wake, LoopWake::Wait);
    assert!(boot_turn(true, false).prepare_presentation);
    assert_eq!(boot_turn(false, true).wake, LoopWake::Wait);
}

#[test]
fn a_finished_export_says_so_once() {
    assert!(export_turn(false, None).busy());
    assert!(!export_turn(true, None).busy());
    assert!(matches!(
        export_turn(true, Some(Ok("/out".to_string()))),
        ExportTurn::Finished { status } if status == "Exported /out"
    ));
    assert!(matches!(
        export_turn(true, Some(Err("full".to_string()))),
        ExportTurn::Finished { status } if status == "Export failed: full"
    ));
}

#[test]
fn a_held_button_stalls_refinement_but_a_stroke_gets_its_draft() {
    let mut app = runtime();
    app.interaction.mouse_pressed = Some(MouseButton::Left);
    app.stroke.sculpt_stroke_active = true;
    let stalls = app.stalls(&sight());
    assert!(stalls.live_paint);
    assert!(!stalls.stall_draft);
    assert!(stalls.stall_refine);
    app.eval.core.pending_eval = true;
    app.eval.core.pending_gpu_dirty_region = Some(terra_app::dirty::UvRect {
        min_u: 0,
        min_v: 0,
        max_u: 1,
        max_v: 1,
    });
    let due = app.eval.take_due_draft(&stalls, false, false).unwrap();
    assert_eq!(due.intent, GpuEvaluationIntent::InteractiveLocal);
    assert!(!app.eval.core.pending_eval);
    assert!(app.eval.core.force_draft);
}

#[test]
fn a_mask_brush_holds_the_draft_back() {
    let mut app = runtime();
    app.interaction.mouse_pressed = Some(MouseButton::Left);
    let masked = EditorSight {
        gates: PaintGates {
            tool: EditorTool::PaintMask,
            has_paint_mask: true,
            ..gates()
        },
        ..sight()
    };
    let stalls = app.stalls(&masked);
    assert!(stalls.mask_painting && stalls.stall_draft);
    app.eval.core.pending_eval = true;
    app.eval.core.pending_eval_immediate = true;
    assert!(app.eval.take_due_draft(&stalls, true, true).is_none());
    assert!(app.eval.core.pending_eval);
}

#[test]
fn a_deferred_suffix_is_armed_once_and_completed_when_due() {
    let mut app = runtime();
    app.eval.core.eval_token = 7;
    app.eval.deferred_full_field = Some(DeferredFullField {
        generation: 7,
        layer_name: "Rivers".to_string(),
        deferred_layers: 3,
        settle_at: None,
    });
    assert!(app
        .eval
        .advance_deferred_suffix(true, at(10), TIMING.refine_interval)
        .is_empty());
    let armed = app
        .eval
        .advance_deferred_suffix(false, at(20), TIMING.refine_interval);
    assert_eq!(armed.len(), 2);
    assert!(app
        .eval
        .advance_deferred_suffix(false, at(60), TIMING.refine_interval)
        .is_empty());
    assert_eq!(app.eval.complete_ready_suffix(at(94)), None);
    assert_eq!(
        app.eval.complete_ready_suffix(at(95)),
        Some(EvalEffect::ClearDeadline(
            FrameDeadlineKind::DeferredFullField
        ))
    );
    assert!(matches!(
        &app.eval.texts.freshness,
        TerrainPreviewFreshness::RefiningSuffix { layer_name, .. } if layer_name == "Rivers"
    ));
    app.eval.core.eval_token = 8;
    assert_eq!(
        app.eval
            .advance_deferred_suffix(false, at(99), TIMING.refine_interval),
        [EvalEffect::ClearDeadline(
            FrameDeadlineKind::FullFieldRefinement
        )]
    );
    assert!(app.eval.deferred_full_field.is_none());
}

#[test]
fn the_ladder_climbs_to_full_and_stops() {
    let mut app = runtime();
    app.eval.core.scheduler_quality = PreviewQuality::Draft;
    assert_eq!(
        app.eval.refinement_target(HighDetailMode::Off),
        Some(PreviewQuality::Medium)
    );
    app.eval.core.scheduler_quality = PreviewQuality::Medium;
    assert_eq!(
        app.eval.refinement_target(HighDetailMode::Off),
        Some(PreviewQuality::Full)
    );
    app.eval.core.scheduler_quality = PreviewQuality::Full;
    assert_eq!(app.eval.refinement_target(HighDetailMode::Off), None);
    app.eval.ui.refining = true;
    app.eval.settle_ladder();
    assert!(!app.eval.ui.refining);
}

#[test]
fn optional_work_waits_for_captured_input() {
    let mut app = runtime();
    app.request_app_frame(FrameRequestReason::ScheduledWork);
    app.begin_scheduled_frame_if_needed(at(1));
    app.frames.transition(FramePhase::OptionalRefinement);
    app.eval.ui.refining = true;
    assert!(app.may_start_refinement(false, true, true, at(1)));
    assert!(!app.may_start_refinement(true, true, true, at(1)));
    app.queue_input(InputEvent::CursorEntered, at(2), GRACE);
    assert!(!app.may_start_refinement(false, true, true, at(2)));
    assert!(!app.may_advance_refinement(false, at(2)));
}

#[test]
fn an_idle_loop_sleeps() {
    let app = runtime();
    let idle = app.wake_request(&quiet_turn(), TIMING.refine_interval);
    assert!(!idle.continuous);
    assert_eq!(idle.fallback, None);
    let flying = app.wake_request(
        &Turn {
            camera_flying: true,
            ..quiet_turn()
        },
        TIMING.refine_interval,
    );
    assert!(flying.continuous);
}

#[test]
fn a_turn_completes_its_frame() {
    let mut app = runtime();
    app.request_app_frame(FrameRequestReason::ScheduledWork);
    app.begin_scheduled_frame_if_needed(at(1));
    let turn = Turn {
        did_eval: true,
        ..quiet_turn()
    };
    assert!(app.request_turn_redraw(&turn));
    app.close_required_work(&turn, at(2));
    let report = app.complete_turn(at(30)).unwrap();
    assert!(report.over_budget);
    assert!(!report.input_frame_pending);
    assert!(app.complete_turn(at(31)).is_none());
}

#[test]
fn worker_results_of_an_older_generation_are_discarded() {
    let mut app = runtime();
    app.eval.core.eval_token = 4;
    app.eval.core.worker_refine_pending = true;
    let dirty = WorkerDirty {
        mark_all: true,
        dirty_from: None,
        region: None,
    };
    app.eval.core.worker_dirty = dirty;
    let done = |token: u64| WorkerCompletion {
        token,
        quality: PreviewQuality::Draft,
        width: 512,
        height: 512,
        tiles_x: 4,
        tiles_z: 4,
        eval_us: 900,
    };
    let step = app
        .eval
        .take_worker_event(WorkerEvent::Completed(done(3)), at(1), TIMING);
    assert!(matches!(step, WorkerStep::Discard));
    assert_eq!(app.eval.core.worker_dirty, dirty);
    let step = app
        .eval
        .take_worker_event(WorkerEvent::Completed(done(4)), at(2), TIMING);
    assert!(matches!(step, WorkerStep::Publish(_)));
    assert_eq!(app.eval.core.worker_dirty, WorkerDirty::clean());
    assert_eq!(app.eval.core.worker_cache_res, Some(512));
    assert!(!app.eval.core.worker_refine_pending);
}

#[test]
fn a_lost_worker_is_restarted_and_keeps_the_terrain() {
    let mut app = runtime();
    app.eval.core.eval_token = 4;
    app.eval.core.worker_refine_pending = true;
    app.eval.ui.build_progress = Some(BuildProgress::Begun);
    let step = app
        .eval
        .take_worker_event(WorkerEvent::Disconnected, at(1), TIMING);
    assert!(matches!(
        step,
        WorkerStep::Restart(effects) if effects.contains(&EvalEffect::RestartWorker)
    ));
    assert!(app.eval.core.worker_dirty.mark_all);
    assert_eq!(app.eval.core.worker_cache_res, None);
    assert!(app.eval.texts.evaluation_failure.is_some());
}

#[test]
fn a_failed_job_is_shown_with_its_layer() {
    let mut app = runtime();
    app.eval.core.eval_token = 4;
    let step = app.eval.take_worker_event(
        WorkerEvent::Failed {
            token: 4,
            quality: PreviewQuality::Medium,
            layer_name: Some("Crater".to_string()),
            error: "bad radius".to_string(),
        },
        at(1),
        TIMING,
    );
    assert!(matches!(step, WorkerStep::Noted));
    let failure = app.eval.texts.evaluation_failure.as_ref().unwrap();
    assert_eq!(failure.layer_name.as_deref(), Some("Crater"));
    assert!(failure.message.contains("bad radius"));
}

#[test]
fn the_log_context_names_the_layer_that_is_refined() {
    let mut app = runtime();
    app.eval.core.eval_token = 6;
    app.eval.texts.refining_layer_name = Some("Dunes".to_string());
    assert_eq!(
        app.evaluation_log_context(6, PreviewQuality::Medium, Some("\"a.json\"")),
        "operation=evaluation token=6 quality=Medium layer=\"Dunes\" project=\"a.json\""
    );
    assert_eq!(
        app.evaluation_log_context(5, PreviewQuality::Medium, Some("\"a.json\"")),
        "operation=evaluation token=5 quality=Medium"
    );
}
