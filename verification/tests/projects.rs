//! Projects, editing commands, document resets and optional pipelines.

use terra_app::actions::masks::{paint_bounded_sculpt_stamp, SculptTarget};
use terra_app::actions::{ApplyCtx, BatchObservation};
use terra_app::clock::{Duration, Instant};
use terra_app::dirty::{LayerId, StackLayer, UvRect, WorkerDirty};
use terra_app::document_reset::{
    pyramid_resolution, reset_runtime_for_document, AtlasAddressing, AtlasShape, DocumentSight,
    HostSight, PresentationPlan, RenderDirt, ResetStep, ResetTroubles, TerrainTraversalMode,
    WorldSight,
};
use terra_app::editing::{
    dispatch_command, ensure_shape_authoring_layer, recall_camera_bookmark, redo_order,
    save_camera_bookmark, undo_order, workspace_outdates_tint, AuthoringTarget, CommandId,
    CommandImpact, CommandStep, ConstraintSight, HistoryKind, ShapeSession, ShapeTargetDecision,
};
use terra_app::editor_overlays::{
    BundleKind, EditorOverlays, GuideState, InstallPlan, PresentationBackend,
};
use terra_app::eval::{
    EvalEffect, EvalState, FrameDeadlineKind, NodeRef, PlanEdit, RefineTiming,
};
use terra_app::lighting::{
    lighting_preset, saved_lighting_preset, LightingState, LightingValues, SkyColor,
};
use terra_app::logical_frame::FrameRequestReason;
use terra_app::pipeline_compile::TerrainShaderVariant;
use terra_app::presentation_pipelines::{
    retry_status, should_request, CompileSight, CompletionStep, InfiniteSight, InstallStep,
    OptionalResourceState, PipelineBoard, PipelineOwner, PipelineRequest,
    PresentationPipelineFeature, TerrainPipelineStatus,
};
use terra_app::project::{
    begin_background_save, default_save_name, export_answered, export_directory_status,
    log_folder_failure, open_project_at, start_export, ActionStep, AppScreen, BrowseStep,
    Creation, CreationFailure, ExportEffect, ExportGate, HomeStep, PendingProjectAction,
    ProjectEffect, ProjectHomeAction, ProjectIoResult, ProjectPath, ProjectState, SavePlan,
};
use terra_app::quality::PreviewQuality;
use terra_app::tile_stream::{StreamEffect, TileStream};

const LAYER: LayerId = LayerId(3);
const NOW: Instant = Instant {
    nanos: 5_000_000_000,
};

const TIMING: RefineTiming = RefineTiming {
    refine_interval: Duration { nanos: 250_000_000 },
    post_input_grace: Duration { nanos: 400_000_000 },
};

fn place(id: u64, shown: &str) -> ProjectPath {
    ProjectPath {
        id,
        shown: shown.to_string(),
    }
}

fn editing(dirty: bool) -> ProjectState {
    ProjectState {
        screen: AppScreen::Editor,
        path: Some(place(1, "/a.json")),
        document_dirty: dirty,
        ..ProjectState::at_home()
    }
}

/// A bounded document on a host without a GPU.
fn headless() -> DocumentSight {
    DocumentSight {
        world: WorldSight::Bounded {
            preview_resolution: 512,
            tile_size: 128,
            halo: 2,
        },
        host: HostSight {
            has_gpu: false,
            device_layers: 0,
            atlas: None,
            has_gpu_engine: false,
            has_renderer: false,
            has_variant: false,
        },
    }
}

/// The steps that set the runtime up for `headless`.
fn headless_steps() -> Vec<ResetStep> {
    vec![
        ResetStep::Eval(EvalEffect::ForgetStreamedFigures),
        ResetStep::Eval(EvalEffect::DropPublishedFields),
        ResetStep::Eval(EvalEffect::ClearEvaluatorCaches),
        ResetStep::Eval(EvalEffect::RefreshUploads(RenderDirt::everything())),
        ResetStep::Eval(EvalEffect::ClearPlanCache),
        ResetStep::Eval(EvalEffect::ClearDeadline(
            FrameDeadlineKind::FullFieldRefinement,
        )),
        ResetStep::Stream(StreamEffect::ClearTileWork),
        ResetStep::ConfigureBounded { resolution: 512 },
        ResetStep::Present(PresentationPlan::NoRenderer),
        ResetStep::Stream(StreamEffect::ClearTileWork),
        ResetStep::Stream(StreamEffect::ClearAtlas),
        ResetStep::Stream(StreamEffect::StreamingOff),
    ]
}

fn stack() -> Vec<StackLayer> {
    vec![StackLayer {
        id: LAYER,
        stage_order: 0,
    }]
}

fn rect(u: f32, v: f32, r: f32) -> UvRect {
    UvRect {
        min_u: (u - r).to_bits(),
        min_v: (v - r).to_bits(),
        max_u: (u + r).to_bits(),
        max_v: (v + r).to_bits(),
    }
}

/// A plan is compiled anew for a change of structure and patched otherwise.
#[derive(Default)]
struct PlanCache {
    compiles: usize,
    hits: usize,
}

impl PlanCache {
    fn update(&mut self, edits: &[PlanEdit]) {
        if edits.iter().any(|edit| matches!(edit, PlanEdit::Structure)) {
            self.compiles += 1;
        } else {
            self.hits += 1;
        }
    }
}

fn dab(eval: &mut EvalState, layer: LayerId, u: f32, previous: Option<f32>) -> Vec<PlanEdit> {
    let mut ctx = ApplyCtx::new();
    paint_bounded_sculpt_stamp(
        &mut ctx,
        layer,
        true,
        Some(SculptTarget {
            supports_stroke: true,
            is_foundation: false,
            is_shape_history: true,
            name: "Raise strokes".to_string(),
        }),
        "Raise",
        rect(u, 0.5, 0.04),
        previous.map(|u| rect(u, 0.5, 0.04)),
    );
    eval.apply_actions(
        &ctx,
        &BatchObservation {
            plan_shape_matches: true,
            edited_is_group: false,
            edited_is_sculpt_base: false,
            selection_changed: false,
        },
        &stack(),
    );
    std::mem::take(&mut eval.pending_plan_edits)
}

#[test]
fn shape_layer_creation_compiles_once_and_continuing_dabs_do_not_recompile() {
    let mut eval = EvalState::new(NOW);
    let mut plans = PlanCache::default();
    let mut session = ShapeSession {
        selected: None,
        session_layer: None,
    };
    let layer = session
        .ensure_shape_history_target(
            &mut eval,
            ShapeTargetDecision::CreateNew {
                id: LAYER,
                name: "Raise strokes".to_string(),
            },
        )
        .expect("Raise creates a Shape Layer");
    assert_eq!(
        eval.pending_plan_edits
            .iter()
            .filter(|edit| matches!(edit, PlanEdit::Structure))
            .count(),
        1,
        "gesture start records exactly one topology change"
    );
    let edits = dab(&mut eval, layer, 0.48, None);
    plans.update(&edits);

    for (previous, u) in [(0.48, 0.50), (0.50, 0.52)] {
        let target = session.ensure_shape_history_target(
            &mut eval,
            ShapeTargetDecision::UseExisting {
                id: layer,
                keeps_strokes: true,
                name: None,
            },
        );
        assert_eq!(target, Some(layer));
        let edits = dab(&mut eval, layer, u, Some(previous));
        assert!(edits.iter().all(|edit| matches!(
            edit,
            PlanEdit::Content { layer: owner, .. } if *owner == layer
        )));
        assert_eq!(edits.len(), 1);
        plans.update(&edits);
    }
    assert_eq!(plans.compiles, 1);
    assert_eq!(plans.hits, 2);
    assert_eq!(session.session_layer, Some(layer), "one continuing history");
}

#[test]
fn unsaved_changes_ask_before_they_are_left() {
    let mut project = editing(true);
    assert_eq!(
        project.request_project_action(PendingProjectAction::Close),
        ActionStep::Confirm {
            frame: FrameRequestReason::UiActions
        }
    );
    assert_eq!(project.pending_action, Some(PendingProjectAction::Close));
    let mut clean = editing(false);
    assert_eq!(
        clean.request_project_action(PendingProjectAction::Close),
        ActionStep::Perform(PendingProjectAction::Close)
    );
    assert!(clean.mark_document_dirty());
    assert!(!clean.mark_document_dirty());
}

#[test]
fn a_save_clears_the_flag_and_names_the_file() {
    let mut project = editing(true);
    let step = project.drain_project_io(
        None,
        Some(ProjectIoResult::Saved {
            path: place(2, "/b.json"),
        }),
    );
    assert_eq!(step.status.as_deref(), Some("Saved /b.json"));
    assert!(!project.document_dirty);
    assert_eq!(project.save_current_project(), SavePlan::To(2));
    assert_eq!(
        project.request_project_action(PendingProjectAction::New),
        ActionStep::Perform(PendingProjectAction::New)
    );
}

#[test]
fn a_new_project_is_entered_once_it_is_on_disk() {
    let mut project = ProjectState::at_home();
    let (template, effects) = project.begin_new_project();
    assert_eq!(template, "blank");
    assert!(matches!(
        effects[..],
        [
            ProjectEffect::DefaultWorldSettings,
            ProjectEffect::RequestFrame(FrameRequestReason::UiActions)
        ]
    ));
    project.pending_enter = Some(place(7, "/n.json"));
    let step = project.drain_project_io(
        Some("Writing".to_string()),
        Some(ProjectIoResult::Saved {
            path: place(7, "/n.json"),
        }),
    );
    assert_eq!(step.status.as_deref(), Some("Created /n.json"));
    assert!(step
        .effects
        .iter()
        .any(|effect| matches!(effect, ProjectEffect::EnterPendingDocument)));
    assert!(!project.show_template_picker);
    let failed = project.drain_project_io(
        None,
        Some(ProjectIoResult::Failed {
            path: place(7, "/n.json"),
            error: "full".to_string(),
        }),
    );
    assert_eq!(failed.status.as_deref(), Some("/n.json failed: full"));
    let loaded = project.drain_project_io(
        None,
        Some(ProjectIoResult::Loaded {
            path: place(8, "/l.json"),
            name: "Island".to_string(),
        }),
    );
    assert_eq!(loaded.status.as_deref(), Some("Loaded /l.json"));
}

#[test]
fn entering_and_closing_outdate_work_in_flight() {
    let mut project = ProjectState::at_home();
    let mut eval = EvalState::new(NOW);
    eval.core.pending_eval = true;
    let mut stream = TileStream::new();
    let mut pipelines = PipelineBoard {
        project_generation: 8,
        device_generation: 3,
        status: TerrainPipelineStatus::Idle,
    };
    let path = Some(place(1, "/a.json"));
    let entered = project.enter_editor(
        &mut eval,
        &mut stream,
        &mut pipelines,
        path,
        false,
        headless(),
    );
    assert!(entered.presentation_ready);
    assert_eq!(
        entered.steps[..2],
        [
            ResetStep::Eval(EvalEffect::CancelPipelineCompiles),
            ResetStep::Eval(EvalEffect::SetWorkerToken(1)),
        ]
    );
    assert_eq!(entered.steps[2..], headless_steps());
    assert_eq!(pipelines.project_generation, 9);
    assert_eq!(stream.output_revision, 1);
    assert!(!eval.core.pending_eval);
    assert_eq!(project.screen, AppScreen::Editor);
    assert!(project.window_title("Island").ends_with("/a.json"));
    project.mark_document_dirty();
    assert!(project.window_title("Island").contains("Island*"));
    pipelines.project_generation = u64::MAX;
    pipelines.status = TerrainPipelineStatus::Pending {
        label: "terrain".to_string(),
    };
    stream.streaming = true;
    stream.streamed_revision = 1;
    eval.core.pending_eval_immediate = true;
    eval.core.worker_cache_res = Some(512);
    eval.core.worker_dirty = WorkerDirty::clean();
    eval.core.needs_height_upload = true;
    eval.ui.refining = true;
    eval.texts.status = "Saved".to_string();
    eval.pending_plan_edits = Vec::new();
    let steps = project.close_project(&mut eval, &mut stream, &mut pipelines, headless());
    assert_eq!(
        steps[..2],
        [
            ResetStep::Eval(EvalEffect::SetWorkerToken(2)),
            ResetStep::Eval(EvalEffect::CancelPipelineCompiles),
        ]
    );
    assert_eq!(steps[2..steps.len() - 1], headless_steps());
    assert_eq!(
        steps.last(),
        Some(&ResetStep::Eval(EvalEffect::RequestFrame(
            FrameRequestReason::UiActions
        )))
    );
    assert!(!stream.streaming && stream.live_content.is_none());
    assert_eq!(stream.output_revision, 2);
    assert_eq!(pipelines.project_generation, 0);
    assert_eq!(pipelines.device_generation, 3);
    assert!(matches!(pipelines.status, TerrainPipelineStatus::Idle));
    assert!(!eval.core.pending_eval_immediate && !eval.core.needs_height_upload);
    assert!(eval.core.worker_dirty.mark_all && eval.core.worker_cache_res.is_none());
    assert!(!eval.ui.refining && eval.texts.status.is_empty());
    assert_eq!(eval.pending_plan_edits, [PlanEdit::Structure]);
    assert_eq!(project.window_title("Island"), "Terra");
    assert_eq!(project.save_current_project(), SavePlan::Nothing);
}

#[test]
fn one_background_job_runs_at_a_time() {
    let asks = Some(FrameRequestReason::Completion);
    assert!(begin_background_save(false).start);
    assert_eq!(begin_background_save(false).frame, asks);
    assert!(!begin_background_save(true).start);
    assert_eq!(begin_background_save(true).frame, None);
    assert!(open_project_at(false).start);
    assert_eq!(open_project_at(false).frame, asks);
    assert!(!open_project_at(true).start);
    assert_eq!(open_project_at(true).frame, None);
}

#[test]
fn a_dialog_proposes_the_name_of_the_project_file() {
    assert_eq!(default_save_name(Some("island.json")), "island.json");
    assert_eq!(default_save_name(None), "terra_project.json");
}

#[test]
fn a_refused_export_start_is_taken_back() {
    assert_eq!(export_answered(Ok(())), (None, Vec::new()));
    assert_eq!(
        export_answered(Err("no room".to_string())),
        (
            Some("Export failed: no room".to_string()),
            vec![ExportEffect::HideProgress, ExportEffect::FinishExportMode]
        )
    );
}

#[test]
fn the_home_screen_routes_its_actions() {
    let mut project = ProjectState::at_home();
    project.notice = Some("old".to_string());
    assert_eq!(
        project.handle_home_action(ProjectHomeAction::RemoveRecent(4)),
        HomeStep::RemoveRecent(4)
    );
    assert!(project.notice.is_some());
    assert_eq!(
        project.handle_home_action(ProjectHomeAction::OpenPath(4)),
        HomeStep::Project(ActionStep::Perform(PendingProjectAction::OpenPath(4)))
    );
    assert!(project.notice.is_none());
    let opened = project.logs_opened(Ok(place(1, "/logs")));
    assert_eq!(opened.status, None);
    assert_eq!(opened.frame, FrameRequestReason::UiActions);
    assert_eq!(project.notice.as_deref(), Some("Opened log folder: /logs"));
    let refused = project.logs_opened(Err("denied".to_string()));
    assert_eq!(refused.status.as_deref(), Some("denied"));
    assert_eq!(refused.frame, FrameRequestReason::UiActions);
    assert_eq!(
        project.notice.as_deref(),
        Some("Could not open logs: denied")
    );
    assert_eq!(
        log_folder_failure(true, &place(1, "/logs"), "denied"),
        "could not create log directory /logs: denied"
    );
}

#[test]
fn browsing_takes_the_namesake_or_the_first_json() {
    let mut project = ProjectState::at_home();
    let folder = place(1, "/worlds");
    let names = vec![b"b.json".to_vec(), b"a.json".to_vec()];
    assert!(matches!(
        project.browse_projects_folder(&folder, true, Some(&names)),
        BrowseStep::OpenNamesake
    ));
    assert!(matches!(
        project.browse_projects_folder(&folder, false, Some(&names)),
        BrowseStep::OpenEntry(1)
    ));
    assert!(matches!(
        project.browse_projects_folder(&folder, false, None),
        BrowseStep::NotFound {
            status,
            frame: FrameRequestReason::UiActions
        } if status == "No project found in /worlds"
    ));
    assert_eq!(
        project.notice.as_deref(),
        Some("No Terra project (.json) found in /worlds")
    );
}

#[test]
fn every_creation_failure_has_its_text() {
    let failures = [
        (CreationFailure::UnknownTemplate("x".into()), "Unknown template: x"),
        (
            CreationFailure::InvalidInfiniteSettings("x".into()),
            "Invalid Infinite project settings: x",
        ),
        (
            CreationFailure::ProjectsFolder("x".into()),
            "Could not create projects folder: x",
        ),
        (
            CreationFailure::ProjectFolder("x".into()),
            "Could not create project folder: x",
        ),
        (
            CreationFailure::InfiniteDocument("x".into()),
            "Could not create Infinite project: x",
        ),
        (CreationFailure::NotSaved("x".into()), "Could not create project: x"),
    ];
    for (failure, text) in &failures {
        assert_eq!(failure.status(), *text);
    }
}

#[test]
fn an_export_needs_a_gpu_a_directory_and_peace() {
    let directory = place(1, "/out");
    assert!(matches!(
        start_export(false, Some(&directory), false, 4),
        ExportGate::Refused { status: Some("Export requires an initialized GPU") }
    ));
    assert!(matches!(
        start_export(true, None, false, 4),
        ExportGate::Refused { status: None }
    ));
    assert!(matches!(
        start_export(true, Some(&directory), true, 4),
        ExportGate::Refused { status: Some("Export already running") }
    ));
    assert!(matches!(
        start_export(true, Some(&directory), false, u64::MAX),
        ExportGate::Start { status, steps }
            if status == "Exporting to /out"
                && steps
                    == [
                        ExportEffect::BakePaintIntoMasks,
                        ExportEffect::BeginExportMode,
                        ExportEffect::ShowProgress,
                        ExportEffect::Start { generation: 1 },
                    ]
    ));
    assert_eq!(export_directory_status(&directory), "Export directory: /out");
}

fn light(bits: u32) -> LightingValues {
    LightingValues {
        sun_azimuth_deg_bits: bits,
        sun_elevation_deg_bits: bits + 1,
        sun_intensity_bits: bits + 2,
        exposure_bits: bits + 3,
        sky_color: SkyColor {
            red_bits: bits + 4,
            green_bits: bits + 5,
            blue_bits: bits + 6,
        },
        ambient_strength_bits: bits + 7,
        shadow_strength_bits: bits + 8,
        fog_strength_bits: bits + 9,
    }
}

#[test]
fn light_survives_saving_and_opening() {
    let labels = vec!["Noon".to_string(), "Dusk".to_string()];
    for customized in [false, true] {
        let saved_state = LightingState {
            values: light(10),
            preset: 1,
            customized,
            last_preset: 0,
            last_customized: false,
        };
        let saved = saved_state.sync_lighting_to_document(&labels);
        assert_eq!(saved.preset, if customized { "" } else { "Dusk" });
        let mut state = LightingState {
            values: light(500),
            preset: 0,
            customized: !customized,
            last_preset: 1,
            last_customized: customized,
        };
        state.apply_document_lighting(&labels, &saved);
        assert_eq!(state.values, light(10));
        assert_eq!(state.customized, customized);
        assert_eq!(state.preset, if customized { 0 } else { 1 });
        assert_eq!(state.last_preset, state.preset);
        assert_eq!(state.last_customized, customized);
    }
}

#[test]
fn lighting_presets_are_kept_by_name() {
    let labels = vec!["Noon".to_string(), "Dusk".to_string()];
    assert_eq!(lighting_preset(&labels, "Dusk"), Some(1));
    assert_eq!(lighting_preset(&labels, ""), None);
    assert_eq!(saved_lighting_preset(false, "Noon"), "Noon");
    assert_eq!(saved_lighting_preset(true, "Noon"), "");
}

#[test]
fn a_document_without_its_renderer_waits() {
    let mut eval = EvalState::new(NOW);
    assert_eq!(
        eval.present_document(false, None, NOW, TIMING),
        [
            EvalEffect::EvaluatorAllDirty,
            EvalEffect::ReconfigureRuntime,
            EvalEffect::RetireStreaming,
            EvalEffect::GpuMarkAllDirty,
            EvalEffect::RequestFrame(FrameRequestReason::RequiredEvaluation),
        ]
    );
    assert!(!eval.core.pending_eval);
    assert!(eval.texts.status.starts_with("Compiling Infinite"));
    let effects = eval.present_document(true, None, NOW, TIMING);
    assert!(eval.core.pending_eval_immediate);
    assert!(effects.contains(&EvalEffect::SetWorkerToken(1)));
    assert_eq!(
        effects.last(),
        Some(&EvalEffect::RequestFrame(FrameRequestReason::RequiredEvaluation))
    );
}

#[test]
fn commands_outside_the_editor_only_find_projects() {
    assert_eq!(
        dispatch_command(CommandId::Undo, false, false),
        CommandStep::Ignore
    );
    assert_eq!(
        dispatch_command(CommandId::Undo, true, false),
        CommandStep::Undo
    );
    assert_eq!(
        dispatch_command(CommandId::OpenProject, false, true),
        CommandStep::Project(PendingProjectAction::Open)
    );
    assert_eq!(
        dispatch_command(CommandId::Other, true, true),
        CommandStep::SwitchWorkspace
    );
    assert!(workspace_outdates_tint(false, true));
    assert!(!workspace_outdates_tint(false, false));
}

#[test]
fn undo_rebuilds_what_it_touched() {
    let step = |kind: HistoryKind, impact: CommandImpact, infinite: bool| {
        let mut eval = EvalState::new(NOW);
        eval.core.worker_dirty = WorkerDirty::clean();
        let layers = stack();
        let (outcome, effects) = eval.apply_history_step(
            kind, true, impact, infinite, &layers, 4, None, 90, NOW, TIMING,
        );
        (eval, outcome, effects)
    };
    let undo = |kind: HistoryKind, impact: CommandImpact| step(kind, impact, false);
    assert!(step(HistoryKind::Document, CommandImpact::Other, true).1.rebuild_index);
    assert!(!step(HistoryKind::Document, CommandImpact::Other, false).1.rebuild_index);
    assert!(!step(HistoryKind::WorldRule, CommandImpact::Other, true).1.rebuild_index);
    let (eval, outcome, effects) = undo(HistoryKind::Document, CommandImpact::Layer(LAYER));
    assert_eq!(
        effects[..3],
        [
            EvalEffect::EvaluatorDirtyFrom(LAYER),
            EvalEffect::AdvanceOutputRevision,
            EvalEffect::GpuMarkDirtyFrom(LAYER),
        ]
    );
    assert!(outcome.rebuilds && !outcome.mask_overlay_dirty);
    assert_eq!(eval.core.worker_dirty.dirty_from, Some(LAYER));
    assert_eq!(
        eval.pending_plan_edits,
        [PlanEdit::Parameters {
            node: NodeRef::Layer(LAYER)
        }]
    );
    assert_eq!(eval.core.eval_token, 4);
    let (eval, outcome, effects) = undo(HistoryKind::Scenario, CommandImpact::Other);
    assert!(!outcome.rebuilds && effects.is_empty());
    assert_eq!(eval.texts.status, "Undid Scenario edit");
    let (eval, outcome, _) = undo(HistoryKind::MaskPaint, CommandImpact::Other);
    assert!(outcome.mask_overlay_dirty);
    assert!(eval.core.worker_dirty.mark_all);
    assert_eq!(undo_order().len(), 5);
    assert_eq!(redo_order().last(), Some(&HistoryKind::Document));
}

#[test]
fn a_brush_says_where_it_paints() {
    let mut eval = EvalState::new(NOW);
    let mut session = ShapeSession {
        selected: None,
        session_layer: None,
    };
    let refused = session.ensure_shape_history_target(
        &mut eval,
        ShapeTargetDecision::UnavailableOnFoundation {
            tool_label: "Terrace".to_string(),
        },
    );
    assert_eq!(refused, None);
    assert_eq!(
        eval.texts.status,
        "Terrace isn't supported by the selected Foundation layer"
    );
    session.ensure_shape_history_target(
        &mut eval,
        ShapeTargetDecision::UseExisting {
            id: LAYER,
            keeps_strokes: false,
            name: Some("Hills".to_string()),
        },
    );
    assert_eq!(
        eval.texts.status,
        "Brush is painting on Shape Layer \"Hills\""
    );
    assert_eq!(session.session_layer, None);
    assert_eq!(
        eval.mark_shape_dependents_outdated(&stack(), &session),
        (
            Some(LAYER),
            vec![
                EvalEffect::EvaluatorDirtyFrom(LAYER),
                EvalEffect::AdvanceOutputRevision,
                EvalEffect::GpuMarkDirtyFrom(LAYER),
            ]
        )
    );
    eval.show_upstream_feedback("one\ntwo");
    assert!(eval.texts.status.starts_with("one ") && eval.texts.status.ends_with(" two"));
    assert!(!eval.texts.status.contains('\n'));
}

#[test]
fn shapes_are_compiled_to_one_managed_layer() {
    let layers = [
        ConstraintSight {
            id: LayerId(1),
            holds_constraints: false,
        },
        ConstraintSight {
            id: LayerId(2),
            holds_constraints: true,
        },
    ];
    assert_eq!(
        ensure_shape_authoring_layer(Some(LayerId(1)), &layers),
        AuthoringTarget::Managed(LayerId(1))
    );
    assert_eq!(
        ensure_shape_authoring_layer(Some(LayerId(9)), &layers),
        AuthoringTarget::Adopt(LayerId(2))
    );
    assert_eq!(
        ensure_shape_authoring_layer(None, &layers[..1]),
        AuthoringTarget::Create
    );
}

#[test]
fn bookmarks_are_counted_from_one() {
    assert_eq!(
        save_camera_bookmark(0, true).as_deref(),
        Some("Saved camera bookmark 1")
    );
    assert_eq!(save_camera_bookmark(0, false), None);
    let empty = recall_camera_bookmark(8, false, true);
    assert!(!empty.moves);
    assert_eq!(empty.status.as_deref(), Some("Camera bookmark 9 is empty"));
    assert!(recall_camera_bookmark(8, true, true).moves);
}

#[test]
fn a_reset_document_starts_over() {
    let mut eval = EvalState::new(NOW);
    eval.core.scheduler_quality = PreviewQuality::Full;
    eval.core.worker_dirty = WorkerDirty::clean();
    eval.core.worker_cache_res = Some(512);
    let mut stream = TileStream::new();
    let reset = reset_runtime_for_document(&mut eval, &mut stream, headless());
    assert_eq!(reset.steps, headless_steps());
    assert_eq!(eval.core.scheduler_quality, PreviewQuality::Draft);
    assert!(eval.core.worker_dirty.mark_all);
    assert_eq!(eval.core.worker_cache_res, None);
    assert_eq!(eval.pending_plan_edits, [PlanEdit::Structure]);
    assert_eq!(RenderDirt::everything().aux_upload_fp, u64::MAX);
    assert_eq!(pyramid_resolution(100), 256);
    assert_eq!(pyramid_resolution(1_000), 1_000);
}

#[test]
fn an_atlas_that_fits_is_kept() {
    let bounded = WorldSight::Bounded {
        preview_resolution: 512,
        tile_size: 128,
        halo: 2,
    };
    let plan = bounded.atlas_plan(None, 64);
    assert!(plan.replace);
    assert_eq!(
        plan.shape,
        AtlasShape {
            tile_size: 128,
            halo: 2,
            max_pages: 64
        }
    );
    assert_eq!(plan.addressing, AtlasAddressing::Hierarchy);
    assert!(!bounded.atlas_plan(Some(plan.shape), 64).replace);
    let infinite = WorldSight::Infinite {
        topology_valid: true,
        topology_taken: true,
        tile_size: 128,
        halo: 2,
        page_capacity: 32,
    };
    assert!(infinite.atlas_plan(Some(plan.shape), 64).replace);
    assert_eq!(infinite.requested_variant(), TerrainShaderVariant::Infinite);
    assert_eq!(
        infinite.presentation_plan(true, false),
        PresentationPlan::Placeholder
    );
    assert_eq!(
        infinite.presentation_plan(true, true),
        PresentationPlan::Present {
            variant: TerrainShaderVariant::Infinite,
            traversal: TerrainTraversalMode::Infinite,
            frame_infinite: true,
        }
    );
    assert!(!infinite.presentation_plan(true, false).ready());
}

fn board() -> PipelineBoard {
    PipelineBoard {
        project_generation: 3,
        device_generation: 5,
        status: TerrainPipelineStatus::Idle,
    }
}

fn request(feature: PresentationPipelineFeature, project_generation: u64) -> PipelineRequest {
    PipelineRequest {
        feature,
        id: 1,
        project_generation,
        device_generation: 5,
    }
}

#[test]
fn optional_pipelines_are_retried_on_request_only() {
    assert!(should_request(Some(OptionalResourceState::Absent), false));
    assert!(!should_request(Some(OptionalResourceState::Failed), false));
    assert!(should_request(Some(OptionalResourceState::Failed), true));
    assert!(!should_request(Some(OptionalResourceState::Ready), true));
    assert!(!should_request(None, true));
    assert!(retry_status("Guides").contains("Guides"));
}

#[test]
fn a_failed_compile_is_tried_again() {
    let mut pipelines = board();
    let label = || "Guides".to_string();
    assert!(pipelines
        .retry_failed_pipeline_compile(None, label(), None, true)
        .is_none());
    let failed = Some(PresentationPipelineFeature::Guides);
    let state = Some(OptionalResourceState::Failed);
    let without = pipelines
        .retry_failed_pipeline_compile(failed, label(), state, false)
        .unwrap();
    assert!(!without.submit);
    assert!(matches!(pipelines.status, TerrainPipelineStatus::Idle));
    let step = pipelines
        .retry_failed_pipeline_compile(failed, label(), state, true)
        .unwrap();
    assert!(step.submit);
    assert_eq!(step.feature, PresentationPipelineFeature::Guides);
    assert_eq!(step.status, "Retrying Guides…");
    assert_eq!(step.frame, FrameRequestReason::UiActions);
    assert!(matches!(
        &pipelines.status,
        TerrainPipelineStatus::Pending { label } if label == "Guides"
    ));
}

#[test]
fn only_live_pipelines_are_installed() {
    let mut pipelines = board();
    assert!(matches!(
        pipelines.take_completion(request(PresentationPipelineFeature::Guides, 2), None),
        CompletionStep::Discard
    ));
    assert!(matches!(
        pipelines.take_completion(request(PresentationPipelineFeature::Guides, 3), None),
        CompletionStep::Install {
            owner: PipelineOwner::Overlays
        }
    ));
    assert!(matches!(
        pipelines.take_completion(
            request(PresentationPipelineFeature::Overhang, 3),
            Some("bad".to_string())
        ),
        CompletionStep::Fail {
            owner: PipelineOwner::Renderer
        }
    ));
    assert!(matches!(
        &pipelines.status,
        TerrainPipelineStatus::Failed { message } if message == "bad"
    ));
    pipelines.advance_project();
    assert_eq!(pipelines.project_generation, 4);
    assert!(matches!(pipelines.status, TerrainPipelineStatus::Idle));
    assert_eq!(
        PipelineBoard::owner_missing(PipelineOwner::Renderer),
        "renderer is unavailable"
    );
}

#[test]
fn an_installed_bundle_shows_itself() {
    let mut pipelines = board();
    let mut eval = EvalState::new(NOW);
    let step = pipelines.installed(
        &mut eval,
        PresentationPipelineFeature::Vegetation,
        "Vegetation",
        Ok(()),
    );
    assert!(matches!(step, InstallStep::Show));
    assert!(eval.core.needs_height_upload);
    assert_eq!(eval.texts.status, "Vegetation ready");
    pipelines.show_requested("Brush".to_string());
    pipelines.show_progress(None, CompileSight::Idle);
    assert!(matches!(
        &pipelines.status,
        TerrainPipelineStatus::Pending { label } if label == "Brush"
    ));
    pipelines.show_progress(Some("kept".to_string()), CompileSight::Idle);
    assert!(matches!(
        &pipelines.status,
        TerrainPipelineStatus::Failed { message } if message == "kept"
    ));
    let mut sight = InfiniteSight {
        has_settings: true,
        has_renderer: true,
        activated: Ok(()),
        topology_valid: true,
    };
    let mut eval = EvalState::new(NOW);
    let effects = pipelines
        .finish_infinite(&mut eval, sight, None, NOW, TIMING)
        .unwrap();
    assert_eq!(
        effects.last(),
        Some(&EvalEffect::RequestFrame(FrameRequestReason::Completion))
    );
    assert_eq!(eval.texts.status, "Infinite terrain renderer ready");
    assert!(eval.core.pending_eval_immediate);
    assert!(eval.core.worker_dirty.mark_all);
    assert_eq!(eval.pending_plan_edits, [PlanEdit::Structure]);
    sight = InfiniteSight {
        has_settings: false,
        has_renderer: true,
        activated: Ok(()),
        topology_valid: true,
    };
    assert!(pipelines
        .finish_infinite(&mut eval, sight, None, NOW, TIMING)
        .is_none());
    sight = InfiniteSight {
        has_settings: true,
        has_renderer: true,
        activated: Err("no variant".to_string()),
        topology_valid: true,
    };
    assert!(pipelines
        .finish_infinite(&mut eval, sight, None, NOW, TIMING)
        .is_none());
    assert!(matches!(
        &pipelines.status,
        TerrainPipelineStatus::Failed { message } if message == "no variant"
    ));
}

#[test]
fn overlays_draw_what_is_there() {
    let mut overlays = EditorOverlays::new(
        4,
        GuideState {
            grid: true,
            bounds: false,
        },
    );
    assert_eq!(
        overlays.state(PresentationPipelineFeature::Guides),
        OptionalResourceState::Absent
    );
    assert_eq!(overlays.set_guides(false, true), None);
    assert!(matches!(
        overlays.plan_install(BundleKind::Guides, 9),
        Ok(InstallPlan::Guides(GuideState {
            grid: false,
            bounds: true
        }))
    ));
    assert!(matches!(
        overlays.plan_install(BundleKind::Brush, 9),
        Ok(InstallPlan::Brush)
    ));
    assert_eq!(overlays.bound_height_revision, 9);
    assert!(overlays.plan_install(BundleKind::Renderer, 9).is_err());
    assert_eq!(
        EditorOverlays::stale_bundle(InstallPlan::Brush),
        "stale brush pipeline bundle"
    );
    overlays.brush = OptionalResourceState::Ready;
    let frame = overlays.render(10, PresentationBackend::RasterLit);
    assert!(frame.rebind_brush && !frame.draw_guides);
    assert_eq!(frame.draw_brush, Some(true));
    assert!(!overlays.sync_height(10));
    let other = overlays.render(10, PresentationBackend::Other(1));
    assert_eq!(other.draw_brush, Some(false));
}

#[test]
fn the_last_trouble_of_a_reset_is_shown() {
    let none = || ResetTroubles {
        topology: None,
        atlas: None,
        activation: None,
    };
    assert_eq!(none().status(), None);
    let topology = ResetTroubles {
        topology: Some("empty".to_string()),
        ..none()
    };
    assert_eq!(
        topology.status().as_deref(),
        Some("Invalid Infinite topology: empty")
    );
    let atlas = ResetTroubles {
        topology: Some("empty".to_string()),
        atlas: Some("too large".to_string()),
        ..none()
    };
    assert_eq!(
        atlas.status().as_deref(),
        Some("GPU tile atlas disabled: too large")
    );
    let activation = ResetTroubles {
        atlas: Some("too large".to_string()),
        activation: Some("no shader".to_string()),
        ..none()
    };
    assert_eq!(activation.status().as_deref(), Some("no shader"));
}

#[test]
fn a_created_project_is_entered_and_a_failed_one_is_not() {
    let mut eval = EvalState::new(NOW);
    eval.core.eval_token = 6;
    eval.core.pending_eval = true;
    let mut project = ProjectState {
        show_template_picker: true,
        ..ProjectState::at_home()
    };
    let mut stream = TileStream::new();
    let mut pipelines = board();
    let mut finish = |project: &mut ProjectState, eval: &mut EvalState, creation: Creation| {
        project.finish_creation(eval, &mut stream, &mut pipelines, creation)
    };
    let step = finish(&mut project, &mut eval, Creation::Cancelled);
    assert!(step.enter.is_none() && step.frame.is_none() && step.status.is_none());
    let failure = Creation::Failed(CreationFailure::NotSaved("disk full".to_string()));
    let step = finish(&mut project, &mut eval, failure);
    assert_eq!(step.frame, Some(FrameRequestReason::UiActions));
    assert_eq!(
        step.status.as_deref(),
        Some("Could not create project: disk full")
    );
    assert!(project.show_template_picker);
    let unknown = Creation::Failed(CreationFailure::UnknownTemplate("lava".to_string()));
    let step = finish(&mut project, &mut eval, unknown);
    assert_eq!(step.frame, None);
    assert_eq!(project.screen, AppScreen::Home);
    let created = Creation::Created {
        path: place(4, "/w.json"),
        sight: headless(),
    };
    let step = finish(&mut project, &mut eval, created);
    let entered = step.enter.unwrap();
    assert_eq!(
        entered.steps[1],
        ResetStep::Eval(EvalEffect::SetWorkerToken(7))
    );
    assert_eq!(entered.steps[2..], headless_steps());
    assert!(entered.presentation_ready);
    assert_eq!(stream.output_revision, 1);
    assert_eq!(pipelines.project_generation, 4);
    assert_eq!(step.status.as_deref(), Some("Created /w.json"));
    assert_eq!(project.screen, AppScreen::Editor);
    assert!(!project.show_template_picker && !project.document_dirty);
    assert!(!eval.core.pending_eval);
}
