//! Whole evaluations, from the metrics to the timing, and the order of a turn.

use terra_app::clock::Instant;
use terra_app::dirty::FullField;
use terra_app::eval::{EvalEffect, EvalPath, EvalState, PlanEdit};
use terra_app::eval_run::{EvalRun, RunAction, RunEvent, RunStage};
use terra_app::eval_step::{DirtyRectUse, GpuResult, PlanRequest, Presentation, StepObservation};
use terra_app::frame_trace::EvaluationTraceId;
use terra_app::quality::{GpuEvaluationIntent, PreviewQuality};
use terra_app::turn::TurnPhase;

fn observation() -> StepObservation {
    StepObservation {
        selected_is_bounded_sculpt: false,
        selected_layer_name: Some("Base".to_string()),
        full_resolution: 512,
        texture: None,
    }
}

fn complete_result() -> GpuResult {
    GpuResult {
        did_eval: true,
        fully_gpu: true,
        cpu_fallback: false,
        deferred: None,
        resume_cpu_from: None,
        width: 512,
        height: 512,
        has_output: true,
        dirty_region: None,
        tiles_x: 4,
        tiles_z: 4,
    }
}

fn returned(result: GpuResult) -> RunEvent {
    RunEvent::GpuReturned {
        result,
        visible_us: 30,
        settled_us: 40,
    }
}

fn sight() -> RunEvent {
    RunEvent::WorkerSight {
        selected_layer_name: None,
        field: FullField {
            preview_resolution: 512,
            tile_count: Some(16),
            scope_tiles: 1,
        },
    }
}

fn begun(eval: &mut EvalState) -> EvalRun {
    let reply = eval.begin_run(
        GpuEvaluationIntent::Complete,
        observation(),
        EvaluationTraceId::new(8),
    );
    assert_eq!(reply.run.stage, RunStage::Metrics);
    assert!(matches!(reply.action, RunAction::ResolveMetrics(_)));
    reply.run
}

fn at_engine(eval: &mut EvalState) -> EvalRun {
    let run = begun(eval);
    let run = eval.advance_run(run, RunEvent::MetricsResolved).run;
    let reply = eval.advance_run(run, RunEvent::PlanAcquired);
    assert!(matches!(reply.action, RunAction::RunGpu(DirtyRectUse::Clear)));
    reply.run
}

#[test]
fn a_gpu_evaluation_runs_to_its_end() {
    let mut eval = EvalState::new(Instant { nanos: 0 });
    eval.pending_plan_edits.push(PlanEdit::Structure);
    let run = begun(&mut eval);
    let reply = eval.advance_run(run, RunEvent::MetricsResolved);
    assert!(matches!(
        reply.action,
        RunAction::AcquirePlan(PlanRequest::Update(edits)) if edits == [PlanEdit::Structure]
    ));
    let reply = eval.advance_run(reply.run, RunEvent::PlanAcquired);
    let reply = eval.advance_run(reply.run, returned(complete_result()));
    assert_eq!(reply.presentation, Some(Presentation::Shared));
    assert!(reply.pyramid);
    assert!(matches!(reply.action, RunAction::Time));
    let reply = eval.advance_run(reply.run, RunEvent::Timed { eval_us: 77 });
    assert_eq!(reply.run.stage, RunStage::Over);
    assert!(matches!(reply.action, RunAction::Rest));
    assert_eq!(eval.ui.profile.eval_us, 77);
    assert_eq!(eval.ui.profile.path, EvalPath::Gpu);
    assert_eq!(eval.core.last_accepted_evaluation_id, 8);
}

#[test]
fn invalid_metrics_end_the_evaluation_with_a_failure() {
    let mut eval = EvalState::new(Instant { nanos: 0 });
    let run = begun(&mut eval);
    let reply = eval.advance_run(run, RunEvent::MetricsInvalid("no extent".to_string()));
    assert_eq!(reply.run.stage, RunStage::Over);
    let failure = eval.texts.evaluation_failure.unwrap();
    assert_eq!(failure.message, "no extent");
    assert_eq!(failure.layer_name.as_deref(), Some("Base"));
    assert_eq!(
        eval.texts.status,
        "Terrain evaluation failed; last good preview retained"
    );
}

#[test]
fn a_stack_without_a_plan_goes_to_the_worker_and_is_not_closed() {
    let mut eval = EvalState::new(Instant { nanos: 0 });
    let run = begun(&mut eval);
    let run = eval.advance_run(run, RunEvent::MetricsResolved).run;
    let reply = eval.advance_run(run, RunEvent::PlanUnsupported { eval_us: 5 });
    assert_eq!(reply.run.stage, RunStage::AskWorker { closes: false });
    let reply = eval.advance_run(reply.run, sight());
    assert!(matches!(reply.action, RunAction::Submit(_)));
    let reply = eval.advance_run(reply.run, RunEvent::WorkerTook);
    assert_eq!(reply.run.stage, RunStage::Over);
    assert!(eval.core.worker_refine_pending);
    assert_eq!(eval.ui.profile.path, EvalPath::AsyncCpu);
    assert_eq!(eval.ui.profile.eval_us, 5);
}

#[test]
fn a_busy_worker_is_left_alone() {
    let mut eval = EvalState::new(Instant { nanos: 0 });
    eval.core.worker_refine_pending = true;
    let run = at_engine(&mut eval);
    let reply = eval.advance_run(run, RunEvent::GpuAbsent);
    assert_eq!(reply.run.stage, RunStage::Closing);
    assert!(!reply.run.completed);
    let quality = eval.ui.quality;
    let progress = eval.ui.build_progress;
    eval.advance_run(reply.run, RunEvent::Timed { eval_us: 9 });
    assert_eq!(eval.ui.quality, quality);
    assert_eq!(eval.ui.build_progress, progress);
}

#[test]
fn without_an_engine_the_worker_completes_the_evaluation() {
    let mut eval = EvalState::new(Instant { nanos: 0 });
    let run = at_engine(&mut eval);
    let reply = eval.advance_run(run, RunEvent::GpuAbsent);
    assert_eq!(reply.run.stage, RunStage::AskWorker { closes: true });
    assert!(reply.run.completed);
    let reply = eval.advance_run(reply.run, sight());
    let RunAction::Submit(request) = reply.action else {
        panic!("the worker is asked");
    };
    assert_eq!(request.preview_res, 512);
    assert_eq!(eval.texts.refining_layer_name.as_deref(), Some("terrain"));
}

#[test]
fn a_refused_request_restarts_the_worker() {
    let mut eval = EvalState::new(Instant { nanos: 0 });
    eval.core.eval_token = 4;
    let run = at_engine(&mut eval);
    let reply = eval.advance_run(run, RunEvent::GpuFailed);
    assert_eq!(reply.presentation, Some(Presentation::RefusedNoOutput));
    let reply = eval.advance_run(reply.run, sight());
    let reply = eval.advance_run(reply.run, RunEvent::WorkerRefused("gone".to_string()));
    assert_eq!(
        reply.effects,
        [EvalEffect::RestartWorker, EvalEffect::SetWorkerToken(4)]
    );
    assert!(matches!(reply.action, RunAction::Time));
    assert_eq!(
        eval.texts.evaluation_failure.unwrap().message,
        "evaluation worker submission failed: gone"
    );
}

#[test]
fn an_outrun_result_is_not_shown() {
    let mut eval = EvalState::new(Instant { nanos: 0 });
    let run = at_engine(&mut eval);
    eval.core.eval_token += 1;
    let generation = eval.core.last_complete_generation;
    let reply = eval.advance_run(run, returned(complete_result()));
    assert_eq!(reply.presentation, Some(Presentation::RefusedStale));
    assert!(!reply.pyramid);
    assert_eq!(eval.core.last_complete_generation, generation);
    assert_eq!(reply.run.stage, RunStage::AskWorker { closes: true });
}

#[test]
fn a_failed_seed_falls_to_the_worker_at_the_same_quality() {
    let mut eval = EvalState::new(Instant { nanos: 0 });
    eval.core.scheduler_quality = PreviewQuality::Medium;
    let run = at_engine(&mut eval);
    let unseeded = GpuResult {
        did_eval: false,
        fully_gpu: false,
        resume_cpu_from: Some(0),
        has_output: false,
        ..complete_result()
    };
    let reply = eval.advance_run(run, returned(unseeded));
    assert_eq!(reply.presentation, Some(Presentation::RefusedNoOutput));
    assert_eq!(eval.ui.profile.path, EvalPath::GpuThenAsyncCpu);
    let reply = eval.advance_run(reply.run, sight());
    assert!(matches!(
        reply.action,
        RunAction::Submit(request) if request.quality == PreviewQuality::Medium
    ));
}

#[test]
fn an_event_of_another_stage_changes_nothing() {
    let mut eval = EvalState::new(Instant { nanos: 0 });
    let run = begun(&mut eval);
    let reply = eval.advance_run(run, returned(complete_result()));
    assert!(matches!(reply.action, RunAction::Refuse));
    assert_eq!(reply.run, run);
    assert_eq!(eval.core.last_accepted_evaluation_id, 0);
}

fn phases(in_editor: bool) -> Vec<TurnPhase> {
    let mut all = vec![TurnPhase::GpuTimings];
    while let Some(next) = all[all.len() - 1].next(in_editor) {
        all.push(next);
    }
    all
}

#[test]
fn required_work_comes_before_refinement() {
    let all = phases(true);
    assert_eq!(all.len(), 21);
    let position = |phase: TurnPhase| all.iter().position(|p| *p == phase).unwrap();
    for required in [
        TurnPhase::Input,
        TurnPhase::UiEffects,
        TurnPhase::Surface,
        TurnPhase::WorkerEvents,
        TurnPhase::Draft,
        TurnPhase::Suffix,
        TurnPhase::Physics,
    ] {
        assert!(position(required) < position(TurnPhase::CloseRequired));
    }
    for optional in [
        TurnPhase::AdvanceRefinement,
        TurnPhase::StartRefinement,
        TurnPhase::TileUploads,
    ] {
        assert!(position(TurnPhase::CloseRequired) < position(optional));
    }
}

#[test]
fn outside_the_editor_nothing_is_evaluated() {
    assert_eq!(
        phases(false),
        [
            TurnPhase::GpuTimings,
            TurnPhase::Input,
            TurnPhase::ScheduledFrame,
            TurnPhase::UiEffects,
            TurnPhase::Surface,
            TurnPhase::Jobs,
            TurnPhase::Camera,
            TurnPhase::Export,
            TurnPhase::Wake,
            TurnPhase::Redraw,
            TurnPhase::Complete,
        ]
    );
}
