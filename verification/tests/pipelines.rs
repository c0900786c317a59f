//! Compiling terrain pipelines in the background.

use terra_app::pipeline_compile::{
    CompileAction, JobError, TerrainPipelineCompileCoordinator, TerrainPipelineCompileStatus,
    TerrainPipelineRequest, TerrainShaderVariant,
};

type Coordinator = TerrainPipelineCompileCoordinator<&'static str, u32>;

fn request(project_generation: u64, device_generation: u64) -> TerrainPipelineRequest {
    TerrainPipelineRequest {
        variant: TerrainShaderVariant::Infinite,
        project_generation,
        device_generation,
    }
}

#[test]
fn request_identity_includes_project_and_device_generations() {
    let base = request(3, 5);
    assert_ne!(
        base,
        TerrainPipelineRequest {
            project_generation: 4,
            ..base
        }
    );
    assert_ne!(
        base,
        TerrainPipelineRequest {
            device_generation: 6,
            ..base
        }
    );
    assert_ne!(
        base,
        TerrainPipelineRequest {
            variant: TerrainShaderVariant::Bounded,
            ..base
        }
    );
    assert!(base.matches_live(TerrainShaderVariant::Infinite, 3, 5));
    assert!(!base.matches_live(TerrainShaderVariant::Infinite, 4, 5));
}

#[test]
fn worker_failure_becomes_persistent_retryable_status() {
    let request = request(7, 11);
    let mut coordinator = Coordinator {
        active: Some(request),
        status: TerrainPipelineCompileStatus::Pending(request),
        ..Coordinator::new()
    };
    coordinator.pump(Some(Ok(Err("synthetic compile failure".to_string()))));
    assert!(matches!(
        coordinator.status(),
        TerrainPipelineCompileStatus::Failed { request: failed, message }
            if *failed == request && message.contains("synthetic compile failure")
    ));
    let completion = coordinator.take_completion().expect("failed completion");
    assert_eq!(completion.request, request);
    match completion.result {
        Err(message) => assert!(message.contains("synthetic compile failure")),
        Ok(_) => panic!("synthetic failure unexpectedly produced a bundle"),
    }
}

#[test]
fn a_finished_compile_hands_its_bundle_out_once() {
    let mut coordinator = Coordinator::new();
    let started = coordinator.request(request(1, 1), "first");
    assert!(matches!(started, CompileAction::Start(desired) if desired.compiler == "first"));
    let (pending, _) = coordinator.pump(None);
    assert!(pending.busy);
    coordinator.pump(Some(Ok(Ok(9))));
    let completion = coordinator.take_completion().unwrap();
    assert_eq!(completion.result, Ok(9));
    assert!(coordinator.take_completion().is_none());
    assert!(matches!(
        coordinator.status(),
        TerrainPipelineCompileStatus::Idle
    ));
}

#[test]
fn a_newer_request_cancels_the_running_one_and_follows_it() {
    let mut coordinator = Coordinator::new();
    coordinator.request(request(1, 1), "first");
    let superseding = coordinator.request(request(2, 1), "second");
    assert!(matches!(superseding, CompileAction::CancelActive));
    let (_, next) = coordinator.pump(Some(Err(JobError::Cancelled)));
    assert!(matches!(next, CompileAction::Start(desired) if desired.compiler == "second"));
    assert!(coordinator.take_completion().is_none());
}

#[test]
fn a_panicked_worker_is_a_failure() {
    let mut coordinator = Coordinator::new();
    coordinator.request(request(1, 1), "first");
    coordinator.pump(Some(Err(JobError::Panicked("boom".to_string()))));
    assert!(matches!(
        coordinator.status(),
        TerrainPipelineCompileStatus::Failed { message, .. } if message.contains("boom")
    ));
}

#[test]
fn cancelling_everything_leaves_nothing_wanted() {
    let mut coordinator = Coordinator::new();
    coordinator.request(request(1, 1), "first");
    assert!(matches!(
        coordinator.cancel_all(),
        CompileAction::CancelActive
    ));
    assert!(coordinator.desired.is_none());
    let (_, next) = coordinator.pump(Some(Err(JobError::Cancelled)));
    assert!(matches!(next, CompileAction::Nothing));
}
