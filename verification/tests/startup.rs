//! Launch, boot and the ways to fail at it.

use terra_app::pipeline_compile::JobError;
use terra_app::startup::{
    classify_boot_poll, exit_step, failure_splash_lines, handle_release_cli, injected_fault,
    report_failure, splash_status, BootPoll, BootState, BootStep, CliAction, ExitStep, Opening,
    OpeningStep, StartupError,
};

fn variant_name<T>(poll: &BootPoll<T>) -> &'static str {
    match poll {
        BootPoll::Pending => "Pending",
        BootPoll::Ready(_) => "Ready",
        BootPoll::Failed(_) => "Failed",
        BootPoll::Shutdown => "Shutdown",
    }
}

#[test]
fn startup_error_variants_are_distinguishable() {
    let event_loop = StartupError::EventLoop(
        winit::error::EventLoopError::ExitFailure(1).to_string(),
    );
    let gpu = StartupError::Gpu("no adapter".into());
    let boot = StartupError::BootWorker(JobError::Panicked("boom".into()));

    let msgs: Vec<String> = [&event_loop, &gpu, &boot]
        .iter()
        .map(|e| e.message())
        .collect();
    assert!(msgs[0].contains("event loop"));
    assert!(msgs[1].contains("GPU initialization"));
    assert!(msgs[2].contains("pipeline build"));
    assert!(msgs[1].contains("no adapter"));
    assert!(msgs[2].contains("boom"));
}

#[test]
fn classify_pending() {
    let poll: Option<Result<u32, JobError>> = None;
    assert!(matches!(classify_boot_poll(poll), BootPoll::Pending));
}

#[test]
fn classify_ready() {
    let poll = Some(Ok(42u32));
    match classify_boot_poll(poll) {
        BootPoll::Ready(v) => assert_eq!(v, 42),
        other => panic!("expected Ready, got {:?}", variant_name(&other)),
    }
}

#[test]
fn classify_panicked_is_failed() {
    let poll: Option<Result<u32, _>> = Some(Err(JobError::Panicked("segfault".into())));
    match classify_boot_poll(poll) {
        BootPoll::Failed(StartupError::BootWorker(JobError::Panicked(msg))) => {
            assert!(msg.contains("segfault"));
        }
        other => panic!(
            "expected Failed(BootWorker(Panicked)), got {:?}",
            variant_name(&other)
        ),
    }
}

#[test]
fn classify_cancelled_is_shutdown() {
    let poll: Option<Result<u32, _>> = Some(Err(JobError::Cancelled));
    assert!(matches!(classify_boot_poll(poll), BootPoll::Shutdown));
}

#[test]
fn failure_splash_lines_include_error_and_advice() {
    let error = StartupError::BootWorker(JobError::Panicked("oops".into()));
    let lines = failure_splash_lines(&error, None);
    let joined = lines.join("\n");
    assert!(joined.contains("oops"), "error text missing");
    assert!(joined.contains("driver"), "advice missing");
    assert!(joined.contains("Press any key"), "dismiss hint missing");
}

#[test]
fn failure_splash_lines_include_log_path() {
    let error = StartupError::Gpu("nope".into());
    let lines = failure_splash_lines(&error, Some("/tmp/terra.log"));
    let joined = lines.join("\n");
    assert!(joined.contains("/tmp/terra.log"));
    assert_eq!(lines.len(), 7);
}

#[test]
fn every_failure_has_a_text_and_an_advice() {
    let errors = [
        (
            StartupError::EventLoop("x".into()),
            "failed to create event loop: x",
            "event loop could not be created",
        ),
        (
            StartupError::RunApp("x".into()),
            "event loop exited with error: x",
            "event loop could not be created",
        ),
        (
            StartupError::Window("x".into()),
            "failed to create window: x",
            "window could not be created",
        ),
        (
            StartupError::Gpu("x".into()),
            "GPU initialization failed: x",
            "No compatible GPU adapter",
        ),
        (
            StartupError::BootWorker(JobError::Cancelled),
            "GPU pipeline build failed: cancelled",
            "pipeline build crashed",
        ),
    ];
    for (error, text, advice) in &errors {
        assert_eq!(error.message(), *text);
        assert!(error.advice().contains(advice));
    }
}

#[test]
fn a_failure_is_reported_everywhere_it_is_asked_to_be() {
    let error = StartupError::Window("no display".into());
    let report = report_failure(&error, Some("/logs/a.log"), true);
    assert!(report.stderr.starts_with("Terra: failed to create window: no display\n"));
    assert!(report.log.ends_with("\n\nLog file: /logs/a.log"));
    assert!(report.dialog.unwrap().contains("\n\n"));
    assert!(report_failure(&error, None, false).dialog.is_none());
}

#[test]
fn boot_ends_once() {
    let mut boot = BootState {
        booting: true,
        failure: None,
    };
    assert!(matches!(boot.try_finish_boot::<u32>(None), BootStep::Waiting));
    assert!(matches!(
        boot.try_finish_boot(Some(Ok(3u32))),
        BootStep::Install(3)
    ));
    assert!(!boot.booting);
    assert!(matches!(boot.try_finish_boot(Some(Ok(4u32))), BootStep::Idle));
}

#[test]
fn a_failed_boot_is_parked_until_it_is_acknowledged() {
    let mut boot = BootState {
        booting: true,
        failure: None,
    };
    let parked = boot.try_finish_boot::<u32>(Some(Err(JobError::Panicked("boom".into()))));
    assert!(matches!(parked, BootStep::Park(_)));
    assert!(boot.booting);
    assert!(matches!(boot.try_finish_boot::<u32>(None), BootStep::Idle));
    let failure = boot.acknowledge().unwrap();
    assert!(failure.message().contains("boom"));
    assert!(boot.failure.is_none());
}

#[test]
fn a_cancelled_boot_leaves_quietly() {
    let mut boot = BootState {
        booting: true,
        failure: None,
    };
    let step = boot.try_finish_boot::<u32>(Some(Err(JobError::Cancelled)));
    assert!(matches!(step, BootStep::Exit));
    assert!(boot.failure.is_none());
}

#[test]
fn faults_are_injected_at_the_configured_stage_only() {
    assert!(injected_fault("gpu-init", Some("gpu-init")));
    assert!(!injected_fault("gpu-init", Some("window")));
    assert!(!injected_fault("gpu-init", None));
}

fn closed() -> Opening {
    Opening {
        has_window: false,
        failure: None,
    }
}

#[test]
fn opening_the_window_comes_before_the_gpu() {
    let mut opening = closed();
    assert_eq!(
        opening.window_created(Err("denied".into()), true),
        OpeningStep::Leave
    );
    assert!(matches!(
        &opening.failure,
        Some(StartupError::Window(text)) if text == "denied"
    ));
    let mut opening = closed();
    assert_eq!(opening.window_created(Ok(()), true), OpeningStep::Leave);
    assert!(matches!(
        &opening.failure,
        Some(StartupError::Gpu(text)) if text == "injected gpu-init fault"
    ));
    let mut opening = closed();
    assert_eq!(opening.window_created(Ok(()), false), OpeningStep::InitGpu);
    assert_eq!(
        opening.gpu_initialised(Err("no adapter".into())),
        OpeningStep::Leave
    );
    assert!(matches!(
        &opening.failure,
        Some(StartupError::Gpu(text)) if text == "no adapter"
    ));
    assert!(!opening.has_window);
    let mut opening = closed();
    assert_eq!(opening.resumed(false), OpeningStep::CreateWindow);
    assert_eq!(opening.window_created(Ok(()), false), OpeningStep::InitGpu);
    assert_eq!(opening.gpu_initialised(Ok(())), OpeningStep::StartBoot);
    assert!(opening.has_window && opening.failure.is_none());
    assert_eq!(opening.resumed(true), OpeningStep::Stay);
}

#[test]
fn a_window_fault_is_reported_like_a_window_that_cannot_open() {
    assert!(injected_fault("window", Some("window")));
    let mut opening = closed();
    assert_eq!(opening.resumed(true), OpeningStep::Leave);
    assert!(!opening.has_window);
    let end = exit_step(opening.failure.take(), false, Ok(()));
    match end {
        ExitStep::Failure { error, show_dialog } => {
            assert!(show_dialog);
            assert_eq!(
                error.message(),
                "failed to create window: injected window fault"
            );
            let report = report_failure(&error, None, show_dialog);
            assert!(report.stderr.starts_with("Terra: failed to create window"));
            assert!(report.dialog.is_some());
        }
        ExitStep::Success => panic!("the fault is not reported"),
    }
}

#[test]
fn the_splash_counts_shaders() {
    assert_eq!(splash_status(0), "Compiling shaders...");
    assert_eq!(splash_status(17), "Compiling shaders... 17");
}

#[test]
fn the_command_line_takes_one_flag() {
    let parsed = |arguments: &[&str]| {
        handle_release_cli(
            &arguments
                .iter()
                .map(|argument| argument.to_string())
                .collect::<Vec<_>>(),
        )
    };
    assert_eq!(parsed(&[]), None);
    assert_eq!(parsed(&["--version"]), Some(CliAction::Version));
    assert_eq!(parsed(&["-V"]), Some(CliAction::Version));
    assert_eq!(parsed(&["--self-check"]), Some(CliAction::SelfCheck));
    assert_eq!(parsed(&["--help"]), Some(CliAction::Help));
    assert_eq!(parsed(&["-h"]), Some(CliAction::Help));
    assert_eq!(parsed(&["--version", "extra"]), Some(CliAction::Unexpected));
}

#[test]
fn the_stored_failure_decides_the_exit() {
    assert!(matches!(exit_step(None, false, Ok(())), ExitStep::Success));
    assert!(matches!(
        exit_step(Some(StartupError::Gpu("x".into())), true, Ok(())),
        ExitStep::Failure { show_dialog: false, .. }
    ));
    assert!(matches!(
        exit_step(None, false, Err("lost".into())),
        ExitStep::Failure { error: StartupError::RunApp(text), show_dialog: true } if text == "lost"
    ));
}
