//! The start-up benchmark, cache paths and stored preferences.

use terra_app::clock::Duration;
use terra_app::paths::{first_project_file, orders_before, AppPath, PathPart};
use terra_app::pipeline_cache::{directory, directory_from_local_data};
use terra_app::prefs::{editor_prefs_path, EditorPrefs};
use terra_app::startup_benchmark::{
    assemble_suite, benchmark_cache_root, cache_pair_fault, child_output, child_report,
    compare_pair, directory_to_create, is_requested, millis, parse_number, startup_report,
    validate_cache_pair, AdapterReport, CacheFault, ChildOutcome, CompilationRecord, Options,
    PipelineCacheReport, ReportStage, ReportStep, RunIdentity, StartupBenchmarkReport, SuiteRun, COLD_WARM_DEFINITION,
};

fn path(text: &str) -> AppPath {
    let mut parts = Vec::new();
    let mut rest = text;
    if let Some(tail) = text.strip_prefix('/') {
        parts.push(PathPart::Root);
        rest = tail;
    }
    for name in rest.split('/').filter(|name| !name.is_empty()) {
        parts.push(match name {
            "." => PathPart::Current,
            ".." => PathPart::Parent,
            _ => PathPart::Normal(name.to_string()),
        });
    }
    AppPath { parts }
}

fn shown(path: &AppPath) -> String {
    let mut names = Vec::new();
    for part in &path.parts {
        names.push(match part {
            PathPart::Root => String::new(),
            PathPart::Current => ".".to_string(),
            PathPart::Parent => "..".to_string(),
            PathPart::Normal(name) | PathPart::Prefix(name) => name.clone(),
            PathPart::Unreadable(_) => "?".to_string(),
        });
    }
    names.join("/")
}

fn report(pid: u32, boot_duration_ms: u64, blob: &str, saved: &str) -> StartupBenchmarkReport {
    StartupBenchmarkReport {
        schema_version: 1,
        profile: "debug".to_string(),
        run_kind: "cold".to_string(),
        pid,
        generation: 0,
        app_version: "0.1.0".to_string(),
        success: true,
        error: None,
        adapter: AdapterReport {
            pipeline_cache_supported: true,
            pipeline_cache_enabled: true,
            ..AdapterReport::default()
        },
        pipeline_cache: PipelineCacheReport {
            blob_status: blob.to_string(),
            save_result: saved.to_string(),
        },
        boot_duration_ms,
        dominant_pipeline: None,
        pipelines: Vec::new(),
    }
}

fn arguments(words: &[&str]) -> Vec<String> {
    words.iter().map(|word| word.to_string()).collect()
}

#[test]
fn benchmark_cache_root_is_a_dedicated_output_sibling() {
    assert_eq!(
        shown(&benchmark_cache_root(&path("reports/startup.json")).unwrap()),
        "reports/startup.json.pipeline-cache"
    );
    assert!(benchmark_cache_root(&path("/")).is_err());
}

#[test]
fn local_data_path_maps_to_terra_pipeline_cache() {
    let root = path("local-data");
    assert_eq!(
        shown(&directory_from_local_data(&root)),
        "local-data/Terra/cache/pipelines"
    );
}

#[test]
fn a_configured_cache_directory_comes_first() {
    let local = path("local-data");
    assert_eq!(
        shown(&directory(Some(path("/cache")), Some(&local)).unwrap()),
        "/cache"
    );
    assert_eq!(
        shown(&directory(None, Some(&local)).unwrap()),
        "local-data/Terra/cache/pipelines"
    );
    assert!(directory(None, None).is_none());
}

#[test]
fn children_report_beside_the_suite() {
    assert_eq!(
        shown(&child_output(&path("out/suite.json"), "debug", "cold")),
        "out/suite.debug-cold.child.json"
    );
    assert_eq!(
        shown(&directory_to_create(&path("out/suite.json")).unwrap()),
        "out"
    );
    assert!(directory_to_create(&path("suite.json")).is_none());
    assert!(is_requested(Some(&path("suite.json"))));
    assert!(!is_requested(None));
}

#[test]
fn a_report_is_written_only_where_it_was_asked_for() {
    assert!(matches!(ReportStep::begin(None), ReportStep::Finished(Ok(false))));
    let empty = AppPath { parts: Vec::new() };
    assert!(is_requested(Some(&empty)));
    assert!(matches!(ReportStep::begin(Some(&empty)), ReportStep::Serialize));
    let after = |stage: ReportStage| ReportStep::after(stage, "a.json", Ok(()));
    assert!(matches!(after(ReportStage::Serialize), ReportStep::CreateDirectory));
    assert!(matches!(after(ReportStage::CreateDirectory), ReportStep::Write));
    assert!(matches!(after(ReportStage::Write), ReportStep::Finished(Ok(true))));
    let failed = |stage: ReportStage| match ReportStep::after(stage, "a.json", Err("full".into())) {
        ReportStep::Finished(Err(text)) => text,
        _ => panic!("a failed stage ends the report"),
    };
    assert_eq!(
        failed(ReportStage::Serialize),
        "serialize startup benchmark report: full"
    );
    assert_eq!(
        failed(ReportStage::CreateDirectory),
        "create benchmark output directory: full"
    );
    assert_eq!(failed(ReportStage::Write), "write benchmark report a.json: full");
}

#[test]
fn cache_faults_are_told_apart() {
    let fault = |cold: (&str, &str), warm: (&str, &str)| {
        cache_pair_fault(
            &report(1, 10, cold.0, cold.1),
            &report(2, 5, warm.0, warm.1),
        )
    };
    let good = ("blob-loaded", "saved");
    assert_eq!(fault(("miss", "saved"), good), None);
    assert_eq!(fault(("blob-loaded", "saved"), good), Some(CacheFault::ColdStatus));
    assert_eq!(fault(("miss", "failed"), good), Some(CacheFault::ColdNotSaved));
    assert_eq!(
        fault(("miss", "saved"), ("miss", "saved")),
        Some(CacheFault::WarmStatus)
    );
    assert_eq!(
        fault(("miss", "saved"), ("blob-loaded", "failed")),
        Some(CacheFault::WarmNotSaved)
    );
    let mut unsupported = report(1, 10, "miss", "saved");
    unsupported.adapter.pipeline_cache_supported = false;
    unsupported.adapter.pipeline_cache_enabled = false;
    assert_eq!(
        cache_pair_fault(&unsupported, &report(2, 5, "miss", "saved")),
        Some(CacheFault::Unsupported)
    );
}

#[test]
fn a_fault_quotes_what_was_reported() {
    let error = validate_cache_pair(
        &report(1, 10, "blob-loaded", "saved"),
        &report(2, 5, "blob-loaded", "saved"),
    )
    .unwrap_err();
    assert_eq!(
        error,
        "supported cold run reported cache status \"blob-loaded\""
    );
    assert!(validate_cache_pair(
        &report(1, 10, "miss", "saved"),
        &report(2, 5, "blob-loaded", "saved")
    )
    .is_ok());
}

#[test]
fn a_comparison_is_the_difference_of_the_boots() {
    let comparison = compare_pair(
        "release",
        &report(1, 900, "miss", "saved"),
        &report(2, 1_000, "blob-loaded", "saved"),
    );
    assert_eq!(comparison.cold_ms, 900);
    assert_eq!(comparison.warm_ms, 1_000);
    assert_eq!(comparison.speedup_ms, -100);
    assert_eq!(comparison.profile, "release");
}

#[test]
fn options_are_read_in_any_order() {
    let options = Options::parse(&arguments(&[
        "--output",
        "suite.json",
        "--timeout-seconds",
        "30",
        "--release-exe",
        "rel",
        "--debug-exe",
        "dbg",
    ]))
    .unwrap();
    assert_eq!(options.debug_exe, "dbg");
    assert_eq!(options.release_exe, "rel");
    assert_eq!(options.output, "suite.json");
    assert_eq!(options.timeout_secs, 30);
    let later = Options::parse(&arguments(&[
        "--output", "a", "--debug-exe", "dbg", "--release-exe", "rel", "--output", "b",
    ]))
    .unwrap();
    assert_eq!(later.output, "b");
    assert_eq!(later.timeout_secs, 900);
}

#[test]
fn every_bad_option_has_its_error() {
    let error = |words: &[&str]| Options::parse(&arguments(words)).unwrap_err();
    assert_eq!(error(&[]), "--debug-exe is required");
    assert_eq!(error(&["--debug-exe", "d"]), "--release-exe is required");
    assert_eq!(
        error(&["--debug-exe", "d", "--release-exe", "r"]),
        "--output is required"
    );
    assert_eq!(error(&["--output"]), "missing value for --output");
    assert_eq!(error(&["--what", "x"]), "unknown option: --what");
    assert!(error(&["--timeout-seconds", "soon"]).starts_with("invalid timeout: "));
}

#[test]
fn numbers_are_plain_and_bounded() {
    assert_eq!(parse_number("0"), Some(0));
    assert_eq!(parse_number("+7"), Some(7));
    assert_eq!(parse_number("18446744073709551615"), Some(u64::MAX));
    assert_eq!(parse_number("18446744073709551616"), None);
    assert_eq!(parse_number(""), None);
    assert_eq!(parse_number("+"), None);
    assert_eq!(parse_number("-1"), None);
    assert_eq!(parse_number("1 "), None);
}

#[test]
fn a_child_has_to_end_in_time_and_agree_with_its_report() {
    let late = child_report(
        "debug",
        "cold",
        ChildOutcome::TimedOut {
            timeout_secs: 900,
        },
    )
    .unwrap_err();
    assert_eq!(late, "debug cold run exceeded 900s");
    let torn = child_report(
        "debug",
        "warm",
        ChildOutcome::Ended {
            exited_well: false,
            shown_status: "exit status: 1".to_string(),
            report: report(1, 10, "miss", "saved"),
        },
    )
    .unwrap_err();
    assert_eq!(
        torn,
        "debug warm exit/report disagreement: exit=exit status: 1, report success=true"
    );
    assert!(child_report(
        "debug",
        "cold",
        ChildOutcome::Ended {
            exited_well: true,
            shown_status: "exit status: 0".to_string(),
            report: report(1, 10, "miss", "saved"),
        }
    )
    .is_ok());
}

#[test]
fn the_suite_runs_cold_then_warm_for_each_profile() {
    let mut run = SuiteRun::new();
    let plan = [
        ("debug", "cold", "miss"),
        ("debug", "warm", "blob-loaded"),
        ("release", "cold", "miss"),
        ("release", "warm", "blob-loaded"),
    ];
    for (index, (profile, run_kind, blob)) in plan.iter().enumerate() {
        let slot = run.next_run().unwrap();
        assert_eq!(slot.profile(), *profile);
        assert_eq!(slot.run_kind(), *run_kind);
        let pid = 100 + index as u32;
        run.record(report(pid, 1_000 - 100 * index as u64, blob, "saved"))
            .unwrap();
    }
    assert!(run.next_run().is_none());
    let suite = run.finish().unwrap();
    assert_eq!(suite.reports.len(), 4);
    assert_eq!(suite.comparisons.len(), 2);
    assert_eq!(suite.comparisons[0].speedup_ms, 100);
    assert_eq!(suite.comparisons[1].profile, "release");
    assert_eq!(suite.cold_warm_definition, COLD_WARM_DEFINITION);
}

#[test]
fn a_reused_process_spoils_the_suite() {
    let reports = vec![
        report(7, 10, "miss", "saved"),
        report(7, 5, "blob-loaded", "saved"),
    ];
    assert!(assemble_suite(reports, Vec::new())
        .unwrap_err()
        .contains("PID was reused"));
}

#[test]
fn a_report_holds_the_pipelines_in_milliseconds() {
    let record = |label: &str, is_pipeline: bool, duration: Duration| CompilationRecord {
        kind: "RenderPipeline".to_string(),
        is_pipeline,
        label: label.to_string(),
        status: "Compiled".to_string(),
        started_after_reset: Duration::from_millis(4),
        duration,
    };
    let records = vec![
        record("terrain", true, Duration::from_micros(12_700)),
        record("module", false, Duration::from_millis(90)),
    ];
    let made = startup_report(
        RunIdentity {
            profile: None,
            run_kind: Some("cold".to_string()),
            pid: 5,
            app_version: "0.1.0".to_string(),
        },
        None,
        PipelineCacheReport {
            blob_status: "miss".to_string(),
            save_result: "saved".to_string(),
        },
        &records,
        Some(&records[0]),
        3,
        Duration::from_millis(250),
        None,
    );
    assert_eq!(made.profile, "unknown");
    assert_eq!(made.run_kind, "cold");
    assert!(made.success);
    assert_eq!(made.boot_duration_ms, 250);
    assert_eq!(made.pipelines.len(), 1);
    assert_eq!(made.pipelines[0].duration_ms, 12);
    assert_eq!(made.dominant_pipeline.unwrap().label, "terrain");
}

#[test]
fn milliseconds_saturate() {
    assert_eq!(millis(Duration::from_micros(1_999)), 1);
    assert_eq!(millis(Duration { nanos: u128::MAX }), u64::MAX);
}

#[test]
fn preferences_fall_back_to_their_defaults() {
    let defaults = EditorPrefs::loaded(None, 1u32, 2u32);
    assert_eq!(defaults.layout, 1);
    assert_eq!(defaults.viewport_render, 2);
    let kept = EditorPrefs::loaded(
        Some(EditorPrefs {
            layout: 8u32,
            preferred_workspace: "biomes".to_string(),
            auto_switch_workspace_on_create: false,
            viewport_render: 9u32,
        }),
        1,
        2,
    );
    assert_eq!(kept.layout, 8);
    assert_eq!(kept.preferred_workspace, "biomes");
    assert!(!kept.auto_switch_workspace_on_create);
    let from_here = shown(&editor_prefs_path(Some(path("/work"))));
    assert!(from_here.starts_with("/work/"));
}

#[test]
fn the_first_project_file_is_the_least_by_bytes() {
    let named = |names: &[&str]| {
        names
            .iter()
            .map(|name| name.as_bytes().to_vec())
            .collect::<Vec<_>>()
    };
    assert!(orders_before(&b"a".to_vec(), &b"ab".to_vec()));
    assert!(!orders_before(&b"b".to_vec(), &b"ab".to_vec()));
    assert_eq!(
        first_project_file(&named(&["z.json", "a.txt", "b.json"])),
        Some(2)
    );
    assert_eq!(first_project_file(&named(&["readme"])), None);
}
