//! Where the log goes, what it holds and which logs are kept.

use std::path::Path;

use terra_app::logging::{
    choose_filter, configured_filter, is_launch_log, launch_log_name, log_directory,
    log_directory_from_local_data, log_line, logging_outcome, logs_to_remove, prepare_log_destination,
    panic_text, unique_log_name,
    FilterSource, LogDestination, LogFile, LoggingOutcome, OperationContext, DEFAULT_LOG_FILTER,
    RETAINED_LOG_FILES,
};
use terra_app::paths::{AppPath, PathPart};
use terra_app::quality::PreviewQuality;

fn path(names: &[&str]) -> AppPath {
    AppPath {
        parts: names
            .iter()
            .map(|name| PathPart::Normal(name.to_string()))
            .collect(),
    }
}

fn names(path: &AppPath) -> Vec<String> {
    path.parts
        .iter()
        .map(|part| match part {
            PathPart::Normal(name) => name.clone(),
            other => format!("{other:?}"),
        })
        .collect()
}

fn log(name: &str, modified_nanos: i128) -> LogFile {
    LogFile {
        name: name.as_bytes().to_vec(),
        text: Some(name.to_string()),
        modified_nanos,
    }
}

#[test]
fn local_data_path_maps_to_terra_logs() {
    let root = path(&["local-data-root"]);
    assert_eq!(
        names(&log_directory_from_local_data(&root)),
        ["local-data-root", "Terra", "logs"]
    );
}

#[test]
fn uncreatable_log_directory_is_a_recoverable_error() {
    let destination = prepare_log_destination(
        Ok(path(&["blocker", "logs"])),
        "blocker/logs",
        Err("not a directory".to_string()),
    );
    let LogDestination::ConsoleOnly(error) = destination else {
        panic!("an uncreatable file destination must select console fallback");
    };
    assert!(error.contains("could not create"));
}

#[test]
fn a_created_directory_is_the_destination() {
    let destination = prepare_log_destination(Ok(path(&["logs"])), "logs", Ok(()));
    assert!(matches!(destination, LogDestination::File(at) if names(&at) == ["logs"]));
    assert_eq!(
        log_directory(None).unwrap_err(),
        "per-user local application-data directory is unavailable"
    );
}

#[test]
fn operation_context_includes_available_evaluation_fields() {
    let path = format!("{:?}", Path::new(r"D:\Worlds\Island\Island.json"));
    let context = OperationContext::evaluation(42, PreviewQuality::Full)
        .with_layer(Some("Hydraulic Erosion"))
        .with_project_path(Some(&path))
        .text();
    assert!(context.contains("operation=evaluation"));
    assert!(context.contains("token=42"));
    assert!(context.contains("quality=Full"));
    assert!(context.contains("layer=\"Hydraulic Erosion\""));
    assert!(context.contains("Island.json"));
}

#[test]
fn a_layer_name_is_escaped_and_missing_fields_are_left_out() {
    let context = OperationContext::evaluation(1, PreviewQuality::Draft)
        .with_layer(Some("a \"b\"\n"))
        .text();
    assert_eq!(
        context,
        "operation=evaluation token=1 quality=Draft layer=\"a \\\"b\\\"\\n\""
    );
}

#[test]
fn a_path_is_shown_as_paths_are() {
    let shown = format!("{:?}", Path::new("/worlds/it's \"here\".json"));
    let context = OperationContext::evaluation(1, PreviewQuality::Draft)
        .with_project_path(Some(&shown))
        .text();
    assert_eq!(
        context,
        format!("operation=evaluation token=1 quality=Draft project={shown}")
    );
}

#[test]
fn retention_policy_is_bounded_and_documentable() {
    assert_eq!(RETAINED_LOG_FILES, 6);
    assert!(DEFAULT_LOG_FILTER.starts_with("warn,"));
    assert!(DEFAULT_LOG_FILTER.contains("terra_app=info"));
    let specification = flexi_logger::LogSpecification::parse(DEFAULT_LOG_FILTER)
        .expect("valid default log filter");
    assert!(specification.enabled(log::Level::Info, "terra_app::logging"));
    assert!(specification.enabled(log::Level::Warn, "wgpu_hal::dx12::device"));
    assert!(!specification.enabled(log::Level::Info, "wgpu_hal::dx12::device"));
}

#[test]
fn a_malformed_environment_filter_gives_way_to_the_default() {
    assert_eq!(configured_filter(None).source, FilterSource::Default);
    assert_eq!(
        configured_filter(Some("debug,terra_app=trace")).source,
        FilterSource::Environment
    );
    let malformed = configured_filter(Some("terra_app=info=warn"));
    assert_eq!(malformed.source, FilterSource::Default);
    assert!(malformed.warning.is_none());
}

#[test]
fn two_malformed_filters_leave_warnings_only() {
    let choice = choose_filter(true, Some("first".to_string()), Some("second".to_string()));
    assert_eq!(choice.source, FilterSource::WarningsOnly);
    assert_eq!(
        choice.warning.as_deref(),
        Some("invalid RUST_LOG filter: second")
    );
}

#[test]
fn launch_log_paths_are_timestamped_and_collision_safe() {
    let timestamp = "2026-08-14_20-30-01-123";
    assert_eq!(
        launch_log_name(timestamp, 1),
        "log-2026-08-14_20-30-01-123.log"
    );
    assert_eq!(
        launch_log_name(timestamp, 2),
        "log-2026-08-14_20-30-01-123-2.log"
    );
    let mut taken = Vec::new();
    let first = unique_log_name(timestamp, &taken);
    assert_eq!(first, "log-2026-08-14_20-30-01-123.log");
    taken.push(first);
    assert_eq!(
        unique_log_name(timestamp, &taken),
        "log-2026-08-14_20-30-01-123-2.log"
    );
}

#[test]
fn formatter_includes_level_target_thread_and_message() {
    let text = log_line(
        &flexi_logger::DeferredNow::new().format_rfc3339().to_string(),
        log::Level::Warn.as_str(),
        None,
        "ThreadId(1)",
        "terra_app::logging::probe",
        "format probe",
    );
    assert!(text.contains("WARN"));
    assert!(text.contains("ThreadId("));
    assert!(text.contains("terra_app::logging::probe"));
    assert!(text.contains("format probe"));
    assert!(text.contains('T'), "RFC 3339 timestamp should contain T");
}

#[test]
fn a_log_line_aligns_its_level() {
    assert_eq!(
        log_line("t", "INFO", Some("main"), "ThreadId(1)", "a::b", "hello"),
        "t INFO  [main ThreadId(1)] a::b: hello\n"
    );
    assert_eq!(
        log_line("t", "ERROR", None, "ThreadId(2)", "a", ""),
        "t ERROR [<unnamed> ThreadId(2)] a: \n"
    );
    assert_eq!(
        panic_text(Some("src/a.rs:3:9"), Some("boom")),
        "panic at src/a.rs:3:9: boom"
    );
    assert_eq!(
        panic_text(None, None),
        "panic at <unknown>: non-string panic payload"
    );
}

#[test]
fn a_launch_takes_the_first_name_that_is_free() {
    let names = |numbers: &[u32]| -> Vec<String> {
        numbers
            .iter()
            .map(|number| launch_log_name("t", *number))
            .collect()
    };
    assert_eq!(unique_log_name("t", &names(&[2, 3])), "log-t.log");
    assert_eq!(unique_log_name("t", &names(&[1, 3, 2, 5])), "log-t-4.log");
    let mut taken = names(&(1..=11).collect::<Vec<u32>>());
    taken.push("notes.txt".to_string());
    assert_eq!(unique_log_name("t", &taken), "log-t-12.log");
}

#[test]
fn cleanup_keeps_six_launch_logs_and_ignores_other_files() {
    let active = "log-2026-08-14_20-30-09-000.log";
    let mut files: Vec<LogFile> = (1..=8)
        .map(|index| log(&format!("log-2026-08-14_20-30-0{index}-000.log"), index))
        .collect();
    files.push(log("notes.txt", 0));
    files.push(log(active, 9));

    let removed = logs_to_remove(&files, &active.as_bytes().to_vec());

    let kept: Vec<&LogFile> = files
        .iter()
        .enumerate()
        .filter(|(index, _)| !removed.contains(index))
        .map(|(_, file)| file)
        .collect();
    let launch_logs = kept
        .iter()
        .filter(|file| is_launch_log(file.text.as_deref()))
        .count();
    assert_eq!(launch_logs, RETAINED_LOG_FILES);
    assert!(kept.iter().any(|file| file.text.as_deref() == Some(active)));
    assert!(kept
        .iter()
        .any(|file| file.text.as_deref() == Some("notes.txt")));
    let mut oldest = removed.clone();
    oldest.sort_unstable();
    assert_eq!(oldest, [0, 1, 2]);
}

#[test]
fn nothing_is_removed_while_there_is_room() {
    let files: Vec<LogFile> = (1..=5)
        .map(|index| log(&format!("log-{index}.log"), index))
        .collect();
    assert!(logs_to_remove(&files, &b"log-9.log".to_vec()).is_empty());
}

#[test]
fn launch_logs_are_known_by_their_names() {
    assert!(is_launch_log(Some("log-x.log")));
    assert!(!is_launch_log(Some("log-x.txt")));
    assert!(!is_launch_log(Some("notes.log")));
    assert!(!is_launch_log(None));
}

#[test]
fn the_outcome_says_what_is_missing() {
    let file = logging_outcome(Ok("a.log".to_string()), Ok(()));
    assert!(file.warning().is_none());
    let console = logging_outcome(Err("full".to_string()), Ok(()));
    assert_eq!(
        console.warning().unwrap(),
        "persistent logging unavailable; using console only: full"
    );
    let nothing = logging_outcome(Err("full".to_string()), Err("taken".to_string()));
    assert!(matches!(nothing, LoggingOutcome::Unavailable { .. }));
    assert_eq!(
        nothing.warning().unwrap(),
        "Terra logging unavailable: full; console logger failed: taken"
    );
}
