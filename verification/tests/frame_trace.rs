//! The frame trace: bounded records and latency summaries.

use std::collections::VecDeque;

use terra_app::clock::{Duration, Instant};
use terra_app::frame_trace::{
    micros, summarize, verbose_requested, EvaluationTraceId, FrameTraceEventKind,
    FrameTraceRecorder, LatencySummary, EVENT_CAPACITY, SAMPLE_CAPACITY,
};
use terra_app::logical_frame::{EditGeneration, FrameIdentity, FramePhase, LogicalFrameId};
use terra_app::quality::{GpuEvalStats, GpuEvaluationIntent, PreviewQuality};

fn at(millis: u64) -> Instant {
    Instant {
        nanos: 5_000_000_000 + Duration::from_millis(millis).nanos,
    }
}

fn verbose() -> FrameTraceRecorder {
    FrameTraceRecorder::new(Some("verbose"))
}

fn identity(id: u64, start: u64, generation: u64) -> FrameIdentity {
    FrameIdentity {
        id: LogicalFrameId::new(id),
        generation_at_start: EditGeneration::new(start),
        generation: EditGeneration::new(generation),
    }
}

fn note(trace: &mut FrameTraceRecorder, identity: Option<FrameIdentity>) -> bool {
    trace.record(
        at(0),
        FrameTraceEventKind::OsInputReceipt,
        identity,
        None,
        None,
        None,
        None,
        None,
    )
}

#[test]
fn percentile_summary_uses_nearest_rank() {
    let samples = VecDeque::from([1, 2, 3, 4, 100]);
    assert_eq!(
        summarize(&samples),
        LatencySummary {
            count: 5,
            p50_us: 3,
            p95_us: 100,
            max_us: 100,
        }
    );
}

#[test]
fn records_are_bounded() {
    let mut trace = verbose();
    for _ in 0..EVENT_CAPACITY + 7 {
        note(&mut trace, Some(identity(1, 1, 1)));
    }
    assert_eq!(trace.events().len(), EVENT_CAPACITY);
}

#[test]
fn records_without_a_logical_frame_are_rejected_and_counted() {
    let mut trace = verbose();
    note(&mut trace, None);

    assert!(trace.events().is_empty());
    assert_eq!(trace.orphaned_events(), 1);
}

#[test]
fn disabled_verbose_wrappers_do_not_annotate_the_previous_event() {
    let mut trace = verbose();
    let frame = identity(2, 3, 3);
    note(&mut trace, Some(frame));
    trace.verbose = false;
    trace.record_refinement(
        at(0),
        FrameTraceEventKind::RefinementUnitProgress,
        Some(frame),
        None,
        EvaluationTraceId::new(4),
        PreviewQuality::Medium,
        99,
        1,
        2,
        1,
        None,
    );

    assert_eq!(trace.events().len(), 1);
    assert_eq!(trace.events().back().unwrap().refinement_job, None);
}

#[test]
fn refinement_events_preserve_frame_generation_progress_and_depth() {
    let mut trace = verbose();
    let frame = identity(12, 8, 9);
    let evaluation = trace.next_evaluation_id();
    trace.record_refinement(
        at(0),
        FrameTraceEventKind::RefinementSubmissionQueued,
        Some(frame),
        Some(FramePhase::OptionalRefinement),
        evaluation,
        PreviewQuality::Full,
        41,
        7,
        19,
        1,
        None,
    );

    let event = trace.events().back().expect("refinement event");
    assert_eq!(event.frame, frame.id);
    assert_eq!(event.generation, frame.generation);
    assert_eq!(event.evaluation, Some(evaluation));
    assert_eq!(event.quality, Some(PreviewQuality::Full));
    assert_eq!(event.refinement_job, Some(41));
    assert_eq!(event.completed_units, 7);
    assert_eq!(event.total_units, 19);
    assert_eq!(event.refinement_submission_depth, 1);
}

#[test]
fn visible_latency_only_closes_on_the_matching_generation() {
    let mut trace = verbose();
    trace.note_input_receipt(at(0), EditGeneration::new(7));
    trace.note_release(at(0), EditGeneration::new(7));

    trace.note_surface_presented(at(2), EditGeneration::new(6));
    assert_eq!(trace.input_to_visible_summary().count, 0);
    assert_eq!(trace.refinement_summary().count, 0);

    trace.note_surface_presented(at(5), EditGeneration::new(7));
    assert_eq!(trace.input_to_visible_summary().p50_us, 5_000);
    assert_eq!(trace.refinement_summary().p50_us, 5_000);
}

#[test]
fn follow_up_press_preempts_the_pending_refinement_sample() {
    let mut trace = verbose();
    trace.note_release(at(0), EditGeneration::new(3));
    assert!(trace.note_follow_up_press(at(7)));
    assert_eq!(trace.follow_up_press_summary().p95_us, 7_000);

    trace.note_surface_presented(at(20), EditGeneration::new(3));
    assert_eq!(trace.refinement_summary().count, 0);
    assert!(!trace.note_follow_up_press(at(30)));
}

#[test]
fn an_empty_summary_is_all_zero() {
    assert_eq!(summarize(&VecDeque::new()), LatencySummary::default());
}

#[test]
fn samples_are_ranked_whatever_their_order() {
    let samples = VecDeque::from([40, 10, 30, 20]);
    assert_eq!(
        summarize(&samples),
        LatencySummary {
            count: 4,
            p50_us: 20,
            p95_us: 40,
            max_us: 40,
        }
    );
}

#[test]
fn only_the_newest_samples_are_kept() {
    let mut trace = verbose();
    for index in 0..300u64 {
        trace.note_release(at(0), EditGeneration::new(1));
        assert!(trace.note_follow_up_press(at(index)));
    }
    let summary = trace.follow_up_press_summary();
    assert_eq!(summary.count, SAMPLE_CAPACITY);
    assert_eq!(summary.max_us, 299_000);
    assert_eq!(*trace.release_to_follow_up_press_us.front().unwrap(), 44_000);
}

#[test]
fn the_setting_is_read_without_regard_to_case() {
    assert!(verbose_requested(Some("VERBOSE")));
    assert!(verbose_requested(Some("Verbose")));
    assert!(!verbose_requested(Some("quiet")));
    assert!(!verbose_requested(None));
}

#[test]
fn a_setting_keeps_the_trace_verbose() {
    let mut trace = FrameTraceRecorder::new(None);
    assert!(!trace.verbose);
    trace.set_verbose(true, None);
    assert!(trace.verbose);
    trace.set_verbose(false, Some("verbose"));
    assert!(trace.verbose);
    trace.set_verbose(false, None);
    assert!(!trace.verbose);
}

#[test]
fn submissions_carry_their_statistics() {
    let mut trace = verbose();
    let stats = GpuEvalStats {
        operations_dispatched: 3,
        operations_deferred: 1,
        dirty_texels: 64,
        readback_bytes: 0,
        resolution: 512,
        cold_execution: true,
    };
    trace.record_evaluation_submission(
        at(1),
        Some(identity(1, 2, 2)),
        Some(FramePhase::RequiredInteractiveWork),
        EvaluationTraceId::new(5),
        PreviewQuality::Draft,
        GpuEvaluationIntent::InteractiveLocal,
        Duration::from_micros(250),
        stats,
    );
    let event = trace.events().back().unwrap();
    assert_eq!(event.kind, FrameTraceEventKind::QueueSubmitted);
    assert_eq!(event.gpu_stats, Some(stats));
    assert_eq!(event.intent, Some(GpuEvaluationIntent::InteractiveLocal));
    assert_eq!(event.duration, Some(Duration::from_micros(250)));
}

#[test]
fn long_spans_saturate_in_microseconds() {
    assert_eq!(micros(Duration::from_millis(3)), 3_000);
    assert_eq!(micros(Duration { nanos: u128::MAX }), u64::MAX);
}

#[test]
fn evaluation_ids_count_up_from_one() {
    let mut trace = verbose();
    assert_eq!(trace.next_evaluation_id().get(), 1);
    assert_eq!(trace.next_evaluation_id().get(), 2);
}
