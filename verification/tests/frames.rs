//! Logical frames, their budgets and identities.

use terra_app::clock::{Duration, Instant};
use terra_app::deadlines::{Deadlines, FrameWake};
use terra_app::eval::FrameDeadlineKind;
use terra_app::logical_frame::{
    EditGeneration, FramePhase, FrameRequestReason, FrameWorkBudget, LogicalFrameCoordinator,
    LogicalFrameId,
};
use terra_app::turn::WakeRequest;

fn at(millis: u64) -> Instant {
    Instant {
        nanos: 5_000_000_000 + Duration::from_millis(millis).nanos,
    }
}

fn coordinator() -> LogicalFrameCoordinator {
    LogicalFrameCoordinator::new(Duration::from_millis(8))
}

#[test]
fn frame_ids_increase_while_generations_are_independent() {
    let now = at(0);
    let mut frames = coordinator();
    assert_eq!(
        frames.request(EditGeneration::new(7), FrameRequestReason::Input),
        LogicalFrameId(1)
    );
    let first = frames.begin(now, 1, 0).unwrap();
    frames.complete(now);
    frames.request(EditGeneration::new(7), FrameRequestReason::ScheduledWork);
    let second = frames.begin(now, 0, 0).unwrap();
    assert_eq!(first.generation, second.generation);
    assert!(second.id > first.id);
    frames.update_generation(EditGeneration::new(8));
    assert_eq!(frames.active_identity().unwrap().generation.get(), 8);
}

#[test]
fn input_requested_after_seal_is_a_follow_up_frame() {
    let now = at(0);
    let mut frames = coordinator();
    frames.request(EditGeneration::new(2), FrameRequestReason::Input);
    let current = frames.begin(now, 1, 1).unwrap();
    let next = frames.request(EditGeneration::new(2), FrameRequestReason::Input);
    assert!(next > current.id);
    assert!(frames.has_pending());
}

#[test]
fn pending_input_denies_optional_work() {
    let now = at(0);
    let mut frames = coordinator();
    frames.request(EditGeneration::new(1), FrameRequestReason::ScheduledWork);
    frames.begin(now, 0, 0);
    assert!(frames.can_start_optional(now));
    frames.request(EditGeneration::new(1), FrameRequestReason::Input);
    assert!(!frames.can_start_optional(now));
}

#[test]
fn bounded_budget_is_a_start_gate() {
    let now = at(0);
    let budget = FrameWorkBudget::bounded(now, Duration::from_millis(5));
    assert!(budget.can_start_optional(now));
    assert!(!budget.can_start_optional(at(5)));
    assert!(FrameWorkBudget::unbounded(now).can_start_optional(at(60_000)));
}

#[test]
fn a_second_request_joins_the_pending_frame() {
    let mut frames = coordinator();
    let first = frames.request(EditGeneration::new(3), FrameRequestReason::ScheduledWork);
    let second = frames.request(EditGeneration::new(4), FrameRequestReason::Input);
    assert_eq!(first, second);
    let pending = frames.pending_identity().unwrap();
    assert_eq!(pending.id, LogicalFrameId(1));
    assert_eq!(pending.generation.get(), 3);
}

#[test]
fn a_frame_completes_once_with_what_it_took_in() {
    let mut frames = coordinator();
    frames.request(EditGeneration::new(3), FrameRequestReason::Input);
    frames.begin(at(0), 5, 2).unwrap();
    frames.transition(FramePhase::ApplicationUpdate);
    assert_eq!(frames.active_phase(), Some(FramePhase::ApplicationUpdate));
    let done = frames.complete(at(3)).unwrap();
    assert_eq!(done.phase, FramePhase::Complete);
    assert_eq!(done.input_events, 5);
    assert_eq!(done.pointer_samples, 2);
    assert_eq!(done.elapsed, Duration::from_millis(3));
    assert_eq!(frames.complete(at(4)), None);
    assert_eq!(frames.begin(at(4), 0, 0), None);
}

#[test]
fn a_presentation_identity_is_taken_once() {
    let mut frames = coordinator();
    frames.request(EditGeneration::new(3), FrameRequestReason::Animation);
    let identity = frames.begin(at(0), 0, 0).unwrap();
    frames.mark_presentation_requested();
    assert_eq!(frames.take_presentation_identity(), Some(identity));
    assert_eq!(frames.take_presentation_identity(), None);
}

#[test]
fn aborting_drops_the_frame_and_its_presentation() {
    let mut frames = coordinator();
    frames.request(EditGeneration::new(3), FrameRequestReason::Animation);
    frames.begin(at(0), 0, 0);
    frames.mark_presentation_requested();
    frames.request_shutdown(EditGeneration::new(3));
    assert!(frames.shutdown_requested());
    frames.abort();
    assert_eq!(frames.active_identity(), None);
    assert!(!frames.has_pending());
    assert_eq!(frames.take_presentation_identity(), None);
}

#[test]
fn phases_are_ordered_and_named() {
    let phases = [
        (FramePhase::CollectingInput, "collecting input"),
        (FramePhase::SealingInput, "sealing input"),
        (FramePhase::ApplicationUpdate, "application update"),
        (FramePhase::RequiredInteractiveWork, "interactive work"),
        (FramePhase::PresentationRequest, "presentation request"),
        (FramePhase::OptionalRefinement, "optional refinement"),
        (FramePhase::Complete, "complete"),
    ];
    for (index, (phase, label)) in phases.iter().enumerate() {
        assert_eq!(usize::from(phase.ordinal()), index);
        assert_eq!(phase.label(), *label);
    }
}

const IDLE: WakeRequest = WakeRequest {
    continuous: false,
    fallback: None,
};

#[test]
fn deadlines_hold_work_of_their_generation_back() {
    let (now, later) = (at(0), at(50));
    let owner = EditGeneration::new(7);
    let mut deadlines = Deadlines::none();
    let kind = FrameDeadlineKind::OptionalRefinement;
    assert!(deadlines.deadline_ready(kind, owner, now));
    deadlines.schedule_deadline(kind, owner, later);
    assert!(!deadlines.deadline_ready(kind, owner, now));
    assert!(deadlines.deadline_ready(kind, owner, later));
    assert!(deadlines.deadline_ready(kind, EditGeneration::new(8), now));
    assert!(deadlines.deadline_ready(FrameDeadlineKind::FullFieldRefinement, owner, now));
    deadlines.schedule_deadline(kind, owner, at(90));
    assert!(!deadlines.deadline_ready(kind, owner, later));
    deadlines.clear_deadline(kind);
    assert_eq!(deadlines, Deadlines::none());
}

#[test]
fn the_loop_wakes_for_the_first_reason() {
    let now = at(0);
    let owner = EditGeneration::new(7);
    let mut deadlines = Deadlines::none();
    assert_eq!(deadlines.wake_decision(owner, now, IDLE), FrameWake::Wait);
    deadlines.schedule_deadline(FrameDeadlineKind::OptionalRefinement, owner, at(250));
    deadlines.schedule_deadline(FrameDeadlineKind::InteractiveEvaluation, owner, at(90));
    deadlines.schedule_deadline(
        FrameDeadlineKind::DeferredFullField,
        EditGeneration::new(6),
        at(10),
    );
    let wake = |deadlines: &Deadlines, request: WakeRequest| {
        deadlines.wake_decision(owner, now, request)
    };
    assert_eq!(wake(&deadlines, IDLE), FrameWake::WaitUntil(at(90)));
    let soon = WakeRequest {
        fallback: Some(Duration::from_millis(16)),
        ..IDLE
    };
    assert_eq!(wake(&deadlines, soon), FrameWake::WaitUntil(at(16)));
    let running = WakeRequest {
        continuous: true,
        ..soon
    };
    assert_eq!(wake(&deadlines, running), FrameWake::Poll);
    assert_eq!(
        deadlines.wake_decision(owner, at(90), IDLE),
        FrameWake::WaitUntil(at(250))
    );
    deadlines.discard_stale_deadlines(EditGeneration::new(8));
    assert_eq!(deadlines, Deadlines::none());
}
