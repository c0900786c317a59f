//! Recorded input and its sealing into snapshots.

use terra_app::clock::Instant;
use terra_app::input::{
    ElementState, InputAccumulator, InputEvent, InputModifiers, KeyCode, MouseButton,
    PointerCancelReason, StampedInputEvent,
};

const NOW: Instant = Instant {
    nanos: 7_000_000_000,
};

fn moved(x: f64) -> InputEvent {
    InputEvent::PointerMoved {
        x_bits: x.to_bits(),
        y_bits: 0.0f64.to_bits(),
    }
}

fn left(state: ElementState) -> InputEvent {
    InputEvent::PointerButton {
        state,
        button: MouseButton::Left,
    }
}

#[test]
fn sealing_preserves_order_without_loss_or_duplication() {
    let mut input = InputAccumulator::new();
    input.record(left(ElementState::Pressed), NOW);
    input.record(moved(1.0), NOW);
    input.record(moved(2.0), NOW);
    input.record(left(ElementState::Released), NOW);
    let snapshot = input.seal();
    assert_eq!(snapshot.len(), 4);
    assert_eq!(snapshot.pointer_sample_count(), 4);
    assert_eq!(
        snapshot
            .events()
            .iter()
            .map(StampedInputEvent::sequence)
            .collect::<Vec<_>>(),
        vec![1, 2, 3, 4]
    );
    assert!(!input.has_pending());
}

#[test]
fn events_after_seal_are_retained_for_the_next_snapshot() {
    let mut input = InputAccumulator::new();
    input.record(moved(1.0), NOW);
    let first = input.seal();
    input.record(moved(2.0), NOW);
    let second = input.seal();
    assert_eq!(first.events()[0].sequence(), 1);
    assert_eq!(second.events()[0].sequence(), 2);
}

#[test]
fn frame_boundaries_do_not_change_pointer_sample_order() {
    let mut input = InputAccumulator::new();
    input.record(left(ElementState::Pressed), NOW);
    input.record(moved(1.0), NOW);
    let first = input.seal();
    input.record(moved(2.0), NOW);
    input.record(left(ElementState::Released), NOW);
    let second = input.seal();
    let all = first
        .events()
        .iter()
        .chain(second.events())
        .map(StampedInputEvent::sequence)
        .collect::<Vec<_>>();
    assert_eq!(all, vec![1, 2, 3, 4]);
}

#[test]
fn modifier_focus_and_cancellation_order_is_explicit() {
    let mut input = InputAccumulator::new();
    input.record(
        InputEvent::Modifiers(InputModifiers {
            shift: true,
            ..InputModifiers::default()
        }),
        NOW,
    );
    input.record(InputEvent::Focused(false), NOW);
    input.record(
        InputEvent::PointerCancelled(PointerCancelReason::FocusLost),
        NOW,
    );
    let snapshot = input.seal();
    assert!(matches!(
        snapshot.events()[0].event(),
        InputEvent::Modifiers(InputModifiers { shift: true, .. })
    ));
    assert_eq!(snapshot.events()[1].event(), InputEvent::Focused(false));
    assert_eq!(
        snapshot.events()[2].event(),
        InputEvent::PointerCancelled(PointerCancelReason::FocusLost)
    );
}

#[test]
fn only_buttons_motion_and_wheel_are_pointer_samples() {
    let mut input = InputAccumulator::new();
    input.record(
        InputEvent::Keyboard {
            code: Some(KeyCode::Escape),
            state: ElementState::Pressed,
        },
        NOW,
    );
    input.record(InputEvent::CursorEntered, NOW);
    input.record(moved(1.0), NOW);
    let snapshot = input.seal();
    assert_eq!(snapshot.len(), 3);
    assert_eq!(snapshot.pointer_sample_count(), 1);
    assert_eq!(snapshot.first_primary_press_receipt(), None);
    assert!(!snapshot.has_primary_pointer_edge());
}

#[test]
fn the_first_primary_press_is_the_one_reported() {
    let later = Instant { nanos: 9_000_000_000 };
    let mut input = InputAccumulator::new();
    input.record(left(ElementState::Released), NOW);
    input.record(left(ElementState::Pressed), later);
    input.record(left(ElementState::Pressed), NOW);
    let snapshot = input.seal();
    assert_eq!(snapshot.first_primary_press_receipt(), Some(later));
    assert!(snapshot.has_primary_pointer_edge());
    assert_eq!(snapshot.into_events().len(), 3);
}

#[test]
fn clearing_forgets_events_but_not_the_count() {
    let mut input = InputAccumulator::new();
    input.record(moved(1.0), NOW);
    input.clear();
    assert!(!input.has_pending());
    input.record(moved(2.0), NOW);
    assert_eq!(input.seal().events()[0].sequence(), 2);
}
