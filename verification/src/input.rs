//! Ordered OS-input accumulation and immutable logical-frame snapshots.
use vstd::prelude::*;

use crate::clock::Instant;

verus! {

/// Keys that the editor gives a meaning of its own. Every other key is carried
/// by the number that the window system layer assigned to it.
#[derive(Debug, Clone, Copy, PartialEq, Eq, Hash, Structural)]
pub enum KeyCode {
    Digit1,
    Digit2,
    Digit3,
    Digit4,
    Digit5,
    Digit6,
    Digit7,
    Digit8,
    Digit9,
    Backspace,
    Escape,
    Enter,
    NumpadEnter,
    Other(u16),
}

#[derive(Debug, Clone, Copy, PartialEq, Eq, Hash, Structural)]
pub enum ElementState {
    Pressed,
    Released,
}

#[derive(Debug, Clone, Copy, PartialEq, Eq, Hash, Structural)]
pub enum MouseButton {
    Left,
    Right,
    Middle,
    Back,
    Forward,
    Other(u16),
}

#[derive(Debug, Clone, Copy, PartialEq, Eq, Structural)]
pub struct InputModifiers {
    pub shift: bool,
    pub alt: bool,
    pub ctrl: bool,
    pub super_key: bool,
}

impl Default for InputModifiers {
    fn default() -> (r: Self)
        ensures
            r == (InputModifiers { shift: false, alt: false, ctrl: false, super_key: false }),
    {
        InputModifiers { shift: false, alt: false, ctrl: false, super_key: false }
    }
}

#[derive(Debug, Clone, Copy, PartialEq, Eq, Structural)]
pub enum PointerCancelReason {
    FocusLost,
    CaptureLost,
}

/// One event of the window system. Positions and wheel travel are carried as
/// the bit patterns of their floating-point values: the accumulator keeps them
/// in order and never computes with them.
#[derive(Debug, Clone, Copy, PartialEq, Eq, Structural)]
pub enum InputEvent {
    Keyboard { code: Option<KeyCode>, state: ElementState },
    Modifiers(InputModifiers),
    PointerButton { state: ElementState, button: MouseButton },
    PointerMoved { x_bits: u64, y_bits: u64 },
    Wheel { delta_bits: u32 },
    Focused(bool),
    CursorEntered,
    CursorLeft,
    PointerCancelled(PointerCancelReason),
}

impl InputEvent {
    /// Buttons, moves and cancellations are samples of the pointer.
    pub open spec fn samples_pointer(self) -> bool {
        self is PointerButton || self is PointerMoved || self is PointerCancelled
    }

    /// A press of the primary button.
    pub open spec fn presses_primary(self) -> bool {
        self == (InputEvent::PointerButton {
            state: ElementState::Pressed,
            button: MouseButton::Left,
        })
    }

    /// A press or a release of the primary button.
    pub open spec fn edges_primary(self) -> bool {
        self matches InputEvent::PointerButton { button, .. } && button == MouseButton::Left
    }

    pub fn is_pointer_sample(self) -> (r: bool)
        ensures
            r == self.samples_pointer(),
    {
        matches!(
            self,
            InputEvent::PointerButton { .. } | InputEvent::PointerMoved { .. }
                | InputEvent::PointerCancelled(_)
        )
    }
}

/// An event with its place in the order of receipt.
#[derive(Debug, Clone, Copy, PartialEq, Eq, Structural)]
pub struct StampedInputEvent {
    pub sequence: u64,
    pub received_at: Instant,
    pub event: InputEvent,
}

impl StampedInputEvent {
    pub fn sequence(&self) -> (r: u64)
        ensures
            r == self.sequence,
    {
        self.sequence
    }

    pub fn received_at(&self) -> (r: Instant)
        ensures
            r == self.received_at,
    {
        self.received_at
    }

    pub fn event(&self) -> (r: InputEvent)
        ensures
            r == self.event,
    {
        self.event
    }

    /// Events numbered `first`, `first + 1`, and so on.
    pub open spec fn numbered_from(events: Seq<StampedInputEvent>, first: int) -> bool {
        forall|i: int| #![trigger events[i]] 0 <= i < events.len() ==> events[i].sequence == first + i
    }
}

/// Collects events until a frame seals them.
#[derive(Debug)]
pub struct InputAccumulator {
    pub next_sequence: u64,
    pub pending: Vec<StampedInputEvent>,
}

impl InputAccumulator {
    /// The pending events are the most recent ones, numbered without gaps.
    pub open spec fn wf(self) -> bool {
        &&& self.pending@.len() <= self.next_sequence
        &&& StampedInputEvent::numbered_from(
            self.pending@,
            self.next_sequence - self.pending@.len() + 1,
        )
    }

    pub fn new() -> (r: Self)
        ensures
            r.wf(),
            r.next_sequence == 0,
            r.pending@ == Seq::<StampedInputEvent>::empty(),
    {
        InputAccumulator { next_sequence: 0, pending: Vec::new() }
    }

    /// Appends an event to the pending ones.
    pub fn record(&mut self, event: InputEvent, received_at: Instant)
        requires
            old(self).next_sequence < u64::MAX,
        ensures
            final(self).next_sequence == old(self).next_sequence + 1,
            final(self).pending@ == old(self).pending@.push(
                StampedInputEvent {
                    sequence: (old(self).next_sequence + 1) as u64,
                    received_at,
                    event,
                },
            ),
            old(self).wf() ==> final(self).wf(),
    {
        self.next_sequence = self.next_sequence + 1;
        self.pending.push(
            StampedInputEvent { sequence: self.next_sequence, received_at, event },
        );
    }

    pub fn has_pending(&self) -> (r: bool)
        ensures
            r == (self.pending@.len() > 0),
    {
        self.pending.len() > 0
    }

    /// Hands the pending events over as a snapshot. Numbering goes on where it
    /// was.
    pub fn seal(&mut self) -> (r: InputSnapshot)
        ensures
            r.events@ == old(self).pending@,
            final(self).pending@ == Seq::<StampedInputEvent>::empty(),
            final(self).next_sequence == old(self).next_sequence,
            old(self).wf() ==> final(self).wf(),
    {
        let mut events: Vec<StampedInputEvent> = Vec::new();
        std::mem::swap(&mut events, &mut self.pending);
        InputSnapshot { events }
    }

    /// Drops the pending events.
    pub fn clear(&mut self)
        ensures
            final(self).pending@ == Seq::<StampedInputEvent>::empty(),
            final(self).next_sequence == old(self).next_sequence,
            old(self).wf() ==> final(self).wf(),
    {
        self.pending.clear();
    }
}

/// The events that one logical frame works on.
#[derive(Debug)]
pub struct InputSnapshot {
    pub events: Vec<StampedInputEvent>,
}

impl InputSnapshot {
    pub fn events(&self) -> (r: &[StampedInputEvent])
        ensures
            r@ == self.events@,
    {
        self.events.as_slice()
    }

    pub fn into_events(self) -> (r: Vec<StampedInputEvent>)
        ensures
            r@ == self.events@,
    {
        self.events
    }

    pub fn len(&self) -> (r: usize)
        ensures
            r == self.events@.len(),
    {
        self.events.len()
    }

    /// How many of the events sample the pointer.
    pub fn pointer_sample_count(&self) -> (r: usize)
        ensures
            r == self.events@.filter(|e: StampedInputEvent| e.event.samples_pointer()).len(),
    {
        let ghost sampled = |e: StampedInputEvent| e.event.samples_pointer();
        let mut count: usize = 0;
        let mut i: usize = 0;
        while i < self.events.len()
            invariant
                sampled == (|e: StampedInputEvent| e.event.samples_pointer()),
                i <= self.events@.len(),
                count <= i,
                count == self.events@.take(i as int).filter(sampled).len(),
            decreases self.events@.len() - i,
        {
            let event = self.events[i];
            proof {
                let before = self.events@.take(i as int);
                assert(self.events@.take(i + 1) =~= before.push(event));
                assert(before.push(event).drop_last() =~= before);
                reveal(Seq::filter);
            }
            if event.event.is_pointer_sample() {
                count += 1;
            }
            i += 1;
        }
        assert(self.events@.take(self.events@.len() as int) =~= self.events@);
        count
    }

    /// When the first press of the primary button came in.
    pub fn first_primary_press_receipt(&self) -> (r: Option<Instant>)
        ensures
            match r {
                None => forall|i: int|
                    #![trigger self.events@[i]]
                    0 <= i < self.events@.len() ==> !self.events@[i].event.presses_primary(),
                Some(at) => exists|i: int|
                    #![trigger self.events@[i]]
                    {
                        &&& 0 <= i < self.events@.len()
                        &&& self.events@[i].event.presses_primary()
                        &&& at == self.events@[i].received_at
                        &&& forall|j: int|
                            #![trigger self.events@[j]]
                            0 <= j < i ==> !self.events@[j].event.presses_primary()
                    },
            },
    {
        let mut i: usize = 0;
        while i < self.events.len()
            invariant
                i <= self.events@.len(),
                forall|j: int|
                    #![trigger self.events@[j]]
                    0 <= j < i ==> !self.events@[j].event.presses_primary(),
            decreases self.events@.len() - i,
        {
            let stamped = self.events[i];
            if let InputEvent::PointerButton { state, button } = stamped.event {
                if state == ElementState::Pressed && button == MouseButton::Left {
                    assert(self.events@[i as int].event.presses_primary());
                    return Some(stamped.received_at);
                }
            }
            i += 1;
        }
        None
    }

    /// Whether the primary button went down or up.
    pub fn has_primary_pointer_edge(&self) -> (r: bool)
        ensures
            r == exists|i: int|
                #![trigger self.events@[i]]
                0 <= i < self.events@.len() && self.events@[i].event.edges_primary(),
    {
        let mut i: usize = 0;
        while i < self.events.len()
            invariant
                i <= self.events@.len(),
                forall|j: int|
                    #![trigger self.events@[j]]
                    0 <= j < i ==> !self.events@[j].event.edges_primary(),
            decreases self.events@.len() - i,
        {
            let stamped = self.events[i];
            if let InputEvent::PointerButton { state: _, button } = stamped.event {
                if button == MouseButton::Left {
                    assert(self.events@[i as int].event.edges_primary());
                    return true;
                }
            }
            i += 1;
        }
        false
    }
}

/// Where a frame boundary falls does not matter: what one snapshot holds,
/// followed by what the next one holds, is numbered without gap, loss or
/// repetition.
pub proof fn snapshots_join_without_gaps(
    first: Seq<StampedInputEvent>,
    second: Seq<StampedInputEvent>,
    start: int,
)
    requires
        StampedInputEvent::numbered_from(first, start),
        StampedInputEvent::numbered_from(second, start + first.len()),
    ensures
        StampedInputEvent::numbered_from(first + second, start),
        forall|i: int, j: int|
            #![trigger (first + second)[i], (first + second)[j]]
            0 <= i < j < (first + second).len() ==> (first + second)[i].sequence < (first
                + second)[j].sequence,
{
}

/// Recording after a seal yields the events that follow the sealed ones: an
/// accumulator with `sealed` handed out and `pending` collected since then has
/// numbered all of them in one run.
pub proof fn events_after_a_seal_continue_the_run(
    before: InputAccumulator,
    after: InputAccumulator,
)
    requires
        before.wf(),
        after.wf(),
        after.next_sequence == before.next_sequence + after.pending@.len(),
    ensures
        StampedInputEvent::numbered_from(
            before.pending@ + after.pending@,
            before.next_sequence - before.pending@.len() + 1,
        ),
{
    snapshots_join_without_gaps(
        before.pending@,
        after.pending@,
        before.next_sequence - before.pending@.len() + 1,
    );
}

/// Buttons, moves and cancellations sample the pointer, and nothing else does. Only
/// the primary button has primary edges, and of these only the press presses.
pub proof fn events_are_told_apart(event: InputEvent)
    ensures
        event is PointerButton || event is PointerMoved || event is PointerCancelled
            ==> event.samples_pointer(),
        event is Keyboard || event is Modifiers || event is Wheel || event is Focused || event
            is CursorEntered || event is CursorLeft ==> !event.samples_pointer()
            && !event.presses_primary() && !event.edges_primary(),
        event matches InputEvent::PointerButton { state, button } ==> {
            &&& button is Left ==> event.edges_primary()
            &&& !(button is Left) ==> !event.edges_primary() && !event.presses_primary()
            &&& button is Left && state is Pressed ==> event.presses_primary()
            &&& state is Released ==> !event.presses_primary()
        },
        event is PointerMoved || event is PointerCancelled ==> !event.edges_primary(),
{
}

/// An event is kept behind those before it, with its receipt and the next number.
pub proof fn recorded_events_come_last(
    input: &mut InputAccumulator,
    event: InputEvent,
    at: Instant,
)
    requires
        old(input).next_sequence < u64::MAX,
        call_ensures(InputAccumulator::record, (input, event, at), ()),
    ensures
        final(input).pending@.len() == old(input).pending@.len() + 1,
        final(input).pending@.last().event == event,
        final(input).pending@.last().received_at == at,
        final(input).pending@.last().sequence == old(input).next_sequence + 1,
        final(input).pending@.drop_last() == old(input).pending@,
{
    assert(final(input).pending@.drop_last() =~= old(input).pending@);
}

/// A seal hands every waiting event out once, in order, and numbering goes on.
pub proof fn seals_hand_out_everything(input: &mut InputAccumulator, snapshot: InputSnapshot)
    requires
        call_ensures(InputAccumulator::seal, (input,), snapshot),
    ensures
        snapshot.events@ == old(input).pending@,
        final(input).pending@.len() == 0,
        final(input).next_sequence == old(input).next_sequence,
{
}

} // verus!
