//! Event-driven logical-frame identities, phases, and optional-work budgets.
use vstd::prelude::*;

use crate::clock::{Duration, Instant};

verus! {

/// Identity of one logical frame. Identities are handed out in increasing
/// order, starting at one.
#[derive(Debug, Clone, Copy, PartialEq, Eq, PartialOrd, Ord, Hash, Structural)]
pub struct LogicalFrameId(pub u64);

impl LogicalFrameId {
    pub fn new(value: u64) -> (r: Self)
        ensures
            r == LogicalFrameId(value),
    {
        LogicalFrameId(value)
    }

    pub fn get(self) -> (r: u64)
        ensures
            r == self.0,
    {
        self.0
    }
}

/// Generation of the edited document. It moves with edits, not with frames.
#[derive(Debug, Clone, Copy, PartialEq, Eq, PartialOrd, Ord, Hash, Structural)]
pub struct EditGeneration(pub u64);

impl EditGeneration {
    pub fn new(value: u64) -> (r: Self)
        ensures
            r == EditGeneration(value),
    {
        EditGeneration(value)
    }

    pub fn get(self) -> (r: u64)
        ensures
            r == self.0,
    {
        self.0
    }
}

/// The stages that a logical frame passes, in order.
#[derive(Debug, Clone, Copy, PartialEq, Eq, Structural)]
pub enum FramePhase {
    CollectingInput,
    SealingInput,
    ApplicationUpdate,
    RequiredInteractiveWork,
    PresentationRequest,
    OptionalRefinement,
    Complete,
}

impl FramePhase {
    /// The name of the phase as diagnostics show it.
    pub open spec fn name(self) -> Seq<char> {
        match self {
            FramePhase::CollectingInput => "collecting input"@,
            FramePhase::SealingInput => "sealing input"@,
            FramePhase::ApplicationUpdate => "application update"@,
            FramePhase::RequiredInteractiveWork => "interactive work"@,
            FramePhase::PresentationRequest => "presentation request"@,
            FramePhase::OptionalRefinement => "optional refinement"@,
            FramePhase::Complete => "complete"@,
        }
    }

    /// Position of the phase within a frame.
    pub open spec fn rank(self) -> int {
        match self {
            FramePhase::CollectingInput => 0,
            FramePhase::SealingInput => 1,
            FramePhase::ApplicationUpdate => 2,
            FramePhase::RequiredInteractiveWork => 3,
            FramePhase::PresentationRequest => 4,
            FramePhase::OptionalRefinement => 5,
            FramePhase::Complete => 6,
        }
    }

    pub fn label(self) -> (r: &'static str)
        ensures
            r@ == self.name(),
    {
        match self {
            FramePhase::CollectingInput => "collecting input",
            FramePhase::SealingInput => "sealing input",
            FramePhase::ApplicationUpdate => "application update",
            FramePhase::RequiredInteractiveWork => "interactive work",
            FramePhase::PresentationRequest => "presentation request",
            FramePhase::OptionalRefinement => "optional refinement",
            FramePhase::Complete => "complete",
        }
    }

    pub fn ordinal(self) -> (r: u8)
        ensures
            r == self.rank(),
    {
        match self {
            FramePhase::CollectingInput => 0,
            FramePhase::SealingInput => 1,
            FramePhase::ApplicationUpdate => 2,
            FramePhase::RequiredInteractiveWork => 3,
            FramePhase::PresentationRequest => 4,
            FramePhase::OptionalRefinement => 5,
            FramePhase::Complete => 6,
        }
    }
}

/// Why a logical frame was asked for.
#[derive(Debug, Clone, Copy, PartialEq, Eq, Structural)]
pub enum FrameRequestReason {
    Input,
    ScheduledWork,
    UiActions,
    RequiredEvaluation,
    OptionalRefinement,
    Animation,
    Resize,
    Completion,
}

/// The identity of a frame together with the generations that it saw.
#[derive(Debug, Clone, Copy, PartialEq, Eq, Structural)]
pub struct FrameIdentity {
    pub id: LogicalFrameId,
    pub generation_at_start: EditGeneration,
    pub generation: EditGeneration,
}

/// Time that a frame leaves for work which may as well wait.
#[derive(Debug, Clone, Copy, PartialEq, Eq, Structural)]
pub struct FrameWorkBudget {
    pub started_at: Instant,
    pub optional_deadline: Option<Instant>,
}

impl FrameWorkBudget {
    /// Whether optional work may still start at `now`.
    pub open spec fn admits(self, now: Instant) -> bool {
        match self.optional_deadline {
            Some(deadline) => now.nanos < deadline.nanos,
            None => true,
        }
    }

    /// A budget without a deadline.
    pub fn unbounded(started_at: Instant) -> (r: Self)
        ensures
            r == (FrameWorkBudget { started_at, optional_deadline: None }),
    {
        FrameWorkBudget { started_at, optional_deadline: None }
    }

    /// A budget that closes `duration` after `started_at`. When the clock
    /// cannot represent that instant the budget never closes.
    pub fn bounded(started_at: Instant, duration: Duration) -> (r: Self)
        ensures
            r == (FrameWorkBudget { started_at, optional_deadline: started_at.after(duration) }),
    {
        FrameWorkBudget { started_at, optional_deadline: started_at.checked_add(duration) }
    }

    pub fn can_start_optional(self, now: Instant) -> (r: bool)
        ensures
            r == self.admits(now),
    {
        match self.optional_deadline {
            Some(deadline) => now.nanos < deadline.nanos,
            None => true,
        }
    }

    pub fn elapsed(self, now: Instant) -> (r: Duration)
        ensures
            r.nanos == now.nanos_since(self.started_at),
    {
        now.saturating_duration_since(self.started_at)
    }
}

/// The frame that is being worked on.
#[derive(Debug, Clone, Copy, PartialEq, Eq, Structural)]
pub struct FrameState {
    pub identity: FrameIdentity,
    pub phase: FramePhase,
    pub reason: FrameRequestReason,
    pub input_events: usize,
    pub pointer_samples: usize,
    pub budget: FrameWorkBudget,
}

/// What is reported of a finished frame.
#[derive(Debug, Clone, Copy, PartialEq, Eq, Structural)]
pub struct FrameDiagnostics {
    pub identity: FrameIdentity,
    pub phase: FramePhase,
    pub reason: FrameRequestReason,
    pub input_events: usize,
    pub pointer_samples: usize,
    pub elapsed: Duration,
}

/// A frame that was asked for and has not begun.
#[derive(Debug, Clone, Copy, PartialEq, Eq, Structural)]
pub struct PendingFrame {
    pub id: LogicalFrameId,
    pub generation: EditGeneration,
    pub reason: FrameRequestReason,
}

impl PendingFrame {
    /// The identity that the frame has when it begins.
    pub open spec fn identity(self) -> FrameIdentity {
        FrameIdentity {
            id: self.id,
            generation_at_start: self.generation,
            generation: self.generation,
        }
    }
}

/// Hands out logical frames one at a time: at most one is pending and at most
/// one is active.
#[derive(Debug, Clone, Copy, PartialEq, Eq, Structural)]
pub struct LogicalFrameCoordinator {
    /// Host time that a frame may spend before optional work must wait.
    pub host_budget: Duration,
    pub next_id: u64,
    pub pending: Option<PendingFrame>,
    pub active: Option<FrameState>,
    pub last_complete: Option<FrameDiagnostics>,
    pub presentation_pending_for: Option<FrameIdentity>,
    pub shutdown: bool,
}

impl LogicalFrameCoordinator {
    /// Frame identities are spent in order: everything known is at most
    /// `next_id`, and a pending frame is newer than the active one, which is
    /// newer than the last completed one.
    pub open spec fn wf(self) -> bool {
        &&& self.pending matches Some(p) ==> {
            &&& 0 < p.id.0 <= self.next_id
            &&& self.active matches Some(a) ==> a.identity.id.0 < p.id.0
            &&& self.last_complete matches Some(c) ==> c.identity.id.0 < p.id.0
        }
        &&& self.active matches Some(a) ==> {
            &&& 0 < a.identity.id.0 <= self.next_id
            &&& self.last_complete matches Some(c) ==> c.identity.id.0 < a.identity.id.0
        }
        &&& self.last_complete matches Some(c) ==> {
            &&& 0 < c.identity.id.0 <= self.next_id
            &&& c.phase == FramePhase::Complete
        }
    }

    /// Whether a frame can still be asked for.
    pub open spec fn can_request(self) -> bool {
        self.pending is Some || self.next_id < u64::MAX
    }

    /// The state after asking for a frame.
    pub open spec fn requested(
        self,
        generation: EditGeneration,
        reason: FrameRequestReason,
    ) -> LogicalFrameCoordinator {
        if self.pending is Some {
            self
        } else {
            let next_id = (self.next_id + 1) as u64;
            LogicalFrameCoordinator {
                next_id,
                pending: Some(PendingFrame { id: LogicalFrameId(next_id), generation, reason }),
                ..self
            }
        }
    }

    /// The state after the pending frame, if there is one, began at `now`.
    pub open spec fn begun(
        self,
        now: Instant,
        input_events: usize,
        pointer_samples: usize,
    ) -> LogicalFrameCoordinator {
        match self.pending {
            None => self,
            Some(p) => LogicalFrameCoordinator {
                pending: None,
                active: Some(
                    FrameState {
                        identity: p.identity(),
                        phase: FramePhase::CollectingInput,
                        reason: p.reason,
                        input_events,
                        pointer_samples,
                        budget: FrameWorkBudget {
                            started_at: now,
                            optional_deadline: now.after(self.host_budget),
                        },
                    },
                ),
                ..self
            },
        }
    }

    /// The state with the active frame, if there is one, in `phase`.
    pub open spec fn moved_to(self, phase: FramePhase) -> LogicalFrameCoordinator {
        LogicalFrameCoordinator {
            active: match self.active {
                Some(a) => Some(FrameState { phase, ..a }),
                None => None,
            },
            ..self
        }
    }

    /// The state with the active frame, if there is one, at `generation`.
    pub open spec fn at_generation(self, generation: EditGeneration) -> LogicalFrameCoordinator {
        LogicalFrameCoordinator {
            active: match self.active {
                Some(a) => Some(
                    FrameState { identity: FrameIdentity { generation, ..a.identity }, ..a },
                ),
                None => None,
            },
            ..self
        }
    }

    /// The state with the next presentation tied to the active frame.
    pub open spec fn presenting(self) -> LogicalFrameCoordinator {
        LogicalFrameCoordinator {
            presentation_pending_for: match self.active {
                Some(a) => Some(a.identity),
                None => self.presentation_pending_for,
            },
            ..self
        }
    }

    /// No frame has been asked for yet.
    pub fn new(host_budget: Duration) -> (r: Self)
        ensures
            r.wf(),
            r == (LogicalFrameCoordinator {
                host_budget,
                next_id: 0,
                pending: None,
                active: None,
                last_complete: None,
                presentation_pending_for: None,
                shutdown: false,
            }),
    {
        LogicalFrameCoordinator {
            host_budget,
            next_id: 0,
            pending: None,
            active: None,
            last_complete: None,
            presentation_pending_for: None,
            shutdown: false,
        }
    }

    /// Asks for a frame. A frame that is already pending absorbs the request.
    pub fn request(&mut self, generation: EditGeneration, reason: FrameRequestReason) -> (r:
        LogicalFrameId)
        requires
            old(self).can_request(),
        ensures
            *final(self) == old(self).requested(generation, reason),
            final(self).pending == Some(
                PendingFrame {
                    id: r,
                    generation: final(self).pending->0.generation,
                    reason: final(self).pending->0.reason,
                },
            ),
            old(self).pending is None ==> r.0 == old(self).next_id + 1,
            old(self).wf() ==> final(self).wf(),
    {
        if let Some(pending) = self.pending {
            return pending.id;
        }
        self.next_id = self.next_id + 1;
        let id = LogicalFrameId(self.next_id);
        self.pending = Some(PendingFrame { id, generation, reason });
        id
    }

    pub fn has_pending(&self) -> (r: bool)
        ensures
            r == (self.pending is Some),
    {
        self.pending.is_some()
    }

    /// Turns the pending frame into the active one.
    pub fn begin(&mut self, now: Instant, input_events: usize, pointer_samples: usize) -> (r:
        Option<FrameIdentity>)
        ensures
            r == match old(self).pending {
                Some(p) => Some(p.identity()),
                None => None,
            },
            *final(self) == old(self).begun(now, input_events, pointer_samples),
            old(self).wf() ==> final(self).wf(),
    {
        match self.pending {
            None => None,
            Some(p) => {
                self.pending = None;
                let identity = FrameIdentity {
                    id: p.id,
                    generation_at_start: p.generation,
                    generation: p.generation,
                };
                self.active = Some(
                    FrameState {
                        identity,
                        phase: FramePhase::CollectingInput,
                        reason: p.reason,
                        input_events,
                        pointer_samples,
                        budget: FrameWorkBudget::bounded(now, self.host_budget),
                    },
                );
                Some(identity)
            },
        }
    }

    /// Moves the active frame on to `phase`. Phases never run backwards.
    pub fn transition(&mut self, phase: FramePhase)
        requires
            old(self).active matches Some(a) ==> a.phase.rank() <= phase.rank(),
        ensures
            *final(self) == old(self).moved_to(phase),
            old(self).wf() ==> final(self).wf(),
    {
        if let Some(active) = self.active {
            self.active = Some(FrameState { phase, ..active });
        }
    }

    /// Records that edits made during the frame moved the generation.
    pub fn update_generation(&mut self, generation: EditGeneration)
        ensures
            *final(self) == old(self).at_generation(generation),
            old(self).wf() ==> final(self).wf(),
    {
        if let Some(active) = self.active {
            self.active = Some(
                FrameState {
                    identity: FrameIdentity { generation, ..active.identity },
                    ..active
                },
            );
        }
    }

    pub fn active_identity(&self) -> (r: Option<FrameIdentity>)
        ensures
            r == match self.active {
                Some(a) => Some(a.identity),
                None => None,
            },
    {
        match self.active {
            Some(active) => Some(active.identity),
            None => None,
        }
    }

    pub fn active_phase(&self) -> (r: Option<FramePhase>)
        ensures
            r == match self.active {
                Some(a) => Some(a.phase),
                None => None,
            },
    {
        match self.active {
            Some(active) => Some(active.phase),
            None => None,
        }
    }

    pub fn pending_identity(&self) -> (r: Option<FrameIdentity>)
        ensures
            r == match self.pending {
                Some(p) => Some(p.identity()),
                None => None,
            },
    {
        match self.pending {
            Some(p) => Some(
                FrameIdentity {
                    id: p.id,
                    generation_at_start: p.generation,
                    generation: p.generation,
                },
            ),
            None => None,
        }
    }

    /// Whether optional work may start: the active frame, if there is one,
    /// has budget left, and no frame is waiting.
    pub open spec fn optional_admitted(self, now: Instant) -> bool {
        &&& self.active matches Some(a) ==> a.budget.admits(now)
        &&& self.pending is None
    }

    pub fn can_start_optional(&self, now: Instant) -> (r: bool)
        ensures
            r == self.optional_admitted(now),
    {
        let within_budget = match self.active {
            Some(active) => active.budget.can_start_optional(now),
            None => true,
        };
        within_budget && !self.has_pending()
    }

    /// Ties the next presentation to the active frame.
    pub fn mark_presentation_requested(&mut self)
        ensures
            *final(self) == old(self).presenting(),
            old(self).wf() ==> final(self).wf(),
    {
        if let Some(active) = self.active {
            self.presentation_pending_for = Some(active.identity);
        }
    }

    pub fn take_presentation_identity(&mut self) -> (r: Option<FrameIdentity>)
        ensures
            r == old(self).presentation_pending_for,
            *final(self) == (LogicalFrameCoordinator {
                presentation_pending_for: None,
                ..*old(self)
            }),
            old(self).wf() ==> final(self).wf(),
    {
        let taken = self.presentation_pending_for;
        self.presentation_pending_for = None;
        taken
    }

    pub fn clear_presentation(&mut self)
        ensures
            *final(self) == (LogicalFrameCoordinator {
                presentation_pending_for: None,
                ..*old(self)
            }),
            old(self).wf() ==> final(self).wf(),
    {
        self.presentation_pending_for = None;
    }

    /// What is reported of `active` when it finishes at `now`.
    pub open spec fn diagnostics_of(active: FrameState, now: Instant) -> FrameDiagnostics {
        FrameDiagnostics {
            identity: active.identity,
            phase: FramePhase::Complete,
            reason: active.reason,
            input_events: active.input_events,
            pointer_samples: active.pointer_samples,
            elapsed: Duration { nanos: now.nanos_since(active.budget.started_at) as u128 },
        }
    }

    /// Finishes the active frame.
    pub fn complete(&mut self, now: Instant) -> (r: Option<FrameDiagnostics>)
        ensures
            match old(self).active {
                None => r is None && *final(self) == *old(self),
                Some(a) => {
                    &&& r == Some(Self::diagnostics_of(a, now))
                    &&& *final(self) == (LogicalFrameCoordinator {
                        active: None,
                        last_complete: r,
                        ..*old(self)
                    })
                },
            },
            old(self).wf() ==> final(self).wf(),
    {
        match self.active {
            None => None,
            Some(active) => {
                self.active = None;
                let diagnostics = FrameDiagnostics {
                    identity: active.identity,
                    phase: FramePhase::Complete,
                    reason: active.reason,
                    input_events: active.input_events,
                    pointer_samples: active.pointer_samples,
                    elapsed: active.budget.elapsed(now),
                };
                self.last_complete = Some(diagnostics);
                Some(diagnostics)
            },
        }
    }

    /// Asks for a frame in which the application shuts down.
    pub fn request_shutdown(&mut self, generation: EditGeneration)
        requires
            old(self).can_request(),
        ensures
            *final(self) == (LogicalFrameCoordinator {
                shutdown: true,
                ..old(self).requested(generation, FrameRequestReason::ScheduledWork)
            }),
            old(self).wf() ==> final(self).wf(),
    {
        self.request(generation, FrameRequestReason::ScheduledWork);
        self.shutdown = true;
    }

    pub fn shutdown_requested(&self) -> (r: bool)
        ensures
            r == self.shutdown,
    {
        self.shutdown
    }

    /// Drops the pending and the active frame without completing them, and
    /// the presentation that either of them may have asked for.
    pub fn abort(&mut self)
        ensures
            *final(self) == (LogicalFrameCoordinator {
                pending: None,
                active: None,
                presentation_pending_for: None,
                ..*old(self)
            }),
            old(self).wf() ==> final(self).wf(),
    {
        self.pending = None;
        self.active = None;
        self.presentation_pending_for = None;
    }
}

/// A frame that is asked for once the current one has begun is a follow-up:
/// it is newer than the frame in progress and than every completed one.
pub proof fn follow_up_frames_are_newer(
    frames: LogicalFrameCoordinator,
    generation: EditGeneration,
    reason: FrameRequestReason,
)
    requires
        frames.wf(),
        frames.can_request(),
    ensures
        frames.requested(generation, reason).wf(),
        frames.requested(generation, reason).pending matches Some(p) && {
            &&& frames.active matches Some(a) ==> a.identity.id.0 < p.id.0
            &&& frames.last_complete matches Some(c) ==> c.identity.id.0 < p.id.0
        },
{
}

/// Asking again while a frame is pending changes nothing, whatever the reason
/// and the generation.
pub proof fn pending_frame_absorbs_requests(
    frames: LogicalFrameCoordinator,
    first: EditGeneration,
    first_reason: FrameRequestReason,
    second: EditGeneration,
    second_reason: FrameRequestReason,
)
    ensures
        frames.requested(first, first_reason).requested(second, second_reason) == frames.requested(
            first,
            first_reason,
        ),
{
}

/// A pending frame denies optional work at every instant.
pub proof fn pending_frame_denies_optional_work(
    frames: LogicalFrameCoordinator,
    generation: EditGeneration,
    reason: FrameRequestReason,
    now: Instant,
)
    ensures
        !frames.requested(generation, reason).optional_admitted(now),
{
}

/// A bounded budget is a start gate: once closed it stays closed.
pub proof fn bounded_budget_closes_for_good(
    budget: FrameWorkBudget,
    earlier: Instant,
    later: Instant,
)
    requires
        earlier.nanos <= later.nanos,
        !budget.admits(earlier),
    ensures
        !budget.admits(later),
{
}

/// A frame that was asked for while none waits gets the next identity and keeps the
/// generation and the reason; nothing else changes.
pub proof fn requests_get_the_next_identity(
    frames: LogicalFrameCoordinator,
    generation: EditGeneration,
    reason: FrameRequestReason,
)
    requires
        frames.next_id < u64::MAX,
    ensures
        ({
            let after = frames.requested(generation, reason);
            &&& after.pending is Some
            &&& frames.pending is Some ==> after == frames
            &&& frames.pending is None ==> (after.pending matches Some(waiting) && waiting.id.0
                == frames.next_id + 1 && waiting.generation == generation && waiting.reason
                == reason) && after.next_id == frames.next_id + 1
            &&& after.active == frames.active
            &&& after.shutdown == frames.shutdown
            &&& after.presentation_pending_for == frames.presentation_pending_for
            &&& after.last_complete == frames.last_complete
        }),
{
}

/// The waiting frame becomes the one that is worked on, under the identity, the
/// generation and the reason that it waited with, and with the whole host budget
/// ahead of it. Without a waiting frame nothing begins.
pub proof fn waiting_frames_begin_as_they_were_asked(
    frames: &mut LogicalFrameCoordinator,
    now: Instant,
    events: usize,
    samples: usize,
    begun: Option<FrameIdentity>,
)
    requires
        call_ensures(LogicalFrameCoordinator::begin, (frames, now, events, samples), begun),
    ensures
        old(frames).pending is None ==> begun is None && *final(frames) == *old(frames),
        old(frames).pending matches Some(waiting) ==> {
            &&& begun matches Some(identity) && identity.id == waiting.id
                && identity.generation_at_start == waiting.generation && identity.generation
                == waiting.generation
            &&& final(frames).pending is None
            &&& final(frames).active matches Some(active) && Some(active.identity) == begun
                && active.phase is CollectingInput && active.reason == waiting.reason
                && active.input_events == events && active.pointer_samples == samples
                && active.budget.started_at == now && (now.nanos + old(frames).host_budget.nanos
                <= u128::MAX ==> (active.budget.optional_deadline matches Some(deadline)
                && deadline.nanos == now.nanos + old(frames).host_budget.nanos))
            &&& final(frames).next_id == old(frames).next_id
            &&& final(frames).last_complete == old(frames).last_complete
        },
{
}

/// A phase is entered by the frame that is worked on and by nothing else.
pub proof fn phases_move_the_active_frame(frames: LogicalFrameCoordinator, phase: FramePhase)
    ensures
        frames.active is None ==> frames.moved_to(phase) == frames,
        frames.active matches Some(active) ==> (frames.moved_to(phase).active matches Some(moved)
            && moved.phase == phase && moved.identity == active.identity && moved.budget
            == active.budget && moved.reason == active.reason),
        frames.moved_to(phase).pending == frames.pending,
        frames.moved_to(phase).presentation_pending_for == frames.presentation_pending_for,
{
}

/// Edits during a frame move its generation and leave the one it started with.
pub proof fn frames_keep_their_first_generation(
    frames: LogicalFrameCoordinator,
    generation: EditGeneration,
)
    ensures
        frames.active matches Some(active) ==> (
        frames.at_generation(generation).active matches Some(moved) && moved.identity.generation
            == generation && moved.identity.generation_at_start
            == active.identity.generation_at_start && moved.identity.id == active.identity.id
            && moved.phase == active.phase),
        frames.active is None ==> frames.at_generation(generation) == frames,
        frames.at_generation(generation).pending == frames.pending,
{
}

/// A presentation belongs to the frame that is worked on, and where there is none
/// the one that was asked for before still does.
pub proof fn presentations_belong_to_the_active_frame(frames: LogicalFrameCoordinator)
    ensures
        frames.active matches Some(active) ==> frames.presenting().presentation_pending_for == Some(
            active.identity,
        ),
        frames.active is None ==> frames.presenting() == frames,
        frames.presenting().active == frames.active,
        frames.presenting().pending == frames.pending,
{
}

/// Optional work starts before the deadline of a frame's budget and not from it on,
/// and where no frame is worked on or waits it may always start.
pub proof fn optional_work_keeps_to_the_budget(frames: LogicalFrameCoordinator, now: Instant)
    ensures
        frames.pending is Some ==> !frames.optional_admitted(now),
        frames.pending is None && frames.active is None ==> frames.optional_admitted(now),
        frames.pending is None ==> (frames.active matches Some(active) ==> {
            &&& active.budget.optional_deadline is None ==> frames.optional_admitted(now)
            &&& active.budget.optional_deadline matches Some(deadline) ==> {
                &&& now.nanos < deadline.nanos ==> frames.optional_admitted(now)
                &&& deadline.nanos <= now.nanos ==> !frames.optional_admitted(now)
            }
        }),
{
}

/// A finished frame is reported once, complete and with the time since it began.
pub proof fn finished_frames_are_reported_once(
    frames: &mut LogicalFrameCoordinator,
    now: Instant,
    report: Option<FrameDiagnostics>,
)
    requires
        call_ensures(LogicalFrameCoordinator::complete, (frames, now), report),
    ensures
        old(frames).active is None ==> report is None && *final(frames) == *old(frames),
        old(frames).active matches Some(active) ==> {
            &&& report matches Some(done) && done.identity == active.identity && done.phase
                is Complete && done.reason == active.reason && done.input_events
                == active.input_events && done.pointer_samples == active.pointer_samples && (
            active.budget.started_at.nanos <= now.nanos ==> done.elapsed.nanos == now.nanos
                - active.budget.started_at.nanos)
            &&& final(frames).active is None
            &&& final(frames).last_complete == report
            &&& final(frames).pending == old(frames).pending
        },
{
}

/// The stages of a frame are in the order in which it passes them.
pub proof fn phases_are_in_order()
    ensures
        FramePhase::CollectingInput.rank() < FramePhase::SealingInput.rank()
            < FramePhase::ApplicationUpdate.rank() < FramePhase::RequiredInteractiveWork.rank()
            < FramePhase::PresentationRequest.rank() < FramePhase::OptionalRefinement.rank()
            < FramePhase::Complete.rank(),
{
}

/// A presentation is taken once.
pub proof fn presentations_are_taken_once(
    frames: &mut LogicalFrameCoordinator,
    taken: Option<FrameIdentity>,
)
    requires
        call_ensures(LogicalFrameCoordinator::take_presentation_identity, (frames,), taken),
    ensures
        taken == old(frames).presentation_pending_for,
        final(frames).presentation_pending_for is None,
        final(frames).active == old(frames).active,
{
}

/// A shutdown is asked for with a frame to do it in.
pub proof fn shutdowns_get_a_frame(frames: &mut LogicalFrameCoordinator, generation: EditGeneration)
    requires
        old(frames).can_request(),
        call_ensures(LogicalFrameCoordinator::request_shutdown, (frames, generation), ()),
    ensures
        final(frames).shutdown,
        final(frames).pending is Some,
        final(frames).active == old(frames).active,
{
}

/// An abort leaves nothing of either frame.
pub proof fn aborts_leave_no_frame(frames: &mut LogicalFrameCoordinator)
    requires
        call_ensures(LogicalFrameCoordinator::abort, (frames,), ()),
    ensures
        final(frames).pending is None,
        final(frames).active is None,
        final(frames).presentation_pending_for is None,
        final(frames).next_id == old(frames).next_id,
        final(frames).shutdown == old(frames).shutdown,
{
}

} // verus!
