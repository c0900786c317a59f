//! The deadlines of deferred work, and how the event loop waits for them.
use vstd::prelude::*;

use crate::clock::Instant;
use crate::eval::FrameDeadlineKind;
use crate::logical_frame::EditGeneration;
use crate::turn::WakeRequest;

verus! {

/// When work of a generation is due.
#[derive(Debug, Clone, Copy, PartialEq, Eq, Structural)]
pub struct Deadline {
    pub generation: EditGeneration,
    pub at: Instant,
}

/// At most one deadline of each kind.
#[derive(Debug, Clone, Copy, PartialEq, Eq, Structural)]
pub struct Deadlines {
    pub interactive: Option<Deadline>,
    pub optional: Option<Deadline>,
    pub full_field: Option<Deadline>,
    pub deferred: Option<Deadline>,
}

/// How the event loop waits.
#[derive(Debug, Clone, Copy, PartialEq, Eq, Structural)]
pub enum FrameWake {
    Poll,
    WaitUntil(Instant),
    /// Only an event wakes the loop.
    Wait,
}

impl Deadlines {
    /// The deadline of a kind.
    pub open spec fn of(self, kind: FrameDeadlineKind) -> Option<Deadline> {
        match kind {
            FrameDeadlineKind::InteractiveEvaluation => self.interactive,
            FrameDeadlineKind::OptionalRefinement => self.optional,
            FrameDeadlineKind::FullFieldRefinement => self.full_field,
            FrameDeadlineKind::DeferredFullField => self.deferred,
        }
    }

    /// The deadlines with another one of a kind.
    pub open spec fn with(self, kind: FrameDeadlineKind, deadline: Option<Deadline>) -> Deadlines {
        match kind {
            FrameDeadlineKind::InteractiveEvaluation => Deadlines { interactive: deadline, ..self },
            FrameDeadlineKind::OptionalRefinement => Deadlines { optional: deadline, ..self },
            FrameDeadlineKind::FullFieldRefinement => Deadlines { full_field: deadline, ..self },
            FrameDeadlineKind::DeferredFullField => Deadlines { deferred: deadline, ..self },
        }
    }

    /// A deadline, unless it is of another generation.
    pub open spec fn fresh(deadline: Option<Deadline>, generation: EditGeneration) -> Option<
        Deadline,
    > {
        match deadline {
            Some(d) if d.generation == generation => deadline,
            _ => None,
        }
    }

    /// Nothing of this kind and generation is left to wait for.
    pub open spec fn is_ready(
        self,
        kind: FrameDeadlineKind,
        generation: EditGeneration,
        now: Instant,
    ) -> bool {
        match Self::fresh(self.of(kind), generation) {
            Some(d) => d.at.nanos <= now.nanos,
            None => true,
        }
    }

    /// A deadline of the generation lies ahead at `at`.
    pub open spec fn ahead(self, generation: EditGeneration, now: Instant, at: Instant) -> bool {
        exists|kind: FrameDeadlineKind|
            Self::fresh(#[trigger] self.of(kind), generation) matches Some(d) && d.at == at
                && now.nanos < at.nanos
    }

    /// The loop has a reason to wake at `at`: a deadline, or the end of the pause
    /// that was asked for.
    pub open spec fn wakes_at(
        self,
        generation: EditGeneration,
        now: Instant,
        request: WakeRequest,
        at: Instant,
    ) -> bool {
        self.ahead(generation, now, at) || (request.fallback matches Some(pause) && now.after(pause)
            == Some(at))
    }

    pub fn none() -> (r: Self)
        ensures
            forall|kind: FrameDeadlineKind| #[trigger] r.of(kind) is None,
    {
        Deadlines { interactive: None, optional: None, full_field: None, deferred: None }
    }

    fn put(&mut self, kind: FrameDeadlineKind, deadline: Option<Deadline>)
        ensures
            *final(self) == old(self).with(kind, deadline),
    {
        match kind {
            FrameDeadlineKind::InteractiveEvaluation => {
                self.interactive = deadline;
            },
            FrameDeadlineKind::OptionalRefinement => {
                self.optional = deadline;
            },
            FrameDeadlineKind::FullFieldRefinement => {
                self.full_field = deadline;
            },
            FrameDeadlineKind::DeferredFullField => {
                self.deferred = deadline;
            },
        }
    }

    /// Sets the deadline of a kind; an earlier one of the kind is forgotten.
    pub fn schedule_deadline(
        &mut self,
        kind: FrameDeadlineKind,
        generation: EditGeneration,
        at: Instant,
    )
        ensures
            *final(self) == old(self).with(kind, Some(Deadline { generation, at })),
    {
        self.put(kind, Some(Deadline { generation, at }));
    }

    pub fn clear_deadline(&mut self, kind: FrameDeadlineKind)
        ensures
            *final(self) == old(self).with(kind, None),
    {
        self.put(kind, None);
    }

    fn keep_fresh(deadline: Option<Deadline>, generation: EditGeneration) -> (r: Option<Deadline>)
        ensures
            r == Self::fresh(deadline, generation),
    {
        match deadline {
            Some(d) => if d.generation == generation {
                Some(d)
            } else {
                None
            },
            None => None,
        }
    }

    /// Drops the deadlines of other generations.
    pub fn discard_stale_deadlines(&mut self, generation: EditGeneration)
        ensures
            forall|kind: FrameDeadlineKind| #[trigger]
                final(self).of(kind) == Self::fresh(old(self).of(kind), generation),
    {
        self.interactive = Self::keep_fresh(self.interactive, generation);
        self.optional = Self::keep_fresh(self.optional, generation);
        self.full_field = Self::keep_fresh(self.full_field, generation);
        self.deferred = Self::keep_fresh(self.deferred, generation);
    }

    pub fn deadline_ready(
        &self,
        kind: FrameDeadlineKind,
        generation: EditGeneration,
        now: Instant,
    ) -> (r: bool)
        ensures
            r == self.is_ready(kind, generation, now),
    {
        let deadline = match kind {
            FrameDeadlineKind::InteractiveEvaluation => self.interactive,
            FrameDeadlineKind::OptionalRefinement => self.optional,
            FrameDeadlineKind::FullFieldRefinement => self.full_field,
            FrameDeadlineKind::DeferredFullField => self.deferred,
        };
        match Self::keep_fresh(deadline, generation) {
            Some(d) => d.at.nanos <= now.nanos,
            None => true,
        }
    }

    /// The earlier of an instant and a deadline that lies ahead.
    spec fn earlier(
        soonest: Option<Instant>,
        deadline: Option<Deadline>,
        generation: EditGeneration,
        now: Instant,
    ) -> Option<Instant> {
        match Self::fresh(deadline, generation) {
            Some(d) if now.nanos < d.at.nanos => match soonest {
                Some(at) if at.nanos <= d.at.nanos => soonest,
                _ => Some(d.at),
            },
            _ => soonest,
        }
    }

    fn pick_earlier(
        soonest: Option<Instant>,
        deadline: Option<Deadline>,
        generation: EditGeneration,
        now: Instant,
    ) -> (r: Option<Instant>)
        ensures
            r == Self::earlier(soonest, deadline, generation, now),
    {
        match Self::keep_fresh(deadline, generation) {
            Some(d) => if now.nanos < d.at.nanos {
                match soonest {
                    Some(at) => if at.nanos <= d.at.nanos {
                        soonest
                    } else {
                        Some(d.at)
                    },
                    None => Some(d.at),
                }
            } else {
                soonest
            },
            None => soonest,
        }
    }

    /// How the loop waits: not at all where it runs continuously, otherwise until
    /// the first reason to wake.
    pub fn wake_decision(&self, generation: EditGeneration, now: Instant, request: WakeRequest) -> (r:
        FrameWake)
        ensures
            r is Poll <==> request.continuous,
            r matches FrameWake::WaitUntil(at) ==> {
                &&& self.wakes_at(generation, now, request, at)
                &&& forall|other: Instant|
                    #[trigger] self.wakes_at(generation, now, request, other) ==> at.nanos
                        <= other.nanos
            },
            r is Wait ==> forall|at: Instant|
                !(#[trigger] self.wakes_at(generation, now, request, at)),
    {
        if request.continuous {
            return FrameWake::Poll;
        }
        let fallback = match request.fallback {
            Some(pause) => now.checked_add(pause),
            None => None,
        };
        let a = Self::pick_earlier(fallback, self.interactive, generation, now);
        let b = Self::pick_earlier(a, self.optional, generation, now);
        let c = Self::pick_earlier(b, self.full_field, generation, now);
        let next = Self::pick_earlier(c, self.deferred, generation, now);
        proof {
            assert(self.of(FrameDeadlineKind::InteractiveEvaluation) == self.interactive);
            assert(self.of(FrameDeadlineKind::OptionalRefinement) == self.optional);
            assert(self.of(FrameDeadlineKind::FullFieldRefinement) == self.full_field);
            assert(self.of(FrameDeadlineKind::DeferredFullField) == self.deferred);
        }
        match next {
            Some(at) => FrameWake::WaitUntil(at),
            None => FrameWake::Wait,
        }
    }
}

/// A kind has one deadline: what was scheduled last is what is waited for, and
/// the others are left alone.
pub proof fn the_last_deadline_of_a_kind_counts(
    before: Deadlines,
    kind: FrameDeadlineKind,
    other: FrameDeadlineKind,
    deadline: Deadline,
    now: Instant,
)
    requires
        other != kind,
    ensures
        before.with(kind, Some(deadline)).is_ready(kind, deadline.generation, now)
            == (deadline.at.nanos <= now.nanos),
        before.with(kind, Some(deadline)).of(other) == before.of(other),
{
}

/// An edit outdates what earlier edits waited for: deadlines of another
/// generation neither hold work back nor wake the loop.
pub proof fn stale_deadlines_never_wake(
    deadlines: Deadlines,
    kind: FrameDeadlineKind,
    generation: EditGeneration,
    now: Instant,
)
    requires
        forall|k: FrameDeadlineKind|
            (#[trigger] deadlines.of(k)) matches Some(d) ==> d.generation != generation,
    ensures
        deadlines.is_ready(kind, generation, now),
        forall|at: Instant| !(#[trigger] deadlines.ahead(generation, now, at)),
{
    assert(deadlines.of(kind) matches Some(d) ==> d.generation != generation);
}

/// Work is ready once its deadline has passed or where it has none of its generation:
/// a deadline that lies ahead holds it back until then, and no longer.
pub proof fn deadlines_hold_work_back_until_due(
    deadlines: Deadlines,
    kind: FrameDeadlineKind,
    generation: EditGeneration,
    now: Instant,
    ready: bool,
)
    requires
        call_ensures(Deadlines::deadline_ready, (&deadlines, kind, generation, now), ready),
    ensures
        deadlines.of(kind) is None ==> ready,
        deadlines.of(kind) matches Some(deadline) ==> {
            &&& deadline.generation != generation ==> ready
            &&& deadline.generation == generation && now.nanos < deadline.at.nanos ==> !ready
            &&& deadline.generation == generation && deadline.at.nanos <= now.nanos ==> ready
        },
{
}

/// A kind keeps its own deadline: the interactive evaluation, the optional
/// refinement, the full field and the deferred one each have theirs.
pub proof fn every_kind_has_its_own_deadline(
    deadlines: &mut Deadlines,
    kind: FrameDeadlineKind,
    generation: EditGeneration,
    at: Instant,
)
    requires
        call_ensures(Deadlines::schedule_deadline, (deadlines, kind, generation, at), ()),
    ensures
        final(deadlines).of(kind) == Some(Deadline { generation, at }),
        kind is InteractiveEvaluation ==> final(deadlines).interactive == Some(
            Deadline { generation, at },
        ),
        kind is OptionalRefinement ==> final(deadlines).optional == Some(
            Deadline { generation, at },
        ),
        kind is FullFieldRefinement ==> final(deadlines).full_field == Some(
            Deadline { generation, at },
        ),
        kind is DeferredFullField ==> final(deadlines).deferred == Some(
            Deadline { generation, at },
        ),
        forall|other: FrameDeadlineKind|
            other != kind ==> #[trigger] final(deadlines).of(other) == old(deadlines).of(other),
{
}

/// A cleared kind has no deadline, and the others keep theirs.
pub proof fn clearing_leaves_the_others(deadlines: &mut Deadlines, kind: FrameDeadlineKind)
    requires
        call_ensures(Deadlines::clear_deadline, (deadlines, kind), ()),
    ensures
        final(deadlines).of(kind) is None,
        forall|other: FrameDeadlineKind|
            other != kind ==> #[trigger] final(deadlines).of(other) == old(deadlines).of(other),
{
}

/// A deadline counts for its own generation and for no other.
pub proof fn deadlines_count_for_their_generation(deadline: Deadline, generation: EditGeneration)
    ensures
        deadline.generation == generation ==> Deadlines::fresh(Some(deadline), generation) == Some(
            deadline,
        ),
        deadline.generation != generation ==> Deadlines::fresh(Some(deadline), generation) is None,
        Deadlines::fresh(None, generation) is None,
{
}

/// The loop has a reason to wake for every deadline of the generation that lies
/// ahead and for the end of the pause that was asked for, and for nothing else.
pub proof fn the_loop_wakes_for_every_deadline(
    deadlines: Deadlines,
    generation: EditGeneration,
    now: Instant,
    request: WakeRequest,
    kind: FrameDeadlineKind,
    at: Instant,
)
    ensures
        deadlines.of(kind) matches Some(deadline) ==> (deadline.generation == generation
            && now.nanos < deadline.at.nanos ==> deadlines.wakes_at(
            generation,
            now,
            request,
            deadline.at,
        )),
        request.fallback matches Some(pause) ==> (now.nanos + pause.nanos == at.nanos
            ==> deadlines.wakes_at(generation, now, request, at)),
        deadlines.wakes_at(generation, now, request, at) ==> now.nanos <= at.nanos,
        deadlines.wakes_at(generation, now, request, at) && request.fallback is None
            ==> exists|k: FrameDeadlineKind|
            (#[trigger] deadlines.of(k)) matches Some(d) && d.at == at && d.generation
                == generation && now.nanos < at.nanos,
{
    if let Some(deadline) = deadlines.of(kind) {
        if deadline.generation == generation && now.nanos < deadline.at.nanos {
            assert(Deadlines::fresh(deadlines.of(kind), generation) == Some(deadline));
            assert(deadlines.ahead(generation, now, deadline.at));
        }
    }
}

} // verus!
