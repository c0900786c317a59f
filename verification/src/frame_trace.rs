//! Bounded logical-frame tracing for the Base-brush/refinement workload.
//!
//! Recording is deliberately allocation-light and never performs I/O. The
//! benchmark/reporting path may snapshot and serialize records after a run.
use vstd::prelude::*;
use std::collections::VecDeque;

use crate::clock::{Duration, Instant};
use crate::logical_frame::{EditGeneration, FrameIdentity, FramePhase, LogicalFrameId};
use crate::quality::{GpuEvalStats, GpuEvaluationIntent, PreviewQuality};

verus! {

pub const EVENT_CAPACITY: usize = 2_048;

pub const SAMPLE_CAPACITY: usize = 256;

/// Identity of one evaluation in the trace.
#[derive(Debug, Clone, Copy, PartialEq, Eq, Hash, Structural)]
pub struct EvaluationTraceId(pub u64);

impl EvaluationTraceId {
    pub fn new(value: u64) -> (r: Self)
        ensures
            r == EvaluationTraceId(value),
    {
        EvaluationTraceId(value)
    }

    pub fn get(self) -> (r: u64)
        ensures
            r == self.0,
    {
        self.0
    }
}

#[derive(Debug, Clone, Copy, PartialEq, Eq, Structural)]
pub enum FrameTraceEventKind {
    OsInputReceipt,
    SnapshotSealed,
    ToolUpdateComplete,
    StrokeRelease,
    FollowUpPressReceipt,
    FollowUpPressSealed,
    EvaluationRequested,
    EvaluationStarted,
    EvaluationOutputSelected,
    PlanAcquired,
    QueueSubmitted,
    CandidateAccepted,
    CandidateRejectedStale,
    PresentationRequested,
    SurfacePresented,
    GpuEvaluationResolved,
    GpuPresentationResolved,
    RefinementJobCreated,
    RefinementUnitProgress,
    RefinementSubmissionQueued,
    RefinementSubmissionCompleted,
    RefinementSuperseded,
    RefinementCandidateCompleted,
    RefinementPublished,
    RefinementFailed,
    HeartbeatOverBudget,
    UiEffectsQueued,
    UiEffectsApplied,
    ResizeCaptured,
    ResizeApplied,
    SurfaceRecoveryRequested,
    DeviceLost,
    ShutdownRequested,
    FrameAborted,
}

#[derive(Debug, Clone, Copy, PartialEq, Eq, Structural)]
pub struct FrameTraceEvent {
    pub at: Instant,
    pub kind: FrameTraceEventKind,
    pub frame: LogicalFrameId,
    pub generation: EditGeneration,
    pub evaluation: Option<EvaluationTraceId>,
    pub phase: Option<FramePhase>,
    pub quality: Option<PreviewQuality>,
    pub intent: Option<GpuEvaluationIntent>,
    pub duration: Option<Duration>,
    pub gpu_stats: Option<GpuEvalStats>,
    pub refinement_job: Option<u64>,
    pub completed_units: usize,
    pub total_units: usize,
    pub refinement_submission_depth: u8,
}

impl FrameTraceEvent {
    /// An event of frame `identity` without counters or progress.
    pub open spec fn plain(
        at: Instant,
        kind: FrameTraceEventKind,
        identity: FrameIdentity,
        phase: Option<FramePhase>,
        evaluation: Option<EvaluationTraceId>,
        quality: Option<PreviewQuality>,
        intent: Option<GpuEvaluationIntent>,
        duration: Option<Duration>,
    ) -> FrameTraceEvent {
        FrameTraceEvent {
            at,
            kind,
            frame: identity.id,
            generation: identity.generation,
            evaluation,
            phase,
            quality,
            intent,
            duration,
            gpu_stats: None,
            refinement_job: None,
            completed_units: 0,
            total_units: 0,
            refinement_submission_depth: 0,
        }
    }
}

#[derive(Debug, Clone, Copy, PartialEq, Eq, Structural)]
pub struct LatencySummary {
    pub count: usize,
    pub p50_us: u64,
    pub p95_us: u64,
    pub max_us: u64,
}

impl Default for LatencySummary {
    fn default() -> (r: Self)
        ensures
            r == (LatencySummary { count: 0, p50_us: 0, p95_us: 0, max_us: 0 }),
    {
        LatencySummary { count: 0, p50_us: 0, p95_us: 0, max_us: 0 }
    }
}

/// `queue` after `value` is appended under a bound: when the queue is at
/// capacity its oldest element makes room.
pub open spec fn appended_within<T>(queue: Seq<T>, capacity: int, value: T) -> Seq<T> {
    if queue.len() == capacity {
        queue.drop_first().push(value)
    } else {
        queue.push(value)
    }
}

/// Appends `value`, dropping the oldest element of a full queue.
pub fn push_bounded<T>(queue: &mut VecDeque<T>, capacity: usize, value: T)
    requires
        0 < capacity,
    ensures
        final(queue)@ == appended_within(old(queue)@, capacity as int, value),
        old(queue)@.len() <= capacity ==> final(queue)@.len() <= capacity,
{
    if queue.len() == capacity {
        queue.pop_front();
        assert(queue@ =~= old(queue)@.drop_first());
    }
    queue.push_back(value);
}

/// Whole microseconds of a span, at most `u64::MAX`.
pub open spec fn micros_of(nanos: int) -> int {
    if nanos / 1_000 <= u64::MAX {
        nanos / 1_000
    } else {
        u64::MAX as int
    }
}

pub fn micros(duration: Duration) -> (r: u64)
    ensures
        r == micros_of(duration.nanos as int),
{
    let whole: u128 = duration.as_micros();
    if whole <= u64::MAX as u128 {
        whole as u64
    } else {
        u64::MAX
    }
}

/// `sorted` holds the samples in ascending order.
pub open spec fn is_sorting_of(sorted: Seq<u64>, samples: Seq<u64>) -> bool {
    &&& sorted.to_multiset() == samples.to_multiset()
    &&& forall|i: int, j: int|
        #![trigger sorted[i], sorted[j]]
        0 <= i <= j < sorted.len() ==> sorted[i] <= sorted[j]
}

/// Two ascending arrangements of the same samples are the same.
proof fn sorting_is_unique(a: Seq<u64>, b: Seq<u64>, samples: Seq<u64>)
    requires
        is_sorting_of(a, samples),
        is_sorting_of(b, samples),
    ensures
        a == b,
{
    let leq = |x: u64, y: u64| x <= y;
    vstd::seq_lib::lemma_sorted_unique(a, b, leq);
}

fn sorted_samples(samples: &VecDeque<u64>) -> (sorted: Vec<u64>)
    ensures
        is_sorting_of(sorted@, samples@),
        sorted@.len() == samples@.len(),
{
    broadcast use vstd::seq_lib::group_to_multiset_ensures;
    let mut sorted: Vec<u64> = Vec::new();
    let mut i: usize = 0;
    assert(samples@.take(0) =~= Seq::<u64>::empty());
    while i < samples.len()
        invariant
            i <= samples@.len(),
            sorted@.len() == i,
            is_sorting_of(sorted@, samples@.take(i as int)),
        decreases samples@.len() - i,
    {
        broadcast use vstd::seq_lib::group_to_multiset_ensures;
        let value: u64 = samples[i];
        let mut at: usize = sorted.len();
        while at > 0 && sorted[at - 1] > value
            invariant
                at <= sorted@.len(),
                forall|k: int| #![trigger sorted@[k]] at <= k < sorted@.len() ==> value < sorted@[k],
            decreases at,
        {
            at = at - 1;
        }
        let ghost before = sorted@;
        sorted.insert(at, value);
        proof {
            assert(samples@.take(i + 1) =~= samples@.take(i as int).push(value));
            assert(sorted@.to_multiset() =~= before.to_multiset().insert(value));
            before.insert_ensures(at as int, value);
            assert forall|p: int, q: int| #![trigger sorted@[p], sorted@[q]]
                0 <= p <= q < sorted@.len() implies sorted@[p] <= sorted@[q] by {
                let pp = if p <= at { p } else { p - 1 };
                let qq = if q <= at { q } else { q - 1 };
                assert(p > at ==> sorted@[p] == before[p - 1]);
                assert(q > at ==> sorted@[q] == before[q - 1]);
                if p < at {
                    assert(sorted@[p] == before[p]);
                    assert(before[p] <= before[at - 1]);
                }
                if q < at {
                    assert(sorted@[q] == before[q]);
                }
            }
        }
        i += 1;
    }
    assert(samples@.take(i as int) =~= samples@);
    sorted
}

/// Index of the nearest-rank percentile among `len` ascending samples.
pub open spec fn nearest_rank_index(numerator: int, len: int) -> int {
    let rank = (numerator * len + 99) / 100;
    if rank < 1 {
        0
    } else if rank > len {
        len - 1
    } else {
        rank - 1
    }
}

fn percentile(sorted: &Vec<u64>, numerator: usize) -> (r: u64)
    requires
        0 < sorted@.len(),
        numerator <= 100,
        numerator * sorted@.len() <= usize::MAX,
    ensures
        r == sorted@[nearest_rank_index(numerator as int, sorted@.len() as int)],
{
    let len: usize = sorted.len();
    let scaled: usize = numerator * len;
    let rank: usize = if scaled % 100 == 0 {
        scaled / 100
    } else {
        scaled / 100 + 1
    };
    proof {
        assert(scaled <= 100 * len) by (nonlinear_arith)
            requires
                scaled == numerator * len,
                numerator <= 100,
        ;
    }
    if rank < 1 {
        sorted[0]
    } else {
        sorted[rank - 1]
    }
}

/// What a summary of `samples` says, given their ascending arrangement.
pub open spec fn summary_of(sorted: Seq<u64>) -> LatencySummary {
    LatencySummary {
        count: sorted.len() as usize,
        p50_us: sorted[nearest_rank_index(50, sorted.len() as int)],
        p95_us: sorted[nearest_rank_index(95, sorted.len() as int)],
        max_us: sorted.last(),
    }
}

/// Median, nearest-rank 95th percentile and maximum of the samples.
pub fn summarize(samples: &VecDeque<u64>) -> (r: LatencySummary)
    requires
        95 * samples@.len() <= usize::MAX,
    ensures
        samples@.len() == 0 ==> r == (LatencySummary {
            count: 0,
            p50_us: 0,
            p95_us: 0,
            max_us: 0,
        }),
        r.count == samples@.len(),
        exists|sorted: Seq<u64>| is_sorting_of(sorted, samples@),
        samples@.len() > 0 ==> forall|sorted: Seq<u64>|
            #![trigger is_sorting_of(sorted, samples@)]
            is_sorting_of(sorted, samples@) ==> r == summary_of(sorted),
{
    let sorted = sorted_samples(samples);
    if samples.len() == 0 {
        return LatencySummary::default();
    }
    let r = LatencySummary {
        count: sorted.len(),
        p50_us: percentile(&sorted, 50),
        p95_us: percentile(&sorted, 95),
        max_us: sorted[sorted.len() - 1],
    };
    proof {
        assert forall|other: Seq<u64>| #![trigger is_sorting_of(other, samples@)]
            is_sorting_of(other, samples@) implies r == summary_of(other) by {
            sorting_is_unique(other, sorted@, samples@);
        }
    }
    r
}

/// A receipt or release that waits for its generation to become visible.
#[derive(Debug, Clone, Copy, PartialEq, Eq, Structural)]
pub struct PendingSample {
    pub at: Instant,
    pub generation: EditGeneration,
}

#[derive(Debug)]
pub struct FrameTraceRecorder {
    pub next_evaluation: u64,
    pub events: VecDeque<FrameTraceEvent>,
    pub input_to_visible_us: VecDeque<u64>,
    pub refinement_us: VecDeque<u64>,
    pub release_to_follow_up_press_us: VecDeque<u64>,
    pub pending_input_receipt: Option<PendingSample>,
    pub pending_release: Option<PendingSample>,
    pub verbose: bool,
    pub orphaned_events: u64,
}

/// Whether the trace setting asks for verbose recording.
pub open spec fn verbose_setting(setting: Option<Seq<char>>) -> bool {
    setting matches Some(value) && crate::text::equal_ignoring_ascii_case(value, "verbose"@)
}

/// Whether the value of the trace setting, where it is set, reads "verbose" in
/// any case.
pub fn verbose_requested(setting: Option<&str>) -> (r: bool)
    ensures
        r == verbose_setting(
            match setting {
                Some(value) => Some(value@),
                None => None,
            },
        ),
{
    match setting {
        Some(value) => crate::text::eq_ignore_ascii_case(value, "verbose"),
        None => false,
    }
}

/// The events of a trace and the records that found no frame.
#[verifier::ext_equal]
pub struct TraceLog {
    pub events: Seq<FrameTraceEvent>,
    pub orphaned: int,
    pub verbose: bool,
}

impl TraceLog {
    /// The log after a record: a frame and verbose recording append `event`, a
    /// missing frame counts as an orphan.
    pub open spec fn with(self, identity: Option<FrameIdentity>, event: FrameTraceEvent) -> TraceLog {
        match identity {
            None => TraceLog {
                orphaned: if self.orphaned < u64::MAX {
                    self.orphaned + 1
                } else {
                    self.orphaned
                },
                ..self
            },
            Some(_) => if self.verbose {
                TraceLog {
                    events: appended_within(self.events, EVENT_CAPACITY as int, event),
                    ..self
                }
            } else {
                self
            },
        }
    }

    /// The log after `kind` was recorded for a frame in `phase`.
    pub open spec fn noted(
        self,
        at: Instant,
        kind: FrameTraceEventKind,
        identity: Option<FrameIdentity>,
        phase: Option<FramePhase>,
    ) -> TraceLog {
        self.with(
            identity,
            FrameTraceEvent::plain(at, kind, identity->0, phase, None, None, None, None),
        )
    }
}

impl FrameTraceRecorder {
    pub open spec fn log(self) -> TraceLog {
        TraceLog {
            events: self.events@,
            orphaned: self.orphaned_events as int,
            verbose: self.verbose,
        }
    }

    /// Every queue keeps within its capacity.
    pub open spec fn wf(self) -> bool {
        &&& self.events@.len() <= EVENT_CAPACITY
        &&& self.input_to_visible_us@.len() <= SAMPLE_CAPACITY
        &&& self.refinement_us@.len() <= SAMPLE_CAPACITY
        &&& self.release_to_follow_up_press_us@.len() <= SAMPLE_CAPACITY
    }

    /// Everything but the event list and the orphan count is as in `other`.
    pub open spec fn same_samples(self, other: FrameTraceRecorder) -> bool {
        &&& self.next_evaluation == other.next_evaluation
        &&& self.input_to_visible_us == other.input_to_visible_us
        &&& self.refinement_us == other.refinement_us
        &&& self.release_to_follow_up_press_us == other.release_to_follow_up_press_us
        &&& self.pending_input_receipt == other.pending_input_receipt
        &&& self.pending_release == other.pending_release
        &&& self.verbose == other.verbose
    }

    /// An empty recorder. `setting` is the value of the trace setting.
    pub fn new(setting: Option<&str>) -> (r: Self)
        ensures
            r.wf(),
            r.next_evaluation == 0,
            r.events@ == Seq::<FrameTraceEvent>::empty(),
            r.input_to_visible_us@ == Seq::<u64>::empty(),
            r.refinement_us@ == Seq::<u64>::empty(),
            r.release_to_follow_up_press_us@ == Seq::<u64>::empty(),
            r.pending_input_receipt is None,
            r.pending_release is None,
            r.verbose == verbose_setting(
                match setting {
                    Some(value) => Some(value@),
                    None => None,
                },
            ),
            r.orphaned_events == 0,
    {
        FrameTraceRecorder {
            next_evaluation: 0,
            events: VecDeque::with_capacity(EVENT_CAPACITY),
            input_to_visible_us: VecDeque::with_capacity(SAMPLE_CAPACITY),
            refinement_us: VecDeque::with_capacity(SAMPLE_CAPACITY),
            release_to_follow_up_press_us: VecDeque::with_capacity(SAMPLE_CAPACITY),
            pending_input_receipt: None,
            pending_release: None,
            verbose: verbose_requested(setting),
            orphaned_events: 0,
        }
    }

    /// A fresh evaluation identity, one above the last.
    pub fn next_evaluation_id(&mut self) -> (r: EvaluationTraceId)
        requires
            old(self).next_evaluation < u64::MAX,
        ensures
            r.0 == old(self).next_evaluation + 1,
            *final(self) == (FrameTraceRecorder { next_evaluation: r.0, ..*old(self) }),
    {
        self.next_evaluation = self.next_evaluation + 1;
        EvaluationTraceId(self.next_evaluation)
    }

    /// Turns verbose recording on or off. The trace setting keeps it on.
    pub fn set_verbose(&mut self, verbose: bool, setting: Option<&str>)
        ensures
            *final(self) == (FrameTraceRecorder {
                verbose: verbose || verbose_setting(
                    match setting {
                        Some(value) => Some(value@),
                        None => None,
                    },
                ),
                ..*old(self)
            }),
    {
        self.verbose = verbose || verbose_requested(setting);
    }

    pub fn orphaned_events(&self) -> (r: u64)
        ensures
            r == self.orphaned_events,
    {
        self.orphaned_events
    }

    /// What a record does to the trace: it goes to the log and leaves the
    /// latency samples alone.
    pub open spec fn recorded(
        before: FrameTraceRecorder,
        after: FrameTraceRecorder,
        identity: Option<FrameIdentity>,
        event: FrameTraceEvent,
    ) -> bool {
        &&& after.log() == before.log().with(identity, event)
        &&& after.same_samples(before)
        &&& before.wf() ==> after.wf()
    }

    /// Appends `event`, or counts an orphan when there is no frame, or leaves
    /// the trace alone when recording is not verbose.
    fn admit_event(&mut self, identity: Option<FrameIdentity>, event: FrameTraceEvent) -> (r: bool)
        ensures
            r == (identity is Some && old(self).verbose),
            Self::recorded(*old(self), *final(self), identity, event),
    {
        if identity.is_none() {
            self.orphaned_events = self.orphaned_events.saturating_add(1);
            return false;
        }
        if !self.verbose {
            return false;
        }
        push_bounded(&mut self.events, EVENT_CAPACITY, event);
        true
    }

    /// Records `kind`. The result says whether an event was appended.
    pub fn record(
        &mut self,
        now: Instant,
        kind: FrameTraceEventKind,
        identity: Option<FrameIdentity>,
        phase: Option<FramePhase>,
        evaluation: Option<EvaluationTraceId>,
        quality: Option<PreviewQuality>,
        intent: Option<GpuEvaluationIntent>,
        duration: Option<Duration>,
    ) -> (r: bool)
        ensures
            r == (identity is Some && old(self).verbose),
            Self::recorded(
                *old(self),
                *final(self),
                identity,
                FrameTraceEvent::plain(
                    now,
                    kind,
                    identity->0,
                    phase,
                    evaluation,
                    quality,
                    intent,
                    duration,
                ),
            ),
    {
        match identity {
            None => {
                self.orphaned_events = self.orphaned_events.saturating_add(1);
                false
            },
            Some(frame) => self.admit_event(
                identity,
                FrameTraceEvent {
                    at: now,
                    kind,
                    frame: frame.id,
                    generation: frame.generation,
                    evaluation,
                    phase,
                    quality,
                    intent,
                    duration,
                    gpu_stats: None,
                    refinement_job: None,
                    completed_units: 0,
                    total_units: 0,
                    refinement_submission_depth: 0,
                },
            ),
        }
    }

    /// Records a step of an optional refinement.
    pub fn record_refinement(
        &mut self,
        now: Instant,
        kind: FrameTraceEventKind,
        identity: Option<FrameIdentity>,
        phase: Option<FramePhase>,
        evaluation: EvaluationTraceId,
        quality: PreviewQuality,
        job: u64,
        completed_units: usize,
        total_units: usize,
        submission_depth: u8,
        duration: Option<Duration>,
    )
        ensures
            Self::recorded(
                *old(self),
                *final(self),
                identity,
                FrameTraceEvent {
                    refinement_job: Some(job),
                    completed_units,
                    total_units,
                    refinement_submission_depth: submission_depth,
                    ..FrameTraceEvent::plain(
                        now,
                        kind,
                        identity->0,
                        phase,
                        Some(evaluation),
                        Some(quality),
                        Some(GpuEvaluationIntent::Complete),
                        duration,
                    )
                },
            ),
    {
        match identity {
            None => {
                self.orphaned_events = self.orphaned_events.saturating_add(1);
            },
            Some(frame) => {
                self.admit_event(
                    identity,
                    FrameTraceEvent {
                        at: now,
                        kind,
                        frame: frame.id,
                        generation: frame.generation,
                        evaluation: Some(evaluation),
                        phase,
                        quality: Some(quality),
                        intent: Some(GpuEvaluationIntent::Complete),
                        duration,
                        gpu_stats: None,
                        refinement_job: Some(job),
                        completed_units,
                        total_units,
                        refinement_submission_depth: submission_depth,
                    },
                );
            },
        }
    }

    /// Records that an evaluation was submitted, with its counters.
    pub fn record_evaluation_submission(
        &mut self,
        now: Instant,
        identity: Option<FrameIdentity>,
        phase: Option<FramePhase>,
        evaluation: EvaluationTraceId,
        quality: PreviewQuality,
        intent: GpuEvaluationIntent,
        duration: Duration,
        stats: GpuEvalStats,
    )
        ensures
            Self::recorded(
                *old(self),
                *final(self),
                identity,
                FrameTraceEvent {
                    gpu_stats: Some(stats),
                    ..FrameTraceEvent::plain(
                        now,
                        FrameTraceEventKind::QueueSubmitted,
                        identity->0,
                        phase,
                        Some(evaluation),
                        Some(quality),
                        Some(intent),
                        Some(duration),
                    )
                },
            ),
    {
        match identity {
            None => {
                self.orphaned_events = self.orphaned_events.saturating_add(1);
            },
            Some(frame) => {
                self.admit_event(
                    identity,
                    FrameTraceEvent {
                        at: now,
                        kind: FrameTraceEventKind::QueueSubmitted,
                        frame: frame.id,
                        generation: frame.generation,
                        evaluation: Some(evaluation),
                        phase,
                        quality: Some(quality),
                        intent: Some(intent),
                        duration: Some(duration),
                        gpu_stats: Some(stats),
                        refinement_job: None,
                        completed_units: 0,
                        total_units: 0,
                        refinement_submission_depth: 0,
                    },
                );
            },
        }
    }

    /// Starts the wait from an input receipt to its visible result.
    pub fn note_input_receipt(&mut self, now: Instant, generation: EditGeneration)
        ensures
            *final(self) == (FrameTraceRecorder {
                pending_input_receipt: Some(PendingSample { at: now, generation }),
                ..*old(self)
            }),
    {
        self.pending_input_receipt = Some(PendingSample { at: now, generation });
    }

    /// Starts the wait from a stroke's release to its refined result.
    pub fn note_release(&mut self, now: Instant, generation: EditGeneration)
        ensures
            *final(self) == (FrameTraceRecorder {
                pending_release: Some(PendingSample { at: now, generation }),
                ..*old(self)
            }),
    {
        self.pending_release = Some(PendingSample { at: now, generation });
    }

    /// A press that follows a release preempts the wait for its refinement.
    pub fn note_follow_up_press(&mut self, now: Instant) -> (r: bool)
        requires
            old(self).wf(),
        ensures
            r == (old(self).pending_release is Some),
            final(self).wf(),
            final(self).pending_release is None,
            final(self).release_to_follow_up_press_us@ == match old(self).pending_release {
                Some(p) => appended_within(
                    old(self).release_to_follow_up_press_us@,
                    SAMPLE_CAPACITY as int,
                    micros_of(now.nanos_since(p.at)) as u64,
                ),
                None => old(self).release_to_follow_up_press_us@,
            },
            *final(self) == (FrameTraceRecorder {
                pending_release: final(self).pending_release,
                release_to_follow_up_press_us: final(self).release_to_follow_up_press_us,
                ..*old(self)
            }),
    {
        match self.pending_release {
            None => false,
            Some(p) => {
                self.pending_release = None;
                push_bounded(
                    &mut self.release_to_follow_up_press_us,
                    SAMPLE_CAPACITY,
                    micros(now.saturating_duration_since(p.at)),
                );
                true
            },
        }
    }

    /// The samples after a wait that `generation` may have closed.
    pub open spec fn closed_by(
        samples: Seq<u64>,
        pending: Option<PendingSample>,
        now: Instant,
        generation: EditGeneration,
    ) -> Seq<u64> {
        match pending {
            Some(p) if p.generation == generation => appended_within(
                samples,
                SAMPLE_CAPACITY as int,
                micros_of(now.nanos_since(p.at)) as u64,
            ),
            _ => samples,
        }
    }

    /// The wait that is left after `generation` became visible.
    pub open spec fn left_by(
        pending: Option<PendingSample>,
        generation: EditGeneration,
    ) -> Option<PendingSample> {
        match pending {
            Some(p) if p.generation == generation => None,
            _ => pending,
        }
    }

    /// Closes the waits for `generation`, now that it is on screen.
    pub fn note_surface_presented(&mut self, now: Instant, generation: EditGeneration)
        requires
            old(self).wf(),
        ensures
            final(self).wf(),
            final(self).pending_input_receipt == Self::left_by(
                old(self).pending_input_receipt,
                generation,
            ),
            final(self).pending_release == Self::left_by(old(self).pending_release, generation),
            final(self).input_to_visible_us@ == Self::closed_by(
                old(self).input_to_visible_us@,
                old(self).pending_input_receipt,
                now,
                generation,
            ),
            final(self).refinement_us@ == Self::closed_by(
                old(self).refinement_us@,
                old(self).pending_release,
                now,
                generation,
            ),
            *final(self) == (FrameTraceRecorder {
                pending_input_receipt: final(self).pending_input_receipt,
                pending_release: final(self).pending_release,
                input_to_visible_us: final(self).input_to_visible_us,
                refinement_us: final(self).refinement_us,
                ..*old(self)
            }),
    {
        if let Some(p) = self.pending_input_receipt {
            if p.generation == generation {
                push_bounded(
                    &mut self.input_to_visible_us,
                    SAMPLE_CAPACITY,
                    micros(now.saturating_duration_since(p.at)),
                );
                self.pending_input_receipt = None;
            }
        }
        if let Some(p) = self.pending_release {
            if p.generation == generation {
                push_bounded(
                    &mut self.refinement_us,
                    SAMPLE_CAPACITY,
                    micros(now.saturating_duration_since(p.at)),
                );
                self.pending_release = None;
            }
        }
    }

    /// `summary` is the summary of `samples`.
    pub open spec fn summarizes(summary: LatencySummary, samples: Seq<u64>) -> bool {
        if samples.len() == 0 {
            summary == (LatencySummary { count: 0, p50_us: 0, p95_us: 0, max_us: 0 })
        } else {
            exists|sorted: Seq<u64>|
                #![trigger is_sorting_of(sorted, samples)]
                is_sorting_of(sorted, samples) && summary == summary_of(sorted)
        }
    }

    pub fn input_to_visible_summary(&self) -> (r: LatencySummary)
        requires
            self.wf(),
        ensures
            Self::summarizes(r, self.input_to_visible_us@),
    {
        summarize(&self.input_to_visible_us)
    }

    pub fn refinement_summary(&self) -> (r: LatencySummary)
        requires
            self.wf(),
        ensures
            Self::summarizes(r, self.refinement_us@),
    {
        summarize(&self.refinement_us)
    }

    pub fn follow_up_press_summary(&self) -> (r: LatencySummary)
        requires
            self.wf(),
        ensures
            Self::summarizes(r, self.release_to_follow_up_press_us@),
    {
        summarize(&self.release_to_follow_up_press_us)
    }

    pub fn events(&self) -> (r: &VecDeque<FrameTraceEvent>)
        ensures
            *r == self.events,
    {
        &self.events
    }
}

/// The newest record is always the last one, and what was recorded before it
/// stays in order: a bounded queue forgets from the front only.
pub proof fn bounded_queue_keeps_the_newest<T>(queue: Seq<T>, capacity: int, value: T)
    requires
        0 < capacity,
        queue.len() <= capacity,
    ensures
        appended_within(queue, capacity, value).len() <= capacity,
        appended_within(queue, capacity, value).last() == value,
        appended_within(queue, capacity, value).is_suffix_of(queue.push(value)),
{
    if queue.len() == capacity {
        assert(appended_within(queue, capacity, value) =~= queue.push(value).subrange(
            1,
            queue.push(value).len() as int,
        ));
    } else {
        assert(queue.push(value) =~= queue.push(value).subrange(
            0,
            queue.push(value).len() as int,
        ));
    }
}

/// A latency closes only on the generation that it waits for: presenting any
/// other generation leaves both the wait and the samples as they were.
pub proof fn latency_closes_only_on_its_generation(
    samples: Seq<u64>,
    pending: PendingSample,
    now: Instant,
    generation: EditGeneration,
)
    ensures
        pending.generation != generation ==> {
            &&& FrameTraceRecorder::closed_by(samples, Some(pending), now, generation) == samples
            &&& FrameTraceRecorder::left_by(Some(pending), generation) == Some(pending)
        },
        pending.generation == generation ==> {
            &&& FrameTraceRecorder::left_by(Some(pending), generation) is None
            &&& FrameTraceRecorder::closed_by(samples, Some(pending), now, generation).last()
                == micros_of(now.nanos_since(pending.at)) as u64
        },
{
}

/// A generation that is presented twice closes each wait once.
pub proof fn presenting_again_closes_nothing(
    samples: Seq<u64>,
    pending: Option<PendingSample>,
    now: Instant,
    again: Instant,
    generation: EditGeneration,
)
    ensures
        FrameTraceRecorder::closed_by(
            FrameTraceRecorder::closed_by(samples, pending, now, generation),
            FrameTraceRecorder::left_by(pending, generation),
            again,
            generation,
        ) == FrameTraceRecorder::closed_by(samples, pending, now, generation),
{
}

/// A queue below its capacity only grows, and a full one forgets its oldest.
pub proof fn full_queues_forget_their_oldest<T>(queue: Seq<T>, capacity: int, value: T)
    requires
        0 < capacity,
    ensures
        queue.len() < capacity ==> appended_within(queue, capacity, value).len() == queue.len() + 1
            && appended_within(queue, capacity, value).drop_last() == queue,
        queue.len() == capacity ==> appended_within(queue, capacity, value).len() == capacity
            && appended_within(queue, capacity, value).drop_last() == queue.drop_first(),
        appended_within(queue, capacity, value).last() == value,
{
    assert(queue.push(value).drop_last() =~= queue);
    if queue.len() > 0 {
        assert(queue.drop_first().push(value).drop_last() =~= queue.drop_first());
    }
}

/// Microseconds are whole thousands of nanoseconds, rounded down and capped.
pub proof fn micros_round_down(nanos: int)
    requires
        0 <= nanos,
    ensures
        nanos < 1_000 * (u64::MAX as int) ==> 1_000 * micros_of(nanos) <= nanos < 1_000 * (
        micros_of(nanos) + 1),
        0 <= micros_of(nanos) <= u64::MAX,
        nanos >= 1_000 * (u64::MAX as int) ==> micros_of(nanos) == u64::MAX,
{
}

/// The nearest rank is the first one that reaches the share: as many samples as the
/// share asks for are at or before it, and one fewer would not do.
pub proof fn the_nearest_rank_reaches_the_share(share: int, len: int)
    requires
        0 < share <= 100,
        0 < len,
    ensures
        0 <= nearest_rank_index(share, len) < len,
        100 * (nearest_rank_index(share, len) + 1) >= share * len,
        100 * nearest_rank_index(share, len) < share * len,
{
    assert(share * len <= 100 * len) by (nonlinear_arith)
        requires
            share <= 100,
            0 < len,
    ;
    assert(0 < share * len) by (nonlinear_arith)
        requires
            0 < share,
            0 < len,
    ;
}

/// A summary counts its samples and names three of them: the median, the one that
/// nineteen of twenty do not exceed, and the largest.
pub proof fn summaries_name_their_samples(
    samples: &VecDeque<u64>,
    summary: LatencySummary,
    sorted: Seq<u64>,
)
    requires
        95 * samples@.len() <= usize::MAX,
        call_ensures(summarize, (samples,), summary),
        is_sorting_of(sorted, samples@),
        samples@.len() > 0,
    ensures
        sorted.len() == samples@.len(),
        summary.count == samples@.len(),
        summary.max_us == sorted.last(),
        summary.p50_us <= summary.p95_us <= summary.max_us,
        forall|i: int|
            0 <= i && 2 * i >= sorted.len() && i < sorted.len() ==> summary.p50_us
                <= #[trigger] sorted[i],
        forall|i: int|
            0 <= i && 2 * (i + 1) <= sorted.len() ==> #[trigger] sorted[i] <= summary.p50_us,
{
    broadcast use vstd::seq_lib::group_to_multiset_ensures;
    assert(sorted.len() == samples@.len()) by {
        assert(sorted.to_multiset().len() == sorted.len());
        assert(samples@.to_multiset().len() == samples@.len());
    }
    let len = sorted.len() as int;
    the_nearest_rank_reaches_the_share(50, len);
    the_nearest_rank_reaches_the_share(95, len);
    let half = nearest_rank_index(50, len);
    let most = nearest_rank_index(95, len);
    assert(sorted[half] <= sorted[most]);
    assert(sorted[most] <= sorted[len - 1]);
    assert forall|i: int| 0 <= i && 2 * i >= sorted.len() && i < sorted.len() implies summary.p50_us
        <= #[trigger] sorted[i] by {
        assert(sorted[half] <= sorted[i]);
    }
    assert forall|i: int| 0 <= i && 2 * (i + 1) <= sorted.len() implies #[trigger] sorted[i]
        <= summary.p50_us by {
        assert(sorted[i] <= sorted[half]);
    }
}

/// A record of a frame is appended where recording is verbose and changes nothing
/// otherwise; one without a frame counts as an orphan and is not appended.
pub proof fn records_need_a_frame(
    log: TraceLog,
    identity: Option<FrameIdentity>,
    event: FrameTraceEvent,
)
    requires
        log.events.len() <= EVENT_CAPACITY,
        0 <= log.orphaned < u64::MAX,
    ensures
        identity is None ==> log.with(identity, event).orphaned == log.orphaned + 1 && log.with(
            identity,
            event,
        ).events == log.events,
        identity is Some && log.verbose ==> log.with(identity, event).events.last() == event
            && log.with(identity, event).orphaned == log.orphaned,
        identity is Some && !log.verbose ==> log.with(identity, event) == log,
        log.with(identity, event).verbose == log.verbose,
{
}

/// A plain event says what was recorded, when and for which frame.
pub proof fn plain_events_say_what_was_recorded(
    at: Instant,
    kind: FrameTraceEventKind,
    identity: FrameIdentity,
    phase: Option<FramePhase>,
    evaluation: Option<EvaluationTraceId>,
    quality: Option<PreviewQuality>,
    intent: Option<GpuEvaluationIntent>,
    duration: Option<Duration>,
)
    ensures
        ({
            let event = FrameTraceEvent::plain(
                at,
                kind,
                identity,
                phase,
                evaluation,
                quality,
                intent,
                duration,
            );
            &&& event.at == at
            &&& event.kind == kind
            &&& event.frame == identity.id
            &&& event.generation == identity.generation
            &&& event.phase == phase
            &&& event.evaluation == evaluation
            &&& event.quality == quality
            &&& event.intent == intent
            &&& event.duration == duration
            &&& event.gpu_stats is None
            &&& event.refinement_job is None
        }),
{
}

/// A press that follows a release closes the wait with the time in between, and
/// without a release there is nothing to close.
pub proof fn follow_up_presses_close_the_wait(
    trace: &mut FrameTraceRecorder,
    now: Instant,
    closed: bool,
)
    requires
        old(trace).wf(),
        call_ensures(FrameTraceRecorder::note_follow_up_press, (trace, now), closed),
    ensures
        closed <==> old(trace).pending_release is Some,
        final(trace).pending_release is None,
        !closed ==> final(trace).release_to_follow_up_press_us@ == old(trace).release_to_follow_up_press_us@,
        old(trace).pending_release matches Some(release) ==> final(trace).release_to_follow_up_press_us@.last() == micros_of(now.nanos_since(release.at)) as u64,
        final(trace).pending_input_receipt == old(trace).pending_input_receipt,
{
}

/// Evaluations are numbered one after the other.
pub proof fn evaluations_are_numbered(trace: &mut FrameTraceRecorder, id: EvaluationTraceId)
    requires
        old(trace).next_evaluation < u64::MAX,
        call_ensures(FrameTraceRecorder::next_evaluation_id, (trace,), id),
    ensures
        id.0 == old(trace).next_evaluation + 1,
        final(trace).next_evaluation == id.0,
{
}

/// The trace is verbose where it is told to be or its setting reads so, in any case,
/// and not otherwise.
pub proof fn verbosity_is_asked_for(
    trace: &mut FrameTraceRecorder,
    verbose: bool,
    setting: Option<&str>,
)
    requires
        call_ensures(FrameTraceRecorder::set_verbose, (trace, verbose, setting), ()),
    ensures
        verbose ==> final(trace).verbose,
        !verbose && setting is None ==> !final(trace).verbose,
        setting matches Some(value) ==> (value@ == "verbose"@ ==> final(trace).verbose),
        !verbose ==> (setting matches Some(value) ==> (value@.len() != "verbose"@.len()
            ==> !final(trace).verbose)),
{
    if let Some(value) = setting {
        crate::text::case_does_not_matter(value@, "verbose"@);
        crate::text::case_does_not_matter(value@, value@);
    }
}

/// An input and a release are noted with their own time and generation, and neither
/// touches the other.
pub proof fn inputs_and_releases_are_noted(
    trace: &mut FrameTraceRecorder,
    now: Instant,
    generation: EditGeneration,
)
    ensures
        call_ensures(FrameTraceRecorder::note_input_receipt, (trace, now, generation), ()) ==> {
            &&& final(trace).pending_input_receipt matches Some(sample) && sample.at == now
                && sample.generation == generation
            &&& final(trace).pending_release == old(trace).pending_release
        },
        call_ensures(FrameTraceRecorder::note_release, (trace, now, generation), ()) ==> {
            &&& final(trace).pending_release matches Some(sample) && sample.at == now
                && sample.generation == generation
            &&& final(trace).pending_input_receipt == old(trace).pending_input_receipt
        },
{
}

/// Each summary counts its own samples.
pub proof fn summaries_count_their_samples(
    trace: FrameTraceRecorder,
    visible: LatencySummary,
    refined: LatencySummary,
    pressed: LatencySummary,
)
    requires
        trace.wf(),
        call_ensures(FrameTraceRecorder::input_to_visible_summary, (&trace,), visible),
        call_ensures(FrameTraceRecorder::refinement_summary, (&trace,), refined),
        call_ensures(FrameTraceRecorder::follow_up_press_summary, (&trace,), pressed),
    ensures
        visible.count == trace.input_to_visible_us@.len(),
        refined.count == trace.refinement_us@.len(),
        pressed.count == trace.release_to_follow_up_press_us@.len(),
{
    summaries_count(visible, trace.input_to_visible_us@);
    summaries_count(refined, trace.refinement_us@);
    summaries_count(pressed, trace.release_to_follow_up_press_us@);
}

/// A summary counts its samples, and its shares are among them and in order.
pub proof fn summaries_count(summary: LatencySummary, samples: Seq<u64>)
    requires
        FrameTraceRecorder::summarizes(summary, samples),
        samples.len() <= SAMPLE_CAPACITY,
    ensures
        summary.count == samples.len(),
        samples.len() > 0 ==> samples.contains(summary.max_us),
        forall|i: int| 0 <= i < samples.len() ==> #[trigger] samples[i] <= summary.max_us,
        summary.p50_us <= summary.max_us,
        summary.p95_us <= summary.max_us,
{
    if samples.len() > 0 {
        let sorted = choose|sorted: Seq<u64>|
            #![trigger is_sorting_of(sorted, samples)]
            is_sorting_of(sorted, samples) && summary == summary_of(sorted);
        assert(is_sorting_of(sorted, samples));
        broadcast use vstd::seq_lib::group_to_multiset_ensures;

        assert(sorted.len() == sorted.to_multiset().len());
        assert(samples.len() == samples.to_multiset().len());
        assert(sorted.contains(sorted.last()));
        assert(sorted.to_multiset().count(sorted.last()) > 0);
        assert forall|i: int| 0 <= i < samples.len() implies #[trigger] samples[i]
            <= summary.max_us by {
            assert(samples.contains(samples[i]));
            assert(sorted.to_multiset().count(samples[i]) > 0);
            let j = choose|j: int| 0 <= j < sorted.len() && sorted[j] == samples[i];
            assert(sorted[j] <= sorted[sorted.len() - 1]);
        }
        let half = nearest_rank_index(50, sorted.len() as int);
        let most = nearest_rank_index(95, sorted.len() as int);
        assert(sorted[half] <= sorted[sorted.len() - 1]);
        assert(sorted[most] <= sorted[sorted.len() - 1]);
    }
}

} // verus!
