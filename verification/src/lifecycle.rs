//! The event loop around logical frames: capture of window events, sealing and
//! replay of input, presentation, and shutdown.
//!
//! Callbacks of the window system only capture. State changes happen from a
//! sealed snapshot, before required work and optional refinement are looked at.
use vstd::prelude::*;

use crate::clock::{Duration, Instant};
use crate::eval::{
    EvalCore, EvalEffect, EvalState, EvalTexts, EvalUi, FrameDeadlineKind, PlanEdit,
};
use crate::frame_trace::{
    EvaluationTraceId, FrameTraceEvent, FrameTraceEventKind, FrameTraceRecorder, LatencySummary,
    PendingSample,
};
use crate::input::{
    ElementState, InputAccumulator, InputEvent, InputModifiers, KeyCode, MouseButton,
    PointerCancelReason, StampedInputEvent,
};
use crate::interaction::{InputEffect, Interaction};
use crate::logical_frame::{
    EditGeneration, FrameIdentity, FramePhase, FrameRequestReason, LogicalFrameCoordinator,
    LogicalFrameId,
};
use crate::logging::OperationContext;
use crate::paint::StrokeState;
use crate::quality::PreviewQuality;
use crate::text::push_decimal;

verus! {

/// Physical size of the window surface.
#[derive(Debug, Clone, Copy, PartialEq, Eq, Structural)]
pub struct SurfaceSize {
    pub width: u32,
    pub height: u32,
}

/// Work that waits for the next frame, apart from evaluation.
#[derive(Debug, Clone, Copy, PartialEq, Eq, Structural)]
pub struct WaitingWork {
    /// Tiles whose upload is queued.
    pub tile_uploads: usize,
    /// Effects of the interface that are queued.
    pub ui_effects: usize,
    pub surface_resize: Option<SurfaceSize>,
    pub surface_reconfigure: bool,
}

impl WaitingWork {
    pub open spec fn nothing() -> WaitingWork {
        WaitingWork {
            tile_uploads: 0,
            ui_effects: 0,
            surface_resize: None,
            surface_reconfigure: false,
        }
    }

    pub fn none() -> (r: Self)
        ensures
            r == Self::nothing(),
    {
        WaitingWork {
            tile_uploads: 0,
            ui_effects: 0,
            surface_resize: None,
            surface_reconfigure: false,
        }
    }
}

/// Why the GPU device went away.
#[derive(Debug, Clone, Copy, PartialEq, Eq, Structural)]
pub enum DeviceLostReason {
    Unknown,
    /// The application destroyed the device itself.
    Destroyed,
}

/// What the runtime is told from outside the window.
#[derive(Debug)]
pub enum RuntimeEvent {
    DeviceLost { reason: DeviceLostReason, message: String },
}

/// The state of the running editor that the event loop works on.
#[derive(Debug)]
pub struct Runtime {
    pub frames: LogicalFrameCoordinator,
    pub trace: FrameTraceRecorder,
    pub input: InputAccumulator,
    pub interaction: Interaction,
    pub stroke: StrokeState,
    pub eval: EvalState,
    pub waiting: WaitingWork,
    /// The last frame whose GPU timing was reported.
    pub reported_timing_frame: u64,
}

/// The events of one frame and what is reported of them.
#[derive(Debug)]
pub struct SealedInput {
    pub events: Vec<StampedInputEvent>,
    pub pointer_samples: usize,
    pub first_primary_press: Option<Instant>,
    pub first_receipt: Option<Instant>,
    pub last_sequence: Option<u64>,
}

impl Runtime {
    /// The frames, the trace and the input are each consistent.
    pub open spec fn wf(self) -> bool {
        self.frames.wf() && self.trace.wf() && self.input.wf()
    }

    /// The runtime at launch: no frame asked for, no input taken in, nothing
    /// evaluated and nothing waiting.
    pub fn new(host_budget: Duration, trace_setting: Option<&str>, now: Instant) -> (r: Self)
        ensures
            r.wf(),
            r.frames == (LogicalFrameCoordinator {
                host_budget,
                next_id: 0,
                pending: None,
                active: None,
                last_complete: None,
                presentation_pending_for: None,
                shutdown: false,
            }),
            r.trace.log() == (crate::frame_trace::TraceLog {
                events: Seq::empty(),
                orphaned: 0,
                verbose: crate::frame_trace::verbose_setting(
                    match trace_setting {
                        Some(value) => Some(value@),
                        None => None,
                    },
                ),
            }),
            r.trace.next_evaluation == 0,
            r.trace.input_to_visible_us@ == Seq::<u64>::empty(),
            r.trace.refinement_us@ == Seq::<u64>::empty(),
            r.trace.release_to_follow_up_press_us@ == Seq::<u64>::empty(),
            r.trace.pending_input_receipt is None,
            r.trace.pending_release is None,
            r.input.next_sequence == 0,
            r.input.pending@ == Seq::<StampedInputEvent>::empty(),
            r.interaction == Interaction::at_rest(),
            r.stroke == StrokeState::still(),
            r.eval.core == EvalCore::fresh(now),
            r.eval.ui == EvalUi::blank(),
            r.eval.deferred_full_field is None,
            r.eval.pending_plan_edits@ == Seq::<PlanEdit>::empty(),
            r.waiting == WaitingWork::nothing(),
            r.reported_timing_frame == 0,
    {
        Runtime {
            frames: LogicalFrameCoordinator::new(host_budget),
            trace: FrameTraceRecorder::new(trace_setting),
            input: InputAccumulator::new(),
            interaction: Interaction::new(),
            stroke: StrokeState::idle(),
            eval: EvalState::new(now),
            waiting: WaitingWork::none(),
            reported_timing_frame: 0,
        }
    }

    /// The generation that edits have reached.
    pub open spec fn generation(self) -> EditGeneration {
        EditGeneration(self.eval.core.eval_token)
    }

    /// The frame that a record belongs to: the active one, else the pending
    /// one.
    pub open spec fn current_identity(frames: LogicalFrameCoordinator) -> Option<FrameIdentity> {
        match frames.active {
            Some(a) => Some(a.identity),
            None => match frames.pending {
                Some(p) => Some(p.identity()),
                None => None,
            },
        }
    }

    pub open spec fn current_phase(frames: LogicalFrameCoordinator) -> Option<FramePhase> {
        match frames.active {
            Some(a) => Some(a.phase),
            None => None,
        }
    }

    /// Everything but the frames and the trace is as before.
    pub open spec fn only_frames_and_trace_changed(before: Runtime, after: Runtime) -> bool {
        &&& after.input == before.input
        &&& after.interaction == before.interaction
        &&& after.stroke == before.stroke
        &&& after.eval == before.eval
        &&& after.waiting == before.waiting
        &&& after.reported_timing_frame == before.reported_timing_frame
    }

    /// Asks for a frame of the current generation.
    pub fn request_app_frame(&mut self, reason: FrameRequestReason)
        requires
            old(self).frames.can_request(),
        ensures
            final(self).frames == old(self).frames.requested(old(self).generation(), reason),
            final(self).trace == old(self).trace,
            Self::only_frames_and_trace_changed(*old(self), *final(self)),
            old(self).wf() ==> final(self).wf(),
    {
        let generation = EditGeneration::new(self.eval.core.eval_token);
        self.frames.request(generation, reason);
    }

    /// Records `kind` for the current frame.
    pub fn record_frame_event(&mut self, kind: FrameTraceEventKind, now: Instant)
        ensures
            final(self).trace.log() == old(self).trace.log().noted(
                now,
                kind,
                Self::current_identity(old(self).frames),
                Self::current_phase(old(self).frames),
            ),
            final(self).trace.same_samples(old(self).trace),
            final(self).frames == old(self).frames,
            Self::only_frames_and_trace_changed(*old(self), *final(self)),
            old(self).wf() ==> final(self).wf(),
    {
        let identity = match self.frames.active_identity() {
            Some(identity) => Some(identity),
            None => self.frames.pending_identity(),
        };
        let phase = self.frames.active_phase();
        self.trace.record(now, kind, identity, phase, None, None, None, None);
    }

    /// Remembers the size for the next frame. A later size replaces it.
    pub fn capture_surface_resize(&mut self, size: SurfaceSize, now: Instant)
        requires
            old(self).frames.can_request(),
        ensures
            final(self).waiting == (WaitingWork {
                surface_resize: Some(size),
                ..old(self).waiting
            }),
            final(self).frames == old(self).frames.requested(
                old(self).generation(),
                FrameRequestReason::Resize,
            ),
            final(self).trace.log() == old(self).trace.log().noted(
                now,
                FrameTraceEventKind::ResizeCaptured,
                Self::current_identity(final(self).frames),
                Self::current_phase(old(self).frames),
            ),
            final(self).trace.same_samples(old(self).trace),
            final(self).input == old(self).input,
            final(self).interaction == old(self).interaction,
            final(self).stroke == old(self).stroke,
            final(self).eval == old(self).eval,
            final(self).reported_timing_frame == old(self).reported_timing_frame,
            old(self).wf() ==> final(self).wf(),
    {
        self.waiting = WaitingWork { surface_resize: Some(size), ..self.waiting };
        self.request_app_frame(FrameRequestReason::Resize);
        self.record_frame_event(FrameTraceEventKind::ResizeCaptured, now);
    }

    /// Asks for a controlled shutdown and records why.
    fn request_shutdown(&mut self, kind: FrameTraceEventKind, now: Instant)
        requires
            old(self).frames.can_request(),
        ensures
            final(self).frames == (LogicalFrameCoordinator {
                shutdown: true,
                ..old(self).frames.requested(
                    old(self).generation(),
                    FrameRequestReason::ScheduledWork,
                )
            }),
            final(self).trace.log() == old(self).trace.log().noted(
                now,
                kind,
                Self::current_identity(final(self).frames),
                Self::current_phase(old(self).frames),
            ),
            final(self).trace.same_samples(old(self).trace),
            Self::only_frames_and_trace_changed(*old(self), *final(self)),
            old(self).wf() ==> final(self).wf(),
    {
        let generation = EditGeneration::new(self.eval.core.eval_token);
        self.frames.request_shutdown(generation);
        self.record_frame_event(kind, now);
    }

    /// A lost device ends the session in a controlled way, unless the
    /// application destroyed it.
    pub fn handle_runtime_event(&mut self, event: RuntimeEvent, now: Instant)
        requires
            old(self).frames.can_request(),
        ensures
            match event {
                RuntimeEvent::DeviceLost { reason, message } => {
                    &&& reason == DeviceLostReason::Destroyed ==> *final(self) == *old(self)
                    &&& reason != DeviceLostReason::Destroyed ==> {
                        &&& final(self).frames == (LogicalFrameCoordinator {
                            shutdown: true,
                            ..old(self).frames.requested(
                                old(self).generation(),
                                FrameRequestReason::ScheduledWork,
                            )
                        })
                        &&& final(self).eval.texts.status@ == "GPU device lost: "@ + message@
                        &&& final(self).eval == (EvalState {
                            texts: EvalTexts {
                                status: final(self).eval.texts.status,
                                ..old(self).eval.texts
                            },
                            ..old(self).eval
                        })
                        &&& final(self).trace.log() == old(self).trace.log().noted(
                            now,
                            FrameTraceEventKind::DeviceLost,
                            Self::current_identity(final(self).frames),
                            Self::current_phase(old(self).frames),
                        )
                        &&& final(self).trace.same_samples(old(self).trace)
                        &&& final(self).input == old(self).input
                        &&& final(self).interaction == old(self).interaction
                        &&& final(self).stroke == old(self).stroke
                        &&& final(self).waiting == old(self).waiting
                        &&& final(self).reported_timing_frame == old(self).reported_timing_frame
                    }
                },
            },
            old(self).wf() ==> final(self).wf(),
    {
        match event {
            RuntimeEvent::DeviceLost { reason, message } => {
                if reason != DeviceLostReason::Destroyed {
                    let mut status = "GPU device lost: ".to_owned();
                    status.append(message.as_str());
                    self.eval.texts.status = status;
                    self.request_shutdown(FrameTraceEventKind::DeviceLost, now);
                }
            },
        }
    }

    /// The log after `event` was received at `now`.
    pub open spec fn receipt_log(
        self,
        event: InputEvent,
        now: Instant,
    ) -> crate::frame_trace::TraceLog {
        let pending = self.frames.requested(self.generation(), FrameRequestReason::Input).pending;
        let identity = Some(pending->0.identity());
        let phase = Some(FramePhase::CollectingInput);
        let received = self.trace.log().noted(
            now,
            FrameTraceEventKind::OsInputReceipt,
            identity,
            phase,
        );
        if event.presses_primary() && self.trace.pending_release is Some {
            received.noted(now, FrameTraceEventKind::FollowUpPressReceipt, identity, phase)
        } else {
            received
        }
    }

    /// What capturing an event does: it is stamped and kept, a frame is asked
    /// for, and the receipt is traced. A press that follows a release closes
    /// the wait for its refinement. Nothing is applied.
    pub open spec fn captured(
        before: Runtime,
        after: Runtime,
        event: InputEvent,
        now: Instant,
    ) -> bool {
        &&& after.input.next_sequence == before.input.next_sequence + 1
        &&& after.input.pending@ == before.input.pending@.push(
            StampedInputEvent {
                sequence: (before.input.next_sequence + 1) as u64,
                received_at: now,
                event,
            },
        )
        &&& after.frames == before.frames.requested(before.generation(), FrameRequestReason::Input)
        &&& after.trace.log() == before.receipt_log(event, now)
        &&& after.trace.pending_release == if event.presses_primary() {
            None
        } else {
            before.trace.pending_release
        }
        &&& after.trace.release_to_follow_up_press_us@ == match before.trace.pending_release {
            Some(p) if event.presses_primary() => crate::frame_trace::appended_within(
                before.trace.release_to_follow_up_press_us@,
                crate::frame_trace::SAMPLE_CAPACITY as int,
                crate::frame_trace::micros_of(now.nanos_since(p.at)) as u64,
            ),
            _ => before.trace.release_to_follow_up_press_us@,
        }
        &&& after.trace.input_to_visible_us == before.trace.input_to_visible_us
        &&& after.trace.refinement_us == before.trace.refinement_us
        &&& after.trace.pending_input_receipt == before.trace.pending_input_receipt
        &&& after.trace.next_evaluation == before.trace.next_evaluation
        &&& after.interaction == before.interaction
        &&& after.stroke == before.stroke
        &&& after.eval == before.eval
        &&& after.waiting == before.waiting
        &&& after.reported_timing_frame == before.reported_timing_frame
    }

    /// Captures one event: it is stamped and kept, a frame is asked for, and
    /// the receipt is traced. A press that follows a release preempts the wait
    /// for its refinement. Edges of the primary button push optional refinement
    /// back by `grace`.
    pub fn queue_input(&mut self, event: InputEvent, now: Instant, grace: Duration) -> (r: Option<
        EvalEffect,
    >)
        requires
            old(self).wf(),
            old(self).input.next_sequence < u64::MAX,
            old(self).frames.can_request(),
        ensures
            final(self).wf(),
            Self::captured(*old(self), *final(self), event, now),
            r == if event.edges_primary() {
                Some(
                    EvalEffect::ScheduleDeadline {
                        kind: FrameDeadlineKind::OptionalRefinement,
                        generation: old(self).generation(),
                        after: grace,
                    },
                )
            } else {
                None
            },
    {
        self.input.record(event, now);
        self.request_app_frame(FrameRequestReason::Input);
        let identity = self.frames.pending_identity();
        let phase = Some(FramePhase::CollectingInput);
        self.trace.record(
            now,
            FrameTraceEventKind::OsInputReceipt,
            identity,
            phase,
            None,
            None,
            None,
            None,
        );
        let (edge, press) = match event {
            InputEvent::PointerButton { state, button } => (
                button == MouseButton::Left,
                button == MouseButton::Left && state == ElementState::Pressed,
            ),
            _ => (false, false),
        };
        if press && self.trace.note_follow_up_press(now) {
            self.trace.record(
                now,
                FrameTraceEventKind::FollowUpPressReceipt,
                identity,
                phase,
                None,
                None,
                None,
                None,
            );
        }
        if edge {
            Some(
                EvalEffect::ScheduleDeadline {
                    kind: FrameDeadlineKind::OptionalRefinement,
                    generation: EditGeneration::new(self.eval.core.eval_token),
                    after: grace,
                },
            )
        } else {
            None
        }
    }

    /// The frames once the pending input was sealed into one of them.
    pub open spec fn sealed_frames(self, now: Instant, samples: usize) -> LogicalFrameCoordinator {
        self.frames.requested(self.generation(), FrameRequestReason::Input).begun(
            now,
            self.input.pending@.len() as usize,
            samples,
        ).moved_to(FramePhase::ApplicationUpdate)
    }

    /// Seals the pending input into a frame and begins it. Events that come in
    /// later stay in the accumulator and own a frame of their own.
    pub fn seal_input_frame(&mut self, now: Instant) -> (r: Option<SealedInput>)
        requires
            old(self).wf(),
            old(self).frames.can_request(),
        ensures
            final(self).wf(),
            old(self).input.pending@.len() == 0 ==> r is None && *final(self) == *old(self),
            old(self).input.pending@.len() > 0 ==> {
                &&& r matches Some(sealed)
                &&& sealed.events@ == old(self).input.pending@
                &&& sealed.pointer_samples == sealed.events@.filter(
                    |e: StampedInputEvent| e.event.samples_pointer(),
                ).len()
                &&& sealed.first_receipt == Some(sealed.events@.first().received_at)
                &&& sealed.last_sequence == Some(sealed.events@.last().sequence)
                &&& match sealed.first_primary_press {
                    None => forall|i: int|
                        #![trigger sealed.events@[i]]
                        0 <= i < sealed.events@.len()
                            ==> !sealed.events@[i].event.presses_primary(),
                    Some(at) => exists|i: int|
                        #![trigger sealed.events@[i]]
                        {
                            &&& 0 <= i < sealed.events@.len()
                            &&& sealed.events@[i].event.presses_primary()
                            &&& at == sealed.events@[i].received_at
                            &&& forall|j: int|
                                #![trigger sealed.events@[j]]
                                0 <= j < i ==> !sealed.events@[j].event.presses_primary()
                        },
                }
                &&& final(self).frames == old(self).sealed_frames(now, sealed.pointer_samples)
                &&& final(self).input.pending@ == Seq::<StampedInputEvent>::empty()
                &&& final(self).input.next_sequence == old(self).input.next_sequence
                &&& final(self).trace == old(self).trace
                &&& final(self).interaction == old(self).interaction
                &&& final(self).stroke == old(self).stroke
                &&& final(self).eval == old(self).eval
                &&& final(self).waiting == old(self).waiting
                &&& final(self).reported_timing_frame == old(self).reported_timing_frame
            },
    {
        if !self.input.has_pending() {
            return None;
        }
        self.request_app_frame(FrameRequestReason::Input);
        let snapshot = self.input.seal();
        let count: usize = snapshot.len();
        let pointer_samples: usize = snapshot.pointer_sample_count();
        let first_primary_press = snapshot.first_primary_press_receipt();
        self.frames.begin(now, count, pointer_samples);
        self.frames.transition(FramePhase::SealingInput);
        self.frames.transition(FramePhase::ApplicationUpdate);
        let events = snapshot.into_events();
        let first_receipt = Some(events[0].received_at());
        let last_sequence: Option<u64> = Some(events[count - 1].sequence());
        Some(
            SealedInput {
                events,
                pointer_samples,
                first_primary_press,
                first_receipt,
                last_sequence,
            },
        )
    }

    /// The time since `receipt`.
    pub open spec fn since(receipt: Option<Instant>, now: Instant) -> Option<Duration> {
        match receipt {
            Some(at) => Some(Duration { nanos: now.nanos_since(at) as u128 }),
            None => None,
        }
    }

    /// The log once the events of `sealed` have been applied.
    pub open spec fn replay_log(
        self,
        sealed: SealedInput,
        now: Instant,
    ) -> crate::frame_trace::TraceLog {
        let identity = match self.frames.at_generation(self.generation()).active {
            Some(a) => Some(a.identity),
            None => None,
        };
        let applied = self.trace.log().with(
            identity,
            FrameTraceEvent::plain(
                now,
                FrameTraceEventKind::SnapshotSealed,
                identity->0,
                Some(FramePhase::SealingInput),
                None,
                None,
                None,
                Self::since(sealed.first_receipt, now),
            ),
        ).noted(
            now,
            FrameTraceEventKind::ToolUpdateComplete,
            identity,
            Some(FramePhase::ApplicationUpdate),
        );
        match sealed.first_primary_press {
            Some(_) => applied.with(
                identity,
                FrameTraceEvent::plain(
                    now,
                    FrameTraceEventKind::FollowUpPressSealed,
                    identity->0,
                    Some(FramePhase::ApplicationUpdate),
                    None,
                    None,
                    None,
                    Self::since(sealed.first_primary_press, now),
                ),
            ),
            None => applied,
        }
    }

    /// Closes the replay of `sealed`: the frame carries the generation that the
    /// events led to, the latency of a primary press starts at its receipt, and
    /// required work may begin. The result asks for a redraw.
    pub fn finish_input_frame(&mut self, sealed: &SealedInput, redraw: bool, now: Instant) -> (r:
        bool)
        requires
            old(self).wf(),
            old(self).frames.active matches Some(a) ==> a.phase.rank()
                <= FramePhase::RequiredInteractiveWork.rank(),
        ensures
            final(self).wf(),
            r == (redraw || sealed.events@.len() > 0),
            final(self).frames == old(self).frames.at_generation(old(self).generation()).moved_to(
                FramePhase::RequiredInteractiveWork,
            ),
            final(self).trace.log() == old(self).replay_log(*sealed, now),
            final(self).trace.pending_input_receipt == match sealed.first_primary_press {
                Some(at) => Some(PendingSample { at, generation: old(self).generation() }),
                None => old(self).trace.pending_input_receipt,
            },
            final(self).trace.same_samples(
                FrameTraceRecorder {
                    pending_input_receipt: final(self).trace.pending_input_receipt,
                    ..old(self).trace
                },
            ),
            Self::only_frames_and_trace_changed(*old(self), *final(self)),
    {
        let generation = EditGeneration::new(self.eval.core.eval_token);
        self.frames.update_generation(generation);
        let identity = self.frames.active_identity();
        let since_receipt = match sealed.first_receipt {
            Some(at) => Some(now.saturating_duration_since(at)),
            None => None,
        };
        self.trace.record(
            now,
            FrameTraceEventKind::SnapshotSealed,
            identity,
            Some(FramePhase::SealingInput),
            None,
            None,
            None,
            since_receipt,
        );
        self.trace.record(
            now,
            FrameTraceEventKind::ToolUpdateComplete,
            identity,
            Some(FramePhase::ApplicationUpdate),
            None,
            None,
            None,
            None,
        );
        if let Some(received_at) = sealed.first_primary_press {
            self.trace.note_input_receipt(received_at, generation);
            self.trace.record(
                now,
                FrameTraceEventKind::FollowUpPressSealed,
                identity,
                Some(FramePhase::ApplicationUpdate),
                None,
                None,
                None,
                Some(now.saturating_duration_since(received_at)),
            );
        }
        self.frames.transition(FramePhase::RequiredInteractiveWork);
        redraw || sealed.events.len() > 0
    }

    /// The context of an evaluation in a log line. Layer and project are those
    /// of the current edit, so they are left out of a line about an older one.
    pub open spec fn evaluation_line(
        self,
        token: u64,
        quality: PreviewQuality,
        layer_shown: Option<Seq<char>>,
        path_shown: Option<Seq<char>>,
    ) -> Seq<char> {
        let current = token == self.eval.core.eval_token;
        let operation = "operation="@ + "evaluation"@ + crate::logging::labelled(
            " token="@,
            Some(crate::text::decimal(token as nat)),
        ) + crate::logging::labelled(
            " quality="@,
            Some(crate::logging::quality_tag(quality)),
        ) + crate::logging::labelled(
            " layer="@,
            if current {
                layer_shown
            } else {
                None
            },
        ) + crate::logging::labelled(
            " project="@,
            if current {
                path_shown
            } else {
                None
            },
        );
        match self.frames.active {
            Some(active) => operation + "; logical_frame="@ + crate::text::decimal(
                active.identity.id.0 as nat,
            ) + "; edit_generation="@ + crate::text::decimal(active.identity.generation.0 as nat)
                + "; phase="@ + active.phase.name(),
            None => operation,
        }
    }

    /// The context of an evaluation in the log. Layer and project are named only
    /// for the evaluation at hand. `project_path` is the path as the host writes
    /// it in a log line.
    pub fn evaluation_log_context(
        &self,
        token: u64,
        quality: PreviewQuality,
        project_path: Option<&str>,
    ) -> (r: String)
        ensures
            r@ == self.evaluation_line(
                token,
                quality,
                match self.eval.texts.refining_layer_name {
                    Some(name) => Some(crate::logging::debug_text(name@)),
                    None => None,
                },
                match project_path {
                    Some(path) => Some(path@),
                    None => None,
                },
            ),
    {
        let current = token == self.eval.core.eval_token;
        let layer = if current {
            match &self.eval.texts.refining_layer_name {
                Some(name) => Some(name.as_str()),
                None => None,
            }
        } else {
            None
        };
        let path = if current {
            project_path
        } else {
            None
        };
        let mut text = OperationContext::evaluation(token, quality).with_layer(
            layer,
        ).with_project_path(path).text();
        if let Some(active) = self.frames.active {
            text.append("; logical_frame=");
            push_decimal(&mut text, active.identity.id.get());
            text.append("; edit_generation=");
            push_decimal(&mut text, active.identity.generation.get());
            text.append("; phase=");
            text.append(active.phase.label());
        }
        text
    }

    /// Something is known to wait for a frame.
    pub open spec fn known_work(self) -> bool {
        self.eval.core.pending_eval || self.eval.core.worker_refine_pending
            || self.eval.core.refinement_job is Some || self.eval.ui.refining
            || self.eval.deferred_full_field is Some || self.waiting.tile_uploads > 0
            || self.waiting.ui_effects > 0 || self.waiting.surface_resize is Some
            || self.frames.pending is Some
    }

    /// The reason of a frame that nobody asked for by name.
    pub open spec fn scheduled_reason(self) -> FrameRequestReason {
        if self.eval.core.pending_eval {
            FrameRequestReason::RequiredEvaluation
        } else if self.eval.core.refinement_job is Some || self.eval.ui.refining {
            FrameRequestReason::OptionalRefinement
        } else {
            FrameRequestReason::Animation
        }
    }

    /// Begins a frame for waiting work, unless input has begun one already.
    pub fn begin_scheduled_frame_if_needed(&mut self, now: Instant)
        requires
            old(self).frames.can_request(),
        ensures
            old(self).frames.active is Some || !old(self).known_work() ==> *final(self)
                == *old(self),
            old(self).frames.active is None && old(self).known_work() ==> {
                &&& final(self).frames == old(self).frames.requested(
                    old(self).generation(),
                    old(self).scheduled_reason(),
                ).begun(now, 0, 0).moved_to(FramePhase::RequiredInteractiveWork)
                &&& final(self).trace == old(self).trace
                &&& Self::only_frames_and_trace_changed(*old(self), *final(self))
            },
            old(self).wf() ==> final(self).wf(),
    {
        if self.frames.active_identity().is_some() {
            return;
        }
        let known_work = self.eval.core.pending_eval || self.eval.core.worker_refine_pending
            || self.eval.core.refinement_job.is_some() || self.eval.ui.refining
            || self.eval.deferred_full_field.is_some() || self.waiting.tile_uploads > 0
            || self.waiting.ui_effects > 0 || self.waiting.surface_resize.is_some()
            || self.frames.has_pending();
        if !known_work {
            return;
        }
        if !self.frames.has_pending() {
            let reason = if self.eval.core.pending_eval {
                FrameRequestReason::RequiredEvaluation
            } else if self.eval.core.refinement_job.is_some() || self.eval.ui.refining {
                FrameRequestReason::OptionalRefinement
            } else {
                FrameRequestReason::Animation
            };
            self.request_app_frame(reason);
        }
        self.frames.begin(now, 0, 0);
        self.frames.transition(FramePhase::RequiredInteractiveWork);
    }

    /// Carries what dabs asked for over to evaluation.
    pub fn absorb_stroke(&mut self)
        ensures
            final(self).eval.core == (EvalCore {
                force_draft: old(self).eval.core.force_draft || old(self).stroke.force_draft,
                preview_dirty: old(self).eval.core.preview_dirty || old(self).stroke.preview_dirty,
                ..old(self).eval.core
            }),
            EvalState::only_core_changed(old(self).eval, final(self).eval),
            final(self).stroke == (StrokeState {
                force_draft: false,
                preview_dirty: false,
                ..old(self).stroke
            }),
            final(self).frames == old(self).frames,
            final(self).trace == old(self).trace,
            final(self).input == old(self).input,
            final(self).interaction == old(self).interaction,
            final(self).waiting == old(self).waiting,
            final(self).reported_timing_frame == old(self).reported_timing_frame,
    {
        self.eval.core = EvalCore {
            force_draft: self.eval.core.force_draft || self.stroke.force_draft,
            preview_dirty: self.eval.core.preview_dirty || self.stroke.preview_dirty,
            ..self.eval.core
        };
        self.stroke = StrokeState { force_draft: false, preview_dirty: false, ..self.stroke };
    }

    /// Finishes a shape stroke after its release. Release is bounded to closing
    /// the state and asking for work; the final Draft is left to the
    /// required-work phase.
    pub fn finish_stroke(&mut self, now: Instant) -> (r: Vec<InputEffect>)
        ensures
            !old(self).stroke.sculpt_stroke_active ==> {
                &&& r@ == Seq::<InputEffect>::empty()
                &&& *final(self) == *old(self)
            },
            old(self).stroke.sculpt_stroke_active ==> {
                &&& r@ == seq![
                    InputEffect::AnnotateShapeStroke,
                    InputEffect::MarkShapeDependentsOutdated,
                    InputEffect::CommitShapeAtFull,
                    InputEffect::DelayRefinement,
                ]
                &&& final(self).stroke == (StrokeState {
                    sculpt_stroke_active: false,
                    ..old(self).stroke
                })
                &&& final(self).eval.core == (EvalCore {
                    force_draft: old(self).eval.core.force_draft
                        || old(self).eval.core.pending_eval,
                    ..old(self).eval.core
                })
                &&& EvalState::only_core_changed(old(self).eval, final(self).eval)
                &&& final(self).trace.pending_release == Some(
                    PendingSample { at: now, generation: old(self).generation() },
                )
                &&& final(self).trace.log() == old(self).trace.log().noted(
                    now,
                    FrameTraceEventKind::StrokeRelease,
                    match old(self).frames.active {
                        Some(a) => Some(a.identity),
                        None => None,
                    },
                    Self::current_phase(old(self).frames),
                )
                &&& final(self).trace.same_samples(
                    FrameTraceRecorder {
                        pending_release: final(self).trace.pending_release,
                        ..old(self).trace
                    },
                )
                &&& final(self).frames == old(self).frames
                &&& final(self).input == old(self).input
                &&& final(self).interaction == old(self).interaction
                &&& final(self).waiting == old(self).waiting
                &&& final(self).reported_timing_frame == old(self).reported_timing_frame
            },
            old(self).wf() ==> final(self).wf(),
    {
        let mut effects: Vec<InputEffect> = Vec::new();
        if !self.stroke.sculpt_stroke_active {
            return effects;
        }
        effects.push(InputEffect::AnnotateShapeStroke);
        effects.push(InputEffect::MarkShapeDependentsOutdated);
        effects.push(InputEffect::CommitShapeAtFull);
        effects.push(InputEffect::DelayRefinement);
        self.stroke = StrokeState { sculpt_stroke_active: false, ..self.stroke };
        self.eval.core = EvalCore {
            force_draft: self.eval.core.force_draft || self.eval.core.pending_eval,
            ..self.eval.core
        };
        let generation = EditGeneration::new(self.eval.core.eval_token);
        self.trace.note_release(now, generation);
        let identity = self.frames.active_identity();
        let phase = self.frames.active_phase();
        self.trace.record(
            now,
            FrameTraceEventKind::StrokeRelease,
            identity,
            phase,
            None,
            None,
            None,
            None,
        );
        effects
    }

    /// The effects of a shutdown: the worker learns that its token is over, and
    /// a refinement in progress is handed back.
    pub open spec fn shutdown_effects(self) -> Seq<EvalEffect> {
        seq![
            EvalEffect::SetWorkerToken(
                vstd::wrapping::u64_specs::wrapping_add(self.eval.core.eval_token, 1),
            ),
        ] + crate::eval::superseding(self.eval.core.refinement_job)
    }

    /// Drops everything that waits, so that nothing runs after the loop ends.
    pub fn prepare_shutdown(&mut self, now: Instant) -> (r: Vec<EvalEffect>)
        ensures
            r@ == old(self).shutdown_effects(),
            final(self).eval.core == (EvalCore {
                eval_token: vstd::wrapping::u64_specs::wrapping_add(
                    old(self).eval.core.eval_token,
                    1,
                ),
                refinement_job: None,
                worker_refine_pending: false,
                pending_eval: false,
                pending_eval_immediate: false,
                ..old(self).eval.core
            }),
            final(self).eval.deferred_full_field is None,
            final(self).eval.ui == old(self).eval.ui,
            final(self).eval.texts == old(self).eval.texts,
            final(self).eval.pending_plan_edits == old(self).eval.pending_plan_edits,
            final(self).waiting == WaitingWork::nothing(),
            final(self).input.pending@ == Seq::<StampedInputEvent>::empty(),
            final(self).input.next_sequence == old(self).input.next_sequence,
            final(self).frames == (LogicalFrameCoordinator {
                pending: None,
                active: None,
                presentation_pending_for: None,
                ..old(self).frames
            }),
            final(self).trace.log() == if old(self).frames.active is Some {
                old(self).trace.log().noted(
                    now,
                    FrameTraceEventKind::FrameAborted,
                    Self::current_identity(old(self).frames),
                    Self::current_phase(old(self).frames),
                )
            } else {
                old(self).trace.log()
            },
            final(self).trace.same_samples(old(self).trace),
            final(self).interaction == old(self).interaction,
            final(self).stroke == old(self).stroke,
            final(self).reported_timing_frame == old(self).reported_timing_frame,
            old(self).wf() ==> final(self).wf(),
    {
        if self.frames.active_identity().is_some() {
            self.record_frame_event(FrameTraceEventKind::FrameAborted, now);
        }
        let mut effects: Vec<EvalEffect> = Vec::new();
        let token: u64 = self.eval.core.eval_token.wrapping_add(1);
        effects.push(EvalEffect::SetWorkerToken(token));
        if let Some(effect) = self.eval.supersede_gpu_refinement() {
            effects.push(effect);
        }
        self.eval.core = EvalCore {
            eval_token: token,
            worker_refine_pending: false,
            pending_eval: false,
            pending_eval_immediate: false,
            ..self.eval.core
        };
        self.eval.deferred_full_field = None;
        self.waiting = WaitingWork::none();
        self.input.clear();
        self.frames.clear_presentation();
        self.frames.abort();
        assert(effects@ =~= old(self).shutdown_effects());
        effects
    }
}

/// What the window system reports.
#[derive(Debug, Clone, Copy, PartialEq, Eq, Structural)]
pub enum WindowSignal {
    CloseRequested,
    KeyboardInput { code: Option<KeyCode>, state: ElementState },
    ModifiersChanged(InputModifiers),
    MouseInput { state: ElementState, button: MouseButton },
    CursorMoved { x_bits: u64, y_bits: u64 },
    MouseWheel { delta_bits: u32 },
    Focused(bool),
    CursorEntered,
    CursorLeft,
    Resized(SurfaceSize),
    RedrawRequested,
    Other,
}

impl WindowSignal {
    /// The input events that the signal stands for, in order. Losing focus or
    /// the cursor also cancels the gesture in progress.
    pub open spec fn input_events(self) -> Seq<InputEvent> {
        match self {
            WindowSignal::KeyboardInput { code, state } => seq![
                InputEvent::Keyboard { code, state },
            ],
            WindowSignal::ModifiersChanged(modifiers) => seq![InputEvent::Modifiers(modifiers)],
            WindowSignal::MouseInput { state, button } => seq![
                InputEvent::PointerButton { state, button },
            ],
            WindowSignal::CursorMoved { x_bits, y_bits } => seq![
                InputEvent::PointerMoved { x_bits, y_bits },
            ],
            WindowSignal::MouseWheel { delta_bits } => seq![InputEvent::Wheel { delta_bits }],
            WindowSignal::Focused(true) => seq![InputEvent::Focused(true)],
            WindowSignal::Focused(false) => seq![
                InputEvent::Focused(false),
                InputEvent::PointerCancelled(PointerCancelReason::FocusLost),
            ],
            WindowSignal::CursorEntered => seq![InputEvent::CursorEntered],
            WindowSignal::CursorLeft => seq![
                InputEvent::CursorLeft,
                InputEvent::PointerCancelled(PointerCancelReason::CaptureLost),
            ],
            WindowSignal::CloseRequested | WindowSignal::Resized(_)
            | WindowSignal::RedrawRequested | WindowSignal::Other => seq![],
        }
    }

    /// A key, a button or a close request acknowledges the failure splash.
    pub open spec fn acknowledges(self) -> bool {
        self is CloseRequested || self is KeyboardInput || self is MouseInput
    }

    fn acknowledges_failure(self) -> (r: bool)
        ensures
            r == self.acknowledges(),
    {
        match self {
            WindowSignal::CloseRequested => true,
            WindowSignal::KeyboardInput { .. } => true,
            WindowSignal::MouseInput { .. } => true,
            _ => false,
        }
    }

    fn as_input(self) -> (r: (Option<InputEvent>, Option<InputEvent>))
        ensures
            self.input_events() == match r {
                (None, _) => Seq::<InputEvent>::empty(),
                (Some(first), None) => seq![first],
                (Some(first), Some(second)) => seq![first, second],
            },
    {
        match self {
            WindowSignal::KeyboardInput { code, state } => (
                Some(InputEvent::Keyboard { code, state }),
                None,
            ),
            WindowSignal::ModifiersChanged(modifiers) => (
                Some(InputEvent::Modifiers(modifiers)),
                None,
            ),
            WindowSignal::MouseInput { state, button } => (
                Some(InputEvent::PointerButton { state, button }),
                None,
            ),
            WindowSignal::CursorMoved { x_bits, y_bits } => (
                Some(InputEvent::PointerMoved { x_bits, y_bits }),
                None,
            ),
            WindowSignal::MouseWheel { delta_bits } => (
                Some(InputEvent::Wheel { delta_bits }),
                None,
            ),
            WindowSignal::Focused(focused) => if focused {
                (Some(InputEvent::Focused(true)), None)
            } else {
                (
                    Some(InputEvent::Focused(false)),
                    Some(InputEvent::PointerCancelled(PointerCancelReason::FocusLost)),
                )
            },
            WindowSignal::CursorEntered => (Some(InputEvent::CursorEntered), None),
            WindowSignal::CursorLeft => (
                Some(InputEvent::CursorLeft),
                Some(InputEvent::PointerCancelled(PointerCancelReason::CaptureLost)),
            ),
            WindowSignal::CloseRequested | WindowSignal::Resized(_)
            | WindowSignal::RedrawRequested | WindowSignal::Other => (None, None),
        }
    }
}

/// How far start-up has come when a signal arrives.
#[derive(Debug, Clone, Copy, PartialEq, Eq, Structural)]
pub enum BootStanding {
    /// A failure is stored and the loop is about to end.
    Failed,
    /// The failure splash is on screen and waits to be acknowledged.
    FailureShown,
    /// Still booting, or running.
    Alive,
}

/// What came of a window signal.
#[derive(Debug, Clone, Copy, PartialEq, Eq, Structural)]
pub enum WindowStep {
    /// Nothing; stragglers must not reach an editor without a renderer.
    Swallowed,
    /// The failure was acknowledged: store it and end the loop.
    AcknowledgeFailure,
    /// Input was captured. The effect, if there is one, is to be performed.
    Captured(Option<EvalEffect>),
    ShutdownRequested,
    ResizeCaptured,
    /// Draw and present now, for this frame if it asked for it.
    Redraw(Option<FrameIdentity>),
    Unhandled,
}

/// Events stamped one after the other from `first` on.
pub open spec fn stamped(events: Seq<InputEvent>, first: int, now: Instant) -> Seq<
    StampedInputEvent,
> {
    Seq::new(
        events.len(),
        |i: int|
            StampedInputEvent { sequence: (first + i) as u64, received_at: now, event: events[i] },
    )
}

impl Runtime {
    /// The events were captured one after the other.
    pub open spec fn captured_all(
        before: Runtime,
        after: Runtime,
        events: Seq<InputEvent>,
        now: Instant,
    ) -> bool
        decreases events.len(),
    {
        if events.len() == 0 {
            after == before
        } else {
            exists|between: Runtime|
                #![trigger Self::captured(between, after, events.last(), now)]
                Self::captured_all(before, between, events.drop_last(), now) && Self::captured(
                    between,
                    after,
                    events.last(),
                    now,
                )
        }
    }

    proof fn capturing_one_more(
        before: Runtime,
        between: Runtime,
        after: Runtime,
        events: Seq<InputEvent>,
        event: InputEvent,
        now: Instant,
    )
        requires
            Self::captured_all(before, between, events, now),
            Self::captured(between, after, event, now),
        ensures
            Self::captured_all(before, after, events.push(event), now),
    {
        assert(events.push(event).drop_last() =~= events);
        assert(Self::captured(between, after, events.push(event).last(), now));
    }

    /// Takes in a window signal. Input is only captured; it is applied from the
    /// next snapshot.
    pub fn window_event(
        &mut self,
        signal: WindowSignal,
        standing: BootStanding,
        now: Instant,
        grace: Duration,
    ) -> (r: WindowStep)
        requires
            old(self).wf(),
            old(self).input.next_sequence + 2 <= u64::MAX,
            old(self).frames.can_request(),
        ensures
            final(self).wf(),
            standing == BootStanding::Failed ==> {
                &&& r == WindowStep::Swallowed
                &&& *final(self) == *old(self)
            },
            standing == BootStanding::FailureShown ==> {
                &&& r == if signal.acknowledges() {
                    WindowStep::AcknowledgeFailure
                } else {
                    WindowStep::Swallowed
                }
                &&& *final(self) == *old(self)
            },
            standing == BootStanding::Alive && signal.input_events().len() > 0 ==> {
                &&& r is Captured
                &&& final(self).input.pending@ == old(self).input.pending@ + stamped(
                    signal.input_events(),
                    old(self).input.next_sequence + 1,
                    now,
                )
                &&& final(self).input.next_sequence == old(self).input.next_sequence
                    + signal.input_events().len()
                &&& final(self).frames == old(self).frames.requested(
                    old(self).generation(),
                    FrameRequestReason::Input,
                )
                &&& r == WindowStep::Captured(
                    if signal.input_events()[0].edges_primary() {
                        Some(
                            EvalEffect::ScheduleDeadline {
                                kind: FrameDeadlineKind::OptionalRefinement,
                                generation: old(self).generation(),
                                after: grace,
                            },
                        )
                    } else {
                        None
                    },
                )
                &&& Self::captured_all(*old(self), *final(self), signal.input_events(), now)
            },
            standing == BootStanding::Alive && signal == WindowSignal::CloseRequested ==> {
                &&& r == WindowStep::ShutdownRequested
                &&& final(self).frames == (LogicalFrameCoordinator {
                    shutdown: true,
                    ..old(self).frames.requested(
                        old(self).generation(),
                        FrameRequestReason::ScheduledWork,
                    )
                })
                &&& final(self).trace.log() == old(self).trace.log().noted(
                    now,
                    FrameTraceEventKind::ShutdownRequested,
                    Self::current_identity(final(self).frames),
                    Self::current_phase(old(self).frames),
                )
                &&& final(self).trace.same_samples(old(self).trace)
                &&& Self::only_frames_and_trace_changed(*old(self), *final(self))
            },
            standing == BootStanding::Alive ==> (signal matches WindowSignal::Resized(size) ==> {
                &&& r == WindowStep::ResizeCaptured
                &&& final(self).waiting == (WaitingWork {
                    surface_resize: Some(size),
                    ..old(self).waiting
                })
                &&& final(self).frames == old(self).frames.requested(
                    old(self).generation(),
                    FrameRequestReason::Resize,
                )
                &&& final(self).trace.log() == old(self).trace.log().noted(
                    now,
                    FrameTraceEventKind::ResizeCaptured,
                    Self::current_identity(final(self).frames),
                    Self::current_phase(old(self).frames),
                )
                &&& final(self).trace.same_samples(old(self).trace)
                &&& final(self).input == old(self).input
                &&& final(self).interaction == old(self).interaction
                &&& final(self).stroke == old(self).stroke
                &&& final(self).eval == old(self).eval
                &&& final(self).reported_timing_frame == old(self).reported_timing_frame
            }),
            standing == BootStanding::Alive && signal == WindowSignal::RedrawRequested ==> {
                &&& r == WindowStep::Redraw(old(self).frames.presentation_pending_for)
                &&& final(self).frames == (LogicalFrameCoordinator {
                    presentation_pending_for: None,
                    ..old(self).frames
                })
                &&& final(self).trace == old(self).trace
                &&& Self::only_frames_and_trace_changed(*old(self), *final(self))
            },
            standing == BootStanding::Alive && signal == WindowSignal::Other ==> {
                &&& r == WindowStep::Unhandled
                &&& *final(self) == *old(self)
            },
    {
        match standing {
            BootStanding::Failed => {
                return WindowStep::Swallowed;
            },
            BootStanding::FailureShown => {
                if signal.acknowledges_failure() {
                    return WindowStep::AcknowledgeFailure;
                }
                return WindowStep::Swallowed;
            },
            BootStanding::Alive => {},
        }
        if let (Some(first), second) = signal.as_input() {
            let ghost start = *self;
            let effect = self.queue_input(first, now, grace);
            let ghost between = *self;
            proof {
                Self::capturing_one_more(start, start, between, seq![], first, now);
                assert(Seq::<InputEvent>::empty().push(first) =~= seq![first]);
            }
            if let Some(second) = second {
                self.queue_input(second, now, grace);
                proof {
                    Self::capturing_one_more(start, between, *self, seq![first], second, now);
                    assert(seq![first].push(second) =~= seq![first, second]);
                }
            }
            assert(self.input.pending@ =~= old(self).input.pending@ + stamped(
                signal.input_events(),
                old(self).input.next_sequence + 1,
                now,
            ));
            return WindowStep::Captured(effect);
        }
        match signal {
            WindowSignal::CloseRequested => {
                self.request_shutdown(FrameTraceEventKind::ShutdownRequested, now);
                WindowStep::ShutdownRequested
            },
            WindowSignal::Resized(size) => {
                self.capture_surface_resize(size, now);
                WindowStep::ResizeCaptured
            },
            WindowSignal::RedrawRequested => {
                let identity = self.frames.take_presentation_identity();
                WindowStep::Redraw(identity)
            },
            _ => WindowStep::Unhandled,
        }
    }
}

/// What the renderer stamps on the frame that it presents.
#[derive(Debug, Clone, Copy, PartialEq, Eq, Structural)]
pub struct PresentationContext {
    pub frame_id: u64,
    pub generation: u64,
    pub evaluation_id: u64,
}

/// GPU time of a presented frame, by pass.
#[derive(Debug, Clone, Copy, PartialEq, Eq, Structural)]
pub struct PresentationTimings {
    pub source_frame: u64,
    pub context: PresentationContext,
    pub terrain_us: u64,
    pub shadow_us: u64,
    pub path_trace_us: u64,
    pub temporal_us: u64,
    pub denoise_us: u64,
}

impl PresentationTimings {
    /// The time of all passes together, capped at the largest number.
    pub open spec fn total(self) -> int {
        let sum = self.terrain_us + self.shadow_us + self.path_trace_us + self.temporal_us
            + self.denoise_us;
        if sum <= u64::MAX {
            sum
        } else {
            u64::MAX as int
        }
    }

    pub fn gpu_us(&self) -> (r: u64)
        ensures
            r == self.total(),
    {
        self.terrain_us.saturating_add(self.shadow_us).saturating_add(
            self.path_trace_us,
        ).saturating_add(self.temporal_us).saturating_add(self.denoise_us)
    }
}

/// Latencies as the profiler shows them.
#[derive(Debug, Clone, Copy, PartialEq, Eq, Structural)]
pub struct PresentationSummary {
    pub input_visible: LatencySummary,
    pub refinement: LatencySummary,
    pub follow_up_press: LatencySummary,
}

/// GPU time of a finished evaluation.
#[derive(Debug, Clone, Copy, PartialEq, Eq, Structural)]
pub struct EvaluationTiming {
    pub context: PresentationContext,
    pub gpu_us: u64,
}

/// A frame of the past, as a trace record names it.
pub open spec fn past_frame(context: PresentationContext) -> FrameIdentity {
    FrameIdentity {
        id: LogicalFrameId(context.frame_id),
        generation_at_start: EditGeneration(context.generation),
        generation: EditGeneration(context.generation),
    }
}

fn identity_of(context: PresentationContext) -> (r: FrameIdentity)
    ensures
        r == past_frame(context),
{
    FrameIdentity {
        id: LogicalFrameId::new(context.frame_id),
        generation_at_start: EditGeneration::new(context.generation),
        generation: EditGeneration::new(context.generation),
    }
}

/// The record that the GPU finished something for a frame of the past.
pub open spec fn resolved_record(
    kind: FrameTraceEventKind,
    context: PresentationContext,
    gpu_us: u64,
    now: Instant,
) -> FrameTraceEvent {
    FrameTraceEvent::plain(
        now,
        kind,
        past_frame(context),
        None,
        Some(EvaluationTraceId(context.evaluation_id)),
        None,
        None,
        Some(Duration { nanos: (gpu_us * 1_000) as u128 }),
    )
}

impl Runtime {
    fn record_resolved(
        &mut self,
        kind: FrameTraceEventKind,
        context: PresentationContext,
        gpu_us: u64,
        now: Instant,
    )
        ensures
            final(self).trace.log() == old(self).trace.log().with(
                Some(past_frame(context)),
                resolved_record(kind, context, gpu_us, now),
            ),
            final(self).trace.same_samples(old(self).trace),
            final(self).frames == old(self).frames,
            Self::only_frames_and_trace_changed(*old(self), *final(self)),
            old(self).wf() ==> final(self).wf(),
    {
        self.trace.record(
            now,
            kind,
            Some(identity_of(context)),
            None,
            Some(EvaluationTraceId::new(context.evaluation_id)),
            None,
            None,
            Some(Duration::from_micros(gpu_us)),
        );
    }

    /// Records that the GPU finished an evaluation.
    pub fn evaluation_resolved(&mut self, timing: EvaluationTiming, now: Instant)
        ensures
            final(self).trace.log() == old(self).trace.log().with(
                Some(past_frame(timing.context)),
                resolved_record(
                    FrameTraceEventKind::GpuEvaluationResolved,
                    timing.context,
                    timing.gpu_us,
                    now,
                ),
            ),
            final(self).trace.same_samples(old(self).trace),
            final(self).frames == old(self).frames,
            Self::only_frames_and_trace_changed(*old(self), *final(self)),
            old(self).wf() ==> final(self).wf(),
    {
        self.record_resolved(
            FrameTraceEventKind::GpuEvaluationResolved,
            timing.context,
            timing.gpu_us,
            now,
        );
    }

    /// What a presentation for `identity` is stamped with: the frame that asked
    /// for it and the last complete terrain that it shows.
    pub fn presentation_context(&self, identity: Option<FrameIdentity>) -> (r: Option<
        PresentationContext,
    >)
        ensures
            r == match identity {
                Some(identity) => Some(
                    PresentationContext {
                        frame_id: identity.id.0,
                        generation: self.eval.core.last_complete_generation.0,
                        evaluation_id: self.eval.core.last_accepted_evaluation_id,
                    },
                ),
                None => None,
            },
    {
        match identity {
            Some(identity) => Some(
                PresentationContext {
                    frame_id: identity.id.get(),
                    generation: self.eval.core.last_complete_generation.get(),
                    evaluation_id: self.eval.core.last_accepted_evaluation_id,
                },
            ),
            None => None,
        }
    }

    /// Takes in the renderer's latest timing. Each frame is reported once, and
    /// a frame that no logical frame asked for is not traced.
    pub fn presentation_resolved(&mut self, timings: PresentationTimings, now: Instant)
        ensures
            final(self).reported_timing_frame == if timings.source_frame > old(
                self,
            ).reported_timing_frame {
                timings.source_frame
            } else {
                old(self).reported_timing_frame
            },
            final(self).trace.log() == if timings.source_frame > old(self).reported_timing_frame
                && timings.context.frame_id != 0 {
                old(self).trace.log().with(
                    Some(past_frame(timings.context)),
                    resolved_record(
                        FrameTraceEventKind::GpuPresentationResolved,
                        timings.context,
                        timings.total() as u64,
                        now,
                    ),
                )
            } else {
                old(self).trace.log()
            },
            final(self).trace.same_samples(old(self).trace),
            final(self).frames == old(self).frames,
            final(self).input == old(self).input,
            final(self).interaction == old(self).interaction,
            final(self).stroke == old(self).stroke,
            final(self).eval == old(self).eval,
            final(self).waiting == old(self).waiting,
            old(self).wf() ==> final(self).wf(),
    {
        if timings.source_frame > self.reported_timing_frame {
            self.reported_timing_frame = timings.source_frame;
            if timings.context.frame_id != 0 {
                let gpu_us: u64 = timings.gpu_us();
                self.record_resolved(
                    FrameTraceEventKind::GpuPresentationResolved,
                    timings.context,
                    gpu_us,
                    now,
                );
            }
        }
    }

    /// A presentation for `identity` reached the screen: the latencies that
    /// waited for the shown generation close, and the summaries come back.
    pub fn surface_presented(&mut self, identity: FrameIdentity, now: Instant) -> (r:
        PresentationSummary)
        requires
            old(self).wf(),
        ensures
            final(self).wf(),
            ({
                let shown = old(self).eval.core.last_complete_generation;
                &&& final(self).trace.pending_input_receipt == FrameTraceRecorder::left_by(
                    old(self).trace.pending_input_receipt,
                    shown,
                )
                &&& final(self).trace.pending_release == FrameTraceRecorder::left_by(
                    old(self).trace.pending_release,
                    shown,
                )
                &&& final(self).trace.input_to_visible_us@ == FrameTraceRecorder::closed_by(
                    old(self).trace.input_to_visible_us@,
                    old(self).trace.pending_input_receipt,
                    now,
                    shown,
                )
                &&& final(self).trace.refinement_us@ == FrameTraceRecorder::closed_by(
                    old(self).trace.refinement_us@,
                    old(self).trace.pending_release,
                    now,
                    shown,
                )
                &&& final(self).trace.release_to_follow_up_press_us == old(
                    self,
                ).trace.release_to_follow_up_press_us
                &&& final(self).trace.next_evaluation == old(self).trace.next_evaluation
                &&& final(self).trace.verbose == old(self).trace.verbose
                &&& final(self).trace.log() == old(self).trace.log().with(
                    Some(identity),
                    FrameTraceEvent::plain(
                        now,
                        FrameTraceEventKind::SurfacePresented,
                        identity,
                        Some(FramePhase::PresentationRequest),
                        None,
                        Some(old(self).eval.core.scheduler_quality),
                        None,
                        None,
                    ),
                )
            }),
            FrameTraceRecorder::summarizes(
                r.input_visible,
                final(self).trace.input_to_visible_us@,
            ),
            FrameTraceRecorder::summarizes(r.refinement, final(self).trace.refinement_us@),
            FrameTraceRecorder::summarizes(
                r.follow_up_press,
                final(self).trace.release_to_follow_up_press_us@,
            ),
            final(self).frames == old(self).frames,
            Self::only_frames_and_trace_changed(*old(self), *final(self)),
    {
        let shown = self.eval.core.last_complete_generation;
        self.trace.note_surface_presented(now, shown);
        let summary = PresentationSummary {
            input_visible: self.trace.input_to_visible_summary(),
            refinement: self.trace.refinement_summary(),
            follow_up_press: self.trace.follow_up_press_summary(),
        };
        let quality = self.eval.core.scheduler_quality;
        self.trace.record(
            now,
            FrameTraceEventKind::SurfacePresented,
            Some(identity),
            Some(FramePhase::PresentationRequest),
            None,
            Some(quality),
            None,
            None,
        );
        summary
    }
}

/// Window callbacks only capture: whatever run of input they deliver, the
/// events are appended in order under consecutive numbers, at most one frame is
/// asked for, and neither tools nor evaluation move.
pub proof fn capturing_applies_nothing(
    before: Runtime,
    after: Runtime,
    events: Seq<InputEvent>,
    now: Instant,
)
    requires
        Runtime::captured_all(before, after, events, now),
        before.input.next_sequence + events.len() <= u64::MAX,
    ensures
        after.input.pending@ == before.input.pending@ + stamped(
            events,
            before.input.next_sequence + 1,
            now,
        ),
        after.input.next_sequence == before.input.next_sequence + events.len(),
        after.interaction == before.interaction,
        after.stroke == before.stroke,
        after.eval == before.eval,
        after.waiting == before.waiting,
        events.len() > 0 ==> after.frames == before.frames.requested(
            before.generation(),
            FrameRequestReason::Input,
        ),
    decreases events.len(),
{
    if events.len() == 0 {
        assert(after.input.pending@ =~= before.input.pending@ + stamped(
            events,
            before.input.next_sequence + 1,
            now,
        ));
    } else {
        let between = choose|between: Runtime|
            #![trigger Runtime::captured(between, after, events.last(), now)]
            Runtime::captured_all(before, between, events.drop_last(), now) && Runtime::captured(
                between,
                after,
                events.last(),
                now,
            );
        capturing_applies_nothing(before, between, events.drop_last(), now);
        assert(after.input.pending@ =~= before.input.pending@ + stamped(
            events,
            before.input.next_sequence + 1,
            now,
        ));
    }
}

/// Events that come in while a sealed frame is worked on belong to a later
/// frame.
pub proof fn late_events_own_a_follow_up_frame(runtime: Runtime, now: Instant, samples: usize)
    requires
        runtime.wf(),
        runtime.frames.next_id < u64::MAX - 1,
    ensures
        ({
            let sealed = runtime.sealed_frames(now, samples);
            let late = sealed.requested(runtime.generation(), FrameRequestReason::Input);
            &&& sealed.active matches Some(a)
            &&& late.active == sealed.active
            &&& late.pending matches Some(p)
            &&& a.identity.id.0 < p.id.0
        }),
{
}

/// Losing focus or the cursor cancels the gesture in progress, and it does so
/// right after the loss itself.
pub proof fn losing_the_pointer_cancels_the_gesture(signal: WindowSignal)
    requires
        signal == WindowSignal::Focused(false) || signal == WindowSignal::CursorLeft,
    ensures
        signal.input_events().len() == 2,
        signal.input_events()[1] is PointerCancelled,
{
}

/// A signal of the window stands for the input it names, with what it carries; a
/// close request, a new size and a redraw stand for none.
pub proof fn signals_stand_for_their_input(signal: WindowSignal)
    ensures
        signal matches WindowSignal::KeyboardInput { code, state } ==> signal.input_events() == seq![
            InputEvent::Keyboard { code, state },
        ],
        signal matches WindowSignal::ModifiersChanged(modifiers) ==> signal.input_events() == seq![
            InputEvent::Modifiers(modifiers),
        ],
        signal matches WindowSignal::MouseInput { state, button } ==> signal.input_events() == seq![
            InputEvent::PointerButton { state, button },
        ],
        signal matches WindowSignal::CursorMoved { x_bits, y_bits } ==> signal.input_events()
            == seq![InputEvent::PointerMoved { x_bits, y_bits }],
        signal matches WindowSignal::MouseWheel { delta_bits } ==> signal.input_events() == seq![
            InputEvent::Wheel { delta_bits },
        ],
        signal matches WindowSignal::Focused(focused) ==> signal.input_events()[0]
            == InputEvent::Focused(focused) && (focused ==> signal.input_events().len() == 1),
        signal is CursorLeft ==> signal.input_events()[0] is CursorLeft,
        signal is CursorEntered ==> signal.input_events() == seq![InputEvent::CursorEntered],
        signal is CloseRequested || signal is Resized || signal is RedrawRequested || signal
            is Other ==> signal.input_events().len() == 0,
{
}

/// While the editor is alive input is captured, a close request asks for the
/// shutdown, a new size waits for the next frame and a redraw takes the presentation
/// that was asked for. Behind a failure nothing reaches the editor, and a shown one
/// is acknowledged by a key, a button or a close request.
pub proof fn signals_do_what_they_stand_for(
    runtime: &mut Runtime,
    signal: WindowSignal,
    standing: BootStanding,
    now: Instant,
    grace: Duration,
    step: WindowStep,
)
    requires
        old(runtime).wf(),
        old(runtime).input.next_sequence + 2 <= u64::MAX,
        old(runtime).frames.can_request(),
        call_ensures(Runtime::window_event, (runtime, signal, standing, now, grace), step),
    ensures
        standing is Failed ==> step is Swallowed,
        standing is FailureShown && (signal is CloseRequested || signal is KeyboardInput || signal
            is MouseInput) ==> step is AcknowledgeFailure,
        standing is FailureShown && !(signal is CloseRequested) && !(signal is KeyboardInput) && !(
        signal is MouseInput) ==> step is Swallowed,
        !(standing is Alive) ==> *final(runtime) == *old(runtime),
        standing is Alive && signal is CloseRequested ==> step is ShutdownRequested && final(runtime).frames.shutdown && final(runtime).frames.pending is Some,
        standing is Alive ==> (signal matches WindowSignal::Resized(size) ==> step is ResizeCaptured
            && final(runtime).waiting.surface_resize == Some(size) && final(runtime).frames.pending
            is Some),
        standing is Alive && signal is RedrawRequested ==> step == WindowStep::Redraw(
            old(runtime).frames.presentation_pending_for,
        ) && final(runtime).frames.presentation_pending_for is None,
        standing is Alive && signal is Other ==> step is Unhandled && *final(runtime) == *old(runtime),
        standing is Alive ==> (signal matches WindowSignal::MouseInput { state, button } ==> {
            &&& step is Captured
            &&& final(runtime).input.pending@.last().event == (InputEvent::PointerButton {
                state,
                button,
            })
            &&& final(runtime).input.pending@.last().received_at == now
            &&& final(runtime).input.pending@.len() == old(runtime).input.pending@.len() + 1
            &&& final(runtime).frames.pending is Some
            &&& button is Left ==> step == WindowStep::Captured(
                Some(
                    EvalEffect::ScheduleDeadline {
                        kind: FrameDeadlineKind::OptionalRefinement,
                        generation: EditGeneration(old(runtime).eval.core.eval_token),
                        after: grace,
                    },
                ),
            )
            &&& !(button is Left) ==> step == WindowStep::Captured(None)
        }),
        final(runtime).eval.core == old(runtime).eval.core,
        final(runtime).interaction == old(runtime).interaction,
{
    if standing is Alive && signal.input_events().len() > 0 {
        capturing_applies_nothing(*old(runtime), *final(runtime), signal.input_events(), now);
    }
}

/// Whatever waits is known to wait: a pending evaluation, work of the worker or of a
/// refinement, a suffix, queued uploads or effects, a new size, a frame that was
/// asked for. Where none of these waits, nothing is known.
pub proof fn whatever_waits_is_known(runtime: Runtime)
    ensures
        runtime.eval.core.pending_eval || runtime.eval.core.worker_refine_pending
            || runtime.eval.core.refinement_job is Some || runtime.eval.ui.refining
            ==> runtime.known_work(),
        runtime.eval.deferred_full_field is Some || runtime.waiting.tile_uploads > 0
            || runtime.waiting.ui_effects > 0 || runtime.waiting.surface_resize is Some
            || runtime.frames.pending is Some ==> runtime.known_work(),
        !runtime.eval.core.pending_eval && !runtime.eval.core.worker_refine_pending
            && runtime.eval.core.refinement_job is None && !runtime.eval.ui.refining
            && runtime.eval.deferred_full_field is None && runtime.waiting.tile_uploads == 0
            && runtime.waiting.ui_effects == 0 && runtime.waiting.surface_resize is None
            && runtime.frames.pending is None ==> !runtime.known_work(),
        runtime.eval.core.pending_eval ==> runtime.scheduled_reason() is RequiredEvaluation,
        !runtime.eval.core.pending_eval && (runtime.eval.core.refinement_job is Some
            || runtime.eval.ui.refining) ==> runtime.scheduled_reason() is OptionalRefinement,
        !runtime.eval.core.pending_eval && runtime.eval.core.refinement_job is None
            && !runtime.eval.ui.refining ==> runtime.scheduled_reason() is Animation,
{
}

/// Waiting work begins a frame unless one is worked on already, and that frame is
/// ready for required work. Without waiting work none begins.
pub proof fn waiting_work_begins_a_frame(runtime: &mut Runtime, now: Instant)
    requires
        old(runtime).frames.can_request(),
        call_ensures(Runtime::begin_scheduled_frame_if_needed, (runtime, now), ()),
    ensures
        old(runtime).frames.active is Some ==> *final(runtime) == *old(runtime),
        old(runtime).frames.active is None && (old(runtime).eval.core.pending_eval || old(runtime).waiting.ui_effects > 0 || old(runtime).frames.pending is Some || old(runtime).eval.core.worker_refine_pending) ==> (final(runtime).frames.active matches Some(active)
            && active.phase is RequiredInteractiveWork) && final(runtime).frames.pending is None,
        old(runtime).frames.active is None && old(runtime).frames.pending is None && old(runtime).eval.core.pending_eval ==> (final(runtime).frames.active matches Some(active)
            && active.reason is RequiredEvaluation && active.identity.generation.0 == old(runtime).eval.core.eval_token),
        old(runtime).frames.active is None && final(runtime).frames.active is Some ==> old(runtime).known_work(),
        final(runtime).eval == old(runtime).eval,
{
}

/// What dabs asked for reaches evaluation once: a forced draft and an outdated
/// preview are carried over, and the stroke no longer asks for them.
pub proof fn dabs_reach_evaluation_once(runtime: &mut Runtime)
    requires
        call_ensures(Runtime::absorb_stroke, (runtime,), ()),
    ensures
        old(runtime).stroke.force_draft ==> final(runtime).eval.core.force_draft,
        old(runtime).stroke.preview_dirty ==> final(runtime).eval.core.preview_dirty,
        old(runtime).eval.core.force_draft ==> final(runtime).eval.core.force_draft,
        old(runtime).eval.core.preview_dirty ==> final(runtime).eval.core.preview_dirty,
        final(runtime).eval.core.force_draft ==> old(runtime).eval.core.force_draft || old(runtime).stroke.force_draft,
        !final(runtime).stroke.force_draft,
        !final(runtime).stroke.preview_dirty,
        final(runtime).stroke.last_paint_point == old(runtime).stroke.last_paint_point,
        final(runtime).stroke.sculpt_stroke_active == old(runtime).stroke.sculpt_stroke_active,
        final(runtime).eval.core.pending_eval == old(runtime).eval.core.pending_eval,
{
}

/// A shape stroke is finished once: it goes into the history, outdates what depends
/// on it and is committed at Full, and refinement waits behind it. Without a stroke
/// nothing happens.
pub proof fn strokes_are_finished_once(runtime: &mut Runtime, now: Instant, effects: Vec<InputEffect>)
    requires
        call_ensures(Runtime::finish_stroke, (runtime, now), effects),
    ensures
        !old(runtime).stroke.sculpt_stroke_active ==> effects@.len() == 0 && *final(runtime)
            == *old(runtime),
        old(runtime).stroke.sculpt_stroke_active ==> {
            &&& effects@.len() == 4
            &&& effects@[0] is AnnotateShapeStroke
            &&& effects@[1] is MarkShapeDependentsOutdated
            &&& effects@[2] is CommitShapeAtFull
            &&& effects@[3] is DelayRefinement
            &&& old(runtime).eval.core.pending_eval ==> final(runtime).eval.core.force_draft
            &&& final(runtime).trace.pending_release matches Some(release) && release.at == now
                && release.generation.0 == old(runtime).eval.core.eval_token
        },
        !final(runtime).stroke.sculpt_stroke_active,
        final(runtime).eval.core.pending_eval == old(runtime).eval.core.pending_eval,
        final(runtime).eval.core.eval_token == old(runtime).eval.core.eval_token,
{
}

/// A shutdown leaves nothing to run: no frame, no input, no evaluation and no
/// refinement. The worker's token is over, so whatever it still reports is stale.
pub proof fn shutdowns_leave_nothing_to_run(
    runtime: &mut Runtime,
    now: Instant,
    effects: Vec<EvalEffect>,
)
    requires
        call_ensures(Runtime::prepare_shutdown, (runtime, now), effects),
    ensures
        !final(runtime).eval.core.pending_eval,
        !final(runtime).eval.core.pending_eval_immediate,
        !final(runtime).eval.core.worker_refine_pending,
        final(runtime).eval.core.refinement_job is None,
        final(runtime).eval.deferred_full_field is None,
        final(runtime).eval.core.eval_token != old(runtime).eval.core.eval_token,
        final(runtime).frames.pending is None,
        final(runtime).frames.active is None,
        final(runtime).frames.presentation_pending_for is None,
        final(runtime).input.pending@.len() == 0,
        final(runtime).waiting.tile_uploads == 0,
        final(runtime).waiting.ui_effects == 0,
        final(runtime).waiting.surface_resize is None,
        !final(runtime).waiting.surface_reconfigure,
        effects@[0] == EvalEffect::SetWorkerToken(final(runtime).eval.core.eval_token),
        old(runtime).eval.core.refinement_job matches Some(job) ==> effects@.len() == 2
            && effects@[1] == (EvalEffect::AbandonRefinement {
            job,
            record: FrameTraceEventKind::RefinementSuperseded,
        }),
        old(runtime).eval.core.refinement_job is None ==> effects@.len() == 1,
{
}

/// A lost device ends the session, unless the application destroyed it itself.
pub proof fn lost_devices_end_the_session(
    runtime: &mut Runtime,
    reason: DeviceLostReason,
    message: String,
    now: Instant,
)
    requires
        old(runtime).frames.can_request(),
        call_ensures(
            Runtime::handle_runtime_event,
            (runtime, RuntimeEvent::DeviceLost { reason, message }, now),
            (),
        ),
    ensures
        reason is Unknown ==> final(runtime).frames.shutdown && final(runtime).frames.pending
            is Some,
        reason is Destroyed ==> *final(runtime) == *old(runtime),
        final(runtime).eval.core == old(runtime).eval.core,
{
}

/// A presentation is stamped with the frame that asked for it and with the terrain
/// that it shows, which is the last complete one.
pub proof fn presentations_are_stamped(
    runtime: Runtime,
    identity: Option<FrameIdentity>,
    context: Option<PresentationContext>,
)
    requires
        call_ensures(Runtime::presentation_context, (&runtime, identity), context),
    ensures
        identity is None ==> context is None,
        identity matches Some(frame) ==> (context matches Some(stamp) && stamp.frame_id
            == frame.id.0 && stamp.generation == runtime.eval.core.last_complete_generation.0
            && stamp.evaluation_id == runtime.eval.core.last_accepted_evaluation_id),
{
}

/// A frame's GPU time is that of all its passes together, and each frame is reported
/// once: a timing of an older frame changes nothing.
pub proof fn timings_are_reported_once(
    runtime: &mut Runtime,
    timings: PresentationTimings,
    now: Instant,
)
    requires
        call_ensures(Runtime::presentation_resolved, (runtime, timings, now), ()),
    ensures
        timings.source_frame <= old(runtime).reported_timing_frame ==> final(runtime).reported_timing_frame == old(runtime).reported_timing_frame && final(runtime).trace.log() == old(runtime).trace.log(),
        timings.source_frame > old(runtime).reported_timing_frame ==> final(runtime).reported_timing_frame == timings.source_frame,
        timings.context.frame_id == 0 ==> final(runtime).trace.log() == old(runtime).trace.log(),
        timings.terrain_us + timings.shadow_us + timings.path_trace_us + timings.temporal_us
            + timings.denoise_us <= u64::MAX ==> timings.total() == timings.terrain_us
            + timings.shadow_us + timings.path_trace_us + timings.temporal_us + timings.denoise_us,
        timings.total() >= timings.terrain_us,
        timings.total() <= u64::MAX,
        past_frame(timings.context).id.0 == timings.context.frame_id,
        past_frame(timings.context).generation.0 == timings.context.generation,
{
}

/// A record belongs to the frame that is worked on, or else to the one that waits.
pub proof fn records_belong_to_the_current_frame(frames: LogicalFrameCoordinator)
    ensures
        frames.active matches Some(active) ==> Runtime::current_identity(frames) == Some(
            active.identity,
        ) && Runtime::current_phase(frames) == Some(active.phase),
        frames.active is None ==> Runtime::current_phase(frames) is None,
        frames.active is None ==> (frames.pending matches Some(waiting) ==> (
        Runtime::current_identity(frames) matches Some(identity) && identity.id == waiting.id
            && identity.generation == waiting.generation)),
        frames.active is None && frames.pending is None ==> Runtime::current_identity(
            frames,
        ) is None,
{
}

/// A captured event is stamped with its receipt and the next number, and asks for a
/// frame; an edge of the primary button holds refinement back by the grace.
pub proof fn captured_events_are_stamped(
    runtime: &mut Runtime,
    event: InputEvent,
    now: Instant,
    grace: Duration,
    effect: Option<EvalEffect>,
)
    requires
        old(runtime).wf(),
        old(runtime).input.next_sequence < u64::MAX,
        old(runtime).frames.can_request(),
        call_ensures(Runtime::queue_input, (runtime, event, now, grace), effect),
    ensures
        final(runtime).input.pending@.len() == old(runtime).input.pending@.len() + 1,
        final(runtime).input.pending@.last().event == event,
        final(runtime).input.pending@.last().received_at == now,
        final(runtime).input.pending@.last().sequence == old(runtime).input.next_sequence + 1,
        final(runtime).frames.pending is Some,
        final(runtime).eval == old(runtime).eval,
        final(runtime).interaction == old(runtime).interaction,
        (event matches InputEvent::PointerButton { button, .. } && button is Left) <==> effect
            is Some,
        effect matches Some(delay) ==> delay == (EvalEffect::ScheduleDeadline {
            kind: FrameDeadlineKind::OptionalRefinement,
            generation: EditGeneration(old(runtime).eval.core.eval_token),
            after: grace,
        }),
        (event matches InputEvent::PointerButton { button, state } && button is Left && state
            is Pressed) ==> final(runtime).trace.pending_release is None,
{
}

/// Sealed input begins a frame of the current generation that holds it, and the
/// frame is past the sealing.
pub proof fn sealed_input_begins_a_frame(runtime: Runtime, now: Instant, samples: usize)
    requires
        runtime.frames.pending is None,
        runtime.frames.next_id < u64::MAX,
    ensures
        runtime.sealed_frames(now, samples).active matches Some(active) && active.phase
            is ApplicationUpdate && active.reason is Input && active.identity.generation.0
            == runtime.eval.core.eval_token && active.input_events
            == runtime.input.pending@.len() as usize && active.pointer_samples == samples
            && active.budget.started_at == now,
        runtime.sealed_frames(now, samples).pending is None,
{
}

/// A replayed frame carries the generation that its events led to and goes on to
/// required work; any event is worth a redraw, and a primary press starts its latency
/// at its receipt.
pub proof fn replayed_frames_go_on(
    runtime: &mut Runtime,
    sealed: &SealedInput,
    redraw: bool,
    now: Instant,
    redraws: bool,
)
    requires
        old(runtime).wf(),
        old(runtime).frames.active matches Some(a) ==> a.phase.rank()
            <= FramePhase::RequiredInteractiveWork.rank(),
        call_ensures(Runtime::finish_input_frame, (runtime, sealed, redraw, now), redraws),
    ensures
        redraws <==> redraw || sealed.events@.len() > 0,
        old(runtime).frames.active is Some ==> (final(runtime).frames.active matches Some(active)
            && active.phase is RequiredInteractiveWork && active.identity.generation.0 == old(runtime).eval.core.eval_token),
        sealed.first_primary_press matches Some(press) ==> (
        final(runtime).trace.pending_input_receipt matches Some(sample) && sample.at == press
            && sample.generation.0 == old(runtime).eval.core.eval_token),
        sealed.first_primary_press is None ==> final(runtime).trace.pending_input_receipt == old(runtime).trace.pending_input_receipt,
{
}

/// Nothing waits at first.
pub proof fn nothing_waits_at_first(work: WaitingWork)
    requires
        call_ensures(WaitingWork::none, (), work),
    ensures
        work.tile_uploads == 0,
        work.ui_effects == 0,
        work.surface_resize is None,
        !work.surface_reconfigure,
{
}

/// A press that follows a release closes the wait for its refinement: its latency is
/// sampled and traced. Any other event leaves the wait, and every event is traced.
pub proof fn follow_up_presses_close_the_wait(
    runtime: &mut Runtime,
    event: InputEvent,
    now: Instant,
    grace: Duration,
    effect: Option<EvalEffect>,
)
    requires
        old(runtime).wf(),
        old(runtime).input.next_sequence < u64::MAX,
        old(runtime).frames.can_request(),
        call_ensures(Runtime::queue_input, (runtime, event, now, grace), effect),
    ensures
        ({
            let press = event == (InputEvent::PointerButton {
                state: ElementState::Pressed,
                button: MouseButton::Left,
            });
            let identity = Some(
                old(runtime).frames.requested(
                    old(runtime).generation(),
                    FrameRequestReason::Input,
                ).pending->0.identity(),
            );
            let phase = Some(FramePhase::CollectingInput);
            let received = old(runtime).trace.log().noted(
                now,
                FrameTraceEventKind::OsInputReceipt,
                identity,
                phase,
            );
            &&& press ==> final(runtime).trace.pending_release is None
            &&& !press ==> final(runtime).trace.pending_release == old(runtime).trace.pending_release
            &&& !press || old(runtime).trace.pending_release is None ==> final(runtime).trace.log()
                == received && final(runtime).trace.release_to_follow_up_press_us@ == old(runtime).trace.release_to_follow_up_press_us@
            &&& press && old(runtime).trace.pending_release is Some ==> final(runtime).trace.log()
                == received.noted(now, FrameTraceEventKind::FollowUpPressReceipt, identity, phase)
            &&& press ==> (old(runtime).trace.pending_release matches Some(release) ==> final(runtime).trace.release_to_follow_up_press_us@.len() > 0 && final(runtime).trace.release_to_follow_up_press_us@.last() == crate::frame_trace::micros_of(
                now.nanos_since(release.at),
            ))
            &&& final(runtime).trace.input_to_visible_us == old(runtime).trace.input_to_visible_us
            &&& final(runtime).trace.refinement_us == old(runtime).trace.refinement_us
            &&& final(runtime).interaction == old(runtime).interaction
            &&& final(runtime).stroke == old(runtime).stroke
            &&& final(runtime).eval == old(runtime).eval
        }),
{
}

/// A line about the evaluation at hand names its layer and its project; one about an
/// older evaluation names neither. A frame that is under way closes the line.
pub proof fn only_the_evaluation_at_hand_is_placed(
    runtime: Runtime,
    token: u64,
    quality: PreviewQuality,
    project_path: Option<&str>,
    text: String,
)
    requires
        call_ensures(Runtime::evaluation_log_context, (&runtime, token, quality, project_path), text),
    ensures
        ({
            let bare = "operation="@ + "evaluation"@ + " token="@ + crate::text::decimal(
                token as nat,
            ) + " quality="@ + crate::logging::quality_tag(quality);
            &&& runtime.frames.active is None && token != runtime.eval.core.eval_token ==> text@
                == bare
            &&& runtime.frames.active is None && token == runtime.eval.core.eval_token
                && runtime.eval.texts.refining_layer_name is None ==> (
            project_path matches Some(path) ==> text@ == bare + " project="@ + path@)
            &&& runtime.frames.active is None && token == runtime.eval.core.eval_token
                && project_path is None ==> (
            runtime.eval.texts.refining_layer_name matches Some(name) ==> text@ == bare
                + " layer="@ + crate::logging::debug_text(name@))
            &&& token != runtime.eval.core.eval_token ==> (
            runtime.frames.active matches Some(active) ==> text@ == bare + "; logical_frame="@
                + crate::text::decimal(active.identity.id.0 as nat) + "; edit_generation="@
                + crate::text::decimal(active.identity.generation.0 as nat) + "; phase="@
                + active.phase.name())
        }),
{
    let none = Seq::<char>::empty();
    let head = "operation="@ + "evaluation"@;
    let number = " token="@ + crate::text::decimal(token as nat);
    let tag = " quality="@ + crate::logging::quality_tag(quality);
    let bare = "operation="@ + "evaluation"@ + " token="@ + crate::text::decimal(token as nat)
        + " quality="@ + crate::logging::quality_tag(quality);
    assert(head + number + tag + none + none =~= bare);
    if let Some(path) = project_path {
        let part = " project="@ + path@;
        assert(head + number + tag + none + part =~= bare + " project="@ + path@);
    }
    if let Some(name) = runtime.eval.texts.refining_layer_name {
        let part = " layer="@ + crate::logging::debug_text(name@);
        assert(head + number + tag + part + none =~= bare + " layer="@
            + crate::logging::debug_text(name@));
    }
}

} // verus!
