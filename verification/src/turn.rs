//! One turn of the event loop, phase by phase.
//!
//! A turn polls start-up or runs the editor: it replays input, applies surface
//! changes, drains the worker, performs required evaluation, asks for a
//! presentation, and only then looks at optional refinement. Each phase is a
//! decision over what the caller observed; the caller performs the outcome and
//! goes on to the next one.
use vstd::prelude::*;

use crate::clock::{Duration, Instant};
use crate::dirty::{LayerId, StackLayer, WorkerDirty};
use crate::eval::{
    BuildProgress, DeferredFullField, EvalCore, EvalEffect, EvalProfile, EvalState, EvalTexts,
    EvalUi, FrameDeadlineKind, NodeRef, PlanEdit, RefineTiming, TerrainPreviewFreshness,
};
use crate::frame_trace::{FrameTraceEvent, FrameTraceEventKind, FrameTraceRecorder};
use crate::input::MouseButton;
use crate::lifecycle::{Runtime, SurfaceSize, WaitingWork};
use crate::logical_frame::{
    EditGeneration, FrameDiagnostics, FramePhase, LogicalFrameCoordinator,
};
use crate::paint::{EditorTool, PaintGates};
use crate::quality::{GpuEvaluationIntent, PreviewQuality};
use crate::text::push_decimal;

verus! {

/// The pause between two frames of the boot splash.
pub const SPLASH_INTERVAL_MS: u64 = 33;

/// The pause between two looks at work that is running elsewhere.
pub const RUNNING_WORK_INTERVAL_MS: u64 = 16;

/// What a turn does.
#[derive(Debug, Clone, Copy, PartialEq, Eq, Structural)]
pub enum TurnStart {
    /// Prepare the shutdown and leave the loop.
    Exit,
    /// Poll the boot worker.
    Boot,
    Run,
}

/// How the loop waits for its next turn.
#[derive(Debug, Clone, Copy, PartialEq, Eq, Structural)]
pub enum LoopWake {
    WaitFor(Duration),
    Wait,
}

/// The end of a turn during start-up.
#[derive(Debug, Clone, Copy, PartialEq, Eq, Structural)]
pub struct BootTurn {
    /// The renderer was just attached: prepare it before the handoff redraw.
    pub prepare_presentation: bool,
    pub wake: LoopWake,
}

/// Ends a boot turn. The splash animates until the worker lands; a finished or
/// failed boot is still and waits for input.
pub fn boot_turn(finished: bool, failed: bool) -> (r: BootTurn)
    ensures
        r == (BootTurn {
            prepare_presentation: finished,
            wake: if finished || failed {
                LoopWake::Wait
            } else {
                LoopWake::WaitFor(Duration { nanos: 33_000_000 })
            },
        }),
{
    BootTurn {
        prepare_presentation: finished,
        wake: if finished || failed {
            LoopWake::Wait
        } else {
            LoopWake::WaitFor(Duration::from_millis(SPLASH_INTERVAL_MS))
        },
    }
}

/// A phase of a running turn.
#[derive(Debug, Clone, Copy, PartialEq, Eq, Structural)]
pub enum TurnPhase {
    /// Collect the timings of finished GPU evaluations.
    GpuTimings,
    /// Replay the captured input as a frame.
    Input,
    /// Open the frame that was asked for without input.
    ScheduledFrame,
    UiEffects,
    Surface,
    /// Tick the background jobs and take in project files.
    Jobs,
    Camera,
    Export,
    /// See what the user is doing.
    Stalls,
    WorkerEvents,
    Draft,
    /// Keep the deferred suffix in step, and complete it when it is ready.
    Suffix,
    Physics,
    /// Ask for the presentation of the required work.
    CloseRequired,
    AdvanceRefinement,
    StartRefinement,
    WorkerProgress,
    TileUploads,
    Wake,
    Redraw,
    Complete,
}

impl TurnPhase {
    /// The position of the phase in a turn of the editor.
    pub open spec fn position(self) -> int {
        match self {
            TurnPhase::GpuTimings => 0,
            TurnPhase::Input => 1,
            TurnPhase::ScheduledFrame => 2,
            TurnPhase::UiEffects => 3,
            TurnPhase::Surface => 4,
            TurnPhase::Jobs => 5,
            TurnPhase::Camera => 6,
            TurnPhase::Export => 7,
            TurnPhase::Stalls => 8,
            TurnPhase::WorkerEvents => 9,
            TurnPhase::Draft => 10,
            TurnPhase::Suffix => 11,
            TurnPhase::Physics => 12,
            TurnPhase::CloseRequired => 13,
            TurnPhase::AdvanceRefinement => 14,
            TurnPhase::StartRefinement => 15,
            TurnPhase::WorkerProgress => 16,
            TurnPhase::TileUploads => 17,
            TurnPhase::Wake => 18,
            TurnPhase::Redraw => 19,
            TurnPhase::Complete => 20,
        }
    }

    /// The phase belongs to the editor.
    pub open spec fn of_editor(self) -> bool {
        TurnPhase::Stalls.position() <= self.position() <= TurnPhase::TileUploads.position()
    }

    /// The phase that follows in a turn; outside the editor its phases are left
    /// out.
    pub open spec fn following(self, in_editor: bool) -> Option<TurnPhase> {
        match self {
            TurnPhase::GpuTimings => Some(TurnPhase::Input),
            TurnPhase::Input => Some(TurnPhase::ScheduledFrame),
            TurnPhase::ScheduledFrame => Some(TurnPhase::UiEffects),
            TurnPhase::UiEffects => Some(TurnPhase::Surface),
            TurnPhase::Surface => Some(TurnPhase::Jobs),
            TurnPhase::Jobs => Some(TurnPhase::Camera),
            TurnPhase::Camera => Some(TurnPhase::Export),
            TurnPhase::Export => if in_editor {
                Some(TurnPhase::Stalls)
            } else {
                Some(TurnPhase::Wake)
            },
            TurnPhase::Stalls => Some(TurnPhase::WorkerEvents),
            TurnPhase::WorkerEvents => Some(TurnPhase::Draft),
            TurnPhase::Draft => Some(TurnPhase::Suffix),
            TurnPhase::Suffix => Some(TurnPhase::Physics),
            TurnPhase::Physics => Some(TurnPhase::CloseRequired),
            TurnPhase::CloseRequired => Some(TurnPhase::AdvanceRefinement),
            TurnPhase::AdvanceRefinement => Some(TurnPhase::StartRefinement),
            TurnPhase::StartRefinement => Some(TurnPhase::WorkerProgress),
            TurnPhase::WorkerProgress => Some(TurnPhase::TileUploads),
            TurnPhase::TileUploads => Some(TurnPhase::Wake),
            TurnPhase::Wake => Some(TurnPhase::Redraw),
            TurnPhase::Redraw => Some(TurnPhase::Complete),
            TurnPhase::Complete => None,
        }
    }

    pub fn next(self, in_editor: bool) -> (r: Option<TurnPhase>)
        ensures
            r == self.following(in_editor),
    {
        match self {
            TurnPhase::GpuTimings => Some(TurnPhase::Input),
            TurnPhase::Input => Some(TurnPhase::ScheduledFrame),
            TurnPhase::ScheduledFrame => Some(TurnPhase::UiEffects),
            TurnPhase::UiEffects => Some(TurnPhase::Surface),
            TurnPhase::Surface => Some(TurnPhase::Jobs),
            TurnPhase::Jobs => Some(TurnPhase::Camera),
            TurnPhase::Camera => Some(TurnPhase::Export),
            TurnPhase::Export => {
                if in_editor {
                    Some(TurnPhase::Stalls)
                } else {
                    Some(TurnPhase::Wake)
                }
            },
            TurnPhase::Stalls => Some(TurnPhase::WorkerEvents),
            TurnPhase::WorkerEvents => Some(TurnPhase::Draft),
            TurnPhase::Draft => Some(TurnPhase::Suffix),
            TurnPhase::Suffix => Some(TurnPhase::Physics),
            TurnPhase::Physics => Some(TurnPhase::CloseRequired),
            TurnPhase::CloseRequired => Some(TurnPhase::AdvanceRefinement),
            TurnPhase::AdvanceRefinement => Some(TurnPhase::StartRefinement),
            TurnPhase::StartRefinement => Some(TurnPhase::WorkerProgress),
            TurnPhase::WorkerProgress => Some(TurnPhase::TileUploads),
            TurnPhase::TileUploads => Some(TurnPhase::Wake),
            TurnPhase::Wake => Some(TurnPhase::Redraw),
            TurnPhase::Redraw => Some(TurnPhase::Complete),
            TurnPhase::Complete => None,
        }
    }
}

/// A turn only moves forward, one phase at a time in the editor.
pub proof fn a_turn_moves_forward(phase: TurnPhase, in_editor: bool)
    requires
        phase.of_editor() ==> in_editor,
    ensures
        match phase.following(in_editor) {
            Some(next) => {
                &&& next.position() > phase.position()
                &&& in_editor ==> next.position() == phase.position() + 1
            },
            None => phase is Complete,
        },
{
}

/// Refinement is only reached through the presentation request, and that only
/// once input, drafts, the suffix and physics are done with.
pub proof fn refinement_follows_the_presentation_request(phase: TurnPhase, in_editor: bool)
    ensures
        phase.following(in_editor) == Some(TurnPhase::AdvanceRefinement) ==> phase is CloseRequired,
        phase.following(in_editor) == Some(TurnPhase::StartRefinement)
            ==> phase is AdvanceRefinement,
        phase.following(in_editor) == Some(TurnPhase::CloseRequired) ==> phase is Physics,
        TurnPhase::Input.position() < TurnPhase::Draft.position() < TurnPhase::Suffix.position()
            < TurnPhase::Physics.position() < TurnPhase::CloseRequired.position(),
{
}

/// Outside the editor nothing is evaluated, refined or uploaded.
pub proof fn nothing_is_evaluated_outside_the_editor(phase: TurnPhase)
    requires
        !phase.of_editor(),
    ensures
        phase.following(false) matches Some(next) ==> !next.of_editor(),
{
}

/// What the background jobs report after one tick.
#[derive(Debug, Clone, Copy, PartialEq, Eq, Structural)]
pub struct JobsTick {
    pub any_pending: bool,
    pub animate: bool,
    pub redraw: bool,
}

/// What the turn shows of an export.
#[derive(Debug)]
pub enum ExportTurn {
    /// Show the progress.
    Running,
    /// Show the status for one more frame and end the export mode.
    Finished { status: String },
    Idle,
}

impl ExportTurn {
    /// The export keeps the loop awake.
    pub open spec fn keeps_awake(self) -> bool {
        !(self is Idle)
    }

    pub fn busy(&self) -> (r: bool)
        ensures
            r == self.keeps_awake(),
    {
        match self {
            ExportTurn::Idle => false,
            _ => true,
        }
    }
}

/// Looks at the exporter. `result` is the path written, or the error.
pub fn export_turn(done: bool, result: Option<Result<String, String>>) -> (r: ExportTurn)
    ensures
        !done ==> r is Running,
        done ==> match result {
            None => r is Idle,
            Some(Ok(path)) => r matches ExportTurn::Finished { status } && status@ == "Exported "@
                + path@,
            Some(Err(error)) => r matches ExportTurn::Finished { status } && status@
                == "Export failed: "@ + error@,
        },
{
    if !done {
        return ExportTurn::Running;
    }
    match result {
        None => ExportTurn::Idle,
        Some(Ok(path)) => {
            let mut status = "Exported ".to_owned();
            status.append(path.as_str());
            ExportTurn::Finished { status }
        },
        Some(Err(error)) => {
            let mut status = "Export failed: ".to_owned();
            status.append(error.as_str());
            ExportTurn::Finished { status }
        },
    }
}

/// What the caller saw of the editor at the start of its phase.
#[derive(Debug, Clone, Copy, PartialEq, Eq, Structural)]
pub struct EditorSight {
    pub gates: PaintGates,
    pub dragging_shape_point: bool,
    pub dragging_layer_point: bool,
    /// A widget is being dragged or held.
    pub gui_interacting: bool,
    /// The scene changed in a way that the viewer can see.
    pub scene_meaningful: bool,
    pub placement_tint_dirty: bool,
    pub mask_overlay_dirty: bool,
}

/// What the user is doing, as far as it holds work back.
#[derive(Debug, Clone, Copy, PartialEq, Eq, Structural)]
pub struct Stalls {
    pub mask_painting: bool,
    pub live_paint: bool,
    pub stall_draft: bool,
    pub stall_refine: bool,
    pub meaningful: bool,
}

/// What has happened in the turn so far.
#[derive(Debug, Clone, Copy, PartialEq, Eq, Structural)]
pub struct Turn {
    pub in_editor: bool,
    pub input_processed: bool,
    pub ui_effects_applied: bool,
    pub surface_changed: bool,
    pub camera_flying: bool,
    pub export_busy: bool,
    pub jobs: JobsTick,
    pub live_paint: bool,
    pub did_eval: bool,
}

/// Changes of the surface, in the order in which they are applied.
#[derive(Debug, Clone, Copy, PartialEq, Eq, Structural)]
pub struct SurfaceChanges {
    pub reconfigure: bool,
    pub resize: Option<SurfaceSize>,
}

impl SurfaceChanges {
    pub fn changed(&self) -> (r: bool)
        ensures
            r == (self.reconfigure || self.resize is Some),
    {
        self.reconfigure || self.resize.is_some()
    }
}

/// When the loop should look again.
#[derive(Debug, Clone, Copy, PartialEq, Eq, Structural)]
pub struct WakeRequest {
    /// Run without waiting.
    pub continuous: bool,
    /// Otherwise wait no longer than this, or until a deadline or an event.
    pub fallback: Option<Duration>,
}

/// What is reported of the frame that the turn completed.
#[derive(Debug, Clone, Copy, PartialEq, Eq, Structural)]
pub struct FrameReport {
    pub diagnostics: FrameDiagnostics,
    pub input_frame_pending: bool,
    pub over_budget: bool,
}

impl Runtime {
    /// Decides what the turn does. Any reason to leave wins over start-up.
    pub fn begin_turn(
        &mut self,
        show_profiler: bool,
        trace_setting: Option<&str>,
        pending_exit: bool,
        startup_failed: bool,
        booting: bool,
    ) -> (r: TurnStart)
        ensures
            r == if pending_exit || startup_failed || old(self).frames.shutdown {
                TurnStart::Exit
            } else if booting {
                TurnStart::Boot
            } else {
                TurnStart::Run
            },
            final(self).trace == (FrameTraceRecorder {
                verbose: show_profiler || crate::frame_trace::verbose_setting(
                    match trace_setting {
                        Some(value) => Some(value@),
                        None => None,
                    },
                ),
                ..old(self).trace
            }),
            final(self).frames == old(self).frames,
            Self::only_frames_and_trace_changed(*old(self), *final(self)),
    {
        self.trace.set_verbose(show_profiler, trace_setting);
        if pending_exit || startup_failed || self.frames.shutdown_requested() {
            TurnStart::Exit
        } else if booting {
            TurnStart::Boot
        } else {
            TurnStart::Run
        }
    }

    /// The queued effects of the interface were applied, if there were any.
    pub fn ui_effects_settled(&mut self, applied: bool, now: Instant)
        ensures
            final(self).waiting == (WaitingWork { ui_effects: 0, ..old(self).waiting }),
            final(self).trace.log() == if applied {
                old(self).trace.log().noted(
                    now,
                    FrameTraceEventKind::UiEffectsApplied,
                    Self::current_identity(old(self).frames),
                    Self::current_phase(old(self).frames),
                )
            } else {
                old(self).trace.log()
            },
            final(self).trace.same_samples(old(self).trace),
            final(self).frames == old(self).frames,
            final(self).input == old(self).input,
            final(self).interaction == old(self).interaction,
            final(self).stroke == old(self).stroke,
            final(self).eval == old(self).eval,
            final(self).reported_timing_frame == old(self).reported_timing_frame,
            old(self).wf() ==> final(self).wf(),
    {
        self.waiting = WaitingWork { ui_effects: 0, ..self.waiting };
        if applied {
            self.record_frame_event(FrameTraceEventKind::UiEffectsApplied, now);
        }
    }

    /// Takes the captured changes of the surface: at most one reconfiguration
    /// and the latest size.
    pub fn apply_surface_changes(&mut self, now: Instant) -> (r: SurfaceChanges)
        ensures
            r == (SurfaceChanges {
                reconfigure: old(self).waiting.surface_reconfigure,
                resize: old(self).waiting.surface_resize,
            }),
            final(self).waiting == (WaitingWork {
                surface_reconfigure: false,
                surface_resize: None,
                ..old(self).waiting
            }),
            final(self).trace.log() == if old(self).waiting.surface_resize is Some {
                old(self).trace.log().noted(
                    now,
                    FrameTraceEventKind::ResizeApplied,
                    Self::current_identity(old(self).frames),
                    Self::current_phase(old(self).frames),
                )
            } else {
                old(self).trace.log()
            },
            final(self).trace.same_samples(old(self).trace),
            final(self).frames == old(self).frames,
            final(self).input == old(self).input,
            final(self).interaction == old(self).interaction,
            final(self).stroke == old(self).stroke,
            final(self).eval == old(self).eval,
            final(self).reported_timing_frame == old(self).reported_timing_frame,
            old(self).wf() ==> final(self).wf(),
    {
        let changes = SurfaceChanges {
            reconfigure: self.waiting.surface_reconfigure,
            resize: self.waiting.surface_resize,
        };
        self.waiting = WaitingWork {
            surface_reconfigure: false,
            surface_resize: None,
            ..self.waiting
        };
        if changes.resize.is_some() {
            self.record_frame_event(FrameTraceEventKind::ResizeApplied, now);
        }
        changes
    }

    /// The mask brush is down. Height must not be rebuilt under it.
    pub open spec fn paints_mask(self, sight: EditorSight) -> bool {
        sight.gates.tool == EditorTool::PaintMask && self.interaction.mouse_pressed == Some(
            MouseButton::Left,
        ) && sight.gates.has_paint_mask && !self.interaction.modifiers.alt
    }

    /// A stroke, a dragged point or a held brush changes the terrain right now.
    pub open spec fn paints_live(self, sight: EditorSight) -> bool {
        self.stroke.sculpt_stroke_active || sight.dragging_shape_point
            || sight.dragging_layer_point || (self.interaction.mouse_pressed == Some(
            MouseButton::Left,
        ) && sight.gates.paints() && !self.interaction.modifiers.alt && !self.paints_mask(sight))
    }

    pub open spec fn stalls_of(self, sight: EditorSight) -> Stalls {
        let mask_painting = self.paints_mask(sight);
        let live_paint = self.paints_live(sight);
        Stalls {
            mask_painting,
            live_paint,
            stall_draft: if mask_painting {
                true
            } else if live_paint {
                false
            } else {
                self.interaction.mouse_pressed is Some && !sight.gui_interacting
            },
            stall_refine: self.interaction.mouse_pressed is Some || sight.gui_interacting,
            meaningful: sight.scene_meaningful || live_paint || self.eval.core.pending_eval
                || self.eval.core.needs_height_upload || sight.placement_tint_dirty
                || sight.mask_overlay_dirty,
        }
    }

    /// What the user is doing, and what has to wait for it. Hovering holds
    /// nothing back; a slider drag still gets its debounced Draft; only the
    /// camera and the mask brush stall Draft; every held button stalls
    /// refinement.
    pub fn stalls(&self, sight: &EditorSight) -> (r: Stalls)
        ensures
            r == self.stalls_of(*sight),
    {
        let held = self.interaction.mouse_pressed == Some(MouseButton::Left);
        let alt = self.interaction.modifiers.alt;
        let mask_painting = sight.gates.tool == EditorTool::PaintMask && held
            && sight.gates.has_paint_mask && !alt;
        let live_paint = self.stroke.sculpt_stroke_active || sight.dragging_shape_point
            || sight.dragging_layer_point || (held && sight.gates.viewport_paint_active() && !alt
            && !mask_painting);
        let pressed = self.interaction.mouse_pressed.is_some();
        Stalls {
            mask_painting,
            live_paint,
            stall_draft: if mask_painting {
                true
            } else if live_paint {
                false
            } else {
                pressed && !sight.gui_interacting
            },
            stall_refine: pressed || sight.gui_interacting,
            meaningful: sight.scene_meaningful || live_paint || self.eval.core.pending_eval
                || self.eval.core.needs_height_upload || sight.placement_tint_dirty
                || sight.mask_overlay_dirty,
        }
    }
}

/// The evaluation that is due now, and the deadline that it clears.
#[derive(Debug, Clone, Copy, PartialEq, Eq, Structural)]
pub struct DueDraft {
    pub intent: GpuEvaluationIntent,
    pub effect: EvalEffect,
}

impl EvalState {
    /// An evaluation waits and nothing holds it back: it was asked for at once,
    /// or a stroke runs, or live preview is on and the debounce has passed.
    pub open spec fn draft_due(
        self,
        stalls: Stalls,
        live_preview: bool,
        deadline_ready: bool,
    ) -> bool {
        !stalls.stall_draft && self.core.pending_eval && (self.core.pending_eval_immediate
            || stalls.live_paint || (live_preview && deadline_ready))
    }

    /// Takes the pending evaluation if it is due. A bounded edit that was not
    /// asked for at once is evaluated locally.
    pub fn take_due_draft(&mut self, stalls: &Stalls, live_preview: bool, deadline_ready: bool) -> (r:
        Option<DueDraft>)
        ensures
            !old(self).draft_due(*stalls, live_preview, deadline_ready) ==> {
                &&& r is None
                &&& *final(self) == *old(self)
            },
            old(self).draft_due(*stalls, live_preview, deadline_ready) ==> {
                let immediate = old(self).core.pending_eval_immediate;
                &&& r == Some(
                    DueDraft {
                        intent: if !immediate && old(self).core.pending_gpu_dirty_region is Some {
                            GpuEvaluationIntent::InteractiveLocal
                        } else {
                            GpuEvaluationIntent::Complete
                        },
                        effect: EvalEffect::ClearDeadline(FrameDeadlineKind::InteractiveEvaluation),
                    },
                )
                &&& final(self).core == (EvalCore {
                    pending_eval: false,
                    pending_eval_immediate: false,
                    force_draft: old(self).core.force_draft || !immediate,
                    ..old(self).core
                })
                &&& Self::only_core_changed(*old(self), *final(self))
            },
    {
        if stalls.stall_draft || !self.core.pending_eval {
            return None;
        }
        let immediate = self.core.pending_eval_immediate;
        if !(immediate || stalls.live_paint || (live_preview && deadline_ready)) {
            return None;
        }
        self.core = EvalCore {
            pending_eval: false,
            pending_eval_immediate: false,
            force_draft: self.core.force_draft || !immediate,
            ..self.core
        };
        let intent = if !immediate && self.core.pending_gpu_dirty_region.is_some() {
            GpuEvaluationIntent::InteractiveLocal
        } else {
            GpuEvaluationIntent::Complete
        };
        Some(
            DueDraft {
                intent,
                effect: EvalEffect::ClearDeadline(FrameDeadlineKind::InteractiveEvaluation),
            },
        )
    }

    /// Keeps the deferred suffix in step with the gesture. An outdated suffix
    /// is dropped; a running gesture holds it; the end of the gesture arms it
    /// once, and motion never pushes its deadline.
    pub fn advance_deferred_suffix(
        &mut self,
        live_paint: bool,
        now: Instant,
        full_field_refine: Duration,
    ) -> (r: Vec<EvalEffect>)
        requires
            now.nanos + 75_000_000 <= u128::MAX,
        ensures
            final(self).core == old(self).core,
            final(self).ui == old(self).ui,
            final(self).pending_plan_edits == old(self).pending_plan_edits,
            final(self).texts == (EvalTexts {
                freshness: final(self).texts.freshness,
                ..old(self).texts
            }),
            match old(self).deferred_full_field {
                None => {
                    &&& r@ == Seq::<EvalEffect>::empty()
                    &&& *final(self) == *old(self)
                },
                Some(suffix) => if suffix.generation != old(self).core.eval_token {
                    &&& r@ == seq![
                        EvalEffect::ClearDeadline(FrameDeadlineKind::FullFieldRefinement),
                    ]
                    &&& final(self).deferred_full_field is None
                    &&& final(self).texts == old(self).texts
                } else if live_paint {
                    &&& r@ == Seq::<EvalEffect>::empty()
                    &&& final(self).deferred_full_field == Some(
                        DeferredFullField { settle_at: None, ..suffix },
                    )
                    &&& final(self).texts.freshness == (TerrainPreviewFreshness::Deferred {
                        layer_name: suffix.layer_name,
                        deferred_layers: suffix.deferred_layers,
                        settling: false,
                    })
                } else if suffix.settle_at is Some {
                    &&& r@ == Seq::<EvalEffect>::empty()
                    &&& *final(self) == *old(self)
                } else {
                    &&& r@ == seq![
                        EvalEffect::ScheduleDeadline {
                            kind: FrameDeadlineKind::DeferredFullField,
                            generation: EditGeneration(old(self).core.eval_token),
                            after: Duration { nanos: 75_000_000 },
                        },
                        EvalEffect::ScheduleDeadline {
                            kind: FrameDeadlineKind::FullFieldRefinement,
                            generation: EditGeneration(old(self).core.eval_token),
                            after: full_field_refine,
                        },
                    ]
                    &&& final(self).deferred_full_field == Some(
                        DeferredFullField {
                            settle_at: Some(Instant { nanos: (now.nanos + 75_000_000) as u128 }),
                            ..suffix
                        },
                    )
                    &&& final(self).texts.freshness == (TerrainPreviewFreshness::Deferred {
                        layer_name: suffix.layer_name,
                        deferred_layers: suffix.deferred_layers,
                        settling: true,
                    })
                },
            },
    {
        let mut effects: Vec<EvalEffect> = Vec::new();
        match self.deferred_full_field.take() {
            None => {},
            Some(mut suffix) => {
                if suffix.generation != self.core.eval_token {
                    effects.push(EvalEffect::ClearDeadline(FrameDeadlineKind::FullFieldRefinement));
                } else if live_paint {
                    suffix.hold_during_gesture();
                    self.texts.freshness = TerrainPreviewFreshness::Deferred {
                        layer_name: suffix.layer_name.clone(),
                        deferred_layers: suffix.deferred_layers,
                        settling: false,
                    };
                    self.deferred_full_field = Some(suffix);
                } else {
                    let generation = EditGeneration::new(self.core.eval_token);
                    if suffix.arm_after_gesture(now) {
                        effects.push(
                            EvalEffect::ScheduleDeadline {
                                kind: FrameDeadlineKind::DeferredFullField,
                                generation,
                                after: Duration::from_millis(crate::eval::SUFFIX_SETTLE_MS),
                            },
                        );
                        effects.push(
                            EvalEffect::ScheduleDeadline {
                                kind: FrameDeadlineKind::FullFieldRefinement,
                                generation,
                                after: full_field_refine,
                            },
                        );
                        self.texts.freshness = TerrainPreviewFreshness::Deferred {
                            layer_name: suffix.layer_name.clone(),
                            deferred_layers: suffix.deferred_layers,
                            settling: true,
                        };
                    }
                    self.deferred_full_field = Some(suffix);
                }
            },
        }
        effects
    }

    /// The suffix may be completed now.
    pub open spec fn suffix_ready(self, now: Instant) -> bool {
        &&& self.deferred_full_field matches Some(suffix) && suffix.due(self.core.eval_token, now)
        &&& !self.core.pending_eval
        &&& !self.core.worker_refine_pending
    }

    /// Starts the completion of a suffix that is ready. It is completed at the
    /// quality of the resident prefix; the shown state says that it refines.
    pub fn complete_ready_suffix(&mut self, now: Instant) -> (r: Option<EvalEffect>)
        ensures
            !old(self).suffix_ready(now) ==> r is None && *final(self) == *old(self),
            old(self).suffix_ready(now) ==> {
                &&& r == Some(EvalEffect::ClearDeadline(FrameDeadlineKind::DeferredFullField))
                &&& final(self).texts == (EvalTexts {
                    freshness: TerrainPreviewFreshness::RefiningSuffix {
                        layer_name: old(self).deferred_full_field->0.layer_name,
                        quality: PreviewQuality::Draft,
                    },
                    ..old(self).texts
                })
                &&& final(self).core == old(self).core
                &&& final(self).ui == old(self).ui
                &&& final(self).deferred_full_field == old(self).deferred_full_field
                &&& final(self).pending_plan_edits == old(self).pending_plan_edits
            },
    {
        let name = match &self.deferred_full_field {
            Some(suffix) => {
                if !suffix.ready(self.core.eval_token, now) || self.core.pending_eval
                    || self.core.worker_refine_pending {
                    return None;
                }
                suffix.layer_name.clone()
            },
            None => {
                return None;
            },
        };
        self.texts.freshness = TerrainPreviewFreshness::RefiningSuffix {
            layer_name: name,
            quality: PreviewQuality::Draft,
        };
        Some(EvalEffect::ClearDeadline(FrameDeadlineKind::DeferredFullField))
    }

    /// The plan edits of a parameter change of each of `ids`.
    pub open spec fn parameter_edits(ids: Seq<LayerId>) -> Seq<PlanEdit> {
        ids.map_values(|id: LayerId| PlanEdit::Parameters { node: NodeRef::Layer(id) })
    }

    /// The scope after edits of each of `ids` without a known extent.
    pub open spec fn scope_with_edits(
        scope: WorkerDirty,
        layers: Seq<StackLayer>,
        ids: Seq<LayerId>,
    ) -> WorkerDirty
        decreases ids.len(),
    {
        if ids.len() == 0 {
            scope
        } else {
            Self::scope_with_edits(scope, layers, ids.drop_last()).with_edit(
                layers,
                ids.last(),
                None,
            )
        }
    }

    /// What edits of each of `ids` dirty outside the evaluation state, in order.
    pub open spec fn dirt_of_each(ids: Seq<LayerId>) -> Seq<EvalEffect>
        decreases ids.len(),
    {
        if ids.len() == 0 {
            seq![]
        } else {
            Self::dirt_of_each(ids.drop_last()) + Self::suffix_dirt(ids.last())
        }
    }

    /// Marks each of `ids` dirty, in order.
    pub fn mark_each_dirty(&mut self, layers: &[StackLayer], ids: &[LayerId]) -> (r: Vec<
        EvalEffect,
    >)
        ensures
            r@ == Self::dirt_of_each(ids@),
            final(self).pending_plan_edits@ == old(self).pending_plan_edits@
                + Self::parameter_edits(ids@),
            final(self).core == (EvalCore {
                worker_dirty: Self::scope_with_edits(
                    old(self).core.worker_dirty,
                    layers@,
                    ids@,
                ),
                ..old(self).core
            }),
            final(self).ui == old(self).ui,
            final(self).texts == old(self).texts,
            final(self).deferred_full_field == old(self).deferred_full_field,
    {
        let mut effects: Vec<EvalEffect> = Vec::new();
        let mut i: usize = 0;
        assert(self.pending_plan_edits@ =~= old(self).pending_plan_edits@ + Self::parameter_edits(
            ids@.take(0),
        ));
        while i < ids.len()
            invariant
                i <= ids@.len(),
                effects@ == Self::dirt_of_each(ids@.take(i as int)),
                self.pending_plan_edits@ == old(self).pending_plan_edits@ + Self::parameter_edits(
                    ids@.take(i as int),
                ),
                self.core == (EvalCore {
                    worker_dirty: Self::scope_with_edits(
                        old(self).core.worker_dirty,
                        layers@,
                        ids@.take(i as int),
                    ),
                    ..old(self).core
                }),
                self.ui == old(self).ui,
                self.texts == old(self).texts,
                self.deferred_full_field == old(self).deferred_full_field,
            decreases ids@.len() - i,
        {
            let mut dirt = self.mark_dirty_from(layers, ids[i]);
            effects.append(&mut dirt);
            i += 1;
            assert(ids@.take(i as int).drop_last() =~= ids@.take(i - 1));
            assert(self.pending_plan_edits@ =~= old(self).pending_plan_edits@
                + Self::parameter_edits(ids@.take(i as int)));
        }
        assert(ids@.take(i as int) =~= ids@);
        effects
    }

    /// Rebuilds outdated physics layers once the artist has paused. Nothing
    /// happens when no layer is affected or the rebuild would repeat the last
    /// one.
    pub fn auto_rebuild_physics(
        &mut self,
        layers: &[StackLayer],
        ids: &[LayerId],
        redundant: bool,
        token: u64,
        selected_layer_name: Option<String>,
        edit_debounce_ms: u64,
        now: Instant,
        timing: RefineTiming,
    ) -> (r: Option<Vec<EvalEffect>>)
        ensures
            ids@.len() == 0 || redundant ==> r is None && *final(self) == *old(self),
            ids@.len() > 0 && !redundant ==> {
                &&& r matches Some(effects)
                &&& effects@ == Self::dirt_of_each(ids@) + Self::rebuild_effects(
                    token,
                    old(self).core.refinement_job,
                    Duration {
                        nanos: (if edit_debounce_ms >= 1 {
                            edit_debounce_ms as int
                        } else {
                            1
                        } * 1_000_000) as u128,
                    },
                    timing,
                )
                &&& final(self).core == (EvalCore {
                    scheduler_quality: PreviewQuality::Draft,
                    worker_dirty: Self::scope_with_edits(
                        old(self).core.worker_dirty,
                        layers@,
                        ids@,
                    ),
                    ..old(self).core.rebuilding(token, false, now)
                })
                &&& final(self).ui == (EvalUi {
                    refining: true,
                    quality: PreviewQuality::Draft,
                    build_progress: Some(BuildProgress::Begun),
                    profile: EvalProfile { gen_id: token, ..old(self).ui.profile },
                    ..old(self).ui
                })
                &&& final(self).pending_plan_edits@ == old(self).pending_plan_edits@
                    + Self::parameter_edits(ids@)
                &&& final(self).deferred_full_field is None
                &&& final(self).texts.status@ == "Auto-rebuilding "@ + crate::text::decimal(
                    ids@.len(),
                ) + " physics layer(s)"@
                &&& crate::eval::opt_text(final(self).texts.refining_layer_name)
                    == crate::eval::refining_target(selected_layer_name)
                &&& final(self).texts.evaluation_failure == old(self).texts.evaluation_failure
                &&& final(self).texts.freshness == (
                if old(self).core.pending_gpu_dirty_region is Some {
                    TerrainPreviewFreshness::LastCompleteStale
                } else {
                    TerrainPreviewFreshness::Current
                })
            },
    {
        if ids.len() == 0 || redundant {
            return None;
        }
        let mut effects = self.mark_each_dirty(layers, ids);
        let mut rebuild = self.request_rebuild(
            token,
            selected_layer_name,
            edit_debounce_ms,
            now,
            timing,
        );
        effects.append(&mut rebuild);
        let mut status = "Auto-rebuilding ".to_owned();
        push_decimal(&mut status, ids.len() as u64);
        status.append(" physics layer(s)");
        self.texts.status = status;
        Some(effects)
    }
}

/// Where extra detail is spent.
#[derive(Debug, Clone, Copy, PartialEq, Eq, Structural)]
pub enum HighDetailMode {
    Off,
    Camera,
    Zone,
}

impl EvalState {
    /// The next quality of the ladder. With high detail Medium is left out, so
    /// that the detailed area is carved at Full sooner.
    pub open spec fn next_target(quality: PreviewQuality, detail: HighDetailMode) -> Option<
        PreviewQuality,
    > {
        match quality.next() {
            Some(PreviewQuality::Medium) if detail != HighDetailMode::Off => Some(
                PreviewQuality::Full,
            ),
            other => other,
        }
    }

    pub fn refinement_target(&self, detail: HighDetailMode) -> (r: Option<PreviewQuality>)
        ensures
            r == Self::next_target(self.core.scheduler_quality, detail),
    {
        match self.core.scheduler_quality.next_refine() {
            Some(target) => {
                if detail != HighDetailMode::Off && target == PreviewQuality::Medium {
                    target.next_refine()
                } else {
                    Some(target)
                }
            },
            None => None,
        }
    }

    /// The deadlines that starting a refinement clears.
    pub fn refinement_start_effects() -> (r: Vec<EvalEffect>)
        ensures
            r@ == seq![
                EvalEffect::ClearDeadline(FrameDeadlineKind::OptionalRefinement),
                EvalEffect::ClearDeadline(FrameDeadlineKind::FullFieldRefinement),
            ],
    {
        let mut effects: Vec<EvalEffect> = Vec::new();
        effects.push(EvalEffect::ClearDeadline(FrameDeadlineKind::OptionalRefinement));
        effects.push(EvalEffect::ClearDeadline(FrameDeadlineKind::FullFieldRefinement));
        effects
    }

    /// The GPU did not take the refinement: the worker is to run it. The caller
    /// submits the request at `target` next, and then reports that it did.
    pub fn refine_on_worker(&mut self, target: PreviewQuality)
        ensures
            final(self).core == (EvalCore { scheduler_quality: target, ..old(self).core }),
            final(self).ui == (EvalUi { quality: target, ..old(self).ui }),
            Self::texts_unchanged(*old(self), *final(self)),
    {
        self.core = EvalCore { scheduler_quality: target, ..self.core };
        self.ui = EvalUi { quality: target, ..self.ui };
    }

    /// The worker has answered the request at `target`, whatever it said: the
    /// interface shows the refinement as begun.
    pub fn worker_refinement_submitted(&mut self, target: PreviewQuality)
        ensures
            final(self).core == old(self).core,
            final(self).ui == (EvalUi {
                build_progress: Some(
                    BuildProgress::InFlight { quality: target, elapsed: Duration { nanos: 0 } },
                ),
                ..old(self).ui
            }),
            Self::texts_unchanged(*old(self), *final(self)),
    {
        self.ui = EvalUi {
            build_progress: Some(
                BuildProgress::InFlight { quality: target, elapsed: Duration { nanos: 0 } },
            ),
            ..self.ui
        };
    }

    /// The ladder is at its end.
    pub fn settle_ladder(&mut self)
        ensures
            final(self).core == old(self).core,
            final(self).ui == (EvalUi {
                refining: false,
                quality: PreviewQuality::Full,
                build_progress: None,
                ..old(self).ui
            }),
            final(self).texts == (EvalTexts { refining_layer_name: None, ..old(self).texts }),
            final(self).deferred_full_field == old(self).deferred_full_field,
            final(self).pending_plan_edits == old(self).pending_plan_edits,
    {
        self.ui = EvalUi {
            refining: false,
            quality: PreviewQuality::Full,
            build_progress: None,
            ..self.ui
        };
        self.texts.refining_layer_name = None;
    }

    /// Keeps the progress bar moving while the worker runs. The result says
    /// whether it does.
    pub fn show_worker_progress(&mut self, now: Instant) -> (r: bool)
        ensures
            r == old(self).core.worker_refine_pending,
            final(self).core == old(self).core,
            Self::texts_unchanged(*old(self), *final(self)),
            final(self).ui == if r {
                EvalUi {
                    build_progress: Some(
                        BuildProgress::InFlight {
                            quality: old(self).core.scheduler_quality,
                            elapsed: Duration {
                                nanos: now.nanos_since(old(self).core.last_refine) as u128,
                            },
                        },
                    ),
                    ..old(self).ui
                }
            } else {
                old(self).ui
            },
    {
        if !self.core.worker_refine_pending {
            return false;
        }
        let elapsed = now.saturating_duration_since(self.core.last_refine);
        self.ui = EvalUi {
            build_progress: Some(
                BuildProgress::InFlight { quality: self.core.scheduler_quality, elapsed },
            ),
            ..self.ui
        };
        true
    }
}

impl Runtime {
    /// Required work of the turn has something to show.
    pub open spec fn presents(self, turn: Turn) -> bool {
        turn.input_processed || turn.ui_effects_applied || turn.surface_changed || turn.did_eval
            || self.eval.core.needs_height_upload
    }

    /// Closes the required work: what it changed is to be presented before
    /// optional refinement may start.
    pub fn close_required_work(&mut self, turn: &Turn, now: Instant)
        requires
            old(self).frames.active matches Some(a) ==> a.phase.rank()
                <= FramePhase::PresentationRequest.rank(),
        ensures
            old(self).presents(*turn) ==> {
                &&& final(self).frames == old(self).frames.moved_to(
                    FramePhase::PresentationRequest,
                ).presenting().moved_to(FramePhase::OptionalRefinement)
                &&& final(self).trace.log() == ({
                    let identity = match old(self).frames.active {
                        Some(a) => Some(a.identity),
                        None => None,
                    };
                    old(self).trace.log().with(
                        identity,
                        FrameTraceEvent::plain(
                            now,
                            FrameTraceEventKind::PresentationRequested,
                            identity->0,
                            Some(FramePhase::PresentationRequest),
                            None,
                            Some(old(self).eval.core.scheduler_quality),
                            None,
                            None,
                        ),
                    )
                })
                &&& final(self).trace.same_samples(old(self).trace)
            },
            !old(self).presents(*turn) ==> {
                &&& final(self).frames == old(self).frames.moved_to(FramePhase::OptionalRefinement)
                &&& final(self).trace == old(self).trace
            },
            Self::only_frames_and_trace_changed(*old(self), *final(self)),
            old(self).wf() ==> final(self).wf(),
    {
        if turn.input_processed || turn.ui_effects_applied || turn.surface_changed || turn.did_eval
            || self.eval.core.needs_height_upload {
            self.frames.transition(FramePhase::PresentationRequest);
            self.frames.mark_presentation_requested();
            let identity = self.frames.active_identity();
            let quality = self.eval.core.scheduler_quality;
            self.trace.record(
                now,
                FrameTraceEventKind::PresentationRequested,
                identity,
                Some(FramePhase::PresentationRequest),
                None,
                Some(quality),
                None,
                None,
            );
        }
        self.frames.transition(FramePhase::OptionalRefinement);
    }

    /// Optional work may run at all: nothing is held, the frame has budget
    /// left, no frame waits and no input waits.
    pub open spec fn optional_work_admitted(self, stall_refine: bool, now: Instant) -> bool {
        !stall_refine && self.frames.optional_admitted(now) && self.input.pending@.len() == 0
    }

    /// Whether the refinement in progress may take its next unit.
    pub fn may_advance_refinement(&self, stall_refine: bool, now: Instant) -> (r: bool)
        ensures
            r == (self.eval.core.refinement_job is Some && self.optional_work_admitted(
                stall_refine,
                now,
            )),
    {
        self.eval.core.refinement_job.is_some() && !stall_refine && self.frames.can_start_optional(
            now,
        ) && !self.input.has_pending()
    }

    /// A new refinement may start: optional work is admitted, none runs, the
    /// ladder wants one, required work and a deferred suffix are out of the
    /// way, and both deadlines have passed.
    pub open spec fn refinement_may_start(
        self,
        stall_refine: bool,
        optional_ready: bool,
        full_field_ready: bool,
        now: Instant,
    ) -> bool {
        &&& self.eval.core.refinement_job is None
        &&& self.optional_work_admitted(stall_refine, now)
        &&& optional_ready
        &&& self.eval.ui.refining
        &&& !self.eval.core.pending_eval
        &&& !self.eval.core.worker_refine_pending
        &&& self.eval.deferred_full_field is None
        &&& full_field_ready
    }

    pub fn may_start_refinement(
        &self,
        stall_refine: bool,
        optional_ready: bool,
        full_field_ready: bool,
        now: Instant,
    ) -> (r: bool)
        ensures
            r == self.refinement_may_start(stall_refine, optional_ready, full_field_ready, now),
    {
        self.eval.core.refinement_job.is_none() && !stall_refine && self.frames.can_start_optional(
            now,
        ) && !self.input.has_pending() && optional_ready && self.eval.ui.refining
            && !self.eval.core.pending_eval && !self.eval.core.worker_refine_pending
            && self.eval.deferred_full_field.is_none() && full_field_ready
    }

    /// Something is left to do after this turn. Outside the editor only exports
    /// and jobs count.
    pub open spec fn work_left(self, turn: Turn) -> bool {
        turn.export_busy || turn.jobs.any_pending || (turn.in_editor && (
        self.eval.core.pending_eval || self.eval.core.worker_refine_pending
            || self.eval.core.refinement_job is Some || self.eval.ui.refining
            || self.eval.deferred_full_field is Some || self.waiting.tile_uploads > 0))
    }

    /// How soon to look again: at once while a stroke has an evaluation pending
    /// or the camera flies, often while work runs elsewhere, at the refinement
    /// pace while anything is left, and otherwise only when something happens.
    pub fn wake_request(&self, turn: &Turn, refine_interval: Duration) -> (r: WakeRequest)
        ensures
            r == (WakeRequest {
                continuous: (turn.live_paint && self.eval.core.pending_eval)
                    || turn.camera_flying,
                fallback: if self.eval.core.worker_refine_pending
                    || self.eval.core.refinement_job is Some || turn.jobs.animate {
                    Some(Duration { nanos: 16_000_000 })
                } else if self.work_left(*turn) {
                    Some(refine_interval)
                } else {
                    None
                },
            }),
    {
        let continuous = (turn.live_paint && self.eval.core.pending_eval) || turn.camera_flying;
        let left = turn.export_busy || turn.jobs.any_pending || (turn.in_editor && (
        self.eval.core.pending_eval || self.eval.core.worker_refine_pending
            || self.eval.core.refinement_job.is_some() || self.eval.ui.refining
            || self.eval.deferred_full_field.is_some() || self.waiting.tile_uploads > 0));
        let fallback = if self.eval.core.worker_refine_pending
            || self.eval.core.refinement_job.is_some() || turn.jobs.animate {
            Some(Duration::from_millis(RUNNING_WORK_INTERVAL_MS))
        } else if left {
            Some(refine_interval)
        } else {
            None
        };
        WakeRequest { continuous, fallback }
    }

    /// The turn ends with a redraw.
    pub open spec fn redraws(self, turn: Turn) -> bool {
        turn.did_eval || turn.input_processed || turn.ui_effects_applied || turn.surface_changed
            || turn.export_busy || self.eval.core.needs_height_upload || turn.jobs.redraw
            || turn.camera_flying
    }

    /// Decides whether the window is redrawn, and ties the redraw to the frame
    /// of the turn.
    pub fn request_turn_redraw(&mut self, turn: &Turn) -> (r: bool)
        ensures
            r == old(self).redraws(*turn),
            final(self).frames == if r {
                old(self).frames.presenting()
            } else {
                old(self).frames
            },
            final(self).trace == old(self).trace,
            Self::only_frames_and_trace_changed(*old(self), *final(self)),
            old(self).wf() ==> final(self).wf(),
    {
        let redraw = turn.did_eval || turn.input_processed || turn.ui_effects_applied
            || turn.surface_changed || turn.export_busy || self.eval.core.needs_height_upload
            || turn.jobs.redraw || turn.camera_flying;
        if redraw {
            self.frames.mark_presentation_requested();
        }
        redraw
    }

    /// Completes the frame of the turn. One that ran over the host budget is
    /// traced.
    pub fn complete_turn(&mut self, now: Instant) -> (r: Option<FrameReport>)
        ensures
            match old(self).frames.active {
                None => r is None && *final(self) == *old(self),
                Some(active) => {
                    let done = LogicalFrameCoordinator::diagnostics_of(active, now);
                    let late = done.elapsed.nanos > old(self).frames.host_budget.nanos;
                    &&& r == Some(
                        FrameReport {
                            diagnostics: done,
                            input_frame_pending: old(self).frames.pending is Some,
                            over_budget: late,
                        },
                    )
                    &&& final(self).frames == (LogicalFrameCoordinator {
                        active: None,
                        last_complete: Some(done),
                        ..old(self).frames
                    })
                    &&& final(self).trace.log() == if late {
                        old(self).trace.log().with(
                            Some(done.identity),
                            FrameTraceEvent::plain(
                                now,
                                FrameTraceEventKind::HeartbeatOverBudget,
                                done.identity,
                                Some(FramePhase::Complete),
                                None,
                                None,
                                None,
                                Some(done.elapsed),
                            ),
                        )
                    } else {
                        old(self).trace.log()
                    }
                    &&& final(self).trace.same_samples(old(self).trace)
                    &&& Self::only_frames_and_trace_changed(*old(self), *final(self))
                },
            },
            old(self).wf() ==> final(self).wf(),
    {
        match self.frames.complete(now) {
            None => None,
            Some(diagnostics) => {
                let over_budget = diagnostics.elapsed.nanos > self.frames.host_budget.nanos;
                if over_budget {
                    self.trace.record(
                        now,
                        FrameTraceEventKind::HeartbeatOverBudget,
                        Some(diagnostics.identity),
                        Some(diagnostics.phase),
                        None,
                        None,
                        None,
                        Some(diagnostics.elapsed),
                    );
                }
                Some(
                    FrameReport {
                        diagnostics,
                        input_frame_pending: self.frames.has_pending(),
                        over_budget,
                    },
                )
            },
        }
    }
}

/// Waiting input always comes before optional work: while an event or a frame
/// waits, no refinement advances and none starts.
pub proof fn waiting_input_comes_before_optional_work(
    runtime: Runtime,
    stall_refine: bool,
    optional_ready: bool,
    full_field_ready: bool,
    now: Instant,
)
    requires
        runtime.input.pending@.len() > 0 || runtime.frames.pending is Some,
    ensures
        !runtime.optional_work_admitted(stall_refine, now),
        !runtime.refinement_may_start(stall_refine, optional_ready, full_field_ready, now),
{
}

/// A captured event holds optional work back until its own frame has run.
pub proof fn captured_input_holds_optional_work_back(
    before: Runtime,
    after: Runtime,
    event: crate::input::InputEvent,
    captured_at: Instant,
    stall_refine: bool,
    now: Instant,
)
    requires
        Runtime::captured(before, after, event, captured_at),
    ensures
        !after.optional_work_admitted(stall_refine, now),
{
}

/// A running stroke never stalls its own Draft, except under the mask brush,
/// and every held button stalls refinement.
pub proof fn strokes_get_their_draft(runtime: Runtime, sight: EditorSight)
    ensures
        ({
            let stalls = runtime.stalls_of(sight);
            &&& stalls.live_paint && !stalls.mask_painting ==> !stalls.stall_draft
            &&& stalls.mask_painting ==> stalls.stall_draft
            &&& runtime.interaction.mouse_pressed is Some ==> stalls.stall_refine
        }),
{
}

/// The ladder ends: from every quality at most two refinements lead to Full.
pub proof fn the_ladder_ends_at_full(quality: PreviewQuality, detail: HighDetailMode)
    ensures
        match EvalState::next_target(quality, detail) {
            None => quality == PreviewQuality::Full || quality == PreviewQuality::Export,
            Some(first) => first == PreviewQuality::Full || EvalState::next_target(first, detail)
                == Some(PreviewQuality::Full),
        },
        detail != HighDetailMode::Off ==> EvalState::next_target(quality, detail) != Some(
            PreviewQuality::Medium,
        ),
{
}

/// Whatever is pending keeps the loop awake: it sleeps without a bound only
/// when nothing is left.
pub proof fn the_loop_sleeps_only_when_idle(runtime: Runtime, turn: Turn)
    requires
        !runtime.work_left(turn),
        turn.in_editor,
    ensures
        !runtime.eval.core.pending_eval,
        !runtime.eval.core.worker_refine_pending,
        runtime.eval.core.refinement_job is None,
        !runtime.eval.ui.refining,
        runtime.eval.deferred_full_field is None,
        runtime.waiting.tile_uploads == 0,
{
}

/// A pending evaluation that nothing stalls is taken once its debounce has passed
/// under live preview, and it is never taken before that unless it was asked for at
/// once or a stroke runs. Nothing is taken while the user's gesture stalls it, and
/// nothing where nothing is pending. Waiting longer never takes a due evaluation
/// back.
pub proof fn a_debounced_edit_waits_for_its_deadline(
    state: EvalState,
    stalls: Stalls,
    live_preview: bool,
    deadline_ready: bool,
)
    ensures
        state.core.pending_eval && !stalls.stall_draft && live_preview && deadline_ready
            ==> state.draft_due(stalls, live_preview, deadline_ready),
        state.core.pending_eval && !stalls.stall_draft && (state.core.pending_eval_immediate
            || stalls.live_paint) ==> state.draft_due(stalls, live_preview, deadline_ready),
        !state.core.pending_eval_immediate && !stalls.live_paint && !deadline_ready
            ==> !state.draft_due(stalls, live_preview, deadline_ready),
        !state.core.pending_eval_immediate && !stalls.live_paint && !live_preview
            ==> !state.draft_due(stalls, live_preview, deadline_ready),
        stalls.stall_draft ==> !state.draft_due(stalls, live_preview, deadline_ready),
        !state.core.pending_eval ==> !state.draft_due(stalls, live_preview, deadline_ready),
        state.draft_due(stalls, live_preview, false) ==> state.draft_due(
            stalls,
            live_preview,
            true,
        ),
{
}

/// What the user does, and what has to wait for it. The mask brush paints with the
/// left button over a mask and without Alt; a stroke, a dragged point or any other
/// brush paints live. The mask brush stalls Draft; so does a button held elsewhere
/// than on a widget while nothing is painted. Any held button or widget stalls
/// refinement, and nothing held stalls neither.
pub proof fn held_buttons_stall_work(runtime: Runtime, sight: EditorSight)
    ensures
        ({
            let stalls = runtime.stalls_of(sight);
            let pressed = runtime.interaction.mouse_pressed;
            let left = pressed == Some(MouseButton::Left);
            let alt = runtime.interaction.modifiers.alt;
            &&& left && !alt && sight.gates.tool is PaintMask && sight.gates.has_paint_mask
                ==> stalls.mask_painting && stalls.stall_draft
            &&& !left || alt || !(sight.gates.tool is PaintMask) || !sight.gates.has_paint_mask
                ==> !stalls.mask_painting
            &&& runtime.stroke.sculpt_stroke_active || sight.dragging_shape_point
                || sight.dragging_layer_point ==> stalls.live_paint
            &&& left && !alt && sight.gates.paints() && !(sight.gates.tool is PaintMask)
                ==> stalls.live_paint
            &&& !runtime.stroke.sculpt_stroke_active && !sight.dragging_shape_point
                && !sight.dragging_layer_point && (!left || alt || !sight.gates.paints()
                || stalls.mask_painting) ==> !stalls.live_paint
            &&& !stalls.mask_painting && !stalls.live_paint && pressed is Some
                && !sight.gui_interacting ==> stalls.stall_draft
            &&& !stalls.mask_painting && sight.gui_interacting ==> !stalls.stall_draft
            &&& pressed is None ==> !stalls.stall_draft
            &&& pressed is Some || sight.gui_interacting ==> stalls.stall_refine
            &&& pressed is None && !sight.gui_interacting ==> !stalls.stall_refine
            &&& sight.scene_meaningful || stalls.live_paint || runtime.eval.core.pending_eval
                || runtime.eval.core.needs_height_upload || sight.placement_tint_dirty
                || sight.mask_overlay_dirty ==> stalls.meaningful
            &&& stalls.meaningful ==> sight.scene_meaningful || stalls.live_paint
                || runtime.eval.core.pending_eval || runtime.eval.core.needs_height_upload
                || sight.placement_tint_dirty || sight.mask_overlay_dirty
        }),
{
}

/// A suffix is completed once its instant has come, under its own generation, and
/// only while no evaluation is pending and the worker is free.
pub proof fn suffixes_settle_when_all_is_quiet(state: EvalState, at: Instant, now: Instant)
    requires
        state.deferred_full_field matches Some(suffix) && suffix.settle_at == Some(at),
    ensures
        ({
            let current = state.deferred_full_field->0.generation == state.core.eval_token;
            &&& current && at.nanos <= now.nanos && !state.core.pending_eval
                && !state.core.worker_refine_pending ==> state.suffix_ready(now)
            &&& !current || now.nanos < at.nanos || state.core.pending_eval
                || state.core.worker_refine_pending ==> !state.suffix_ready(now)
        }),
{
}

/// No suffix is completed where none waits or where a gesture holds it.
pub proof fn held_suffixes_do_not_settle(state: EvalState, now: Instant)
    requires
        state.deferred_full_field matches Some(suffix) ==> suffix.settle_at is None,
    ensures
        !state.suffix_ready(now),
{
}

/// Edits of several layers dirty every one of them: the worker recomputes each from
/// its first position on, the plan hears of each, and both evaluators do.
pub proof fn every_listed_layer_is_dirtied(
    scope: WorkerDirty,
    layers: Seq<StackLayer>,
    ids: Seq<LayerId>,
    which: int,
    index: int,
    u: u32,
    v: u32,
)
    requires
        0 <= which < ids.len(),
        crate::dirty::first_position(layers, ids[which]) matches Some(at) ==> at <= index,
    ensures
        EvalState::scope_with_edits(scope, layers, ids).covers(layers, index, u, v),
        EvalState::parameter_edits(ids).len() == ids.len(),
        EvalState::parameter_edits(ids)[which] == (PlanEdit::Parameters {
            node: NodeRef::Layer(ids[which]),
        }),
        EvalState::dirt_of_each(ids).contains(EvalEffect::EvaluatorDirtyFrom(ids[which])),
        EvalState::dirt_of_each(ids).contains(EvalEffect::GpuMarkDirtyFrom(ids[which])),
        EvalState::dirt_of_each(ids).contains(EvalEffect::AdvanceOutputRevision),
    decreases ids.len(),
{
    let front = ids.drop_last();
    let before = EvalState::dirt_of_each(front);
    let dirt = EvalState::dirt_of_each(ids);
    assert(dirt == before + EvalState::suffix_dirt(ids.last()));
    if which == ids.len() - 1 {
        crate::dirty::first_position_is_first(layers, ids[which]);
        let pending = EvalState::scope_with_edits(scope, layers, front);
        if crate::dirty::first_position(layers, ids[which]) is Some {
            crate::dirty::tracking_covers_the_edit(
                pending,
                layers,
                ids[which],
                None,
                index,
                u,
                v,
            );
        }
        assert(dirt[before.len() as int] == EvalEffect::EvaluatorDirtyFrom(ids[which]));
        assert(dirt[before.len() as int + 1] == EvalEffect::AdvanceOutputRevision);
        assert(dirt[before.len() as int + 2] == EvalEffect::GpuMarkDirtyFrom(ids[which]));
    } else {
        assert(front[which] == ids[which]);
        every_listed_layer_is_dirtied(scope, layers, front, which, index, u, v);
        crate::dirty::tracking_keeps_pending_dirt(
            EvalState::scope_with_edits(scope, layers, front),
            layers,
            ids.last(),
            None,
            index,
            u,
            v,
        );
        let evaluator = EvalEffect::EvaluatorDirtyFrom(ids[which]);
        let gpu = EvalEffect::GpuMarkDirtyFrom(ids[which]);
        let revision = EvalEffect::AdvanceOutputRevision;
        let i = choose|i: int| 0 <= i < before.len() && before[i] == evaluator;
        let j = choose|j: int| 0 <= j < before.len() && before[j] == gpu;
        let k = choose|k: int| 0 <= k < before.len() && before[k] == revision;
        assert(dirt[i] == evaluator && dirt[j] == gpu && dirt[k] == revision);
    }
}

/// Without high detail the ladder goes over Medium, with it straight to Full.
pub proof fn high_detail_leaves_medium_out(detail: HighDetailMode)
    ensures
        detail is Off ==> EvalState::next_target(PreviewQuality::Draft, detail) == Some(
            PreviewQuality::Medium,
        ),
        !(detail is Off) ==> EvalState::next_target(PreviewQuality::Draft, detail) == Some(
            PreviewQuality::Full,
        ),
        EvalState::next_target(PreviewQuality::Medium, detail) == Some(PreviewQuality::Full),
        EvalState::next_target(PreviewQuality::Full, detail) is None,
        EvalState::next_target(PreviewQuality::Export, detail) is None,
{
}

/// Whatever required work changed is presented, and nothing else is: a processed
/// input, an applied effect, a changed surface, an evaluation or a pending upload.
pub proof fn changed_work_is_presented(runtime: Runtime, turn: Turn)
    ensures
        turn.input_processed || turn.ui_effects_applied || turn.surface_changed || turn.did_eval
            || runtime.eval.core.needs_height_upload ==> runtime.presents(turn)
            && runtime.redraws(turn),
        turn.export_busy || turn.jobs.redraw || turn.camera_flying ==> runtime.redraws(turn),
        runtime.redraws(turn) ==> runtime.presents(turn) || turn.export_busy || turn.jobs.redraw
            || turn.camera_flying,
        !turn.input_processed && !turn.ui_effects_applied && !turn.surface_changed
            && !turn.did_eval && !runtime.eval.core.needs_height_upload ==> !runtime.presents(turn),
{
}

/// Once the hands are off, the frame has budget and no input waits, optional work is
/// admitted. A refinement then starts if the interface shows one as due, none runs
/// here or on the worker, no evaluation or suffix is in the way, and both deadlines
/// have passed; any one of these missing holds it back.
pub proof fn refinement_starts_when_all_is_clear(
    runtime: Runtime,
    stall_refine: bool,
    optional_ready: bool,
    full_field_ready: bool,
    now: Instant,
)
    ensures
        ({
            let admitted = runtime.optional_work_admitted(stall_refine, now);
            let starts = runtime.refinement_may_start(
                stall_refine,
                optional_ready,
                full_field_ready,
                now,
            );
            let core = runtime.eval.core;
            &&& !stall_refine && runtime.frames.optional_admitted(now)
                && runtime.input.pending@.len() == 0 ==> admitted
            &&& stall_refine ==> !admitted && !starts
            &&& !runtime.frames.optional_admitted(now) ==> !admitted && !starts
            &&& admitted && core.refinement_job is None && optional_ready && full_field_ready
                && runtime.eval.ui.refining && !core.pending_eval && !core.worker_refine_pending
                && runtime.eval.deferred_full_field is None ==> starts
            &&& core.refinement_job is Some || !optional_ready || !full_field_ready
                || !runtime.eval.ui.refining || core.pending_eval || core.worker_refine_pending
                || runtime.eval.deferred_full_field is Some ==> !starts
        }),
{
}

/// The loop stays awake for whatever is left: exports and jobs everywhere, and in
/// the editor for pending evaluations, running refinements, suffixes and uploads.
/// Outside the editor these do not count.
pub proof fn work_keeps_the_loop_awake(runtime: Runtime, turn: Turn)
    ensures
        turn.export_busy || turn.jobs.any_pending ==> runtime.work_left(turn),
        turn.in_editor && (runtime.eval.core.pending_eval
            || runtime.eval.core.worker_refine_pending || runtime.eval.core.refinement_job is Some
            || runtime.eval.ui.refining || runtime.eval.deferred_full_field is Some
            || runtime.waiting.tile_uploads > 0) ==> runtime.work_left(turn),
        !turn.in_editor && !turn.export_busy && !turn.jobs.any_pending ==> !runtime.work_left(turn),
{
}

/// A turn looks again soon while something runs, at the pace of refinement while
/// anything is left, and never on its own when nothing is. It does not wait at all
/// while the camera flies or a stroke has an evaluation pending.
pub proof fn a_turn_looks_again_in_time(
    runtime: Runtime,
    turn: Turn,
    interval: Duration,
    wake: WakeRequest,
)
    requires
        call_ensures(Runtime::wake_request, (&runtime, &turn, interval), wake),
    ensures
        turn.camera_flying ==> wake.continuous,
        turn.live_paint && runtime.eval.core.pending_eval ==> wake.continuous,
        !turn.camera_flying && !(turn.live_paint && runtime.eval.core.pending_eval)
            ==> !wake.continuous,
        runtime.eval.core.worker_refine_pending || runtime.eval.core.refinement_job is Some
            || turn.jobs.animate ==> wake.fallback == Some(Duration { nanos: 16_000_000 }),
        !runtime.eval.core.worker_refine_pending && runtime.eval.core.refinement_job is None
            && !turn.jobs.animate && (turn.export_busy || turn.jobs.any_pending || (turn.in_editor
            && runtime.eval.core.pending_eval)) ==> wake.fallback == Some(interval),
        wake.fallback is None ==> !runtime.work_left(turn),
{
}

/// A due evaluation is taken whole: nothing is left pending, and its deadline is
/// cleared. A bounded edit that was not asked for at once is evaluated locally, and
/// from Draft on; every other one completely. What is not due stays pending.
pub proof fn due_evaluations_are_taken_whole(
    state: &mut EvalState,
    stalls: &Stalls,
    live_preview: bool,
    deadline_ready: bool,
    taken: Option<DueDraft>,
)
    requires
        call_ensures(
            EvalState::take_due_draft,
            (state, stalls, live_preview, deadline_ready),
            taken,
        ),
    ensures
        old(state).core.pending_eval && !stalls.stall_draft && (
        old(state).core.pending_eval_immediate || stalls.live_paint || (live_preview
            && deadline_ready)) ==> taken is Some,
        !deadline_ready && !stalls.live_paint && !old(state).core.pending_eval_immediate
            ==> taken is None,
        !live_preview && !stalls.live_paint && !old(state).core.pending_eval_immediate
            ==> taken is None,
        stalls.stall_draft || !old(state).core.pending_eval ==> taken is None,
        taken is None ==> *final(state) == *old(state),
        taken matches Some(due) ==> {
            &&& !final(state).core.pending_eval
            &&& !final(state).core.pending_eval_immediate
            &&& due.effect == EvalEffect::ClearDeadline(FrameDeadlineKind::InteractiveEvaluation)
            &&& old(state).core.pending_eval_immediate ==> due.intent is Complete
                && final(state).core.force_draft == old(state).core.force_draft
            &&& !old(state).core.pending_eval_immediate ==> final(state).core.force_draft
            &&& !old(state).core.pending_eval_immediate
                && old(state).core.pending_gpu_dirty_region is Some
                ==> due.intent is InteractiveLocal
            &&& old(state).core.pending_gpu_dirty_region is None ==> due.intent is Complete
            &&& final(state).core.eval_token == old(state).core.eval_token
            &&& final(state).core.worker_dirty == old(state).core.worker_dirty
        },
{
}

/// Leaving wins over everything, and start-up over running.
pub proof fn leaving_wins_over_start_up(
    runtime: &mut Runtime,
    show_profiler: bool,
    trace_setting: Option<&str>,
    pending_exit: bool,
    startup_failed: bool,
    booting: bool,
    start: TurnStart,
)
    requires
        call_ensures(
            Runtime::begin_turn,
            (runtime, show_profiler, trace_setting, pending_exit, startup_failed, booting),
            start,
        ),
    ensures
        pending_exit || startup_failed || old(runtime).frames.shutdown ==> start is Exit,
        !pending_exit && !startup_failed && !old(runtime).frames.shutdown && booting
            ==> start is Boot,
        !pending_exit && !startup_failed && !old(runtime).frames.shutdown && !booting
            ==> start is Run,
        show_profiler ==> final(runtime).trace.verbose,
{
}

/// The splash moves while the boot runs, and waits once it is over; only a boot that
/// finished has something to prepare.
pub proof fn the_splash_moves_while_booting(finished: bool, failed: bool, turn: BootTurn)
    requires
        call_ensures(boot_turn, (finished, failed), turn),
    ensures
        !finished && !failed ==> turn.wake == LoopWake::WaitFor(Duration { nanos: 33_000_000 }),
        finished || failed ==> turn.wake is Wait,
        turn.prepare_presentation <==> finished,
{
}

/// Captured changes of the surface are handed out once.
pub proof fn surface_changes_are_handed_out_once(
    runtime: &mut Runtime,
    now: Instant,
    changes: SurfaceChanges,
)
    requires
        call_ensures(Runtime::apply_surface_changes, (runtime, now), changes),
    ensures
        changes.reconfigure <==> old(runtime).waiting.surface_reconfigure,
        changes.resize == old(runtime).waiting.surface_resize,
        !final(runtime).waiting.surface_reconfigure,
        final(runtime).waiting.surface_resize is None,
        final(runtime).waiting.ui_effects == old(runtime).waiting.ui_effects,
        final(runtime).waiting.tile_uploads == old(runtime).waiting.tile_uploads,
{
}

/// A deferred suffix of an older generation is dropped; a gesture holds it; the end
/// of the gesture arms it once for 75 milliseconds later, and what is armed keeps
/// its instant.
pub proof fn the_end_of_a_gesture_arms_the_suffix(
    state: &mut EvalState,
    live_paint: bool,
    now: Instant,
    refine: Duration,
    effects: Vec<EvalEffect>,
)
    requires
        call_ensures(EvalState::advance_deferred_suffix, (state, live_paint, now, refine), effects),
        old(state).deferred_full_field is Some,
        now.nanos + 75_000_000 <= u128::MAX,
    ensures
        ({
            let suffix = old(state).deferred_full_field->0;
            let current = suffix.generation == old(state).core.eval_token;
            &&& !current ==> final(state).deferred_full_field is None
            &&& current && live_paint ==> (final(state).deferred_full_field matches Some(held)
                && held.settle_at is None && held.generation == suffix.generation)
                && effects@.len() == 0
            &&& current && !live_paint && suffix.settle_at is None ==> (
            final(state).deferred_full_field matches Some(armed) && (
            armed.settle_at matches Some(at) && at.nanos == now.nanos + 75_000_000))
                && effects@.contains(
                EvalEffect::ScheduleDeadline {
                    kind: FrameDeadlineKind::DeferredFullField,
                    generation: EditGeneration(old(state).core.eval_token),
                    after: Duration { nanos: 75_000_000 },
                },
            )
            &&& current && !live_paint && suffix.settle_at is Some ==> final(state).deferred_full_field == old(state).deferred_full_field && effects@.len() == 0
        }),
        final(state).core == old(state).core,
{
    if effects@.len() == 2 {
        assert(effects@[0] is ScheduleDeadline);
    }
}

/// A suffix that is ready is shown as refining and its deadline is cleared; one that
/// is not changes nothing.
pub proof fn ready_suffixes_are_completed(
    state: &mut EvalState,
    now: Instant,
    effect: Option<EvalEffect>,
)
    requires
        call_ensures(EvalState::complete_ready_suffix, (state, now), effect),
    ensures
        effect is Some ==> (old(state).deferred_full_field matches Some(suffix)
            && suffix.generation == old(state).core.eval_token && (
        suffix.settle_at matches Some(at) && at.nanos <= now.nanos)) && !old(state).core.pending_eval
            && !old(state).core.worker_refine_pending && final(state).texts.freshness
            is RefiningSuffix && effect == Some(
            EvalEffect::ClearDeadline(FrameDeadlineKind::DeferredFullField),
        ),
        effect is None ==> *final(state) == *old(state),
        (old(state).deferred_full_field matches Some(suffix) && suffix.generation
            == old(state).core.eval_token && (suffix.settle_at matches Some(at) && at.nanos
            <= now.nanos)) && !old(state).core.pending_eval
            && !old(state).core.worker_refine_pending ==> effect is Some,
{
}

/// Outdated physics layers are rebuilt unless there are none or the rebuild would
/// repeat the last one: then nothing changes. A rebuild starts over under the new
/// token and dirties every one of them.
pub proof fn outdated_physics_is_rebuilt(
    state: &mut EvalState,
    layers: &[StackLayer],
    ids: &[LayerId],
    redundant: bool,
    token: u64,
    name: Option<String>,
    debounce: u64,
    now: Instant,
    timing: RefineTiming,
    effects: Option<Vec<EvalEffect>>,
    which: int,
    index: int,
    u: u32,
    v: u32,
)
    requires
        call_ensures(
            EvalState::auto_rebuild_physics,
            (state, layers, ids, redundant, token, name, debounce, now, timing),
            effects,
        ),
        0 <= which < ids@.len(),
        crate::dirty::first_position(layers@, ids@[which]) matches Some(at) ==> at <= index,
    ensures
        redundant ==> effects is None && *final(state) == *old(state),
        !redundant ==> effects is Some && final(state).core.pending_eval && final(state).core.eval_token == token && final(state).core.force_draft && !final(state).core.worker_refine_pending && final(state).core.refinement_job is None && final(state).core.worker_dirty.covers(layers@, index, u, v) && final(state).ui.refining,
{
    every_listed_layer_is_dirtied(
        old(state).core.worker_dirty,
        layers@,
        ids@,
        which,
        index,
        u,
        v,
    );
}

/// A refinement that the worker takes sets the rung; the end of the ladder shows
/// Full and nothing in progress; the progress bar moves exactly while the worker
/// has a job.
pub proof fn the_bar_moves_while_the_worker_runs(
    state: &mut EvalState,
    now: Instant,
    moving: bool,
)
    requires
        call_ensures(EvalState::show_worker_progress, (state, now), moving),
    ensures
        moving <==> old(state).core.worker_refine_pending,
        moving ==> (final(state).ui.build_progress matches Some(
            BuildProgress::InFlight { quality, elapsed },
        ) && quality == old(state).core.scheduler_quality && (old(state).core.last_refine.nanos
            <= now.nanos ==> elapsed.nanos == now.nanos - old(state).core.last_refine.nanos)),
        !moving ==> final(state).ui == old(state).ui,
        final(state).core == old(state).core,
{
}

/// A refinement in progress advances exactly while optional work is admitted.
pub proof fn refinement_advances_while_admitted(
    runtime: Runtime,
    stall_refine: bool,
    now: Instant,
    may: bool,
)
    requires
        call_ensures(Runtime::may_advance_refinement, (&runtime, stall_refine, now), may),
    ensures
        runtime.eval.core.refinement_job is None || stall_refine || runtime.input.pending@.len() > 0
            || runtime.frames.pending is Some ==> !may,
        runtime.eval.core.refinement_job is Some && !stall_refine
            && runtime.input.pending@.len() == 0 && runtime.frames.optional_admitted(now) ==> may,
{
}

/// An export that is done says where it went or why it failed, once; one without a
/// result is idle.
pub proof fn finished_exports_are_told(
    done: bool,
    result: Option<Result<String, String>>,
    turn: ExportTurn,
)
    requires
        call_ensures(export_turn, (done, result), turn),
    ensures
        turn is Running <==> !done,
        turn is Idle <==> done && result is None,
        done ==> (result matches Some(Ok(path)) ==> (turn matches ExportTurn::Finished { status }
            && status@ == "Exported "@ + path@)),
        done ==> (result matches Some(Err(error)) ==> (turn matches ExportTurn::Finished { status }
            && status@ == "Export failed: "@ + error@)),
{
}

/// A surface has changed where it is to be configured again or has a new size.
pub proof fn surfaces_change_by_either(changes: SurfaceChanges, changed: bool)
    requires
        call_ensures(SurfaceChanges::changed, (&changes,), changed),
    ensures
        changes.reconfigure ==> changed,
        changes.resize is Some ==> changed,
        !changes.reconfigure && changes.resize is None ==> !changed,
{
}

/// A refinement on the worker is shown and scheduled at its own quality.
pub proof fn worker_refinements_have_their_quality(state: &mut EvalState, target: PreviewQuality)
    requires
        call_ensures(EvalState::refine_on_worker, (state, target), ()),
    ensures
        final(state).core.scheduler_quality == target,
        final(state).ui.quality == target,
        final(state).core.pending_eval == old(state).core.pending_eval,
        final(state).core.eval_token == old(state).core.eval_token,
        final(state).ui.refining == old(state).ui.refining,
{
}

/// A submitted refinement is shown as begun at its own quality.
pub proof fn submitted_refinements_are_shown(state: &mut EvalState, target: PreviewQuality)
    requires
        call_ensures(EvalState::worker_refinement_submitted, (state, target), ()),
    ensures
        final(state).ui.build_progress matches Some(BuildProgress::InFlight { quality, elapsed })
            && quality == target && elapsed.nanos == 0,
        final(state).core == old(state).core,
{
}

/// At the top of the ladder the full quality is shown and nothing is refined.
pub proof fn the_top_of_the_ladder_is_full(state: &mut EvalState)
    requires
        call_ensures(EvalState::settle_ladder, (state,), ()),
    ensures
        !final(state).ui.refining,
        final(state).ui.quality is Full,
        final(state).ui.build_progress is None,
        final(state).texts.refining_layer_name is None,
        final(state).core == old(state).core,
{
}

/// An export keeps the loop awake until it is idle.
pub proof fn exports_keep_the_loop_awake(turn: ExportTurn, busy: bool)
    requires
        call_ensures(ExportTurn::busy, (&turn,), busy),
    ensures
        turn is Idle <==> !busy,
{
}

} // verus!
