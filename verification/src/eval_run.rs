//! One evaluation from its start to its end.
//!
//! The caller resolves the metrics, compiles the plan, runs the engine and
//! talks to the worker. Each of these comes back as an event, and the next
//! action follows from the stage and the event alone.
use vstd::prelude::*;

use crate::dirty::FullField;
use crate::eval::{EvalCore, EvalEffect, EvalState, WorkerRequest};
use crate::eval_step::{
    DirtyRectUse, EvalStep, GpuResult, GpuVerdict, PlanRequest, Presentation, StepObservation,
};
use crate::frame_trace::EvaluationTraceId;
use crate::quality::{GpuEvaluationIntent, PreviewQuality};

verus! {

/// Where an evaluation stands.
#[derive(Debug, Clone, Copy, PartialEq, Eq, Structural)]
pub enum RunStage {
    /// The metrics are being resolved.
    Metrics,
    /// The plan is being compiled.
    Plan,
    /// The engine runs.
    Gpu,
    /// The worker has to be asked; `closes` says that the evaluation is closed
    /// afterwards.
    AskWorker { closes: bool },
    /// The worker has the request.
    Submitting { closes: bool, quality: PreviewQuality },
    /// Only the timing is missing.
    Closing,
    Over,
}

impl RunStage {
    /// How many events lie ahead at most.
    pub open spec fn rank(self) -> nat {
        match self {
            RunStage::Metrics => 6,
            RunStage::Plan => 5,
            RunStage::Gpu => 4,
            RunStage::AskWorker { .. } => 3,
            RunStage::Submitting { .. } => 2,
            RunStage::Closing => 1,
            RunStage::Over => 0,
        }
    }

    /// What follows the worker.
    pub open spec fn beyond_worker(closes: bool) -> RunStage {
        if closes {
            RunStage::Closing
        } else {
            RunStage::Over
        }
    }
}

/// An evaluation under way.
#[derive(Debug, Clone, Copy, PartialEq, Eq, Structural)]
pub struct EvalRun {
    pub step: EvalStep,
    pub evaluation: EvaluationTraceId,
    pub stage: RunStage,
    /// The GPU answered, or the worker was asked in its place.
    pub completed: bool,
}

/// What came back from outside.
#[derive(Debug)]
pub enum RunEvent {
    MetricsInvalid(String),
    MetricsResolved,
    PlanAcquired,
    PlanUnsupported { eval_us: u64 },
    /// There is no engine.
    GpuAbsent,
    GpuFailed,
    GpuReturned { result: GpuResult, visible_us: u64, settled_us: u64 },
    /// What the request to the worker is made of.
    WorkerSight { selected_layer_name: Option<String>, field: FullField },
    WorkerTook,
    WorkerRefused(String),
    Timed { eval_us: u64 },
}

/// What to do next.
pub enum RunAction {
    /// Resolve the metrics at this quality.
    ResolveMetrics(PreviewQuality),
    AcquirePlan(PlanRequest),
    RunGpu(DirtyRectUse),
    /// Look at the selection and the field for the worker.
    LookForWorker,
    Submit(WorkerRequest),
    /// Measure the evaluation.
    Time,
    /// Nothing: the evaluation is over.
    Rest,
    /// The event does not belong to the stage.
    Refuse,
}

/// The answer to an event.
pub struct RunReply {
    pub run: EvalRun,
    /// What of the engine's result reaches the screen.
    pub presentation: Option<Presentation>,
    /// The output may seed the streamed pyramid.
    pub pyramid: bool,
    /// What the worker needs.
    pub effects: Vec<EvalEffect>,
    pub action: RunAction,
}

impl EvalRun {
    /// The event belongs to the stage.
    pub open spec fn expects(self, event: RunEvent) -> bool {
        match self.stage {
            RunStage::Metrics => event is MetricsInvalid || event is MetricsResolved,
            RunStage::Plan => event is PlanAcquired || event is PlanUnsupported,
            RunStage::Gpu => event is GpuAbsent || event is GpuFailed || event is GpuReturned,
            RunStage::AskWorker { .. } => event is WorkerSight,
            RunStage::Submitting { .. } => event is WorkerTook || event is WorkerRefused,
            RunStage::Closing => event is Timed,
            RunStage::Over => false,
        }
    }

    /// The engine's result is of the generation that `core` holds.
    pub open spec fn is_current(self, core: EvalCore) -> bool {
        self.step.token == core.eval_token
    }

    /// An expected event sends the stack to the worker.
    pub open spec fn falls_to_worker(self, core: EvalCore, event: RunEvent) -> bool {
        &&& !core.worker_refine_pending
        &&& match event {
            RunEvent::PlanUnsupported { .. } => true,
            RunEvent::GpuAbsent => true,
            RunEvent::GpuFailed => true,
            RunEvent::GpuReturned { result, .. } => !self.is_current(core)
                || EvalState::cpu_takes_over(result),
            _ => false,
        }
    }

    /// The stage after an expected event.
    pub open spec fn stage_after(self, before: EvalState, event: RunEvent) -> RunStage {
        match event {
            RunEvent::MetricsInvalid(_) => RunStage::Over,
            RunEvent::MetricsResolved => RunStage::Plan,
            RunEvent::PlanAcquired => RunStage::Gpu,
            RunEvent::PlanUnsupported { .. } => if self.falls_to_worker(before.core, event) {
                RunStage::AskWorker { closes: false }
            } else {
                RunStage::Over
            },
            RunEvent::GpuAbsent => self.stage_after_gpu(before.core, event),
            RunEvent::GpuFailed => self.stage_after_gpu(before.core, event),
            RunEvent::GpuReturned { .. } => self.stage_after_gpu(before.core, event),
            RunEvent::WorkerSight { field, .. } => match self.stage {
                RunStage::AskWorker { closes } => RunStage::Submitting {
                    closes,
                    quality: before.request_for(self.step.quality, field).quality,
                },
                _ => self.stage,
            },
            RunEvent::WorkerTook => self.stage_after_worker(),
            RunEvent::WorkerRefused(_) => self.stage_after_worker(),
            RunEvent::Timed { .. } => RunStage::Over,
        }
    }

    /// The stage once the engine is done with.
    pub open spec fn stage_after_gpu(self, core: EvalCore, event: RunEvent) -> RunStage {
        if self.falls_to_worker(core, event) {
            RunStage::AskWorker { closes: true }
        } else {
            RunStage::Closing
        }
    }

    /// The stage once the worker has answered.
    pub open spec fn stage_after_worker(self) -> RunStage {
        match self.stage {
            RunStage::Submitting { closes, .. } => RunStage::beyond_worker(closes),
            _ => self.stage,
        }
    }

    /// Whether an expected event completes the evaluation.
    pub open spec fn completes(self, core: EvalCore, event: RunEvent) -> bool {
        match event {
            RunEvent::GpuAbsent => self.falls_to_worker(core, event),
            RunEvent::GpuFailed => true,
            RunEvent::GpuReturned { .. } => self.is_current(core) || self.falls_to_worker(
                core,
                event,
            ),
            _ => false,
        }
    }

    /// The evaluation after an expected event.
    pub open spec fn after(self, before: EvalState, event: RunEvent) -> EvalRun {
        EvalRun {
            stage: self.stage_after(before, event),
            completed: self.completed || self.completes(before.core, event),
            ..self
        }
    }

    /// What an expected event makes of the state.
    pub open spec fn state_advanced(
        self,
        before: EvalState,
        after: EvalState,
        event: RunEvent,
    ) -> bool {
        match event {
            RunEvent::MetricsInvalid(error) => if self.is_current(before.core) {
                EvalState::failed(before, after, self.step.quality, None, false, error@)
            } else {
                after == before
            },
            RunEvent::MetricsResolved => after == (EvalState {
                pending_plan_edits: after.pending_plan_edits,
                ..before
            }) && after.pending_plan_edits@.len() == 0,
            RunEvent::PlanAcquired => after == (EvalState {
                core: EvalCore { pending_plan_invalidation: true, ..before.core },
                ..before
            }),
            RunEvent::PlanUnsupported { eval_us } => after == before.without_plan(eval_us),
            RunEvent::GpuAbsent => after == if self.falls_to_worker(before.core, event) {
                before.on_cpu_path()
            } else {
                before
            },
            RunEvent::GpuFailed => after == before.without_gpu(),
            RunEvent::GpuReturned { result, visible_us, settled_us } => if self.is_current(
                before.core,
            ) {
                EvalState::result_accepted(
                    before,
                    after,
                    self.step,
                    result,
                    self.evaluation,
                    visible_us,
                    settled_us,
                )
            } else {
                after == if self.falls_to_worker(before.core, event) {
                    before.on_cpu_path()
                } else {
                    before
                }
            },
            RunEvent::WorkerSight { selected_layer_name, field } => EvalState::request_built(
                before,
                after,
                self.step.quality,
                selected_layer_name,
                field,
            ),
            RunEvent::WorkerTook => after == before.submitted(),
            RunEvent::WorkerRefused(message) => match self.stage {
                RunStage::Submitting { quality, .. } => EvalState::submission_refused(
                    before,
                    after,
                    quality,
                    message@,
                ),
                _ => after == before,
            },
            RunEvent::Timed { eval_us } => after == before.closed(
                self.step,
                self.completed,
                eval_us,
            ),
        }
    }

    /// The action that follows an expected event.
    pub open spec fn action_fits(
        self,
        before: EvalState,
        after: EvalState,
        event: RunEvent,
        action: RunAction,
    ) -> bool {
        match self.stage_after(before, event) {
            RunStage::Metrics => false,
            RunStage::Plan => action matches RunAction::AcquirePlan(request)
                && EvalState::plan_requested(before, after, request),
            RunStage::Gpu => action == RunAction::RunGpu(before.rect_use(self.step.intent)),
            RunStage::AskWorker { .. } => action is LookForWorker,
            RunStage::Submitting { .. } => event matches RunEvent::WorkerSight { field, .. }
                && action == RunAction::Submit(before.request_for(self.step.quality, field)),
            RunStage::Closing => action is Time,
            RunStage::Over => action is Rest,
        }
    }

    /// What an expected event shows of the engine's output.
    pub open spec fn presentation_after(self, core: EvalCore, event: RunEvent) -> Option<
        Presentation,
    > {
        match event {
            RunEvent::GpuReturned { result, .. } => Some(
                if self.is_current(core) {
                    EvalState::presentation_of(result)
                } else {
                    Presentation::RefusedStale
                },
            ),
            RunEvent::GpuFailed => Some(Presentation::RefusedNoOutput),
            _ => None,
        }
    }

    /// Whether an expected event seeds the pyramid.
    pub open spec fn pyramid_after(self, core: EvalCore, event: RunEvent) -> bool {
        match event {
            RunEvent::GpuReturned { result, .. } => self.is_current(core) && result.has_output,
            _ => false,
        }
    }

    /// What an expected event asks of the worker.
    pub open spec fn effects_after(self, core: EvalCore, event: RunEvent) -> Seq<EvalEffect> {
        match event {
            RunEvent::WorkerRefused(_) => seq![
                EvalEffect::RestartWorker,
                EvalEffect::SetWorkerToken(core.eval_token),
            ],
            _ => Seq::empty(),
        }
    }

    fn at(self, stage: RunStage) -> (r: EvalRun)
        ensures
            r == (EvalRun { stage, ..self }),
    {
        EvalRun { stage, ..self }
    }

    /// The answer without anything to show.
    fn quietly(self, stage: RunStage, action: RunAction) -> (r: RunReply)
        ensures
            r.run == (EvalRun { stage, ..self }),
            r.presentation is None,
            !r.pyramid,
            r.effects@ == Seq::<EvalEffect>::empty(),
            r.action == action,
    {
        RunReply {
            run: self.at(stage),
            presentation: None,
            pyramid: false,
            effects: Vec::new(),
            action,
        }
    }

    /// On to the worker, or past it.
    fn to_worker(self, enqueue: bool, closes: bool) -> (r: RunReply)
        ensures
            r.run == (EvalRun {
                stage: if enqueue {
                    RunStage::AskWorker { closes }
                } else {
                    RunStage::beyond_worker(closes)
                },
                ..self
            }),
            r.presentation is None,
            !r.pyramid,
            r.effects@ == Seq::<EvalEffect>::empty(),
            if enqueue {
                r.action is LookForWorker
            } else if closes {
                r.action is Time
            } else {
                r.action is Rest
            },
    {
        if enqueue {
            self.quietly(RunStage::AskWorker { closes }, RunAction::LookForWorker)
        } else if closes {
            self.quietly(RunStage::Closing, RunAction::Time)
        } else {
            self.quietly(RunStage::Over, RunAction::Rest)
        }
    }
}

impl EvalState {
    /// Opens an evaluation.
    pub fn begin_run(
        &mut self,
        intent: GpuEvaluationIntent,
        observation: StepObservation,
        evaluation: EvaluationTraceId,
    ) -> (r: RunReply)
        ensures
            Self::step_opened(*old(self), *final(self), intent, observation, r.run.step),
            r.run == (EvalRun {
                step: r.run.step,
                evaluation,
                stage: RunStage::Metrics,
                completed: false,
            }),
            r.action == RunAction::ResolveMetrics(r.run.step.quality),
            r.presentation is None,
            !r.pyramid,
            r.effects@ == Seq::<EvalEffect>::empty(),
    {
        let step = self.run_eval_step_with_intent(intent, observation);
        RunReply {
            run: EvalRun { step, evaluation, stage: RunStage::Metrics, completed: false },
            presentation: None,
            pyramid: false,
            effects: Vec::new(),
            action: RunAction::ResolveMetrics(step.quality),
        }
    }

    /// Takes an event in and says what to do next. An event that does not
    /// belong to the stage changes nothing.
    pub fn advance_run(&mut self, run: EvalRun, event: RunEvent) -> (r: RunReply)
        ensures
            run.expects(event) ==> {
                &&& run.state_advanced(*old(self), *final(self), event)
                &&& r.run == run.after(*old(self), event)
                &&& r.presentation == run.presentation_after(old(self).core, event)
                &&& r.pyramid == run.pyramid_after(old(self).core, event)
                &&& r.effects@ == run.effects_after(old(self).core, event)
                &&& run.action_fits(*old(self), *final(self), event, r.action)
            },
            !run.expects(event) ==> {
                &&& *final(self) == *old(self)
                &&& r.run == run
                &&& r.presentation is None
                &&& !r.pyramid
                &&& r.effects@ == Seq::<EvalEffect>::empty()
                &&& r.action is Refuse
            },
    {
        match run.stage {
            RunStage::Metrics => match event {
                RunEvent::MetricsInvalid(error) => {
                    self.handle_evaluation_failure_details(
                        run.step.token,
                        run.step.quality,
                        None,
                        false,
                        error,
                    );
                    run.quietly(RunStage::Over, RunAction::Rest)
                },
                RunEvent::MetricsResolved => {
                    let request = self.take_plan_request();
                    run.quietly(RunStage::Plan, RunAction::AcquirePlan(request))
                },
                _ => run.quietly(run.stage, RunAction::Refuse),
            },
            RunStage::Plan => match event {
                RunEvent::PlanAcquired => {
                    self.plan_acquired();
                    let rect = self.dirty_rect_for(run.step.intent);
                    run.quietly(RunStage::Gpu, RunAction::RunGpu(rect))
                },
                RunEvent::PlanUnsupported { eval_us } => {
                    let enqueue = self.plan_unsupported(eval_us);
                    run.to_worker(enqueue, false)
                },
                _ => run.quietly(run.stage, RunAction::Refuse),
            },
            RunStage::Gpu => match event {
                RunEvent::GpuAbsent => {
                    let enqueue = self.cpu_last_resort(false);
                    EvalRun { completed: run.completed || enqueue, ..run }.to_worker(enqueue, true)
                },
                RunEvent::GpuFailed => {
                    let verdict = self.gpu_evaluation_failed();
                    Self::after_verdict(run, verdict, verdict.enqueue)
                },
                RunEvent::GpuReturned { result, visible_us, settled_us } => {
                    let verdict = self.accept_gpu_result(
                        run.step,
                        result,
                        run.evaluation,
                        visible_us,
                        settled_us,
                    );
                    let last_resort = self.cpu_last_resort(verdict.used_gpu);
                    Self::after_verdict(run, verdict, verdict.enqueue || last_resort)
                },
                _ => run.quietly(run.stage, RunAction::Refuse),
            },
            RunStage::AskWorker { closes } => match event {
                RunEvent::WorkerSight { selected_layer_name, field } => {
                    let request = self.enqueue_async_eval(
                        run.step.quality,
                        selected_layer_name,
                        field,
                    );
                    run.quietly(
                        RunStage::Submitting { closes, quality: request.quality },
                        RunAction::Submit(request),
                    )
                },
                _ => run.quietly(run.stage, RunAction::Refuse),
            },
            RunStage::Submitting { closes, quality } => match event {
                RunEvent::WorkerTook => {
                    self.async_eval_submitted();
                    run.to_worker(false, closes)
                },
                RunEvent::WorkerRefused(message) => {
                    let effects = self.async_eval_rejected(quality, message);
                    let reply = run.to_worker(false, closes);
                    RunReply { effects, ..reply }
                },
                _ => run.quietly(run.stage, RunAction::Refuse),
            },
            RunStage::Closing => match event {
                RunEvent::Timed { eval_us } => {
                    self.finish_eval_step(run.step, run.completed, eval_us);
                    run.quietly(RunStage::Over, RunAction::Rest)
                },
                _ => run.quietly(run.stage, RunAction::Refuse),
            },
            RunStage::Over => run.quietly(run.stage, RunAction::Refuse),
        }
    }

    /// The answer once the engine is done with.
    fn after_verdict(run: EvalRun, verdict: GpuVerdict, enqueue: bool) -> (r: RunReply)
        ensures
            r.run == (EvalRun {
                stage: if enqueue {
                    RunStage::AskWorker { closes: true }
                } else {
                    RunStage::Closing
                },
                completed: run.completed || verdict.completed || enqueue,
                ..run
            }),
            r.presentation == Some(verdict.presentation),
            r.pyramid == verdict.pyramid,
            r.effects@ == Seq::<EvalEffect>::empty(),
            if enqueue {
                r.action is LookForWorker
            } else {
                r.action is Time
            },
    {
        let done = EvalRun { completed: run.completed || verdict.completed || enqueue, ..run };
        let reply = done.to_worker(enqueue, true);
        RunReply { presentation: Some(verdict.presentation), pyramid: verdict.pyramid, ..reply }
    }
}

/// Every expected event brings an evaluation closer to its end, so an
/// evaluation takes at most six of them, and its worker is asked at most once.
pub proof fn every_event_brings_the_end_closer(run: EvalRun, before: EvalState, event: RunEvent)
    requires
        run.expects(event),
    ensures
        run.after(before, event).stage.rank() < run.stage.rank(),
        run.stage.rank() <= 6,
{
}

/// A stack without a compiled plan never reaches the engine.
pub proof fn no_plan_no_engine(run: EvalRun, before: EvalState, event: RunEvent)
    requires
        run.expects(event),
        run.after(before, event).stage is Gpu,
    ensures
        event is PlanAcquired,
        run.stage is Plan,
{
}

/// A worker that still has a job is not given another.
pub proof fn a_busy_worker_is_not_asked_again(run: EvalRun, before: EvalState, event: RunEvent)
    requires
        run.expects(event),
        before.core.worker_refine_pending,
    ensures
        !(run.after(before, event).stage is AskWorker),
{
}

/// A result that a newer edit has outrun neither reaches the screen nor seeds
/// the pyramid, and it leaves the last complete generation and the texture's
/// pending upload alone.
pub proof fn outrun_results_are_not_shown(
    run: EvalRun,
    before: EvalState,
    after: EvalState,
    event: RunEvent,
)
    requires
        run.stage is Gpu,
        event is GpuReturned,
        run.step.token != before.core.eval_token,
        run.state_advanced(before, after, event),
    ensures
        run.presentation_after(before.core, event) == Some(Presentation::RefusedStale),
        !run.pyramid_after(before.core, event),
        after.core == before.core,
{
}

/// Whatever the engine, the plan or the worker answers, the state keeps the
/// generation: only an edit opens a new one.
pub proof fn an_evaluation_opens_no_generation(
    run: EvalRun,
    before: EvalState,
    after: EvalState,
    event: RunEvent,
)
    requires
        run.expects(event),
        run.state_advanced(before, after, event),
    ensures
        after.core.eval_token == before.core.eval_token,
{
}

/// What the GPU left undone reaches the worker: a current result that leaves layers
/// from any index on, without deferring them, sends the evaluation to the worker
/// while that has no job. An evaluation is closed behind a result without the
/// worker only where nothing was left, where what was left is deferred, or where
/// the worker is busy.
pub proof fn undone_layers_reach_the_worker(
    run: EvalRun,
    before: EvalState,
    after: EvalState,
    result: GpuResult,
    visible_us: u64,
    settled_us: u64,
    action: RunAction,
)
    requires
        run.stage is Gpu,
        run.step.token == before.core.eval_token,
        run.action_fits(
            before,
            after,
            RunEvent::GpuReturned { result, visible_us, settled_us },
            action,
        ),
    ensures
        ({
            let event = RunEvent::GpuReturned { result, visible_us, settled_us };
            let next = run.after(before, event);
            &&& run.expects(event)
            &&& result.resume_cpu_from is Some && result.deferred is None
                && !before.core.worker_refine_pending ==> next.stage == (RunStage::AskWorker {
                closes: true,
            }) && action is LookForWorker
            &&& next.stage is Closing ==> result.resume_cpu_from is None || result.deferred is Some
                || before.core.worker_refine_pending
            &&& result.resume_cpu_from is None ==> next.stage is Closing && action is Time
            &&& next.completed
        }),
{
}

/// Where the GPU gave nothing the worker is asked, if it is free: for a stack
/// without a plan, without an engine, after a failed engine, and for a result that
/// a newer edit has outrun. Only the stack without a plan ends without a closing.
pub proof fn the_worker_is_the_last_resort(
    run: EvalRun,
    before: EvalState,
    event: RunEvent,
)
    requires
        run.expects(event),
        event is PlanUnsupported || event is GpuAbsent || event is GpuFailed || (event
            is GpuReturned && run.step.token != before.core.eval_token),
    ensures
        !before.core.worker_refine_pending ==> run.after(before, event).stage
            == (RunStage::AskWorker { closes: !(event is PlanUnsupported) }),
        before.core.worker_refine_pending && event is PlanUnsupported ==> run.after(
            before,
            event,
        ).stage is Over,
        before.core.worker_refine_pending && !(event is PlanUnsupported) ==> run.after(
            before,
            event,
        ).stage is Closing,
        event is GpuFailed ==> run.after(before, event).completed,
        event is GpuAbsent || event is GpuReturned ==> (run.after(before, event).completed <==> (
        run.completed || !before.core.worker_refine_pending)),
        event is PlanUnsupported ==> run.after(before, event).completed == run.completed,
{
}

/// An evaluation goes from the metrics over the plan to the engine; invalid metrics
/// end it. A request to the worker is sent once it is built, and its answer closes
/// the evaluation or ends it, as was due.
pub proof fn an_evaluation_takes_its_steps_in_order(
    run: EvalRun,
    before: EvalState,
    event: RunEvent,
)
    requires
        run.expects(event),
    ensures
        ({
            let next = run.after(before, event);
            &&& event is MetricsInvalid ==> run.stage is Metrics && next.stage is Over
            &&& event is MetricsResolved ==> run.stage is Metrics && next.stage is Plan
            &&& event is PlanAcquired ==> run.stage is Plan && next.stage is Gpu
            &&& event is WorkerSight ==> (run.stage matches RunStage::AskWorker { closes }
                && next.stage matches RunStage::Submitting { closes: kept, .. } && kept == closes)
            &&& event is WorkerTook || event is WorkerRefused ==> (
            run.stage matches RunStage::Submitting { closes, .. } && (closes ==> next.stage
                is Closing) && (!closes ==> next.stage is Over))
            &&& event is Timed ==> run.stage is Closing && next.stage is Over
            &&& next.step == run.step
            &&& next.evaluation == run.evaluation
            &&& run.completed ==> next.completed
        }),
{
}

/// What the action is follows from where the evaluation stands: the plan gets the
/// pending edits, the engine the rectangle of the gesture for a preview of it, the
/// worker the current generation with all that is dirty.
pub proof fn actions_carry_what_they_need(
    run: EvalRun,
    before: EvalState,
    after: EvalState,
    event: RunEvent,
    action: RunAction,
)
    requires
        run.expects(event),
        run.state_advanced(before, after, event),
        run.action_fits(before, after, event, action),
    ensures
        event is MetricsResolved ==> (action matches RunAction::AcquirePlan(request)
            && after.pending_plan_edits@.len() == 0 && (request matches PlanRequest::Update(edits)
            ==> edits@ == before.pending_plan_edits@) && (request is Acquire
            ==> before.pending_plan_edits@.len() == 0)),
        event is PlanAcquired && run.step.intent is Complete ==> action == RunAction::RunGpu(
            DirtyRectUse::Clear,
        ),
        event is PlanAcquired && run.step.intent is InteractiveLocal ==> (
        before.core.pending_gpu_dirty_region matches Some(region) ==> action == RunAction::RunGpu(
            DirtyRectUse::Region(region),
        )),
        event is PlanAcquired ==> after.core.pending_plan_invalidation,
        event is WorkerSight ==> (action matches RunAction::Submit(request) && request.token
            == before.core.eval_token && request.scope == before.core.worker_dirty && (
        request.quality == run.step.quality || request.quality is Full)),
        event is WorkerTook ==> after.core.worker_refine_pending && after.ui.refining,
        event is WorkerRefused ==> !after.core.worker_refine_pending
            && after.core.worker_dirty.mark_all && after.core.worker_cache_res is None,
        event is Timed || event is MetricsInvalid ==> action is Rest,
        event matches RunEvent::Timed { eval_us } ==> after.ui.profile.eval_us == eval_us,
        event is Timed && run.completed ==> after.ui.quality == run.step.quality,
{
}

/// A worker that refused is replaced and told the current generation; no other
/// event asks anything of the worker's housing.
pub proof fn a_refusing_worker_is_replaced(run: EvalRun, core: EvalCore, event: RunEvent)
    ensures
        event is WorkerRefused ==> run.effects_after(core, event).len() == 2 && run.effects_after(
            core,
            event,
        )[0] is RestartWorker && run.effects_after(core, event)[1] == EvalEffect::SetWorkerToken(
            core.eval_token,
        ),
        !(event is WorkerRefused) ==> run.effects_after(core, event).len() == 0,
{
}

/// What is shown of the engine: the changed texels of a current result that has
/// them, and nothing of a failed engine. Only a current output with an identity
/// seeds the pyramid.
pub proof fn current_results_are_shown(
    run: EvalRun,
    core: EvalCore,
    result: GpuResult,
    visible_us: u64,
    settled_us: u64,
)
    requires
        run.step.token == core.eval_token,
    ensures
        ({
            let event = RunEvent::GpuReturned { result, visible_us, settled_us };
            &&& run.pyramid_after(core, event) <==> result.has_output
            &&& result.did_eval && result.has_output && result.dirty_region is None
                ==> run.presentation_after(core, event) == Some(Presentation::Shared)
            &&& !result.did_eval ==> run.presentation_after(core, event) == Some(
                Presentation::RefusedNoOutput,
            )
        }),
        run.presentation_after(core, RunEvent::GpuFailed) == Some(Presentation::RefusedNoOutput),
        !run.pyramid_after(core, RunEvent::GpuFailed),
        !run.pyramid_after(core, RunEvent::GpuAbsent),
{
}

/// A stage takes its own events and no other, and none is taken once a run is over.
pub proof fn stages_take_their_own_events(run: EvalRun, event: RunEvent)
    ensures
        run.stage is Metrics ==> (run.expects(event) <==> event is MetricsInvalid || event
            is MetricsResolved),
        run.stage is Plan ==> (run.expects(event) <==> event is PlanAcquired || event
            is PlanUnsupported),
        run.stage is Gpu ==> (run.expects(event) <==> event is GpuAbsent || event is GpuFailed
            || event is GpuReturned),
        run.stage is AskWorker ==> (run.expects(event) <==> event is WorkerSight),
        run.stage is Submitting ==> (run.expects(event) <==> event is WorkerTook || event
            is WorkerRefused),
        run.stage is Closing ==> (run.expects(event) <==> event is Timed),
        run.stage is Over ==> !run.expects(event),
{
}

/// An event of another stage is refused and changes nothing.
pub proof fn foreign_events_are_refused(
    state: &mut EvalState,
    run: EvalRun,
    event: RunEvent,
    reply: RunReply,
)
    requires
        call_ensures(EvalState::advance_run, (state, run, event), reply),
        run.stage is Over || (run.stage is Metrics && !(event is MetricsInvalid) && !(event
            is MetricsResolved)) || (run.stage is Plan && !(event is PlanAcquired) && !(event
            is PlanUnsupported)) || (run.stage is Gpu && !(event is GpuAbsent) && !(event
            is GpuFailed) && !(event is GpuReturned)) || (run.stage is Closing && !(event
            is Timed)),
    ensures
        *final(state) == *old(state),
        reply.run == run,
        reply.action is Refuse,
        reply.effects@.len() == 0,
        reply.presentation is None,
        !reply.pyramid,
{
}

} // verus!
