//! Single-flight compilation of terrain pipelines.
//!
//! At most one compile runs at a time. A newer request replaces the one that
//! waits and asks the running one to stop; its result is then dropped and the
//! newest request starts. The worker itself runs outside: this module says
//! what to start and what to cancel, and takes the outcome back.
use vstd::prelude::*;

verus! {

#[derive(Debug, Clone, Copy, PartialEq, Eq, Structural)]
pub enum TerrainShaderVariant {
    Bounded,
    Infinite,
}

/// Identity of a compile: the shader variant and the project and device that
/// it is for.
#[derive(Debug, Clone, Copy, PartialEq, Eq, Structural)]
pub struct TerrainPipelineRequest {
    pub variant: TerrainShaderVariant,
    pub project_generation: u64,
    pub device_generation: u64,
}

impl TerrainPipelineRequest {
    pub fn matches_live(
        self,
        variant: TerrainShaderVariant,
        project_generation: u64,
        device_generation: u64,
    ) -> (r: bool)
        ensures
            r == (self == TerrainPipelineRequest {
                variant,
                project_generation,
                device_generation,
            }),
    {
        self.variant == variant && self.project_generation == project_generation
            && self.device_generation == device_generation
    }
}

/// A finished compile: the bundle, or why there is none.
pub struct TerrainPipelineCompletion<B> {
    pub request: TerrainPipelineRequest,
    pub result: Result<B, String>,
}

/// A request that waits for the worker, with the compiler that will serve it.
pub struct DesiredCompile<C> {
    pub request: TerrainPipelineRequest,
    pub compiler: C,
}

/// How a worker came back without a result. A panic carries the text that the
/// job runner shows of it.
#[derive(Debug)]
pub enum JobError {
    Cancelled,
    Panicked(String),
}

pub enum TerrainPipelineCompileStatus {
    Idle,
    Pending(TerrainPipelineRequest),
    Failed { request: TerrainPipelineRequest, message: String },
}

/// What the caller has to do with the worker after a call.
pub enum CompileAction<C> {
    Nothing,
    /// Ask the running worker to stop.
    CancelActive,
    /// Start a worker on the request.
    Start(DesiredCompile<C>),
}

/// What is left to wait for after a poll.
#[derive(Debug, Clone, Copy, PartialEq, Eq, Structural)]
pub struct Pending {
    pub busy: bool,
    pub animate: bool,
    pub redraw: bool,
}

pub struct TerrainPipelineCompileCoordinator<C, B> {
    pub desired: Option<DesiredCompile<C>>,
    pub active: Option<TerrainPipelineRequest>,
    pub completion: Option<TerrainPipelineCompletion<B>>,
    pub status: TerrainPipelineCompileStatus,
}

/// What the status line says of a worker that panicked.
pub open spec fn panic_message(message: Seq<char>) -> Seq<char> {
    "pipeline worker panicked: "@ + message
}

impl<C, B> TerrainPipelineCompileCoordinator<C, B> {
    /// A request waits only behind a running compile.
    pub open spec fn wf(self) -> bool {
        self.desired is Some ==> self.active is Some
    }

    pub open spec fn already_serves(self, request: TerrainPipelineRequest) -> bool {
        self.active == Some(request) || (self.desired matches Some(d) && d.request == request)
    }

    /// The state after `request` was asked for.
    pub open spec fn requested(self, request: TerrainPipelineRequest, compiler: C) -> Self {
        if self.already_serves(request) {
            self
        } else if self.active is Some {
            TerrainPipelineCompileCoordinator {
                desired: Some(DesiredCompile { request, compiler }),
                completion: None,
                ..self
            }
        } else {
            TerrainPipelineCompileCoordinator {
                desired: None,
                active: Some(request),
                completion: None,
                status: TerrainPipelineCompileStatus::Pending(request),
            }
        }
    }

    /// The state after the running compile came back while a newer request
    /// waited: its result is gone and the newer one runs.
    pub open spec fn overtaken(self) -> Self {
        TerrainPipelineCompileCoordinator {
            desired: None,
            active: Some(self.desired->0.request),
            status: TerrainPipelineCompileStatus::Pending(self.desired->0.request),
            ..self
        }
    }

    pub fn new() -> (r: Self)
        ensures
            r.wf(),
            r.desired is None,
            r.active is None,
            r.completion is None,
            r.status is Idle,
    {
        TerrainPipelineCompileCoordinator {
            desired: None,
            active: None,
            completion: None,
            status: TerrainPipelineCompileStatus::Idle,
        }
    }

    /// Asks for `request`. One that runs or waits already is left alone;
    /// otherwise it becomes the desired one, and starts at once when nothing
    /// runs.
    pub fn request(&mut self, request: TerrainPipelineRequest, compiler: C) -> (r: CompileAction<C>)
        requires
            old(self).wf(),
        ensures
            final(self).wf(),
            *final(self) == old(self).requested(request, compiler),
            r == if old(self).already_serves(request) {
                CompileAction::Nothing
            } else if old(self).active is Some {
                CompileAction::CancelActive
            } else {
                CompileAction::Start(DesiredCompile { request, compiler })
            },
    {
        if let Some(active) = self.active {
            if active == request {
                return CompileAction::Nothing;
            }
        }
        if let Some(desired) = &self.desired {
            if desired.request == request {
                return CompileAction::Nothing;
            }
        }
        self.completion = None;
        self.desired = Some(DesiredCompile { request, compiler });
        if self.active.is_some() {
            CompileAction::CancelActive
        } else {
            self.start_desired()
        }
    }

    /// Forgets what waits and what is done, and stops what runs.
    pub fn cancel_all(&mut self) -> (r: CompileAction<C>)
        ensures
            final(self).wf(),
            *final(self) == (TerrainPipelineCompileCoordinator {
                desired: None,
                completion: None,
                status: TerrainPipelineCompileStatus::Idle,
                ..*old(self)
            }),
            r == if old(self).active is Some {
                CompileAction::<C>::CancelActive
            } else {
                CompileAction::Nothing
            },
    {
        self.desired = None;
        self.completion = None;
        self.status = TerrainPipelineCompileStatus::Idle;
        if self.active.is_some() {
            CompileAction::CancelActive
        } else {
            CompileAction::Nothing
        }
    }

    pub fn take_completion(&mut self) -> (r: Option<TerrainPipelineCompletion<B>>)
        ensures
            r == old(self).completion,
            *final(self) == (TerrainPipelineCompileCoordinator { completion: None, ..*old(self) }),
    {
        self.completion.take()
    }

    pub fn status(&self) -> (r: &TerrainPipelineCompileStatus)
        ensures
            *r == self.status,
    {
        &self.status
    }

    fn start_desired(&mut self) -> (r: CompileAction<C>)
        requires
            old(self).active is None,
        ensures
            match old(self).desired {
                None => r is Nothing && *final(self) == *old(self),
                Some(desired) => {
                    &&& r == CompileAction::Start(desired)
                    &&& *final(self) == (TerrainPipelineCompileCoordinator {
                        desired: None,
                        active: Some(desired.request),
                        status: TerrainPipelineCompileStatus::Pending(desired.request),
                        ..*old(self)
                    })
                },
            },
    {
        match self.desired.take() {
            None => CompileAction::Nothing,
            Some(desired) => {
                self.active = Some(desired.request);
                self.status = TerrainPipelineCompileStatus::Pending(desired.request);
                CompileAction::Start(desired)
            },
        }
    }

    /// The state after the running compile came back with `outcome` and
    /// nothing newer waits.
    pub open spec fn settled(
        before: Self,
        outcome: Result<Result<B, String>, JobError>,
        after: Self,
    ) -> bool {
        &&& after.desired is None
        &&& after.active is None
        &&& match outcome {
            Ok(Ok(bundle)) => {
                &&& after.status is Idle
                &&& after.completion == Some(
                    TerrainPipelineCompletion { request: before.active->0, result: Ok(bundle) },
                )
            },
            Ok(Err(message)) => {
                &&& after.status == (TerrainPipelineCompileStatus::Failed {
                    request: before.active->0,
                    message,
                })
                &&& after.completion == Some(
                    TerrainPipelineCompletion {
                        request: before.active->0,
                        result: Err::<B, String>(message),
                    },
                )
            },
            Err(JobError::Cancelled) => {
                &&& after.status is Idle
                &&& after.completion == before.completion
            },
            Err(JobError::Panicked(message)) => {
                &&& after.status matches TerrainPipelineCompileStatus::Failed {
                    request,
                    message: shown,
                }
                &&& request == before.active->0
                &&& shown@ == panic_message(message@)
                &&& after.completion matches Some(completion)
                &&& completion.request == before.active->0
                &&& completion.result == Err::<B, String>(shown)
            },
        }
    }

    fn finish_active(&mut self, outcome: Result<Result<B, String>, JobError>)
        requires
            old(self).active is Some,
        ensures
            old(self).desired is None ==> Self::settled(*old(self), outcome, *final(self)),
            old(self).desired is Some ==> *final(self) == (TerrainPipelineCompileCoordinator {
                active: None,
                ..*old(self)
            }),
    {
        let active = self.active.take().unwrap();
        if self.desired.is_some() {
            return;
        }
        let result = match outcome {
            Ok(result) => result,
            Err(JobError::Cancelled) => {
                self.status = TerrainPipelineCompileStatus::Idle;
                return;
            },
            Err(JobError::Panicked(message)) => {
                let mut shown = "pipeline worker panicked: ".to_owned();
                shown.append(message.as_str());
                Err(shown)
            },
        };
        match &result {
            Ok(_) => {
                self.status = TerrainPipelineCompileStatus::Idle;
            },
            Err(message) => {
                self.status =
                TerrainPipelineCompileStatus::Failed { request: active, message: message.clone() };
            },
        }
        self.completion = Some(TerrainPipelineCompletion { request: active, result });
    }

    /// Takes what the worker handed back, if it did. A result that a newer
    /// request has overtaken is dropped, and the newer request starts.
    pub fn pump(&mut self, outcome: Option<Result<Result<B, String>, JobError>>) -> (r: (
        Pending,
        CompileAction<C>,
    ))
        requires
            old(self).wf(),
            outcome is Some ==> old(self).active is Some,
        ensures
            final(self).wf(),
            r.0.busy == (final(self).active is Some),
            r.0.animate == (final(self).active is Some),
            r.0.redraw == (outcome is Some),
            outcome is None ==> r.1 is Nothing && *final(self) == *old(self),
            outcome is Some && old(self).desired is None ==> r.1 is Nothing && Self::settled(
                *old(self),
                outcome->0,
                *final(self),
            ),
            outcome is Some && old(self).desired is Some ==> {
                &&& r.1 == CompileAction::Start(old(self).desired->0)
                &&& *final(self) == old(self).overtaken()
            },
    {
        let mut redraw = false;
        let mut action: CompileAction<C> = CompileAction::Nothing;
        if let Some(outcome) = outcome {
            self.finish_active(outcome);
            redraw = true;
            if self.active.is_none() && self.desired.is_some() {
                action = self.start_desired();
            }
        }
        let running = self.active.is_some();
        (Pending { busy: running, animate: running, redraw }, action)
    }
}

/// The newest request wins: of two that come in while a third compiles, the
/// later one is what runs next, and no completion of the earlier work shows.
pub proof fn newest_request_runs_next<C, B>(
    running: TerrainPipelineCompileCoordinator<C, B>,
    first: TerrainPipelineRequest,
    first_compiler: C,
    second: TerrainPipelineRequest,
    second_compiler: C,
)
    requires
        running.wf(),
        running.active is Some,
        running.active != Some(second),
        first != second,
        !running.already_serves(second),
    ensures
        ({
            let waiting = running.requested(first, first_compiler).requested(
                second,
                second_compiler,
            );
            &&& waiting.wf()
            &&& waiting.active == running.active
            &&& waiting.desired == Some(DesiredCompile { request: second, compiler: second_compiler })
            &&& waiting.completion is None
            &&& waiting.overtaken().active == Some(second)
            &&& waiting.overtaken().completion is None
        }),
{
}

/// Asking again for what runs or waits changes nothing.
pub proof fn repeated_request_is_absorbed<C, B>(
    coordinator: TerrainPipelineCompileCoordinator<C, B>,
    request: TerrainPipelineRequest,
    compiler: C,
    again: C,
)
    requires
        coordinator.wf(),
    ensures
        coordinator.requested(request, compiler).already_serves(request),
        coordinator.requested(request, compiler).requested(request, again)
            == coordinator.requested(request, compiler),
{
}

/// Where nothing runs a request starts at once; behind another one it waits and that
/// one is asked to stop; and one that runs or waits already is left alone.
pub proof fn requests_start_or_wait<C, B>(
    coordinator: &mut TerrainPipelineCompileCoordinator<C, B>,
    request: TerrainPipelineRequest,
    compiler: C,
    action: CompileAction<C>,
)
    requires
        old(coordinator).wf(),
        call_ensures(
            TerrainPipelineCompileCoordinator::<C, B>::request,
            (coordinator, request, compiler),
            action,
        ),
    ensures
        old(coordinator).active is None ==> action == CompileAction::Start(
            DesiredCompile { request, compiler },
        ) && final(coordinator).active == Some(request) && final(coordinator).completion is None
            && final(coordinator).desired is None && final(coordinator).status
            == TerrainPipelineCompileStatus::Pending(request),
        old(coordinator).active == Some(request) ==> action is Nothing && *final(coordinator)
            == *old(coordinator),
        old(coordinator).active is Some && old(coordinator).active != Some(request) && old(coordinator).desired is None ==> action is CancelActive && final(coordinator).desired == Some(
            DesiredCompile { request, compiler },
        ) && final(coordinator).active == old(coordinator).active && final(coordinator).completion
            is None,
{
}

/// A compile that nothing has overtaken leaves its outcome under its own request; an
/// overtaken one leaves nothing, and the newer request starts. A cancelled worker
/// leaves nothing either, and without an outcome nothing changes.
pub proof fn outcomes_belong_to_their_request<C, B>(
    coordinator: &mut TerrainPipelineCompileCoordinator<C, B>,
    outcome: Option<Result<Result<B, String>, JobError>>,
    pumped: (Pending, CompileAction<C>),
)
    requires
        old(coordinator).wf(),
        outcome is Some ==> old(coordinator).active is Some,
        call_ensures(
            TerrainPipelineCompileCoordinator::<C, B>::pump,
            (coordinator, outcome),
            pumped,
        ),
    ensures
        outcome is None ==> *final(coordinator) == *old(coordinator) && pumped.1 is Nothing
            && !pumped.0.redraw,
        outcome is Some ==> pumped.0.redraw,
        pumped.0.busy <==> final(coordinator).active is Some,
        pumped.0.animate <==> final(coordinator).active is Some,
        outcome is Some && old(coordinator).desired is Some ==> pumped.1 == CompileAction::Start(
            old(coordinator).desired->0,
        ) && final(coordinator).active == Some(old(coordinator).desired->0.request) && final(coordinator).completion == old(coordinator).completion,
        outcome is Some && old(coordinator).desired is None ==> {
            &&& final(coordinator).active is None
            &&& pumped.1 is Nothing
            &&& outcome->0 matches Ok(Ok(bundle)) ==> (
            final(coordinator).completion matches Some(done) && Some(done.request) == old(coordinator).active && done.result == Ok::<B, String>(bundle)) && final(coordinator).status is Idle
            &&& outcome->0 matches Ok(Err(message)) ==> (
            final(coordinator).completion matches Some(done) && Some(done.request) == old(coordinator).active && done.result == Err::<B, String>(message)) && final(coordinator).status
                is Failed
            &&& outcome->0 == Err::<Result<B, String>, JobError>(JobError::Cancelled) ==> final(coordinator).completion == old(coordinator).completion && final(coordinator).status is Idle
        },
{
}

/// Cancelling forgets what waits and what is done, and stops what runs.
pub proof fn cancelling_forgets_everything<C, B>(
    coordinator: &mut TerrainPipelineCompileCoordinator<C, B>,
    action: CompileAction<C>,
)
    requires
        call_ensures(
            TerrainPipelineCompileCoordinator::<C, B>::cancel_all,
            (coordinator,),
            action,
        ),
    ensures
        final(coordinator).desired is None,
        final(coordinator).completion is None,
        final(coordinator).status is Idle,
        final(coordinator).active == old(coordinator).active,
        action is CancelActive <==> old(coordinator).active is Some,
        action is Start ==> false,
{
}

/// A request is live for its own variant, project and device.
pub proof fn requests_match_what_they_are_for(
    request: TerrainPipelineRequest,
    variant: TerrainShaderVariant,
    project: u64,
    device: u64,
    live: bool,
)
    requires
        call_ensures(
            TerrainPipelineRequest::matches_live,
            (request, variant, project, device),
            live,
        ),
    ensures
        request.variant == variant && request.project_generation == project
            && request.device_generation == device ==> live,
        request.variant != variant || request.project_generation != project
            || request.device_generation != device ==> !live,
{
}

} // verus!
