//! Projects: the home screen, opening, saving and closing, and what the window
//! is called.
//!
//! Dialogs, files and the document itself are the caller's. A path is known
//! here by the number under which the caller keeps it and by the text that the
//! host shows for it.
use vstd::prelude::*;

use crate::clock::{Duration, Instant};
use crate::dirty::WorkerDirty;
use crate::document_reset::{
    reset_runtime_for_document, DocumentSight, ResetStep, RuntimeReset,
};
use crate::eval::{
    EvalCore, EvalEffect, EvalProfile, EvalState, EvalTexts, EvalUi, PlanEdit, RefineTiming,
    TerrainPreviewFreshness, VisibleResolution,
};
use crate::logical_frame::FrameRequestReason;
use crate::paths::first_project_file;
use crate::presentation_pipelines::{PipelineBoard, PipelineRequest};
use crate::refinement_job::RefinementJob;
use crate::tile_stream::TileStream;

verus! {

#[derive(Debug, Clone, Copy, PartialEq, Eq, Structural)]
pub enum AppScreen {
    Home,
    Editor,
}

/// A path of the host.
#[derive(Debug)]
pub struct ProjectPath {
    pub id: u64,
    pub shown: String,
}

/// A text followed by the path as it is shown.
fn with_path(head: &str, path: &ProjectPath) -> (r: String)
    ensures
        r@ == head@ + path.shown@,
{
    let mut text = head.to_owned();
    text.append(path.shown.as_str());
    text
}

/// What a project is about to be left for.
#[derive(Debug, Clone, Copy, PartialEq, Eq, Structural)]
pub enum PendingProjectAction {
    New,
    Open,
    Close,
    /// Open the path that the caller keeps under this number.
    OpenPath(u64),
}

/// What came of asking for a project action.
#[derive(Debug, Clone, Copy, PartialEq, Eq, Structural)]
pub enum ActionStep {
    /// Unsaved changes: the action waits for an answer, and a frame asks for it.
    Confirm { frame: FrameRequestReason },
    Perform(PendingProjectAction),
}

/// What the caller does for a project, in order.
#[derive(Debug)]
pub enum ProjectEffect {
    RequestFrame(FrameRequestReason),
    /// Enter the editor with the document that waited for its first save.
    EnterPendingDocument,
    /// Enter the editor with the document that was loaded.
    EnterLoadedDocument,
    /// Put the project on the list of recent ones under its document's name.
    RememberRecent,
    /// Put the project on the list under the name it was loaded with.
    PushRecent { name: String },
    RefreshTitle,
    /// The settings of a new world start from their defaults.
    DefaultWorldSettings,
}

/// What background saving and loading came to.
#[derive(Debug)]
pub enum ProjectIoResult {
    Saved { path: ProjectPath },
    Loaded { path: ProjectPath, name: String },
    Failed { path: ProjectPath, error: String },
}

/// Effects and, once they are done, the status line.
#[derive(Debug)]
pub struct ProjectStep {
    pub effects: Vec<ProjectEffect>,
    pub status: Option<String>,
}

/// The project of the session.
#[derive(Debug)]
pub struct ProjectState {
    pub screen: AppScreen,
    pub path: Option<ProjectPath>,
    pub document_dirty: bool,
    pub pending_action: Option<PendingProjectAction>,
    /// The path of a document that is entered once it has been saved.
    pub pending_enter: Option<ProjectPath>,
    pub show_template_picker: bool,
    /// What the home screen says.
    pub notice: Option<String>,
}

/// The title of the window.
pub open spec fn title_of(
    screen: AppScreen,
    name: Seq<char>,
    dirty: bool,
    path: Option<Seq<char>>,
) -> Seq<char> {
    match screen {
        AppScreen::Home => "Terra"@,
        AppScreen::Editor => {
            let document = "Terra â€” "@ + name + (if dirty {
                "*"@
            } else {
                ""@
            });
            match path {
                Some(path) => document + " â€” "@ + path,
                None => document,
            }
        },
    }
}

impl ProjectState {
    /// No project is open.
    pub fn at_home() -> (r: Self)
        ensures
            r.screen == AppScreen::Home,
            r.path is None,
            !r.document_dirty,
            r.pending_action is None,
            r.pending_enter is None,
            !r.show_template_picker,
            r.notice is None,
    {
        ProjectState {
            screen: AppScreen::Home,
            path: None,
            document_dirty: false,
            pending_action: None,
            pending_enter: None,
            show_template_picker: false,
            notice: None,
        }
    }

    pub fn window_title(&self, name: &str) -> (r: String)
        ensures
            r@ == title_of(
                self.screen,
                name@,
                self.document_dirty,
                match self.path {
                    Some(path) => Some(path.shown@),
                    None => None,
                },
            ),
    {
        match self.screen {
            AppScreen::Home => "Terra".to_owned(),
            AppScreen::Editor => {
                let mut title = "Terra â€” ".to_owned();
                title.append(name);
                title.append(
                    if self.document_dirty {
                        "*"
                    } else {
                        ""
                    },
                );
                if let Some(path) = &self.path {
                    title.append(" â€” ");
                    title.append(path.shown.as_str());
                }
                title
            },
        }
    }

    /// Only the flag of unsaved changes moves. The result asks for a new title,
    /// which only the first change does.
    pub fn mark_document_dirty(&mut self) -> (r: bool)
        ensures
            r == !old(self).document_dirty,
            *final(self) == (ProjectState { document_dirty: true, ..*old(self) }),
    {
        let clean = !self.document_dirty;
        self.document_dirty = true;
        clean
    }

    /// There are changes that leaving the project would lose.
    pub open spec fn asks_first(self) -> bool {
        self.screen == AppScreen::Editor && self.document_dirty
    }

    /// What becomes of an action that leaves the project.
    pub open spec fn step_for(self, action: PendingProjectAction) -> ActionStep {
        if self.asks_first() {
            ActionStep::Confirm { frame: FrameRequestReason::UiActions }
        } else {
            ActionStep::Perform(action)
        }
    }

    /// The state once the action was asked for.
    pub open spec fn after_request(self, action: PendingProjectAction) -> ProjectState {
        if self.asks_first() {
            ProjectState { pending_action: Some(action), ..self }
        } else {
            self
        }
    }

    /// The state once the document was saved at `path`.
    pub open spec fn saved_at(self, path: ProjectPath) -> ProjectState {
        ProjectState { path: Some(path), document_dirty: false, ..self }
    }

    /// Leaving a project with unsaved changes needs an answer first.
    pub fn request_project_action(&mut self, action: PendingProjectAction) -> (r: ActionStep)
        ensures
            r == old(self).step_for(action),
            *final(self) == old(self).after_request(action),
    {
        if self.screen == AppScreen::Editor && self.document_dirty {
            self.pending_action = Some(action);
            return ActionStep::Confirm { frame: FrameRequestReason::UiActions };
        }
        ActionStep::Perform(action)
    }

    /// Opens the picker of templates on default settings. The result is the
    /// template that is chosen to begin with, and what else is to be done.
    pub fn begin_new_project(&mut self) -> (r: (&'static str, Vec<ProjectEffect>))
        ensures
            r.0@ == "blank"@,
            r.1@ == seq![
                ProjectEffect::DefaultWorldSettings,
                ProjectEffect::RequestFrame(FrameRequestReason::UiActions),
            ],
            *final(self) == (ProjectState { show_template_picker: true, ..*old(self) }),
    {
        self.show_template_picker = true;
        let mut effects: Vec<ProjectEffect> = Vec::new();
        effects.push(ProjectEffect::DefaultWorldSettings);
        effects.push(ProjectEffect::RequestFrame(FrameRequestReason::UiActions));
        ("blank", effects)
    }

    /// The document at `path` is what the pending document was saved as.
    pub open spec fn enters_after(self, path: ProjectPath) -> bool {
        self.pending_enter matches Some(pending) && pending.id == path.id
    }

    /// Takes in what background saving and loading surfaced: first the passing
    /// status, then the result.
    pub fn drain_project_io(&mut self, progress: Option<String>, result: Option<ProjectIoResult>) -> (r:
        ProjectStep)
        ensures
            ({
                let head = match progress {
                    Some(_) => seq![ProjectEffect::RequestFrame(FrameRequestReason::Completion)],
                    None => seq![],
                };
                match result {
                    None => {
                        &&& r.effects@ == head
                        &&& r.status == progress
                        &&& *final(self) == *old(self)
                    },
                    Some(ProjectIoResult::Saved { path }) => if old(self).enters_after(path) {
                        &&& r.effects@ == head + seq![
                            ProjectEffect::EnterPendingDocument,
                            ProjectEffect::RememberRecent,
                        ]
                        &&& crate::eval::opt_text(r.status) == Some("Created "@ + path.shown@)
                        &&& *final(self) == (ProjectState {
                            pending_enter: None,
                            show_template_picker: false,
                            ..*old(self)
                        })
                    } else {
                        &&& r.effects@ == head + seq![
                            ProjectEffect::RememberRecent,
                            ProjectEffect::RefreshTitle,
                        ]
                        &&& crate::eval::opt_text(r.status) == Some("Saved "@ + path.shown@)
                        &&& *final(self) == old(self).saved_at(path)
                    },
                    Some(ProjectIoResult::Loaded { path, name }) => {
                        &&& r.effects@ == head + seq![
                            ProjectEffect::EnterLoadedDocument,
                            ProjectEffect::PushRecent { name },
                        ]
                        &&& crate::eval::opt_text(r.status) == Some("Loaded "@ + path.shown@)
                        &&& *final(self) == *old(self)
                    },
                    Some(ProjectIoResult::Failed { path, error }) => {
                        &&& r.effects@ == head + seq![
                            ProjectEffect::RequestFrame(FrameRequestReason::Completion),
                        ]
                        &&& crate::eval::opt_text(r.status) == Some(
                            path.shown@ + " failed: "@ + error@,
                        )
                        &&& *final(self) == (ProjectState { pending_enter: None, ..*old(self) })
                    },
                }
            }),
    {
        let mut effects: Vec<ProjectEffect> = Vec::new();
        if progress.is_some() {
            effects.push(ProjectEffect::RequestFrame(FrameRequestReason::Completion));
        }
        let ghost head = effects@;
        assert(head =~= match progress {
            Some(_) => seq![ProjectEffect::RequestFrame(FrameRequestReason::Completion)],
            None => seq![],
        });
        match result {
            None => ProjectStep { effects, status: progress },
            Some(ProjectIoResult::Saved { path }) => {
                let entering = match &self.pending_enter {
                    Some(pending) => pending.id == path.id,
                    None => false,
                };
                if entering {
                    self.pending_enter = None;
                    self.show_template_picker = false;
                    effects.push(ProjectEffect::EnterPendingDocument);
                    effects.push(ProjectEffect::RememberRecent);
                    assert(effects@ =~= head + seq![
                        ProjectEffect::EnterPendingDocument,
                        ProjectEffect::RememberRecent,
                    ]);
                    return ProjectStep { effects, status: Some(with_path("Created ", &path)) };
                }
                let status = with_path("Saved ", &path);
                self.path = Some(path);
                self.document_dirty = false;
                effects.push(ProjectEffect::RememberRecent);
                effects.push(ProjectEffect::RefreshTitle);
                assert(effects@ =~= head + seq![
                    ProjectEffect::RememberRecent,
                    ProjectEffect::RefreshTitle,
                ]);
                ProjectStep { effects, status: Some(status) }
            },
            Some(ProjectIoResult::Loaded { path, name }) => {
                let ghost kept = name;
                effects.push(ProjectEffect::EnterLoadedDocument);
                effects.push(ProjectEffect::PushRecent { name });
                assert(effects@ =~= head + seq![
                    ProjectEffect::EnterLoadedDocument,
                    ProjectEffect::PushRecent { name: kept },
                ]);
                ProjectStep { effects, status: Some(with_path("Loaded ", &path)) }
            },
            Some(ProjectIoResult::Failed { path, error }) => {
                self.pending_enter = None;
                effects.push(ProjectEffect::RequestFrame(FrameRequestReason::Completion));
                assert(effects@ =~= head + seq![
                    ProjectEffect::RequestFrame(FrameRequestReason::Completion),
                ]);
                let mut status = path.shown;
                status.append(" failed: ");
                status.append(error.as_str());
                ProjectStep { effects, status: Some(status) }
            },
        }
    }
}

/// A background job that may start.
#[derive(Debug, Clone, Copy)]
pub struct JobStart {
    pub start: bool,
    /// A started job asks for a frame.
    pub frame: Option<FrameRequestReason>,
    pub status: &'static str,
}

impl JobStart {
    /// The frame that a job asks for.
    pub open spec fn frame_of(start: bool) -> Option<FrameRequestReason> {
        if start {
            Some(FrameRequestReason::Completion)
        } else {
            None
        }
    }
}

/// Starts a background save unless saving or loading is under way.
pub fn begin_background_save(busy: bool) -> (r: JobStart)
    ensures
        r.start == !busy,
        r.frame == JobStart::frame_of(!busy),
        r.status@ == if busy {
            "Save already in progressâ€¦"@
        } else {
            "Savingâ€¦"@
        },
{
    if busy {
        JobStart { start: false, frame: None, status: "Save already in progressâ€¦" }
    } else {
        JobStart {
            start: true,
            frame: Some(FrameRequestReason::Completion),
            status: "Savingâ€¦",
        }
    }
}

/// Starts loading a project unless saving or loading is under way.
pub fn open_project_at(busy: bool) -> (r: JobStart)
    ensures
        r.start == !busy,
        r.frame == JobStart::frame_of(!busy),
        r.status@ == if busy {
            "Load already in progressâ€¦"@
        } else {
            "Loadingâ€¦"@
        },
{
    if busy {
        JobStart { start: false, frame: None, status: "Load already in progressâ€¦" }
    } else {
        JobStart {
            start: true,
            frame: Some(FrameRequestReason::Completion),
            status: "Loadingâ€¦",
        }
    }
}

/// The name that a dialog proposes for saving: that of the project's file, where
/// it has one that is text.
pub fn default_save_name(current: Option<&str>) -> (r: String)
    ensures
        r@ == match current {
            Some(name) => name@,
            None => "terra_project.json"@,
        },
{
    match current {
        Some(name) => name.to_owned(),
        None => "terra_project.json".to_owned(),
    }
}

/// Where the current project is saved.
#[derive(Debug, Clone, Copy, PartialEq, Eq, Structural)]
pub enum SavePlan {
    /// There is nothing to save.
    Nothing,
    /// To the path that the caller keeps under this number.
    To(u64),
    /// Ask where.
    Ask,
}

impl ProjectState {
    pub fn save_current_project(&self) -> (r: SavePlan)
        ensures
            r == if self.screen != AppScreen::Editor {
                SavePlan::Nothing
            } else {
                match self.path {
                    Some(path) => SavePlan::To(path.id),
                    None => SavePlan::Ask,
                }
            },
    {
        if self.screen != AppScreen::Editor {
            return SavePlan::Nothing;
        }
        match &self.path {
            Some(path) => SavePlan::To(path.id),
            None => SavePlan::Ask,
        }
    }

    /// The state once the editor has been entered.
    pub open spec fn entered(
        before: ProjectState,
        after: ProjectState,
        path: Option<ProjectPath>,
        dirty: bool,
    ) -> bool {
        after == ProjectState {
            path,
            document_dirty: dirty,
            screen: AppScreen::Editor,
            pending_action: None,
            ..before
        }
    }

    /// The steps into the editor: compiles and evaluation of the previous document
    /// end, then the runtime is set up for the new one.
    pub open spec fn entering(
        token: u64,
        job: Option<RefinementJob>,
        sight: DocumentSight,
    ) -> Seq<ResetStep> {
        seq![
            ResetStep::Eval(EvalEffect::CancelPipelineCompiles),
            ResetStep::Eval(EvalEffect::SetWorkerToken(token)),
        ] + sight.reset_steps(job)
    }

    /// Enters the editor with a document that is installed: the project is known,
    /// evaluation of the previous document is over, and nothing of it is left.
    pub fn enter_editor(
        &mut self,
        eval: &mut EvalState,
        stream: &mut TileStream,
        pipelines: &mut PipelineBoard,
        path: Option<ProjectPath>,
        dirty: bool,
        sight: DocumentSight,
    ) -> (r: RuntimeReset)
        ensures
            Self::entered(*old(self), *final(self), path, dirty),
            EvalState::reset_for(
                (EvalState { core: old(eval).core.abandoned(), ..*old(eval) }),
                *final(eval),
            ),
            *final(stream) == sight.stream_after(*old(stream)),
            old(pipelines).left_for(*final(pipelines)),
            r.steps@ == Self::entering(
                final(eval).core.eval_token,
                old(eval).core.refinement_job,
                sight,
            ),
            r.presentation_ready == sight.is_ready(),
    {
        let mut steps: Vec<ResetStep> = Vec::new();
        pipelines.advance_project();
        steps.push(ResetStep::Eval(EvalEffect::CancelPipelineCompiles));
        steps.push(ResetStep::Eval(eval.abandon_document()));
        self.path = path;
        self.document_dirty = dirty;
        self.screen = AppScreen::Editor;
        self.pending_action = None;
        let mut reset = reset_runtime_for_document(eval, stream, sight);
        steps.append(&mut reset.steps);
        RuntimeReset { steps, presentation_ready: reset.presentation_ready }
    }

    /// The steps of closing: evaluation and compiles of the document end, the
    /// runtime is set up for the empty document that follows, and a frame shows
    /// the home screen.
    pub open spec fn closing(
        token: u64,
        job: Option<RefinementJob>,
        sight: DocumentSight,
    ) -> Seq<ResetStep> {
        (seq![
            ResetStep::Eval(EvalEffect::SetWorkerToken(token)),
            ResetStep::Eval(EvalEffect::CancelPipelineCompiles),
        ] + sight.reset_steps(job)).push(
            ResetStep::Eval(EvalEffect::RequestFrame(FrameRequestReason::UiActions)),
        )
    }

    /// Leaves the project for the home screen. Work in flight for the document
    /// is stale, compiles that were asked for it included, and nothing of it is
    /// left for the next one. `sight` is of the empty document.
    pub fn close_project(
        &mut self,
        eval: &mut EvalState,
        stream: &mut TileStream,
        pipelines: &mut PipelineBoard,
        sight: DocumentSight,
    ) -> (r: Vec<ResetStep>)
        ensures
            *final(self) == (ProjectState {
                path: None,
                document_dirty: false,
                pending_action: None,
                screen: AppScreen::Home,
                ..*old(self)
            }),
            EvalState::reset_for(
                (EvalState {
                    core: old(eval).core.abandoned(),
                    texts: EvalTexts { status: final(eval).texts.status, ..old(eval).texts },
                    ..*old(eval)
                }),
                *final(eval),
            ),
            final(eval).texts.status@ == ""@,
            *final(stream) == sight.stream_after(*old(stream)),
            old(pipelines).left_for(*final(pipelines)),
            r@ == Self::closing(
                final(eval).core.eval_token,
                old(eval).core.refinement_job,
                sight,
            ),
    {
        let mut steps: Vec<ResetStep> = Vec::new();
        steps.push(ResetStep::Eval(eval.abandon_document()));
        pipelines.advance_project();
        steps.push(ResetStep::Eval(EvalEffect::CancelPipelineCompiles));
        self.path = None;
        self.document_dirty = false;
        let mut reset = reset_runtime_for_document(eval, stream, sight);
        steps.append(&mut reset.steps);
        self.pending_action = None;
        self.screen = AppScreen::Home;
        eval.texts.status = "".to_owned();
        steps.push(ResetStep::Eval(EvalEffect::RequestFrame(FrameRequestReason::UiActions)));
        steps
    }
}

impl EvalCore {
    /// The state once work for the previous document is over: nothing waits,
    /// and what is in flight is stale.
    pub open spec fn abandoned(self) -> EvalCore {
        EvalCore {
            eval_token: vstd::wrapping::u64_specs::wrapping_add(self.eval_token, 1),
            worker_refine_pending: false,
            force_draft: false,
            pending_eval: false,
            pending_eval_immediate: false,
            ..self
        }
    }
}

impl EvalState {
    fn abandon_document(&mut self) -> (r: EvalEffect)
        ensures
            final(self).core == old(self).core.abandoned(),
            Self::only_core_changed(*old(self), *final(self)),
            r == EvalEffect::SetWorkerToken(final(self).core.eval_token),
    {
        let token: u64 = self.core.eval_token.wrapping_add(1);
        self.core = EvalCore {
            eval_token: token,
            worker_refine_pending: false,
            force_draft: false,
            pending_eval: false,
            pending_eval_immediate: false,
            ..self.core
        };
        EvalEffect::SetWorkerToken(token)
    }

    /// The document is installed: evaluate it at once, or wait for the renderer
    /// that it needs. A frame follows either way.
    pub fn present_document(
        &mut self,
        presentation_ready: bool,
        visible: Option<VisibleResolution>,
        now: Instant,
        timing: RefineTiming,
    ) -> (r: Vec<EvalEffect>)
        ensures
            final(self).pending_plan_edits@ == old(self).pending_plan_edits@.push(
                PlanEdit::Structure,
            ),
            presentation_ready ==> {
                let token = vstd::wrapping::u64_specs::wrapping_add(old(self).core.eval_token, 1);
                &&& final(self).core == (EvalCore {
                    worker_dirty: WorkerDirty::everything(),
                    scheduler_quality: match visible {
                        Some(v) => v.shown_quality(),
                        None => old(self).core.scheduler_quality,
                    },
                    ..old(self).core.rebuilding(token, true, now)
                })
                &&& r@ == (Self::whole_dirt() + Self::rebuild_effects(
                    token,
                    old(self).core.refinement_job,
                    Duration { nanos: 0 },
                    timing,
                )).push(EvalEffect::RequestFrame(FrameRequestReason::RequiredEvaluation))
                &&& final(self).ui == (EvalUi {
                    refining: false,
                    build_progress: None,
                    quality: match visible {
                        Some(v) => v.shown_quality(),
                        None => old(self).ui.quality,
                    },
                    profile: EvalProfile { gen_id: token, ..old(self).ui.profile },
                    ..old(self).ui
                })
                &&& final(self).texts == (EvalTexts {
                    freshness: TerrainPreviewFreshness::Current,
                    ..old(self).texts
                })
                &&& final(self).deferred_full_field is None
            },
            !presentation_ready ==> {
                &&& final(self).core == (EvalCore {
                    worker_dirty: WorkerDirty::everything(),
                    pending_eval: false,
                    pending_eval_immediate: false,
                    ..old(self).core
                })
                &&& r@ == Self::whole_dirt().push(
                    EvalEffect::RequestFrame(FrameRequestReason::RequiredEvaluation),
                )
                &&& final(self).texts.status@ == "Compiling Infinite terrain renderer…"@
                &&& final(self).texts == (EvalTexts {
                    status: final(self).texts.status,
                    ..old(self).texts
                })
                &&& final(self).ui == old(self).ui
                &&& final(self).deferred_full_field == old(self).deferred_full_field
            },
    {
        let mut effects = self.mark_all_layers_dirty();
        if presentation_ready {
            let mut rebuild = self.request_rebuild_immediate(visible, now, timing);
            effects.append(&mut rebuild);
        } else {
            self.core = EvalCore {
                pending_eval: false,
                pending_eval_immediate: false,
                ..self.core
            };
            self.texts.status = "Compiling Infinite terrain renderer…".to_owned();
        }
        effects.push(EvalEffect::RequestFrame(FrameRequestReason::RequiredEvaluation));
        effects
    }
}

/// Why a project could not be created, with what the failing layer said.
#[derive(Debug)]
pub enum CreationFailure {
    UnknownTemplate(String),
    InvalidInfiniteSettings(String),
    ProjectsFolder(String),
    ProjectFolder(String),
    InfiniteDocument(String),
    NotSaved(String),
}

impl CreationFailure {
    pub open spec fn text(self) -> Seq<char> {
        match self {
            CreationFailure::UnknownTemplate(id) => "Unknown template: "@ + id@,
            CreationFailure::InvalidInfiniteSettings(error) => {
                "Invalid Infinite project settings: "@ + error@
            },
            CreationFailure::ProjectsFolder(error) => "Could not create projects folder: "@
                + error@,
            CreationFailure::ProjectFolder(error) => "Could not create project folder: "@ + error@,
            CreationFailure::InfiniteDocument(error) => "Could not create Infinite project: "@
                + error@,
            CreationFailure::NotSaved(error) => "Could not create project: "@ + error@,
        }
    }

    pub fn status(&self) -> (r: String)
        ensures
            r@ == self.text(),
    {
        let mut text;
        match self {
            CreationFailure::UnknownTemplate(id) => {
                text = "Unknown template: ".to_owned();
                text.append(id.as_str());
            },
            CreationFailure::InvalidInfiniteSettings(error) => {
                text = "Invalid Infinite project settings: ".to_owned();
                text.append(error.as_str());
            },
            CreationFailure::ProjectsFolder(error) => {
                text = "Could not create projects folder: ".to_owned();
                text.append(error.as_str());
            },
            CreationFailure::ProjectFolder(error) => {
                text = "Could not create project folder: ".to_owned();
                text.append(error.as_str());
            },
            CreationFailure::InfiniteDocument(error) => {
                text = "Could not create Infinite project: ".to_owned();
                text.append(error.as_str());
            },
            CreationFailure::NotSaved(error) => {
                text = "Could not create project: ".to_owned();
                text.append(error.as_str());
            },
        }
        text
    }

    /// Whether the failure asks for a frame of its own. The two that the picker
    /// itself shows do not.
    pub fn requests_frame(&self) -> (r: bool)
        ensures
            r == !(self is UnknownTemplate || self is InfiniteDocument),
    {
        match self {
            CreationFailure::UnknownTemplate(_) | CreationFailure::InfiniteDocument(_) => false,
            _ => true,
        }
    }
}

/// What came of creating a project.
#[derive(Debug)]
pub enum Creation {
    /// The document was written to this path and is installed.
    Created { path: ProjectPath, sight: DocumentSight },
    /// No path was chosen.
    Cancelled,
    Failed(CreationFailure),
}

/// What follows an attempt to create a project.
#[derive(Debug)]
pub struct CreationStep {
    /// Take its steps, present the document, and put the project on the list of
    /// recent ones.
    pub enter: Option<RuntimeReset>,
    pub frame: Option<FrameRequestReason>,
    /// Shown last.
    pub status: Option<String>,
}

impl ProjectState {
    /// Ends the creation of a project. A created one is entered without unsaved
    /// changes and its picker closes; a failure leaves everything as it was and
    /// says why.
    pub fn finish_creation(
        &mut self,
        eval: &mut EvalState,
        stream: &mut TileStream,
        pipelines: &mut PipelineBoard,
        creation: Creation,
    ) -> (r: CreationStep)
        ensures
            match creation {
                Creation::Created { path, sight } => {
                    &&& Self::entered(
                        ProjectState { show_template_picker: false, ..*old(self) },
                        *final(self),
                        Some(path),
                        false,
                    )
                    &&& EvalState::reset_for(
                        (EvalState { core: old(eval).core.abandoned(), ..*old(eval) }),
                        *final(eval),
                    )
                    &&& *final(stream) == sight.stream_after(*old(stream))
                    &&& old(pipelines).left_for(*final(pipelines))
                    &&& r.enter matches Some(reset)
                    &&& reset.steps@ == Self::entering(
                        final(eval).core.eval_token,
                        old(eval).core.refinement_job,
                        sight,
                    )
                    &&& reset.presentation_ready == sight.is_ready()
                    &&& r.frame is None
                    &&& crate::eval::opt_text(r.status) == Some("Created "@ + path.shown@)
                },
                Creation::Cancelled => {
                    &&& *final(self) == *old(self)
                    &&& *final(eval) == *old(eval)
                    &&& *final(stream) == *old(stream)
                    &&& *final(pipelines) == *old(pipelines)
                    &&& r.enter is None
                    &&& r.frame is None
                    &&& r.status is None
                },
                Creation::Failed(failure) => {
                    &&& *final(self) == *old(self)
                    &&& *final(eval) == *old(eval)
                    &&& *final(stream) == *old(stream)
                    &&& *final(pipelines) == *old(pipelines)
                    &&& r.enter is None
                    &&& r.frame == if failure is UnknownTemplate || failure is InfiniteDocument {
                        None
                    } else {
                        Some(FrameRequestReason::UiActions)
                    }
                    &&& crate::eval::opt_text(r.status) == Some(failure.text())
                },
            },
    {
        match creation {
            Creation::Created { path, sight } => {
                let status = with_path("Created ", &path);
                self.show_template_picker = false;
                let entered = self.enter_editor(eval, stream, pipelines, Some(path), false, sight);
                CreationStep { enter: Some(entered), frame: None, status: Some(status) }
            },
            Creation::Cancelled => CreationStep { enter: None, frame: None, status: None },
            Creation::Failed(failure) => {
                let frame = if failure.requests_frame() {
                    Some(FrameRequestReason::UiActions)
                } else {
                    None
                };
                CreationStep { enter: None, frame, status: Some(failure.status()) }
            },
        }
    }
}

/// What the home screen asks for.
#[derive(Debug, Clone, Copy, PartialEq, Eq, Structural)]
pub enum ProjectHomeAction {
    New,
    Open,
    OpenLogs,
    Browse,
    OpenPath(u64),
    RemoveRecent(u64),
}

/// What an action of the home screen comes to.
#[derive(Debug, Clone, Copy, PartialEq, Eq, Structural)]
pub enum HomeStep {
    Project(ActionStep),
    OpenLogs,
    Browse,
    RemoveRecent(u64),
}

impl ProjectState {
    /// The project action of a home action, if it is one.
    pub open spec fn project_action(action: ProjectHomeAction) -> Option<PendingProjectAction> {
        match action {
            ProjectHomeAction::New => Some(PendingProjectAction::New),
            ProjectHomeAction::Open => Some(PendingProjectAction::Open),
            ProjectHomeAction::OpenPath(id) => Some(PendingProjectAction::OpenPath(id)),
            _ => None,
        }
    }

    /// Handles an action of the home screen. Everything but tidying the recent
    /// list clears the notice.
    pub fn handle_home_action(&mut self, action: ProjectHomeAction) -> (r: HomeStep)
        ensures
            final(self).notice == match action {
                ProjectHomeAction::RemoveRecent(_) => old(self).notice,
                _ => None,
            },
            match Self::project_action(action) {
                Some(wanted) => {
                    &&& r == HomeStep::Project(old(self).step_for(wanted))
                    &&& *final(self) == (ProjectState {
                        notice: None,
                        ..old(self).after_request(wanted)
                    })
                },
                None => {
                    &&& r == match action {
                        ProjectHomeAction::OpenLogs => HomeStep::OpenLogs,
                        ProjectHomeAction::RemoveRecent(id) => HomeStep::RemoveRecent(id),
                        _ => HomeStep::Browse,
                    }
                    &&& *final(self) == (ProjectState {
                        notice: final(self).notice,
                        ..*old(self)
                    })
                },
            },
    {
        match action {
            ProjectHomeAction::New => {
                self.notice = None;
                HomeStep::Project(self.request_project_action(PendingProjectAction::New))
            },
            ProjectHomeAction::Open => {
                self.notice = None;
                HomeStep::Project(self.request_project_action(PendingProjectAction::Open))
            },
            ProjectHomeAction::OpenPath(id) => {
                self.notice = None;
                HomeStep::Project(self.request_project_action(PendingProjectAction::OpenPath(id)))
            },
            ProjectHomeAction::OpenLogs => {
                self.notice = None;
                HomeStep::OpenLogs
            },
            ProjectHomeAction::Browse => {
                self.notice = None;
                HomeStep::Browse
            },
            ProjectHomeAction::RemoveRecent(id) => HomeStep::RemoveRecent(id),
        }
    }

    /// The log folder was opened, or not. The result is the status line of a
    /// failure, and the frame that shows the notice.
    pub fn logs_opened(&mut self, outcome: Result<ProjectPath, String>) -> (r: LogsStep)
        ensures
            r.frame == FrameRequestReason::UiActions,
            match outcome {
                Ok(directory) => {
                    &&& r.status is None
                    &&& crate::eval::opt_text(final(self).notice) == Some(
                        "Opened log folder: "@ + directory.shown@,
                    )
                },
                Err(error) => {
                    &&& r.status == Some(error)
                    &&& crate::eval::opt_text(final(self).notice) == Some(
                        "Could not open logs: "@ + error@,
                    )
                },
            },
            *final(self) == (ProjectState { notice: final(self).notice, ..*old(self) }),
    {
        let status = match outcome {
            Ok(directory) => {
                self.notice = Some(with_path("Opened log folder: ", &directory));
                None
            },
            Err(error) => {
                let mut notice = "Could not open logs: ".to_owned();
                notice.append(error.as_str());
                self.notice = Some(notice);
                Some(error)
            },
        };
        LogsStep { status, frame: FrameRequestReason::UiActions }
    }
}

/// A step of opening the log folder failed.
pub fn log_folder_failure(creating: bool, directory: &ProjectPath, error: &str) -> (r: String)
    ensures
        r@ == (if creating {
            "could not create log directory "@
        } else {
            "could not open log directory "@
        }) + directory.shown@ + ": "@ + error@,
{
    let mut text = with_path(
        if creating {
            "could not create log directory "
        } else {
            "could not open log directory "
        },
        directory,
    );
    text.append(": ");
    text.append(error);
    text
}

/// What opening the log folder leaves to do.
#[derive(Debug)]
pub struct LogsStep {
    /// The status line of a failure; it is logged as well.
    pub status: Option<String>,
    pub frame: FrameRequestReason,
}

/// What browsing a folder found.
#[derive(Debug)]
pub enum BrowseStep {
    /// The file that is named after its folder.
    OpenNamesake,
    /// The entry at this place.
    OpenEntry(usize),
    /// Nothing; this is the status line, and the frame that shows it.
    NotFound { status: String, frame: FrameRequestReason },
}

impl ProjectState {
    /// Chooses the project in a folder: the file named after the folder, else
    /// the first JSON file. `names` is `None` where the folder cannot be read.
    pub fn browse_projects_folder(
        &mut self,
        folder: &ProjectPath,
        namesake_is_file: bool,
        names: Option<&Vec<Vec<u8>>>,
    ) -> (r: BrowseStep)
        ensures
            namesake_is_file ==> r is OpenNamesake && *final(self) == *old(self),
            !namesake_is_file ==> match r {
                BrowseStep::OpenNamesake => false,
                BrowseStep::OpenEntry(at) => {
                    &&& names matches Some(names)
                    &&& crate::paths::is_first_json(names@, at as int)
                    &&& *final(self) == *old(self)
                },
                BrowseStep::NotFound { status, frame } => {
                    &&& frame == FrameRequestReason::UiActions
                    &&& names matches Some(names) ==> forall|j: int|
                        #![trigger names@[j]]
                        0 <= j < names@.len() ==> !crate::paths::ends_in_json(names@[j]@)
                    &&& status@ == "No project found in "@ + folder.shown@
                    &&& crate::eval::opt_text(final(self).notice) == Some(
                        "No Terra project (.json) found in "@ + folder.shown@,
                    )
                    &&& *final(self) == (ProjectState { notice: final(self).notice, ..*old(self) })
                },
            },
    {
        if namesake_is_file {
            return BrowseStep::OpenNamesake;
        }
        if let Some(names) = names {
            if let Some(at) = first_project_file(names) {
                return BrowseStep::OpenEntry(at);
            }
        }
        self.notice = Some(with_path("No Terra project (.json) found in ", folder));
        BrowseStep::NotFound {
            status: with_path("No project found in ", folder),
            frame: FrameRequestReason::UiActions,
        }
    }
}

/// The status line of a chosen export directory.
pub fn export_directory_status(directory: &ProjectPath) -> (r: String)
    ensures
        r@ == "Export directory: "@ + directory.shown@,
{
    with_path("Export directory: ", directory)
}

/// Whether an export starts.
#[derive(Debug)]
pub enum ExportGate {
    /// It does not; this is the status line, if there is one to show.
    Refused { status: Option<&'static str> },
    /// It does: show the status line, then take the steps.
    Start { status: String, steps: Vec<ExportEffect> },
}

/// A step of starting an export, or of taking a failed start back.
#[derive(Debug, Clone, Copy, PartialEq, Eq, Structural)]
pub enum ExportEffect {
    /// Carry painted biomes into the masks, which the export reads.
    BakePaintIntoMasks,
    BeginExportMode,
    /// Show a progress of nothing.
    ShowProgress,
    Start { generation: u64 },
    HideProgress,
    FinishExportMode,
}

/// Decides on an export. The GPU is looked at before a directory is asked for,
/// and a running export after it.
pub fn start_export(
    has_gpu: bool,
    directory: Option<&ProjectPath>,
    running: bool,
    eval_token: u64,
) -> (r: ExportGate)
    ensures
        !has_gpu ==> (r matches ExportGate::Refused { status } && status matches Some(text) && text@
            == "Export requires an initialized GPU"@),
        has_gpu ==> match directory {
            None => r == (ExportGate::Refused { status: None }),
            Some(directory) => if running {
                r matches ExportGate::Refused { status } && status matches Some(text) && text@
                    == "Export already running"@
            } else {
                let next = vstd::wrapping::u64_specs::wrapping_add(eval_token, 1);
                let generation = if next >= 1 {
                    next
                } else {
                    1
                };
                r matches ExportGate::Start { status, steps } && status@ == "Exporting to "@
                    + directory.shown@ && steps@ == seq![
                    ExportEffect::BakePaintIntoMasks,
                    ExportEffect::BeginExportMode,
                    ExportEffect::ShowProgress,
                    ExportEffect::Start { generation },
                ]
            },
        },
{
    if !has_gpu {
        return ExportGate::Refused { status: Some("Export requires an initialized GPU") };
    }
    let directory = match directory {
        Some(directory) => directory,
        None => {
            return ExportGate::Refused { status: None };
        },
    };
    if running {
        return ExportGate::Refused { status: Some("Export already running") };
    }
    let next: u64 = eval_token.wrapping_add(1);
    let generation: u64 = if next >= 1 {
        next
    } else {
        1
    };
    let mut steps: Vec<ExportEffect> = Vec::new();
    steps.push(ExportEffect::BakePaintIntoMasks);
    steps.push(ExportEffect::BeginExportMode);
    steps.push(ExportEffect::ShowProgress);
    steps.push(ExportEffect::Start { generation });
    ExportGate::Start { status: with_path("Exporting to ", directory), steps }
}

/// What a started export came to, as its controller answered. A refusal takes the
/// start back and says why, in place of what the start said.
pub fn export_answered(answer: Result<(), String>) -> (r: (Option<String>, Vec<ExportEffect>))
    ensures
        match answer {
            Ok(_) => r.0 is None && r.1@ == Seq::<ExportEffect>::empty(),
            Err(error) => {
                &&& r.0 matches Some(status)
                &&& status@ == "Export failed: "@ + error@
                &&& r.1@ == seq![ExportEffect::HideProgress, ExportEffect::FinishExportMode]
            },
        },
{
    let mut steps: Vec<ExportEffect> = Vec::new();
    match answer {
        Ok(()) => (None, steps),
        Err(error) => {
            let mut status = "Export failed: ".to_owned();
            status.append(error.as_str());
            steps.push(ExportEffect::HideProgress);
            steps.push(ExportEffect::FinishExportMode);
            (Some(status), steps)
        },
    }
}

/// A compile that was asked for a project is stale once the project is closed
/// or another one is entered.
pub proof fn leaving_a_project_outdates_its_compiles(
    before: PipelineBoard,
    after: PipelineBoard,
    request: PipelineRequest,
)
    requires
        before.is_live(request),
        before.left_for(after),
    ensures
        !after.is_live(request),
{
}

/// Unsaved changes are never left without asking: the action waits, and the
/// project stays as it is.
pub proof fn unsaved_changes_are_never_left_unasked(
    state: ProjectState,
    action: PendingProjectAction,
)
    requires
        state.screen == AppScreen::Editor,
        state.document_dirty,
    ensures
        state.step_for(action) is Confirm,
        ({
            let after = state.after_request(action);
            &&& after.screen == AppScreen::Editor
            &&& after.path == state.path
            &&& after.document_dirty
            &&& after.pending_action == Some(action)
        }),
{
}

/// A save clears the way: once the document is saved, every action is performed
/// without asking, and asking for it changes nothing.
pub proof fn a_save_clears_the_way(
    state: ProjectState,
    path: ProjectPath,
    action: PendingProjectAction,
)
    ensures
        state.saved_at(path).step_for(action) == ActionStep::Perform(action),
        state.saved_at(path).after_request(action) == state.saved_at(path),
{
}

/// Without unsaved changes, or at home, an action is performed at once, and nothing
/// waits for an answer.
pub proof fn clean_projects_are_left_at_once(
    state: &mut ProjectState,
    action: PendingProjectAction,
    step: ActionStep,
)
    requires
        call_ensures(ProjectState::request_project_action, (state, action), step),
    ensures
        old(state).screen is Home || !old(state).document_dirty ==> step == ActionStep::Perform(
            action,
        ) && *final(state) == *old(state),
        old(state).screen is Editor && old(state).document_dirty ==> step is Confirm && final(state).pending_action == Some(action) && final(state).document_dirty,
{
}

/// The title of the editor is that of the document, marked by a star while it has
/// unsaved changes and followed by its path where it has one. At home it names no
/// document.
pub proof fn titles_name_the_document(name: Seq<char>, path: Seq<char>, dirty: bool)
    ensures
        title_of(AppScreen::Home, name, dirty, Some(path)) == "Terra"@,
        title_of(AppScreen::Editor, name, true, None) == title_of(
            AppScreen::Editor,
            name,
            false,
            None,
        ) + "*"@,
        name.is_suffix_of(title_of(AppScreen::Editor, name, false, None)),
        path.is_suffix_of(title_of(AppScreen::Editor, name, dirty, Some(path))),
        title_of(AppScreen::Editor, name, dirty, None).is_prefix_of(
            title_of(AppScreen::Editor, name, dirty, Some(path)),
        ),
{
    reveal_strlit("*");
    reveal_strlit("");
    let clean = title_of(AppScreen::Editor, name, false, None);
    assert(title_of(AppScreen::Editor, name, true, None) =~= clean + "*"@);
    assert(clean.subrange(clean.len() - name.len(), clean.len() as int) =~= name);
    let whole = title_of(AppScreen::Editor, name, dirty, Some(path));
    let document = title_of(AppScreen::Editor, name, dirty, None);
    assert(whole.subrange(whole.len() - path.len(), whole.len() as int) =~= path);
    assert(whole.subrange(0, document.len() as int) =~= document);
}

/// The first change of a document asks for a new title, and later ones do not.
pub proof fn the_first_change_is_shown(state: &mut ProjectState, first: bool)
    requires
        call_ensures(ProjectState::mark_document_dirty, (state,), first),
    ensures
        first <==> !old(state).document_dirty,
        final(state).document_dirty,
        final(state).path == old(state).path,
        final(state).screen == old(state).screen,
{
}

/// A save of the project at hand clears its changes and is remembered; the save of a
/// new one enters it and closes the picker; a loaded one is entered; a failure says so
/// and enters nothing. A project that was not what waited to be entered is only saved.
pub proof fn saves_and_loads_come_to_what_they_say(
    state: &mut ProjectState,
    progress: Option<String>,
    result: Option<ProjectIoResult>,
    step: ProjectStep,
)
    requires
        call_ensures(ProjectState::drain_project_io, (state, progress, result), step),
        progress is None,
    ensures
        result is None ==> step.effects@.len() == 0 && step.status is None && *final(state) == *old(state),
        result matches Some(ProjectIoResult::Saved { path }) ==> {
            let enters = old(state).pending_enter is Some && old(state).pending_enter->0.id
                == path.id;
            &&& enters ==> step.effects@.len() == 2 && step.effects@[0] is EnterPendingDocument
                && step.effects@[1] is RememberRecent && final(state).pending_enter is None
                && !final(state).show_template_picker
            &&& !enters ==> step.effects@.len() == 2 && step.effects@[0] is RememberRecent
                && step.effects@[1] is RefreshTitle && final(state).path == Some(path) && !final(state).document_dirty
        },
        result matches Some(ProjectIoResult::Loaded { name, .. }) ==> step.effects@.len() == 2
            && step.effects@[0] is EnterLoadedDocument && step.effects@[1]
            == (ProjectEffect::PushRecent { name }) && *final(state) == *old(state),
        result matches Some(ProjectIoResult::Failed { .. }) ==> step.effects@.len() == 1
            && step.effects@[0] is RequestFrame && final(state).pending_enter is None && final(state).document_dirty == old(state).document_dirty && final(state).path == old(state).path,
        result is Some ==> step.status is Some,
{
}

/// A job starts unless one is under way, and only a started one asks for a frame.
pub proof fn jobs_run_one_at_a_time(busy: bool, save: JobStart, load: JobStart)
    requires
        call_ensures(begin_background_save, (busy,), save),
        call_ensures(open_project_at, (busy,), load),
    ensures
        save.start <==> !busy,
        load.start <==> !busy,
        save.frame is Some <==> !busy,
        load.frame is Some <==> !busy,
{
}

/// The editor saves to the project's own path, and asks where it has none; at home
/// there is nothing to save.
pub proof fn projects_are_saved_where_they_are(state: ProjectState, plan: SavePlan)
    requires
        call_ensures(ProjectState::save_current_project, (&state,), plan),
    ensures
        state.screen is Home ==> plan is Nothing,
        state.screen is Editor && state.path is None ==> plan is Ask,
        state.screen is Editor ==> (state.path matches Some(path) ==> plan == SavePlan::To(
            path.id,
        )),
{
}

/// An entered document is the project at hand, saved or not as it came, and nothing
/// of the previous one is evaluated: its token is over, its work is stale, its dirt is
/// everything and its compiles are outdated.
pub proof fn entered_documents_start_afresh(
    state: &mut ProjectState,
    eval: &mut EvalState,
    stream: &mut TileStream,
    pipelines: &mut PipelineBoard,
    path: Option<ProjectPath>,
    dirty: bool,
    sight: DocumentSight,
    reset: RuntimeReset,
)
    requires
        call_ensures(
            ProjectState::enter_editor,
            (state, eval, stream, pipelines, path, dirty, sight),
            reset,
        ),
    ensures
        final(state).screen is Editor,
        final(state).path == path,
        final(state).document_dirty == dirty,
        final(state).pending_action is None,
        final(eval).core.eval_token != old(eval).core.eval_token,
        !final(eval).core.pending_eval,
        !final(eval).core.worker_refine_pending,
        !final(eval).core.force_draft,
        final(eval).core.refinement_job is None,
        final(eval).core.worker_dirty.mark_all,
        final(eval).core.worker_cache_res is None,
        final(eval).deferred_full_field is None,
        final(pipelines).project_generation != old(pipelines).project_generation,
        final(pipelines).device_generation == old(pipelines).device_generation,
        !final(stream).streaming,
        final(stream).live_content is None,
        reset.steps@[0] == ResetStep::Eval(EvalEffect::CancelPipelineCompiles),
        reset.steps@[1] == ResetStep::Eval(
            EvalEffect::SetWorkerToken(final(eval).core.eval_token),
        ),
        reset.presentation_ready <==> !sight.host.has_renderer || sight.host.has_variant,
{
}

/// A closed project leaves no document: the home screen shows, nothing is unsaved,
/// and nothing of it is evaluated or shown any more. A frame follows.
pub proof fn closed_projects_leave_no_document(
    state: &mut ProjectState,
    eval: &mut EvalState,
    stream: &mut TileStream,
    pipelines: &mut PipelineBoard,
    sight: DocumentSight,
    steps: Vec<ResetStep>,
)
    requires
        call_ensures(
            ProjectState::close_project,
            (state, eval, stream, pipelines, sight),
            steps,
        ),
    ensures
        final(state).screen is Home,
        final(state).path is None,
        !final(state).document_dirty,
        final(state).pending_action is None,
        final(eval).core.eval_token != old(eval).core.eval_token,
        !final(eval).core.pending_eval,
        !final(eval).core.worker_refine_pending,
        final(eval).core.refinement_job is None,
        final(pipelines).project_generation != old(pipelines).project_generation,
        !final(stream).streaming,
        final(stream).live_content is None,
        steps@[0] == ResetStep::Eval(EvalEffect::SetWorkerToken(final(eval).core.eval_token)),
        steps@[1] == ResetStep::Eval(EvalEffect::CancelPipelineCompiles),
        steps@.last() == ResetStep::Eval(EvalEffect::RequestFrame(FrameRequestReason::UiActions)),
{
}

/// A document that can be presented is evaluated at once under a new token; one that
/// waits for its renderer is not. Its whole stack is dirty either way, and a frame
/// follows.
pub proof fn presented_documents_are_evaluated(
    eval: &mut EvalState,
    ready: bool,
    visible: Option<VisibleResolution>,
    now: Instant,
    timing: RefineTiming,
    effects: Vec<EvalEffect>,
)
    requires
        call_ensures(EvalState::present_document, (eval, ready, visible, now, timing), effects),
    ensures
        final(eval).core.worker_dirty.mark_all,
        ready ==> final(eval).core.pending_eval && final(eval).core.pending_eval_immediate && final(eval).core.eval_token != old(eval).core.eval_token,
        !ready ==> !final(eval).core.pending_eval && final(eval).core.eval_token == old(eval).core.eval_token,
        final(eval).pending_plan_edits@.last() is Structure,
        effects@[0] is EvaluatorAllDirty,
        effects@.last() == EvalEffect::RequestFrame(FrameRequestReason::RequiredEvaluation),
{
}

/// A created project is entered without unsaved changes and its picker closes; a
/// cancelled or failed one changes nothing, and a failure says why.
pub proof fn created_projects_are_entered(
    state: &mut ProjectState,
    eval: &mut EvalState,
    stream: &mut TileStream,
    pipelines: &mut PipelineBoard,
    creation: Creation,
    step: CreationStep,
)
    requires
        call_ensures(
            ProjectState::finish_creation,
            (state, eval, stream, pipelines, creation),
            step,
        ),
    ensures
        creation matches Creation::Created { path, .. } ==> final(state).screen is Editor && final(state).path == Some(path) && !final(state).document_dirty && !final(state).show_template_picker
            && step.enter is Some && step.status is Some,
        creation is Cancelled ==> *final(state) == *old(state) && step.enter is None && step.status
            is None && step.frame is None,
        creation matches Creation::Failed(failure) ==> *final(state) == *old(state) && *final(eval)
            == *old(eval) && step.enter is None && step.status is Some && (step.frame is None <==> (
        failure is UnknownTemplate || failure is InfiniteDocument)),
{
}

/// An action of the home screen is what it is named for, and everything but tidying
/// the list of recent projects clears the notice.
pub proof fn home_actions_do_what_they_say(
    state: &mut ProjectState,
    action: ProjectHomeAction,
    step: HomeStep,
)
    requires
        call_ensures(ProjectState::handle_home_action, (state, action), step),
        !old(state).document_dirty,
    ensures
        action is New ==> step == HomeStep::Project(ActionStep::Perform(PendingProjectAction::New)),
        action is Open ==> step == HomeStep::Project(
            ActionStep::Perform(PendingProjectAction::Open),
        ),
        action matches ProjectHomeAction::OpenPath(id) ==> step == HomeStep::Project(
            ActionStep::Perform(PendingProjectAction::OpenPath(id)),
        ),
        action is OpenLogs ==> step is OpenLogs,
        action is Browse ==> step is Browse,
        action matches ProjectHomeAction::RemoveRecent(id) ==> step == HomeStep::RemoveRecent(id)
            && final(state).notice == old(state).notice,
        !(action is RemoveRecent) ==> final(state).notice is None,
{
}

/// An export starts with a GPU, a directory and no other export, under a generation
/// that no evaluation has and that is never zero; otherwise it is refused.
pub proof fn exports_start_when_nothing_is_in_the_way(
    has_gpu: bool,
    directory: Option<&ProjectPath>,
    running: bool,
    token: u64,
    gate: ExportGate,
)
    requires
        call_ensures(start_export, (has_gpu, directory, running, token), gate),
    ensures
        gate is Start <==> has_gpu && directory is Some && !running,
        gate matches ExportGate::Start { steps, .. } ==> steps@.len() == 4 && steps@[0]
            is BakePaintIntoMasks && steps@[1] is BeginExportMode && steps@[2] is ShowProgress && (
        steps@[3] matches ExportEffect::Start { generation } && generation != token && generation
            >= 1 && (token < u64::MAX ==> generation == token + 1)),
        !has_gpu ==> (gate matches ExportGate::Refused { status } && status is Some),
        has_gpu && directory is None ==> gate == (ExportGate::Refused { status: None }),
{
}

/// A refused export takes its start back and says why; an accepted one says nothing.
pub proof fn refused_exports_are_taken_back(
    answer: Result<(), String>,
    taken: (Option<String>, Vec<ExportEffect>),
)
    requires
        call_ensures(export_answered, (answer,), taken),
    ensures
        answer is Ok ==> taken.0 is None && taken.1@.len() == 0,
        answer is Err ==> taken.0 is Some && taken.1@.len() == 2 && taken.1@[0] is HideProgress
            && taken.1@[1] is FinishExportMode,
{
}

/// Opening the log folder always leaves a notice and a frame, and a failure also a
/// status line.
pub proof fn opening_logs_leaves_a_notice(
    state: &mut ProjectState,
    outcome: Result<ProjectPath, String>,
    step: LogsStep,
)
    requires
        call_ensures(ProjectState::logs_opened, (state, outcome), step),
    ensures
        final(state).notice is Some,
        step.status is Some <==> outcome is Err,
        outcome matches Err(error) ==> step.status == Some(error),
{
}

/// Left documents are stale: their token is over and nothing waits for them.
pub proof fn abandoned_documents_are_stale(core: EvalCore)
    ensures
        core.abandoned().eval_token != core.eval_token,
        !core.abandoned().pending_eval,
        !core.abandoned().pending_eval_immediate,
        !core.abandoned().worker_refine_pending,
        !core.abandoned().force_draft,
{
}

/// A project is saved under its own name, and one without a name under the usual one.
pub proof fn projects_keep_their_name(current: Option<&str>, name: String)
    requires
        call_ensures(default_save_name, (current,), name),
    ensures
        current matches Some(own) ==> name@ == own@,
        current is None ==> name@ == "terra_project.json"@,
{
}

/// What the picker shows itself needs no frame of its own; every other failure does.
pub proof fn shown_failures_need_no_frame(failure: CreationFailure, frame: bool)
    requires
        call_ensures(CreationFailure::requests_frame, (&failure,), frame),
    ensures
        failure is UnknownTemplate ==> !frame,
        failure is InfiniteDocument ==> !frame,
        !(failure is UnknownTemplate) && !(failure is InfiniteDocument) ==> frame,
{
}

/// A log folder that could not be made and one that could not be opened are told
/// apart.
pub proof fn log_folder_failures_are_told_apart(
    creating: bool,
    directory: &ProjectPath,
    error: &str,
    text: String,
)
    requires
        call_ensures(log_folder_failure, (creating, directory, error), text),
    ensures
        creating ==> text@ == "could not create log directory "@ + directory.shown@ + ": "@ + error@,
        !creating ==> text@ == "could not open log directory "@ + directory.shown@ + ": "@ + error@,
{
}

/// The application starts at home, without a project.
pub proof fn the_start_is_at_home(state: ProjectState)
    requires
        call_ensures(ProjectState::at_home, (), state),
    ensures
        state.screen is Home,
        state.path is None,
        !state.document_dirty,
        state.pending_action is None,
        state.pending_enter is None,
        !state.show_template_picker,
        state.notice is None,
{
}

} // verus!
