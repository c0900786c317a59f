//! Start-up: typed errors, diagnostics, and the boot-failure splash policy.
//!
//! A failure before the window is up goes to the log, to standard error and to
//! a dialog. A failure of the boot worker is shown on the splash, which stays
//! until it is acknowledged; the dialog is then left out.
use vstd::prelude::*;

use crate::pipeline_compile::JobError;
use crate::text::{eq_ignore_ascii_case, push_decimal, same_text};

verus! {

/// Why Terra could not start. Each variant carries what the failing layer said.
#[derive(Debug)]
pub enum StartupError {
    EventLoop(String),
    RunApp(String),
    Window(String),
    Gpu(String),
    BootWorker(JobError),
}

impl JobError {
    /// The failure as it is shown.
    pub open spec fn text(self) -> Seq<char> {
        match self {
            JobError::Cancelled => "cancelled"@,
            JobError::Panicked(message) => message@,
        }
    }

    pub fn message(&self) -> (r: String)
        ensures
            r@ == self.text(),
    {
        match self {
            JobError::Cancelled => "cancelled".to_owned(),
            JobError::Panicked(message) => message.clone(),
        }
    }
}

impl StartupError {
    /// The error as one line.
    pub open spec fn text(self) -> Seq<char> {
        match self {
            StartupError::EventLoop(shown) => "failed to create event loop: "@ + shown@,
            StartupError::RunApp(shown) => "event loop exited with error: "@ + shown@,
            StartupError::Window(shown) => "failed to create window: "@ + shown@,
            StartupError::Gpu(shown) => "GPU initialization failed: "@ + shown@,
            StartupError::BootWorker(error) => "GPU pipeline build failed: "@ + error.text(),
        }
    }

    pub fn message(&self) -> (r: String)
        ensures
            r@ == self.text(),
    {
        let mut text;
        match self {
            StartupError::EventLoop(shown) => {
                text = "failed to create event loop: ".to_owned();
                text.append(shown.as_str());
            },
            StartupError::RunApp(shown) => {
                text = "event loop exited with error: ".to_owned();
                text.append(shown.as_str());
            },
            StartupError::Window(shown) => {
                text = "failed to create window: ".to_owned();
                text.append(shown.as_str());
            },
            StartupError::Gpu(shown) => {
                text = "GPU initialization failed: ".to_owned();
                text.append(shown.as_str());
            },
            StartupError::BootWorker(error) => {
                text = "GPU pipeline build failed: ".to_owned();
                text.append(error.message().as_str());
            },
        }
        text
    }

    /// What the user can try.
    pub open spec fn remedy(self) -> Seq<char> {
        match self {
            StartupError::EventLoop(_) | StartupError::RunApp(_) => {
                "The OS event loop could not be created or ran into an unrecoverable error. Try restarting your session or updating your display drivers."@
            },
            StartupError::Window(_) => {
                "The application window could not be created. Check that a display is connected and your desktop session is running."@
            },
            StartupError::Gpu(_) => {
                "No compatible GPU adapter or device was found. Update your graphics drivers and ensure a DirectX 12 or Vulkan capable GPU is available. You can try setting WGPU_BACKEND=vulkan or WGPU_BACKEND=dx12 to force a specific backend."@
            },
            StartupError::BootWorker(_) => {
                "The GPU shader/pipeline build crashed. This usually indicates a driver bug. Update your graphics drivers and try again."@
            },
        }
    }

    pub fn advice(&self) -> (r: &'static str)
        ensures
            r@ == self.remedy(),
    {
        match self {
            StartupError::EventLoop(_) | StartupError::RunApp(_) => {
                "The OS event loop could not be created or ran into an unrecoverable error. Try restarting your session or updating your display drivers."
            },
            StartupError::Window(_) => {
                "The application window could not be created. Check that a display is connected and your desktop session is running."
            },
            StartupError::Gpu(_) => {
                "No compatible GPU adapter or device was found. Update your graphics drivers and ensure a DirectX 12 or Vulkan capable GPU is available. You can try setting WGPU_BACKEND=vulkan or WGPU_BACKEND=dx12 to force a specific backend."
            },
            StartupError::BootWorker(_) => {
                "The GPU shader/pipeline build crashed. This usually indicates a driver bug. Update your graphics drivers and try again."
            },
        }
    }
}

/// The texts that report a failure.
#[derive(Debug)]
pub struct FailureReport {
    pub log: String,
    pub stderr: String,
    /// The dialog that blocks until it is dismissed, where one is shown.
    pub dialog: Option<String>,
}

/// The hint at the log file.
pub open spec fn log_hint(log_file: Option<Seq<char>>) -> Seq<char> {
    match log_file {
        Some(path) => "\n\nLog file: "@ + path,
        None => ""@,
    }
}

/// Builds the report of a failure. The dialog is left out where the splash has
/// shown the failure already.
pub fn report_failure(error: &StartupError, log_file: Option<&str>, show_dialog: bool) -> (r:
    FailureReport)
    ensures
        ({
            let hint = log_hint(
                match log_file {
                    Some(path) => Some(path@),
                    None => None,
                },
            );
            &&& r.log@ == error.text() + "\n"@ + error.remedy() + hint
            &&& r.stderr@ == "Terra: "@ + error.text() + "\n"@ + error.remedy() + hint
            &&& match r.dialog {
                Some(dialog) => show_dialog && dialog@ == error.text() + "\n\n"@ + error.remedy()
                    + hint,
                None => !show_dialog,
            }
        }),
{
    let detail = error.message();
    let advice = error.advice();
    let mut hint;
    match log_file {
        Some(path) => {
            hint = "\n\nLog file: ".to_owned();
            hint.append(path);
        },
        None => {
            hint = "".to_owned();
        },
    }
    let mut log = detail.clone();
    log.append("\n");
    log.append(advice);
    log.append(hint.as_str());
    let mut stderr = "Terra: ".to_owned();
    stderr.append(detail.as_str());
    stderr.append("\n");
    stderr.append(advice);
    stderr.append(hint.as_str());
    let dialog = if show_dialog {
        let mut text = detail.clone();
        text.append("\n\n");
        text.append(advice);
        text.append(hint.as_str());
        Some(text)
    } else {
        None
    };
    FailureReport { log, stderr, dialog }
}

/// What came of polling the boot worker.
#[derive(Debug)]
pub enum BootPoll<T> {
    /// The worker still runs.
    Pending,
    Ready(T),
    /// The worker failed, and the user has to see it.
    Failed(StartupError),
    /// The worker was cancelled: a clean shutdown.
    Shutdown,
}

/// What a poll of the boot worker means.
pub open spec fn classified<T>(poll: Option<Result<T, JobError>>) -> BootPoll<T> {
    match poll {
        None => BootPoll::Pending,
        Some(Ok(value)) => BootPoll::Ready(value),
        Some(Err(JobError::Cancelled)) => BootPoll::Shutdown,
        Some(Err(JobError::Panicked(message))) => BootPoll::Failed(
            StartupError::BootWorker(JobError::Panicked(message)),
        ),
    }
}

/// Classifies a poll of the boot worker.
pub fn classify_boot_poll<T>(poll: Option<Result<T, JobError>>) -> (r: BootPoll<T>)
    ensures
        r == classified(poll),
{
    match poll {
        None => BootPoll::Pending,
        Some(Ok(value)) => BootPoll::Ready(value),
        Some(Err(JobError::Cancelled)) => BootPoll::Shutdown,
        Some(Err(JobError::Panicked(message))) => BootPoll::Failed(
            StartupError::BootWorker(JobError::Panicked(message)),
        ),
    }
}

/// The texts of some lines.
pub open spec fn texts(lines: Seq<String>) -> Seq<Seq<char>> {
    lines.map_values(|line: String| line@)
}

/// The lines of the failure splash: the error, the advice, where the log is,
/// and how to leave, each after an empty line.
pub open spec fn splash_texts(error: StartupError, log_file: Option<Seq<char>>) -> Seq<Seq<char>> {
    let head = seq![error.text(), ""@, error.remedy()];
    let log = match log_file {
        Some(path) => seq![""@, "Log file: "@ + path],
        None => seq![],
    };
    head + log + seq![""@, "Press any key or click to close."@]
}

pub fn failure_splash_lines(error: &StartupError, log_file: Option<&str>) -> (r: Vec<String>)
    ensures
        texts(r@) == splash_texts(
            *error,
            match log_file {
                Some(path) => Some(path@),
                None => None,
            },
        ),
{
    let mut lines: Vec<String> = Vec::new();
    lines.push(error.message());
    lines.push("".to_owned());
    lines.push(error.advice().to_owned());
    if let Some(path) = log_file {
        lines.push("".to_owned());
        let mut hint = "Log file: ".to_owned();
        hint.append(path);
        lines.push(hint);
    }
    lines.push("".to_owned());
    lines.push("Press any key or click to close.".to_owned());
    assert(texts(lines@) =~= splash_texts(
        *error,
        match log_file {
            Some(path) => Some(path@),
            None => None,
        },
    ));
    lines
}

/// Whether the configured fault is the one of `stage`. Release builds configure
/// none.
pub fn injected_fault(stage: &str, configured: Option<&str>) -> (r: bool)
    ensures
        r == match configured {
            Some(value) => crate::text::equal_ignoring_ascii_case(value@, stage@),
            None => false,
        },
{
    match configured {
        Some(value) => eq_ignore_ascii_case(value, stage),
        None => false,
    }
}

/// What opening the window does next.
#[derive(Debug, Clone, Copy, PartialEq, Eq, Structural)]
pub enum OpeningStep {
    /// There is a window already.
    Stay,
    CreateWindow,
    InitGpu,
    /// Show the window and start the boot worker.
    StartBoot,
    /// The failure is stored; leave the event loop.
    Leave,
}

/// The way from the event loop to a window with a GPU. The window counts as
/// opened once the GPU has taken it.
#[derive(Debug)]
pub struct Opening {
    pub has_window: bool,
    pub failure: Option<StartupError>,
}

impl Opening {
    /// The loop resumed: a fault injected at the window stage keeps the window
    /// from being asked for.
    pub open spec fn after_resume(
        before: Opening,
        window_fault: bool,
        after: Opening,
        step: OpeningStep,
    ) -> bool {
        if before.has_window {
            step == OpeningStep::Stay && after == before
        } else if window_fault {
            &&& step == OpeningStep::Leave
            &&& !after.has_window
            &&& after.failure matches Some(StartupError::Window(shown))
            &&& shown@ == "injected window fault"@
        } else {
            step == OpeningStep::CreateWindow && after == before
        }
    }

    /// The window was created, or not: a fault injected at the GPU stage stops
    /// before the GPU is touched.
    pub open spec fn after_window(
        before: Opening,
        outcome: Result<(), String>,
        gpu_fault: bool,
        after: Opening,
        step: OpeningStep,
    ) -> bool {
        match outcome {
            Err(shown) => {
                &&& step == OpeningStep::Leave
                &&& after == (Opening { failure: Some(StartupError::Window(shown)), ..before })
            },
            Ok(_) => if gpu_fault {
                &&& step == OpeningStep::Leave
                &&& after.has_window == before.has_window
                &&& after.failure matches Some(StartupError::Gpu(shown))
                &&& shown@ == "injected gpu-init fault"@
            } else {
                step == OpeningStep::InitGpu && after == before
            },
        }
    }

    pub fn resumed(&mut self, window_fault: bool) -> (r: OpeningStep)
        ensures
            Self::after_resume(*old(self), window_fault, *final(self), r),
    {
        if self.has_window {
            return OpeningStep::Stay;
        }
        if window_fault {
            self.failure = Some(StartupError::Window("injected window fault".to_owned()));
            return OpeningStep::Leave;
        }
        OpeningStep::CreateWindow
    }

    pub fn window_created(&mut self, outcome: Result<(), String>, gpu_fault: bool) -> (r:
        OpeningStep)
        ensures
            Self::after_window(*old(self), outcome, gpu_fault, *final(self), r),
    {
        match outcome {
            Err(shown) => {
                self.failure = Some(StartupError::Window(shown));
                OpeningStep::Leave
            },
            Ok(()) => if gpu_fault {
                self.failure = Some(StartupError::Gpu("injected gpu-init fault".to_owned()));
                OpeningStep::Leave
            } else {
                OpeningStep::InitGpu
            },
        }
    }

    /// The GPU was initialised for the window, or not.
    pub fn gpu_initialised(&mut self, outcome: Result<(), String>) -> (r: OpeningStep)
        ensures
            match outcome {
                Ok(_) => {
                    &&& r == OpeningStep::StartBoot
                    &&& *final(self) == (Opening { has_window: true, ..*old(self) })
                },
                Err(shown) => {
                    &&& r == OpeningStep::Leave
                    &&& *final(self) == (Opening {
                        failure: Some(StartupError::Gpu(shown)),
                        ..*old(self)
                    })
                },
            },
    {
        match outcome {
            Ok(()) => {
                self.has_window = true;
                OpeningStep::StartBoot
            },
            Err(shown) => {
                self.failure = Some(StartupError::Gpu(shown));
                OpeningStep::Leave
            },
        }
    }
}

/// What a boot turn does with its poll.
#[derive(Debug)]
pub enum BootStep<T> {
    /// Nothing boots any more, or a failure is on screen.
    Idle,
    Waiting,
    /// Attach the surface and install what the worker built.
    Install(T),
    /// Report the failure without a dialog and park it on the splash.
    Park(StartupError),
    /// Drop the boot state and leave.
    Exit,
}

/// The boot worker as the event loop sees it.
#[derive(Debug)]
pub struct BootState {
    pub booting: bool,
    pub failure: Option<StartupError>,
}

impl BootState {
    /// A poll can still change something.
    pub open spec fn open_to_polls(self) -> bool {
        self.booting && self.failure is None
    }

    /// Takes in a poll of the worker. A poll is only made while the boot is open
    /// to one.
    pub fn try_finish_boot<T>(&mut self, poll: Option<Result<T, JobError>>) -> (r: BootStep<T>)
        ensures
            !old(self).open_to_polls() ==> r is Idle && *final(self) == *old(self),
            old(self).open_to_polls() ==> match poll {
                None => r is Waiting && *final(self) == *old(self),
                Some(Ok(value)) => {
                    &&& r == BootStep::Install(value)
                    &&& *final(self) == (BootState { booting: false, failure: None })
                },
                Some(Err(JobError::Cancelled)) => {
                    &&& r is Exit
                    &&& *final(self) == (BootState { booting: false, failure: None })
                },
                Some(Err(JobError::Panicked(message))) => {
                    &&& r matches BootStep::Park(error)
                    &&& error == StartupError::BootWorker(JobError::Panicked(message))
                    &&& final(self).booting
                    &&& final(self).failure matches Some(parked)
                    &&& parked.text() == error.text()
                    &&& parked is BootWorker
                },
            },
    {
        if !self.booting || self.failure.is_some() {
            return BootStep::Idle;
        }
        match classify_boot_poll(poll) {
            BootPoll::Pending => BootStep::Waiting,
            BootPoll::Ready(value) => {
                self.booting = false;
                BootStep::Install(value)
            },
            BootPoll::Shutdown => {
                self.booting = false;
                BootStep::Exit
            },
            BootPoll::Failed(error) => {
                let shown = match &error {
                    StartupError::BootWorker(job) => job.message(),
                    _ => error.message(),
                };
                self.failure = Some(StartupError::BootWorker(JobError::Panicked(shown)));
                BootStep::Park(error)
            },
        }
    }

    /// The splash was acknowledged: the parked failure ends the loop.
    pub fn acknowledge(&mut self) -> (r: Option<StartupError>)
        ensures
            r == old(self).failure,
            *final(self) == (BootState { failure: None, ..*old(self) }),
    {
        self.failure.take()
    }
}

/// The status line of the boot splash, with the shaders compiled so far.
pub fn splash_status(shaders: u32) -> (r: String)
    ensures
        r@ == if shaders > 0 {
            "Compiling shaders... "@ + crate::text::decimal(shaders as nat)
        } else {
            "Compiling shaders..."@
        },
{
    if shaders > 0 {
        let mut text = "Compiling shaders... ".to_owned();
        push_decimal(&mut text, shaders as u64);
        text
    } else {
        "Compiling shaders...".to_owned()
    }
}

/// What the command line asks for instead of the editor.
#[derive(Debug, Clone, Copy, PartialEq, Eq, Structural)]
pub enum CliAction {
    Version,
    SelfCheck,
    Help,
    /// More than one argument.
    Unexpected,
}

/// What a single argument asks for.
pub open spec fn cli_action(argument: Seq<char>) -> Option<CliAction> {
    if argument == "--version"@ || argument == "-V"@ {
        Some(CliAction::Version)
    } else if argument == "--self-check"@ {
        Some(CliAction::SelfCheck)
    } else if argument == "--help"@ || argument == "-h"@ {
        Some(CliAction::Help)
    } else {
        None
    }
}

/// Reads the arguments after the program's name. Without any, and for a single
/// argument that is not known, the editor starts.
pub fn handle_release_cli(arguments: &[String]) -> (r: Option<CliAction>)
    ensures
        r == if arguments@.len() == 0 {
            None
        } else if arguments@.len() > 1 {
            Some(CliAction::Unexpected)
        } else {
            cli_action(arguments@[0]@)
        },
{
    if arguments.len() == 0 {
        return None;
    }
    if arguments.len() > 1 {
        return Some(CliAction::Unexpected);
    }
    let first = arguments[0].as_str();
    if same_text(first, "--version") || same_text(first, "-V") {
        Some(CliAction::Version)
    } else if same_text(first, "--self-check") {
        Some(CliAction::SelfCheck)
    } else if same_text(first, "--help") || same_text(first, "-h") {
        Some(CliAction::Help)
    } else {
        None
    }
}

/// How the program ends.
#[derive(Debug)]
pub enum ExitStep {
    Success,
    /// Report the failure and fail.
    Failure { error: StartupError, show_dialog: bool },
}

/// The end that a stored failure and the result of the loop come to.
pub open spec fn ending(
    stored: Option<StartupError>,
    presented: bool,
    run_result: Result<(), String>,
) -> ExitStep {
    match (stored, run_result) {
        (Some(error), _) => ExitStep::Failure { error, show_dialog: !presented },
        (None, Ok(_)) => ExitStep::Success,
        (None, Err(shown)) => ExitStep::Failure {
            error: StartupError::RunApp(shown),
            show_dialog: true,
        },
    }
}

/// Decides the end of the program. A failure that start-up stored comes before
/// the result of the loop, and is not shown twice.
pub fn exit_step(
    stored: Option<StartupError>,
    presented: bool,
    run_result: Result<(), String>,
) -> (r: ExitStep)
    ensures
        r == ending(stored, presented, run_result),
{
    match stored {
        Some(error) => ExitStep::Failure { error, show_dialog: !presented },
        None => match run_result {
            Ok(()) => ExitStep::Success,
            Err(shown) => ExitStep::Failure {
                error: StartupError::RunApp(shown),
                show_dialog: true,
            },
        },
    }
}

/// A fault injected at the window stage takes the way of a window that could not
/// be opened: no window is asked for, and the program ends in a failure that a
/// dialog shows.
pub proof fn a_window_fault_ends_in_a_dialog(
    before: Opening,
    after: Opening,
    step: OpeningStep,
    run_result: Result<(), String>,
)
    requires
        !before.has_window,
        Opening::after_resume(before, true, after, step),
    ensures
        step == OpeningStep::Leave,
        !after.has_window,
        ending(after.failure, false, run_result) matches ExitStep::Failure { error, show_dialog }
            && error is Window && show_dialog,
{
}

/// A cancelled boot is a clean shutdown and nothing else is: every other way
/// for the worker to end is seen by the user or starts the editor.
pub proof fn only_cancellation_leaves_quietly<T>(poll: Option<Result<T, JobError>>)
    ensures
        classified(poll) is Shutdown <==> poll == Some(Err::<T, JobError>(JobError::Cancelled)),
        classified(poll) is Pending <==> poll is None,
        classified(poll) is Ready <==> (poll matches Some(outcome) && outcome is Ok),
{
}

/// Whatever failed, the splash opens with the error, gives the advice and ends
/// with how to leave.
pub proof fn the_splash_says_it_all(error: StartupError, log_file: Option<Seq<char>>)
    ensures
        splash_texts(error, log_file).first() == error.text(),
        splash_texts(error, log_file)[2] == error.remedy(),
        splash_texts(error, log_file).last() == "Press any key or click to close."@,
        log_file matches Some(path) ==> splash_texts(error, log_file).contains(
            "Log file: "@ + path,
        ),
{
    if let Some(path) = log_file {
        assert(splash_texts(error, log_file)[4] == "Log file: "@ + path);
    }
}

/// An error says which step failed and what was said of it.
pub proof fn errors_say_what_failed(error: StartupError, message: String)
    requires
        call_ensures(StartupError::message, (&error,), message),
    ensures
        error matches StartupError::EventLoop(shown) ==> message@
            == "failed to create event loop: "@ + shown@,
        error matches StartupError::RunApp(shown) ==> message@ == "event loop exited with error: "@
            + shown@,
        error matches StartupError::Window(shown) ==> message@ == "failed to create window: "@
            + shown@,
        error matches StartupError::Gpu(shown) ==> message@ == "GPU initialization failed: "@
            + shown@,
        error matches StartupError::BootWorker(JobError::Panicked(shown)) ==> message@
            == "GPU pipeline build failed: "@ + shown@,
        error matches StartupError::BootWorker(JobError::Cancelled) ==> message@
            == "GPU pipeline build failed: "@ + "cancelled"@,
{
}

/// The advice is about what failed.
pub proof fn advice_fits_the_failure(error: StartupError, advice: &'static str)
    requires
        call_ensures(StartupError::advice, (&error,), advice),
    ensures
        error is EventLoop || error is RunApp <==> crate::text::opens_with(
            advice@,
            "The OS event loop"@,
        ),
        error is Window <==> crate::text::opens_with(advice@, "The application window"@),
        error is Gpu <==> crate::text::opens_with(advice@, "No compatible GPU"@),
        error is BootWorker <==> crate::text::opens_with(advice@, "The GPU shader/pipeline"@),
{
    reveal_strlit("The OS event loop");
    reveal_strlit("The application window");
    reveal_strlit("No compatible GPU");
    reveal_strlit("The GPU shader/pipeline");
    reveal_strlit(
        "The OS event loop could not be created or ran into an unrecoverable error. Try restarting your session or updating your display drivers.",
    );
    reveal_strlit(
        "The application window could not be created. Check that a display is connected and your desktop session is running.",
    );
    reveal_strlit(
        "No compatible GPU adapter or device was found. Update your graphics drivers and ensure a DirectX 12 or Vulkan capable GPU is available. You can try setting WGPU_BACKEND=vulkan or WGPU_BACKEND=dx12 to force a specific backend.",
    );
    reveal_strlit(
        "The GPU shader/pipeline build crashed. This usually indicates a driver bug. Update your graphics drivers and try again.",
    );
    let a = advice@;
    let os = "The OS event loop"@;
    let window = "The application window"@;
    let gpu = "No compatible GPU"@;
    let boot = "The GPU shader/pipeline"@;
    if error is EventLoop || error is RunApp {
        assert(a.subrange(0, os.len() as int) =~= os);
    }
    if error is Window {
        assert(a.subrange(0, window.len() as int) =~= window);
    }
    if error is Gpu {
        assert(a.subrange(0, gpu.len() as int) =~= gpu);
    }
    if error is BootWorker {
        assert(a.subrange(0, boot.len() as int) =~= boot);
    }
    assert(a.subrange(0, os.len() as int)[4] == a[4]);
    assert(a.subrange(0, window.len() as int)[4] == a[4]);
    assert(a.subrange(0, gpu.len() as int)[0] == a[0]);
    assert(a.subrange(0, boot.len() as int)[4] == a[4]);
}

/// A failure is reported everywhere, with its advice and the log where there is one;
/// the dialog is shown where it is asked for.
pub proof fn failures_are_reported(
    error: StartupError,
    log_file: Option<&str>,
    show_dialog: bool,
    report: FailureReport,
)
    requires
        call_ensures(report_failure, (&error, log_file, show_dialog), report),
    ensures
        report.dialog is Some <==> show_dialog,
        report.stderr@ == "Terra: "@ + report.log@,
        log_file is None ==> report.log@ == error.text() + "\n"@ + error.remedy(),
        log_file matches Some(path) ==> report.log@ == error.text() + "\n"@ + error.remedy()
            + "\n\nLog file: "@ + path@,
        log_file is None ==> (report.dialog matches Some(dialog) ==> dialog@ == error.text()
            + "\n\n"@ + error.remedy()),
        log_file matches Some(path) ==> (report.dialog matches Some(dialog) ==> dialog@
            == error.text() + "\n\n"@ + error.remedy() + "\n\nLog file: "@ + path@),
{
    reveal_strlit("");
    let hint = log_hint(
        match log_file {
            Some(path) => Some(path@),
            None => None,
        },
    );
    assert("Terra: "@ + error.text() + "\n"@ + error.remedy() + hint =~= "Terra: "@ + (error.text()
        + "\n"@ + error.remedy() + hint));
    if let Some(path) = log_file {
        assert(error.text() + "\n"@ + error.remedy() + hint =~= error.text() + "\n"@
            + error.remedy() + "\n\nLog file: "@ + path@);
        assert(error.text() + "\n\n"@ + error.remedy() + hint =~= error.text() + "\n\n"@
            + error.remedy() + "\n\nLog file: "@ + path@);
    } else {
        assert(error.text() + "\n"@ + error.remedy() + hint =~= error.text() + "\n"@
            + error.remedy());
        assert(error.text() + "\n\n"@ + error.remedy() + hint =~= error.text() + "\n\n"@
            + error.remedy());
    }
}

/// A window is asked for once: not where there is one, and not under a fault, which is
/// kept.
pub proof fn windows_are_asked_for_once(opening: &mut Opening, window_fault: bool, step: OpeningStep)
    requires
        call_ensures(Opening::resumed, (opening, window_fault), step),
    ensures
        step is CreateWindow <==> !old(opening).has_window && !window_fault,
        step is Stay <==> old(opening).has_window,
        step is Leave <==> !old(opening).has_window && window_fault,
        final(opening).has_window == old(opening).has_window,
        step is Leave ==> (final(opening).failure matches Some(error) && error is Window),
        !(step is Leave) ==> *final(opening) == *old(opening),
{
}

/// The GPU is touched for a window that was created, unless a fault is injected; a
/// window that was not ends the loop with its own error.
pub proof fn the_gpu_follows_the_window(
    opening: &mut Opening,
    outcome: Result<(), String>,
    gpu_fault: bool,
    step: OpeningStep,
)
    requires
        call_ensures(Opening::window_created, (opening, outcome, gpu_fault), step),
    ensures
        step is InitGpu <==> outcome is Ok && !gpu_fault,
        step is Leave <==> outcome is Err || gpu_fault,
        outcome matches Err(shown) ==> final(opening).failure == Some(StartupError::Window(shown)),
        outcome is Ok && gpu_fault ==> (final(opening).failure matches Some(error) && error is Gpu),
        final(opening).has_window == old(opening).has_window,
        step is InitGpu ==> *final(opening) == *old(opening),
{
}

/// The boot starts, and the window counts, once the GPU has taken it.
pub proof fn the_boot_follows_the_gpu(
    opening: &mut Opening,
    outcome: Result<(), String>,
    step: OpeningStep,
)
    requires
        call_ensures(Opening::gpu_initialised, (opening, outcome), step),
    ensures
        step is StartBoot <==> outcome is Ok,
        step is Leave <==> outcome is Err,
        outcome is Ok ==> final(opening).has_window && final(opening).failure == old(opening).failure,
        outcome matches Err(shown) ==> final(opening).failure == Some(StartupError::Gpu(shown))
            && final(opening).has_window == old(opening).has_window,
{
}

/// A boot ends once: what was built is installed, a cancellation leaves, a crash is
/// parked until it is acknowledged, and after any of them polls change nothing.
pub proof fn a_boot_ends_once<T>(
    boot: &mut BootState,
    poll: Option<Result<T, JobError>>,
    step: BootStep<T>,
)
    requires
        call_ensures(BootState::try_finish_boot::<T>, (boot, poll), step),
    ensures
        !old(boot).booting || old(boot).failure is Some ==> step is Idle && *final(boot) == *old(boot),
        old(boot).booting && old(boot).failure is None ==> {
            &&& step is Waiting <==> poll is None
            &&& poll matches Some(Ok(value)) ==> step == BootStep::Install(value)
            &&& poll == Some(Err::<T, JobError>(JobError::Cancelled)) <==> step is Exit
            &&& poll matches Some(Err(JobError::Panicked(message))) ==> step is Park
            &&& step is Waiting || step is Park <==> final(boot).booting
            &&& step is Park <==> final(boot).failure is Some
            &&& !(step is Waiting) ==> !final(boot).open_to_polls()
        },
{
}

/// Cancelling is no failure, and a crash of the worker is kept as it was told.
pub proof fn polls_are_classified<T>(poll: Option<Result<T, JobError>>, class: BootPoll<T>)
    requires
        call_ensures(classify_boot_poll::<T>, (poll,), class),
    ensures
        class is Pending <==> poll is None,
        poll matches Some(Ok(value)) ==> class == BootPoll::Ready(value),
        class is Shutdown <==> poll == Some(Err::<T, JobError>(JobError::Cancelled)),
        poll matches Some(Err(JobError::Panicked(message))) ==> class == BootPoll::<T>::Failed(
            StartupError::BootWorker(JobError::Panicked(message)),
        ),
{
}

/// A parked failure is handed over once.
pub proof fn failures_are_acknowledged_once(boot: &mut BootState, error: Option<StartupError>)
    requires
        call_ensures(BootState::acknowledge, (boot,), error),
    ensures
        error == old(boot).failure,
        final(boot).failure is None,
        final(boot).booting == old(boot).booting,
{
}

/// The splash counts shaders once there are any.
pub proof fn the_splash_counts_shaders(shaders: u32, text: String)
    requires
        call_ensures(splash_status, (shaders,), text),
    ensures
        shaders == 0 ==> text@ == "Compiling shaders..."@,
        shaders > 0 ==> text@ == "Compiling shaders..."@ + " "@ + crate::text::decimal(
            shaders as nat,
        ),
{
    reveal_strlit("Compiling shaders...");
    reveal_strlit("Compiling shaders... ");
    reveal_strlit(" ");
    assert("Compiling shaders... "@ =~= "Compiling shaders..."@ + " "@);
}

/// A fault is injected at its own stage, however it is written, and without one
/// configured at none.
pub proof fn faults_belong_to_their_stage(stage: &str, configured: Option<&str>, injected: bool)
    requires
        call_ensures(injected_fault, (stage, configured), injected),
    ensures
        configured is None ==> !injected,
        configured matches Some(value) ==> (value@ == stage@ ==> injected),
        configured matches Some(value) ==> (value@.len() != stage@.len() ==> !injected),
        configured matches Some(value) ==> (injected ==> value@.map_values(
            |c: char| crate::text::ascii_lower(c),
        ) == stage@.map_values(|c: char| crate::text::ascii_lower(c))),
{
    if let Some(value) = configured {
        crate::text::case_does_not_matter(value@, stage@);
        crate::text::case_does_not_matter(value@, value@);
    }
}

/// The editor starts without arguments and with one that is not known; each known
/// argument asks for its own answer, and more than one is too many.
pub proof fn arguments_ask_for_their_answer(arguments: &[String], action: Option<CliAction>)
    requires
        call_ensures(handle_release_cli, (arguments,), action),
    ensures
        arguments@.len() == 0 ==> action is None,
        arguments@.len() > 1 <==> action == Some(CliAction::Unexpected),
        arguments@.len() == 1 ==> {
            &&& action == Some(CliAction::Version) <==> arguments@[0]@ == "--version"@
                || arguments@[0]@ == "-V"@
            &&& action == Some(CliAction::SelfCheck) <==> arguments@[0]@ == "--self-check"@
            &&& action == Some(CliAction::Help) <==> arguments@[0]@ == "--help"@ || arguments@[0]@
                == "-h"@
        },
{
    reveal_strlit("--version");
    reveal_strlit("-V");
    reveal_strlit("--self-check");
    reveal_strlit("--help");
    reveal_strlit("-h");
    assert("--version"@.len() == 9);
    assert("-V"@.len() == 2);
    assert("--self-check"@.len() == 12);
    assert("--help"@.len() == 6);
    assert("-h"@.len() == 2);
    assert("-V"@[1] == 'V');
    assert("-h"@[1] == 'h');
}

/// The program succeeds exactly where nothing failed; a stored failure wins over that
/// of the loop, and a dialog shows whatever was not shown yet.
pub proof fn failures_end_the_program(
    stored: Option<StartupError>,
    presented: bool,
    run_result: Result<(), String>,
    step: ExitStep,
)
    requires
        call_ensures(exit_step, (stored, presented, run_result), step),
    ensures
        step is Success <==> stored is None && run_result is Ok,
        stored matches Some(error) ==> step == (ExitStep::Failure {
            error,
            show_dialog: !presented,
        }),
        stored is None ==> (run_result matches Err(shown) ==> step == (ExitStep::Failure {
            error: StartupError::RunApp(shown),
            show_dialog: true,
        })),
{
}

} // verus!
