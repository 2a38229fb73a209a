//! A run as a sequence of steps. Each step takes what the caller observed
//! and answers with the lines to print and the next thing to do. A run
//! starts in `Phase::Start` with `Event::Begin` and is over when a step
//! answers with `Action::Finish`.

use vstd::prelude::*;
use crate::command::{
    installer_command, installer_command_spec, package_manager_command,
    package_manager_command_spec, probe_command, probe_command_spec, CommandLine, CommandLineView,
};
use crate::gpu::{check_for_gpu, names_gpu};
use crate::platform::{
    installer_url, installer_url_spec, Platform, Settings, SettingsView, INSTALLER_PATH,
};
use crate::report::{
    Failure, FailureView, Finish, FinishView, InstallOutcome, InstallOutcomeView, Message,
    MessageView,
};
use crate::status::HttpStatus;
use crate::text::{decode_lossy, utf8_lossy};

verus! {

/// Where a run stands: what the caller was last asked to do.
#[derive(Clone, Copy, Debug, PartialEq, Eq, Structural)]
pub enum Phase {
    /// Nothing was asked yet.
    Start,
    /// The hardware listing command is running.
    ProbeGpu,
    /// The toolkit is being looked for.
    ProbeToolkit,
    /// The package manager is running.
    Install,
    /// The installer is being fetched.
    Download,
    /// The fetched installer is being written to disk.
    Save,
    /// The installer is running.
    RunInstaller,
    /// The run is over.
    End,
}

/// What the caller observed when it did what it was asked.
#[derive(Clone, Debug, PartialEq, Eq)]
pub enum Event {
    /// The run begins.
    Begin,
    /// The command ran to its end. `stdout` and `stderr` hold what it wrote
    /// if its output was captured, and are empty if it was not.
    Exited { success: bool, stdout: Vec<u8>, stderr: Vec<u8> },
    /// The command could not be started. Holds what the system said.
    SpawnFailed(String),
    /// The toolkit was looked for and was, or was not, found.
    ToolkitProbed(bool),
    /// The server answered the download with this status.
    Response(HttpStatus),
    /// The download got no answer, or the answer's body could not be read.
    /// Holds what the client said.
    NetworkFailed(String),
    /// The installer was written to disk and the file was closed.
    Saved,
    /// The installer could not be written. Holds what the system said.
    SaveFailed(String),
}

/// `Event` as plain values.
pub enum EventView {
    Begin,
    Exited { success: bool, stdout: Seq<u8>, stderr: Seq<u8> },
    SpawnFailed(Seq<char>),
    ToolkitProbed(bool),
    Response(u16),
    NetworkFailed(Seq<char>),
    Saved,
    SaveFailed(Seq<char>),
}

impl View for Event {
    type V = EventView;

    open spec fn view(&self) -> EventView {
        match self {
            Event::Begin => EventView::Begin,
            Event::Exited { success, stdout, stderr } => EventView::Exited {
                success: *success,
                stdout: stdout@,
                stderr: stderr@,
            },
            Event::SpawnFailed(reason) => EventView::SpawnFailed(reason@),
            Event::ToolkitProbed(found) => EventView::ToolkitProbed(*found),
            Event::Response(status) => EventView::Response(status@),
            Event::NetworkFailed(reason) => EventView::NetworkFailed(reason@),
            Event::Saved => EventView::Saved,
            Event::SaveFailed(reason) => EventView::SaveFailed(reason@),
        }
    }
}

/// What the caller is asked to do next.
#[derive(Clone, Debug, PartialEq, Eq)]
pub enum Action {
    /// Run `command` to its end and answer with `Event::Exited`, or with
    /// `Event::SpawnFailed` if it cannot be started. With `capture`, what
    /// the command writes is collected and handed back; without, the
    /// command writes to the console.
    Run { command: CommandLine, capture: bool },
    /// Look for the toolkit and answer with `Event::ToolkitProbed`.
    ProbeToolkit,
    /// Fetch this URL with an HTTP GET and answer with `Event::Response`,
    /// or with `Event::NetworkFailed` if no answer comes.
    Fetch(String),
    /// Create the file at this path, read the body of the response, write
    /// it to the file and close the file. Answer with `Event::Saved`, with
    /// `Event::SaveFailed` if the file cannot be created or written, or
    /// with `Event::NetworkFailed` if the body cannot be read.
    Save(String),
    /// Stop: the run ended this way.
    Finish(Finish),
}

/// `Action` as plain values.
pub enum ActionView {
    Run { command: CommandLineView, capture: bool },
    ProbeToolkit,
    Fetch(Seq<char>),
    Save(Seq<char>),
    Finish(FinishView),
}

impl View for Action {
    type V = ActionView;

    open spec fn view(&self) -> ActionView {
        match self {
            Action::Run { command, capture } => ActionView::Run {
                command: command@,
                capture: *capture,
            },
            Action::ProbeToolkit => ActionView::ProbeToolkit,
            Action::Fetch(url) => ActionView::Fetch(url@),
            Action::Save(path) => ActionView::Save(path@),
            Action::Finish(finish) => ActionView::Finish(finish@),
        }
    }
}

/// The answer of a step.
#[derive(Clone, Debug, PartialEq, Eq)]
pub struct Transition {
    /// Where the run stands after the step.
    pub next: Phase,
    /// The lines to print, in order, before acting.
    pub messages: Vec<Message>,
    /// What to do next.
    pub action: Action,
}

/// `Transition` as plain values.
pub struct TransitionView {
    pub next: Phase,
    pub messages: Seq<MessageView>,
    pub action: ActionView,
}

impl View for Transition {
    type V = TransitionView;

    open spec fn view(&self) -> TransitionView {
        TransitionView {
            next: self.next,
            messages: Seq::new(self.messages@.len(), |i: int| self.messages@[i]@),
            action: self.action@,
        }
    }
}

/// The step that ends a run with one line and `finish`.
pub open spec fn ending(message: MessageView, finish: FinishView) -> TransitionView {
    TransitionView { next: Phase::End, messages: seq![message], action: ActionView::Finish(finish) }
}

/// The step that ends an installation with `failure`.
pub open spec fn failing(message: MessageView, failure: FailureView) -> TransitionView {
    ending(message, FinishView::Installed(InstallOutcomeView::Failed(failure)))
}

/// The first step: the hardware listing command of the platform is run and
/// its output captured. Nothing is printed.
pub open spec fn begin_spec(platform: Platform) -> TransitionView {
    TransitionView {
        next: Phase::ProbeGpu,
        messages: seq![],
        action: ActionView::Run { command: probe_command_spec(platform), capture: true },
    }
}

/// The step after the hardware listing. If its output names a GPU the
/// toolkit is looked for next; if not, the run ends. The exit status of the
/// command plays no part. A command that could not be started ends the run.
pub open spec fn gpu_probed_spec(platform: Platform, event: EventView) -> Option<TransitionView> {
    match event {
        EventView::Exited { success, stdout, stderr } => Some(
            if names_gpu(utf8_lossy(stdout)) {
                TransitionView {
                    next: Phase::ProbeToolkit,
                    messages: seq![MessageView::GpuFound],
                    action: ActionView::ProbeToolkit,
                }
            } else {
                ending(MessageView::NoGpu, FinishView::NoGpu)
            },
        ),
        EventView::SpawnFailed(reason) => Some(
            ending(
                MessageView::ProbeNotStarted {
                    program: probe_command_spec(platform).program,
                    reason,
                },
                FinishView::ProbeFailed(reason),
            ),
        ),
        _ => None,
    }
}

/// How installing starts. Linux runs the package manager. Windows fetches
/// the installer if downloading is asked for. Otherwise Windows, and macOS
/// always, point the user at the download page and install nothing.
pub open spec fn install_cuda_spec(platform: Platform, settings: SettingsView) -> TransitionView {
    match platform {
        Platform::Linux => TransitionView {
            next: Phase::Install,
            messages: seq![],
            action: ActionView::Run { command: package_manager_command_spec(), capture: true },
        },
        Platform::Windows => if settings.download {
            TransitionView {
                next: Phase::Download,
                messages: seq![],
                action: ActionView::Fetch(installer_url_spec(settings)),
            }
        } else {
            ending(MessageView::ManualWindows, FinishView::Installed(InstallOutcomeView::Skipped))
        },
        Platform::MacOs => ending(
            MessageView::ManualMac,
            FinishView::Installed(InstallOutcomeView::Skipped),
        ),
    }
}

/// The step after the toolkit was looked for. A toolkit that is there ends
/// the run; a missing one is announced and installing starts.
pub open spec fn toolkit_probed_spec(
    platform: Platform,
    settings: SettingsView,
    event: EventView,
) -> Option<TransitionView> {
    match event {
        EventView::ToolkitProbed(found) => Some(
            if found {
                ending(MessageView::ToolkitPresent, FinishView::AlreadyInstalled)
            } else {
                let install = install_cuda_spec(platform, settings);
                TransitionView {
                    next: install.next,
                    messages: seq![MessageView::ToolkitMissing] + install.messages,
                    action: install.action,
                }
            },
        ),
        _ => None,
    }
}

/// The step after the package manager. Success ends the run as installed.
/// Failure ends it with what the package manager wrote to standard error,
/// unchanged, both in the line that is printed and in the outcome.
pub open spec fn package_manager_finished_spec(event: EventView) -> Option<TransitionView> {
    match event {
        EventView::Exited { success, stdout, stderr } => Some(
            if success {
                ending(
                    MessageView::InstallSucceeded,
                    FinishView::Installed(InstallOutcomeView::Succeeded),
                )
            } else {
                failing(
                    MessageView::InstallFailed(utf8_lossy(stderr)),
                    FailureView::NonZeroExit(utf8_lossy(stderr)),
                )
            },
        ),
        EventView::SpawnFailed(reason) => Some(
            failing(MessageView::InstallNotStarted(reason), FailureView::SpawnFailure(reason)),
        ),
        _ => None,
    }
}

/// The step after the download was answered. On a success status the body
/// is written to the installer's path. Any other status, or no answer at
/// all, ends the run: nothing is written and nothing is run.
pub open spec fn cuda_install_windows_spec(event: EventView) -> Option<TransitionView> {
    match event {
        EventView::Response(code) => Some(
            if 200 <= code < 300 {
                TransitionView {
                    next: Phase::Save,
                    messages: seq![],
                    action: ActionView::Save(INSTALLER_PATH@),
                }
            } else {
                failing(MessageView::DownloadRejected(code), FailureView::BadStatus(code))
            },
        ),
        EventView::NetworkFailed(reason) => Some(
            failing(MessageView::DownloadFailed(reason), FailureView::NetworkFailure(reason)),
        ),
        _ => None,
    }
}

/// The step after the installer was written. Once the file is complete the
/// installer is run silently, writing to the console. A failed write ends
/// the run, and so does a body that could not be read from the server.
pub open spec fn installer_saved_spec(event: EventView) -> Option<TransitionView> {
    match event {
        EventView::Saved => Some(
            TransitionView {
                next: Phase::RunInstaller,
                messages: seq![MessageView::Downloaded],
                action: ActionView::Run {
                    command: installer_command_spec(INSTALLER_PATH@),
                    capture: false,
                },
            },
        ),
        EventView::SaveFailed(reason) => Some(
            failing(MessageView::SaveFailed(reason), FailureView::FileWriteFailure(reason)),
        ),
        EventView::NetworkFailed(reason) => Some(
            failing(MessageView::DownloadFailed(reason), FailureView::NetworkFailure(reason)),
        ),
        _ => None,
    }
}

/// The step after the installer ran: the run ends as installed or as
/// failed.
pub open spec fn run_installer_spec(event: EventView) -> Option<TransitionView> {
    match event {
        EventView::Exited { success, stdout, stderr } => Some(
            if success {
                ending(
                    MessageView::InstallerRan,
                    FinishView::Installed(InstallOutcomeView::Succeeded),
                )
            } else {
                failing(
                    MessageView::InstallerFailed,
                    FailureView::NonZeroExit(utf8_lossy(stderr)),
                )
            },
        ),
        EventView::SpawnFailed(reason) => Some(
            failing(MessageView::InstallerNotStarted(reason), FailureView::SpawnFailure(reason)),
        ),
        _ => None,
    }
}

/// `event` is an answer to what the caller was asked in `phase`.
pub open spec fn expected(phase: Phase, event: EventView) -> bool {
    match phase {
        Phase::Start => event is Begin,
        Phase::ProbeGpu => event is Exited || event is SpawnFailed,
        Phase::ProbeToolkit => event is ToolkitProbed,
        Phase::Install => event is Exited || event is SpawnFailed,
        Phase::Download => event is Response || event is NetworkFailed,
        Phase::Save => event is Saved || event is SaveFailed || event is NetworkFailed,
        Phase::RunInstaller => event is Exited || event is SpawnFailed,
        Phase::End => false,
    }
}

/// One step of a run: the answer to `event` in `phase`, or `None` if
/// `event` is no answer to what was asked in `phase`. Nothing answers a run
/// that is over.
pub open spec fn step_spec(
    platform: Platform,
    settings: SettingsView,
    phase: Phase,
    event: EventView,
) -> Option<TransitionView> {
    match phase {
        Phase::Start => match event {
            EventView::Begin => Some(begin_spec(platform)),
            _ => None,
        },
        Phase::ProbeGpu => gpu_probed_spec(platform, event),
        Phase::ProbeToolkit => toolkit_probed_spec(platform, settings, event),
        Phase::Install => package_manager_finished_spec(event),
        Phase::Download => cuda_install_windows_spec(event),
        Phase::Save => installer_saved_spec(event),
        Phase::RunInstaller => run_installer_spec(event),
        Phase::End => None,
    }
}

/// A step's answer matches what the model gives.
pub open spec fn answers(answer: Option<Transition>, model: Option<TransitionView>) -> bool {
    match answer {
        Some(transition) => model == Some(transition@),
        None => model is None,
    }
}

fn end_with(message: Message, finish: Finish) -> (transition: Transition)
    ensures
        transition@ == ending(message@, finish@),
{
    let transition = Transition {
        next: Phase::End,
        messages: vec![message],
        action: Action::Finish(finish),
    };
    assert(transition@.messages =~= seq![message@]);
    transition
}

fn fail_with(message: Message, failure: Failure) -> (transition: Transition)
    ensures
        transition@ == failing(message@, failure@),
{
    end_with(message, Finish::Installed(InstallOutcome::Failed(failure)))
}

/// The first step of a run.
pub fn begin(platform: Platform) -> (transition: Transition)
    ensures
        transition@ == begin_spec(platform),
{
    let transition = Transition {
        next: Phase::ProbeGpu,
        messages: Vec::new(),
        action: Action::Run { command: probe_command(platform), capture: true },
    };
    assert(transition@.messages =~= seq![]);
    transition
}

/// The step after the hardware listing command.
pub fn gpu_probed(platform: Platform, event: Event) -> (answer: Option<Transition>)
    ensures
        answers(answer, gpu_probed_spec(platform, event@)),
        answer is Some <==> expected(Phase::ProbeGpu, event@),
{
    match event {
        Event::Exited { success, stdout, stderr } => {
            if check_for_gpu(stdout.as_slice()) {
                let transition = Transition {
                    next: Phase::ProbeToolkit,
                    messages: vec![Message::GpuFound],
                    action: Action::ProbeToolkit,
                };
                assert(transition@.messages =~= seq![MessageView::GpuFound]);
                Some(transition)
            } else {
                Some(end_with(Message::NoGpu, Finish::NoGpu))
            }
        },
        Event::SpawnFailed(reason) => {
            let program = probe_command(platform).program;
            let message = Message::ProbeNotStarted { program, reason: reason.clone() };
            Some(end_with(message, Finish::ProbeFailed(reason)))
        },
        _ => None,
    }
}

/// How installing starts on `platform`.
pub fn install_cuda(platform: Platform, settings: &Settings) -> (transition: Transition)
    ensures
        transition@ == install_cuda_spec(platform, settings@),
{
    match platform {
        Platform::Linux => {
            let transition = Transition {
                next: Phase::Install,
                messages: Vec::new(),
                action: Action::Run { command: package_manager_command(), capture: true },
            };
            assert(transition@.messages =~= seq![]);
            transition
        },
        Platform::Windows => {
            if settings.download {
                let transition = Transition {
                    next: Phase::Download,
                    messages: Vec::new(),
                    action: Action::Fetch(installer_url(settings)),
                };
                assert(transition@.messages =~= seq![]);
                transition
            } else {
                end_with(Message::ManualWindows, Finish::Installed(InstallOutcome::Skipped))
            }
        },
        Platform::MacOs => end_with(
            Message::ManualMac,
            Finish::Installed(InstallOutcome::Skipped),
        ),
    }
}

/// The step after the toolkit was looked for.
pub fn toolkit_probed(
    platform: Platform,
    settings: &Settings,
    event: Event,
) -> (answer: Option<Transition>)
    ensures
        answers(answer, toolkit_probed_spec(platform, settings@, event@)),
        answer is Some <==> expected(Phase::ProbeToolkit, event@),
{
    match event {
        Event::ToolkitProbed(found) => {
            if found {
                Some(end_with(Message::ToolkitPresent, Finish::AlreadyInstalled))
            } else {
                let mut transition = install_cuda(platform, settings);
                let ghost install = transition@;
                transition.messages.insert(0, Message::ToolkitMissing);
                assert(transition@.messages =~= seq![MessageView::ToolkitMissing]
                    + install.messages);
                Some(transition)
            }
        },
        _ => None,
    }
}

/// The step after the package manager.
pub fn package_manager_finished(event: Event) -> (answer: Option<Transition>)
    ensures
        answers(answer, package_manager_finished_spec(event@)),
        answer is Some <==> expected(Phase::Install, event@),
{
    match event {
        Event::Exited { success, stdout, stderr } => {
            if success {
                Some(
                    end_with(
                        Message::InstallSucceeded,
                        Finish::Installed(InstallOutcome::Succeeded),
                    ),
                )
            } else {
                let errors = decode_lossy(stderr.as_slice());
                Some(
                    fail_with(Message::InstallFailed(errors.clone()), Failure::NonZeroExit(errors)),
                )
            }
        },
        Event::SpawnFailed(reason) => Some(
            fail_with(Message::InstallNotStarted(reason.clone()), Failure::SpawnFailure(reason)),
        ),
        _ => None,
    }
}

/// The step after the download was answered.
pub fn cuda_install_windows(event: Event) -> (answer: Option<Transition>)
    ensures
        answers(answer, cuda_install_windows_spec(event@)),
        answer is Some <==> expected(Phase::Download, event@),
{
    match event {
        Event::Response(status) => {
            if status.is_success() {
                let transition = Transition {
                    next: Phase::Save,
                    messages: Vec::new(),
                    action: Action::Save(INSTALLER_PATH.to_owned()),
                };
                assert(transition@.messages =~= seq![]);
                Some(transition)
            } else {
                Some(fail_with(Message::DownloadRejected(status), Failure::BadStatus(status)))
            }
        },
        Event::NetworkFailed(reason) => Some(
            fail_with(Message::DownloadFailed(reason.clone()), Failure::NetworkFailure(reason)),
        ),
        _ => None,
    }
}

/// The step after the installer was written to disk.
pub fn installer_saved(event: Event) -> (answer: Option<Transition>)
    ensures
        answers(answer, installer_saved_spec(event@)),
        answer is Some <==> expected(Phase::Save, event@),
{
    match event {
        Event::Saved => {
            let transition = Transition {
                next: Phase::RunInstaller,
                messages: vec![Message::Downloaded],
                action: Action::Run { command: installer_command(INSTALLER_PATH), capture: false },
            };
            assert(transition@.messages =~= seq![MessageView::Downloaded]);
            Some(transition)
        },
        Event::SaveFailed(reason) => Some(
            fail_with(Message::SaveFailed(reason.clone()), Failure::FileWriteFailure(reason)),
        ),
        Event::NetworkFailed(reason) => Some(
            fail_with(Message::DownloadFailed(reason.clone()), Failure::NetworkFailure(reason)),
        ),
        _ => None,
    }
}

/// The step after the installer ran.
pub fn run_installer(event: Event) -> (answer: Option<Transition>)
    ensures
        answers(answer, run_installer_spec(event@)),
        answer is Some <==> expected(Phase::RunInstaller, event@),
{
    match event {
        Event::Exited { success, stdout, stderr } => {
            if success {
                Some(
                    end_with(Message::InstallerRan, Finish::Installed(InstallOutcome::Succeeded)),
                )
            } else {
                let errors = decode_lossy(stderr.as_slice());
                Some(fail_with(Message::InstallerFailed, Failure::NonZeroExit(errors)))
            }
        },
        Event::SpawnFailed(reason) => Some(
            fail_with(Message::InstallerNotStarted(reason.clone()), Failure::SpawnFailure(reason)),
        ),
        _ => None,
    }
}

/// One step of a run. Given where the run stands and what the caller
/// observed, answers with the lines to print and what to do next, or with
/// `None` if `event` does not answer what was asked in `phase`.
pub fn step(
    platform: Platform,
    settings: &Settings,
    phase: Phase,
    event: Event,
) -> (answer: Option<Transition>)
    ensures
        answers(answer, step_spec(platform, settings@, phase, event@)),
        answer is Some <==> expected(phase, event@),
{
    match phase {
        Phase::Start => match event {
            Event::Begin => Some(begin(platform)),
            _ => None,
        },
        Phase::ProbeGpu => gpu_probed(platform, event),
        Phase::ProbeToolkit => toolkit_probed(platform, settings, event),
        Phase::Install => package_manager_finished(event),
        Phase::Download => cuda_install_windows(event),
        Phase::Save => installer_saved(event),
        Phase::RunInstaller => run_installer(event),
        Phase::End => None,
    }
}

} // verus!
