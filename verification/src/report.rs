//! What a run tells its user and how it can end.

use vstd::prelude::*;
use vstd::string::StringExecFns;
use crate::platform::INSTALLER_PATH;
use crate::status::{status_display, HttpStatus};

verus! {

/// Why an installation failed.
#[derive(Clone, Debug, PartialEq, Eq)]
pub enum Failure {
    /// A tool could not be started. Holds what the system said.
    SpawnFailure(String),
    /// A tool ran and reported failure. Holds what it wrote to standard
    /// error, unchanged.
    NonZeroExit(String),
    /// The server answered the download with a status that is no success.
    BadStatus(HttpStatus),
    /// The download got no answer. Holds what the client said.
    NetworkFailure(String),
    /// The installer could not be written to disk. Holds what the system
    /// said.
    FileWriteFailure(String),
}

/// `Failure` as plain values.
pub enum FailureView {
    SpawnFailure(Seq<char>),
    NonZeroExit(Seq<char>),
    BadStatus(u16),
    NetworkFailure(Seq<char>),
    FileWriteFailure(Seq<char>),
}

impl View for Failure {
    type V = FailureView;

    open spec fn view(&self) -> FailureView {
        match self {
            Failure::SpawnFailure(reason) => FailureView::SpawnFailure(reason@),
            Failure::NonZeroExit(errors) => FailureView::NonZeroExit(errors@),
            Failure::BadStatus(status) => FailureView::BadStatus(status@),
            Failure::NetworkFailure(reason) => FailureView::NetworkFailure(reason@),
            Failure::FileWriteFailure(reason) => FailureView::FileWriteFailure(reason@),
        }
    }
}

impl FailureView {
    /// Whether the failure ends the run as an error. A tool that ran and
    /// failed, or a server that refused, is reported and the run still
    /// completes; the other failures are errors of the run itself.
    pub open spec fn is_error(self) -> bool {
        match self {
            FailureView::SpawnFailure(_) => true,
            FailureView::NonZeroExit(_) => false,
            FailureView::BadStatus(_) => false,
            FailureView::NetworkFailure(_) => true,
            FailureView::FileWriteFailure(_) => true,
        }
    }
}

impl Failure {
    /// Whether the failure ends the run as an error rather than as a
    /// reported outcome.
    pub fn is_error(&self) -> (error: bool)
        ensures
            error == self@.is_error(),
    {
        match self {
            Failure::SpawnFailure(_) => true,
            Failure::NonZeroExit(_) => false,
            Failure::BadStatus(_) => false,
            Failure::NetworkFailure(_) => true,
            Failure::FileWriteFailure(_) => true,
        }
    }
}

/// How an installation ended.
#[derive(Clone, Debug, PartialEq, Eq)]
pub enum InstallOutcome {
    /// Nothing was installed: the user was pointed at the download page.
    Skipped,
    /// The toolkit was installed.
    Succeeded,
    /// The installation was tried and failed.
    Failed(Failure),
}

/// `InstallOutcome` as plain values.
pub enum InstallOutcomeView {
    Skipped,
    Succeeded,
    Failed(FailureView),
}

impl View for InstallOutcome {
    type V = InstallOutcomeView;

    open spec fn view(&self) -> InstallOutcomeView {
        match self {
            InstallOutcome::Skipped => InstallOutcomeView::Skipped,
            InstallOutcome::Succeeded => InstallOutcomeView::Succeeded,
            InstallOutcome::Failed(failure) => InstallOutcomeView::Failed(failure@),
        }
    }
}

/// How a run ended.
#[derive(Clone, Debug, PartialEq, Eq)]
pub enum Finish {
    /// The hardware listing could not be started. Holds what the system
    /// said.
    ProbeFailed(String),
    /// No supported GPU was found, so nothing else was looked at.
    NoGpu,
    /// A GPU was found and the toolkit was already there.
    AlreadyInstalled,
    /// A GPU was found, the toolkit was missing and installing it ended
    /// with this outcome.
    Installed(InstallOutcome),
}

/// `Finish` as plain values.
pub enum FinishView {
    ProbeFailed(Seq<char>),
    NoGpu,
    AlreadyInstalled,
    Installed(InstallOutcomeView),
}

impl View for Finish {
    type V = FinishView;

    open spec fn view(&self) -> FinishView {
        match self {
            Finish::ProbeFailed(reason) => FinishView::ProbeFailed(reason@),
            Finish::NoGpu => FinishView::NoGpu,
            Finish::AlreadyInstalled => FinishView::AlreadyInstalled,
            Finish::Installed(outcome) => FinishView::Installed(outcome@),
        }
    }
}

impl FinishView {
    /// Whether the run ended as an error: the probe could not be started,
    /// or the installation failed with an error of the run itself.
    pub open spec fn is_error(self) -> bool {
        match self {
            FinishView::ProbeFailed(_) => true,
            FinishView::Installed(InstallOutcomeView::Failed(failure)) => failure.is_error(),
            _ => false,
        }
    }
}

impl Finish {
    /// Whether the run ended as an error rather than completing.
    pub fn is_error(&self) -> (error: bool)
        ensures
            error == self@.is_error(),
    {
        match self {
            Finish::ProbeFailed(_) => true,
            Finish::Installed(InstallOutcome::Failed(failure)) => failure.is_error(),
            _ => false,
        }
    }
}

/// Where a message is printed.
#[derive(Clone, Copy, Debug, PartialEq, Eq, Structural)]
pub enum Stream {
    Stdout,
    Stderr,
}

/// A status line for the user. Each decision of a run is reported by one.
#[derive(Clone, Debug, PartialEq, Eq)]
pub enum Message {
    /// The hardware listing names a supported GPU.
    GpuFound,
    /// The hardware listing names no supported GPU.
    NoGpu,
    /// The hardware listing `program` could not be started for `reason`.
    ProbeNotStarted { program: String, reason: String },
    /// The toolkit is missing and is about to be installed.
    ToolkitMissing,
    /// The toolkit is already there.
    ToolkitPresent,
    /// On Windows the toolkit is installed by hand, from the download page.
    ManualWindows,
    /// On macOS the toolkit is installed by hand, from the download page.
    ManualMac,
    /// The package manager installed the toolkit.
    InstallSucceeded,
    /// The package manager failed. Holds what it wrote to standard error.
    InstallFailed(String),
    /// The package manager could not be started. Holds the reason.
    InstallNotStarted(String),
    /// The installer was fetched and written to disk.
    Downloaded,
    /// The server answered the download with this status, no success.
    DownloadRejected(HttpStatus),
    /// The download got no answer. Holds the reason.
    DownloadFailed(String),
    /// The installer could not be written to disk. Holds the reason.
    SaveFailed(String),
    /// The installer ran and reported success.
    InstallerRan,
    /// The installer ran and reported failure.
    InstallerFailed,
    /// The installer could not be started. Holds the reason.
    InstallerNotStarted(String),
}

/// `Message` as plain values.
pub enum MessageView {
    GpuFound,
    NoGpu,
    ProbeNotStarted { program: Seq<char>, reason: Seq<char> },
    ToolkitMissing,
    ToolkitPresent,
    ManualWindows,
    ManualMac,
    InstallSucceeded,
    InstallFailed(Seq<char>),
    InstallNotStarted(Seq<char>),
    Downloaded,
    DownloadRejected(u16),
    DownloadFailed(Seq<char>),
    SaveFailed(Seq<char>),
    InstallerRan,
    InstallerFailed,
    InstallerNotStarted(Seq<char>),
}

impl View for Message {
    type V = MessageView;

    open spec fn view(&self) -> MessageView {
        match self {
            Message::GpuFound => MessageView::GpuFound,
            Message::NoGpu => MessageView::NoGpu,
            Message::ProbeNotStarted { program, reason } => MessageView::ProbeNotStarted {
                program: program@,
                reason: reason@,
            },
            Message::ToolkitMissing => MessageView::ToolkitMissing,
            Message::ToolkitPresent => MessageView::ToolkitPresent,
            Message::ManualWindows => MessageView::ManualWindows,
            Message::ManualMac => MessageView::ManualMac,
            Message::InstallSucceeded => MessageView::InstallSucceeded,
            Message::InstallFailed(errors) => MessageView::InstallFailed(errors@),
            Message::InstallNotStarted(reason) => MessageView::InstallNotStarted(reason@),
            Message::Downloaded => MessageView::Downloaded,
            Message::DownloadRejected(status) => MessageView::DownloadRejected(status@),
            Message::DownloadFailed(reason) => MessageView::DownloadFailed(reason@),
            Message::SaveFailed(reason) => MessageView::SaveFailed(reason@),
            Message::InstallerRan => MessageView::InstallerRan,
            Message::InstallerFailed => MessageView::InstallerFailed,
            Message::InstallerNotStarted(reason) => MessageView::InstallerNotStarted(reason@),
        }
    }
}

impl MessageView {
    /// The line that is printed for the message.
    pub open spec fn text(self) -> Seq<char> {
        match self {
            MessageView::GpuFound => "Supported GPU found."@,
            MessageView::NoGpu => "No supported GPU found."@,
            MessageView::ProbeNotStarted { program, reason } => "Failed to execute "@ + program
                + ": "@ + reason,
            MessageView::ToolkitMissing => "CUDA not found. Installing..."@,
            MessageView::ToolkitPresent => "CUDA is already installed."@,
            MessageView::ManualWindows =>
                "Installing CUDA drivers from the NVIDIA website: https://developer.nvidia.com/cuda-downloads"@,
            MessageView::ManualMac =>
                "Please install CUDA from the NVIDIA website: https://developer.nvidia.com/cuda-downloads"@,
            MessageView::InstallSucceeded => "CUDA installed successfully!"@,
            MessageView::InstallFailed(errors) => "CUDA installation failed: "@ + errors,
            MessageView::InstallNotStarted(reason) => "Failed to install CUDA: "@ + reason,
            MessageView::Downloaded => "CUDA installer downloaded successfully to \""@
                + INSTALLER_PATH@ + "\""@,
            MessageView::DownloadRejected(code) => "Failed to download the installer: "@
                + status_display(code),
            MessageView::DownloadFailed(reason) => "Failed to download the installer: "@ + reason,
            MessageView::SaveFailed(reason) => "Failed to save the installer: "@ + reason,
            MessageView::InstallerRan => "CUDA installer executed successfully."@,
            MessageView::InstallerFailed => "Failed to run the CUDA installer."@,
            MessageView::InstallerNotStarted(reason) => "Failed to run the CUDA installer: "@
                + reason,
        }
    }

    /// Where the message is printed: what ends or fails the installation
    /// through an error goes to standard error, the rest to standard
    /// output.
    pub open spec fn stream(self) -> Stream {
        match self {
            MessageView::ProbeNotStarted { .. } => Stream::Stderr,
            MessageView::InstallFailed(_) => Stream::Stderr,
            MessageView::InstallNotStarted(_) => Stream::Stderr,
            MessageView::DownloadFailed(_) => Stream::Stderr,
            MessageView::SaveFailed(_) => Stream::Stderr,
            MessageView::InstallerNotStarted(_) => Stream::Stderr,
            _ => Stream::Stdout,
        }
    }
}

impl Message {
    /// The line to print for the message.
    pub fn text(&self) -> (text: String)
        ensures
            text@ == self@.text(),
    {
        match self {
            Message::GpuFound => "Supported GPU found.".to_owned(),
            Message::NoGpu => "No supported GPU found.".to_owned(),
            Message::ProbeNotStarted { program, reason } => "Failed to execute ".to_owned().concat(
                program.as_str(),
            ).concat(": ").concat(reason.as_str()),
            Message::ToolkitMissing => "CUDA not found. Installing...".to_owned(),
            Message::ToolkitPresent => "CUDA is already installed.".to_owned(),
            Message::ManualWindows =>
                "Installing CUDA drivers from the NVIDIA website: https://developer.nvidia.com/cuda-downloads".to_owned(),
            Message::ManualMac =>
                "Please install CUDA from the NVIDIA website: https://developer.nvidia.com/cuda-downloads".to_owned(),
            Message::InstallSucceeded => "CUDA installed successfully!".to_owned(),
            Message::InstallFailed(errors) => "CUDA installation failed: ".to_owned().concat(
                errors.as_str(),
            ),
            Message::InstallNotStarted(reason) => "Failed to install CUDA: ".to_owned().concat(
                reason.as_str(),
            ),
            Message::Downloaded => "CUDA installer downloaded successfully to \"".to_owned().concat(
                INSTALLER_PATH,
            ).concat("\""),
            Message::DownloadRejected(status) => {
                let printed = status.describe();
                "Failed to download the installer: ".to_owned().concat(printed.as_str())
            },
            Message::DownloadFailed(reason) => "Failed to download the installer: ".to_owned().concat(
                reason.as_str(),
            ),
            Message::SaveFailed(reason) => "Failed to save the installer: ".to_owned().concat(
                reason.as_str(),
            ),
            Message::InstallerRan => "CUDA installer executed successfully.".to_owned(),
            Message::InstallerFailed => "Failed to run the CUDA installer.".to_owned(),
            Message::InstallerNotStarted(reason) =>
                "Failed to run the CUDA installer: ".to_owned().concat(reason.as_str()),
        }
    }

    /// Where to print the message.
    pub fn stream(&self) -> (stream: Stream)
        ensures
            stream == self@.stream(),
    {
        match self {
            Message::ProbeNotStarted { .. } => Stream::Stderr,
            Message::InstallFailed(_) => Stream::Stderr,
            Message::InstallNotStarted(_) => Stream::Stderr,
            Message::DownloadFailed(_) => Stream::Stderr,
            Message::SaveFailed(_) => Stream::Stderr,
            Message::InstallerNotStarted(_) => Stream::Stderr,
            _ => Stream::Stdout,
        }
    }
}

} // verus!
