use cuda_provisioner::report::{Failure, Finish, InstallOutcome, Message, Stream};
use cuda_provisioner::status::HttpStatus;

fn status(code: u16) -> HttpStatus {
    HttpStatus::new(code).unwrap()
}

#[test]
fn probe_messages_read_as_expected() {
    assert_eq!(Message::GpuFound.text(), "Supported GPU found.");
    assert_eq!(Message::NoGpu.text(), "No supported GPU found.");
    let message = Message::ProbeNotStarted {
        program: "lspci".to_string(),
        reason: "No such file or directory (os error 2)".to_string(),
    };
    assert_eq!(
        message.text(),
        "Failed to execute lspci: No such file or directory (os error 2)"
    );
}

#[test]
fn toolkit_messages_read_as_expected() {
    assert_eq!(Message::ToolkitMissing.text(), "CUDA not found. Installing...");
    assert_eq!(Message::ToolkitPresent.text(), "CUDA is already installed.");
}

#[test]
fn guidance_messages_point_at_the_download_page() {
    assert_eq!(
        Message::ManualWindows.text(),
        "Installing CUDA drivers from the NVIDIA website: https://developer.nvidia.com/cuda-downloads"
    );
    assert_eq!(
        Message::ManualMac.text(),
        "Please install CUDA from the NVIDIA website: https://developer.nvidia.com/cuda-downloads"
    );
}

#[test]
fn package_manager_messages_read_as_expected() {
    assert_eq!(Message::InstallSucceeded.text(), "CUDA installed successfully!");
    assert_eq!(
        Message::InstallFailed("E: Unable to locate package nvidia-cuda-toolkit\n".to_string())
            .text(),
        "CUDA installation failed: E: Unable to locate package nvidia-cuda-toolkit\n"
    );
    assert_eq!(Message::InstallFailed(String::new()).text(), "CUDA installation failed: ");
    assert_eq!(
        Message::InstallNotStarted("permission denied".to_string()).text(),
        "Failed to install CUDA: permission denied"
    );
}

#[test]
fn download_messages_read_as_expected() {
    assert_eq!(
        Message::Downloaded.text(),
        "CUDA installer downloaded successfully to \"cuda_installer.exe\""
    );
    assert_eq!(
        Message::DownloadRejected(status(404)).text(),
        "Failed to download the installer: 404 Not Found"
    );
    assert_eq!(
        Message::DownloadRejected(status(503)).text(),
        "Failed to download the installer: 503 Service Unavailable"
    );
    assert_eq!(
        Message::DownloadFailed("connection refused".to_string()).text(),
        "Failed to download the installer: connection refused"
    );
    assert_eq!(
        Message::SaveFailed("disk full".to_string()).text(),
        "Failed to save the installer: disk full"
    );
}

#[test]
fn installer_messages_read_as_expected() {
    assert_eq!(Message::InstallerRan.text(), "CUDA installer executed successfully.");
    assert_eq!(Message::InstallerFailed.text(), "Failed to run the CUDA installer.");
    assert_eq!(
        Message::InstallerNotStarted("access denied".to_string()).text(),
        "Failed to run the CUDA installer: access denied"
    );
}

#[test]
fn errors_go_to_standard_error() {
    let errors = [
        Message::ProbeNotStarted { program: "wmic".to_string(), reason: "x".to_string() },
        Message::InstallFailed("x".to_string()),
        Message::InstallNotStarted("x".to_string()),
        Message::DownloadFailed("x".to_string()),
        Message::SaveFailed("x".to_string()),
        Message::InstallerNotStarted("x".to_string()),
    ];
    for message in errors {
        assert_eq!(message.stream(), Stream::Stderr);
    }
}

#[test]
fn status_lines_go_to_standard_output() {
    let lines = [
        Message::GpuFound,
        Message::NoGpu,
        Message::ToolkitMissing,
        Message::ToolkitPresent,
        Message::ManualWindows,
        Message::ManualMac,
        Message::InstallSucceeded,
        Message::Downloaded,
        Message::DownloadRejected(status(404)),
        Message::InstallerRan,
        Message::InstallerFailed,
    ];
    for message in lines {
        assert_eq!(message.stream(), Stream::Stdout);
    }
}

#[test]
fn failures_of_the_run_itself_are_errors() {
    assert!(Failure::SpawnFailure("x".to_string()).is_error());
    assert!(Failure::NetworkFailure("x".to_string()).is_error());
    assert!(Failure::FileWriteFailure("x".to_string()).is_error());
}

#[test]
fn reported_failures_are_no_errors() {
    assert!(!Failure::NonZeroExit("x".to_string()).is_error());
    assert!(!Failure::BadStatus(status(404)).is_error());
}

#[test]
fn finish_is_error_only_for_errors_of_the_run() {
    assert!(Finish::ProbeFailed("x".to_string()).is_error());
    assert!(!Finish::NoGpu.is_error());
    assert!(!Finish::AlreadyInstalled.is_error());
    assert!(!Finish::Installed(InstallOutcome::Skipped).is_error());
    assert!(!Finish::Installed(InstallOutcome::Succeeded).is_error());
    assert!(
        !Finish::Installed(InstallOutcome::Failed(Failure::NonZeroExit("x".to_string())))
            .is_error()
    );
    assert!(!Finish::Installed(InstallOutcome::Failed(Failure::BadStatus(status(500)))).is_error());
    assert!(
        Finish::Installed(InstallOutcome::Failed(Failure::SpawnFailure("x".to_string())))
            .is_error()
    );
    assert!(
        Finish::Installed(InstallOutcome::Failed(Failure::NetworkFailure("x".to_string())))
            .is_error()
    );
    assert!(
        Finish::Installed(InstallOutcome::Failed(Failure::FileWriteFailure("x".to_string())))
            .is_error()
    );
}
