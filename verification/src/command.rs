//! The command lines the provisioner asks its caller to run.

use vstd::prelude::*;
use crate::platform::Platform;

verus! {

/// A program and the arguments it is started with.
#[derive(Clone, Debug, PartialEq, Eq)]
pub struct CommandLine {
    pub program: String,
    pub args: Vec<String>,
}

/// `CommandLine` as plain values.
pub struct CommandLineView {
    pub program: Seq<char>,
    pub args: Seq<Seq<char>>,
}

impl View for CommandLine {
    type V = CommandLineView;

    open spec fn view(&self) -> CommandLineView {
        CommandLineView {
            program: self.program@,
            args: Seq::new(self.args@.len(), |i: int| self.args@[i]@),
        }
    }
}

/// The command that lists the display hardware of `platform`: the video
/// controller query on Windows, the bus listing on Linux, the display
/// profile on macOS.
pub open spec fn probe_command_spec(platform: Platform) -> CommandLineView {
    match platform {
        Platform::Windows => CommandLineView {
            program: "wmic"@,
            args: seq!["path"@, "win32_VideoController"@, "get"@],
        },
        Platform::Linux => CommandLineView { program: "lspci"@, args: seq![] },
        Platform::MacOs => CommandLineView {
            program: "system_profiler"@,
            args: seq!["SPDisplaysDataType"@],
        },
    }
}

/// The shell command that installs the toolkit through the system package
/// manager, with elevated privileges and without prompting.
pub open spec fn package_manager_command_spec() -> CommandLineView {
    CommandLineView {
        program: "sh"@,
        args: seq!["-c"@, "sudo apt-get install -y nvidia-cuda-toolkit"@],
    }
}

/// The command that runs the installer at `path` without prompting.
pub open spec fn installer_command_spec(path: Seq<char>) -> CommandLineView {
    CommandLineView { program: path, args: seq!["/silent"@] }
}

/// The hardware listing command of `platform`.
pub fn probe_command(platform: Platform) -> (command: CommandLine)
    ensures
        command@ == probe_command_spec(platform),
{
    let mut args: Vec<String> = Vec::new();
    let program = match platform {
        Platform::Windows => {
            args.push("path".to_owned());
            args.push("win32_VideoController".to_owned());
            args.push("get".to_owned());
            "wmic".to_owned()
        },
        Platform::Linux => "lspci".to_owned(),
        Platform::MacOs => {
            args.push("SPDisplaysDataType".to_owned());
            "system_profiler".to_owned()
        },
    };
    let command = CommandLine { program, args };
    assert(command@.args =~= probe_command_spec(platform).args);
    command
}

/// The package manager command that installs the toolkit.
pub fn package_manager_command() -> (command: CommandLine)
    ensures
        command@ == package_manager_command_spec(),
{
    let mut args: Vec<String> = Vec::new();
    args.push("-c".to_owned());
    args.push("sudo apt-get install -y nvidia-cuda-toolkit".to_owned());
    let command = CommandLine { program: "sh".to_owned(), args };
    assert(command@.args =~= package_manager_command_spec().args);
    command
}

/// The command that runs the installer at `path` silently.
pub fn installer_command(path: &str) -> (command: CommandLine)
    ensures
        command@ == installer_command_spec(path@),
{
    let mut args: Vec<String> = Vec::new();
    args.push("/silent".to_owned());
    let command = CommandLine { program: path.to_owned(), args };
    assert(command@.args =~= installer_command_spec(path@).args);
    command
}

} // verus!
