//! What holds of every run, proved from the model of a step.

use vstd::prelude::*;
use crate::command::{package_manager_command_spec, probe_command_spec};
use crate::gpu::{names_gpu, VENDOR_MARKER};
use crate::machine::{
    begin_spec, ending, expected, step_spec, ActionView, EventView, Phase, TransitionView,
};
use crate::platform::{Platform, SettingsView};
use crate::report::{FailureView, FinishView, InstallOutcomeView, MessageView};
use crate::text::{occurs_at, utf8_lossy};

verus! {

/// `action` is what is asked for on entering `phase`.
pub open spec fn asked(phase: Phase, action: ActionView) -> bool {
    match phase {
        Phase::Start => false,
        Phase::ProbeGpu => action is Run,
        Phase::ProbeToolkit => action is ProbeToolkit,
        Phase::Install => action is Run,
        Phase::Download => action is Fetch,
        Phase::Save => action is Save,
        Phase::RunInstaller => action is Run,
        Phase::End => action is Finish,
    }
}

/// How many steps a run in `phase` can still take at most.
pub open spec fn steps_left(phase: Phase) -> nat {
    match phase {
        Phase::Start => 6,
        Phase::ProbeGpu => 5,
        Phase::ProbeToolkit => 4,
        Phase::Install => 1,
        Phase::Download => 3,
        Phase::Save => 2,
        Phase::RunInstaller => 1,
        Phase::End => 0,
    }
}

/// A step is taken exactly when the event answers what was asked in the
/// phase.
pub proof fn lemma_step_taken_iff_expected(
    platform: Platform,
    settings: SettingsView,
    phase: Phase,
    event: EventView,
)
    ensures
        step_spec(platform, settings, phase, event) is Some <==> expected(phase, event),
{
}

/// Every step asks for what its next phase waits for. In particular a step
/// finishes the run exactly when it leads to `Phase::End`.
pub proof fn lemma_step_asks_for_next_phase(
    platform: Platform,
    settings: SettingsView,
    phase: Phase,
    event: EventView,
)
    requires
        step_spec(platform, settings, phase, event) is Some,
    ensures
        ({
            let transition = step_spec(platform, settings, phase, event)->0;
            &&& asked(transition.next, transition.action)
            &&& transition.next == Phase::End <==> transition.action is Finish
        }),
{
}

/// The one way into each phase: from which phase, on which platform and
/// settings, and after which event a step leads to `next`. A run goes from
/// the hardware listing to the toolkit, from there to the package manager
/// or to the download, and from the download over the written file to the
/// installer. It can end after every phase but the first.
pub open spec fn leads_to(
    platform: Platform,
    settings: SettingsView,
    phase: Phase,
    event: EventView,
    next: Phase,
) -> bool {
    match next {
        Phase::Start => false,
        Phase::ProbeGpu => phase == Phase::Start && event is Begin,
        Phase::ProbeToolkit => {
            &&& phase == Phase::ProbeGpu
            &&& event matches EventView::Exited { stdout, .. } && names_gpu(utf8_lossy(stdout))
        },
        Phase::Install => {
            &&& phase == Phase::ProbeToolkit
            &&& event == EventView::ToolkitProbed(false)
            &&& platform == Platform::Linux
        },
        Phase::Download => {
            &&& phase == Phase::ProbeToolkit
            &&& event == EventView::ToolkitProbed(false)
            &&& platform == Platform::Windows
            &&& settings.download
        },
        Phase::Save => {
            &&& phase == Phase::Download
            &&& event matches EventView::Response(code) && 200 <= code < 300
        },
        Phase::RunInstaller => phase == Phase::Save && event is Saved,
        Phase::End => phase != Phase::Start && expected(phase, event),
    }
}

/// A step leads to a phase only along the one way into it. So nothing is
/// fetched unless a Windows run was asked to download, nothing is written
/// unless the server answered with a success, and the installer is run
/// only once its file has been written and closed.
pub proof fn lemma_step_follows_the_path(
    platform: Platform,
    settings: SettingsView,
    phase: Phase,
    event: EventView,
)
    requires
        step_spec(platform, settings, phase, event) is Some,
    ensures
        leads_to(
            platform,
            settings,
            phase,
            event,
            step_spec(platform, settings, phase, event)->0.next,
        ),
{
}

/// Where the way into a phase other than the last is open, the step takes
/// it.
pub proof fn lemma_open_path_is_taken(
    platform: Platform,
    settings: SettingsView,
    phase: Phase,
    event: EventView,
    next: Phase,
)
    requires
        next != Phase::End,
        leads_to(platform, settings, phase, event, next),
    ensures
        step_spec(platform, settings, phase, event) is Some,
        step_spec(platform, settings, phase, event)->0.next == next,
{
}

/// A run never comes back to a phase it has left: every step lowers the
/// number of steps that can still follow, so a run is over after six steps
/// at most and nothing is tried twice.
pub proof fn lemma_step_moves_forward(
    platform: Platform,
    settings: SettingsView,
    phase: Phase,
    event: EventView,
)
    requires
        step_spec(platform, settings, phase, event) is Some,
    ensures
        steps_left(step_spec(platform, settings, phase, event)->0.next) < steps_left(phase),
{
}

/// A command that cannot be started ends the run as an error, whichever
/// command it is.
pub proof fn lemma_spawn_failure_is_an_error(
    platform: Platform,
    settings: SettingsView,
    phase: Phase,
    reason: Seq<char>,
)
    requires
        expected(phase, EventView::SpawnFailed(reason)),
    ensures
        ({
            let answer = step_spec(platform, settings, phase, EventView::SpawnFailed(reason))->0;
            &&& answer.next == Phase::End
            &&& answer.action matches ActionView::Finish(finish) && finish.is_error()
        }),
{
}

/// A run starts by running the hardware listing command of its platform,
/// whatever the settings.
pub proof fn lemma_run_starts_with_platform_probe(platform: Platform, settings: SettingsView)
    ensures
        step_spec(platform, settings, Phase::Start, EventView::Begin) == Some(
            TransitionView {
                next: Phase::ProbeGpu,
                messages: seq![],
                action: ActionView::Run { command: probe_command_spec(platform), capture: true },
            },
        ),
{
}

/// No two platforms share a hardware listing command.
pub proof fn lemma_probe_commands_differ(first: Platform, second: Platform)
    requires
        first != second,
    ensures
        probe_command_spec(first) != probe_command_spec(second),
{
    reveal_strlit("wmic");
    reveal_strlit("lspci");
    reveal_strlit("system_profiler");
    assert(probe_command_spec(Platform::Windows).program.len() == 4);
    assert(probe_command_spec(Platform::Linux).program.len() == 5);
    assert(probe_command_spec(Platform::MacOs).program.len() == 15);
}

/// A listing that holds the vendor marker names a GPU, whatever stands
/// before and after the marker.
pub proof fn lemma_marker_anywhere_names_gpu(before: Seq<char>, after: Seq<char>)
    ensures
        names_gpu(before + VENDOR_MARKER@ + after),
{
    let listing = before + VENDOR_MARKER@ + after;
    let at = before.len() as int;
    assert(listing.subrange(at, at + VENDOR_MARKER@.len()) =~= VENDOR_MARKER@);
    assert(occurs_at(listing, VENDOR_MARKER@, at));
}

/// The marker is matched letter for letter: a listing without a capital
/// `N` names no GPU, so the vendor's name in lower case does not count.
pub proof fn lemma_marker_needs_capitals(listing: Seq<char>)
    requires
        forall|i: int| 0 <= i < listing.len() ==> listing[i] != 'N',
    ensures
        !names_gpu(listing),
{
    reveal_strlit("NVIDIA");
    assert forall|at: int| !occurs_at(listing, VENDOR_MARKER@, at) by {
        if occurs_at(listing, VENDOR_MARKER@, at) {
            assert(listing.subrange(at, at + VENDOR_MARKER@.len())[0] == listing[at]);
        }
    }
}

/// After the hardware listing, the run goes on to the toolkit exactly when
/// the captured output names a GPU. When it names none the run ends there
/// with the single line for it, and the only thing the run ever asked for
/// was the listing itself: no file was looked at or written and nothing was
/// fetched.
pub proof fn lemma_listing_decides(
    platform: Platform,
    settings: SettingsView,
    success: bool,
    stdout: Seq<u8>,
    stderr: Seq<u8>,
)
    ensures
        step_spec(platform, settings, Phase::Start, EventView::Begin) == Some(begin_spec(platform)),
        begin_spec(platform).action is Run,
        begin_spec(platform).messages.len() == 0,
        ({
            let event = EventView::Exited { success, stdout, stderr };
            let answer = step_spec(platform, settings, Phase::ProbeGpu, event);
            if names_gpu(utf8_lossy(stdout)) {
                answer == Some(
                    TransitionView {
                        next: Phase::ProbeToolkit,
                        messages: seq![MessageView::GpuFound],
                        action: ActionView::ProbeToolkit,
                    },
                )
            } else {
                answer == Some(ending(MessageView::NoGpu, FinishView::NoGpu))
            }
        }),
        MessageView::NoGpu.text() == "No supported GPU found."@,
{
}

/// On Linux a missing toolkit is installed through the package manager,
/// and when the package manager reports failure the run ends as failed
/// with what it wrote to standard error, unchanged: as the reason of the
/// failure and as the end of the line that is printed.
pub proof fn lemma_failed_install_surfaces_errors(
    settings: SettingsView,
    stdout: Seq<u8>,
    stderr: Seq<u8>,
)
    ensures
        ({
            let probed = EventView::ToolkitProbed(false);
            let asked = step_spec(Platform::Linux, settings, Phase::ProbeToolkit, probed)->0;
            &&& asked.next == Phase::Install
            &&& asked.action == ActionView::Run {
                command: package_manager_command_spec(),
                capture: true,
            }
        }),
        ({
            let errors = utf8_lossy(stderr);
            let exited = EventView::Exited { success: false, stdout, stderr };
            let answer = step_spec(Platform::Linux, settings, Phase::Install, exited);
            &&& answer == Some(
                ending(
                    MessageView::InstallFailed(errors),
                    FinishView::Installed(
                        InstallOutcomeView::Failed(FailureView::NonZeroExit(errors)),
                    ),
                ),
            )
            &&& MessageView::InstallFailed(errors).text() == "CUDA installation failed: "@ + errors
        }),
{
}

/// When the server answers the download with a status that is no success,
/// the run ends as failed with that status. The step asks for nothing
/// else: no file is written and nothing is run.
pub proof fn lemma_rejected_download_ends_run(settings: SettingsView, code: u16)
    requires
        !(200 <= code < 300),
    ensures
        ({
            let answer = step_spec(
                Platform::Windows,
                settings,
                Phase::Download,
                EventView::Response(code),
            );
            &&& answer == Some(
                ending(
                    MessageView::DownloadRejected(code),
                    FinishView::Installed(InstallOutcomeView::Failed(FailureView::BadStatus(code))),
                ),
            )
            &&& !(answer->0.action is Save)
            &&& !(answer->0.action is Run)
        }),
{
}

} // verus!
