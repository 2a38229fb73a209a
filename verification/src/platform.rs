//! The platforms the provisioner runs on and the values a caller may
//! override.

use vstd::prelude::*;

verus! {

/// The operating systems the provisioner knows how to probe. It is chosen
/// once, before a run starts, and never changes during it.
#[derive(Clone, Copy, Debug, PartialEq, Eq, Structural)]
pub enum Platform {
    Windows,
    Linux,
    MacOs,
}

/// Where the toolkit is looked for on Windows unless overridden.
pub const WINDOWS_TOOLKIT_PATH: &'static str =
    "C:\\Program Files\\NVIDIA GPU Computing Toolkit\\CUDA\\v11.0";

/// Where the toolkit is looked for on Linux and macOS unless overridden.
pub const UNIX_TOOLKIT_PATH: &'static str = "/usr/local/cuda";

/// Where the Windows installer is fetched from unless overridden.
pub const INSTALLER_URL: &'static str =
    "https://developer.nvidia.com/compute/cuda/12.2.0/Prod/local_installers/cuda_12.2.0_515.65.01_windows.exe";

/// The local file the fetched installer is written to.
pub const INSTALLER_PATH: &'static str = "cuda_installer.exe";

/// What a caller may change about a run.
#[derive(Clone, Debug, PartialEq, Eq)]
pub struct Settings {
    /// Looked for in place of the platform's usual toolkit path.
    pub toolkit_path: Option<String>,
    /// Fetched in place of the usual installer URL.
    pub installer_url: Option<String>,
    /// On Windows, fetch the installer and run it instead of only pointing
    /// the user at the download page. Ignored on the other platforms.
    pub download: bool,
}

/// `Settings` as plain values.
pub struct SettingsView {
    pub toolkit_path: Option<Seq<char>>,
    pub installer_url: Option<Seq<char>>,
    pub download: bool,
}

impl View for Settings {
    type V = SettingsView;

    open spec fn view(&self) -> SettingsView {
        SettingsView {
            toolkit_path: match self.toolkit_path {
                Some(path) => Some(path@),
                None => None,
            },
            installer_url: match self.installer_url {
                Some(url) => Some(url@),
                None => None,
            },
            download: self.download,
        }
    }
}

/// The toolkit path of `platform` when nothing overrides it.
pub open spec fn default_toolkit_path(platform: Platform) -> Seq<char> {
    match platform {
        Platform::Windows => WINDOWS_TOOLKIT_PATH@,
        Platform::Linux => UNIX_TOOLKIT_PATH@,
        Platform::MacOs => UNIX_TOOLKIT_PATH@,
    }
}

/// The one path whose existence stands for an installed toolkit.
pub open spec fn toolkit_path_spec(platform: Platform, settings: SettingsView) -> Seq<char> {
    match settings.toolkit_path {
        Some(path) => path,
        None => default_toolkit_path(platform),
    }
}

/// The URL the installer is fetched from.
pub open spec fn installer_url_spec(settings: SettingsView) -> Seq<char> {
    match settings.installer_url {
        Some(url) => url,
        None => INSTALLER_URL@,
    }
}

impl Settings {
    /// Settings that override nothing and do not download.
    pub fn new() -> (settings: Settings)
        ensures
            settings@ == (SettingsView { toolkit_path: None, installer_url: None, download: false }),
    {
        Settings { toolkit_path: None, installer_url: None, download: false }
    }
}

/// The path that is probed for the toolkit: the override when there is
/// one, else the platform's usual path.
pub fn toolkit_path(platform: Platform, settings: &Settings) -> (path: String)
    ensures
        path@ == toolkit_path_spec(platform, settings@),
{
    match &settings.toolkit_path {
        Some(path) => path.clone(),
        None => match platform {
            Platform::Windows => WINDOWS_TOOLKIT_PATH.to_owned(),
            Platform::Linux => UNIX_TOOLKIT_PATH.to_owned(),
            Platform::MacOs => UNIX_TOOLKIT_PATH.to_owned(),
        },
    }
}

/// The URL that the installer is fetched from: the override when there is
/// one, else the usual URL.
pub fn installer_url(settings: &Settings) -> (url: String)
    ensures
        url@ == installer_url_spec(settings@),
{
    match &settings.installer_url {
        Some(url) => url.clone(),
        None => INSTALLER_URL.to_owned(),
    }
}

} // verus!
