//! Looking for an installed toolkit.

use vstd::prelude::*;
use crate::platform::{toolkit_path, Platform, Settings};

verus! {

/// Calls `std::path::Path::exists`. The answer is what the file system
/// holds at the moment of the call, so nothing is claimed about it.
#[verifier::external_body]
fn path_exists(path: &str) -> (exists: bool) {
    std::path::Path::new(path).exists()
}

/// Whether the toolkit is installed: whether the one path that
/// `toolkit_path` gives for `platform` and `settings` exists right now.
/// Only that path is looked at, so a toolkit installed elsewhere is not
/// seen. The answer is a snapshot of the file system and is not kept.
pub fn is_cuda_installed(platform: Platform, settings: &Settings) -> (installed: bool) {
    let path = toolkit_path(platform, settings);
    path_exists(path.as_str())
}

} // verus!
