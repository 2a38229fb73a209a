//! Finds out whether a supported GPU and its compute toolkit are present
//! and decides, step by step, how to install the toolkit where it is
//! missing. The library decides and never acts: running commands, fetching
//! and writing files are requested from the caller.

pub mod command;
pub mod gpu;
pub mod laws;
pub mod machine;
pub mod platform;
pub mod report;
pub mod status;
pub mod text;
pub mod toolkit;
