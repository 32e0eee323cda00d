//! The ways a bootstrap can fail, and what a successful one hands back.

use vstd::prelude::*;

verus! {

/// Why the server could not be made ready.
#[derive(Debug, Clone)]
pub enum LauncherError {
    /// The launcher's own directory, or any usable runtime root, could not
    /// be found.
    MissingExecutable,
    /// A required interpreter or payload file is absent.
    MissingFile(String),
    /// The operating system would not start the server process.
    SpawnServer(String),
    /// The server was started but did not answer healthy in time.
    StartupTimeout { base_url: String, timeout_secs: u64 },
    /// The resolved address is not a URL.
    InvalidBaseUrl(String),
}

/// A server that answers healthy at `base_url`.
#[derive(Debug, Clone)]
pub struct LauncherBootstrap {
    pub base_url: String,
}

} // verus!
