//! The failure taxonomy of an install run.

use vstd::prelude::*;

verus! {

/// Why a step of an install run failed: one variant per failing stage.
///
/// No error is recovered locally; each one aborts its owning workflow and is
/// propagated to the orchestrator's join point.
#[derive(Clone, Copy, Debug, PartialEq, Eq, Structural)]
pub enum InstallError {
    /// A network fetch failed: connection error or a non-success HTTP status.
    Transport,
    /// A filesystem create, write or delete failed.
    Io,
    /// An archive was corrupt or unsupported, or its destination unwritable.
    Extraction,
    /// The start script could not be spawned.
    Launch,
}

impl InstallError {
    /// A short label for the error, for the final report to the user.
    pub fn describe(&self) -> (r: &'static str)
        ensures
            *self is Transport ==> r@ == "network transport failure"@,
            *self is Io ==> r@ == "filesystem failure"@,
            *self is Extraction ==> r@ == "archive extraction failure"@,
            *self is Launch ==> r@ == "start script could not be spawned"@,
    {
        match self {
            InstallError::Transport => "network transport failure",
            InstallError::Io => "filesystem failure",
            InstallError::Extraction => "archive extraction failure",
            InstallError::Launch => "start script could not be spawned",
        }
    }
}

} // verus!
