//! The fan-in join of the two install workflows, and the request they both
//! read. The launcher runs only when both workflows succeeded; otherwise
//! the first error wins and nothing is spawned.

use vstd::prelude::*;
use vstd::string::StringExecFns;
use crate::errors::InstallError;
use crate::platform::{Os, spec_launcher_name};
use crate::resolve::joined_path;
use crate::workflow::launcher_path;

verus! {

/// What the user asked for: where to install, which application release,
/// and which runtime version. Immutable once constructed.
#[derive(Clone, Debug)]
pub struct InstallRequest {
    pub target_directory: String,
    pub application_version: String,
    pub runtime_version: String,
}

impl InstallRequest {
    pub fn new(
        target_directory: String,
        application_version: String,
        runtime_version: String,
    ) -> (r: InstallRequest)
        ensures
            r.target_directory == target_directory,
            r.application_version == application_version,
            r.runtime_version == runtime_version,
    {
        InstallRequest { target_directory, application_version, runtime_version }
    }
}

/// The orchestrator's verdict after both workflows reported back.
#[derive(Clone, Debug)]
pub enum LaunchDecision {
    /// Both workflows succeeded: spawn the start script at this path.
    Proceed { script_path: String },
    /// At least one workflow failed: surface this error, spawn nothing.
    Abort { error: InstallError },
}

/// Whether a launch is allowed at all: only when both workflows succeeded.
pub open spec fn spec_launch_allowed(
    runtime: Result<(), InstallError>,
    application: Result<(), InstallError>,
) -> bool {
    runtime is Ok && application is Ok
}

/// Join the two workflow outcomes: on joint success decide to launch the
/// platform start script; otherwise abort with the first error, the runtime
/// workflow's taking precedence.
pub fn orchestrate(
    runtime: Result<(), InstallError>,
    application: Result<(), InstallError>,
    dir: &str,
    os: Os,
) -> (d: LaunchDecision)
    ensures
        d is Proceed <==> spec_launch_allowed(runtime, application),
        runtime matches Err(e) ==> d matches LaunchDecision::Abort { error } && error == e,
        runtime is Ok && application is Err ==> (d matches LaunchDecision::Abort { error }
            && error == application->Err_0),
        spec_launch_allowed(runtime, application) ==> (d matches LaunchDecision::Proceed {
            script_path } && script_path@ == joined_path(dir@, spec_launcher_name(os))),
{
    match runtime {
        Err(e) => LaunchDecision::Abort { error: e },
        Ok(()) => match application {
            Err(e) => LaunchDecision::Abort { error: e },
            Ok(()) => LaunchDecision::Proceed { script_path: launcher_path(dir, os) },
        },
    }
}

/// Law: if either workflow failed — a failed fetch included — no launch is
/// allowed, so the start script is never spawned.
pub proof fn lemma_failure_blocks_launch(
    runtime: Result<(), InstallError>,
    application: Result<(), InstallError>,
)
    requires
        runtime is Err || application is Err,
    ensures
        !spec_launch_allowed(runtime, application),
{
}

} // verus!
