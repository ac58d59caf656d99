//! Verified core of a command-line installer that provisions the
//! PocketMine-MP server application together with its PHP runtime.
//!
//! The library holds everything that can be decided without touching the
//! network, the filesystem or a child process: resolving download URLs and
//! destination file names, the platform profile, the step plans of the two
//! install workflows, the driver state machine that stops at the first
//! failure, and the final launch-or-abort decision. The surrounding binary
//! performs the planned steps and reports each outcome back.

pub mod errors;
pub mod orchestrate;
pub mod platform;
pub mod resolve;
mod text;
pub mod workflow;
