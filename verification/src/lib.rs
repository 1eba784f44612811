//! Supervision of operating-system commands run as child processes on behalf
//! of multiple owners.
//!
//! The crate models the lifecycle of one job — spawn, run, stop, exit — as a
//! verified state machine.  An embedding supplies the actual process spawning,
//! log-file I/O and reaper threads, and feeds their outcomes back into the
//! verified [`worker::Worker`] core, which owns the job registry, the status
//! transitions, the owner checks and the completion channel.

pub mod job;
pub mod worker;
mod render;
