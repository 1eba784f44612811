//! Trusted access to the operating system: fresh identifiers and outbound
//! signals.

use vstd::prelude::*;

verus! {

/// Relies on `uuid::Uuid::new_v4` and `uuid::Uuid::as_u128`: a fresh random
/// 128-bit identifier.  `new_v4` forces the version nibble to 4 and the
/// variant bits to binary 10; nothing else can be promised of a random
/// value.
#[verifier::external_body]
pub(crate) fn fresh_id() -> (r: u128)
    ensures
        (r >> 76) & 0xf == 4,
        (r >> 62) & 0x3 == 2,
{
    uuid::Uuid::new_v4().as_u128()
}

/// Relies on `nix::sys::signal::kill`: delivers signal 15 (TERM) to the
/// process with the given pid; on failure the system's short error name
/// (for example `ESRCH` for a dead pid) is returned.  Which outcome occurs
/// depends on the machine's process table, so neither is promised.
#[verifier::external_body]
pub(crate) fn send_sigterm(pid: u32) -> (r: Result<(), String>)
    requires
        pid <= 0x7fffffff,
{
    match nix::sys::signal::kill(
        nix::unistd::Pid::from_raw(pid as i32),
        nix::sys::signal::Signal::SIGTERM,
    ) {
        Ok(()) => Ok(()),
        Err(e) => Err(format!("{:?}", e)),
    }
}

/// Relies on `nix::sys::signal::kill`: delivers signal 9 (KILL) to the
/// process with the given pid; on failure the system's short error name
/// (for example `ESRCH` for a dead pid) is returned.  Which outcome occurs
/// depends on the machine's process table, so neither is promised.
#[verifier::external_body]
pub(crate) fn send_sigkill(pid: u32) -> (r: Result<(), String>)
    requires
        pid <= 0x7fffffff,
{
    match nix::sys::signal::kill(
        nix::unistd::Pid::from_raw(pid as i32),
        nix::sys::signal::Signal::SIGKILL,
    ) {
        Ok(()) => Ok(()),
        Err(e) => Err(format!("{:?}", e)),
    }
}

} // verus!
