//! Lifecycle state of one job, and the transitions the supervisor applies.
//!
//! The state machine for a single job is
//!
//! ```text
//! UnknownState --spawn-ok-----------> Running
//! Running      --reaper-sees-exit---> Exited(code)
//! Running      --stop(graceful)-----> Stopped(Term)
//! Running      --stop(forced)-------> Stopped(Kill)
//! Stopped(_)   --reaper-sees-exit---> (no change)
//! ```
//!
//! `Exited` and `Stopped(_)` are terminal: the reaper's write is guarded by
//! [`Status::is_stopped`], so a stop that lands first is never overwritten.

use vstd::prelude::*;

verus! {

/// The two signals a stop request may deliver to a job's process.
#[derive(Clone, Copy, Debug, PartialEq, Eq, Structural)]
pub enum StopType {
    /// Graceful stop: signal 15.
    Term,
    /// Forced stop: signal 9.
    Kill,
}

impl StopType {
    /// The signal number delivered for this kind of stop.
    pub open spec fn sig_spec(self) -> usize {
        match self {
            StopType::Term => 15,
            StopType::Kill => 9,
        }
    }

    /// The lowercase human name of the signal, as used in display output.
    pub open spec fn name_spec(self) -> Seq<char> {
        match self {
            StopType::Term => "term"@,
            StopType::Kill => "kill"@,
        }
    }

    /// The uppercase signal name; stop failures report `"SIG"` + this name.
    pub open spec fn upper_name_spec(self) -> Seq<char> {
        match self {
            StopType::Term => "TERM"@,
            StopType::Kill => "KILL"@,
        }
    }

    pub fn sig(&self) -> (s: usize)
        ensures
            s == self.sig_spec(),
    {
        match self {
            StopType::Term => 15,
            StopType::Kill => 9,
        }
    }

    pub fn as_str(&self) -> (r: &'static str)
        ensures
            r@ == self.name_spec(),
    {
        match self {
            StopType::Term => "term",
            StopType::Kill => "kill",
        }
    }
}

/// Lifecycle state of one job.
#[derive(Clone, Copy, Debug, PartialEq)]
pub enum Status {
    /// Initial state, between construction and spawn; never observable
    /// through a successfully started job.
    UnknownState,
    /// Set immediately after a successful spawn.
    Running,
    /// Terminal: the child exited on its own; the code is the exit code if
    /// the kernel reported one.  Set by the reaper.
    Exited(Option<i32>),
    /// Terminal from the supervisor's point of view: a stop request
    /// delivered its signal.  Set by `stop` before the child is reaped.
    Stopped(StopType),
}

impl Status {
    /// True exactly for the `Stopped(_)` states.
    pub open spec fn is_stopped_spec(self) -> bool {
        self is Stopped
    }

    /// A terminal status never changes again.
    pub open spec fn is_terminal(self) -> bool {
        self is Exited || self is Stopped
    }

    /// The human-readable projection of each state; part of the observable
    /// surface of `query`.
    pub open spec fn label_spec(self) -> Seq<char> {
        match self {
            Status::UnknownState => "Unknown state"@,
            Status::Running => "Running"@,
            Status::Exited(_) => "Exited"@,
            Status::Stopped(StopType::Term) => "terminated"@,
            Status::Stopped(StopType::Kill) => "Killed"@,
        }
    }

    /// The status after the reaper observes the child's termination with exit
    /// code `code`: a stop that already landed is preserved, anything else
    /// becomes `Exited(code)`.
    pub open spec fn reaped(self, code: Option<i32>) -> Status {
        if self is Stopped {
            self
        } else {
            Status::Exited(code)
        }
    }

    /// The exit code `query` reports: present if and only if the status is
    /// `Exited(Some(code))`.
    pub open spec fn exit_code_spec(self) -> Option<i32> {
        match self {
            Status::Exited(code) => code,
            _ => None,
        }
    }

    pub fn is_stopped(&self) -> (r: bool)
        ensures
            r == self.is_stopped_spec(),
    {
        match self {
            Status::Stopped(_) => true,
            _ => false,
        }
    }

    pub fn as_str(&self) -> (r: &'static str)
        ensures
            r@ == self.label_spec(),
    {
        match self {
            Status::UnknownState => "Unknown state",
            Status::Running => "Running",
            Status::Exited(_) => "Exited",
            Status::Stopped(stop_type) => match stop_type {
                StopType::Term => "terminated",
                StopType::Kill => "Killed",
            },
        }
    }

    pub fn to_string(&self) -> (r: String)
        ensures
            r@ == self.label_spec(),
    {
        self.as_str().to_owned()
    }
}

/// A status on which a stop already landed is never overwritten by the
/// reaper: reaping changes nothing about a `Stopped(_)` job.
pub proof fn lemma_stopped_is_never_overwritten(s: Status, code: Option<i32>)
    requires
        s is Stopped,
    ensures
        s.reaped(code) == s,
{
}

/// Whatever the prior state, a job is terminal once it has been reaped.
pub proof fn lemma_reaped_is_terminal(s: Status, code: Option<i32>)
    ensures
        s.reaped(code).is_terminal(),
{
}

} // verus!
