//! One job: an operating-system command run on behalf of an owner.
//!
//! A [`Job`] records the identity, owner, process id and lifecycle status of
//! one spawned command.  Jobs are created by the worker when a spawn
//! succeeds and live in its registry for the worker's lifetime; only the
//! status ever changes, and only along the transitions of
//! [`status::Status`].

pub mod cgroup;
pub mod command;
pub mod status;

pub use cgroup::CgroupConfig;
pub use cgroup::CpuConfig;
pub use cgroup::IoConfig;
pub use cgroup::MemConfig;
pub use command::Command;
pub use status::Status;
pub use status::StopType;

use vstd::prelude::*;

use command::CommandView;

verus! {

/// The mathematical value of a [`JobInfo`].
pub struct JobInfoView {
    pub status: Seq<char>,
    pub pid: u32,
    pub exit_code: Option<i32>,
    pub command: CommandView,
}

/// The snapshot a `query` returns: the human status string, the pid, the
/// exit code (present exactly when the job exited with a reported code) and
/// the command the job was started with.
#[derive(Debug)]
pub struct JobInfo {
    status: String,
    pid: u32,
    exit_code: Option<i32>,
    command: Command,
}

impl View for JobInfo {
    type V = JobInfoView;

    closed spec fn view(&self) -> JobInfoView {
        JobInfoView {
            status: self.status@,
            pid: self.pid,
            exit_code: self.exit_code,
            command: self.command@,
        }
    }
}

impl JobInfo {
    pub fn status(&self) -> (r: String)
        ensures
            r@ == self@.status,
    {
        self.status.clone()
    }

    pub fn pid(&self) -> (r: u32)
        ensures
            r == self@.pid,
    {
        self.pid
    }

    pub fn exit_code(&self) -> (r: Option<i32>)
        ensures
            r == self@.exit_code,
    {
        self.exit_code
    }

    pub fn command(&self) -> (r: Command)
        ensures
            r@ == self@.command,
    {
        self.command.clone()
    }
}

/// The mathematical value of a [`Job`].
pub struct JobView {
    pub id: u128,
    pub command: CommandView,
    pub pid: u32,
    pub status: Status,
    pub owner_id: u128,
}

impl JobView {
    /// A job is well formed when its pid fits the signed type signals are
    /// addressed with, and a running job always has a real (positive) pid.
    pub open spec fn wf(self) -> bool {
        &&& self.pid <= 0x7fffffff
        &&& self.status is Running ==> self.pid > 0
    }
}

/// The snapshot of one job that `query` reports for it.
pub open spec fn job_info_of(j: JobView) -> JobInfoView {
    JobInfoView {
        status: j.status.label_spec(),
        pid: j.pid,
        exit_code: j.status.exit_code_spec(),
        command: j.command,
    }
}

/// One running or finished command: identity, owner, pid, status, command.
#[derive(Debug)]
pub struct Job {
    id: u128,
    command: Command,
    pid: u32,
    status: Status,
    owner_id: u128,
}

impl View for Job {
    type V = JobView;

    closed spec fn view(&self) -> JobView {
        JobView {
            id: self.id,
            command: self.command@,
            pid: self.pid,
            status: self.status,
            owner_id: self.owner_id,
        }
    }
}

impl Job {
    pub fn new(id: u128, command: Command, pid: u32, status: Status, owner_id: u128) -> (j: Job)
        ensures
            j@ == (JobView { id, command: command@, pid, status, owner_id }),
    {
        Job { id, command, pid, status, owner_id }
    }

    pub fn id(&self) -> (r: u128)
        ensures
            r == self@.id,
    {
        self.id
    }

    pub fn command(&self) -> (r: Command)
        ensures
            r@ == self@.command,
    {
        self.command.clone()
    }

    pub fn pid(&self) -> (r: u32)
        ensures
            r == self@.pid,
    {
        self.pid
    }

    pub fn status(&self) -> (r: Status)
        ensures
            r == self@.status,
    {
        self.status
    }

    pub fn owner_id(&self) -> (r: u128)
        ensures
            r == self@.owner_id,
    {
        self.owner_id
    }

    pub fn set_pid(&mut self, pid: u32)
        ensures
            final(self)@ == (JobView { pid, ..old(self)@ }),
    {
        self.pid = pid;
    }

    /// Snapshots the current status into the tuple `query` reports.
    pub fn query(&self) -> (info: JobInfo)
        ensures
            info@ == job_info_of(self@),
    {
        let exit_code = match &self.status {
            Status::Exited(status_code) => *status_code,
            _ => None,
        };
        JobInfo {
            pid: self.pid,
            command: self.command.clone(),
            status: self.status.to_string(),
            exit_code,
        }
    }

    /// The reaper saw this job's child terminate with the given exit code:
    /// unless a stop already landed, the job is now `Exited(code)`.  A
    /// status in `Stopped(_)` is never overwritten.
    pub fn reap(&mut self, code: Option<i32>)
        ensures
            final(self)@ == (JobView { status: old(self)@.status.reaped(code), ..old(self)@ }),
            old(self)@.wf() ==> final(self)@.wf(),
    {
        if !self.status.is_stopped() {
            self.status = Status::Exited(code);
        }
    }

    /// A stop request delivered its signal to this job: the status becomes
    /// `Stopped(kind)`.
    pub fn mark_stopped(&mut self, kind: StopType)
        ensures
            final(self)@ == (JobView { status: Status::Stopped(kind), ..old(self)@ }),
            old(self)@.wf() ==> final(self)@.wf(),
    {
        self.status = Status::Stopped(kind);
    }
}

impl Clone for Job {
    fn clone(&self) -> (j: Job)
        ensures
            j@ == self@,
    {
        Job {
            id: self.id,
            command: self.command.clone(),
            pid: self.pid,
            status: self.status,
            owner_id: self.owner_id,
        }
    }
}

} // verus!
