//! The worker: the verified core that owns the job registry, the status
//! transitions, the owner checks and the completion channel.
//!
//! The worker is a state machine over plain values.  An embedding performs
//! the outside work — creating log files, spawning children, waiting on them
//! from a reaper pool — and feeds every outcome into the methods here, which
//! decide what it means: how the registry changes, which status a job takes,
//! which error is reported, and which completion event is published.
//!
//! A `start` is three steps: [`Worker::prepare_start`] picks the job id and
//! the log path, the embedding creates the log file and spawns the child
//! with both output streams wired to it, and [`Worker::register_start`]
//! turns the spawn outcome into a registered running job or the start
//! error.  The reaper's wait on the child ends in [`Worker::finish_wait`];
//! a stop request is decided entirely by [`Worker::stop`], which delivers
//! the signal itself.

pub mod config;

mod chan;
mod sys;

pub use chan::chan_cap;
pub use config::Config;

use vstd::prelude::*;
use vstd::string::StringExecFns;

use crate::job::command::Command;
use crate::job::job_info_of;
use crate::job::status::Status;
use crate::job::status::StopType;
use crate::job::Job;
use crate::job::JobInfo;
use crate::job::JobInfoView;
use crate::job::JobView;
use crate::render::id_str;
use crate::render::id_string;

verus! {

/// The closed set of error kinds; each carries a single-line human message.
#[derive(Clone, Debug)]
pub enum Error {
    /// Worker construction failed.
    WorkerErr(String),
    /// A reaper-path failure for a job whose id is known.
    JobErr(u128, String),
    /// `start` failed.
    JobStartErr(String),
    /// `stop` failed.
    JobStopErr(String),
    /// `query` failed.
    JobQueryErr(String),
    /// `stream` failed.
    JobStreamErr(String),
}

/// What the completion channel delivers: `Ok((job_id, was_stopped))` when a
/// job reached a terminal status, or the error a reaper path ran into.
/// `was_stopped` is true when the completion resulted from an explicit stop,
/// false when the child exited of its own accord.
pub type CompletionEvent = Result<(u128, bool), Error>;

/// The message for a lookup that found no job: deliberately identical for an
/// unknown id and for a known id under another owner.
pub open spec fn no_job_msg_spec(job_id: u128) -> Seq<char> {
    "no job with id "@ + id_str(job_id) + " found for user"@
}

/// The message for a spawn failure, carrying the underlying cause.
pub open spec fn spawn_fail_msg_spec(detail: Seq<char>) -> Seq<char> {
    "failed to spawn child process: "@ + detail
}

/// The prefix of the message for a failed signal delivery; the suffix is the
/// system's short name for the error, for example `ESRCH` for a dead pid.
pub open spec fn sig_fail_prefix_spec(kind: StopType) -> Seq<char> {
    "failed to send SIG"@ + kind.upper_name_spec() + " to job: "@
}

/// The message for a child whose wait failed in the reaper.
pub open spec fn child_fail_msg_spec(detail: Seq<char>) -> Seq<char> {
    "child process failed: "@ + detail
}

impl Error {
    /// The human message carried by any error kind.
    pub open spec fn msg_spec(self) -> Seq<char> {
        match self {
            Error::WorkerErr(e) => e@,
            Error::JobErr(_, e) => e@,
            Error::JobStartErr(e) => e@,
            Error::JobStopErr(e) => e@,
            Error::JobQueryErr(e) => e@,
            Error::JobStreamErr(e) => e@,
        }
    }

    pub fn as_str(&self) -> (r: &str)
        ensures
            r@ == self.msg_spec(),
    {
        match self {
            Error::WorkerErr(e) => e.as_str(),
            Error::JobErr(_, e) => e.as_str(),
            Error::JobStartErr(e) => e.as_str(),
            Error::JobStopErr(e) => e.as_str(),
            Error::JobQueryErr(e) => e.as_str(),
            Error::JobStreamErr(e) => e.as_str(),
        }
    }

    /// The error the embedding reports when the log directory cannot be
    /// created at worker construction.
    pub fn log_dir_failure(detail: &str) -> (r: Error)
        ensures
            r is WorkerErr,
            r.msg_spec() == "failed to create log directory: "@ + detail@,
    {
        let mut msg = String::new();
        msg.append("failed to create log directory: ");
        msg.append(detail);
        Error::WorkerErr(msg)
    }

    /// The error the embedding reports when a job's log file cannot be
    /// created at start.
    pub fn log_file_failure(detail: &str) -> (r: Error)
        ensures
            r is JobStartErr,
            r.msg_spec() == "failed to create log file: "@ + detail@,
    {
        let mut msg = String::new();
        msg.append("failed to create log file: ");
        msg.append(detail);
        Error::JobStartErr(msg)
    }

    /// The error the embedding reports when a job's log file cannot be
    /// opened for streaming.
    pub fn log_open_failure(detail: &str) -> (r: Error)
        ensures
            r is JobStreamErr,
            r.msg_spec() == "failed to open log file: "@ + detail@,
    {
        let mut msg = String::new();
        msg.append("failed to open log file: ");
        msg.append(detail);
        Error::JobStreamErr(msg)
    }
}

/// Whether a registry entry answers a lookup for `(job_id, owner_id)`: the
/// id must match and the entry must belong to the calling owner.
pub open spec fn job_matches(j: JobView, job_id: u128, owner_id: u128) -> bool {
    j.id == job_id && j.owner_id == owner_id
}

/// The index of the first registry entry that answers a lookup for
/// `(job_id, owner_id)`, if any.
pub open spec fn find_job_index(jobs: Seq<JobView>, job_id: u128, owner_id: u128) -> Option<int>
    decreases jobs.len(),
{
    if jobs.len() == 0 {
        None
    } else if job_matches(jobs[0], job_id, owner_id) {
        Some(0)
    } else {
        match find_job_index(jobs.drop_first(), job_id, owner_id) {
            Some(i) => Some(i + 1),
            None => None,
        }
    }
}

/// The index of the first registry entry with the given id, regardless of
/// owner; the reaper path knows the id of the job it waited on but acts for
/// no particular owner.
pub open spec fn find_id_index(jobs: Seq<JobView>, job_id: u128) -> Option<int>
    decreases jobs.len(),
{
    if jobs.len() == 0 {
        None
    } else if jobs[0].id == job_id {
        Some(0)
    } else {
        match find_id_index(jobs.drop_first(), job_id) {
            Some(i) => Some(i + 1),
            None => None,
        }
    }
}

/// What `query` returns, as a function of the registry and the lookup pair:
/// the snapshot of the first matching job, or the uniform miss message.
pub open spec fn query_model(jobs: Seq<JobView>, job_id: u128, owner_id: u128) -> Result<
    JobInfoView,
    Seq<char>,
> {
    match find_job_index(jobs, job_id, owner_id) {
        Some(i) => Ok(job_info_of(jobs[i])),
        None => Err(no_job_msg_spec(job_id)),
    }
}

/// The signal kind a stop request delivers: graceful stops terminate,
/// others kill.
pub open spec fn stop_kind(gracefully: bool) -> StopType {
    if gracefully {
        StopType::Term
    } else {
        StopType::Kill
    }
}

/// The file name of a job's log: `${command_name}_${job_id}.log`.
pub open spec fn log_file_name_spec(command_name: Seq<char>, job_id: u128) -> Seq<char> {
    command_name + "_"@ + id_str(job_id) + ".log"@
}

/// The path of a job's log: `${log_dir}/${command_name}_${job_id}.log`.
pub open spec fn log_path_spec(log_dir: Seq<char>, command_name: Seq<char>, job_id: u128) -> Seq<
    char,
> {
    log_dir + "/"@ + log_file_name_spec(command_name, job_id)
}

/// Every job in the registry is well formed; in particular every running
/// job has a positive pid.
pub open spec fn registry_wf(jobs: Seq<JobView>) -> bool {
    forall|i: int| 0 <= i < jobs.len() ==> (#[trigger] jobs[i]).wf()
}

proof fn lemma_find_job_index_first(jobs: Seq<JobView>, job_id: u128, owner_id: u128, i: int)
    requires
        0 <= i < jobs.len(),
        forall|k: int| 0 <= k < i ==> !job_matches(#[trigger] jobs[k], job_id, owner_id),
        job_matches(jobs[i], job_id, owner_id),
    ensures
        find_job_index(jobs, job_id, owner_id) == Some(i),
    decreases i,
{
    if i == 0 {
    } else {
        assert(!job_matches(jobs[0], job_id, owner_id));
        assert(forall|k: int|
            0 <= k < i - 1 ==> !job_matches(#[trigger] jobs.drop_first()[k], job_id, owner_id));
        assert(jobs.drop_first()[i - 1] == jobs[i]);
        lemma_find_job_index_first(jobs.drop_first(), job_id, owner_id, i - 1);
    }
}

proof fn lemma_find_job_index_none(jobs: Seq<JobView>, job_id: u128, owner_id: u128)
    requires
        forall|k: int| 0 <= k < jobs.len() ==> !job_matches(#[trigger] jobs[k], job_id, owner_id),
    ensures
        find_job_index(jobs, job_id, owner_id) is None,
    decreases jobs.len(),
{
    if jobs.len() > 0 {
        assert(forall|k: int|
            0 <= k < jobs.len() - 1 ==> !job_matches(
                #[trigger] jobs.drop_first()[k],
                job_id,
                owner_id,
            ));
        lemma_find_job_index_none(jobs.drop_first(), job_id, owner_id);
    }
}

proof fn lemma_find_id_index_first(jobs: Seq<JobView>, job_id: u128, i: int)
    requires
        0 <= i < jobs.len(),
        forall|k: int| 0 <= k < i ==> (#[trigger] jobs[k]).id != job_id,
        jobs[i].id == job_id,
    ensures
        find_id_index(jobs, job_id) == Some(i),
    decreases i,
{
    if i == 0 {
    } else {
        assert(jobs.drop_first()[i - 1] == jobs[i]);
        assert(forall|k: int| 0 <= k < i - 1 ==> (#[trigger] jobs.drop_first()[k]).id != job_id);
        lemma_find_id_index_first(jobs.drop_first(), job_id, i - 1);
    }
}

proof fn lemma_find_id_index_none(jobs: Seq<JobView>, job_id: u128)
    requires
        forall|k: int| 0 <= k < jobs.len() ==> (#[trigger] jobs[k]).id != job_id,
    ensures
        find_id_index(jobs, job_id) is None,
    decreases jobs.len(),
{
    if jobs.len() > 0 {
        assert(forall|k: int| 0 <= k < jobs.len() - 1 ==> (#[trigger] jobs.drop_first()[k]).id
            != job_id);
        lemma_find_id_index_none(jobs.drop_first(), job_id);
    }
}

/// The façade owning the job registry, the completion channel and the
/// configuration.  Exposes the per-event decisions of start, stop, query,
/// stream and reap; the embedding owns the threads that drive them.
pub struct Worker {
    cfg: Config,
    jobs: Vec<Job>,
    sender: crossbeam::channel::Sender<CompletionEvent>,
    receiver: crossbeam::channel::Receiver<CompletionEvent>,
}

impl Worker {
    /// The registry as a sequence of job values, oldest first.
    pub closed spec fn jobs_view(self) -> Seq<JobView> {
        self.jobs@.map_values(|j: Job| j@)
    }

    /// The configuration the worker was built with.
    pub closed spec fn cfg_spec(self) -> Config {
        self.cfg
    }

    /// The producer endpoint of the worker's completion channel.
    pub closed spec fn sender_spec(self) -> crossbeam::channel::Sender<CompletionEvent> {
        self.sender
    }

    /// The consumer endpoint of the worker's completion channel.
    pub closed spec fn receiver_spec(self) -> crossbeam::channel::Receiver<CompletionEvent> {
        self.receiver
    }

    /// Every registered job is well formed.
    pub open spec fn wf(self) -> bool {
        registry_wf(self.jobs_view())
    }

    /// A worker starts with an empty registry and a completion channel
    /// whose capacity is the configured thread count.
    pub fn new(cfg: Config) -> (w: Worker)
        ensures
            w.cfg_spec() == cfg,
            w.jobs_view() == Seq::<JobView>::empty(),
            w.wf(),
            chan_cap(w.sender_spec()) == cfg.thread_count_spec(),
    {
        let (sender, receiver) = chan::channel_bounded(cfg.thread_count());
        let w = Worker { cfg, jobs: Vec::new(), sender, receiver };
        proof {
            assert(w.jobs_view() =~= Seq::<JobView>::empty());
        }
        w
    }

    /// The number of jobs the registry holds.
    pub fn job_count(&self) -> (n: usize)
        ensures
            n == self.jobs_view().len(),
    {
        self.jobs.len()
    }

    /// Picks a fresh job id and the path of its log file,
    /// `${log_dir}/${command_name}_${job_id}.log`.  The embedding creates
    /// (truncating) that file, spawns the child with stdout and stderr both
    /// set to it, and hands the outcome to [`Worker::register_start`].
    pub fn prepare_start(&self, command: &Command) -> (r: (u128, String))
        ensures
            r.1@ == log_path_spec(self.cfg_spec().log_dir_spec(), command@.name, r.0),
    {
        let job_id = sys::fresh_id();
        let mut path = String::new();
        path.append(self.cfg.log_dir());
        path.append("/");
        path.append(command.name());
        path.append("_");
        let id = id_string(job_id);
        path.append(id.as_str());
        path.append(".log");
        proof {
            assert(path@ =~= log_path_spec(self.cfg_spec().log_dir_spec(), command@.name, job_id));
        }
        (job_id, path)
    }

    /// Turns the outcome of the spawn into the registered job or the start
    /// error.  On success the job enters the registry as `Running` with the
    /// child's pid before the call returns; on failure the registry is
    /// unchanged and the error carries the underlying cause.  (On failure
    /// the embedding also removes the log file it created.)
    pub fn register_start(
        &mut self,
        job_id: u128,
        command: Command,
        owner_id: u128,
        spawn: Result<u32, String>,
    ) -> (r: Result<u128, Error>)
        requires
            old(self).wf(),
            spawn matches Ok(pid) ==> 0 < pid <= 0x7fffffff,
        ensures
            final(self).wf(),
            final(self).cfg_spec() == old(self).cfg_spec(),
            final(self).sender_spec() == old(self).sender_spec(),
            final(self).receiver_spec() == old(self).receiver_spec(),
            spawn matches Ok(pid) ==> r == Ok::<u128, Error>(job_id) && final(self).jobs_view()
                == old(self).jobs_view().push(
                JobView {
                    id: job_id,
                    command: command@,
                    pid,
                    status: Status::Running,
                    owner_id,
                },
            ),
            spawn matches Err(detail) ==> final(self).jobs_view() == old(self).jobs_view() && (
            r matches Err(e) && e is JobStartErr && e.msg_spec() == spawn_fail_msg_spec(detail@)),
    {
        match spawn {
            Ok(pid) => {
                let job = Job::new(job_id, command, pid, Status::Running, owner_id);
                self.jobs.push(job);
                proof {
                    assert(self.jobs_view() =~= old(self).jobs_view().push(
                        JobView {
                            id: job_id,
                            command: command@,
                            pid,
                            status: Status::Running,
                            owner_id,
                        },
                    ));
                }
                Ok(job_id)
            },
            Err(detail) => {
                let mut msg = String::new();
                msg.append("failed to spawn child process: ");
                msg.append(detail.as_str());
                Err(Error::JobStartErr(msg))
            },
        }
    }

    fn find_job(&self, job_id: u128, owner_id: u128) -> (r: Option<usize>)
        ensures
            r matches Some(i) ==> i < self.jobs_view().len() && find_job_index(
                self.jobs_view(),
                job_id,
                owner_id,
            ) == Some(i as int),
            r is None ==> find_job_index(self.jobs_view(), job_id, owner_id) is None,
    {
        let n = self.jobs.len();
        let mut i: usize = 0;
        while i < n
            invariant
                n == self.jobs_view().len(),
                n == self.jobs@.len(),
                i <= n,
                forall|k: int|
                    0 <= k < i ==> !job_matches(#[trigger] self.jobs_view()[k], job_id, owner_id),
            decreases n - i,
        {
            let matched = {
                let j = &self.jobs[i];
                j.id() == job_id && j.owner_id() == owner_id
            };
            if matched {
                proof {
                    lemma_find_job_index_first(self.jobs_view(), job_id, owner_id, i as int);
                }
                return Some(i);
            }
            i += 1;
        }
        proof {
            lemma_find_job_index_none(self.jobs_view(), job_id, owner_id);
        }
        None
    }

    fn find_by_id(&self, job_id: u128) -> (r: Option<usize>)
        ensures
            r matches Some(i) ==> i < self.jobs_view().len() && find_id_index(
                self.jobs_view(),
                job_id,
            ) == Some(i as int),
            r is None ==> find_id_index(self.jobs_view(), job_id) is None,
    {
        let n = self.jobs.len();
        let mut i: usize = 0;
        while i < n
            invariant
                n == self.jobs_view().len(),
                n == self.jobs@.len(),
                i <= n,
                forall|k: int| 0 <= k < i ==> (#[trigger] self.jobs_view()[k]).id != job_id,
            decreases n - i,
        {
            let matched = {
                let j = &self.jobs[i];
                j.id() == job_id
            };
            if matched {
                proof {
                    lemma_find_id_index_first(self.jobs_view(), job_id, i as int);
                }
                return Some(i);
            }
            i += 1;
        }
        proof {
            lemma_find_id_index_none(self.jobs_view(), job_id);
        }
        None
    }

    fn no_job_error(job_id: u128) -> (msg: String)
        ensures
            msg@ == no_job_msg_spec(job_id),
    {
        let mut msg = String::new();
        msg.append("no job with id ");
        let id = id_string(job_id);
        msg.append(id.as_str());
        msg.append(" found for user");
        proof {
            assert(msg@ =~= no_job_msg_spec(job_id));
        }
        msg
    }

    /// Snapshots the status of the job found under `(job_id, owner_id)`.
    /// A lookup that misses — an unknown id, or a known id under another
    /// owner — fails with the uniform message `no job with id {id} found
    /// for user`.
    pub fn query(&self, job_id: u128, owner_id: u128) -> (r: Result<JobInfo, Error>)
        ensures
            r matches Ok(info) ==> query_model(self.jobs_view(), job_id, owner_id) == Ok::<
                JobInfoView,
                Seq<char>,
            >(info@),
            r matches Err(e) ==> e is JobQueryErr && query_model(self.jobs_view(), job_id, owner_id)
                == Err::<JobInfoView, Seq<char>>(e.msg_spec()),
    {
        match self.find_job(job_id, owner_id) {
            Some(i) => {
                let job = &self.jobs[i];
                Ok(job.query())
            },
            None => Err(Error::JobQueryErr(Self::no_job_error(job_id))),
        }
    }

    /// Looks up the job under `(job_id, owner_id)` and sends it signal 15
    /// if `gracefully`, else signal 9.  When delivery succeeds, the job is
    /// `Stopped(kind)` and `Ok((job_id, true))` is published on the
    /// completion channel; when it fails, nothing changes and the error
    /// names the signal and the system's short error name.  A lookup miss
    /// fails with the uniform message.
    pub fn stop(&mut self, job_id: u128, owner_id: u128, gracefully: bool) -> (r: Result<(), Error>)
        requires
            old(self).wf(),
        ensures
            final(self).wf(),
            final(self).cfg_spec() == old(self).cfg_spec(),
            final(self).sender_spec() == old(self).sender_spec(),
            final(self).receiver_spec() == old(self).receiver_spec(),
            r matches Err(e) ==> e is JobStopErr,
            find_job_index(old(self).jobs_view(), job_id, owner_id) is None
                ==> final(self).jobs_view() == old(self).jobs_view() && (r matches Err(e)
                && e.msg_spec() == no_job_msg_spec(job_id)),
            find_job_index(old(self).jobs_view(), job_id, owner_id) matches Some(i) ==> {
                &&& r is Ok ==> final(self).jobs_view() == old(self).jobs_view().update(
                    i,
                    JobView {
                        status: Status::Stopped(stop_kind(gracefully)),
                        ..old(self).jobs_view()[i]
                    },
                )
                &&& r matches Err(e) ==> final(self).jobs_view() == old(self).jobs_view() && exists|
                    suffix: Seq<char>,
                |
                    e.msg_spec() == sig_fail_prefix_spec(stop_kind(gracefully)) + suffix
            },
    {
        match self.find_job(job_id, owner_id) {
            Some(i) => {
                let pid = {
                    let j = &self.jobs[i];
                    j.pid()
                };
                assert(self.jobs_view()[i as int].wf());
                let delivery = if gracefully {
                    sys::send_sigterm(pid)
                } else {
                    sys::send_sigkill(pid)
                };
                match delivery {
                    Ok(_) => {
                        let kind = if gracefully {
                            StopType::Term
                        } else {
                            StopType::Kill
                        };
                        self.jobs[i].mark_stopped(kind);
                        proof {
                            assert(self.jobs_view() =~= old(self).jobs_view().update(
                                i as int,
                                JobView {
                                    status: Status::Stopped(stop_kind(gracefully)),
                                    ..old(self).jobs_view()[i as int]
                                },
                            ));
                        }
                        let _ = chan::send_event(&self.sender, Ok((job_id, true)));
                        Ok(())
                    },
                    Err(errno_name) => {
                        let kind = if gracefully {
                            StopType::Term
                        } else {
                            StopType::Kill
                        };
                        let mut msg = String::new();
                        msg.append("failed to send SIG");
                        match kind {
                            StopType::Term => msg.append("TERM"),
                            StopType::Kill => msg.append("KILL"),
                        }
                        msg.append(" to job: ");
                        msg.append(errno_name.as_str());
                        proof {
                            assert(msg@ =~= sig_fail_prefix_spec(stop_kind(gracefully))
                                + errno_name@);
                        }
                        Err(Error::JobStopErr(msg))
                    },
                }
            },
            None => Err(Error::JobStopErr(Self::no_job_error(job_id))),
        }
    }

    /// The reaper finished waiting on the child of the job with the given
    /// id.  On a reported exit the job's status becomes `Exited(code)`
    /// unless a stop already landed, and `Ok((job_id, was_stopped))` is
    /// returned and published on the completion channel, `was_stopped` true
    /// exactly when the completion resulted from a stop; a wait failure
    /// changes nothing and yields the job-scoped error, likewise published.
    pub fn finish_wait(&mut self, job_id: u128, outcome: Result<Option<i32>, String>) -> (r:
        CompletionEvent)
        requires
            old(self).wf(),
        ensures
            final(self).wf(),
            final(self).cfg_spec() == old(self).cfg_spec(),
            final(self).sender_spec() == old(self).sender_spec(),
            final(self).receiver_spec() == old(self).receiver_spec(),
            outcome matches Ok(code) ==> {
                &&& find_id_index(old(self).jobs_view(), job_id) is None
                    ==> final(self).jobs_view() == old(self).jobs_view() && r == Ok::<
                        (u128, bool),
                        Error,
                    >((job_id, false))
                &&& find_id_index(old(self).jobs_view(), job_id) matches Some(i)
                    ==> final(self).jobs_view() == old(self).jobs_view().update(
                        i,
                        JobView {
                            status: old(self).jobs_view()[i].status.reaped(code),
                            ..old(self).jobs_view()[i]
                        },
                    ) && r == Ok::<(u128, bool), Error>(
                        (job_id, old(self).jobs_view()[i].status is Stopped),
                    )
            },
            outcome matches Err(detail) ==> final(self).jobs_view() == old(self).jobs_view() && (
            r matches Err(e) && e matches Error::JobErr(id, m) && id == job_id && m@
                == child_fail_msg_spec(detail@)),
    {
        match outcome {
            Ok(code) => {
                let was_stopped = match self.find_by_id(job_id) {
                    Some(i) => {
                        let stopped = {
                            let j = &self.jobs[i];
                            j.status().is_stopped()
                        };
                        self.jobs[i].reap(code);
                        proof {
                            assert(self.jobs_view() =~= old(self).jobs_view().update(
                                i as int,
                                JobView {
                                    status: old(self).jobs_view()[i as int].status.reaped(code),
                                    ..old(self).jobs_view()[i as int]
                                },
                            ));
                        }
                        stopped
                    },
                    None => false,
                };
                let _ = chan::send_event(&self.sender, Ok((job_id, was_stopped)));
                Ok((job_id, was_stopped))
            },
            Err(detail) => {
                let mut msg = String::new();
                msg.append("child process failed: ");
                msg.append(detail.as_str());
                let _ = chan::send_event(&self.sender, Err(Error::JobErr(job_id, msg.clone())));
                Err(Error::JobErr(job_id, msg))
            },
        }
    }

    /// Looks up the job under `(job_id, owner_id)` and returns the path of
    /// its log file; the embedding opens that file for read at offset zero.
    /// A lookup miss fails with the uniform message.
    pub fn stream_path(&self, job_id: u128, owner_id: u128) -> (r: Result<String, Error>)
        ensures
            r matches Ok(path) ==> (find_job_index(self.jobs_view(), job_id, owner_id) matches Some(
                i,
            ) && path@ == log_path_spec(
                self.cfg_spec().log_dir_spec(),
                self.jobs_view()[i].command.name,
                job_id,
            )),
            r matches Err(e) ==> e is JobStreamErr && find_job_index(
                self.jobs_view(),
                job_id,
                owner_id,
            ) is None && e.msg_spec() == no_job_msg_spec(job_id),
    {
        match self.find_job(job_id, owner_id) {
            Some(i) => {
                let mut path = String::new();
                path.append(self.cfg.log_dir());
                path.append("/");
                {
                    let j = &self.jobs[i];
                    let command = j.command();
                    path.append(command.name());
                }
                path.append("_");
                let id = id_string(job_id);
                path.append(id.as_str());
                path.append(".log");
                proof {
                    assert(path@ =~= log_path_spec(
                        self.cfg_spec().log_dir_spec(),
                        self.jobs_view()[i as int].command.name,
                        job_id,
                    ));
                }
                Ok(path)
            },
            None => Err(Error::JobStreamErr(Self::no_job_error(job_id))),
        }
    }

    /// A consumer of the worker's own completion channel — another handle
    /// to the very channel `stop` and `finish_wait` publish on; each
    /// completion event is delivered to exactly one consumer.
    pub fn notify_receiver(&self) -> (r: crossbeam::channel::Receiver<CompletionEvent>)
        ensures
            r == self.receiver_spec(),
    {
        chan::clone_receiver(&self.receiver)
    }

    /// The pids of every registered job, oldest first; an embedding's
    /// shutdown watchdog reports these when the reaper pool fails to drain.
    pub fn pids(&self) -> (r: Vec<u32>)
        ensures
            r@ == self.jobs_view().map_values(|j: JobView| j.pid),
    {
        let mut r: Vec<u32> = Vec::new();
        let n = self.jobs.len();
        let mut i: usize = 0;
        while i < n
            invariant
                n == self.jobs_view().len(),
                n == self.jobs@.len(),
                i <= n,
                r@ == self.jobs_view().subrange(0, i as int).map_values(|j: JobView| j.pid),
            decreases n - i,
        {
            let pid = {
                let j = &self.jobs[i];
                j.pid()
            };
            r.push(pid);
            proof {
                assert(r@ =~= self.jobs_view().subrange(0, i + 1 as int).map_values(
                    |j: JobView| j.pid,
                ));
            }
            i += 1;
        }
        proof {
            assert(self.jobs_view().subrange(0, n as int) =~= self.jobs_view());
        }
        r
    }
}

/// Invariant: a job observed `Running` has a positive pid.
pub proof fn lemma_running_job_has_pid(jobs: Seq<JobView>, i: int)
    requires
        registry_wf(jobs),
        0 <= i < jobs.len(),
        jobs[i].status is Running,
    ensures
        jobs[i].pid > 0,
{
}

/// A job registered by a successful start — an id the registry did not hold
/// — is found by the `(id, owner)` lookup as soon as the start returns, and
/// a query for it reports exactly the command the start accepted, the pid
/// of the spawned child, and the running state.
pub proof fn lemma_started_job_is_registered(jobs: Seq<JobView>, j: JobView)
    requires
        find_job_index(jobs, j.id, j.owner_id) is None,
    ensures
        find_job_index(jobs.push(j), j.id, j.owner_id) == Some(jobs.len() as int),
        query_model(jobs.push(j), j.id, j.owner_id) == Ok::<JobInfoView, Seq<char>>(job_info_of(j)),
    decreases jobs.len(),
{
    lemma_find_job_miss_means_no_match(jobs, j.id, j.owner_id);
    lemma_find_job_index_first(jobs.push(j), j.id, j.owner_id, jobs.len() as int);
}

/// A lookup that misses matches no registry entry at all.
pub proof fn lemma_find_job_miss_means_no_match(jobs: Seq<JobView>, job_id: u128, owner_id: u128)
    requires
        find_job_index(jobs, job_id, owner_id) is None,
    ensures
        forall|k: int| 0 <= k < jobs.len() ==> !job_matches(#[trigger] jobs[k], job_id, owner_id),
    decreases jobs.len(),
{
    if jobs.len() > 0 {
        lemma_find_job_miss_means_no_match(jobs.drop_first(), job_id, owner_id);
        assert forall|k: int| 0 <= k < jobs.len() implies !job_matches(
            #[trigger] jobs[k],
            job_id,
            owner_id,
        ) by {
            if k > 0 {
                assert(jobs.drop_first()[k - 1] == jobs[k]);
            }
        }
    }
}

/// A lookup with a wrong owner is indistinguishable from a lookup with an
/// unknown id: whenever two lookups for the same id miss — in any two
/// registry states, under any two owners — the query outcomes are equal,
/// carrying the same error message.
pub proof fn lemma_lookup_miss_is_uniform(
    jobs_a: Seq<JobView>,
    owner_a: u128,
    jobs_b: Seq<JobView>,
    owner_b: u128,
    job_id: u128,
)
    requires
        find_job_index(jobs_a, job_id, owner_a) is None,
        find_job_index(jobs_b, job_id, owner_b) is None,
    ensures
        query_model(jobs_a, job_id, owner_a) == query_model(jobs_b, job_id, owner_b),
{
}

/// A query immediately followed by another query on the same job, with no
/// state transition in between, reports identical snapshots.
pub proof fn lemma_query_twice_identical(
    jobs: Seq<JobView>,
    job_id: u128,
    owner_id: u128,
    first: JobInfoView,
    second: JobInfoView,
)
    requires
        query_model(jobs, job_id, owner_id) == Ok::<JobInfoView, Seq<char>>(first),
        query_model(jobs, job_id, owner_id) == Ok::<JobInfoView, Seq<char>>(second),
    ensures
        first == second,
{
}

} // verus!
