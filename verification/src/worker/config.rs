//! Configuration of a worker: where log files live and how many reaper
//! threads run.

use vstd::prelude::*;

verus! {

/// The two recognised worker options.
#[derive(Clone, Copy, Debug)]
pub struct Config {
    log_dir: &'static str,
    thread_count: usize,
}

impl Config {
    /// Directory under which log files are created; the embedding creates it
    /// recursively on worker construction if absent.
    pub closed spec fn log_dir_spec(self) -> Seq<char> {
        self.log_dir@
    }

    /// Size of the reaper pool, and the capacity of the completion channel.
    pub closed spec fn thread_count_spec(self) -> usize {
        self.thread_count
    }

    pub fn new(log_dir: &'static str, thread_count: usize) -> (c: Self)
        ensures
            c.log_dir_spec() == log_dir@,
            c.thread_count_spec() == thread_count,
    {
        Config { log_dir, thread_count }
    }

    /// Logs under `/tmp`, four reaper threads.
    pub fn default() -> (c: Self)
        ensures
            c.log_dir_spec() == "/tmp"@,
            c.thread_count_spec() == 4,
    {
        Config { log_dir: "/tmp", thread_count: 4 }
    }

    pub fn log_dir(&self) -> (r: &'static str)
        ensures
            r@ == self.log_dir_spec(),
    {
        self.log_dir
    }

    pub fn thread_count(&self) -> (r: usize)
        ensures
            r == self.thread_count_spec(),
    {
        self.thread_count
    }
}

} // verus!
