//! Per-job resource limits through the unified control-group hierarchy.
//!
//! A cgroup is a directory under `/sys/fs/cgroup` whose interface files
//! constrain the processes listed in its `cgroup.procs`.  This module holds
//! the verified side of that mechanism: which directory a job's cgroup lives
//! in, which interface files are written and with what contents, and the line
//! appended to `cgroup.procs` to admit a process.  The embedding performs the
//! actual file-system writes from the plan computed here.

use vstd::prelude::*;
use vstd::string::StringExecFns;

use crate::render::dec_str;
use crate::render::dec_string;
use crate::render::id_str;
use crate::render::id_string;

verus! {

/// Optional limits for the `cpu` controller.
#[derive(Clone, Debug)]
pub struct CpuConfig {
    pub max: Option<String>,
    pub weight: Option<u16>,
}

impl CpuConfig {
    /// A cpu configuration exists only if at least one field is present.
    pub fn new(max: Option<String>, weight: Option<u16>) -> (r: Option<Self>)
        ensures
            r matches Some(c) ==> c.max == max && c.weight == weight,
            r is Some <==> (max is Some || weight is Some),
    {
        if max.is_some() || weight.is_some() {
            Some(Self { max, weight })
        } else {
            None
        }
    }
}

/// Optional limits for the `memory` controller.
#[derive(Clone, Debug)]
pub struct MemConfig {
    pub max: Option<String>,
    pub weight: Option<u16>,
}

impl MemConfig {
    /// A memory configuration exists only if at least one field is present.
    pub fn new(max: Option<String>, weight: Option<u16>) -> (r: Option<Self>)
        ensures
            r matches Some(c) ==> c.max == max && c.weight == weight,
            r is Some <==> (max is Some || weight is Some),
    {
        if max.is_some() || weight.is_some() {
            Some(Self { max, weight })
        } else {
            None
        }
    }
}

/// Optional limits for the `io` controller.
#[derive(Clone, Debug)]
pub struct IoConfig {
    pub max: Option<String>,
    pub weight: Option<u16>,
}

impl IoConfig {
    /// An io configuration exists only if at least one field is present.
    pub fn new(max: Option<String>, weight: Option<u16>) -> (r: Option<Self>)
        ensures
            r matches Some(c) ==> c.max == max && c.weight == weight,
            r is Some <==> (max is Some || weight is Some),
    {
        if max.is_some() || weight.is_some() {
            Some(Self { max, weight })
        } else {
            None
        }
    }
}

/// Per-job resource limits, paired per controller.  When every field is
/// absent the configuration is a functional no-op.
#[derive(Clone, Debug)]
pub struct CgroupConfig {
    pub cpu: Option<CpuConfig>,
    pub memory: Option<MemConfig>,
    pub io: Option<IoConfig>,
    pub root_path: String,
}

/// The cgroup directory for a job: `/sys/fs/cgroup/${command_name}_${job_id}`.
pub open spec fn cgroup_root_spec(command_name: Seq<char>, job_id: u128) -> Seq<char> {
    "/sys/fs/cgroup/"@ + command_name + "_"@ + id_str(job_id)
}

/// The line appended to `cgroup.procs` to admit a process: the decimal pid
/// followed by a newline.
pub open spec fn procs_line_spec(pid: u32) -> Seq<char> {
    dec_str(pid as nat) + "\n"@
}

impl CgroupConfig {
    /// The cgroup directory fixed by [`CgroupConfig::init_plan`]; empty
    /// before initialisation.
    pub open spec fn root_path_spec(self) -> Seq<char> {
        self.root_path@
    }

    /// The interface files written at init, in order, as
    /// `(file name, contents)` pairs relative to the cgroup directory.
    /// An absent field writes nothing; a weight is written in decimal.
    pub open spec fn writes_spec(self) -> Seq<(Seq<char>, Seq<char>)> {
        (match self.cpu {
            Some(c) => (match c.max {
                Some(m) => seq![("cpu.max"@, m@)],
                None => Seq::empty(),
            }) + (match c.weight {
                Some(w) => seq![("cpu.weight"@, dec_str(w as nat))],
                None => Seq::empty(),
            }),
            None => Seq::empty(),
        }) + (match self.memory {
            Some(c) => (match c.max {
                Some(m) => seq![("memory.max"@, m@)],
                None => Seq::empty(),
            }) + (match c.weight {
                Some(w) => seq![("memory.weight"@, dec_str(w as nat))],
                None => Seq::empty(),
            }),
            None => Seq::empty(),
        }) + (match self.io {
            Some(c) => (match c.max {
                Some(m) => seq![("io.max"@, m@)],
                None => Seq::empty(),
            }) + (match c.weight {
                Some(w) => seq![("io.weight"@, dec_str(w as nat))],
                None => Seq::empty(),
            }),
            None => Seq::empty(),
        })
    }

    pub fn new(
        cpu_max: Option<String>,
        cpu_weight: Option<u16>,
        memory_max: Option<String>,
        memory_weight: Option<u16>,
        io_max: Option<String>,
        io_weight: Option<u16>,
    ) -> (r: Self)
        ensures
            r.cpu matches Some(c) ==> c.max == cpu_max && c.weight == cpu_weight,
            r.cpu is Some <==> (cpu_max is Some || cpu_weight is Some),
            r.memory matches Some(c) ==> c.max == memory_max && c.weight == memory_weight,
            r.memory is Some <==> (memory_max is Some || memory_weight is Some),
            r.io matches Some(c) ==> c.max == io_max && c.weight == io_weight,
            r.io is Some <==> (io_max is Some || io_weight is Some),
            r.root_path_spec() == Seq::<char>::empty(),
    {
        CgroupConfig {
            cpu: CpuConfig::new(cpu_max, cpu_weight),
            memory: MemConfig::new(memory_max, memory_weight),
            io: IoConfig::new(io_max, io_weight),
            root_path: String::new(),
        }
    }

    /// Fixes the cgroup directory for the given job and returns the interface
    /// writes that initialisation must perform there, in order.  The
    /// embedding creates the directory, performs each write, and ensures an
    /// (initially empty) `cgroup.procs` exists.
    pub fn init_plan(&mut self, command_name: &str, job_id: u128) -> (writes: Vec<(String, String)>)
        ensures
            final(self).cpu == old(self).cpu,
            final(self).memory == old(self).memory,
            final(self).io == old(self).io,
            final(self).root_path_spec() == cgroup_root_spec(command_name@, job_id),
            writes.deep_view() == old(self).writes_spec(),
    {
        let mut root = String::new();
        root.append("/sys/fs/cgroup/");
        root.append(command_name);
        root.append("_");
        let id = id_string(job_id);
        root.append(id.as_str());
        self.root_path = root;

        let mut writes: Vec<(String, String)> = Vec::new();
        if let Some(cpu) = &self.cpu {
            if let Some(m) = &cpu.max {
                writes.push(("cpu.max".to_owned(), m.clone()));
            }
            if let Some(w) = &cpu.weight {
                writes.push(("cpu.weight".to_owned(), dec_string(*w as u64)));
            }
        }
        if let Some(memory) = &self.memory {
            if let Some(m) = &memory.max {
                writes.push(("memory.max".to_owned(), m.clone()));
            }
            if let Some(w) = &memory.weight {
                writes.push(("memory.weight".to_owned(), dec_string(*w as u64)));
            }
        }
        if let Some(io) = &self.io {
            if let Some(m) = &io.max {
                writes.push(("io.max".to_owned(), m.clone()));
            }
            if let Some(w) = &io.weight {
                writes.push(("io.weight".to_owned(), dec_string(*w as u64)));
            }
        }
        proof {
            assert(self.root_path@ =~= cgroup_root_spec(command_name@, job_id));
            assert(writes.deep_view() =~= old(self).writes_spec());
        }
        writes
    }

    /// The cgroup directory fixed by [`CgroupConfig::init_plan`]; empty
    /// before initialisation.
    pub fn root_path(&self) -> (r: &str)
        ensures
            r@ == self.root_path_spec(),
    {
        self.root_path.as_str()
    }

    /// The line the embedding appends to this cgroup's `cgroup.procs` to
    /// admit the process with the given pid.
    pub fn procs_line(pid: u32) -> (r: String)
        ensures
            r@ == procs_line_spec(pid),
    {
        let mut line = dec_string(pid as u64);
        line.append("\n");
        line
    }
}

} // verus!
