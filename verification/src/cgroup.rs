use vstd::prelude::*;
use crate::host::{Attribute, CgroupWrite, Request};
use crate::kill::{KillAll, KillStage};
use crate::status::Limits;

verus! {

/// Milliseconds that a run gives the killing of its tasks.
pub const KILL_TIMEOUT_MS: u64 = 1000;

/// A bundle of control groups under one name: memory, pids, freezer, cpuacct.
#[derive(Debug, PartialEq, Eq)]
pub struct SandboxCgroup {
    /// The name of the group's directory in each controller.
    pub name: String,
}

/// The hard cap that stands for a memory limit: twice the limit, so that a
/// command can be seen to pass the limit before the kernel kills it.
pub open spec fn hard_cap(memory_limit: u64) -> int {
    2 * memory_limit
}

/// The writes that set the counters of a bundle back to zero.
pub open spec fn clear_writes() -> Seq<CgroupWrite> {
    seq![
        CgroupWrite { attribute: Attribute::MemorySwapPeak, value: 0 },
        CgroupWrite { attribute: Attribute::CpuUsage, value: 0 },
    ]
}

/// The writes that cap memory, and memory with swap, at the hard cap.
pub open spec fn memory_limit_writes(memory_limit: u64) -> Seq<CgroupWrite> {
    seq![
        CgroupWrite { attribute: Attribute::MemoryLimit, value: hard_cap(memory_limit) as u128 },
        CgroupWrite {
            attribute: Attribute::MemorySwapLimit,
            value: hard_cap(memory_limit) as u128,
        },
    ]
}

/// The write that caps the number of tasks.
pub open spec fn pids_limit_write(pids_limit: u16) -> CgroupWrite {
    CgroupWrite { attribute: Attribute::PidsMax, value: pids_limit as u128 }
}

/// Everything written to a fresh bundle before the child starts: the counters
/// are set to zero, then the caps are set.
pub open spec fn setup_writes(limits: Limits) -> Seq<CgroupWrite> {
    clear_writes() + memory_limit_writes(limits.memory_limit) + seq![
        pids_limit_write(limits.pids_limit),
    ]
}

impl SandboxCgroup {
    /// Names a bundle. Nothing is created by this.
    pub fn new(cgroup_name: &str) -> (cgroup: SandboxCgroup)
        ensures
            cgroup.name@ == cgroup_name@,
    {
        SandboxCgroup { name: cgroup_name.to_owned() }
    }

    /// The request that finds out whether the bundle holds no task: the
    /// freezer's task list tells.
    pub fn is_empty(&self) -> (request: Request)
        ensures
            request == Request::ReadTasks,
    {
        Request::ReadTasks
    }

    /// The request that reads the processor time used by the bundle's tasks.
    pub fn get_cpu_time(&self) -> (request: Request)
        ensures
            request == Request::Read(Attribute::CpuUsage),
    {
        Request::Read(Attribute::CpuUsage)
    }

    /// The request that reads the bundle's peak of memory and swap.
    pub fn get_max_memory(&self) -> (request: Request)
        ensures
            request == Request::Read(Attribute::MemorySwapPeak),
    {
        Request::Read(Attribute::MemorySwapPeak)
    }

    /// The writes that set the bundle's counters back to zero.
    pub fn clear(&self) -> (writes: Vec<CgroupWrite>)
        ensures
            writes@ == clear_writes(),
    {
        vec![
            CgroupWrite { attribute: Attribute::MemorySwapPeak, value: 0 },
            CgroupWrite { attribute: Attribute::CpuUsage, value: 0 },
        ]
    }

    /// The writes that cap the bundle's memory, and memory with swap, at twice
    /// `memory_limit`.
    pub fn set_memory_limit(&self, memory_limit: u64) -> (writes: Vec<CgroupWrite>)
        ensures
            writes@ == memory_limit_writes(memory_limit),
    {
        let cap: u128 = 2 * (memory_limit as u128);
        vec![
            CgroupWrite { attribute: Attribute::MemoryLimit, value: cap },
            CgroupWrite { attribute: Attribute::MemorySwapLimit, value: cap },
        ]
    }

    /// The write that caps the bundle's number of tasks.
    pub fn set_pids_limit(&self, pids_limit: u16) -> (write: CgroupWrite)
        ensures
            write == pids_limit_write(pids_limit),
    {
        CgroupWrite { attribute: Attribute::PidsMax, value: pids_limit as u128 }
    }

    /// Begins the killing of every task in the bundle, with `timeout_ms`
    /// milliseconds to spend on waiting.
    pub fn kill_all_tasks(&self, timeout_ms: u64) -> (kill: KillAll)
        ensures
            kill == KillAll::start(timeout_ms),
    {
        KillAll { stage: KillStage::Probe, remaining: timeout_ms }
    }
}

} // verus!
