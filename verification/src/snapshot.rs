//! The immutable view of host metrics that one frame renders.
//!
//! A snapshot is a plain value object: every metric is an integer. Ratios
//! that the host reports fractionally (CPU usage, load averages, per-process
//! CPU) are held as fixed-point integers in hundredths, so the renderer's
//! arithmetic and threshold comparisons are exact.

use vstd::prelude::*;

verus! {

/// Usage of one mounted disk, in bytes; the used amount is
/// `total_bytes - available_bytes`.
pub struct DiskStat {
    pub name: String,
    pub total_bytes: u64,
    pub available_bytes: u64,
    pub mount_point: String,
}

/// Lifetime traffic counters of one network interface, in bytes.
pub struct NetworkStat {
    pub interface_name: String,
    pub received_bytes: u64,
    pub transmitted_bytes: u64,
}

/// One process as the snapshot source reports it; `cpu_usage_hundredths` is
/// its CPU percentage in hundredths.
pub struct ProcessStat {
    pub name: String,
    pub pid: u64,
    pub cpu_usage_hundredths: u64,
    pub memory_bytes: u64,
}

/// Two process records carry the same data.
pub open spec fn process_stat_eq(a: ProcessStat, b: ProcessStat) -> bool {
    &&& a.name@ == b.name@
    &&& a.pid == b.pid
    &&& a.cpu_usage_hundredths == b.cpu_usage_hundredths
    &&& a.memory_bytes == b.memory_bytes
}

impl Clone for ProcessStat {
    /// A clone carries exactly the fields of the original.
    fn clone(&self) -> (r: Self)
        ensures
            process_stat_eq(r, *self),
    {
        ProcessStat {
            name: self.name.clone(),
            pid: self.pid,
            cpu_usage_hundredths: self.cpu_usage_hundredths,
            memory_bytes: self.memory_bytes,
        }
    }
}

/// One consistent, immutable read of all monitored metrics at a point in
/// time. The renderer never mutates it.
pub struct SystemSnapshot {
    /// Aggregate CPU usage percentage, in hundredths (0..=10000 in the
    /// common case).
    pub cpu_usage_hundredths: u64,
    /// Number of logical CPU cores.
    pub cpu_count: u64,
    /// 1-, 5- and 15-minute load averages, each in hundredths.
    pub load_average_hundredths: (u64, u64, u64),
    pub memory_used_bytes: u64,
    pub memory_total_bytes: u64,
    pub swap_used_bytes: u64,
    pub swap_total_bytes: u64,
    /// Mounted disks, in the order the source reports them.
    pub disks: Vec<DiskStat>,
    /// Network interfaces, in the order the source reports them.
    pub networks: Vec<NetworkStat>,
    /// Processes sorted descending by CPU usage, as the source reports them.
    pub processes: Vec<ProcessStat>,
    pub uptime_seconds: u64,
}

/// The number of processes that `top_processes(n)` returns: `n`, capped at
/// the length of the process list.
pub open spec fn top_count(processes: Seq<ProcessStat>, n: nat) -> int {
    if n <= processes.len() {
        n as int
    } else {
        processes.len() as int
    }
}

impl SystemSnapshot {
    /// The display-limit query of the snapshot interface: at most `n`
    /// processes, taken from the front of the list the source reported, in
    /// the source's order — the caller never re-sorts.
    pub fn top_processes(&self, n: usize) -> (r: Vec<ProcessStat>)
        ensures
            r@.len() == top_count(self.processes@, n as nat),
            forall|k: int|
                0 <= k < r@.len() ==> process_stat_eq(#[trigger] r@[k], self.processes@[k]),
    {
        let count = if n <= self.processes.len() {
            n
        } else {
            self.processes.len()
        };
        let mut r: Vec<ProcessStat> = Vec::new();
        let mut i: usize = 0;
        while i < count
            invariant
                count <= self.processes@.len(),
                i <= count,
                r@.len() == i,
                forall|k: int|
                    0 <= k < i ==> process_stat_eq(#[trigger] r@[k], self.processes@[k]),
            decreases count - i,
        {
            r.push(self.processes[i].clone());
            i = i + 1;
        }
        r
    }
}

} // verus!
