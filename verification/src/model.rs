//! The metric snapshot model.
//!
//! One snapshot captures a single instant: system identity, CPU usage,
//! memory, disks and processes. Every value is plain — byte counts and
//! durations as integers, percentages in hundredths of a percent — and each
//! snapshot is rebuilt from scratch every refresh cycle. Identity fields the
//! host does not report are `None` and are rendered as an explicit
//! unavailable marker, never as an empty string.

use vstd::prelude::*;

verus! {

/// System identity, CPU and memory figures of one snapshot.
///
/// `cpu_global_usage` and the entries of `cpu_cores` are percentages in
/// hundredths of a percent; memory figures are byte counts.
pub struct SystemStats {
    pub host_name: Option<String>,
    pub os_version: Option<String>,
    pub uptime: u64,
    pub arch: String,
    pub os_name: Option<String>,
    pub cpu_names: Vec<String>,
    pub cpu_global_usage: u64,
    pub cpu_cores: Vec<u64>,
    pub total_memory: u64,
    pub used_memory: u64,
    pub free_memory: u64,
}

impl SystemStats {
    /// A snapshot is well formed when each core has a name and its usage,
    /// and the used memory does not exceed the total.
    pub open spec fn wf(&self) -> bool {
        self.cpu_names@.len() == self.cpu_cores@.len() && self.used_memory <= self.total_memory
    }

    /// Check well-formedness, so callers can establish it at run time.
    pub fn is_wf(&self) -> (b: bool)
        ensures
            b == self.wf(),
    {
        self.cpu_names.len() == self.cpu_cores.len() && self.used_memory <= self.total_memory
    }

    /// Number of CPU cores in the snapshot.
    pub fn core_count(&self) -> (n: usize)
        ensures
            n == self.cpu_cores@.len(),
    {
        self.cpu_cores.len()
    }

    /// Memory still available: the total minus what is used. Never
    /// negative, since a well-formed snapshot uses at most its total.
    pub fn available_memory(&self) -> (r: u64)
        requires
            self.wf(),
        ensures
            r == self.total_memory - self.used_memory,
            r + self.used_memory == self.total_memory,
    {
        self.total_memory - self.used_memory
    }
}

/// In every well-formed snapshot the used memory lies between zero and the
/// total, and the derived available figure is non-negative.
pub proof fn lemma_memory_in_bounds(s: &SystemStats)
    requires
        s.wf(),
    ensures
        0 <= s.used_memory <= s.total_memory,
        s.total_memory - s.used_memory >= 0,
{
}

/// Per-disk figures of one snapshot, index-aligned across the five
/// columns; `disk_usages` entries are used-space percentages in hundredths
/// of a percent.
pub struct DisksStats {
    pub disk_names: Vec<String>,
    pub disk_mnt_pts: Vec<String>,
    pub disk_usages: Vec<u64>,
    pub disk_filesystems: Vec<String>,
    pub disk_kinds: Vec<String>,
}

impl DisksStats {
    /// All five columns describe the same disks, and every usage is a
    /// percentage of at most 100.00 %.
    pub open spec fn wf(&self) -> bool {
        &&& self.disk_names@.len() == self.disk_mnt_pts@.len()
        &&& self.disk_names@.len() == self.disk_usages@.len()
        &&& self.disk_names@.len() == self.disk_filesystems@.len()
        &&& self.disk_names@.len() == self.disk_kinds@.len()
        &&& forall|i: int| 0 <= i < self.disk_usages@.len() ==> #[trigger] self.disk_usages@[i]
            <= 10000
    }

    /// Check well-formedness, so callers can establish it at run time.
    pub fn is_wf(&self) -> (b: bool)
        ensures
            b == self.wf(),
    {
        if self.disk_names.len() != self.disk_mnt_pts.len() || self.disk_names.len()
            != self.disk_usages.len() || self.disk_names.len() != self.disk_filesystems.len()
            || self.disk_names.len() != self.disk_kinds.len() {
            return false;
        }
        let mut i: usize = 0;
        while i < self.disk_usages.len()
            invariant
                i <= self.disk_usages@.len(),
                forall|j: int| 0 <= j < i ==> #[trigger] self.disk_usages@[j] <= 10000,
            decreases self.disk_usages@.len() - i,
        {
            if self.disk_usages[i] > 10000 {
                return false;
            }
            i += 1;
        }
        true
    }

    /// Number of disks in the snapshot.
    pub fn disk_count(&self) -> (n: usize)
        ensures
            n == self.disk_names@.len(),
    {
        self.disk_names.len()
    }

    /// An empty disk list.
    pub fn empty() -> (d: DisksStats)
        ensures
            d.wf(),
            d.disk_names@.len() == 0,
    {
        DisksStats {
            disk_names: Vec::new(),
            disk_mnt_pts: Vec::new(),
            disk_usages: Vec::new(),
            disk_filesystems: Vec::new(),
            disk_kinds: Vec::new(),
        }
    }
}

/// One process of the snapshot. `cpu` is the process's CPU share as a
/// percentage in hundredths of a percent; `memory` is in bytes; `uptime`
/// in seconds; the effective ids are absent where the host does not report
/// them.
pub struct ProcessInfo {
    pub pid: u64,
    pub name: String,
    pub memory: u64,
    pub cpu: u64,
    pub uptime: u64,
    pub euid: Option<u64>,
    pub egid: Option<u64>,
}

} // verus!
