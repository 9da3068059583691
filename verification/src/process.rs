//! The model of one live process at scan time: the attributes the selector
//! reads, and the predicates that decide whether a process may be killed at
//! all. The scanner that fills these records from the process pseudo-files
//! lives outside the library; every record it hands over is complete (an
//! identifier whose attribute reads failed is dropped by the scanner, never
//! surfaced here).

use vstd::prelude::*;

verus! {

/// The `oom_score_adj` sentinel that marks a process permanently exempt from
/// out-of-memory killing, following the kernel's own convention.
pub const OOM_SCORE_ADJ_EXEMPT: i32 = -1000;

/// A snapshot of one process's kill-relevant attributes.
pub struct Process {
    /// Process identifier; candidates always have `pid > 1`.
    pub pid: u32,
    /// Short executable name, used only for exemption matching.
    pub comm: String,
    /// Kernel-computed badness score; higher means a better victim.
    pub oom_score: u32,
    /// Signed user bias in `[-1000, 1000]`; `-1000` marks exemption.
    pub oom_score_adj: i32,
    /// Resident set size in KiB; `0` identifies a kernel thread.
    pub vm_rss_kib: u64,
}

impl Clone for Process {
    fn clone(&self) -> (r: Self)
        ensures
            r == *self,
    {
        Process {
            pid: self.pid,
            comm: self.comm.clone(),
            oom_score: self.oom_score,
            oom_score_adj: self.oom_score_adj,
            vm_rss_kib: self.vm_rss_kib,
        }
    }
}

/// The compiled-in untouchable set: processes whose termination would be more
/// damaging than the memory shortage itself. Never selected, whatever their
/// score. Read-only for the life of the process.
pub open spec fn spec_is_untouchable(comm: Seq<char>) -> bool {
    ||| comm == "qemu-system-x86_64"@
    ||| comm == "qemu-system-x86"@
    ||| comm == "emerge"@
}

/// Decides membership of the untouchable set.
pub fn is_untouchable(comm: &String) -> (r: bool)
    ensures
        r == spec_is_untouchable(comm@),
{
    let qemu64: String = "qemu-system-x86_64".to_owned();
    let qemu: String = "qemu-system-x86".to_owned();
    let emerge: String = "emerge".to_owned();
    *comm == qemu64 || *comm == qemu || *comm == emerge
}

/// A process may be selected at all: it is not the init process (nor the
/// idle pseudo-process), its name is not in the untouchable set, it owns
/// user memory (kernel threads report zero), and it is not explicitly
/// exempted through the kernel's `oom_score_adj` sentinel.
pub open spec fn eligible(p: Process) -> bool {
    &&& p.pid > 1
    &&& !spec_is_untouchable(p.comm@)
    &&& p.vm_rss_kib > 0
    &&& p.oom_score_adj != OOM_SCORE_ADJ_EXEMPT
}

/// The strict preference order of the selector: a candidate displaces the
/// held victim only when it is strictly worse-behaved, that is, it has a
/// higher badness score, or an equal score together with a strictly larger
/// resident set. Exact ties never displace the incumbent.
pub open spec fn better(c: Process, v: Process) -> bool {
    ||| c.oom_score > v.oom_score
    ||| (c.oom_score == v.oom_score && c.vm_rss_kib > v.vm_rss_kib)
}

} // verus!
