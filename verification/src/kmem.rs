//! Snapshot types standing for the kernel structures the probes read.
//!
//! The probes run as kernel bytecode, where a kernel-structure field is
//! never dereferenced directly: every access goes through a probing
//! primitive that returns an error code instead of faulting when the read
//! is invalid.  A [`ProbeRead`] value is the outcome of such a read: `Ok`
//! carries the value read, `Err` carries the error code the probing
//! primitive reported.

use vstd::prelude::*;

verus! {

/// The outcome of one fallible probed read of kernel memory.
pub type ProbeRead<T> = Result<T, i64>;

/// The fields the probes read from a process's memory descriptor.
///
/// `total_vm` is the number of pages currently mapped; `hiwater_vm` is the
/// kernel's cached high-water page count, which the kernel only advances
/// when `total_vm` drops, so either field may be the larger one.
#[derive(Clone, Copy, Debug, PartialEq, Eq, Structural)]
pub struct MemDescriptor {
    pub total_vm: u64,
    pub hiwater_vm: u64,
}

/// What the probes can read from the task that triggered a kernel event.
///
/// `mm` is the probed read of the task's memory descriptor; `rlim` is the
/// probed read of the task's resource-limit table, one current soft limit
/// per resource kind, indexed by the resource-limit kind identifier.
#[derive(Debug)]
pub struct TaskSnapshot {
    pub mm: ProbeRead<MemDescriptor>,
    pub rlim: ProbeRead<Vec<u64>>,
}

/// The larger of the two page counts the exit-time probe compares.
///
/// The kernel's own high-water counter is only advanced when the current
/// count drops, so on a still-growing process `total_vm` can exceed
/// `hiwater_vm`; both must be compared.
pub open spec fn max_pages(d: MemDescriptor) -> u64 {
    if d.total_vm >= d.hiwater_vm {
        d.total_vm
    } else {
        d.hiwater_vm
    }
}

} // verus!
