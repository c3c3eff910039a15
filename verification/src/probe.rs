//! The two kernel probes: the exit-time high-water tracker and the
//! expansion-time limit-violation tracker.
//!
//! Both attachment strategies for a probe (trampoline-style and
//! instruction-patch) invoke the same logic, so each probe is a single
//! function here.  Each one fires on every event system-wide and is a
//! no-op unless the firing process group is monitored; any failed probed
//! read or missing constant abandons the single invocation with a non-zero
//! status and leaves the tables untouched.

use vstd::prelude::*;
use vstd::arithmetic::power2::pow2;
use crate::constants::{ConstantsArray, RLIMIT_AS_NOT_HIT, RLIMIT_KIND_SLOT, PAGE_SHIFT_SLOT};
use crate::kmem::{MemDescriptor, ProbeRead, TaskSnapshot, max_pages};
use crate::pages::page_bytes;
use crate::table::BoundedTable;

verus! {

/// Status a probe reports for a constant that is missing, out of range or
/// unusable, and for a violation value too large to record.
pub const BAD_CONSTANT: i64 = 1;

/// What one firing of the exit-time probe returns and leaves in the
/// high-water table, given the table contents, the firing process group,
/// the probe's constants (page shift in slot zero) and the probed read of
/// the task's memory descriptor.
pub open spec fn exit_step(
    m: Map<u32, u64>,
    tgid: u32,
    constants: Seq<u64>,
    mm: ProbeRead<MemDescriptor>,
) -> (Result<u32, i64>, Map<u32, u64>) {
    if !m.contains_key(tgid) {
        (Ok(0u32), m)
    } else if constants.len() < 1 {
        (Err(BAD_CONSTANT as i64), m)
    } else if constants[0] >= 64 {
        (Err(BAD_CONSTANT as i64), m)
    } else {
        match mm {
            Err(e) => (Err(e), m),
            Ok(d) => (Ok(0u32), m.insert(tgid, page_bytes(max_pages(d), constants[0]))),
        }
    }
}

/// Exit-time probe: records the high-water mark of a monitored process
/// group when it exits.
///
/// Reads the current mapped-page count and the kernel's cached high-water
/// page count, takes their maximum, converts it to bytes by the page shift
/// from the constants table, and unconditionally overwrites the process
/// group's high-water entry with the result.
pub fn try_on_do_exit(
    tgid: u32,
    vm_peak: &mut BoundedTable<u64>,
    constants: &ConstantsArray,
    task: &TaskSnapshot,
) -> (r: Result<u32, i64>)
    requires
        old(vm_peak).wf(),
    ensures
        final(vm_peak).wf(),
        final(vm_peak).cap() == old(vm_peak).cap(),
        (r, final(vm_peak).contents()) == exit_step(
            old(vm_peak).contents(),
            tgid,
            constants@,
            task.mm,
        ),
{
    if let Some(_) = vm_peak.get(tgid) {
        let page_shift = match constants.get(0) {
            Some(v) => v,
            None => {
                return Err(BAD_CONSTANT);
            },
        };
        if page_shift >= 64 {
            return Err(BAD_CONSTANT);
        }
        let d = match &task.mm {
            Ok(d) => d,
            Err(e) => {
                return Err(*e);
            },
        };
        let current = if d.total_vm >= d.hiwater_vm {
            d.total_vm
        } else {
            d.hiwater_vm
        };
        match vm_peak.insert(tgid, current << page_shift) {
            Ok(()) => Ok(0),
            Err(e) => Err(e),
        }
    } else {
        Ok(0)
    }
}

/// The exact byte count of an attempted expansion: the page count after
/// the request, converted to bytes.
pub open spec fn attempted_bytes(total_vm: u64, npages: u64, page_shift: u64) -> int {
    (total_vm + npages) * pow2(page_shift as nat)
}

/// What one firing of the expansion-check probe returns and leaves in the
/// attempted-limit table, given the table contents, the firing process
/// group, the probed read of the memory descriptor the kernel event
/// supplied, the requested page delta, the probe's constants
/// (resource-limit kind in slot zero, page shift in slot one) and the
/// probed read of the task's resource-limit table.
pub open spec fn expand_step(
    m: Map<u32, i64>,
    tgid: u32,
    mm: ProbeRead<MemDescriptor>,
    npages: u64,
    constants: Seq<u64>,
    rlim: ProbeRead<Seq<u64>>,
) -> (Result<u32, i64>, Map<u32, i64>) {
    if !(m.contains_key(tgid) && m[tgid] == RLIMIT_AS_NOT_HIT) {
        (Ok(0u32), m)
    } else if constants.len() < 1 {
        (Err(BAD_CONSTANT as i64), m)
    } else if constants[0] > usize::MAX as u64 {
        (Err(BAD_CONSTANT as i64), m)
    } else if constants.len() < 2 {
        (Err(BAD_CONSTANT as i64), m)
    } else {
        match mm {
            Err(e) => (Err(e), m),
            Ok(d) => match rlim {
                Err(e) => (Err(e), m),
                Ok(limits) => {
                    if constants[0] >= limits.len() {
                        (Err(BAD_CONSTANT as i64), m)
                    } else if constants[1] >= 64 {
                        (Err(BAD_CONSTANT as i64), m)
                    } else {
                        let limit_pages = limits[constants[0] as int] >> constants[1];
                        if d.total_vm + npages > limit_pages {
                            if attempted_bytes(d.total_vm, npages, constants[1]) > i64::MAX {
                                (Err(BAD_CONSTANT as i64), m)
                            } else {
                                (
                                    Ok(0u32),
                                    m.insert(
                                        tgid,
                                        attempted_bytes(d.total_vm, npages, constants[1]) as i64,
                                    ),
                                )
                            }
                        } else {
                            (Ok(0u32), m)
                        }
                    }
                },
            },
        }
    }
}

/// Expansion-check probe: records the first attempt of a monitored process
/// group to grow its virtual memory past its address-space resource limit.
///
/// Fires when the kernel decides whether to authorize address-space
/// growth, before the kernel's own enforcement denies the request.  A
/// no-op unless the process group's attempted-limit entry still equals the
/// sentinel.  When eligible, compares the page count after the request
/// against the limit from the task's resource-limit table and, on a
/// violation, records the attempted size in bytes — the attempted size,
/// not the limit — unless that size does not fit the entry.
pub fn try_on_may_expand_vm(
    mm: &ProbeRead<MemDescriptor>,
    npages: u64,
    tgid: u32,
    attempted_vm_peak: &mut BoundedTable<i64>,
    constants: &ConstantsArray,
    task: &TaskSnapshot,
) -> (r: Result<u32, i64>)
    requires
        old(attempted_vm_peak).wf(),
    ensures
        final(attempted_vm_peak).wf(),
        final(attempted_vm_peak).cap() == old(attempted_vm_peak).cap(),
        (r, final(attempted_vm_peak).contents()) == expand_step(
            old(attempted_vm_peak).contents(),
            tgid,
            *mm,
            npages,
            constants@,
            match task.rlim {
                Ok(ref v) => Ok(v@),
                Err(e) => Err(e),
            },
        ),
{
    let eligible = match attempted_vm_peak.get(tgid) {
        Some(value) => value == RLIMIT_AS_NOT_HIT,
        None => false,
    };
    if !eligible {
        return Ok(0);
    }
    let rlimit_kind = match constants.get(RLIMIT_KIND_SLOT) {
        Some(v) => v,
        None => {
            return Err(BAD_CONSTANT);
        },
    };
    if rlimit_kind > usize::MAX as u64 {
        return Err(BAD_CONSTANT);
    }
    let rlimit_kind: usize = rlimit_kind as usize;
    let page_shift = match constants.get(PAGE_SHIFT_SLOT) {
        Some(v) => v,
        None => {
            return Err(BAD_CONSTANT);
        },
    };
    let d = match mm {
        Ok(d) => d,
        Err(e) => {
            return Err(*e);
        },
    };
    let limits = match &task.rlim {
        Ok(l) => l,
        Err(e) => {
            return Err(*e);
        },
    };
    if rlimit_kind >= limits.len() {
        return Err(BAD_CONSTANT);
    }
    let rlim_cur = limits[rlimit_kind];
    if page_shift >= 64 {
        return Err(BAD_CONSTANT);
    }
    let limit_pages = rlim_cur >> page_shift;
    let after_pages = match d.total_vm.checked_add(npages) {
        Some(sum) => sum,
        None => {
            // The sum exceeds every representable limit, so this is a
            // violation whose byte count cannot fit the entry.
            proof {
                lemma_sum_over_u64_is_violation(d.total_vm, npages, limit_pages, page_shift);
            }
            return Err(BAD_CONSTANT);
        },
    };
    if after_pages > limit_pages {
        let max_recordable = (i64::MAX as u64) >> page_shift;
        if after_pages > max_recordable {
            proof {
                vstd::bits::lemma_u64_mul_pow2_le_max_iff_max_shr(
                    after_pages,
                    page_shift,
                    i64::MAX as u64,
                );
            }
            return Err(BAD_CONSTANT);
        }
        proof {
            vstd::bits::lemma_u64_mul_pow2_le_max_iff_max_shr(
                after_pages,
                page_shift,
                i64::MAX as u64,
            );
            crate::pages::lemma_page_bytes_exact(after_pages, page_shift);
        }
        let to_insert: i64 = (after_pages << page_shift) as i64;
        match attempted_vm_peak.insert(tgid, to_insert) {
            Ok(()) => Ok(0),
            Err(e) => Err(e),
        }
    } else {
        Ok(0)
    }
}

/// The status code a probe entry point hands back to the kernel event
/// framework: the error code when it is representable, a generic non-zero
/// status otherwise.
pub open spec fn spec_probe_return_code(r: Result<u32, i64>) -> u32 {
    match r {
        Ok(code) => code,
        Err(e) => if 0 <= e <= u32::MAX { e as u32 } else { 1u32 },
    }
}

/// Folds a probe outcome into the status code returned to the kernel
/// event framework, which every entry point does in the same way: a
/// failed invocation reports its error code, or a generic non-zero status
/// when the code does not fit.
pub fn probe_return_code(r: Result<u32, i64>) -> (code: u32)
    ensures
        code == spec_probe_return_code(r),
{
    match r {
        Ok(code) => code,
        Err(e) => {
            if 0 <= e && e <= u32::MAX as i64 {
                e as u32
            } else {
                1
            }
        },
    }
}

/// One firing of the exit-time probe never adds or removes a table entry
/// and never touches the entry of another process group.
pub proof fn lemma_exit_step_frame(
    m: Map<u32, u64>,
    tgid: u32,
    constants: Seq<u64>,
    mm: ProbeRead<MemDescriptor>,
)
    ensures
        exit_step(m, tgid, constants, mm).1.dom() == m.dom(),
        forall|k: u32|
            k != tgid && m.contains_key(k) ==> exit_step(m, tgid, constants, mm).1[k] == m[k],
{
    let m2 = exit_step(m, tgid, constants, mm).1;
    if m2 != m {
        assert(m.contains_key(tgid));
        assert(m2.dom() =~= m.dom());
    }
}

/// One firing of the expansion-check probe never adds or removes a table
/// entry, never touches the entry of another process group, and writes
/// only positive byte counts.
pub proof fn lemma_expand_step_frame(
    m: Map<u32, i64>,
    tgid: u32,
    mm: ProbeRead<MemDescriptor>,
    npages: u64,
    constants: Seq<u64>,
    rlim: ProbeRead<Seq<u64>>,
)
    ensures
        expand_step(m, tgid, mm, npages, constants, rlim).1.dom() == m.dom(),
        forall|k: u32|
            k != tgid && m.contains_key(k) ==> expand_step(m, tgid, mm, npages, constants, rlim).1[k]
                == m[k],
        m.contains_key(tgid) ==> {
            let v = expand_step(m, tgid, mm, npages, constants, rlim).1[tgid];
            v == m[tgid] || v > 0
        },
{
    let m2 = expand_step(m, tgid, mm, npages, constants, rlim).1;
    if m2 != m {
        assert(m.contains_key(tgid));
        assert(m2.dom() =~= m.dom());
        let d = mm->Ok_0;
        let shift = constants[1];
        let sum = (d.total_vm + npages) as int;
        let p = pow2(shift as nat) as int;
        vstd::arithmetic::power2::lemma_pow2_pos(shift as nat);
        assert(sum * p >= sum * 1) by (nonlinear_arith)
            requires
                sum > 0,
                p >= 1,
        ;
    }
}

/// High-water values recorded for a monitored process group are
/// monotonically non-decreasing across successive exit events, as long as
/// the page counts the kernel reports do not go backwards between the two
/// events and the later byte count does not overflow.
pub proof fn lemma_high_water_monotonic(
    m0: Map<u32, u64>,
    tgid: u32,
    constants: Seq<u64>,
    d1: MemDescriptor,
    d2: MemDescriptor,
)
    requires
        m0.contains_key(tgid),
        constants.len() >= 1,
        constants[0] < 64,
        max_pages(d1) <= max_pages(d2),
        max_pages(d2) * pow2(constants[0] as nat) <= u64::MAX,
    ensures
        ({
            let m1 = exit_step(m0, tgid, constants, Ok(d1)).1;
            let m2 = exit_step(m1, tgid, constants, Ok(d2)).1;
            m1[tgid] <= m2[tgid]
        }),
{
    lemma_exit_step_frame(m0, tgid, constants, Ok(d1));
    crate::pages::lemma_page_bytes_monotonic(max_pages(d1), max_pages(d2), constants[0]);
}

/// Once a violation has been recorded for a process group, no further
/// firing of the expansion-check probe changes its entry: the probe is a
/// no-op whenever the entry no longer equals the sentinel.
pub proof fn lemma_attempted_limit_write_once(
    m: Map<u32, i64>,
    tgid: u32,
    mm: ProbeRead<MemDescriptor>,
    npages: u64,
    constants: Seq<u64>,
    rlim: ProbeRead<Seq<u64>>,
)
    requires
        m.contains_key(tgid),
        m[tgid] != RLIMIT_AS_NOT_HIT,
    ensures
        expand_step(m, tgid, mm, npages, constants, rlim) == (Ok::<u32, i64>(0u32), m),
{
}

/// A request that overflows the 64-bit page count exceeds every
/// representable limit, and its byte count exceeds every recordable entry.
proof fn lemma_sum_over_u64_is_violation(total_vm: u64, npages: u64, limit_pages: u64, page_shift: u64)
    requires
        total_vm + npages > u64::MAX,
        page_shift < 64,
    ensures
        total_vm + npages > limit_pages,
        attempted_bytes(total_vm, npages, page_shift) > i64::MAX,
{
    vstd::arithmetic::power2::lemma_pow2_pos(page_shift as nat);
    let sum = (total_vm + npages) as int;
    let p = pow2(page_shift as nat) as int;
    assert(sum * p >= sum * 1) by (nonlinear_arith)
        requires
            sum > 0,
            p >= 1,
    ;
}

} // verus!
