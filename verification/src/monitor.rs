//! The user-space control plane.
//!
//! A [`MemoryMonitor`] is the explicit context object holding everything
//! the control plane owns after a successful initialization: the chosen
//! attachment strategy for each probe program, the constants written
//! before the programs were attached, and the two result tables.  Per
//! process group the monitor is a two-state machine: unmonitored, then
//! monitored after `start_monitoring_process`, then unmonitored again
//! after `stop_monitoring_process`; the kernel probes act on a process
//! group only while it is monitored.

use vstd::prelude::*;
use vstd::arithmetic::power2::pow2;
use crate::constants::{ConstantsArray, RLIMIT_AS_NOT_HIT};
use crate::kmem::{max_pages, MemDescriptor, ProbeRead, TaskSnapshot};
use crate::pages::{log2, page_shift_of};
use crate::probe::{exit_step, expand_step, try_on_do_exit, try_on_may_expand_vm};
use crate::table::BoundedTable;

verus! {

/// The kernel attachment mechanism chosen for one probe program.
#[derive(Clone, Copy, Debug, PartialEq, Eq, Structural)]
pub enum AttachStrategy {
    /// Trampoline-style attachment just before the kernel function runs:
    /// lower overhead, but needs kernel build-time metadata.
    Fentry,
    /// Classic instruction-patch attachment on the same function: higher
    /// overhead, universally supported.
    Kprobe,
}

/// Which attachment strategies the running kernel accepted when each
/// probe program's load was attempted.
#[derive(Clone, Copy, Debug, PartialEq, Eq, Structural)]
pub struct KernelSupport {
    /// The expansion-check program loaded and attached trampoline-style.
    pub rlimit_fentry: bool,
    /// The expansion-check program loaded and attached as an
    /// instruction-patch probe.
    pub rlimit_kprobe: bool,
    /// The exit-time program loaded and attached trampoline-style.
    pub hiwater_fentry: bool,
    /// The exit-time program loaded and attached as an instruction-patch
    /// probe.
    pub hiwater_kprobe: bool,
}

/// The single failure initialization can report: a probe program could not
/// be loaded by either attachment strategy.
#[derive(Clone, Copy, Debug, PartialEq, Eq, Structural)]
pub enum InitError {
    ProbeLoadFailed,
}

/// What `get_process_status` reports for one monitored process group.
#[derive(Clone, Copy, Debug, PartialEq, Eq)]
pub struct ProcessStatus {
    /// High-water mark of virtual memory ever observed for the process
    /// group, in bytes.
    pub vm_peak_bytes: u64,
    /// Size of the first attempted expansion past the address-space
    /// limit, in bytes; `None` while no violation has been observed.
    pub attempted_vm_peak_bytes: Option<u64>,
}

/// The strategy the control plane settles on for one probe program: the
/// low-overhead trampoline attachment when the kernel supports it, the
/// classic instruction-patch attachment otherwise, nothing when both
/// fail.
pub open spec fn preferred_strategy(fentry_ok: bool, kprobe_ok: bool) -> Option<AttachStrategy> {
    if fentry_ok {
        Some(AttachStrategy::Fentry)
    } else if kprobe_ok {
        Some(AttachStrategy::Kprobe)
    } else {
        None
    }
}

/// Picks the attachment strategy for one probe program, preferring the
/// low-overhead trampoline attachment and falling back to the classic
/// instruction-patch attachment.
pub fn select_attach_strategy(fentry_ok: bool, kprobe_ok: bool) -> (r: Option<AttachStrategy>)
    ensures
        r == preferred_strategy(fentry_ok, kprobe_ok),
{
    if fentry_ok {
        Some(AttachStrategy::Fentry)
    } else if kprobe_ok {
        Some(AttachStrategy::Kprobe)
    } else {
        None
    }
}

/// The inner option of a status entry: `None` exactly when the raw
/// attempted-limit entry still equals the sentinel.
pub open spec fn spec_decode_attempted(raw: i64) -> Option<u64> {
    if raw == RLIMIT_AS_NOT_HIT {
        None
    } else {
        Some(raw as u64)
    }
}

/// Decodes a raw attempted-limit entry into the byte count the host agent
/// sees, `None` while the entry still equals the sentinel.
pub fn decode_attempted(raw: i64) -> (r: Option<u64>)
    requires
        raw == RLIMIT_AS_NOT_HIT || raw >= 0,
    ensures
        r == spec_decode_attempted(raw),
{
    if raw == RLIMIT_AS_NOT_HIT {
        None
    } else {
        Some(raw as u64)
    }
}

/// What `get_process_status` returns over the two result tables: nothing
/// for an unmonitored process group, otherwise the high-water byte count
/// and the decoded attempted-limit entry.
pub open spec fn status_of(vm: Map<u32, u64>, att: Map<u32, i64>, pid: u32) -> Option<
    ProcessStatus,
> {
    if att.contains_key(pid) && vm.contains_key(pid) {
        Some(
            (ProcessStatus {
                vm_peak_bytes: vm[pid],
                attempted_vm_peak_bytes: spec_decode_attempted(att[pid]),
            }),
        )
    } else {
        None
    }
}

struct MonitorState {
    capacity: u32,
    rlimit_strategy: AttachStrategy,
    hiwater_strategy: AttachStrategy,
    rlimit_constants: ConstantsArray,
    hiwater_constants: ConstantsArray,
    attempted_vm_peak: BoundedTable<i64>,
    vm_peak: BoundedTable<u64>,
}

/// The control plane's context object, created uninitialized and
/// initialized exactly once.
pub struct MemoryMonitor {
    state: Option<MonitorState>,
}

impl MemoryMonitor {
    /// Whether `initialize_with_max_listeners` has succeeded.
    pub closed spec fn is_initialized(&self) -> bool {
        self.state is Some
    }

    /// The maximum number of concurrently tracked process groups, fixed
    /// at initialization time.
    pub closed spec fn capacity(&self) -> u32 {
        self.state->Some_0.capacity
    }

    /// The page shift written to the constants tables at initialization
    /// time.
    pub closed spec fn page_shift(&self) -> u64 {
        self.state->Some_0.hiwater_constants@[0]
    }

    /// The resource-limit kind identifier written to the expansion-check
    /// program's constants table at initialization time.
    pub closed spec fn rlimit_kind(&self) -> u64 {
        self.state->Some_0.rlimit_constants@[0]
    }

    /// The attachment strategy chosen for the expansion-check program.
    pub closed spec fn rlimit_strategy(&self) -> AttachStrategy {
        self.state->Some_0.rlimit_strategy
    }

    /// The attachment strategy chosen for the exit-time program.
    pub closed spec fn hiwater_strategy(&self) -> AttachStrategy {
        self.state->Some_0.hiwater_strategy
    }

    /// The high-water table: process-group id to observed high-water byte
    /// count.
    pub closed spec fn vm_peak(&self) -> Map<u32, u64> {
        self.state->Some_0.vm_peak.contents()
    }

    /// The attempted-limit table: process-group id to observed-violation
    /// byte count, with the sentinel meaning no violation yet.
    pub closed spec fn attempted(&self) -> Map<u32, i64> {
        self.state->Some_0.attempted_vm_peak.contents()
    }

    /// Whether `pid` is currently monitored.
    pub open spec fn is_monitored(&self, pid: u32) -> bool {
        self.vm_peak().contains_key(pid)
    }

    /// How many process groups are currently monitored.
    pub open spec fn monitored_count(&self) -> nat {
        self.vm_peak().len()
    }

    /// The internal invariant: both tables share one capacity and one key
    /// set, the constants tables hold a usable page shift, and every
    /// attempted-limit entry is the sentinel or a recorded positive byte
    /// count.
    pub closed spec fn inv(&self) -> bool {
        match self.state {
            None => true,
            Some(st) => {
                &&& st.vm_peak.wf()
                &&& st.attempted_vm_peak.wf()
                &&& st.vm_peak.cap() == st.capacity
                &&& st.attempted_vm_peak.cap() == st.capacity
                &&& st.vm_peak.contents().dom() == st.attempted_vm_peak.contents().dom()
                &&& st.hiwater_constants@.len() == 1
                &&& st.rlimit_constants@.len() == 2
                &&& st.rlimit_constants@[1] == st.hiwater_constants@[0]
                &&& st.hiwater_constants@[0] < 64
                &&& forall|k: u32|
                    st.attempted_vm_peak.contents().contains_key(k)
                        ==> st.attempted_vm_peak.contents()[k] == RLIMIT_AS_NOT_HIT
                        || st.attempted_vm_peak.contents()[k] > 0
            },
        }
    }

    /// The configuration fixed at initialization time is the same in both
    /// monitors.
    pub open spec fn same_setup(&self, other: &MemoryMonitor) -> bool {
        &&& self.is_initialized() == other.is_initialized()
        &&& self.capacity() == other.capacity()
        &&& self.page_shift() == other.page_shift()
        &&& self.rlimit_kind() == other.rlimit_kind()
        &&& self.rlimit_strategy() == other.rlimit_strategy()
        &&& self.hiwater_strategy() == other.hiwater_strategy()
    }

    /// Creates the context object in its uninitialized state.
    pub fn new() -> (r: MemoryMonitor)
        ensures
            r.inv(),
            !r.is_initialized(),
    {
        MemoryMonitor { state: None }
    }

    /// One-time, process-wide initialization.
    ///
    /// Sizes both result tables to `max_listeners`, writes the constants
    /// (the resource-limit kind identifier and the page shift computed
    /// from `page_size`) before any probe is attached, and chooses an
    /// attachment strategy per probe program, preferring the trampoline
    /// attachment and falling back to the instruction-patch one.  Fails,
    /// retaining no partial state, when either program is left without a
    /// working strategy.  Idempotent: once initialization has succeeded,
    /// every later call changes nothing and reports success.
    pub fn initialize_with_max_listeners(
        &mut self,
        max_listeners: u32,
        page_size: u64,
        rlimit_kind: u64,
        support: &KernelSupport,
    ) -> (r: Result<(), InitError>)
        requires
            old(self).inv(),
            page_size >= 1,
        ensures
            final(self).inv(),
            old(self).is_initialized() ==> r == Ok::<(), InitError>(()) && *final(self) == *old(
                self,
            ),
            !old(self).is_initialized() ==> match r {
                Ok(()) => {
                    &&& preferred_strategy(support.rlimit_fentry, support.rlimit_kprobe) is Some
                    &&& preferred_strategy(support.hiwater_fentry, support.hiwater_kprobe) is Some
                    &&& final(self).is_initialized()
                    &&& final(self).capacity() == max_listeners
                    &&& final(self).page_shift() == log2(page_size as nat)
                    &&& final(self).rlimit_kind() == rlimit_kind
                    &&& final(self).rlimit_strategy() == preferred_strategy(
                        support.rlimit_fentry,
                        support.rlimit_kprobe,
                    )->Some_0
                    &&& final(self).hiwater_strategy() == preferred_strategy(
                        support.hiwater_fentry,
                        support.hiwater_kprobe,
                    )->Some_0
                    &&& final(self).vm_peak() == Map::<u32, u64>::empty()
                    &&& final(self).attempted() == Map::<u32, i64>::empty()
                },
                Err(e) => {
                    &&& e == InitError::ProbeLoadFailed
                    &&& preferred_strategy(support.rlimit_fentry, support.rlimit_kprobe) is None
                        || preferred_strategy(support.hiwater_fentry, support.hiwater_kprobe) is None
                    &&& !final(self).is_initialized()
                    &&& *final(self) == *old(self)
                },
            },
    {
        if self.state.is_some() {
            return Ok(());
        }
        let rlimit_strategy = match select_attach_strategy(
            support.rlimit_fentry,
            support.rlimit_kprobe,
        ) {
            Some(s) => s,
            None => {
                return Err(InitError::ProbeLoadFailed);
            },
        };
        let hiwater_strategy = match select_attach_strategy(
            support.hiwater_fentry,
            support.hiwater_kprobe,
        ) {
            Some(s) => s,
            None => {
                return Err(InitError::ProbeLoadFailed);
            },
        };
        let page_shift = page_shift_of(page_size);
        let mut rlimit_slots: Vec<u64> = Vec::new();
        rlimit_slots.push(rlimit_kind);
        rlimit_slots.push(page_shift);
        let mut hiwater_slots: Vec<u64> = Vec::new();
        hiwater_slots.push(page_shift);
        self.state = Some(
            MonitorState {
                capacity: max_listeners,
                rlimit_strategy,
                hiwater_strategy,
                rlimit_constants: ConstantsArray::new(rlimit_slots),
                hiwater_constants: ConstantsArray::new(hiwater_slots),
                attempted_vm_peak: BoundedTable::new(max_listeners),
                vm_peak: BoundedTable::new(max_listeners),
            },
        );
        Ok(())
    }

    /// Starts monitoring `pid`: inserts a sentinel attempted-limit entry
    /// and a zero high-water entry.
    ///
    /// May only be called after a successful initialization, and only
    /// while a table slot is free or `pid` is already monitored:
    /// breaking either is a caller-side programming error, not a runtime
    /// condition.
    pub fn start_monitoring_process(&mut self, pid: u32)
        requires
            old(self).inv(),
            old(self).is_initialized(),
            old(self).is_monitored(pid) || old(self).monitored_count() < old(self).capacity(),
        ensures
            final(self).inv(),
            old(self).same_setup(final(self)),
            final(self).vm_peak() == old(self).vm_peak().insert(pid, 0u64),
            final(self).attempted() == old(self).attempted().insert(pid, RLIMIT_AS_NOT_HIT),
    {
        if let Some(st) = &mut self.state {
            let r1 = st.attempted_vm_peak.insert(pid, RLIMIT_AS_NOT_HIT);
            proof {
                assert(r1 is Ok);
            }
            let r2 = st.vm_peak.insert(pid, 0);
            proof {
                assert(r2 is Ok);
                assert(st.vm_peak.contents().dom() =~= st.attempted_vm_peak.contents().dom());
            }
        } else {
            proof {
                assert(false);
            }
        }
    }

    /// Stops monitoring `pid`: removes both of its entries.
    ///
    /// May only be called after a successful initialization and for a
    /// monitored `pid`: breaking either is a caller-side programming
    /// error, not a runtime condition.
    pub fn stop_monitoring_process(&mut self, pid: u32)
        requires
            old(self).inv(),
            old(self).is_initialized(),
            old(self).is_monitored(pid),
        ensures
            final(self).inv(),
            old(self).same_setup(final(self)),
            final(self).vm_peak() == old(self).vm_peak().remove(pid),
            final(self).attempted() == old(self).attempted().remove(pid),
    {
        if let Some(st) = &mut self.state {
            let r1 = st.attempted_vm_peak.remove(pid);
            proof {
                assert(r1 is Ok);
            }
            let r2 = st.vm_peak.remove(pid);
            proof {
                assert(r2 is Ok);
                assert(st.vm_peak.contents().dom() =~= st.attempted_vm_peak.contents().dom());
            }
        } else {
            proof {
                assert(false);
            }
        }
    }

    /// Reports the status of `pid`: nothing while it is not monitored,
    /// otherwise its high-water byte count and, once a violation has been
    /// recorded, the attempted byte count.
    ///
    /// May only be called after a successful initialization: calling it
    /// earlier is a caller-side programming error, not a runtime
    /// condition.
    pub fn get_process_status(&self, pid: u32) -> (r: Option<ProcessStatus>)
        requires
            self.inv(),
            self.is_initialized(),
        ensures
            r == status_of(self.vm_peak(), self.attempted(), pid),
    {
        if let Some(st) = &self.state {
            let raw = match st.attempted_vm_peak.get(pid) {
                Some(raw) => raw,
                None => {
                    return None;
                },
            };
            let vm = match st.vm_peak.get(pid) {
                Some(vm) => vm,
                None => {
                    return None;
                },
            };
            Some(
                ProcessStatus {
                    vm_peak_bytes: vm,
                    attempted_vm_peak_bytes: decode_attempted(raw),
                },
            )
        } else {
            proof {
                assert(false);
            }
            None
        }
    }

    /// Applies one firing of the exit-time probe to the high-water table,
    /// exactly as the kernel would when the process group `tgid` exits
    /// with the probed task state `task`.
    pub fn handle_exit_event(&mut self, tgid: u32, task: &TaskSnapshot) -> (r: Result<u32, i64>)
        requires
            old(self).inv(),
            old(self).is_initialized(),
        ensures
            final(self).inv(),
            old(self).same_setup(final(self)),
            final(self).attempted() == old(self).attempted(),
            (r, final(self).vm_peak()) == exit_step(
                old(self).vm_peak(),
                tgid,
                seq![old(self).page_shift()],
                task.mm,
            ),
    {
        if let Some(st) = &mut self.state {
            proof {
                assert(st.hiwater_constants@ =~= seq![st.hiwater_constants@[0]]);
            }
            let r = try_on_do_exit(tgid, &mut st.vm_peak, &st.hiwater_constants, task);
            proof {
                crate::probe::lemma_exit_step_frame(
                    old(self).vm_peak(),
                    tgid,
                    st.hiwater_constants@,
                    task.mm,
                );
            }
            r
        } else {
            proof {
                assert(false);
            }
            Ok(0)
        }
    }

    /// Applies one firing of the expansion-check probe to the
    /// attempted-limit table, exactly as the kernel would when it decides
    /// whether to let the process group `tgid` grow its address space by
    /// `npages` pages, with `mm` the probed read of the memory descriptor
    /// the kernel event supplied and `task` the probed task state.
    pub fn handle_expand_event(
        &mut self,
        tgid: u32,
        mm: &ProbeRead<MemDescriptor>,
        npages: u64,
        task: &TaskSnapshot,
    ) -> (r: Result<u32, i64>)
        requires
            old(self).inv(),
            old(self).is_initialized(),
        ensures
            final(self).inv(),
            old(self).same_setup(final(self)),
            final(self).vm_peak() == old(self).vm_peak(),
            (r, final(self).attempted()) == expand_step(
                old(self).attempted(),
                tgid,
                *mm,
                npages,
                seq![old(self).rlimit_kind(), old(self).page_shift()],
                match task.rlim {
                    Ok(ref v) => Ok(v@),
                    Err(e) => Err(e),
                },
            ),
    {
        if let Some(st) = &mut self.state {
            proof {
                assert(st.rlimit_constants@ =~= seq![
                    st.rlimit_constants@[0],
                    st.rlimit_constants@[1],
                ]);
            }
            let r = try_on_may_expand_vm(
                mm,
                npages,
                tgid,
                &mut st.attempted_vm_peak,
                &st.rlimit_constants,
                task,
            );
            proof {
                crate::probe::lemma_expand_step_frame(
                    old(self).attempted(),
                    tgid,
                    *mm,
                    npages,
                    st.rlimit_constants@,
                    match task.rlim {
                        Ok(ref v) => Ok(v@),
                        Err(e) => Err(e),
                    },
                );
            }
            r
        } else {
            proof {
                assert(false);
            }
            Ok(0)
        }
    }
}

/// In every reachable monitor state, a process group has a high-water
/// entry exactly when it has an attempted-limit entry, and every
/// attempted-limit entry is the sentinel or a recorded positive byte
/// count.
pub proof fn lemma_monitor_tables_agree(m: &MemoryMonitor)
    requires
        m.inv(),
        m.is_initialized(),
    ensures
        m.vm_peak().dom() == m.attempted().dom(),
        forall|k: u32|
            m.attempted().contains_key(k) ==> m.attempted()[k] == RLIMIT_AS_NOT_HIT
                || m.attempted()[k] > 0,
{
}

/// Starting to monitor a process group and immediately asking for its
/// status reports a zero high-water mark and no attempted violation.
pub proof fn lemma_start_then_status(vm: Map<u32, u64>, att: Map<u32, i64>, pid: u32)
    ensures
        status_of(vm.insert(pid, 0u64), att.insert(pid, RLIMIT_AS_NOT_HIT), pid) == Some(
            (ProcessStatus { vm_peak_bytes: 0u64, attempted_vm_peak_bytes: None }),
        ),
{
}

/// After a process group stops being monitored, asking for its status
/// reports nothing.
pub proof fn lemma_stop_then_status(vm: Map<u32, u64>, att: Map<u32, i64>, pid: u32)
    ensures
        status_of(vm.remove(pid), att.remove(pid), pid) is None,
{
}

/// The high-water byte count the status reports for a monitored process
/// group is monotonically non-decreasing across successive exit events,
/// as long as the page counts the kernel reports do not go backwards
/// between the two events — the documented read-modify-write race is the
/// one way they can — and the later byte count does not overflow.
pub proof fn lemma_status_high_water_monotonic(
    vm0: Map<u32, u64>,
    att: Map<u32, i64>,
    pid: u32,
    page_shift: u64,
    d1: MemDescriptor,
    d2: MemDescriptor,
)
    requires
        vm0.contains_key(pid),
        att.contains_key(pid),
        page_shift < 64,
        max_pages(d1) <= max_pages(d2),
        max_pages(d2) * pow2(page_shift as nat) <= u64::MAX,
    ensures
        ({
            let vm1 = exit_step(vm0, pid, seq![page_shift], Ok(d1)).1;
            let vm2 = exit_step(vm1, pid, seq![page_shift], Ok(d2)).1;
            &&& status_of(vm1, att, pid) is Some
            &&& status_of(vm2, att, pid) is Some
            &&& status_of(vm1, att, pid)->Some_0.vm_peak_bytes <= status_of(
                vm2,
                att,
                pid,
            )->Some_0.vm_peak_bytes
        }),
{
    let constants = seq![page_shift];
    crate::probe::lemma_high_water_monotonic(vm0, pid, constants, d1, d2);
    crate::probe::lemma_exit_step_frame(vm0, pid, constants, Ok(d1));
    let vm1 = exit_step(vm0, pid, constants, Ok(d1)).1;
    crate::probe::lemma_exit_step_frame(vm1, pid, constants, Ok(d2));
}

/// Once the status reports an attempted-limit byte count for a monitored
/// process group, it reports that same count after any further expansion
/// request, until the process group stops being monitored: the entry is
/// written at most once per monitoring session.
pub proof fn lemma_status_attempted_stable(
    vm: Map<u32, u64>,
    att: Map<u32, i64>,
    pid: u32,
    mm: ProbeRead<MemDescriptor>,
    npages: u64,
    constants: Seq<u64>,
    rlim: ProbeRead<Seq<u64>>,
)
    requires
        att.contains_key(pid),
        status_of(vm, att, pid) matches Some(st) && st.attempted_vm_peak_bytes is Some,
    ensures
        status_of(vm, expand_step(att, pid, mm, npages, constants, rlim).1, pid) == status_of(
            vm,
            att,
            pid,
        ),
{
    crate::probe::lemma_attempted_limit_write_once(att, pid, mm, npages, constants, rlim);
}

} // verus!
