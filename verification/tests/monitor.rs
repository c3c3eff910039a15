use ebpf_memory_monitor::monitor::decode_attempted;
use ebpf_memory_monitor::monitor::select_attach_strategy;
use ebpf_memory_monitor::AttachStrategy;
use ebpf_memory_monitor::KernelSupport;
use ebpf_memory_monitor::MemDescriptor;
use ebpf_memory_monitor::MemoryMonitor;
use ebpf_memory_monitor::ProcessStatus;
use ebpf_memory_monitor::RLIMIT_AS_NOT_HIT;
use ebpf_memory_monitor::TaskSnapshot;

fn full_support() -> KernelSupport {
    KernelSupport {
        rlimit_fentry: true,
        rlimit_kprobe: true,
        hiwater_fentry: true,
        hiwater_kprobe: true,
    }
}

/// A monitor initialized with the given capacity, a 4 KiB page size and
/// resource-limit kind 9.
fn ready_monitor(capacity: u32) -> MemoryMonitor {
    let mut m = MemoryMonitor::new();
    m.initialize_with_max_listeners(capacity, 4096, 9, &full_support())
        .expect("initialization should succeed");
    m
}

fn task_with(total_vm: u64, hiwater_vm: u64, rlim_cur: u64) -> TaskSnapshot {
    let mut rlim = vec![0u64; 16];
    rlim[9] = rlim_cur;
    TaskSnapshot {
        mm: Ok(MemDescriptor { total_vm, hiwater_vm }),
        rlim: Ok(rlim),
    }
}

#[test]
fn start_then_status_reports_zero_and_none() {
    let mut m = ready_monitor(8);
    m.start_monitoring_process(33);
    assert_eq!(
        m.get_process_status(33),
        Some(ProcessStatus {
            vm_peak_bytes: 0,
            attempted_vm_peak_bytes: None,
        })
    );
}

#[test]
fn stop_then_status_reports_nothing() {
    let mut m = ready_monitor(8);
    m.start_monitoring_process(33);
    m.stop_monitoring_process(33);
    assert_eq!(m.get_process_status(33), None);
}

#[test]
fn status_of_never_started_pid_is_nothing() {
    let m = ready_monitor(8);
    assert_eq!(m.get_process_status(1), None);
}

#[test]
fn exit_event_takes_max_of_total_and_hiwater() {
    let mut m = ready_monitor(8);
    m.start_monitoring_process(5);
    let r = m.handle_exit_event(5, &task_with(100, 80, 0));
    assert_eq!(r, Ok(0));
    let st = m.get_process_status(5).unwrap();
    assert_eq!(st.vm_peak_bytes, 100 << 12);
    assert_eq!(st.attempted_vm_peak_bytes, None);
}

#[test]
fn exit_event_takes_hiwater_when_larger() {
    let mut m = ready_monitor(8);
    m.start_monitoring_process(5);
    let r = m.handle_exit_event(5, &task_with(80, 100, 0));
    assert_eq!(r, Ok(0));
    assert_eq!(m.get_process_status(5).unwrap().vm_peak_bytes, 100 << 12);
}

#[test]
fn exit_events_track_growing_process() {
    let mut m = ready_monitor(8);
    m.start_monitoring_process(5);
    m.handle_exit_event(5, &task_with(50, 40, 0)).unwrap();
    assert_eq!(m.get_process_status(5).unwrap().vm_peak_bytes, 50 << 12);
    m.handle_exit_event(5, &task_with(70, 50, 0)).unwrap();
    assert_eq!(m.get_process_status(5).unwrap().vm_peak_bytes, 70 << 12);
    // The probe overwrites unconditionally with the max of the two kernel
    // counters, so a later event reports whatever the kernel then holds.
    m.handle_exit_event(5, &task_with(60, 65, 0)).unwrap();
    assert_eq!(m.get_process_status(5).unwrap().vm_peak_bytes, 65 << 12);
}

#[test]
fn exit_event_ignores_unmonitored_pid() {
    let mut m = ready_monitor(8);
    m.start_monitoring_process(5);
    let r = m.handle_exit_event(6, &task_with(100, 80, 0));
    assert_eq!(r, Ok(0));
    assert_eq!(m.get_process_status(6), None);
    assert_eq!(m.get_process_status(5).unwrap().vm_peak_bytes, 0);
}

#[test]
fn exit_event_probe_fault_drops_the_event() {
    let mut m = ready_monitor(8);
    m.start_monitoring_process(5);
    let task = TaskSnapshot {
        mm: Err(-14),
        rlim: Ok(vec![0u64; 16]),
    };
    let r = m.handle_exit_event(5, &task);
    assert_eq!(r, Err(-14));
    // The event is dropped; the entry is untouched and later events work.
    assert_eq!(m.get_process_status(5).unwrap().vm_peak_bytes, 0);
    m.handle_exit_event(5, &task_with(10, 0, 0)).unwrap();
    assert_eq!(m.get_process_status(5).unwrap().vm_peak_bytes, 10 << 12);
}

#[test]
fn expand_event_records_attempted_size_exactly_once() {
    let mut m = ready_monitor(8);
    m.start_monitoring_process(5);
    // rlim_cur = 1000 bytes means a zero-page limit at a 4 KiB page size,
    // so any expansion request violates it.
    let task = task_with(100, 0, 1000);
    let mm = Ok(MemDescriptor { total_vm: 100, hiwater_vm: 0 });
    let r = m.handle_expand_event(5, &mm, 3, &task);
    assert_eq!(r, Ok(0));
    assert_eq!(
        m.get_process_status(5).unwrap().attempted_vm_peak_bytes,
        Some(103 << 12)
    );
    // A second violating request leaves the first recorded value alone.
    let mm2 = Ok(MemDescriptor { total_vm: 500, hiwater_vm: 0 });
    let r2 = m.handle_expand_event(5, &mm2, 9, &task);
    assert_eq!(r2, Ok(0));
    assert_eq!(
        m.get_process_status(5).unwrap().attempted_vm_peak_bytes,
        Some(103 << 12)
    );
}

#[test]
fn expand_event_under_limit_records_nothing() {
    let mut m = ready_monitor(8);
    m.start_monitoring_process(5);
    // limit_pages = (1000 << 12) >> 12 = 1000 pages.
    let task = task_with(100, 0, 1000 << 12);
    let mm = Ok(MemDescriptor { total_vm: 100, hiwater_vm: 0 });
    let r = m.handle_expand_event(5, &mm, 900, &task);
    assert_eq!(r, Ok(0));
    assert_eq!(m.get_process_status(5).unwrap().attempted_vm_peak_bytes, None);
    // One page more and the request crosses the limit.
    let r2 = m.handle_expand_event(5, &mm, 901, &task);
    assert_eq!(r2, Ok(0));
    assert_eq!(
        m.get_process_status(5).unwrap().attempted_vm_peak_bytes,
        Some(1001 << 12)
    );
}

#[test]
fn expand_event_ignores_unmonitored_pid() {
    let mut m = ready_monitor(8);
    let task = task_with(100, 0, 0);
    let mm = Ok(MemDescriptor { total_vm: 100, hiwater_vm: 0 });
    let r = m.handle_expand_event(7, &mm, 3, &task);
    assert_eq!(r, Ok(0));
    assert_eq!(m.get_process_status(7), None);
}

#[test]
fn expand_event_probe_faults_drop_the_event() {
    let mut m = ready_monitor(8);
    m.start_monitoring_process(5);
    // The memory descriptor supplied by the kernel event is unreadable.
    let task = task_with(100, 0, 1000);
    let r = m.handle_expand_event(5, &Err(-14), 3, &task);
    assert_eq!(r, Err(-14));
    assert_eq!(m.get_process_status(5).unwrap().attempted_vm_peak_bytes, None);
    // The task's resource-limit table is unreadable.
    let bad_task = TaskSnapshot {
        mm: Ok(MemDescriptor { total_vm: 100, hiwater_vm: 0 }),
        rlim: Err(-14),
    };
    let mm = Ok(MemDescriptor { total_vm: 100, hiwater_vm: 0 });
    let r2 = m.handle_expand_event(5, &mm, 3, &bad_task);
    assert_eq!(r2, Err(-14));
    assert_eq!(m.get_process_status(5).unwrap().attempted_vm_peak_bytes, None);
}

#[test]
fn expand_event_rejects_out_of_range_limit_kind() {
    let mut m = MemoryMonitor::new();
    // Resource-limit kind 20 does not exist in a 16-entry limit table.
    m.initialize_with_max_listeners(8, 4096, 20, &full_support())
        .unwrap();
    m.start_monitoring_process(5);
    let task = task_with(100, 0, 0);
    let mm = Ok(MemDescriptor { total_vm: 100, hiwater_vm: 0 });
    let r = m.handle_expand_event(5, &mm, 3, &task);
    assert_eq!(r, Err(1));
    assert_eq!(m.get_process_status(5).unwrap().attempted_vm_peak_bytes, None);
}

#[test]
fn expand_event_too_large_to_record_is_dropped() {
    let mut m = MemoryMonitor::new();
    // Page size 1: page shift 0, so byte counts equal page counts.
    m.initialize_with_max_listeners(8, 1, 9, &full_support()).unwrap();
    m.start_monitoring_process(5);
    let task = task_with(u64::MAX - 1, 0, 10);
    // The attempted size exceeds what the signed entry can record.
    let mm = Ok(MemDescriptor { total_vm: u64::MAX - 1, hiwater_vm: 0 });
    let r = m.handle_expand_event(5, &mm, 1, &task);
    assert_eq!(r, Err(1));
    assert_eq!(m.get_process_status(5).unwrap().attempted_vm_peak_bytes, None);
    // The requested page count does not even fit the 64-bit sum.
    let r2 = m.handle_expand_event(5, &mm, 5, &task);
    assert_eq!(r2, Err(1));
    assert_eq!(m.get_process_status(5).unwrap().attempted_vm_peak_bytes, None);
}

#[test]
fn restart_resets_both_entries() {
    let mut m = ready_monitor(8);
    m.start_monitoring_process(5);
    m.handle_exit_event(5, &task_with(100, 80, 0)).unwrap();
    let task = task_with(100, 0, 1000);
    let mm = Ok(MemDescriptor { total_vm: 100, hiwater_vm: 0 });
    m.handle_expand_event(5, &mm, 3, &task).unwrap();
    assert_eq!(
        m.get_process_status(5),
        Some(ProcessStatus {
            vm_peak_bytes: 100 << 12,
            attempted_vm_peak_bytes: Some(103 << 12),
        })
    );
    // Stopping and starting afresh begins a new monitoring session.
    m.stop_monitoring_process(5);
    m.start_monitoring_process(5);
    assert_eq!(
        m.get_process_status(5),
        Some(ProcessStatus {
            vm_peak_bytes: 0,
            attempted_vm_peak_bytes: None,
        })
    );
}

#[test]
fn initialize_twice_keeps_the_first_configuration() {
    let mut m = MemoryMonitor::new();
    m.initialize_with_max_listeners(8, 4096, 9, &full_support())
        .unwrap();
    // A second call with a different capacity and page size succeeds and
    // changes nothing.
    let r = m.initialize_with_max_listeners(1000, 65536, 9, &full_support());
    assert_eq!(r, Ok(()));
    // Even one that could not load any probe reports success: nothing is
    // attempted once the system is initialized.
    let no_support = KernelSupport {
        rlimit_fentry: false,
        rlimit_kprobe: false,
        hiwater_fentry: false,
        hiwater_kprobe: false,
    };
    assert_eq!(m.initialize_with_max_listeners(1, 1, 9, &no_support), Ok(()));
    m.start_monitoring_process(5);
    m.handle_exit_event(5, &task_with(1, 0, 0)).unwrap();
    // The page shift is still 12, from the first initialization.
    assert_eq!(m.get_process_status(5).unwrap().vm_peak_bytes, 1 << 12);
}

#[test]
fn initialize_fails_when_a_program_has_no_strategy() {
    let mut m = MemoryMonitor::new();
    let no_rlimit = KernelSupport {
        rlimit_fentry: false,
        rlimit_kprobe: false,
        hiwater_fentry: true,
        hiwater_kprobe: true,
    };
    assert_eq!(
        m.initialize_with_max_listeners(8, 4096, 9, &no_rlimit),
        Err(ebpf_memory_monitor::InitError::ProbeLoadFailed)
    );
    let no_hiwater = KernelSupport {
        rlimit_fentry: true,
        rlimit_kprobe: false,
        hiwater_fentry: false,
        hiwater_kprobe: false,
    };
    assert_eq!(
        m.initialize_with_max_listeners(8, 4096, 9, &no_hiwater),
        Err(ebpf_memory_monitor::InitError::ProbeLoadFailed)
    );
    // A failed initialization retains no partial state: a later call with
    // working strategies succeeds.
    assert_eq!(
        m.initialize_with_max_listeners(8, 4096, 9, &full_support()),
        Ok(())
    );
    m.start_monitoring_process(5);
    assert!(m.get_process_status(5).is_some());
}

#[test]
fn fallback_prefers_fentry_over_kprobe() {
    assert_eq!(select_attach_strategy(true, true), Some(AttachStrategy::Fentry));
    assert_eq!(select_attach_strategy(true, false), Some(AttachStrategy::Fentry));
    assert_eq!(select_attach_strategy(false, true), Some(AttachStrategy::Kprobe));
    assert_eq!(select_attach_strategy(false, false), None);
}

#[test]
fn decode_attempted_distinguishes_sentinel() {
    assert_eq!(decode_attempted(RLIMIT_AS_NOT_HIT), None);
    assert_eq!(decode_attempted(0), Some(0));
    assert_eq!(decode_attempted(421888), Some(421888));
}
