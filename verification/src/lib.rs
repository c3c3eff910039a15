//! A verified model of a kernel-resident process memory-usage monitor.
//!
//! For a set of watched process groups the system tracks the high-water mark
//! of virtual memory ever mapped by each process and records the first
//! attempt by a process to grow its virtual memory beyond its configured
//! address-space resource limit.
//!
//! The monitor consists of two kernel probes (an exit-time high-water tracker
//! and an expansion-time limit-violation tracker) and a user-space control
//! plane that owns the shared result tables.  The probes run as kernel
//! bytecode, where every memory access is a fallible probed read; this crate
//! states and verifies their logic over plain values: kernel-structure fields
//! appear as snapshot types and every probed read appears as a `Result`.

pub mod constants;
pub mod kmem;
pub mod monitor;
pub mod pages;
pub mod probe;
pub mod table;

pub use constants::RLIMIT_AS_NOT_HIT;
pub use kmem::MemDescriptor;
pub use kmem::ProbeRead;
pub use kmem::TaskSnapshot;
pub use monitor::AttachStrategy;
pub use monitor::InitError;
pub use monitor::KernelSupport;
pub use monitor::MemoryMonitor;
pub use monitor::ProcessStatus;
