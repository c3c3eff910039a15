//! The per-program constants table and the attempted-limit sentinel.
//!
//! Each probe program carries a small fixed-size array of runtime
//! constants, written once by the control plane before the program is
//! attached and read-only afterwards.  The expansion-check program has two
//! slots (the resource-limit kind identifier and the page shift); the
//! exit-time program has a single slot (the page shift only).

use vstd::prelude::*;

verus! {

/// Reserved value in the attempted-limit table meaning that the process
/// group has not yet tried to grow past its address-space limit.
pub const RLIMIT_AS_NOT_HIT: i64 = -1;

/// Index of the resource-limit kind identifier in the expansion-check
/// program's constants table.
pub const RLIMIT_KIND_SLOT: usize = 0;

/// Index of the page shift in the expansion-check program's constants
/// table.  In the exit-time program's table the page shift is the only
/// slot, at index zero.
pub const PAGE_SHIFT_SLOT: usize = 1;

/// A fixed-size read-only array of runtime constants, as each probe
/// program sees it after load.
#[derive(Debug)]
pub struct ConstantsArray {
    slots: Vec<u64>,
}

impl View for ConstantsArray {
    type V = Seq<u64>;

    closed spec fn view(&self) -> Seq<u64> {
        self.slots@
    }
}

impl ConstantsArray {
    /// The value a probe obtains when it asks for slot `index`: present
    /// only when the index is within the table.
    pub open spec fn spec_get(&self, index: usize) -> Option<u64> {
        if index < self@.len() {
            Some(self@[index as int])
        } else {
            None
        }
    }

    /// Builds the table from the slot values the control plane writes
    /// before the program is attached.
    pub fn new(slots: Vec<u64>) -> (r: ConstantsArray)
        ensures
            r@ == slots@,
    {
        ConstantsArray { slots }
    }

    /// Reads one slot; `None` when the index is outside the table, which a
    /// probe treats as a missing constant.
    pub fn get(&self, index: usize) -> (r: Option<u64>)
        ensures
            r == self.spec_get(index),
    {
        if index < self.slots.len() {
            Some(self.slots[index])
        } else {
            None
        }
    }
}

} // verus!
