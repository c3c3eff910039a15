//! A model of the kernel-resident result tables.
//!
//! Each result table is a key-value table keyed by process-group id, sized
//! once before the probe programs are loaded and shared between the probes
//! and the control plane.  Per-key get, insert and remove are atomic at the
//! single-operation level; inserting a new key fails once the table holds
//! as many entries as its fixed capacity, and removing an absent key fails.

use vstd::prelude::*;
use vstd::hash_map::HashMapWithView;

verus! {

broadcast use vstd::std_specs::hash::axiom_u32_obeys_hash_table_key_model,
    vstd::hash_map::axiom_hash_map_with_view_spec_len;

/// Error code reported when an insert would grow the table past its
/// capacity, mirroring the argument-list-too-long code the kernel table
/// returns.
pub const TABLE_FULL: i64 = -7;

/// Error code reported when a removed key is not in the table, mirroring
/// the no-such-entry code the kernel table returns.
pub const NO_SUCH_ENTRY: i64 = -2;

/// A result table of fixed capacity, keyed by process-group id.
#[verifier::reject_recursive_types(V)]
pub struct BoundedTable<V> {
    map: HashMapWithView<u32, V>,
    capacity: u32,
}

impl<V> BoundedTable<V> {
    /// The entries the table currently holds.
    pub closed spec fn contents(&self) -> Map<u32, V> {
        self.map@
    }

    /// The number of entries the table can hold at once, fixed when it is
    /// created.
    pub closed spec fn cap(&self) -> u32 {
        self.capacity
    }

    /// The table never holds more entries than its capacity.
    pub open spec fn wf(&self) -> bool {
        &&& self.contents().dom().finite()
        &&& self.contents().len() <= self.cap()
    }

    /// Creates an empty table that can hold `capacity` entries.
    pub fn new(capacity: u32) -> (r: BoundedTable<V>)
        ensures
            r.wf(),
            r.contents() == Map::<u32, V>::empty(),
            r.cap() == capacity,
    {
        BoundedTable { map: HashMapWithView::new(), capacity }
    }

    /// The number of entries currently in the table.
    pub fn len(&self) -> (r: usize)
        requires
            self.wf(),
        ensures
            r == self.contents().len(),
    {
        self.map.len()
    }

    /// Looks the key up; `None` when it is not in the table.
    pub fn get(&self, key: u32) -> (r: Option<V>) where V: Copy
        ensures
            r == (if self.contents().contains_key(key) {
                Some(self.contents()[key])
            } else {
                None::<V>
            }),
    {
        match self.map.get(&key) {
            Some(v) => Some(*v),
            None => None,
        }
    }

    /// Inserts or overwrites the entry for `key`.  Fails, leaving the
    /// table unchanged, only when `key` is new and the table is full.
    pub fn insert(&mut self, key: u32, value: V) -> (r: Result<(), i64>)
        requires
            old(self).wf(),
        ensures
            final(self).wf(),
            final(self).cap() == old(self).cap(),
            match r {
                Ok(()) => {
                    &&& old(self).contents().contains_key(key) || old(self).contents().len() < old(
                        self,
                    ).cap()
                    &&& final(self).contents() == old(self).contents().insert(key, value)
                },
                Err(e) => {
                    &&& e == TABLE_FULL
                    &&& !old(self).contents().contains_key(key)
                    &&& old(self).contents().len() == old(self).cap()
                    &&& final(self).contents() == old(self).contents()
                },
            },
    {
        if self.map.contains_key(&key) || self.map.len() < self.capacity as usize {
            self.map.insert(key, value);
            Ok(())
        } else {
            Err(TABLE_FULL)
        }
    }

    /// Removes the entry for `key`.  Fails, leaving the table unchanged,
    /// when the key is not in the table.
    pub fn remove(&mut self, key: u32) -> (r: Result<(), i64>)
        requires
            old(self).wf(),
        ensures
            final(self).wf(),
            final(self).cap() == old(self).cap(),
            match r {
                Ok(()) => {
                    &&& old(self).contents().contains_key(key)
                    &&& final(self).contents() == old(self).contents().remove(key)
                },
                Err(e) => {
                    &&& e == NO_SUCH_ENTRY
                    &&& !old(self).contents().contains_key(key)
                    &&& final(self).contents() == old(self).contents()
                },
            },
    {
        match self.map.remove(&key) {
            Some(_) => Ok(()),
            None => Err(NO_SUCH_ENTRY),
        }
    }
}

} // verus!
