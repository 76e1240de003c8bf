//! A bounded trajectory history: a fixed-capacity, chronologically ordered
//! record of recent snapshots, used for trail rendering.
//!
//! Entries are appended once per simulation step; once the capacity is
//! reached, the oldest entry is evicted first, so the buffer is a sliding
//! window over the most recent snapshots, oldest first.

use vstd::prelude::*;

verus! {

/// Number of snapshots the simulation drivers keep for their trails.
pub const HISTORY_CAPACITY: usize = 125;

/// A fixed-capacity first-in-first-out record of snapshots.
pub struct History<T> {
    entries: Vec<T>,
    capacity: usize,
}

impl<T> View for History<T> {
    type V = Seq<T>;

    closed spec fn view(&self) -> Seq<T> {
        self.entries@
    }
}

impl<T> History<T> {
    /// The fixed capacity the buffer was created with.
    pub closed spec fn cap(&self) -> nat {
        self.capacity as nat
    }

    /// The buffer never holds more entries than its capacity.
    pub open spec fn wf(&self) -> bool {
        self@.len() <= self.cap() && 1 <= self.cap()
    }

    /// An empty buffer of the given capacity.
    pub fn new(capacity: usize) -> (r: Self)
        requires
            capacity >= 1,
        ensures
            r.wf(),
            r@ == Seq::<T>::empty(),
            r.cap() == capacity,
    {
        Self { entries: Vec::new(), capacity }
    }

    /// The capacity, as a runtime value.
    pub fn capacity(&self) -> (c: usize)
        ensures
            c == self.cap(),
    {
        self.capacity
    }

    /// How many snapshots are currently recorded.
    pub fn len(&self) -> (l: usize)
        ensures
            l == self@.len(),
    {
        self.entries.len()
    }

    /// The snapshot at a position, oldest first.
    pub fn get(&self, i: usize) -> (r: &T)
        requires
            i < self@.len(),
        ensures
            *r == self@[i as int],
    {
        &self.entries[i]
    }

    /// Appends a snapshot; if the buffer is full, the oldest entry is
    /// evicted first. Afterwards the length never exceeds the capacity,
    /// chronological order is preserved, and the last entry is the snapshot
    /// just recorded.
    pub fn record(&mut self, snap: T)
        requires
            old(self).wf(),
        ensures
            final(self).wf(),
            final(self).cap() == old(self).cap(),
            final(self)@ == (if old(self)@.len() < old(self).cap() {
                old(self)@.push(snap)
            } else {
                old(self)@.subrange(1, old(self)@.len() as int).push(snap)
            }),
            final(self)@.len() <= final(self).cap(),
            final(self)@.last() == snap,
    {
        if self.entries.len() == self.capacity {
            self.entries.remove(0);
            proof {
                assert(self.entries@ =~= old(self).entries@.subrange(
                    1,
                    old(self).entries@.len() as int,
                ));
            }
        }
        self.entries.push(snap);
    }
}

} // verus!
