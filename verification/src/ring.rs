//! The fixed-capacity circular buffer at the heart of the demonstration.

use vstd::prelude::*;

verus! {

/// Number of slots in the ring.
pub const BUFFER_SIZE: usize = 25;

/// A fixed-capacity circular buffer with slot-count bookkeeping.
///
/// Occupied slots hold the sentinel `1`, empty slots hold `0`. The occupied
/// region starts at `pop_index` and spans `amount` slots with wrap-around;
/// `push_index` always sits just past it.
pub struct Buffer {
    pub data: Vec<u8>,
    pub amount: usize,
    pub push_index: usize,
    pub pop_index: usize,
}

impl Buffer {
    /// The fixed number of slots, as a mathematical integer.
    pub open spec fn capacity() -> int {
        BUFFER_SIZE as int
    }

    /// Number of occupied slots, as a mathematical integer.
    pub open spec fn count(self) -> int {
        self.amount as int
    }

    /// The slot the next push will claim.
    pub open spec fn write_cursor(self) -> int {
        self.push_index as int
    }

    /// The slot the next pop will clear.
    pub open spec fn read_cursor(self) -> int {
        self.pop_index as int
    }

    /// Whether slot `j` lies inside the occupied region: the region starts at
    /// the read cursor and spans `count` slots, wrapping at the capacity.
    pub open spec fn occupied(self, j: int) -> bool {
        let start = self.read_cursor();
        let n = Self::capacity();
        if start + self.count() <= n {
            start <= j < start + self.count()
        } else {
            start <= j < n || 0 <= j < start + self.count() - n
        }
    }

    /// Ring invariant: the count stays within capacity, both cursors stay in
    /// range, the write cursor sits `count` slots past the read cursor
    /// (mod capacity), and every occupied slot holds the present sentinel `1`
    /// while every empty slot is cleared to `0`.
    pub open spec fn wf(self) -> bool {
        &&& self.data.len() == BUFFER_SIZE
        &&& 0 <= self.count() <= Self::capacity()
        &&& 0 <= self.read_cursor() < Self::capacity()
        &&& 0 <= self.write_cursor() < Self::capacity()
        &&& self.write_cursor() == if self.read_cursor() + self.count() < Self::capacity() {
            self.read_cursor() + self.count()
        } else {
            self.read_cursor() + self.count() - Self::capacity()
        }
        &&& forall|j: int|
            0 <= j < Self::capacity() ==> self.data@[j] == (if self.occupied(j) {
                1u8
            } else {
                0u8
            })
    }

    /// A fresh ring: every slot empty, both cursors at the first slot.
    pub fn new() -> (r: Self)
        ensures
            r.wf(),
            r.count() == 0,
            r.read_cursor() == 0,
            r.write_cursor() == 0,
    {
        Buffer { data: vec![0u8; BUFFER_SIZE], amount: 0, push_index: 0, pop_index: 0 }
    }

    /// Marks up to `amount` additional slots occupied, advancing the write
    /// cursor with wraparound. Stops early the moment the ring is full and
    /// returns the number of slots actually filled: exactly
    /// `min(amount, capacity - count_before)`. Partial fulfillment is the
    /// correct, observable outcome, never an error.
    pub fn push(&mut self, amount: usize) -> (r: usize)
        requires
            old(self).wf(),
        ensures
            final(self).wf(),
            r as int == vstd::math::min(amount as int, Self::capacity() - old(self).count()),
            final(self).count() == old(self).count() + r,
            final(self).read_cursor() == old(self).read_cursor(),
    {
        let mut i: usize = 0;
        while i < amount
            invariant
                self.wf(),
                i <= amount,
                self.count() == old(self).count() + i,
                self.read_cursor() == old(self).read_cursor(),
            decreases amount - i,
        {
            if self.amount >= BUFFER_SIZE {
                return i;
            }
            let ghost s0 = *self;
            let idx = self.push_index;
            self.data[idx] = 1;
            self.push_index = if idx + 1 == BUFFER_SIZE { 0 } else { idx + 1 };
            self.amount = self.amount + 1;
            i = i + 1;
            proof {
                assert(self.data@ == s0.data@.update(idx as int, 1u8));
                assert(!s0.occupied(idx as int));
                assert forall|j: int| 0 <= j < Self::capacity() implies self.data@[j] == (if self
                    .occupied(j) {
                    1u8
                } else {
                    0u8
                }) by {
                    assert(self.occupied(j) <==> s0.occupied(j) || j == idx as int);
                }
            }
        }
        amount
    }

    /// Marks up to `amount` slots empty, advancing the read cursor with
    /// wraparound. Stops early the moment the ring is empty and returns the
    /// number of slots actually cleared: exactly `min(amount, count_before)`.
    pub fn pop(&mut self, amount: usize) -> (r: usize)
        requires
            old(self).wf(),
        ensures
            final(self).wf(),
            r as int == vstd::math::min(amount as int, old(self).count()),
            final(self).count() == old(self).count() - r,
            final(self).write_cursor() == old(self).write_cursor(),
    {
        let mut i: usize = 0;
        while i < amount
            invariant
                self.wf(),
                i <= amount,
                self.count() == old(self).count() - i,
                i <= old(self).count(),
                self.write_cursor() == old(self).write_cursor(),
            decreases amount - i,
        {
            if self.amount == 0 {
                return i;
            }
            let ghost s0 = *self;
            let idx = self.pop_index;
            self.data[idx] = 0;
            self.pop_index = if idx + 1 == BUFFER_SIZE { 0 } else { idx + 1 };
            self.amount = self.amount - 1;
            i = i + 1;
            proof {
                assert(self.data@ == s0.data@.update(idx as int, 0u8));
                assert forall|j: int| 0 <= j < Self::capacity() implies self.data@[j] == (if self
                    .occupied(j) {
                    1u8
                } else {
                    0u8
                }) by {
                    assert(s0.occupied(j) <==> self.occupied(j) || j == idx as int);
                    assert(!self.occupied(idx as int));
                }
            }
        }
        amount
    }

    /// Whether no slot is occupied.
    pub fn is_empty(&self) -> (r: bool)
        ensures
            r == (self.count() == 0),
    {
        self.amount == 0
    }

    /// Whether every slot is occupied.
    pub fn is_full(&self) -> (r: bool)
        requires
            self.wf(),
        ensures
            r == (self.count() == Self::capacity()),
    {
        self.amount == self.data.len()
    }
}

} // verus!
