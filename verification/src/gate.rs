//! The combined exclusivity mechanism guarding the ring.
//!
//! An [`AccessGate`] pairs a mutual-exclusion lock with a counting permit of
//! capacity one; the permit is architecturally vestigial — the lock alone
//! enforces exclusivity — but both are attempted together, and both must
//! succeed non-blockingly or neither is used.

use vstd::prelude::*;

use crate::ring::Buffer;

verus! {

/// Capacity of the counting permit that accompanies the lock.
pub const PERMIT_CAPACITY: usize = 1;

/// The try-acquire protocol around the ring: a holder gains exclusive access
/// by taking the permit and the lock together; every access to the ring
/// demands that it is currently held.
pub struct AccessGate {
    pub ring: Buffer,
    pub permits: usize,
    pub locked: bool,
}

impl AccessGate {
    /// Gate invariant: the permit count never exceeds its capacity, the
    /// permit is out exactly while the lock is held, and the guarded ring is
    /// well formed.
    pub open spec fn wf(self) -> bool {
        &&& self.permits <= PERMIT_CAPACITY
        &&& self.locked <==> self.permits == 0
        &&& self.ring.wf()
    }

    /// Whether a try-acquire issued in this state would succeed: the permit
    /// and the lock must both be available.
    pub open spec fn acquire_would_succeed(self) -> bool {
        !self.locked && self.permits >= 1
    }

    /// A fresh gate around the given ring: unheld, permit available.
    pub fn new(ring: Buffer) -> (r: Self)
        requires
            ring.wf(),
        ensures
            r.wf(),
            !r.locked,
            r.ring == ring,
    {
        AccessGate { ring, permits: PERMIT_CAPACITY, locked: false }
    }

    /// A strictly non-blocking attempt to obtain both the permit and the
    /// lock in the same call. Success requires both; if either is
    /// unavailable the call fails without side effects — no partial
    /// acquisition is retained — and the caller treats the failure as
    /// "buffer busy, retry later".
    pub fn try_acquire(&mut self) -> (r: bool)
        requires
            old(self).wf(),
        ensures
            final(self).wf(),
            r == old(self).acquire_would_succeed(),
            r ==> final(self).locked && final(self).permits == 0,
            !r ==> *final(self) == *old(self),
            final(self).ring == old(self).ring,
    {
        if self.permits >= 1 && !self.locked {
            self.permits = self.permits - 1;
            self.locked = true;
            true
        } else {
            false
        }
    }

    /// Releases both: the permit returns and the lock opens. Required on
    /// every exit path of a holder's critical section.
    pub fn release(&mut self)
        requires
            old(self).wf(),
            old(self).locked,
        ensures
            final(self).wf(),
            !final(self).locked,
            final(self).acquire_would_succeed(),
            final(self).ring == old(self).ring,
    {
        self.permits = PERMIT_CAPACITY;
        self.locked = false;
    }

    /// Pushes into the guarded ring; only the current holder may touch it.
    pub fn push(&mut self, amount: usize) -> (r: usize)
        requires
            old(self).wf(),
            old(self).locked,
        ensures
            final(self).wf(),
            final(self).locked,
            r as int == vstd::math::min(amount as int, Buffer::capacity() - old(self).ring.count()),
            final(self).ring.count() == old(self).ring.count() + r,
            final(self).ring.read_cursor() == old(self).ring.read_cursor(),
    {
        self.ring.push(amount)
    }

    /// Pops from the guarded ring; only the current holder may touch it.
    pub fn pop(&mut self, amount: usize) -> (r: usize)
        requires
            old(self).wf(),
            old(self).locked,
        ensures
            final(self).wf(),
            final(self).locked,
            r as int == vstd::math::min(amount as int, old(self).ring.count()),
            final(self).ring.count() == old(self).ring.count() - r,
            final(self).ring.write_cursor() == old(self).ring.write_cursor(),
    {
        self.ring.pop(amount)
    }

    /// Reads emptiness of the guarded ring; only the current holder may look.
    pub fn is_empty(&self) -> (r: bool)
        requires
            self.wf(),
            self.locked,
        ensures
            r == (self.ring.count() == 0),
    {
        self.ring.is_empty()
    }

    /// Reads fullness of the guarded ring; only the current holder may look.
    pub fn is_full(&self) -> (r: bool)
        requires
            self.wf(),
            self.locked,
        ensures
            r == (self.ring.count() == Buffer::capacity()),
    {
        self.ring.is_full()
    }
}

/// Mutual exclusion: while one caller holds exclusive access and has not released
/// it, no further try-acquire can succeed, so no two holders' critical
/// sections ever overlap.
pub proof fn lemma_mutual_exclusion(g: AccessGate)
    requires
        g.wf(),
        g.locked,
    ensures
        !g.acquire_would_succeed(),
{
}

} // verus!
