//! The producer/consumer behavioural loop, as a per-tick state machine.
//!
//! Both roles follow the same discipline, with opposite buffer operations:
//! each tick first consults the shutdown signal and the iteration ceiling,
//! then draws a random binary decision of whether to attempt access at all,
//! and — once the surrounding task has won exclusive access — performs a bounded
//! push or pop. The surrounding task owns the waiting (delay and scheduler
//! yield) and the lock contention; the decisions live here.

use rand::Rng;
use vstd::prelude::*;

use crate::gate::AccessGate;
use crate::ring::BUFFER_SIZE;
use crate::ring::Buffer;

verus! {

/// Slots requested by a single push or pop.
pub const CHUNK: usize = 2;

/// Hard ceiling on a worker's successful operations, independent of the
/// shutdown signal: twice the ring's capacity.
pub const OPERATION_CEILING: usize = 2 * BUFFER_SIZE;

/// Which buffer operation a worker applies.
#[derive(Clone, Copy, PartialEq, Eq, Structural, Debug)]
pub enum Role {
    Producer,
    Consumer,
}

/// What a tick decides before any access is attempted.
#[derive(Clone, Copy, PartialEq, Eq, Structural, Debug)]
pub enum TickPlan {
    /// Leave the loop: the shutdown signal is set or the ceiling is reached.
    Terminate,
    /// An idle tick: the random decision declined to attempt access.
    Idle,
    /// Try to acquire access; on success the access step follows.
    Attempt,
}

/// What a granted access accomplished.
#[derive(Clone, Copy, PartialEq, Eq, Structural, Debug)]
pub enum AccessOutcome {
    /// The ring state made the intended operation impossible: full for a
    /// producer, empty for a consumer. Nothing was changed.
    Blocked,
    /// The operation was applied; the payload is the number of slots
    /// actually filled or cleared.
    Worked(usize),
}

/// Whether the ring state blocks the role outright: a full ring blocks the
/// producer, an empty ring blocks the consumer.
pub open spec fn blocked_for(role: Role, ring_count: int) -> bool {
    match role {
        Role::Producer => ring_count == Buffer::capacity(),
        Role::Consumer => ring_count == 0,
    }
}

/// Slots a granted, unblocked access applies: up to `CHUNK`, bounded by the
/// free room for a producer and by the content for a consumer.
pub open spec fn applied_amount(role: Role, ring_count: int) -> int {
    match role {
        Role::Producer => vstd::math::min(CHUNK as int, Buffer::capacity() - ring_count),
        Role::Consumer => vstd::math::min(CHUNK as int, ring_count),
    }
}

/// One of the two concurrent roles: its buffer operation and the count of
/// successful operations so far.
pub struct Worker {
    pub role: Role,
    pub processed_count: usize,
}

impl Worker {
    /// Worker invariant: the operation count never exceeds the ceiling.
    pub open spec fn wf(self) -> bool {
        self.processed_count <= OPERATION_CEILING
    }

    /// Whether the loop must end now: the shutdown signal is set, or the
    /// iteration ceiling is reached.
    pub open spec fn done(self, shutdown: bool) -> bool {
        shutdown || self.processed_count >= OPERATION_CEILING
    }

    /// A fresh worker for the given role, with no operations performed.
    pub fn new(role: Role) -> (r: Self)
        ensures
            r.wf(),
            r.role == role,
            r.processed_count == 0,
    {
        Worker { role, processed_count: 0 }
    }

    /// The tick decision with the drawn value in hand: terminates exactly
    /// when the shutdown signal is set or the ceiling is reached; otherwise
    /// the draw decides — `1` attempts access, any other value is an idle
    /// tick.
    pub fn decide_tick(&self, shutdown: bool, draw: usize) -> (plan: TickPlan)
        ensures
            (plan == TickPlan::Terminate) <==> self.done(shutdown),
            !self.done(shutdown) ==> plan == (if draw == 1 {
                TickPlan::Attempt
            } else {
                TickPlan::Idle
            }),
    {
        if shutdown {
            return TickPlan::Terminate;
        }
        if self.processed_count >= OPERATION_CEILING {
            return TickPlan::Terminate;
        }
        if draw == 1 {
            TickPlan::Attempt
        } else {
            TickPlan::Idle
        }
    }

    /// Opens a tick: draws the uniformly random binary decision and hands it
    /// to [`Self::decide_tick`], which fixes the plan for every value of the
    /// draw. The worker itself is left unchanged.
    pub fn begin_tick(&mut self, shutdown: bool) -> (plan: TickPlan)
        ensures
            *final(self) == *old(self),
            (plan == TickPlan::Terminate) <==> old(self).done(shutdown),
    {
        let draw = draw_below(2);
        self.decide_tick(shutdown, draw)
    }

    /// The access step, run only by a task that currently holds the `AccessGate`.
    /// If the ring blocks the role, it reports so and changes nothing;
    /// otherwise it applies a bounded push or pop of `CHUNK` slots —
    /// partially fulfilled when room or content runs out — and counts one
    /// successful operation, whatever amount was actually applied.
    pub fn perform_access(&mut self, gate: &mut AccessGate) -> (outcome: AccessOutcome)
        requires
            old(self).wf(),
            old(self).processed_count < OPERATION_CEILING,
            old(gate).wf(),
            old(gate).locked,
        ensures
            final(self).wf(),
            final(self).role == old(self).role,
            final(gate).wf(),
            final(gate).locked,
            old(self).role == Role::Producer ==> final(gate).ring.read_cursor() == old(
                gate,
            ).ring.read_cursor(),
            old(self).role == Role::Consumer ==> final(gate).ring.write_cursor() == old(
                gate,
            ).ring.write_cursor(),
            blocked_for(old(self).role, old(gate).ring.count()) ==> {
                &&& outcome == AccessOutcome::Blocked
                &&& *final(gate) == *old(gate)
                &&& *final(self) == *old(self)
            },
            !blocked_for(old(self).role, old(gate).ring.count()) ==> {
                &&& outcome == AccessOutcome::Worked(
                    applied_amount(old(self).role, old(gate).ring.count()) as usize,
                )
                &&& final(self).processed_count == old(self).processed_count + 1
                &&& final(gate).ring.count() == old(gate).ring.count() + if old(
                    self,
                ).role == Role::Producer {
                    applied_amount(old(self).role, old(gate).ring.count())
                } else {
                    -applied_amount(old(self).role, old(gate).ring.count())
                }
            },
    {
        match self.role {
            Role::Producer => {
                if gate.is_full() {
                    AccessOutcome::Blocked
                } else {
                    let applied = gate.push(CHUNK);
                    self.processed_count = self.processed_count + 1;
                    AccessOutcome::Worked(applied)
                }
            },
            Role::Consumer => {
                if gate.is_empty() {
                    AccessOutcome::Blocked
                } else {
                    let applied = gate.pop(CHUNK);
                    self.processed_count = self.processed_count + 1;
                    AccessOutcome::Worked(applied)
                }
            },
        }
    }
}

/// Iteration ceiling and liveness of shutdown: a well-formed worker has
/// performed at most `OPERATION_CEILING` operations, and once the shutdown
/// signal is set the worker's next tick must terminate its loop.
pub proof fn lemma_worker_bounded(w: Worker, shutdown: bool)
    requires
        w.wf(),
    ensures
        w.processed_count <= OPERATION_CEILING,
        shutdown ==> w.done(shutdown),
{
}

/// Relies on rand::Rng::gen_range over `0..bound`: the sample lies in the
/// range; the call panics on an empty range, so the bound must be positive.
#[verifier::external_body]
fn draw_below(bound: usize) -> (r: usize)
    requires
        bound >= 1,
    ensures
        r < bound,
{
    rand::thread_rng().gen_range(0..bound)
}

} // verus!
