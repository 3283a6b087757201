//! The state that the pool guards: the idle queue and the counts of
//! connections, with every change that the protocols make to it.
//!
//! A pool has `pool_size` slots. A slot is vacant, is being opened, holds an
//! idle connection or holds a connection that is in use. `num_conns` counts
//! the slots that hold a connection, `opening` those that are being opened.

use crate::clock::Deadline;
use crate::errors::{GetTimeout, InitializationError};
use std::collections::VecDeque;
use vstd::prelude::*;

verus! {

/// The guarded state as a mathematical value.
pub struct PoolState<C> {
    /// The idle connections, the oldest first.
    pub idle: Seq<C>,
    /// The connections that exist, idle or in use.
    pub num_conns: nat,
    /// The connections that are being opened: scheduled or under way.
    pub opening: nat,
    /// The number of slots.
    pub pool_size: nat,
}

impl<C> PoolState<C> {
    /// What holds of the state at every moment: no more idle connections than
    /// connections, and no more connections, open or opening, than slots.
    pub open spec fn wf(self) -> bool {
        &&& self.idle.len() <= self.num_conns
        &&& self.num_conns + self.opening <= self.pool_size
        &&& self.pool_size <= u32::MAX
    }

    /// The state of a pool that has just been made.
    pub open spec fn initial(pool_size: nat) -> PoolState<C> {
        PoolState { idle: Seq::empty(), num_conns: 0, opening: 0, pool_size }
    }

    /// The state of a pool whose every slot is being opened.
    pub open spec fn starting(pool_size: nat) -> PoolState<C> {
        PoolState { idle: Seq::empty(), num_conns: 0, opening: pool_size, pool_size }
    }

    /// The connections that have been handed out and not yet come back.
    pub open spec fn in_use(self) -> int {
        self.num_conns - self.idle.len()
    }

    /// The slots that neither hold a connection nor are being opened.
    pub open spec fn vacant(self) -> int {
        self.pool_size - self.num_conns - self.opening
    }

    /// A vacant slot begins to be opened.
    pub open spec fn reserved(self) -> PoolState<C> {
        PoolState { opening: self.opening + 1, ..self }
    }

    /// An opening succeeded: `conn` joins the back of the idle queue.
    pub open spec fn connected(self, conn: C) -> PoolState<C> {
        PoolState {
            idle: self.idle.push(conn),
            num_conns: self.num_conns + 1,
            opening: (self.opening - 1) as nat,
            ..self
        }
    }

    /// `count` openings were cancelled before they began.
    pub open spec fn cancelled(self, count: nat) -> PoolState<C> {
        PoolState { opening: (self.opening - count) as nat, ..self }
    }

    /// The oldest idle connection was handed out.
    pub open spec fn checked_out(self) -> PoolState<C> {
        PoolState { idle: self.idle.drop_first(), ..self }
    }

    /// A connection that was in use was destroyed.
    pub open spec fn discarded(self) -> PoolState<C> {
        PoolState { num_conns: (self.num_conns - 1) as nat, ..self }
    }

    /// A connection that was in use came back and joins the back of the idle
    /// queue.
    pub open spec fn returned(self, conn: C) -> PoolState<C> {
        PoolState { idle: self.idle.push(conn), ..self }
    }

    /// A connection that was in use failed validation: it was destroyed and
    /// its slot begins to be opened again.
    pub open spec fn replaced(self) -> PoolState<C> {
        self.discarded().reserved()
    }

    /// The attempt to open a connection ended: with a connection, which joins
    /// the idle queue, or without one, which leaves the slot as it is.
    pub open spec fn settled(self, opened: Option<C>) -> PoolState<C> {
        match opened {
            Some(conn) => self.connected(conn),
            None => self,
        }
    }

    /// What follows the attempt to open a connection.
    pub open spec fn follow_up(opened: Option<C>) -> Opening {
        match opened {
            Some(_) => Opening::Opened,
            None => Opening::Retry(RETRY_DELAY),
        }
    }

    /// How many openings are given up when `queued` tasks were removed from
    /// the executor: as many as were removed, and no more than are opening.
    pub open spec fn cancellable(self, queued: nat) -> nat {
        if queued <= self.opening {
            queued
        } else {
            self.opening
        }
    }

    /// What one pass of a checkout finds at instant `now`: the oldest idle
    /// connection if there is one; otherwise the time left to wait, or the
    /// timeout once none is left.
    pub open spec fn attempt(self, deadline: Deadline, now: u64) -> Result<
        CheckoutStep<C>,
        GetTimeout,
    > {
        if self.idle.len() > 0 {
            Ok(CheckoutStep::Conn(self.idle[0]))
        } else if deadline.expired_at(now) {
            Err(GetTimeout)
        } else {
            Ok(CheckoutStep::Wait(deadline.remaining_at(now) as u64))
        }
    }

    /// The state after one pass of a checkout: the connection found has left
    /// the queue.
    pub open spec fn attempted(self) -> PoolState<C> {
        if self.idle.len() > 0 {
            self.checked_out()
        } else {
            self
        }
    }

    /// The verdict of a fail-fast start at instant `now`.
    pub open spec fn startup(self, fail_fast: bool, deadline: Deadline, now: u64) -> Result<
        InitStep,
        InitializationError,
    > {
        if !fail_fast || self.num_conns == self.pool_size {
            Ok(InitStep::Ready)
        } else if deadline.expired_at(now) {
            Err(InitializationError)
        } else {
            Ok(InitStep::Wait(deadline.remaining_at(now) as u64))
        }
    }
}

/// Milliseconds between a failed opening and the next attempt.
pub const RETRY_DELAY: u64 = 1000;

/// Milliseconds between the end of a connection that failed validation and
/// the opening of its replacement: none.
pub const REPLACE_DELAY: u64 = 0;

/// What follows the attempt to open a connection.
#[derive(Clone, Copy, Debug, PartialEq, Eq, Structural)]
pub enum Opening {
    /// The connection is idle: signal one waiter.
    Opened,
    /// The attempt failed and its slot stays reserved: schedule the opening
    /// again, this many milliseconds from now.
    Retry(u64),
}

/// What one pass of a checkout found.
pub enum CheckoutStep<C> {
    /// The oldest idle connection, now out of the queue.
    Conn(C),
    /// No connection is idle: wait this many milliseconds, or until one is
    /// signalled, and try again.
    Wait(u64),
}

/// How far a fail-fast start has come.
#[derive(Clone, Copy, Debug, PartialEq, Eq, Structural)]
pub enum InitStep {
    /// Every slot holds a connection, or the pool does not insist on it.
    Ready,
    /// Connections are still missing: wait this many milliseconds, or until
    /// one is signalled, and look again.
    Wait(u64),
}

/// Ends a connection's life: it is dropped here and now.
fn destroy<C>(conn: C) {
}

/// The idle queue and the counts, as the pool holds them.
pub struct PoolInternals<C> {
    conns: VecDeque<C>,
    num_conns: u32,
    opening: u32,
    pool_size: u32,
}

impl<C> View for PoolInternals<C> {
    type V = PoolState<C>;

    closed spec fn view(&self) -> PoolState<C> {
        PoolState {
            idle: self.conns@,
            num_conns: self.num_conns as nat,
            opening: self.opening as nat,
            pool_size: self.pool_size as nat,
        }
    }
}

impl<C> PoolInternals<C> {
    /// What every value satisfies: the invariant of its state.
    pub open spec fn wf(&self) -> bool {
        self@.wf()
    }

    /// The state of a new pool of `pool_size` slots, all vacant.
    pub fn new(pool_size: u32) -> (internals: PoolInternals<C>)
        ensures
            internals.wf(),
            internals@ == PoolState::<C>::initial(pool_size as nat),
    {
        PoolInternals { conns: VecDeque::new(), num_conns: 0, opening: 0, pool_size }
    }

    /// The number of slots.
    pub fn pool_size(&self) -> (n: u32)
        ensures
            n == self@.pool_size,
    {
        self.pool_size
    }

    /// The number of connections that exist, idle or in use.
    pub fn num_conns(&self) -> (n: u32)
        ensures
            n == self@.num_conns,
    {
        self.num_conns
    }

    /// The number of connections that are being opened.
    pub fn opening(&self) -> (n: u32)
        ensures
            n == self@.opening,
    {
        self.opening
    }

    /// The number of idle connections.
    pub fn idle_connections(&self) -> (n: usize)
        ensures
            n == self@.idle.len(),
    {
        self.conns.len()
    }

    /// The number of connections that are handed out.
    pub fn in_use(&self) -> (n: u32)
        requires
            self.wf(),
        ensures
            n == self@.in_use(),
    {
        let idle: usize = self.conns.len();
        self.num_conns - (idle as u32)
    }

    /// The number of vacant slots.
    pub fn vacant(&self) -> (n: u32)
        requires
            self.wf(),
        ensures
            n == self@.vacant(),
    {
        self.pool_size - self.num_conns - self.opening
    }

    /// Marks a vacant slot as being opened. The caller schedules the opening.
    pub fn reserve(&mut self)
        requires
            old(self).wf(),
            old(self)@.vacant() > 0,
        ensures
            final(self).wf(),
            final(self)@ == old(self)@.reserved(),
    {
        self.opening = self.opening + 1;
    }

    /// Takes in a connection that an opening produced: it joins the back of
    /// the idle queue and counts as a connection. The result says that a
    /// waiter should be signalled, as after every arrival in the idle queue.
    pub fn connected(&mut self, conn: C) -> (signal: bool)
        requires
            old(self).wf(),
            old(self)@.opening > 0,
        ensures
            final(self).wf(),
            signal,
            final(self)@ == old(self)@.connected(conn),
    {
        self.opening = self.opening - 1;
        self.num_conns = self.num_conns + 1;
        self.conns.push_back(conn);
        true
    }

    /// Settles the attempt to open a connection for a reserved slot. A
    /// connection joins the back of the idle queue, and a waiter is to be
    /// signalled. Without one the slot stays reserved, and the opening is to
    /// be scheduled again after [`RETRY_DELAY`] milliseconds.
    pub fn settle_opening(&mut self, opened: Option<C>) -> (next: Opening)
        requires
            old(self).wf(),
            old(self)@.opening > 0,
        ensures
            final(self).wf(),
            next == PoolState::<C>::follow_up(opened),
            final(self)@ == old(self)@.settled(opened),
    {
        match opened {
            Some(conn) => {
                let _ = self.connected(conn);
                Opening::Opened
            },
            None => Opening::Retry(RETRY_DELAY),
        }
    }

    /// Gives up the openings whose tasks were removed from the executor
    /// before they began: `queued` of them, and no more than are opening.
    /// Says how many were given up.
    pub fn cancel(&mut self, queued: usize) -> (cancelled: u32)
        requires
            old(self).wf(),
        ensures
            final(self).wf(),
            cancelled == old(self)@.cancellable(queued as nat),
            final(self)@ == old(self)@.cancelled(cancelled as nat),
    {
        let cancelled: u32 = if queued <= self.opening as usize {
            queued as u32
        } else {
            self.opening
        };
        self.opening = self.opening - cancelled;
        cancelled
    }

    /// One pass of a checkout at instant `now`: hands out the oldest idle
    /// connection if there is one; otherwise says how long to wait, or fails
    /// because the deadline has passed.
    pub fn checkout(&mut self, deadline: &Deadline, now: u64) -> (step: Result<
        CheckoutStep<C>,
        GetTimeout,
    >)
        requires
            old(self).wf(),
        ensures
            final(self).wf(),
            step == old(self)@.attempt(*deadline, now),
            final(self)@ == old(self)@.attempted(),
    {
        match self.conns.pop_front() {
            Some(conn) => Ok(CheckoutStep::Conn(conn)),
            None => {
                let left: u64 = deadline.remaining(now);
                if left == 0 {
                    Err(GetTimeout)
                } else {
                    Ok(CheckoutStep::Wait(left))
                }
            },
        }
    }

    /// Destroys a connection that was in use, then strikes it from the count.
    pub fn discard(&mut self, conn: C)
        requires
            old(self).wf(),
            old(self)@.in_use() > 0,
        ensures
            final(self).wf(),
            final(self)@ == old(self)@.discarded(),
    {
        destroy(conn);
        self.num_conns = self.num_conns - 1;
    }

    /// Ends a connection that was in use and failed validation: it is
    /// destroyed and struck from the count, and its slot is reserved for a
    /// replacement. The result is the delay after which the caller schedules
    /// the opening of the replacement: [`REPLACE_DELAY`].
    pub fn replace(&mut self, conn: C) -> (delay: u64)
        requires
            old(self).wf(),
            old(self)@.in_use() > 0,
        ensures
            final(self).wf(),
            delay == REPLACE_DELAY,
            final(self)@ == old(self)@.replaced(),
    {
        self.discard(conn);
        self.reserve();
        REPLACE_DELAY
    }

    /// Takes back a connection that was in use. A broken one is destroyed and
    /// struck from the count; a sound one joins the back of the idle queue,
    /// and the result says that a waiter should be signalled.
    pub fn put_back(&mut self, conn: C, broken: bool) -> (signal: bool)
        requires
            old(self).wf(),
            old(self)@.in_use() > 0,
        ensures
            final(self).wf(),
            signal == !broken,
            final(self)@ == (if broken {
                old(self)@.discarded()
            } else {
                old(self)@.returned(conn)
            }),
    {
        if broken {
            self.discard(conn);
            false
        } else {
            self.conns.push_back(conn);
            true
        }
    }

    /// One look of a fail-fast start at instant `now`: whether every slot
    /// holds a connection, and if not, how long to wait; it fails where the
    /// deadline has passed. A pool that does not fail fast is ready at once.
    pub fn initialized(&self, fail_fast: bool, deadline: &Deadline, now: u64) -> (step: Result<
        InitStep,
        InitializationError,
    >)
        ensures
            step == self@.startup(fail_fast, *deadline, now),
    {
        if !fail_fast || self.num_conns == self.pool_size {
            Ok(InitStep::Ready)
        } else {
            let left: u64 = deadline.remaining(now);
            if left == 0 {
                Err(InitializationError)
            } else {
                Ok(InitStep::Wait(left))
            }
        }
    }
}

} // verus!
