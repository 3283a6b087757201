//! What holds of a pool however its operations interleave.
//!
//! A [`Ledger`] follows a pool's state together with the connections that are
//! checked out. Every operation of the protocols is an [`Event`]; a history is
//! a sequence of events. The laws say what is true after every history.

use crate::clock::Deadline;
use crate::errors::GetTimeout;
use crate::internals::{CheckoutStep, PoolState};
use crate::pool::released;
use crate::task::{cleared, in_run_order, lemma_slot_for, slot_for, ScheduledTask};
use vstd::prelude::*;

verus! {

/// A pool's state and the connections that its handles hold, the handle
/// checked out first first.
pub struct Ledger<C> {
    pub state: PoolState<C>,
    pub out: Seq<C>,
}

/// One operation on a pool.
pub enum Event<C> {
    /// The opening of a vacant slot is scheduled.
    Schedule,
    /// An opening succeeds and delivers this connection.
    Open(C),
    /// This many openings are cancelled before they begin.
    Cancel(nat),
    /// The oldest idle connection is checked out.
    Checkout,
    /// The connection of the handle at this index fails validation: it is
    /// destroyed and the opening of its replacement is scheduled.
    Invalid(int),
    /// The handle at this index is released with a sound connection.
    Return(int),
    /// The handle at this index is released with a broken connection.
    Break(int),
}

impl<C> Ledger<C> {
    /// The ledger of a pool that has just been made.
    pub open spec fn initial(pool_size: nat) -> Ledger<C> {
        Ledger { state: PoolState::initial(pool_size), out: Seq::empty() }
    }

    /// Every connection that exists: the idle ones, then those checked out.
    pub open spec fn live(self) -> Seq<C> {
        self.state.idle + self.out
    }

    /// The state obeys its invariant, and the connections in use are as many
    /// as the handles.
    pub open spec fn consistent(self) -> bool {
        &&& self.state.wf()
        &&& self.state.in_use() == self.out.len()
    }

    /// No connection exists twice.
    pub open spec fn distinct(self) -> bool {
        self.live().no_duplicates()
    }

    /// Whether the event can happen: a slot is there to open, an opening to
    /// finish or cancel, a connection to hand out, a handle to give back.
    pub open spec fn enabled(self, event: Event<C>) -> bool {
        match event {
            Event::Schedule => self.state.vacant() > 0,
            Event::Open(conn) => self.state.opening > 0,
            Event::Cancel(count) => count <= self.state.opening,
            Event::Checkout => self.state.idle.len() > 0,
            Event::Invalid(handle) => 0 <= handle < self.out.len(),
            Event::Return(handle) => 0 <= handle < self.out.len(),
            Event::Break(handle) => 0 <= handle < self.out.len(),
        }
    }

    /// Whether the event, if it is an opening, delivers a connection that
    /// does not exist already.
    pub open spec fn delivers_new(self, event: Event<C>) -> bool {
        match event {
            Event::Open(conn) => !self.live().contains(conn),
            _ => true,
        }
    }

    /// Whether every opening of the history delivers a connection that does
    /// not exist at that moment.
    pub open spec fn opens_new(self, history: Seq<Event<C>>) -> bool
        decreases history.len(),
    {
        history.len() == 0 || (self.opens_new(history.drop_last()) && self.run(
            history.drop_last(),
        ).delivers_new(history.last()))
    }

    /// The ledger after the event. An event that cannot happen changes
    /// nothing.
    pub open spec fn step(self, event: Event<C>) -> Ledger<C> {
        if !self.enabled(event) {
            self
        } else {
            match event {
                Event::Schedule => Ledger { state: self.state.reserved(), ..self },
                Event::Open(conn) => Ledger { state: self.state.connected(conn), ..self },
                Event::Cancel(count) => Ledger { state: self.state.cancelled(count), ..self },
                Event::Checkout => Ledger {
                    state: self.state.checked_out(),
                    out: self.out.push(self.state.idle[0]),
                },
                Event::Invalid(handle) => Ledger {
                    state: self.state.replaced(),
                    out: self.out.remove(handle),
                },
                Event::Return(handle) => Ledger {
                    state: self.state.returned(self.out[handle]),
                    out: self.out.remove(handle),
                },
                Event::Break(handle) => Ledger {
                    state: self.state.discarded(),
                    out: self.out.remove(handle),
                },
            }
        }
    }

    /// The ledger after a history, its first event first.
    pub open spec fn run(self, history: Seq<Event<C>>) -> Ledger<C>
        decreases history.len(),
    {
        if history.len() == 0 {
            self
        } else {
            self.run(history.drop_last()).step(history.last())
        }
    }
}

/// One event keeps a consistent ledger consistent.
pub proof fn lemma_step_consistent<C>(ledger: Ledger<C>, event: Event<C>)
    requires
        ledger.consistent(),
    ensures
        ledger.step(event).consistent(),
{
}

/// One event keeps the connections of a consistent ledger distinct, where an
/// opening delivers a connection that does not exist already.
pub proof fn lemma_step_distinct<C>(ledger: Ledger<C>, event: Event<C>)
    requires
        ledger.consistent(),
        ledger.distinct(),
        ledger.delivers_new(event),
    ensures
        ledger.step(event).distinct(),
{
    let next = ledger.step(event);
    let live = ledger.live();
    let n = ledger.state.idle.len() as int;
    let total = live.len() as int;
    if ledger.enabled(event) {
        assert forall|i: int, j: int|
            0 <= i < next.live().len() && 0 <= j < next.live().len() && i != j implies next.live()[i]
            != next.live()[j] by {
            match event {
                Event::Schedule => {},
                Event::Cancel(count) => {},
                Event::Open(conn) => {
                    // The new connection stands at index `n`; the others keep
                    // their order around it.
                    let a = if i < n {
                        i
                    } else {
                        i - 1
                    };
                    let b = if j < n {
                        j
                    } else {
                        j - 1
                    };
                    if i == n {
                        assert(next.live()[j] == live[b]);
                    } else if j == n {
                        assert(next.live()[i] == live[a]);
                    } else {
                        assert(next.live()[i] == live[a] && next.live()[j] == live[b]);
                    }
                },
                Event::Checkout => {
                    // The oldest idle connection moves from the front to the
                    // very end.
                    let a = if i < total - 1 {
                        i + 1
                    } else {
                        0
                    };
                    let b = if j < total - 1 {
                        j + 1
                    } else {
                        0
                    };
                    assert(next.live()[i] == live[a] && next.live()[j] == live[b]);
                },
                Event::Invalid(handle) | Event::Break(handle) => {
                    // The handle's connection is gone; the others keep their
                    // order.
                    let a = if i < n + handle {
                        i
                    } else {
                        i + 1
                    };
                    let b = if j < n + handle {
                        j
                    } else {
                        j + 1
                    };
                    assert(next.live()[i] == live[a] && next.live()[j] == live[b]);
                },
                Event::Return(handle) => {
                    // The handle's connection moves to index `n`, behind the
                    // idle ones.
                    let a = if i < n {
                        i
                    } else if i == n {
                        n + handle
                    } else if i <= n + handle {
                        i - 1
                    } else {
                        i
                    };
                    let b = if j < n {
                        j
                    } else if j == n {
                        n + handle
                    } else if j <= n + handle {
                        j - 1
                    } else {
                        j
                    };
                    assert(next.live()[i] == live[a] && next.live()[j] == live[b]);
                },
            }
        }
    }
}

/// A history keeps a consistent ledger consistent.
pub proof fn lemma_run_consistent<C>(ledger: Ledger<C>, history: Seq<Event<C>>)
    requires
        ledger.consistent(),
    ensures
        ledger.run(history).consistent(),
    decreases history.len(),
{
    if history.len() > 0 {
        lemma_run_consistent(ledger, history.drop_last());
        lemma_step_consistent(ledger.run(history.drop_last()), history.last());
    }
}

/// After every history of a new pool, the connections are no more than the
/// slots and the idle connections no more than the connections.
pub proof fn lemma_counts_bounded<C>(pool_size: nat, history: Seq<Event<C>>)
    requires
        pool_size <= u32::MAX,
    ensures
        ({
            let state = Ledger::<C>::initial(pool_size).run(history).state;
            &&& state.pool_size == pool_size
            &&& 0 <= state.num_conns <= pool_size
            &&& state.idle.len() <= state.num_conns
        }),
    decreases history.len(),
{
    let start = Ledger::<C>::initial(pool_size);
    lemma_run_consistent(start, history);
    if history.len() > 0 {
        lemma_counts_bounded::<C>(pool_size, history.drop_last());
    }
}

/// A history keeps the connections of a consistent ledger distinct, where
/// every opening delivers a connection that does not exist at that moment.
pub proof fn lemma_run_distinct<C>(ledger: Ledger<C>, history: Seq<Event<C>>)
    requires
        ledger.consistent(),
        ledger.distinct(),
        ledger.opens_new(history),
    ensures
        ledger.run(history).distinct(),
    decreases history.len(),
{
    if history.len() > 0 {
        lemma_run_consistent(ledger, history.drop_last());
        lemma_run_distinct(ledger, history.drop_last());
        lemma_step_distinct(ledger.run(history.drop_last()), history.last());
    }
}

/// After every history of a new pool in which the manager never delivers a
/// connection that exists already, no two handles hold the same connection,
/// and no handle holds a connection that is idle.
pub proof fn lemma_exclusive_handout<C>(pool_size: nat, history: Seq<Event<C>>)
    requires
        pool_size <= u32::MAX,
        Ledger::<C>::initial(pool_size).opens_new(history),
    ensures
        ({
            let ledger = Ledger::<C>::initial(pool_size).run(history);
            &&& ledger.out.no_duplicates()
            &&& forall|i: int| 0 <= i < ledger.out.len() ==> !ledger.state.idle.contains(ledger.out[i])
        }),
{
    let ledger = Ledger::<C>::initial(pool_size).run(history);
    lemma_run_distinct(Ledger::<C>::initial(pool_size), history);
    let live = ledger.live();
    let n = ledger.state.idle.len() as int;
    assert forall|i: int, j: int|
        0 <= i < ledger.out.len() && 0 <= j < ledger.out.len() && i != j implies ledger.out[i]
        != ledger.out[j] by {
        assert(live[n + i] == ledger.out[i] && live[n + j] == ledger.out[j]);
    }
    assert forall|i: int| 0 <= i < ledger.out.len() implies !ledger.state.idle.contains(
        ledger.out[i],
    ) by {
        if ledger.state.idle.contains(ledger.out[i]) {
            let k = choose|k: int| 0 <= k < n && ledger.state.idle[k] == ledger.out[i];
            assert(live[k] == ledger.state.idle[k] && live[n + i] == ledger.out[i]);
        }
    }
}

/// After every history of a new pool, the connections in use are as many as
/// the handles: once every handle has been released, every connection is
/// idle.
pub proof fn lemma_no_leak<C>(pool_size: nat, history: Seq<Event<C>>)
    requires
        pool_size <= u32::MAX,
    ensures
        ({
            let ledger = Ledger::<C>::initial(pool_size).run(history);
            &&& ledger.state.in_use() == ledger.out.len()
            &&& ledger.out.len() == 0 ==> ledger.state.idle.len() == ledger.state.num_conns
        }),
{
    lemma_run_consistent(Ledger::<C>::initial(pool_size), history);
}

/// A history of `count` checkouts and nothing else.
pub open spec fn checkouts<C>(count: nat) -> Seq<Event<C>> {
    Seq::new(count, |i: int| Event::Checkout)
}

/// Idle connections are served oldest first: `count` checkouts in a row hand
/// out the first `count` idle connections in their order and leave the rest.
pub proof fn lemma_checkout_fifo<C>(ledger: Ledger<C>, count: nat)
    requires
        count <= ledger.state.idle.len(),
    ensures
        ledger.run(checkouts(count)).out == ledger.out + ledger.state.idle.take(count as int),
        ledger.run(checkouts(count)).state.idle == ledger.state.idle.skip(count as int),
        ledger.run(checkouts(count)).state.num_conns == ledger.state.num_conns,
    decreases count,
{
    let idle = ledger.state.idle;
    if count == 0 {
        assert(ledger.out + idle.take(0) =~= ledger.out);
        assert(idle.skip(0) =~= idle);
    } else {
        let fewer = (count - 1) as nat;
        lemma_checkout_fifo(ledger, fewer);
        assert(checkouts::<C>(count).drop_last() =~= checkouts::<C>(fewer));
        let before = ledger.run(checkouts(fewer));
        assert(before.state.idle[0] == idle[count - 1]);
        assert(before.enabled(Event::Checkout));
        assert(ledger.run(checkouts(count)) == before.step(Event::Checkout));
        assert((ledger.out + idle.take(fewer as int)).push(idle[count - 1]) =~= ledger.out
            + idle.take(count as int));
        assert(idle.skip(fewer as int).drop_first() =~= idle.skip(count as int));
    }
}

/// The time left never grows and never passes the timeout; a waiter that
/// sleeps the time left wakes at the end of the wait, not later; and from the
/// end on the wait is over.
pub proof fn lemma_deadline_monotone(deadline: Deadline, earlier: u64, later: u64)
    requires
        deadline.start <= earlier <= later,
    ensures
        deadline.remaining_at(later) <= deadline.remaining_at(earlier) <= deadline.timeout,
        !deadline.expired_at(earlier) ==> earlier + deadline.remaining_at(earlier)
            == deadline.end(),
        deadline.expired_at(earlier) <==> earlier >= deadline.end(),
        deadline.expired_at(earlier) ==> deadline.expired_at(later),
{
}

/// A wait of no time is over at every instant: with no connection idle, a
/// checkout that may not wait times out at once.
pub proof fn lemma_zero_timeout<C>(state: PoolState<C>, deadline: Deadline, now: u64)
    requires
        deadline.timeout == 0,
        state.idle.len() == 0,
    ensures
        deadline.expired_at(now),
        state.attempt(deadline, now) == Err::<CheckoutStep<C>, GetTimeout>(GetTimeout),
        state.attempted() == state,
{
}

/// Releasing a handle a second time changes nothing: the first release
/// leaves the handle empty, and the release of an empty handle leaves the
/// state as the first release left it.
pub proof fn lemma_release_once<C>(
    before: PoolState<C>,
    held: Option<C>,
    once: PoolState<C>,
    twice: PoolState<C>,
)
    requires
        released(before, held, once),
        released(once, None, twice),
    ensures
        twice == once,
        released(before, held, twice),
{
}

/// A task enters the queue behind every task that runs no later than it and
/// ahead of every task that runs later: the queue stays in running order, and
/// tasks of one instant run in the order in which they were added.
pub proof fn lemma_run_after_keeps_order<T>(tasks: Seq<ScheduledTask<T>>, entry: ScheduledTask<T>)
    requires
        in_run_order(tasks),
    ensures
        0 <= slot_for(tasks, entry.run_at) <= tasks.len(),
        forall|i: int| 0 <= i < slot_for(tasks, entry.run_at) ==> tasks[i].run_at <= entry.run_at,
        forall|i: int|
            slot_for(tasks, entry.run_at) <= i < tasks.len() ==> tasks[i].run_at > entry.run_at,
        in_run_order(tasks.insert(slot_for(tasks, entry.run_at), entry)),
{
    lemma_slot_for(tasks, entry.run_at);
    let slot = slot_for(tasks, entry.run_at);
    let after = tasks.insert(slot, entry);
    assert forall|i: int, j: int| 0 <= i <= j < after.len() implies after[i].run_at
        <= after[j].run_at by {
        let a = if i < slot {
            i
        } else {
            i - 1
        };
        let b = if j < slot {
            j
        } else {
            j - 1
        };
        if i != slot {
            assert(after[i] == tasks[a]);
        }
        if j != slot {
            assert(after[j] == tasks[b]);
        }
    }
}

/// Clearing the queue a second time changes nothing.
pub proof fn lemma_clear_idempotent<T>(tasks: Seq<ScheduledTask<T>>)
    ensures
        cleared(cleared(tasks)) == cleared(tasks),
        cleared(tasks).len() == 0,
{
}

/// Cancelling twice is cancelling once: with nothing left to cancel the state
/// stays as it is.
pub proof fn lemma_cancel_idempotent<C>(state: PoolState<C>, queued: nat)
    requires
        state.wf(),
        queued <= state.opening,
    ensures
        state.cancelled(queued).wf(),
        state.cancelled(queued).cancelled(0) == state.cancelled(queued),
{
}

} // verus!
