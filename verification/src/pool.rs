//! The pool: a manager, an error handler, the guarded state and the queue of
//! scheduled openings, with the protocols that tie them together.
//!
//! The pool never waits. Where the protocol calls for a wait it says for how
//! long; the caller waits, reads the clock and comes back.

use crate::clock::{instant_after, Deadline};
use crate::config::Config;
use crate::errors::{GetTimeout, InitializationError};
use crate::internals::{CheckoutStep, InitStep, Opening, PoolInternals, PoolState, RETRY_DELAY};
use crate::manager::{ConnectionManager, ErrorHandler};
use crate::task::{
    cleared, in_run_order, slot_for, Dispatch, ScheduledTask, ScheduledThreadPool,
};
use vstd::prelude::*;

verus! {

/// The task that the pool schedules: open one connection.
#[derive(Clone, Copy, Debug, PartialEq, Eq, Structural)]
pub struct Replenish;

/// An opening scheduled for the instant `run_at`.
pub open spec fn opening_at(run_at: u64) -> ScheduledTask<Replenish> {
    ScheduledTask { run_at, task: Replenish }
}

/// The queue after `count` openings have been scheduled, one after the other,
/// for the instant `run_at`.
pub open spec fn with_openings(
    tasks: Seq<ScheduledTask<Replenish>>,
    run_at: u64,
    count: nat,
) -> Seq<ScheduledTask<Replenish>>
    decreases count,
{
    if count == 0 {
        tasks
    } else {
        let before = with_openings(tasks, run_at, (count - 1) as nat);
        before.insert(slot_for(before, run_at), opening_at(run_at))
    }
}

/// How the release of a handle changes the state. An empty handle changes
/// nothing. A connection either is destroyed and struck from the count, or
/// joins the back of the idle queue, as the manager left it.
pub open spec fn released<C>(before: PoolState<C>, held: Option<C>, after: PoolState<C>) -> bool {
    match held {
        None => after == before,
        Some(_) => after == before.discarded() || (after.idle.len() > 0 && after
            == before.returned(after.idle.last())),
    }
}

/// A connection that has been checked out, until it is released.
pub struct PooledConnection<C> {
    conn: Option<C>,
}

impl<C> View for PooledConnection<C> {
    type V = Option<C>;

    /// The connection held, or `None` once it has been released.
    closed spec fn view(&self) -> Option<C> {
        self.conn
    }
}

impl<C> PooledConnection<C> {
    /// Whether the connection has gone back to the pool.
    pub fn is_released(&self) -> (released: bool)
        ensures
            released == self@.is_none(),
    {
        self.conn.is_none()
    }

    /// The connection, to read.
    pub fn connection(&self) -> (conn: &C)
        requires
            self@.is_some(),
        ensures
            *conn == self@.unwrap(),
    {
        self.conn.as_ref().unwrap()
    }

    /// The connection, to write: what the caller leaves in it is what the
    /// handle holds afterwards.
    pub fn connection_mut(&mut self) -> (conn: &mut C)
        requires
            old(self)@.is_some(),
        ensures
            *conn == old(self)@.unwrap(),
            final(self)@ == Some(*final(conn)),
    {
        self.conn.as_mut().unwrap()
    }

    /// Takes the connection out of the handle, once: a second call finds
    /// nothing.
    pub fn take(&mut self) -> (conn: Option<C>)
        ensures
            conn == old(self)@,
            final(self)@.is_none(),
    {
        self.conn.take()
    }
}

/// What one pass of [`Pool::get`] found.
pub enum Checkout<C> {
    /// A connection, handed out.
    Ready(PooledConnection<C>),
    /// No connection is idle: wait this many milliseconds, or until one is
    /// signalled, and call again with the same deadline.
    Wait(u64),
}

/// What one turn of a worker did.
#[derive(Clone, Copy, Debug, PartialEq, Eq, Structural)]
pub enum Work {
    /// An opening was due and succeeded: a connection is idle.
    Opened,
    /// An opening was due and failed: the error went to the handler and the
    /// opening is scheduled again.
    Retry,
    /// Nothing is due for this many milliseconds.
    Sleep(u64),
    /// Nothing is scheduled.
    Idle,
}

/// A generic connection pool.
pub struct Pool<M: ConnectionManager> {
    config: Config,
    manager: M,
    error_handler: Box<dyn ErrorHandler<M::Error>>,
    internals: PoolInternals<M::Connection>,
    thread_pool: ScheduledThreadPool<Replenish>,
    created: u64,
}

impl<M: ConnectionManager> Pool<M> {
    /// The guarded state.
    pub closed spec fn state(&self) -> PoolState<M::Connection> {
        self.internals@
    }

    /// The scheduled openings, the next to run first.
    pub closed spec fn tasks(&self) -> Seq<ScheduledTask<Replenish>> {
        self.thread_pool@
    }

    /// The configuration the pool was made with.
    pub closed spec fn spec_config(&self) -> Config {
        self.config
    }

    /// The instant at which the pool was made.
    pub closed spec fn spec_created(&self) -> u64 {
        self.created
    }

    /// The wait that begins at `start` and lasts as long as the configuration
    /// lets a caller wait.
    pub open spec fn deadline_from(&self, start: u64) -> Deadline {
        Deadline { start, timeout: self.spec_config().spec_connection_timeout() }
    }

    /// The number of workers that the executor was made for.
    pub closed spec fn spec_workers(&self) -> usize {
        self.thread_pool.spec_workers()
    }

    /// What every pool satisfies: the invariant of its state, a queue in
    /// running order, one scheduled task for each opening, and as many slots
    /// and workers as the configuration asks for.
    pub open spec fn wf(&self) -> bool {
        &&& self.state().wf()
        &&& in_run_order(self.tasks())
        &&& self.tasks().len() == self.state().opening
        &&& self.state().pool_size == self.spec_config().spec_pool_size()
        &&& self.spec_workers() == self.spec_config().spec_helper_threads()
    }

    /// Makes a pool at instant `now`: no connection yet, and the opening of
    /// every slot scheduled for `now`.
    ///
    /// The pool is not yet known to be usable: a caller that set
    /// `initialization_fail_fast` hands it to [`Pool::initialized`] until it
    /// comes back ready, or does not come back.
    pub fn new(
        config: Config,
        manager: M,
        error_handler: Box<dyn ErrorHandler<M::Error>>,
        now: u64,
    ) -> (pool: Pool<M>)
        ensures
            pool.wf(),
            pool.spec_config() == config,
            pool.spec_created() == now,
            pool.state() == PoolState::<M::Connection>::starting(config.spec_pool_size() as nat),
            pool.tasks() == Seq::new(config.spec_pool_size() as nat, |i: int| opening_at(now)),
    {
        let size: u32 = config.pool_size();
        let workers: u32 = config.helper_threads();
        let mut pool = Pool {
            config,
            manager,
            error_handler,
            internals: PoolInternals::new(size),
            thread_pool: ScheduledThreadPool::new(workers as usize),
            created: now,
        };
        let mut scheduled: u32 = 0;
        while scheduled < size
            invariant
                scheduled <= size,
                size == config.spec_pool_size(),
                pool.wf(),
                pool.spec_config() == config,
                pool.spec_created() == now,
                pool.state() == PoolState::<M::Connection>::starting(size as nat).cancelled(
                    (size - scheduled) as nat,
                ),
                pool.tasks() == Seq::new(scheduled as nat, |i: int| opening_at(now)),
            decreases size - scheduled,
        {
            proof {
                let queued = pool.tasks();
                assert(slot_for(queued, now) == queued.len()) by {
                    if queued.len() > 0 {
                        assert(queued.last().run_at == now);
                    }
                }
                assert(queued.insert(queued.len() as int, opening_at(now)) =~= Seq::new(
                    (scheduled + 1) as nat,
                    |i: int| opening_at(now),
                ));
            }
            add_connection(0, now, &mut pool);
            scheduled = scheduled + 1;
        }
        pool
    }

    /// The wait that begins at `start` and lasts `connection_timeout`
    /// milliseconds.
    pub fn deadline(&self, start: u64) -> (deadline: Deadline)
        ensures
            deadline == self.deadline_from(start),
    {
        Deadline::new(start, self.config.connection_timeout())
    }

    /// The verdict of a fail-fast start at instant `now`. The wait began when
    /// the pool was made and lasts `connection_timeout` milliseconds.
    pub open spec fn startup_at(&self, now: u64) -> Result<InitStep, InitializationError> {
        self.state().startup(
            self.spec_config().spec_initialization_fail_fast(),
            self.deadline_from(self.spec_created()),
            now,
        )
    }

    /// One look of a fail-fast start at instant `now`. The wait began when the
    /// pool was made and lasts `connection_timeout` milliseconds.
    ///
    /// The pool is taken and given back untouched, with the word that it is
    /// ready or how long to wait. Where the start has failed the pool is not
    /// given back: it ends here, with the connections it had opened.
    pub fn initialized(self, now: u64) -> (step: Result<(Pool<M>, InitStep), InitializationError>)
        ensures
            match step {
                Ok((pool, init)) => pool == self && self.startup_at(now) == Ok::<
                    InitStep,
                    InitializationError,
                >(init),
                Err(error) => self.startup_at(now) == Err::<InitStep, InitializationError>(error),
            },
    {
        let deadline = self.deadline(self.created);
        match self.internals.initialized(self.config.initialization_fail_fast(), &deadline, now) {
            Ok(init) => Ok((self, init)),
            Err(error) => Err(error),
        }
    }

    /// Settles the validation of a connection that was checked out, at
    /// instant `now`. A connection that stood is handed out. One that failed
    /// is destroyed, its error goes to the handler, and the opening of its
    /// replacement is scheduled for `now`.
    pub fn settle_validation(
        &mut self,
        conn: M::Connection,
        verdict: Result<(), M::Error>,
        now: u64,
    ) -> (handle: Option<PooledConnection<M::Connection>>)
        requires
            old(self).wf(),
            old(self).state().in_use() > 0,
        ensures
            final(self).wf(),
            final(self).spec_config() == old(self).spec_config(),
            final(self).spec_created() == old(self).spec_created(),
            verdict is Ok ==> {
                &&& handle matches Some(h) && h@ == Some(conn)
                &&& final(self).state() == old(self).state()
                &&& final(self).tasks() == old(self).tasks()
            },
            verdict is Err ==> {
                &&& handle is None
                &&& final(self).state() == old(self).state().replaced()
                &&& final(self).tasks() == old(self).tasks().insert(
                    slot_for(old(self).tasks(), now),
                    opening_at(now),
                )
            },
    {
        match verdict {
            Ok(_) => Some(PooledConnection { conn: Some(conn) }),
            Err(error) => {
                self.error_handler.handle_error(error);
                let delay: u64 = self.internals.replace(conn);
                self.thread_pool.run_after(now, delay, Replenish);
                None
            },
        }
    }

    /// Whether an opening has left the queue and waits to be settled: the
    /// pool is as [`Pool::wf`] asks, but for one opening more than tasks.
    pub open spec fn opening_under_way(&self) -> bool {
        &&& self.state().wf()
        &&& in_run_order(self.tasks())
        &&& self.tasks().len() + 1 == self.state().opening
        &&& self.state().pool_size == self.spec_config().spec_pool_size()
        &&& self.spec_workers() == self.spec_config().spec_helper_threads()
    }

    /// Settles, at instant `now`, the attempt to open a connection for the
    /// task that has left the queue. A connection joins the idle queue. An
    /// error goes to the handler, and the opening is scheduled again,
    /// [`RETRY_DELAY`] milliseconds from `now`.
    pub fn settle_opening(&mut self, opened: Result<M::Connection, M::Error>, now: u64) -> (work:
        Work)
        requires
            old(self).opening_under_way(),
        ensures
            final(self).wf(),
            final(self).spec_config() == old(self).spec_config(),
            final(self).spec_created() == old(self).spec_created(),
            opened matches Ok(conn) ==> {
                &&& work == Work::Opened
                &&& final(self).state() == old(self).state().connected(conn)
                &&& final(self).tasks() == old(self).tasks()
            },
            opened is Err ==> {
                &&& work == Work::Retry
                &&& final(self).state() == old(self).state()
                &&& final(self).tasks() == old(self).tasks().insert(
                    slot_for(old(self).tasks(), instant_after(now, RETRY_DELAY)),
                    opening_at(instant_after(now, RETRY_DELAY)),
                )
            },
    {
        let attempt: Option<M::Connection> = match opened {
            Ok(conn) => Some(conn),
            Err(error) => {
                self.error_handler.handle_error(error);
                None
            },
        };
        match self.internals.settle_opening(attempt) {
            Opening::Opened => Work::Opened,
            Opening::Retry(delay) => {
                self.thread_pool.run_after(now, delay, Replenish);
                Work::Retry
            },
        }
    }

    /// One pass, at instant `now`, of a checkout that began at `start` and
    /// may wait `connection_timeout` milliseconds.
    ///
    /// Takes idle connections, the oldest first. With `test_on_check_out` each
    /// is validated: one that fails is destroyed, its error goes to the
    /// handler, and its replacement is scheduled for `now`; then the next is
    /// tried. The first connection that stands is handed out. With none left,
    /// the pass says how long to wait, or fails because the deadline has
    /// passed.
    pub fn get(&mut self, start: u64, now: u64) -> (result: Result<
        Checkout<M::Connection>,
        GetTimeout,
    >)
        requires
            old(self).wf(),
        ensures
            final(self).wf(),
            final(self).spec_config() == old(self).spec_config(),
            final(self).spec_created() == old(self).spec_created(),
            ({
                let before = old(self).state();
                let after = final(self).state();
                let deadline = old(self).deadline_from(start);
                let failed = before.num_conns - after.num_conns;
                let tested = old(self).spec_config().spec_test_on_check_out();
                &&& 0 <= failed <= before.idle.len()
                &&& !tested ==> failed == 0
                &&& after.opening == before.opening + failed
                &&& after.pool_size == before.pool_size
                &&& final(self).tasks() == with_openings(old(self).tasks(), now, failed as nat)
                &&& match result {
                    Ok(Checkout::Ready(handle)) => {
                        &&& failed < before.idle.len()
                        &&& after.idle == before.idle.skip(failed + 1)
                        &&& handle@.is_some()
                        &&& !tested ==> handle@ == Some(before.idle[0])
                    },
                    Ok(Checkout::Wait(millis)) => {
                        &&& failed == before.idle.len()
                        &&& after.idle == Seq::<M::Connection>::empty()
                        &&& !deadline.expired_at(now)
                        &&& millis == deadline.remaining_at(now)
                    },
                    Err(_) => {
                        &&& failed == before.idle.len()
                        &&& after.idle == Seq::<M::Connection>::empty()
                        &&& deadline.expired_at(now)
                    },
                }
            }),
    {
        let tested: bool = self.config.test_on_check_out();
        let deadline = self.deadline(start);
        let ghost before = self.state();
        let ghost queued = self.tasks();
        let ghost mut failed: nat = 0;
        loop
            invariant
                self.wf(),
                self.spec_config() == old(self).spec_config(),
                self.spec_created() == old(self).spec_created(),
                deadline == old(self).deadline_from(start),
                tested == old(self).spec_config().spec_test_on_check_out(),
                before == old(self).state(),
                queued == old(self).tasks(),
                failed <= before.idle.len(),
                !tested ==> failed == 0,
                self.state().idle == before.idle.skip(failed as int),
                self.state().num_conns == before.num_conns - failed,
                self.state().opening == before.opening + failed,
                self.state().pool_size == before.pool_size,
                self.tasks() == with_openings(queued, now, failed),
            decreases self.state().idle.len(),
        {
            match self.internals.checkout(&deadline, now) {
                Ok(CheckoutStep::Conn(conn)) => {
                    let mut conn = conn;
                    proof {
                        assert(before.idle.skip(failed as int).drop_first() =~= before.idle.skip(
                            failed as int + 1,
                        ));
                    }
                    if !tested {
                        return Ok(Checkout::Ready(PooledConnection { conn: Some(conn) }));
                    }
                    let verdict = self.manager.is_valid(&mut conn);
                    match self.settle_validation(conn, verdict, now) {
                        Some(handle) => {
                            return Ok(Checkout::Ready(handle));
                        },
                        None => {
                            proof {
                                failed = failed + 1;
                            }
                        },
                    }
                },
                Ok(CheckoutStep::Wait(millis)) => {
                    proof {
                        assert(before.idle.skip(failed as int) =~= Seq::<M::Connection>::empty());
                    }
                    return Ok(Checkout::Wait(millis));
                },
                Err(timeout) => {
                    proof {
                        assert(before.idle.skip(failed as int) =~= Seq::<M::Connection>::empty());
                    }
                    return Err(timeout);
                },
            }
        }
    }

    /// Takes back a connection that was checked out. The manager is asked
    /// whether it has broken: a broken one is destroyed and struck from the
    /// count, with no replacement scheduled; a sound one joins the back of
    /// the idle queue.
    pub fn put_back(&mut self, conn: M::Connection)
        requires
            old(self).wf(),
            old(self).state().in_use() > 0,
        ensures
            final(self).wf(),
            final(self).spec_config() == old(self).spec_config(),
            final(self).spec_created() == old(self).spec_created(),
            final(self).tasks() == old(self).tasks(),
            released(old(self).state(), Some(conn), final(self).state()),
    {
        let mut conn = conn;
        let broken: bool = self.manager.has_broken(&mut conn);
        let _ = self.internals.put_back(conn, broken);
    }

    /// Releases a handle: the connection it holds goes through
    /// [`Pool::put_back`] and the handle is left empty. A handle that is
    /// already empty changes nothing.
    pub fn release(&mut self, handle: &mut PooledConnection<M::Connection>)
        requires
            old(self).wf(),
            old(handle)@.is_some() ==> old(self).state().in_use() > 0,
        ensures
            final(self).wf(),
            final(handle)@.is_none(),
            final(self).spec_config() == old(self).spec_config(),
            final(self).spec_created() == old(self).spec_created(),
            final(self).tasks() == old(self).tasks(),
            released(old(self).state(), old(handle)@, final(self).state()),
    {
        match handle.conn.take() {
            Some(conn) => {
                self.put_back(conn);
            },
            None => {},
        }
    }

    /// One turn of a worker at instant `now`: if the opening at the front of
    /// the queue is due, the manager is asked to connect. A connection joins
    /// the idle queue; an error goes to the handler, and the opening is
    /// scheduled again, [`RETRY_DELAY`] milliseconds from `now`.
    pub fn run_task(&mut self, now: u64) -> (work: Work)
        requires
            old(self).wf(),
        ensures
            final(self).wf(),
            final(self).spec_config() == old(self).spec_config(),
            final(self).spec_created() == old(self).spec_created(),
            match work {
                Work::Opened => {
                    &&& old(self).tasks().len() > 0
                    &&& old(self).tasks()[0].run_at <= now
                    &&& final(self).tasks() == old(self).tasks().drop_first()
                    &&& final(self).state().idle.len() > 0
                    &&& final(self).state() == old(self).state().connected(
                        final(self).state().idle.last(),
                    )
                },
                Work::Retry => {
                    &&& old(self).tasks().len() > 0
                    &&& old(self).tasks()[0].run_at <= now
                    &&& final(self).tasks() == old(self).tasks().drop_first().insert(
                        slot_for(old(self).tasks().drop_first(), instant_after(now, RETRY_DELAY)),
                        opening_at(instant_after(now, RETRY_DELAY)),
                    )
                    &&& final(self).state() == old(self).state()
                },
                Work::Sleep(millis) => {
                    &&& old(self).tasks().len() > 0
                    &&& old(self).tasks()[0].run_at > now
                    &&& millis == old(self).tasks()[0].run_at - now
                    &&& final(self).tasks() == old(self).tasks()
                    &&& final(self).state() == old(self).state()
                },
                Work::Idle => {
                    &&& old(self).tasks().len() == 0
                    &&& final(self).tasks() == old(self).tasks()
                    &&& final(self).state() == old(self).state()
                },
            },
    {
        match self.thread_pool.dispatch(now) {
            Dispatch::Run(_) => {
                let opened = self.manager.connect();
                self.settle_opening(opened, now)
            },
            Dispatch::Sleep(millis) => Work::Sleep(millis),
            Dispatch::Idle => Work::Idle,
        }
    }

    /// Cancels every opening that has not begun. What is under way is not
    /// touched.
    pub fn shutdown(&mut self)
        requires
            old(self).wf(),
        ensures
            final(self).wf(),
            final(self).spec_config() == old(self).spec_config(),
            final(self).spec_created() == old(self).spec_created(),
            final(self).tasks() == cleared(old(self).tasks()),
            final(self).state() == old(self).state().cancelled(old(self).tasks().len()),
    {
        let queued: usize = self.thread_pool.len();
        self.thread_pool.clear();
        let _ = self.internals.cancel(queued);
    }

    /// The configuration the pool was made with.
    pub fn config(&self) -> (config: &Config)
        ensures
            *config == self.spec_config(),
    {
        &self.config
    }

    /// The instant at which the pool was made.
    pub fn created(&self) -> (instant: u64)
        ensures
            instant == self.spec_created(),
    {
        self.created
    }

    /// The number of idle connections.
    pub fn idle_connections(&self) -> (n: usize)
        ensures
            n == self.state().idle.len(),
    {
        self.internals.idle_connections()
    }

    /// The number of connections that exist, idle or in use.
    pub fn num_conns(&self) -> (n: u32)
        ensures
            n == self.state().num_conns,
    {
        self.internals.num_conns()
    }

    /// The number of openings that are scheduled.
    pub fn scheduled(&self) -> (n: usize)
        ensures
            n == self.tasks().len(),
    {
        self.thread_pool.len()
    }

    /// The number of workers that the executor was made for.
    pub fn workers(&self) -> (n: usize)
        ensures
            n == self.spec_workers(),
    {
        self.thread_pool.workers()
    }

}

/// Schedules the opening of one connection, to run `delay` milliseconds after
/// `now`, for a slot that is vacant.
pub fn add_connection<M: ConnectionManager>(delay: u64, now: u64, pool: &mut Pool<M>)
    requires
        old(pool).wf(),
        old(pool).state().vacant() > 0,
    ensures
        final(pool).wf(),
        final(pool).spec_config() == old(pool).spec_config(),
        final(pool).spec_created() == old(pool).spec_created(),
        final(pool).state() == old(pool).state().reserved(),
        final(pool).tasks() == old(pool).tasks().insert(
            slot_for(old(pool).tasks(), instant_after(now, delay)),
            opening_at(instant_after(now, delay)),
        ),
{
    pool.internals.reserve();
    pool.thread_pool.run_after(now, delay, Replenish);
}

} // verus!
