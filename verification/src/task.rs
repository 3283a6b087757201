//! The scheduled executor's queue: tasks, each with the instant at which it
//! may run, kept in the order in which they will run.
//!
//! The queue decides; it starts no thread. A worker asks it what to do next at
//! the current instant and is told to run a task, to sleep until the earliest
//! one is due, or to wait for work.

use crate::clock::{add_delay, instant_after};
use std::collections::VecDeque;
use vstd::prelude::*;

verus! {

/// A task and the instant before which it must not run.
pub struct ScheduledTask<T> {
    pub run_at: u64,
    pub task: T,
}

/// What a worker does next.
pub enum Dispatch<T> {
    /// Due now: the worker runs it. It has left the queue.
    Run(T),
    /// Nothing is due yet: sleep this many milliseconds, or until a task is
    /// added, and ask again.
    Sleep(u64),
    /// The queue is empty: wait until a task is added.
    Idle,
}

/// Whether the tasks stand in the order of their instants.
pub open spec fn in_run_order<T>(tasks: Seq<ScheduledTask<T>>) -> bool {
    forall|i: int, j: int| 0 <= i <= j < tasks.len() ==> tasks[i].run_at <= tasks[j].run_at
}

/// Where a task that may run at `run_at` enters the queue: behind the last
/// task that runs no later than it, so that tasks of one instant run in the
/// order in which they were added.
pub open spec fn slot_for<T>(tasks: Seq<ScheduledTask<T>>, run_at: u64) -> int
    decreases tasks.len(),
{
    if tasks.len() == 0 {
        0
    } else if tasks.last().run_at <= run_at {
        tasks.len() as int
    } else {
        slot_for(tasks.drop_last(), run_at)
    }
}

/// The queue after every task has been removed from it.
pub open spec fn cleared<T>(tasks: Seq<ScheduledTask<T>>) -> Seq<ScheduledTask<T>> {
    Seq::empty()
}

/// The slot lies inside the queue, every task before it runs no later than
/// `run_at`, and every task from it on runs later.
pub proof fn lemma_slot_for<T>(tasks: Seq<ScheduledTask<T>>, run_at: u64)
    requires
        in_run_order(tasks),
    ensures
        0 <= slot_for(tasks, run_at) <= tasks.len(),
        forall|i: int| 0 <= i < slot_for(tasks, run_at) ==> tasks[i].run_at <= run_at,
        forall|i: int| slot_for(tasks, run_at) <= i < tasks.len() ==> tasks[i].run_at > run_at,
    decreases tasks.len(),
{
    if tasks.len() > 0 {
        let last = tasks.len() - 1;
        if tasks[last].run_at > run_at {
            let front = tasks.drop_last();
            assert forall|i: int, j: int| 0 <= i <= j < front.len() implies front[i].run_at
                <= front[j].run_at by {
                assert(front[i] == tasks[i] && front[j] == tasks[j]);
            }
            lemma_slot_for(front, run_at);
            assert forall|i: int| 0 <= i < slot_for(tasks, run_at) implies tasks[i].run_at
                <= run_at by {
                assert(front[i] == tasks[i]);
            }
            assert forall|i: int| slot_for(tasks, run_at) <= i < tasks.len() implies tasks[i].run_at
                > run_at by {
                if i < last {
                    assert(front[i] == tasks[i]);
                }
            }
        } else {
            assert forall|i: int| 0 <= i < tasks.len() implies tasks[i].run_at <= run_at by {
                assert(tasks[i].run_at <= tasks[last].run_at);
            }
        }
    }
}

/// A queue of scheduled tasks for a fixed set of workers.
pub struct ScheduledThreadPool<T> {
    workers: usize,
    queue: VecDeque<ScheduledTask<T>>,
}

impl<T> View for ScheduledThreadPool<T> {
    type V = Seq<ScheduledTask<T>>;

    /// The queued tasks, the next to run first.
    closed spec fn view(&self) -> Seq<ScheduledTask<T>> {
        self.queue@
    }
}

impl<T> ScheduledThreadPool<T> {
    /// What every queue satisfies: its tasks stand in the order in which
    /// they will run.
    pub open spec fn wf(&self) -> bool {
        in_run_order(self@)
    }

    /// The number of workers the executor was made for.
    pub closed spec fn spec_workers(&self) -> usize {
        self.workers
    }

    /// An empty queue for `workers` workers.
    pub fn new(workers: usize) -> (pool: ScheduledThreadPool<T>)
        ensures
            pool.wf(),
            pool@ == Seq::<ScheduledTask<T>>::empty(),
            pool.spec_workers() == workers,
    {
        ScheduledThreadPool { workers, queue: VecDeque::new() }
    }

    /// The number of workers the executor was made for.
    #[verifier::when_used_as_spec(spec_workers)]
    pub fn workers(&self) -> (n: usize)
        ensures
            n == self.spec_workers(),
    {
        self.workers
    }

    /// The number of tasks that wait in the queue.
    pub fn len(&self) -> (n: usize)
        ensures
            n == self@.len(),
    {
        self.queue.len()
    }

    /// The instant at which the next task may run, if there is a task.
    pub fn next_run_at(&self) -> (at: Option<u64>)
        ensures
            at == (if self@.len() == 0 {
                None
            } else {
                Some(self@[0].run_at)
            }),
    {
        if self.queue.len() == 0 {
            None
        } else {
            Some(self.queue[0].run_at)
        }
    }

    /// Schedules `task` to run no earlier than `delay` milliseconds after
    /// `now`. It runs after every task that is due no later than it.
    pub fn run_after(&mut self, now: u64, delay: u64, task: T)
        requires
            old(self).wf(),
        ensures
            final(self).wf(),
            final(self)@ == old(self)@.insert(
                slot_for(old(self)@, instant_after(now, delay)),
                (ScheduledTask { run_at: instant_after(now, delay), task }),
            ),
            final(self)@.len() == old(self)@.len() + 1,
            final(self).spec_workers() == old(self).spec_workers(),
    {
        let run_at: u64 = add_delay(now, delay);
        let mut pos: usize = self.queue.len();
        assert(self.queue@.take(pos as int) =~= self.queue@);
        while pos > 0 && self.queue[pos - 1].run_at > run_at
            invariant
                pos <= self.queue@.len(),
                in_run_order(self.queue@),
                slot_for(self.queue@, run_at) == slot_for(self.queue@.take(pos as int), run_at),
                forall|i: int| pos <= i < self.queue@.len() ==> self.queue@[i].run_at > run_at,
            decreases pos,
        {
            proof {
                let head = self.queue@.take(pos as int);
                assert(head.drop_last() =~= self.queue@.take(pos - 1));
            }
            pos = pos - 1;
        }
        proof {
            let head = self.queue@.take(pos as int);
            assert(slot_for(head, run_at) == pos);
        }
        self.queue.insert(pos, ScheduledTask { run_at, task });
    }

    /// Removes every task that has not yet been handed to a worker.
    pub fn clear(&mut self)
        ensures
            final(self).wf(),
            final(self)@ == cleared(old(self)@),
            final(self).spec_workers() == old(self).spec_workers(),
    {
        self.queue.clear();
    }

    /// Tells a worker what to do at instant `now`: run the task at the front
    /// if it is due, sleep until it is due, or wait for work.
    pub fn dispatch(&mut self, now: u64) -> (next: Dispatch<T>)
        requires
            old(self).wf(),
        ensures
            final(self).wf(),
            final(self).spec_workers() == old(self).spec_workers(),
            match next {
                Dispatch::Run(task) => {
                    &&& old(self)@.len() > 0
                    &&& old(self)@[0].run_at <= now
                    &&& task == old(self)@[0].task
                    &&& final(self)@ == old(self)@.drop_first()
                },
                Dispatch::Sleep(millis) => {
                    &&& old(self)@.len() > 0
                    &&& old(self)@[0].run_at > now
                    &&& millis == old(self)@[0].run_at - now
                    &&& final(self)@ == old(self)@
                },
                Dispatch::Idle => {
                    &&& old(self)@.len() == 0
                    &&& final(self)@ == old(self)@
                },
            },
    {
        if self.queue.len() == 0 {
            return Dispatch::Idle;
        }
        let run_at: u64 = self.queue[0].run_at;
        if run_at > now {
            return Dispatch::Sleep(run_at - now);
        }
        let entry = self.queue.pop_front().unwrap();
        Dispatch::Run(entry.task)
    }
}

} // verus!
