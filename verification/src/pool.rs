//! The bookkeeping of a fixed set of workers: which task starts at once,
//! which waits, and which is next when a worker comes free.
//!
//! The pool holds no thread. Whoever owns the threads tells it of each task
//! submitted and of each task that ended, and does what it answers.
//!
//! A task is received when it is submitted. It runs at once where a worker
//! is free, and is queued behind the tasks that wait where none is. It ends
//! with a response, a reported failure or a panic, and whatever it ends
//! with, its request is resolved and its worker goes on to the next task.

use crate::dispatch::{respond, response_to, TaskOutcome};
use crate::response::{is_sendable, WireResponse};
use std::collections::VecDeque;
use vstd::prelude::*;

verus! {

/// A pool as plain values: the number of workers, how many of them run a
/// task, and the tasks that wait, oldest first.
pub ghost struct PoolView<T> {
    pub size: nat,
    pub busy: nat,
    pub waiting: Seq<T>,
}

impl<T> PoolView<T> {
    /// What holds of every pool: it has a worker, no more workers are busy
    /// than it has, and a task waits only while every worker is busy.
    pub open spec fn is_sound(self) -> bool {
        &&& 0 < self.size
        &&& self.busy <= self.size
        &&& self.waiting.len() > 0 ==> self.busy == self.size
    }

    /// Whether a worker is free.
    pub open spec fn has_free_worker(self) -> bool {
        self.busy < self.size
    }

    /// The pool after a task was submitted: the task occupies a free worker,
    /// or joins the end of the waiting line where there is none.
    pub open spec fn submit(self, task: T) -> PoolView<T> {
        if self.has_free_worker() {
            PoolView { busy: self.busy + 1, ..self }
        } else {
            PoolView { waiting: self.waiting.push(task), ..self }
        }
    }

    /// The task that a worker takes up when it comes free: the one that has
    /// waited longest.
    pub open spec fn next_up(self) -> Option<T> {
        if self.waiting.len() > 0 {
            Some(self.waiting[0])
        } else {
            None
        }
    }

    /// The pool after a worker ended its task: it takes up the task that
    /// has waited longest, or comes free where none waits. Where no worker
    /// was busy nothing changes.
    pub open spec fn release(self) -> PoolView<T> {
        if self.waiting.len() > 0 {
            PoolView { waiting: self.waiting.skip(1), ..self }
        } else if self.busy > 0 {
            PoolView { busy: (self.busy - 1) as nat, ..self }
        } else {
            self
        }
    }
}

/// What a pool is told of: that a task was submitted, or that a worker ended
/// the task it ran.
pub ghost enum PoolEvent<T> {
    Submitted(T),
    Completed,
}

impl<T> PoolView<T> {
    /// The pool after an event.
    pub open spec fn after(self, event: PoolEvent<T>) -> PoolView<T> {
        match event {
            PoolEvent::Submitted(task) => self.submit(task),
            PoolEvent::Completed => self.release(),
        }
    }

    /// The task that an event starts on a worker, if it starts one.
    pub open spec fn started_by(self, event: PoolEvent<T>) -> Option<T> {
        match event {
            PoolEvent::Submitted(task) => if self.has_free_worker() {
                Some(task)
            } else {
                None
            },
            PoolEvent::Completed => self.next_up(),
        }
    }

    /// The pool after a run of events.
    pub open spec fn after_all(self, events: Seq<PoolEvent<T>>) -> PoolView<T>
        decreases events.len(),
    {
        if events.len() == 0 {
            self
        } else {
            self.after(events[0]).after_all(events.skip(1))
        }
    }

    /// The tasks that a run of events starts, in the order in which they
    /// start.
    pub open spec fn started_in(self, events: Seq<PoolEvent<T>>) -> Seq<T>
        decreases events.len(),
    {
        if events.len() == 0 {
            Seq::empty()
        } else {
            let first = match self.started_by(events[0]) {
                Some(task) => seq![task],
                None => Seq::empty(),
            };
            first + self.after(events[0]).started_in(events.skip(1))
        }
    }
}

/// The tasks that a run of events submits, in the order in which they are
/// submitted.
pub open spec fn submitted_in<T>(events: Seq<PoolEvent<T>>) -> Seq<T>
    decreases events.len(),
{
    if events.len() == 0 {
        Seq::empty()
    } else {
        let first = match events[0] {
            PoolEvent::Submitted(task) => seq![task],
            PoolEvent::Completed => Seq::empty(),
        };
        first + submitted_in(events.skip(1))
    }
}

/// What the end of a task brings: the response for the request it served,
/// and the task that the worker takes up next, if one waited.
pub struct Completion<T> {
    pub response: WireResponse,
    pub next: Option<T>,
}

/// A pool of a fixed number of workers with its line of waiting tasks.
pub struct WorkerPool<T> {
    size: usize,
    busy: usize,
    waiting: VecDeque<T>,
}

impl<T> View for WorkerPool<T> {
    type V = PoolView<T>;

    closed spec fn view(&self) -> PoolView<T> {
        PoolView { size: self.size as nat, busy: self.busy as nat, waiting: self.waiting@ }
    }
}

impl<T> WorkerPool<T> {
    #[verifier::type_invariant]
    spec fn sound(&self) -> bool {
        self@.is_sound()
    }

    /// A pool of `size` idle workers, which must be at least one.
    pub fn new(size: usize) -> (pool: WorkerPool<T>)
        requires
            size > 0,
        ensures
            pool@ == (PoolView::<T> { size: size as nat, busy: 0, waiting: Seq::empty() }),
    {
        WorkerPool { size, busy: 0, waiting: VecDeque::new() }
    }

    /// The number of workers.
    pub fn size(&self) -> (size: usize)
        ensures
            size == self@.size,
            self@.is_sound(),
    {
        proof {
            use_type_invariant(self);
        }
        self.size
    }

    /// The number of workers that run a task.
    pub fn busy(&self) -> (busy: usize)
        ensures
            busy == self@.busy,
            self@.is_sound(),
    {
        proof {
            use_type_invariant(self);
        }
        self.busy
    }

    /// The number of tasks that wait for a worker.
    pub fn waiting(&self) -> (waiting: usize)
        ensures
            waiting == self@.waiting.len(),
            self@.is_sound(),
    {
        proof {
            use_type_invariant(self);
        }
        self.waiting.len()
    }

    /// Takes a task in. Where a worker is free the task is handed back to be
    /// started on it at once; where all are busy the task is kept, behind
    /// those that wait already, and nothing is handed back. No task is
    /// turned away.
    pub fn submit(&mut self, task: T) -> (start: Option<T>)
        ensures
            old(self)@.is_sound(),
            final(self)@ == old(self)@.submit(task),
            final(self)@.is_sound(),
            final(self)@.size == old(self)@.size,
            start == if old(self)@.has_free_worker() {
                Some(task)
            } else {
                None
            },
    {
        proof {
            use_type_invariant(&*self);
        }
        if self.busy < self.size {
            self.busy = self.busy + 1;
            Some(task)
        } else {
            let mut waiting: VecDeque<T> = VecDeque::new();
            core::mem::swap(&mut self.waiting, &mut waiting);
            waiting.push_back(task);
            self.waiting = waiting;
            None
        }
    }

    /// Takes note that a worker ended its task, whatever came of it, a panic
    /// included: the request is answered, and the worker takes up the task
    /// that has waited longest or comes free. The pool is as large after it
    /// as before.
    pub fn complete(&mut self, outcome: TaskOutcome) -> (done: Completion<T>)
        ensures
            old(self)@.is_sound(),
            final(self)@ == old(self)@.release(),
            final(self)@.is_sound(),
            final(self)@.size == old(self)@.size,
            done.next == old(self)@.next_up(),
            done.response@ == response_to(outcome),
            is_sendable(done.response@),
    {
        proof {
            use_type_invariant(&*self);
        }
        let response = respond(outcome);
        let mut waiting: VecDeque<T> = VecDeque::new();
        core::mem::swap(&mut self.waiting, &mut waiting);
        let next = waiting.pop_front();
        if next.is_none() && self.busy > 0 {
            self.busy = self.busy - 1;
        }
        self.waiting = waiting;
        Completion { response, next }
    }
}

/// A worker that ended its task is there for the next one: while no task
/// waits, the task submitted after the end of another starts at once, and
/// the pool has the workers it had.
pub proof fn lemma_worker_returns<T>(pool: PoolView<T>, task: T)
    requires
        pool.is_sound(),
        pool.busy > 0,
        pool.waiting.len() == 0,
    ensures
        pool.release().is_sound(),
        pool.release().size == pool.size,
        pool.release().has_free_worker(),
        pool.release().submit(task).busy == pool.busy,
        pool.release().submit(task).waiting.len() == 0,
{
}

/// Whatever a pool is told, in whatever order, it stays sound and keeps its
/// size, and the tasks it has started followed by those that still wait are
/// the tasks that waited at first followed by those submitted since: every
/// task is started once, none is dropped, and they start in the order in
/// which they came.
pub proof fn lemma_tasks_start_in_order<T>(pool: PoolView<T>, events: Seq<PoolEvent<T>>)
    requires
        pool.is_sound(),
    ensures
        pool.after_all(events).is_sound(),
        pool.after_all(events).size == pool.size,
        pool.started_in(events) + pool.after_all(events).waiting == pool.waiting + submitted_in(
            events,
        ),
    decreases events.len(),
{
    if events.len() > 0 {
        let next = pool.after(events[0]);
        let rest = events.skip(1);
        lemma_tasks_start_in_order(next, rest);
        match events[0] {
            PoolEvent::Submitted(task) => {
                if pool.has_free_worker() {
                    assert(pool.waiting.len() == 0);
                    assert(pool.started_in(events) + pool.after_all(events).waiting =~= seq![task]
                        + (next.started_in(rest) + next.after_all(rest).waiting));
                } else {
                    assert(next.waiting + submitted_in(rest) =~= pool.waiting + (seq![task]
                        + submitted_in(rest)));
                }
            },
            PoolEvent::Completed => {
                if pool.waiting.len() > 0 {
                    assert(pool.started_in(events) + pool.after_all(events).waiting
                        =~= seq![pool.waiting[0]] + (next.started_in(rest) + next.after_all(
                        rest,
                    ).waiting));
                    assert(seq![pool.waiting[0]] + (next.waiting + submitted_in(rest))
                        =~= pool.waiting + submitted_in(rest));
                }
            },
        }
    }
}

/// Tasks that wait are started in the order in which they were submitted:
/// a task submitted to a pool without a free worker comes up only after
/// every task that waited before it.
pub proof fn lemma_first_in_first_out<T>(pool: PoolView<T>, task: T)
    requires
        pool.is_sound(),
        !pool.has_free_worker(),
    ensures
        pool.submit(task).is_sound(),
        pool.submit(task).next_up() == if pool.waiting.len() > 0 {
            pool.next_up()
        } else {
            Some(task)
        },
        pool.waiting.len() > 0 ==> pool.submit(task).release() == pool.release().submit(task),
{
    if pool.waiting.len() > 0 {
        assert(pool.waiting.push(task).skip(1) =~= pool.waiting.skip(1).push(task));
    }
}

} // verus!
