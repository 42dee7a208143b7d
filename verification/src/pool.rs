//! The worker pool.
//!
//! A `ThreadPool` holds the dispatch channel and the records of its workers,
//! and decides every step of their protocol. Producers call `execute`. The
//! thread of worker `id` calls `receive(id)` for its next message, runs the
//! job it is handed and reports with `complete(id)`. Disposal is `shutdown`,
//! then one wait per worker in the order that `next_join` gives, each
//! reported with `join`.
use crate::channel::{Channel, ChannelClosed};
use crate::message::Message;
use crate::model::{terminate_orders, JobRecord, JobStatus, PoolView};
use crate::proofs::{
    lemma_complete_wf, lemma_execute_wf, lemma_fresh_wf, lemma_join_wf, lemma_receive_wf,
    lemma_shutdown_wf,
};
use crate::worker::{Action, Worker, WorkerState, WorkerView};
use vstd::prelude::*;

verus! {

/// A pool of a fixed number of workers that run jobs of type `J`.
pub struct ThreadPool<J> {
    workers: Vec<Worker>,
    channel: Channel<J>,
    joined: usize,
    jobs: Ghost<Seq<JobRecord<J>>>,
    running: Ghost<Seq<Option<int>>>,
}

impl<J> View for ThreadPool<J> {
    type V = PoolView<J>;

    closed spec fn view(&self) -> PoolView<J> {
        PoolView {
            workers: Seq::new(self.workers@.len(), |i: int| self.workers@[i]@),
            channel: self.channel@,
            jobs: self.jobs@,
            running: self.running@,
            joined: self.joined as nat,
        }
    }
}

impl<J> ThreadPool<J> {
    /// The invariant of the pool, which `new` establishes and every method
    /// preserves.
    pub open spec fn wf(&self) -> bool {
        self@.wf()
    }

    /// A pool of `size` workers with the identities `0` to `size - 1`, all
    /// idle, with nothing pending.
    pub fn new(size: usize) -> (pool: ThreadPool<J>)
        requires
            size > 0,
        ensures
            pool.wf(),
            pool@ == PoolView::<J>::fresh(size as nat),
    {
        let mut workers: Vec<Worker> = Vec::with_capacity(size);
        let mut id: usize = 0;
        while id < size
            invariant
                id <= size,
                workers@.len() == id,
                forall|i: int| 0 <= i < id ==> (#[trigger] workers@[i])@ == WorkerView::fresh(i as nat),
            decreases size - id,
        {
            workers.push(Worker::new(id));
            id = id + 1;
        }
        let pool = ThreadPool {
            workers,
            channel: Channel::new(),
            joined: 0,
            jobs: Ghost(Seq::empty()),
            running: Ghost(Seq::new(size as nat, |i: int| None)),
        };
        proof {
            let fresh = PoolView::<J>::fresh(size as nat);
            assert(pool@.workers =~= fresh.workers);
            assert(pool@.channel == fresh.channel);
            assert(pool@.running =~= fresh.running);
            lemma_fresh_wf::<J>(size as nat);
        }
        pool
    }

    /// The number of workers.
    pub fn size(&self) -> (n: usize)
        ensures
            n == self@.size(),
    {
        self.workers.len()
    }

    /// The state of the worker `id`.
    pub fn worker_state(&self, id: usize) -> (s: WorkerState)
        requires
            id < self@.size(),
        ensures
            s == self@.workers[id as int].state,
    {
        self.workers[id].state()
    }

    /// The number of messages in the channel.
    pub fn pending(&self) -> (n: usize)
        ensures
            n == self@.channel.pending.len(),
    {
        self.channel.len()
    }

    /// Whether a submission would be accepted.
    pub fn is_accepting(&self) -> (b: bool)
        ensures
            b == self@.accepts(),
    {
        !self.channel.is_closed()
    }

    /// Submits `job`: queues it behind everything pending and enters it in
    /// the ledger. Fails, changing nothing, if and only if disposal has
    /// begun.
    pub fn execute(&mut self, job: J) -> (r: Result<(), ChannelClosed>)
        requires
            old(self).wf(),
        ensures
            final(self).wf(),
            r is Ok <==> old(self)@.accepts(),
            final(self)@ == old(self)@.execute(job),
    {
        let ghost before = self@;
        let ghost record = JobRecord { job, status: JobStatus::Pending };
        let r = self.channel.send(Message::NewJob(job));
        if r.is_ok() {
            self.jobs = Ghost(before.jobs.push(record));
        }
        proof {
            assert(self@.workers =~= before.workers);
            lemma_execute_wf(before, job);
        }
        r
    }

    /// Gives the worker `id` its next message. An idle worker dequeues: a job
    /// is handed to it to run, the order to terminate ends it, and an empty
    /// channel makes it wait. A terminated worker is told to exit and
    /// dequeues nothing.
    pub fn receive(&mut self, id: usize) -> (a: Action<J>)
        requires
            old(self).wf(),
            id < old(self)@.size(),
            !(old(self)@.workers[id as int].state is Executing),
        ensures
            final(self).wf(),
            a == old(self)@.action(id as int),
            final(self)@ == old(self)@.receive(id as int),
    {
        let ghost before = self@;
        if self.workers[id].state() != WorkerState::Idle {
            return Action::Exit;
        }
        let r = self.channel.receive();
        let ghost outcome = r;
        let a = self.workers[id].on_received(r);
        if let Action::Run(_) = &a {
            let ghost t = before.started();
            self.jobs = Ghost(
                before.jobs.update(
                    t,
                    JobRecord { job: before.jobs[t].job, status: JobStatus::Running(id as int) },
                ),
            );
            self.running = Ghost(before.running.update(id as int, Some(t)));
        }
        proof {
            assert(self@.workers =~= before.receive(id as int).workers);
            lemma_receive_wf(before, id as int);
        }
        a
    }

    /// Records that the job which the worker `id` was running has returned:
    /// the job is done and the worker is idle again. A worker that runs no
    /// job changes nothing.
    pub fn complete(&mut self, id: usize)
        requires
            old(self).wf(),
            id < old(self)@.size(),
        ensures
            final(self).wf(),
            final(self)@ == old(self)@.complete(id as int),
    {
        let ghost before = self@;
        if self.workers[id].state() == WorkerState::Executing {
            self.workers[id].on_completed();
            let ghost t = before.running[id as int]->0;
            self.jobs = Ghost(
                before.jobs.update(
                    t,
                    JobRecord { job: before.jobs[t].job, status: JobStatus::Done(id as int) },
                ),
            );
            self.running = Ghost(before.running.update(id as int, None));
        }
        proof {
            assert(self@.workers =~= before.complete(id as int).workers);
            lemma_complete_wf(before, id as int);
        }
    }

    /// Begins disposal: queues one order to terminate for each worker behind
    /// everything pending, then closes the channel. A second call changes
    /// nothing.
    pub fn shutdown(&mut self)
        requires
            old(self).wf(),
        ensures
            final(self).wf(),
            final(self)@ == old(self)@.shutdown(),
    {
        let ghost before = self@;
        if !self.channel.is_closed() {
            let size = self.workers.len();
            let mut sent: usize = 0;
            while sent < size
                invariant
                    sent <= size,
                    size == before.size(),
                    !self.channel@.closed,
                    self.channel@.pending == before.channel.pending + terminate_orders::<J>(
                        sent as nat,
                    ),
                    self.workers == old(self).workers,
                    self.joined == old(self).joined,
                    self.jobs == old(self).jobs,
                    self.running == old(self).running,
                decreases size - sent,
            {
                let _ = self.channel.send(Message::Terminate);
                sent = sent + 1;
                assert(self.channel@.pending =~= before.channel.pending + terminate_orders::<J>(
                    sent as nat,
                ));
            }
            self.channel.close();
        }
        proof {
            assert(self@.workers =~= before.workers);
            lemma_shutdown_wf(before);
        }
    }

    /// The worker whose thread is to be waited on next: the one with the
    /// lowest identity that has not been joined yet. There is none before
    /// disposal has begun, nor after every worker has been joined.
    pub fn next_join(&self) -> (r: Option<usize>)
        ensures
            match r {
                Some(id) => self@.next_join() == Some(id as int),
                None => self@.next_join() is None,
            },
    {
        if self.channel.is_closed() && self.joined < self.workers.len() {
            Some(self.joined)
        } else {
            None
        }
    }

    /// Records that the wait on the worker `id` has returned. That worker is
    /// the one that `next_join` names, and its thread has left its loop.
    pub fn join(&mut self, id: usize)
        requires
            old(self).wf(),
            old(self)@.next_join() == Some(id as int),
            old(self)@.workers[id as int].state is Terminated,
        ensures
            final(self).wf(),
            final(self)@ == old(self)@.join(),
    {
        let ghost before = self@;
        let size = self.workers.len();
        assert(self.joined < size) by {
            assert(before.joined < before.workers.len());
        }
        let next = self.joined + 1;
        self.workers[id].on_joined();
        self.joined = next;
        proof {
            assert(self@.workers =~= before.join().workers);
            lemma_join_wf(before);
        }
    }

    /// Whether disposal is complete: it has begun and every worker has been
    /// joined.
    pub fn is_disposed(&self) -> (b: bool)
        ensures
            b == self@.disposed(),
    {
        self.channel.is_closed() && self.joined == self.workers.len()
    }
}

} // verus!
