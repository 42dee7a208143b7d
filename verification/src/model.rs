//! The mathematical model of the pool.
//!
//! A pool is its workers, its dispatch channel and a ledger of every job it
//! ever accepted. The ledger gives each job a ticket, its position in the
//! order of acceptance, and records whether the job is still pending, is
//! running on a worker, or is done. The operations of the pool are functions
//! on this model, and the invariant `wf` ties its parts together.
use crate::channel::ChannelView;
use crate::message::Message;
use crate::worker::{action_for, state_after, Action, WorkerView};
use vstd::prelude::*;

verus! {

/// How far a job has come.
pub enum JobStatus {
    /// Accepted and still in the channel.
    Pending,
    /// Dequeued by the worker with this identity, which is running it.
    Running(int),
    /// Run to its end by the worker with this identity.
    Done(int),
}

impl JobStatus {
    /// Whether a job in this status can later be found in the status `later`:
    /// a pending job can become anything, a running job stays with its worker
    /// until it is done there, and a done job stays done.
    pub open spec fn leads_to(self, later: JobStatus) -> bool {
        match self {
            JobStatus::Pending => true,
            JobStatus::Running(w) => later == JobStatus::Running(w) || later == JobStatus::Done(w),
            JobStatus::Done(w) => later == JobStatus::Done(w),
        }
    }
}

/// One line of the ledger.
pub struct JobRecord<J> {
    pub job: J,
    pub status: JobStatus,
}

/// The number of workers in `ws` that have not terminated.
pub open spec fn live_count(ws: Seq<WorkerView>) -> nat
    decreases ws.len(),
{
    if ws.len() == 0 {
        0
    } else {
        live_count(ws.drop_last()) + if ws.last().live() {
            1nat
        } else {
            0nat
        }
    }
}

/// `n` orders to terminate.
pub open spec fn terminate_orders<J>(n: nat) -> Seq<Message<J>> {
    Seq::new(n, |i: int| Message::Terminate)
}

/// The mathematical content of a pool.
pub struct PoolView<J> {
    /// The workers, each at the index that is its identity.
    pub workers: Seq<WorkerView>,
    /// The dispatch channel.
    pub channel: ChannelView<J>,
    /// Every job ever accepted, in the order of acceptance.
    pub jobs: Seq<JobRecord<J>>,
    /// For each worker, the ticket of the job it is running, if any.
    pub running: Seq<Option<int>>,
    /// The number of workers whose threads have been waited on.
    pub joined: nat,
}

impl<J> PoolView<J> {
    /// The number of workers.
    pub open spec fn size(self) -> nat {
        self.workers.len()
    }

    /// The number of orders to terminate that the channel holds: one for each
    /// worker that has not terminated, once disposal has begun.
    pub open spec fn terminators(self) -> nat {
        if self.channel.closed {
            live_count(self.workers)
        } else {
            0
        }
    }

    /// The number of jobs that wait in the channel.
    pub open spec fn waiting(self) -> int {
        self.channel.pending.len() - self.terminators()
    }

    /// The number of jobs that have left the channel, which is also the
    /// ticket of the job that leaves it next.
    pub open spec fn started(self) -> int {
        self.jobs.len() - self.waiting()
    }

    /// The invariant of the pool.
    pub open spec fn wf(self) -> bool {
        &&& self.workers.len() > 0
        &&& self.running.len() == self.workers.len()
        &&& self.joined <= self.workers.len()
        &&& forall|w: int| 0 <= w < self.workers.len() ==> (#[trigger] self.workers[w]).id == w
        // the channel holds the waiting jobs in order of acceptance, then the
        // orders to terminate
        &&& 0 <= self.waiting() <= self.jobs.len()
        &&& forall|i: int|
            0 <= i < self.waiting() ==> #[trigger] self.channel.pending[i] == Message::NewJob(
                self.jobs[self.started() + i].job,
            )
        &&& forall|i: int|
            self.waiting() <= i < self.channel.pending.len()
                ==> #[trigger] self.channel.pending[i] is Terminate
        // the tickets below `started` are those that are no longer pending
        &&& forall|t: int|
            0 <= t < self.jobs.len() ==> ((#[trigger] self.jobs[t]).status is Pending <==> t
                >= self.started())
        // a job runs on a worker exactly while that worker executes it
        &&& forall|t: int|
            0 <= t < self.jobs.len() ==> match (#[trigger] self.jobs[t]).status {
                JobStatus::Pending => true,
                JobStatus::Running(w) => {
                    &&& 0 <= w < self.workers.len()
                    &&& self.workers[w].state is Executing
                    &&& self.running[w] == Some(t)
                },
                JobStatus::Done(w) => 0 <= w < self.workers.len(),
            }
        &&& forall|w: int|
            0 <= w < self.workers.len() && (#[trigger] self.workers[w]).state is Executing ==> {
                &&& self.running[w] is Some
                &&& 0 <= self.running[w]->0 < self.jobs.len()
                &&& self.jobs[self.running[w]->0].status == JobStatus::Running(w)
            }
        // no worker terminates before disposal begins
        &&& !self.channel.closed ==> forall|w: int|
            0 <= w < self.workers.len() ==> (#[trigger] self.workers[w]).live()
        // workers are joined in the order of their identities, and only once
        // they have terminated
        &&& self.joined > 0 ==> self.channel.closed
        &&& forall|w: int|
            0 <= w < self.workers.len() ==> ((#[trigger] self.workers[w]).joined <==> w
                < self.joined)
        &&& forall|w: int|
            0 <= w < self.joined ==> (#[trigger] self.workers[w]).state is Terminated
        // the last worker to terminate leaves no job behind
        &&& self.channel.closed && live_count(self.workers) == 0 ==> self.waiting() == 0
    }

    /// A new pool of `size` workers: all idle, nothing pending, no job yet.
    pub open spec fn fresh(size: nat) -> PoolView<J> {
        PoolView {
            workers: Seq::new(size, |i: int| WorkerView::fresh(i as nat)),
            channel: ChannelView { pending: Seq::empty(), closed: false },
            jobs: Seq::empty(),
            running: Seq::new(size, |i: int| None),
            joined: 0,
        }
    }

    /// Whether a submission is accepted.
    pub open spec fn accepts(self) -> bool {
        !self.channel.closed
    }

    /// The pool after the submission of `job`. A pool that no longer accepts
    /// is left as it is.
    pub open spec fn execute(self, job: J) -> PoolView<J> {
        if self.accepts() {
            PoolView {
                channel: self.channel.send(Message::NewJob(job)),
                jobs: self.jobs.push(JobRecord { job, status: JobStatus::Pending }),
                ..self
            }
        } else {
            self
        }
    }

    /// What the worker `id` is told when it asks for its next message.
    pub open spec fn action(self, id: int) -> Action<J> {
        if self.workers[id].state is Idle {
            action_for(self.channel.received())
        } else {
            Action::Exit
        }
    }

    /// The pool after the worker `id` has asked for its next message. An idle
    /// worker dequeues; a job that it dequeues is recorded as running on it.
    /// Any other worker changes nothing.
    pub open spec fn receive(self, id: int) -> PoolView<J> {
        if self.workers[id].state is Idle {
            let r = self.channel.received();
            let t = self.started();
            PoolView {
                workers: self.workers.update(id, self.workers[id].with_state(state_after(r))),
                channel: self.channel.receive(),
                jobs: if r is Message && r->Message_0 is NewJob {
                    self.jobs.update(
                        t,
                        JobRecord { job: self.jobs[t].job, status: JobStatus::Running(id) },
                    )
                } else {
                    self.jobs
                },
                running: if r is Message && r->Message_0 is NewJob {
                    self.running.update(id, Some(t))
                } else {
                    self.running
                },
                ..self
            }
        } else {
            self
        }
    }

    /// The pool after the job that the worker `id` was running has returned.
    /// A worker that runs no job changes nothing.
    pub open spec fn complete(self, id: int) -> PoolView<J> {
        if self.workers[id].state is Executing {
            let t = self.running[id]->0;
            PoolView {
                workers: self.workers.update(id, self.workers[id].completed()),
                jobs: self.jobs.update(
                    t,
                    JobRecord { job: self.jobs[t].job, status: JobStatus::Done(id) },
                ),
                running: self.running.update(id, None),
                ..self
            }
        } else {
            self
        }
    }

    /// The pool after disposal has begun: one order to terminate for each
    /// worker is queued behind everything pending, and the channel is closed.
    /// A second call changes nothing.
    pub open spec fn shutdown(self) -> PoolView<J> {
        if self.channel.closed {
            self
        } else {
            PoolView {
                channel: ChannelView {
                    pending: self.channel.pending + terminate_orders(self.size()),
                    closed: true,
                },
                ..self
            }
        }
    }

    /// The worker to wait on next: the one with the lowest identity that has
    /// not been joined, once disposal has begun.
    pub open spec fn next_join(self) -> Option<int> {
        if self.channel.closed && self.joined < self.size() {
            Some(self.joined as int)
        } else {
            None
        }
    }

    /// The pool after the wait on the worker `next_join` has returned.
    pub open spec fn join(self) -> PoolView<J> {
        let id = self.joined as int;
        PoolView {
            workers: self.workers.update(id, self.workers[id].joined()),
            joined: self.joined + 1,
            ..self
        }
    }

    /// Whether disposal is complete: it has begun and every worker has been
    /// joined.
    pub open spec fn disposed(self) -> bool {
        self.channel.closed && self.joined == self.size()
    }

    /// Whether `later` continues the ledger of `self`: every job is still
    /// there under its ticket, and its status has only moved forward.
    pub open spec fn continued_by(self, later: PoolView<J>) -> bool {
        &&& self.jobs.len() <= later.jobs.len()
        &&& forall|t: int|
            0 <= t < self.jobs.len() ==> {
                &&& (#[trigger] later.jobs[t]).job == self.jobs[t].job
                &&& self.jobs[t].status.leads_to(later.jobs[t].status)
            }
    }

    /// Whether the job with ticket `t` has been run to its end.
    pub open spec fn done(self, t: int) -> bool {
        0 <= t < self.jobs.len() && self.jobs[t].status is Done
    }
}

} // verus!
