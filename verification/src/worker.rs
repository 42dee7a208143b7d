//! The state machine of one worker.
//!
//! A worker is idle until it dequeues a message. A job makes it execute, and
//! it is idle again once the job is done. The order to terminate, or the
//! disconnect of the channel, ends it for good.
use crate::channel::Received;
use crate::message::Message;
use vstd::prelude::*;

verus! {

/// Where a worker stands in its life.
#[derive(Debug, Clone, Copy, PartialEq, Eq, Structural)]
pub enum WorkerState {
    /// Waiting for its next message.
    Idle,
    /// Running a job that it dequeued.
    Executing,
    /// Has left its loop and will never dequeue again.
    Terminated,
}

/// What a worker does after an attempt to dequeue.
pub enum Action<J> {
    /// Run this job, then report its completion.
    Run(J),
    /// Nothing is pending: block until something may be.
    Wait,
    /// Leave the loop.
    Exit,
}

/// The state that an idle worker enters on the outcome `r` of a dequeue.
pub open spec fn state_after<J>(r: Received<J>) -> WorkerState {
    match r {
        Received::Message(Message::NewJob(_)) => WorkerState::Executing,
        Received::Message(Message::Terminate) => WorkerState::Terminated,
        Received::Disconnected => WorkerState::Terminated,
        Received::Empty => WorkerState::Idle,
    }
}

/// What an idle worker does on the outcome `r` of a dequeue.
pub open spec fn action_for<J>(r: Received<J>) -> Action<J> {
    match r {
        Received::Message(Message::NewJob(job)) => Action::Run(job),
        Received::Message(Message::Terminate) => Action::Exit,
        Received::Disconnected => Action::Exit,
        Received::Empty => Action::Wait,
    }
}

/// The mathematical content of a worker.
pub struct WorkerView {
    /// Its identity, fixed when it is made.
    pub id: nat,
    /// Where it stands in its life.
    pub state: WorkerState,
    /// Whether its thread has been waited on.
    pub joined: bool,
}

impl WorkerView {
    /// A fresh worker: idle and not yet joined.
    pub open spec fn fresh(id: nat) -> WorkerView {
        WorkerView { id, state: WorkerState::Idle, joined: false }
    }

    /// The worker in another state.
    pub open spec fn with_state(self, state: WorkerState) -> WorkerView {
        WorkerView { id: self.id, state, joined: self.joined }
    }

    /// The worker after the job it was running has returned. A worker that
    /// runs no job is left as it is.
    pub open spec fn completed(self) -> WorkerView {
        if self.state is Executing {
            self.with_state(WorkerState::Idle)
        } else {
            self
        }
    }

    /// The worker after its thread has been waited on.
    pub open spec fn joined(self) -> WorkerView {
        WorkerView { id: self.id, state: self.state, joined: true }
    }

    /// Whether the worker can still dequeue, now or later.
    pub open spec fn live(self) -> bool {
        !(self.state is Terminated)
    }
}

/// One worker of a pool.
pub struct Worker {
    id: usize,
    state: WorkerState,
    joined: bool,
}

impl View for Worker {
    type V = WorkerView;

    closed spec fn view(&self) -> WorkerView {
        WorkerView { id: self.id as nat, state: self.state, joined: self.joined }
    }
}

impl Worker {
    /// A fresh worker with the identity `id`.
    pub fn new(id: usize) -> (w: Worker)
        ensures
            w@ == WorkerView::fresh(id as nat),
    {
        Worker { id, state: WorkerState::Idle, joined: false }
    }

    /// The worker's identity.
    pub fn id(&self) -> (id: usize)
        ensures
            id == self@.id,
    {
        self.id
    }

    /// Where the worker stands in its life.
    pub fn state(&self) -> (s: WorkerState)
        ensures
            s == self@.state,
    {
        self.state
    }

    /// Whether the worker's thread has been waited on.
    pub fn is_joined(&self) -> (b: bool)
        ensures
            b == self@.joined,
    {
        self.joined
    }

    /// Takes the outcome of a dequeue that this idle worker made, moves the
    /// worker to its next state and says what it does next.
    pub fn on_received<J>(&mut self, r: Received<J>) -> (a: Action<J>)
        requires
            old(self)@.state is Idle,
        ensures
            final(self)@ == old(self)@.with_state(state_after(r)),
            a == action_for(r),
    {
        match r {
            Received::Message(Message::NewJob(job)) => {
                self.state = WorkerState::Executing;
                Action::Run(job)
            },
            Received::Message(Message::Terminate) => {
                self.state = WorkerState::Terminated;
                Action::Exit
            },
            Received::Disconnected => {
                self.state = WorkerState::Terminated;
                Action::Exit
            },
            Received::Empty => Action::Wait,
        }
    }

    /// Records that the job this worker was running has returned.
    pub fn on_completed(&mut self)
        ensures
            final(self)@ == old(self)@.completed(),
    {
        if self.state == WorkerState::Executing {
            self.state = WorkerState::Idle;
        }
    }

    /// Records that this worker's thread has been waited on.
    pub fn on_joined(&mut self)
        ensures
            final(self)@ == old(self)@.joined(),
    {
        self.joined = true;
    }
}

} // verus!
