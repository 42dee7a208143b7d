//! The dispatch channel: a FIFO queue of messages that can be closed.
//!
//! Messages leave in the order in which they were sent, each exactly once.
//! A closed channel accepts nothing more; what it already holds can still be
//! received, and once it is drained it reports the disconnect.
use crate::message::Message;
use std::collections::VecDeque;
use vstd::prelude::*;

verus! {

/// The error of a send on a closed channel.
#[derive(Debug, Clone, Copy, PartialEq, Eq, Structural)]
pub struct ChannelClosed;

/// The outcome of one attempt to dequeue.
pub enum Received<J> {
    /// The oldest pending message, now removed from the channel.
    Message(Message<J>),
    /// Nothing is pending, but more may still be sent: the receiver waits.
    Empty,
    /// Nothing is pending and nothing will ever arrive.
    Disconnected,
}

/// The mathematical content of a channel.
pub struct ChannelView<J> {
    /// The messages sent and not yet received, oldest first.
    pub pending: Seq<Message<J>>,
    /// Whether the channel has stopped accepting messages.
    pub closed: bool,
}

impl<J> ChannelView<J> {
    /// The channel after an attempt to send `m`.
    pub open spec fn send(self, m: Message<J>) -> ChannelView<J> {
        if self.closed {
            self
        } else {
            ChannelView { pending: self.pending.push(m), closed: false }
        }
    }

    /// What an attempt to dequeue returns.
    pub open spec fn received(self) -> Received<J> {
        if self.pending.len() > 0 {
            Received::Message(self.pending[0])
        } else if self.closed {
            Received::Disconnected
        } else {
            Received::Empty
        }
    }

    /// The channel after an attempt to dequeue.
    pub open spec fn receive(self) -> ChannelView<J> {
        if self.pending.len() > 0 {
            ChannelView { pending: self.pending.drop_first(), closed: self.closed }
        } else {
            self
        }
    }

    /// The channel after it was closed.
    pub open spec fn close(self) -> ChannelView<J> {
        ChannelView { pending: self.pending, closed: true }
    }
}

/// A FIFO channel of messages.
pub struct Channel<J> {
    queue: VecDeque<Message<J>>,
    closed: bool,
}

impl<J> View for Channel<J> {
    type V = ChannelView<J>;

    closed spec fn view(&self) -> ChannelView<J> {
        ChannelView { pending: self.queue@, closed: self.closed }
    }
}

impl<J> Channel<J> {
    /// An open channel with nothing pending.
    pub fn new() -> (c: Channel<J>)
        ensures
            c@.pending == Seq::<Message<J>>::empty(),
            !c@.closed,
    {
        Channel { queue: VecDeque::new(), closed: false }
    }

    /// Enqueues `m` behind everything pending. Fails, changing nothing, if and
    /// only if the channel is closed.
    pub fn send(&mut self, m: Message<J>) -> (r: Result<(), ChannelClosed>)
        ensures
            r is Err <==> old(self)@.closed,
            final(self)@ == old(self)@.send(m),
    {
        if self.closed {
            Err(ChannelClosed)
        } else {
            self.queue.push_back(m);
            Ok(())
        }
    }

    /// Dequeues the oldest pending message, if there is one; otherwise says
    /// whether more may still arrive.
    pub fn receive(&mut self) -> (r: Received<J>)
        ensures
            r == old(self)@.received(),
            final(self)@ == old(self)@.receive(),
    {
        match self.queue.pop_front() {
            Some(m) => {
                assert(old(self)@.pending.drop_first() =~= self.queue@);
                Received::Message(m)
            },
            None => {
                if self.closed {
                    Received::Disconnected
                } else {
                    Received::Empty
                }
            },
        }
    }

    /// Stops the channel from accepting messages. What is pending stays.
    pub fn close(&mut self)
        ensures
            final(self)@ == old(self)@.close(),
    {
        self.closed = true;
    }

    /// Whether the channel has stopped accepting messages.
    pub fn is_closed(&self) -> (b: bool)
        ensures
            b == self@.closed,
    {
        self.closed
    }

    /// The number of pending messages.
    pub fn len(&self) -> (n: usize)
        ensures
            n == self@.pending.len(),
    {
        self.queue.len()
    }
}

} // verus!
