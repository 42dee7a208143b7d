//! Messages carried by the dispatch channel.
use vstd::prelude::*;

verus! {

/// What the pool sends to its workers: a job to run, or the order to exit.
pub enum Message<J> {
    NewJob(J),
    Terminate,
}

} // verus!
