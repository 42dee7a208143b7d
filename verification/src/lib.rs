//! A fixed-size worker pool, stated as a verified state machine.
//!
//! The pool owns a FIFO dispatch channel and a fixed set of workers. Callers
//! submit jobs; each worker repeatedly asks the pool for its next message and
//! is told to run a job, to wait, or to exit. Every operation has a contract
//! over a mathematical view of the pool, and the pool's invariants are proved
//! to hold in every reachable state.
pub mod channel;
pub mod message;
pub mod model;
pub mod pool;
pub mod proofs;
pub mod response;
pub mod worker;

pub use crate::channel::{Channel, ChannelClosed, Received};
pub use crate::message::Message;
pub use crate::pool::ThreadPool;
pub use crate::response::{decimal, response_header, Route};
pub use crate::worker::{Action, Worker, WorkerState};
