//! The logic of a self growing / shrinking thread pool based on crossbeam's multi-producer
//! multi-consumer channels: which worker a task goes to, what a worker does next, when the threads
//! that join the pool are notified, and how the result of a task gets to whoever awaits it.
//!
//! The library starts no threads and blocks none. It hands out the workers whose threads have to
//! be started, and tells a thread what to do next.
//!
//! What the threads of a pool share, they change through `&self`. So what a function may do to it
//! stands in its `opens_invariants`: each way to move the counters, to hand out a number or to
//! send a job has a namespace, and a function opens only those of what it may do. A join opens
//! none, a submission only those of counting a worker in and out and of sending, and a worker
//! that of the one move that goes with what has happened to it.
//!
//! - `counts`: the worker counters in one atomic word
//! - `naming`: the names of pools and threads
//! - `task`: tasks, jobs, and handles on results
//! - `channel`: the channel on which jobs wait
//! - `worker`: what a worker does next
//! - `pool`: where a task goes, and when a join returns
//! - `builder`: pools with default values
//! - `protocol`: what holds of all the threads of a pool together

pub mod builder;
pub mod channel;
pub mod counts;
pub mod naming;
pub mod pool;
pub mod protocol;
pub mod task;
pub mod worker;

pub use crate::builder::Builder;
pub use crate::pool::ThreadPool;
pub use crate::task::JoinHandle;
pub use crate::task::Task;
