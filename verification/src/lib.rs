//! Coordination core for a pool of parallel proof-of-work search workers.
//!
//! The pool broadcasts successive rounds of mining work to a fixed set of
//! workers, each bound to one CPU core, and collects the asynchronous
//! results: found-block events, filtered by round so that results of a
//! superseded round are silently discarded, and hash-rate samples, which
//! are summed unconditionally.

mod affinity;
mod channels;
pub mod pool;

pub use pool::ThreadPool;
pub use pool::WorkerCommand;
pub use pool::WorkerDisconnected;
pub use pool::WorkerLaunch;
