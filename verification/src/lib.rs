//! A worker-pool task pipeline as a verified state machine.
//!
//! Tasks are handed to a shared queue, claimed one at a time by a fixed set of
//! workers, processed, and reported as results to a single collector that keeps
//! running statistics. Every step of that protocol is a function of this crate
//! with a contract; threads, clocks and locks belong to the caller.
//!
//! - [`task`]: the units of work, their routines and their results;
//! - [`queue`] and [`channel`]: the two ends of a worker's loop;
//! - [`stats`]: the statistics that the collector keeps;
//! - [`worker`] and [`pool`]: the workers and the pool as a whole, with the
//!   laws that hold of every run;
//! - [`driver`]: a whole run on one thread;
//! - [`permutation`] and [`text`]: the mathematics and the formatting that the
//!   others lean on.

pub mod channel;
pub mod driver;
pub mod permutation;
pub mod pool;
pub mod queue;
pub mod stats;
pub mod task;
pub mod text;
pub mod worker;
