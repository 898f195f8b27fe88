//! A bounded worker pool, modelled as a verified state machine.
//!
//! The pool accepts one-shot jobs, queues them in a closable first-in
//! first-out channel and hands them to a fixed set of workers. This crate holds
//! every decision the pool makes: admission, the dequeue lock, the worker life
//! cycle, draining on shutdown and the order of joins. Running a job and
//! blocking a thread are left to the caller, which reports back what happened.
//!
//! - [`channel`]: the task channel, a closable first-in first-out queue.
//! - [`worker`]: the life cycle of one worker.
//! - [`model`]: the pool as a state machine over mathematical values.
//! - [`pool`]: the pool itself, each method one step of the model.
//! - [`invariants`], [`counting`], [`guarantees`], [`runs`]: what is proved
//!   of the model, step by step and over whole runs.
//! - [`http`]: request routing and response framing for the front-end.

pub mod channel;
pub mod worker;
pub mod model;
pub mod invariants;
pub mod counting;
pub mod pool;
pub mod guarantees;
pub mod runs;
pub mod http;

pub use crate::channel::TaskChannel;
pub use crate::pool::{PoolCreationError, PoolError, ThreadPool};
