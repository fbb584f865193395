//! A fixed-size worker pool over a shared, unbounded multi-producer
//! multi-consumer queue, and a small key-value interpreter whose commands
//! can be run on it.
//!
//! The pool:
//! - [`pool`] holds the one producing endpoint of the queue: it accepts
//!   tasks until shutdown begins and refuses them afterwards.
//! - [`worker`] holds a consuming endpoint: a worker receives tasks until
//!   the queue reports that it is closed for good.
//! - [`channel`] says what is assumed of the queue itself.
//! - [`model`] puts pool, queue and workers together and proves what holds
//!   of every run: no task is lost or run twice, no more tasks run at once
//!   than there are workers, shutdown drains the queue and always completes.
//!
//! Threads are the caller's business: the library decides, the caller
//! spawns a thread per worker, executes what the worker hands out, and
//! joins.
//!
//! The interpreter:
//! - [`text`] splits a line into words and writes numbers in decimal.
//! - [`command`] reads a line as a command.
//! - [`db`] is the store and [`handler`] carries a command out on it.
//!
//! Beside them stand a few small types that are told apart by pattern
//! ([`pattern_matching`], [`struct_and_enum`]), a transformation trait
//! ([`traits`]), and a spin lock and a counter on atomics ([`concurrency`]).

pub mod channel;
pub mod worker;
pub mod pool;
pub mod model;
pub mod text;
pub mod command;
pub mod db;
pub mod handler;
pub mod pattern_matching;
pub mod struct_and_enum;
pub mod traits;
pub mod concurrency;
