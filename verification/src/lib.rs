//! Coordination of the jobs of one build matrix.
//!
//! A build runs as a set of parallel jobs. One of them, the leader, waits
//! until every other job has finished and then acts on their joint outcome.
//! The only source of truth is a remote status service that can be polled,
//! so the barrier is a polling loop: fetch a snapshot of the matrix, look at
//! the peers, sleep, fetch again.
//!
//! This crate holds the rules of that barrier and proves them. It performs no
//! input or output of its own: the caller sends the requests, sleeps between
//! polls and hands every answer back as a plain value.
//!
//! - [`role`]: which job is the leader.
//! - [`matrix`]: a snapshot of the build's jobs and the predicates over it.
//! - [`error`]: the outcomes a caller can tell apart.
//! - [`config`]: the configuration of one run.
//! - [`decimal`]: numbers in decimal form, read and written.
//! - [`fetch`]: what one answer of the status service means.
//! - [`wait`]: the wait protocol, one transition at a time.
//! - [`text`]: views of optional text.

pub mod error;
pub mod role;
pub mod matrix;
pub mod text;
pub mod decimal;
pub mod config;
pub mod fetch;
pub mod wait;

pub use error::{Error, ErrorView};
pub use role::is_leader;
pub use wait::{WaitAction, WaitEvent, WaitEventView, WaitState, WaitStateView};
pub use config::{Build, BuildView};
pub use fetch::{Payload, PayloadView, Reply, ReplyView};
pub use matrix::{Matrix, MatrixElement, MatrixElementView, MatrixView};
