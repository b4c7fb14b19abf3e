//! A runtime-neutral surface for asynchronous building blocks, with a backend
//! on tokio.
//!
//! The capability traits say, as contracts, what every backend owes its
//! callers; the tokio backend is proved to meet them from what tokio's own
//! functions are trusted to do.

pub mod mpsc_unbounded;
pub mod oneshot;
pub mod watch;
pub mod tokio_impl;

pub use tokio_impl::{TokioMpscUnbounded, TokioRuntime, TokioWatch};
