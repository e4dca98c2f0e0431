//! A first-in, first-out queue that many threads can share.
//!
//! `Queue` is the shared handle: a sequence behind a mutex, behind a reference count.
//! `Fifo` is the sequence itself, whose operations carry exact contracts over its view,
//! a `Seq` of the items oldest first. `laws` states what holds of runs of those operations.

pub mod fifo;
pub mod laws;
pub mod queue;

pub use fifo::Fifo;
pub use queue::{Error, Queue};
