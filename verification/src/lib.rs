//! Supervision of a single long-running backend child process.
//!
//! The crate holds the decision logic of a process supervisor: a single
//! lock-guarded slot that stores at most one live process handle, the
//! transitions that `Start` and `Stop` perform on it, and the per-event
//! decisions of the two tasks that forward the child's output streams to a
//! logging sink.  The host application owns the lock, performs the actual
//! spawn, kill and stream reads, and drives these transitions with their
//! outcomes.

pub mod forward;
pub mod supervisor;
