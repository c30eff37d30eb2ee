//! A durable, filesystem-backed job spooler.
//!
//! A job is a directory of files; its state is entirely determined by which
//! of three sibling directories (`staging`, `ready`, `failed`) it currently
//! resides in, and every state transition is a single directory rename.
//!
//! This crate holds the verified core: the identifier codec, the queue path
//! computations, the typed job-state machine, the daemon's decision logic,
//! and an abstract model of the directory tree with proofs of the laws the
//! spooler relies on. The surrounding process (directory I/O, subprocess
//! execution, the clock) performs the filesystem operations this crate
//! describes as [`queue::FsOp`] values.

pub mod commands;
pub mod error;
pub mod model;
pub mod queue;
