//! The spooler's command surface: the argument shapes of the three
//! subcommands and the decision logic of each.
//!
//! Argument parsing, logging setup and the dispatch that opens the queue
//! root are process concerns outside this crate; the types here carry the
//! already-parsed values the subcommands decide on.

use vstd::prelude::*;

pub mod daemon;
pub mod exec;
pub mod push;
pub mod stats;

verus! {

/// The top-level arguments: global flags, the queue root, and the chosen
/// subcommand.
#[derive(Debug)]
pub struct Args {
    /// Print a help message and exit.
    pub help: bool,
    /// Silence all output.
    pub quiet: bool,
    /// Message verbosity, as a count.
    pub verbosity: usize,
    /// Store queued jobs under this path.
    pub path: String,
    /// The subcommand to run.
    pub command: Option<Command>,
}

/// The chosen subcommand with its arguments.
#[derive(Debug)]
pub enum Command {
    /// Execute jobs from the queue until terminated.
    Daemon(daemon::Args),
    /// Add a job to the queue.
    Push(push::Args),
    /// Print counts of queued and failed jobs.
    Stats(stats::Args),
}

} // verus!
