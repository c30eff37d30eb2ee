//! The error taxonomy of the spooler.

use vstd::prelude::*;

verus! {

/// Everything that can go wrong in the spooler.
///
/// `StorageUnavailable`, `CommandExecutionFailed` and `CommandSpawnFailed`
/// arise only at the filesystem and subprocess boundary, which lives outside
/// this crate; they are part of the taxonomy so that the whole program speaks
/// one error language.
#[derive(Clone, Copy, Debug, PartialEq, Eq, Structural)]
pub enum Error {
    /// A filesystem operation failed: permissions, missing path, disk full,
    /// or a cross-device rename.
    StorageUnavailable,
    /// A directory name listed inside the queue does not parse as an
    /// identifier; the entry is foreign or corrupt data.
    CorruptEntry,
    /// A piece of text is not a validly encoded identifier.
    MalformedIdentifier,
    /// The external command ran and reported failure (non-zero exit).
    CommandExecutionFailed,
    /// The external command could not be started at all.
    CommandSpawnFailed,
    /// A command line with no program in it.
    EmptyCommand,
    /// A shell-style command string that cannot be split into words.
    UnparsableCommand,
}

impl Error {
    /// A short human-readable description, in place of `Display`.
    pub fn message(&self) -> (r: &'static str)
        ensures
            *self is StorageUnavailable ==> r@ == "storage unavailable"@,
            *self is CorruptEntry ==> r@ == "corrupt queue entry"@,
            *self is MalformedIdentifier ==> r@ == "malformed identifier"@,
            *self is CommandExecutionFailed ==> r@ == "command execution failed"@,
            *self is CommandSpawnFailed ==> r@ == "command spawn failed"@,
            *self is EmptyCommand ==> r@ == "empty command"@,
            *self is UnparsableCommand ==> r@ == "can not parse command"@,
    {
        match self {
            Error::StorageUnavailable => "storage unavailable",
            Error::CorruptEntry => "corrupt queue entry",
            Error::MalformedIdentifier => "malformed identifier",
            Error::CommandExecutionFailed => "command execution failed",
            Error::CommandSpawnFailed => "command spawn failed",
            Error::EmptyCommand => "empty command",
            Error::UnparsableCommand => "can not parse command",
        }
    }
}

} // verus!
