//! The ways a command can fail.

use vstd::prelude::*;

verus! {

/// Why a command was not carried out.
#[derive(Clone, Copy, Debug, PartialEq, Eq, Structural)]
pub enum TrackerError {
    /// A task with the same description is already in the table.
    DuplicateDescription,
    /// The table could not take or give what was asked of it.
    PersistenceError,
    /// An answer or a description that cannot be used: a number that is no
    /// number, a time of day that does not exist, a date out of range, an
    /// empty description.
    InvalidInput,
    /// The command line names no known command. Only the front end, which
    /// reads the command line, raises this.
    UnknownCommand,
}

impl TrackerError {
    /// One line that tells the user what went wrong.
    pub fn message(&self) -> (line: &'static str)
        ensures
            line@ == match *self {
                TrackerError::DuplicateDescription => "a task with this description already exists"@,
                TrackerError::PersistenceError => "the task table could not be read or written"@,
                TrackerError::InvalidInput => "the input is not valid"@,
                TrackerError::UnknownCommand => "unknown command"@,
            },
    {
        match self {
            TrackerError::DuplicateDescription => "a task with this description already exists",
            TrackerError::PersistenceError => "the task table could not be read or written",
            TrackerError::InvalidInput => "the input is not valid",
            TrackerError::UnknownCommand => "unknown command",
        }
    }
}

} // verus!
