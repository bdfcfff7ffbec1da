//! The single reported-error kind of the subsystem.

use vstd::prelude::*;

verus! {

/// A recoverable failure carrying a human-readable message: either a
/// validation failure detected before any network call, or a transport or
/// service error surfaced by the fetch collaborator.  Nothing here is fatal;
/// every failure is local and recoverable by resubmitting the command.
pub struct Error {
    pub message: String,
}

impl Error {
    /// Builds an error from a message literal.
    pub fn new(message: &str) -> (e: Error)
        ensures
            e.message@ == message@,
    {
        Error { message: message.to_owned() }
    }
}

} // verus!
