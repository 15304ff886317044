//! The ways startup can fail, and what the user is told about each.

use vstd::prelude::*;

verus! {

/// What the user reads first when the backend executable is missing.
pub const BINARY_NOT_FOUND_LEAD: &'static str =
    "Backend binary not found. Run from the folder that contains eve-flipper-backend.exe.\n\n";

/// What the user reads first when the backend process could not be created.
pub const SPAWN_FAILED_LEAD: &'static str = "Failed to start backend server.\n\n";

/// A fatal startup failure. Neither kind is recovered from: without the
/// backend the shell has nothing to offer.
#[derive(Clone, Copy, Debug, PartialEq, Eq, Structural)]
pub enum Failure {
    /// The backend executable was not found beside the shell.
    BinaryNotFound,
    /// The operating system did not create the backend process.
    SpawnFailed,
}

/// The fixed opening of the message for `failure`.
pub open spec fn failure_lead(failure: Failure) -> Seq<char> {
    match failure {
        Failure::BinaryNotFound => BINARY_NOT_FOUND_LEAD@,
        Failure::SpawnFailed => SPAWN_FAILED_LEAD@,
    }
}

/// The whole message for `failure`: its opening, then the diagnostic of the
/// underlying error, unchanged.
pub open spec fn failure_text(failure: Failure, diagnostic: Seq<char>) -> Seq<char> {
    failure_lead(failure) + diagnostic
}

/// Builds the message shown to the user for `failure`, given the diagnostic
/// of the underlying error.
pub fn failure_message(failure: Failure, diagnostic: &str) -> (message: String)
    ensures
        message@ == failure_text(failure, diagnostic@),
{
    let mut message = match failure {
        Failure::BinaryNotFound => BINARY_NOT_FOUND_LEAD.to_owned(),
        Failure::SpawnFailed => SPAWN_FAILED_LEAD.to_owned(),
    };
    message.append(diagnostic);
    message
}

} // verus!
