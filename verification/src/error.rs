//! The ways a launch attempt can fail.

use vstd::prelude::*;

verus! {

/// What went wrong during a launch attempt.
#[derive(Clone, Copy, Debug, PartialEq, Eq)]
pub enum ErrorKind {
    /// A required path does not exist on the filesystem.
    NotFound,
    /// The operating system could not create the child process.
    SpawnFailure,
    /// The child's termination could not be observed.
    WaitFailure,
    /// The child ran but terminated unsuccessfully.
    NonZeroExit,
    /// A required configuration field was never supplied.
    MissingField,
}

/// An error of the launcher: a kind together with a message.
///
/// A `NotFound` error carries the offending path as its message, and a
/// `MissingField` error carries the name of the absent field.
#[derive(Debug)]
pub struct LaunchError {
    /// Which failure this is.
    pub kind: ErrorKind,
    /// The offending path, the absent field's name, or the underlying
    /// operating-system error's text, depending on the kind.
    pub message: String,
}

/// Builds a failing result of the given kind, carrying `info` as the
/// message, for any success type.
pub fn error_here<R>(kind: ErrorKind, info: String) -> (r: Result<R, LaunchError>)
    ensures
        r matches Err(e) && e.kind == kind && e.message == info,
{
    Err(LaunchError { kind, message: info })
}

} // verus!
