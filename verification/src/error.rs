//! Structured errors carried through every operation of the crate.
//!
//! Each error holds a kind tag, mirroring the OS-style error taxonomy the
//! system reports, and a message for the user.

use vstd::prelude::*;

verus! {

/// The kinds of failure the system distinguishes.
#[derive(Clone, Copy, Debug, PartialEq, Eq, Structural)]
pub enum ErrorKind {
    /// The single-writer lock is held, or a subvolume invariant found the
    /// booted root at the wrong name.
    AlreadyExists,
    /// External-command stdout was not valid UTF-8.
    InvalidData,
    /// The booted root was missing from its expected name during rotation.
    NotFound,
    /// An external command exited with a nonzero status.
    Other,
    /// The process is not running as root.
    PermissionDenied,
}

/// An error with a kind tag and a user-visible message.
#[derive(Debug)]
pub struct Error {
    pub kind: ErrorKind,
    pub message: String,
}

impl Error {
    /// Builds an error of the given kind with the given message.
    pub fn new(kind: ErrorKind, message: &str) -> (r: Error)
        ensures
            r.kind == kind,
            r.message@ == message@,
    {
        Error { kind, message: message.to_owned() }
    }

    /// The kind tag of this error.
    pub fn kind(&self) -> (k: ErrorKind)
        ensures
            k == self.kind,
    {
        self.kind
    }

    /// The user-visible message of this error.
    pub fn message(&self) -> (m: &str)
        ensures
            m@ == self.message@,
    {
        self.message.as_str()
    }
}

} // verus!
