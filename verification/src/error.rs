//! Failures of backup operations, by kind.

use vstd::prelude::*;

verus! {

/// The broad reason an operation failed.
#[derive(Debug, Clone, Copy, PartialEq, Eq, Structural)]
pub enum ErrorKind {
    /// A source file, a backup or a remote record is missing.
    NotFound,
    /// Copying, creating, reading or deleting a file failed.
    IoFailure,
    /// The backend is not implemented, or not reachable on this platform.
    BackendUnavailable,
    /// The backend selector names no backend.
    ValidationFailure,
}

/// A failed operation: its kind and a message for the user.
#[derive(Debug, Clone, PartialEq, Eq)]
pub struct BackupError {
    pub kind: ErrorKind,
    pub message: String,
}

/// A `BackupError` as a mathematical value.
pub struct Failure {
    pub kind: ErrorKind,
    pub message: Seq<char>,
}

impl View for BackupError {
    type V = Failure;

    open spec fn view(&self) -> Failure {
        Failure { kind: self.kind, message: self.message@ }
    }
}

impl BackupError {
    pub fn new(kind: ErrorKind, message: String) -> (e: BackupError)
        ensures
            e@ == (Failure { kind, message: message@ }),
    {
        BackupError { kind, message }
    }

    /// The message, as the user sees it.
    pub fn to_string(&self) -> (s: String)
        ensures
            s@ == self@.message,
    {
        self.message.clone()
    }
}

/// What the result of an operation without a value stands for.
pub open spec fn result_view(r: Result<(), BackupError>) -> Result<(), Failure> {
    match r {
        Ok(_) => Ok(()),
        Err(e) => Err(e@),
    }
}

} // verus!
