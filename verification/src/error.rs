//! The error type that the crate's fallible operations return.

use vstd::prelude::*;

verus! {

/// What kind of failure an operation met (mirrors the `io::ErrorKind`
/// values that the tools report).
#[derive(Debug, Clone, Copy, PartialEq, Eq, Structural)]
pub enum ErrorKind {
    InvalidInput,
    InvalidData,
    NotFound,
    PermissionDenied,
    AlreadyExists,
    Other,
}

/// A failure with its kind and a human-readable message.
#[derive(Debug)]
pub struct ToolError {
    pub kind: ErrorKind,
    pub message: String,
}

impl ToolError {
    /// An error of the given kind with the given message.
    pub fn new(kind: ErrorKind, message: String) -> (e: ToolError)
        ensures
            e.kind == kind,
            e.message@ == message@,
    {
        ToolError { kind, message }
    }
}

/// `r` is an error of kind `kind` whose message is `msg`.
pub open spec fn is_error<T>(r: Result<T, ToolError>, kind: ErrorKind, msg: Seq<char>) -> bool {
    match r {
        Ok(_) => false,
        Err(e) => e.kind == kind && e.message@ == msg,
    }
}

} // verus!
