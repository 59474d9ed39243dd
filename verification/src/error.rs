use vstd::prelude::*;

verus! {

/// The category a failure belongs to. Callers of the facade see one error
/// type; the category records where the failure arose.
#[derive(Clone, Copy, Debug, PartialEq, Eq, Structural)]
pub enum ErrorKind {
    ConnectionFailure,
    AuthenticationFailure,
    InvalidIdentifier,
    InvalidPayload,
    OperationFailure,
}

/// The single error the facade raises towards its caller: a category and the
/// diagnostic text of the failure.
#[derive(Debug)]
pub struct RuntimeError {
    pub kind: ErrorKind,
    pub message: String,
}

impl RuntimeError {
    /// Wraps a diagnostic text, unchanged, under the given category.
    pub fn new(kind: ErrorKind, message: String) -> (e: RuntimeError)
        ensures
            e.kind == kind,
            e.message == message,
    {
        RuntimeError { kind, message }
    }

    /// The category of this error.
    pub fn kind(&self) -> (k: ErrorKind)
        ensures
            k == self.kind,
    {
        self.kind
    }

    /// The diagnostic text handed to the caller.
    pub fn message(&self) -> (m: &String)
        ensures
            m == self.message,
    {
        &self.message
    }
}

} // verus!
