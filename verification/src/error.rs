//! The closed set of failures that the log store reports.

use vstd::prelude::*;

verus! {

/// What went wrong, so that a caller can branch on it without reading text.
#[derive(Clone, Copy, Debug, PartialEq, Eq, Structural)]
pub enum ErrorKind {
    /// The request did not have the shape of the record it should describe.
    MalformedRequest,
    /// Exclusive access to the store could not be had.
    StorageLockError,
    /// A row could not be written.
    StorageWriteError,
    /// Rows could not be read, or a row that was read is corrupted.
    StorageReadError,
    /// The store could not be opened or its table could not be set up.
    StorageUnavailable,
}

/// A failure: its kind and a message for a human reader.
#[derive(Clone, Debug, PartialEq, Eq)]
pub struct StoreError {
    pub kind: ErrorKind,
    pub message: String,
}

/// Mathematical model of a [`StoreError`].
pub ghost struct ErrorView {
    pub kind: ErrorKind,
    pub message: Seq<char>,
}

impl View for StoreError {
    type V = ErrorView;

    open spec fn view(&self) -> ErrorView {
        ErrorView { kind: self.kind, message: self.message@ }
    }
}

impl StoreError {
    /// A failure of the given kind with the given message.
    pub fn new(kind: ErrorKind, message: &str) -> (e: StoreError)
        ensures
            e@ == (ErrorView { kind, message: message@ }),
    {
        StoreError { kind, message: message.to_owned() }
    }
}

} // verus!
