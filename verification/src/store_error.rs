//! The error type of the record store, as the evaluator's callers see
//! it: an error kind, and optionally the message of an underlying cause.

use vstd::prelude::*;

verus! {

/// What went wrong in the record store.
#[derive(Clone, Copy, Debug, PartialEq, Eq)]
pub enum StoreErrorKind {
    FileError,
    IdLocked,
    IdNotFound,
    OutOfMemory,
}

/// A short description of a store error kind.
pub fn store_error_type_as_str(e: &StoreErrorKind) -> (r: &'static str)
    ensures
        match e {
            StoreErrorKind::FileError => r@ == "File Error"@,
            StoreErrorKind::IdLocked => r@ == "ID locked"@,
            StoreErrorKind::IdNotFound => r@ == "ID not found"@,
            StoreErrorKind::OutOfMemory => r@ == "Out of Memory"@,
        },
{
    match e {
        StoreErrorKind::FileError => "File Error",
        StoreErrorKind::IdLocked => "ID locked",
        StoreErrorKind::IdNotFound => "ID not found",
        StoreErrorKind::OutOfMemory => "Out of Memory",
    }
}

/// An error of the record store: its kind, and the message of the error
/// that caused it, if one did.
#[derive(Debug)]
pub struct StoreError {
    err_type: StoreErrorKind,
    cause: Option<String>,
}

impl StoreError {
    /// The kind of this error.
    pub closed spec fn spec_err_type(&self) -> StoreErrorKind {
        self.err_type
    }

    /// The message of the underlying cause, if one was recorded.
    pub closed spec fn spec_cause(&self) -> Option<String> {
        self.cause
    }

    /// A store error of the given kind, optionally carrying the message
    /// of its cause.
    pub fn new(errtype: StoreErrorKind, cause: Option<String>) -> (r: StoreError)
        ensures
            r.spec_err_type() == errtype,
            r.spec_cause() == cause,
    {
        StoreError { err_type: errtype, cause }
    }

    /// The kind of this error.
    pub fn err_type(&self) -> (r: StoreErrorKind)
        ensures
            r == self.spec_err_type(),
    {
        self.err_type
    }

    /// The message of the underlying cause, if one was recorded.
    pub fn cause(&self) -> (r: &Option<String>)
        ensures
            *r == self.spec_cause(),
    {
        &self.cause
    }
}

} // verus!
