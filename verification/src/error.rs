//! Errors of the backend.
use vstd::prelude::*;

verus! {

/// What went wrong in the backend.
#[derive(Debug, Clone, Copy, PartialEq, Eq, Structural)]
pub enum ResonateError {
    GenericError,
    NetworkError,
    ExecNotFound,
    DirectoryNotFound,
    UnrecognisedHomeDir,
    SQLError,
    AudioStreamError,
    AlreadyExists,
    STDOUTError,
}

} // verus!
