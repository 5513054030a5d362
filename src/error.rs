//! What can go wrong in a file operation.
use vstd::prelude::*;

verus! {

/// std's classification of I/O failures, carried opaque.
#[verifier::external_type_specification]
#[verifier::external_body]
pub struct ExErrorKind(std::io::ErrorKind);

/// Why an open or a save did not complete.
#[derive(Debug, Clone, Copy, PartialEq, Eq)]
pub enum Error {
    /// The user closed the file dialog without choosing a file.
    DialogClosed,
    /// Reading or writing the file failed, with the kind of the failure.
    IO(std::io::ErrorKind),
}

impl Error {
    /// Whether this is a failure of reading or writing, which the status line
    /// reports; a closed dialog is none.
    pub fn is_io(&self) -> (r: bool)
        ensures
            r == (*self is IO),
    {
        match self {
            Error::IO(_) => true,
            Error::DialogClosed => false,
        }
    }
}

} // verus!
