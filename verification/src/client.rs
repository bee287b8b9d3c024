//! The error of a Qu client connection.

use vstd::prelude::*;

verus! {

/// std's I/O error, carried through unchanged; nothing inside it is read.
#[verifier::external_type_specification]
#[verifier::external_body]
pub struct ExIoError(std::io::Error);

/// An error of a Qu client connection.
#[derive(Debug)]
pub enum QuipError {
    /// The connection's I/O failed.
    Io(std::io::Error),
}

/// An I/O error is a client error as it stands.
impl From<std::io::Error> for QuipError {
    fn from(error: std::io::Error) -> (res: Self) {
        QuipError::Io(error)
    }
}

impl vstd::std_specs::convert::FromSpecImpl<std::io::Error> for QuipError {
    open spec fn obeys_from_spec() -> bool {
        true
    }

    open spec fn from_spec(v: std::io::Error) -> Self {
        QuipError::Io(v)
    }
}

} // verus!
