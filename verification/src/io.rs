//! The error type of the byte source and the byte sink.

use vstd::prelude::*;

pub use std::io::Error as IoError;

verus! {

/// `std::io::Error`, carried through untouched: the library never looks inside
/// one and promises nothing about what it holds.
#[verifier::external_type_specification]
#[verifier::external_body]
pub struct ExIoError(std::io::Error);

/// `std::io::Error::from` on `std::io::ErrorKind::InvalidInput`: a new error
/// of that kind. It is what a write reports whose end would lie past the
/// largest position that the machine can express. Nothing is promised of the
/// value.
#[verifier::external_body]
pub(crate) fn invalid_input() -> IoError {
    IoError::from(std::io::ErrorKind::InvalidInput)
}

} // verus!
