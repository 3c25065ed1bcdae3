//! The error values of `std::io`, as far as this crate hands them on.

use std::io::Error;
use std::io::ErrorKind;
use vstd::prelude::*;

verus! {

/// `std::io::Error`, carried through as an opaque value.
#[verifier::external_type_specification]
#[verifier::external_body]
pub struct ExIoError(std::io::Error);

/// `std::io::ErrorKind`, carried through as an opaque value.
#[verifier::external_type_specification]
#[verifier::external_body]
pub struct ExIoErrorKind(std::io::ErrorKind);

/// The error that `std::io::Error::new` builds from a kind and a message.
pub uninterp spec fn injected_error(kind: ErrorKind, message: Seq<char>) -> Error;

/// Calls `std::io::Error::new` with `kind` and with `message` as the payload.
/// Not proved: that the result is determined by the two arguments, which is
/// all the contract says. The standard library documents that the error so
/// built reports `kind` as its kind and displays `message`.
#[verifier::external_body]
pub(crate) fn new_io_error(kind: ErrorKind, message: &'static str) -> (error: Error)
    ensures
        error == injected_error(kind, message@),
{
    Error::new(kind, message)
}

} // verus!
