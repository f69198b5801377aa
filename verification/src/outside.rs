//! Declarations of the types of other crates that pass through this library unopened, and
//! the constructors of `std::io::Error` that it uses.
use vstd::prelude::*;

verus! {

#[verifier::external_type_specification]
#[verifier::external_body]
pub struct ExIoError(std::io::Error);

#[verifier::external_type_specification]
#[verifier::external_body]
pub struct ExFxHasher(fxhash::FxHasher);

#[verifier::external_type_specification]
#[verifier::external_body]
#[verifier::reject_recursive_types(H)]
pub struct ExBuildHasherDefault<H>(core::hash::BuildHasherDefault<H>);

/// The kinds of input and output errors that this library raises itself.
#[derive(Clone, Copy, Debug, PartialEq, Eq, Structural)]
pub enum IoErrorKind {
    UnexpectedEof,
    InvalidData,
    NotFound,
}

/// The error that `std::io::Error::from` makes of a kind.
pub uninterp spec fn io_error_of_kind(kind: IoErrorKind) -> std::io::Error;

/// `<std::io::Error as From<std::io::ErrorKind>>::from`: the error of that kind, with no
/// further payload.
#[verifier::external_body]
pub(crate) fn io_error_from_kind(kind: IoErrorKind) -> (error: std::io::Error)
    ensures
        error == io_error_of_kind(kind),
{
    std::io::Error::from(match kind {
        IoErrorKind::UnexpectedEof => std::io::ErrorKind::UnexpectedEof,
        IoErrorKind::InvalidData => std::io::ErrorKind::InvalidData,
        IoErrorKind::NotFound => std::io::ErrorKind::NotFound,
    })
}

/// The error that `std::io::Error::new` makes of a kind and a text.
pub uninterp spec fn io_error_with_text(kind: IoErrorKind, text: Seq<char>) -> std::io::Error;

/// `std::io::Error::new`: the error of that kind, with the text as its payload.
#[verifier::external_body]
pub(crate) fn io_error_new(kind: IoErrorKind, text: &str) -> (error: std::io::Error)
    ensures
        error == io_error_with_text(kind, text@),
{
    let kind = match kind {
        IoErrorKind::UnexpectedEof => std::io::ErrorKind::UnexpectedEof,
        IoErrorKind::InvalidData => std::io::ErrorKind::InvalidData,
        IoErrorKind::NotFound => std::io::ErrorKind::NotFound,
    };
    std::io::Error::new(kind, text.to_owned())
}

} // verus!
