use vstd::prelude::*;

verus! {

/// Why a request could not be authorized.
#[allow(non_camel_case_types)]
#[derive(Clone, Copy, Debug, PartialEq, Eq, Structural)]
pub enum Error {
    /// No `authorization` header, or one that is not UTF-8 text.
    NoAuthHeaderError,
    /// An `authorization` header that does not open with the bearer scheme.
    InvalidAuthHeaderError,
    /// A bearer token that does not decode or validate.
    JWTTokenError,
}

} // verus!
