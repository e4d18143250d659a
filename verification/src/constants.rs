use vstd::prelude::*;

verus! {

/// The scheme word, with its trailing space, that opens a bearer credential.
pub const BEARER: &'static str = "Bearer ";

} // verus!
