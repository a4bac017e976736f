//! The operating system's entropy source.

use vstd::prelude::*;

verus! {

/// Number of bytes asked of the entropy source for one draw.
pub const ENTROPY_LEN: usize = 32;

/// The error type of the `getrandom` crate. Its values are carried from the
/// entropy source to the caller unopened.
#[verifier::external_type_specification]
#[verifier::external_body]
pub struct ExGetrandomError(getrandom::Error);

/// Calls `getrandom::getrandom`, which fills `dest` with bytes from the
/// operating system's preferred random number source and reports an error on
/// any failure, partial reads included. Nothing is claimed of the bytes or of
/// the outcome.
#[verifier::external_body]
pub(crate) fn fetch_entropy(dest: &mut [u8]) -> (fetched: Result<(), getrandom::Error>) {
    getrandom::getrandom(dest)
}

} // verus!
