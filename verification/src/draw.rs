//! Drawing a value: validate the range, fetch entropy, reduce it.

use vstd::prelude::*;
use crate::entropy::{fetch_entropy, ENTROPY_LEN};
use crate::error::RandError;
use crate::reduction::{fold_entropy, full_range_value, ranged_value, reduce};

verus! {

/// What a draw from `lower_bound` to `upper_bound` returns when the entropy
/// source answered `fetched` and left `entropy` in the buffer.
pub open spec fn draw_outcome(
    lower_bound: u64,
    upper_bound: u64,
    fetched: Result<(), getrandom::Error>,
    entropy: Seq<u8>,
) -> Result<u64, RandError> {
    if lower_bound > upper_bound {
        Err(RandError::InvalidRange)
    } else {
        match fetched {
            Ok(_) => Ok(ranged_value(full_range_value(entropy), lower_bound, upper_bound) as u64),
            Err(reported) => Err(RandError::EntropyUnavailable(reported)),
        }
    }
}

/// Decides a draw on an answer of the entropy source that is already there:
/// `fetched` is what the source returned and `entropy` the buffer it was asked
/// to fill.
pub fn rand_u64_with(
    lower_bound: u64,
    upper_bound: u64,
    fetched: Result<(), getrandom::Error>,
    entropy: &[u8; ENTROPY_LEN],
) -> (res: Result<u64, RandError>)
    ensures
        res == draw_outcome(lower_bound, upper_bound, fetched, entropy@),
{
    if lower_bound > upper_bound {
        return Err(RandError::InvalidRange);
    }
    match fetched {
        Ok(_) => Ok(reduce(fold_entropy(entropy), lower_bound, upper_bound)),
        Err(reported) => Err(RandError::EntropyUnavailable(reported)),
    }
}

/// Returns a value in the inclusive range from `lower_bound` to `upper_bound`,
/// drawn from 32 fresh bytes of the operating system's entropy source.
///
/// An invalid range is refused before any entropy is asked for.
pub fn rand_u64(lower_bound: u64, upper_bound: u64) -> (res: Result<u64, RandError>)
    ensures
        lower_bound > upper_bound <==> res == Err::<u64, RandError>(RandError::InvalidRange),
        lower_bound <= upper_bound ==> exists|
            fetched: Result<(), getrandom::Error>,
            entropy: Seq<u8>,
        |
            entropy.len() == ENTROPY_LEN && res == #[trigger] draw_outcome(
                lower_bound,
                upper_bound,
                fetched,
                entropy,
            ),
        res matches Ok(value) ==> lower_bound <= value <= upper_bound,
{
    if lower_bound > upper_bound {
        return Err(RandError::InvalidRange);
    }
    let mut rand_buf = [0u8; ENTROPY_LEN];
    let fetched = fetch_entropy(&mut rand_buf);
    rand_u64_with(lower_bound, upper_bound, fetched, &rand_buf)
}

} // verus!
