//! From a buffer of entropy to a value inside the requested range.

use vstd::prelude::*;
use crate::entropy::ENTROPY_LEN;

verus! {

/// Number of leading bytes of the buffer that enter the accumulator. The last
/// byte of the buffer is fetched but left out.
pub const FOLDED_LEN: usize = 31;

/// The factor by which the accumulator grows from one byte to the next.
pub const RADIX: u64 = 255;

/// The number of `u64` values, 2^64: the modulus of wrapping arithmetic.
pub open spec fn wrap_modulus() -> nat {
    0x1_0000_0000_0000_0000
}

/// `digits` read as a numeral of radix 255, most significant digit first:
/// the sum of `digits[i] * 255^(len - 1 - i)`, without any bound.
pub open spec fn radix_value(digits: Seq<u8>) -> nat
    decreases digits.len(),
{
    if digits.len() == 0 {
        0
    } else {
        radix_value(digits.drop_last()) * (RADIX as nat) + digits.last() as nat
    }
}

/// The full-range value of an entropy buffer: its first 31 bytes as a numeral
/// of radix 255, reduced modulo 2^64.
pub open spec fn full_range_value(entropy: Seq<u8>) -> nat {
    radix_value(entropy.take(FOLDED_LEN as int)) % wrap_modulus()
}

/// `full_range` brought into the inclusive range from `lower_bound` to
/// `upper_bound`: its remainder by the number of values in the range, counted
/// from `lower_bound`. The number of values is taken in unbounded integers,
/// so for the range of all `u64` values the modulus is 2^64.
pub open spec fn ranged_value(full_range: nat, lower_bound: u64, upper_bound: u64) -> int {
    lower_bound + full_range as int % (upper_bound - lower_bound + 1)
}

/// Folds the first 31 bytes of `entropy` into one `u64`: from zero, each byte
/// in turn multiplies the accumulator by 255 and is added to it, both
/// wrapping.
pub fn fold_entropy(entropy: &[u8; ENTROPY_LEN]) -> (full_range: u64)
    ensures
        full_range == full_range_value(entropy@),
{
    let mut full_range: u64 = 0;
    for i in 0..entropy.len() - 1
        invariant
            full_range == radix_value(entropy@.take(i as int)) % wrap_modulus(),
    {
        proof {
            assert(entropy@.take(i + 1).drop_last() =~= entropy@.take(i as int));
            assert(entropy@.take(i + 1).last() == entropy@[i as int]);
        }
        if i > 0 {
            full_range = full_range.wrapping_mul(RADIX);
        }
        full_range = full_range.wrapping_add(entropy[i] as u64);
    }
    full_range
}

/// Brings `full_range` into the inclusive range from `lower_bound` to
/// `upper_bound`. Where the range holds every `u64`, the number of its values
/// does not fit a `u64` and `full_range` is returned as it is.
pub fn reduce(full_range: u64, lower_bound: u64, upper_bound: u64) -> (value: u64)
    requires
        lower_bound <= upper_bound,
    ensures
        value == ranged_value(full_range as nat, lower_bound, upper_bound),
        lower_bound <= value <= upper_bound,
{
    let range = upper_bound - lower_bound;
    let ranged_rand = if range == u64::MAX {
        full_range
    } else {
        full_range % (range + 1)
    };
    ranged_rand + lower_bound
}

} // verus!
