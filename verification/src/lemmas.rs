//! What holds of every draw, proved over the spec functions that the
//! contracts of [`crate::draw`] and [`crate::reduction`] are written in.

use vstd::prelude::*;
use vstd::arithmetic::div_mod::{lemma_mod_bound, lemma_small_mod};
use crate::draw::draw_outcome;
use crate::entropy::ENTROPY_LEN;
use crate::error::RandError;
use crate::reduction::{full_range_value, radix_value, ranged_value, wrap_modulus, FOLDED_LEN};

verus! {

/// A reduced value lies inside the range it was reduced into, whatever the
/// full-range value was.
pub proof fn lemma_ranged_value_within_bounds(full_range: nat, lower_bound: u64, upper_bound: u64)
    requires
        lower_bound <= upper_bound,
    ensures
        lower_bound <= ranged_value(full_range, lower_bound, upper_bound) <= upper_bound,
{
    lemma_mod_bound(full_range as int, upper_bound - lower_bound + 1);
}

/// A draw that returns a value returns one inside the range, whatever the
/// entropy source answered.
pub proof fn lemma_outcome_within_bounds(
    lower_bound: u64,
    upper_bound: u64,
    fetched: Result<(), getrandom::Error>,
    entropy: Seq<u8>,
)
    ensures
        draw_outcome(lower_bound, upper_bound, fetched, entropy) matches Ok(value) ==> lower_bound
            <= value <= upper_bound,
{
    if lower_bound <= upper_bound {
        lemma_ranged_value_within_bounds(full_range_value(entropy), lower_bound, upper_bound);
    }
}

/// A draw fails with `InvalidRange` exactly when the lower bound lies above
/// the upper bound, whatever the entropy source answered.
pub proof fn lemma_invalid_range_is_rejected(
    lower_bound: u64,
    upper_bound: u64,
    fetched: Result<(), getrandom::Error>,
    entropy: Seq<u8>,
)
    ensures
        lower_bound > upper_bound <==> draw_outcome(lower_bound, upper_bound, fetched, entropy)
            == Err::<u64, RandError>(RandError::InvalidRange),
{
}

/// A range of one value yields that value from every buffer of entropy.
pub proof fn lemma_degenerate_range_is_constant(bound: u64, entropy: Seq<u8>)
    ensures
        draw_outcome(bound, bound, Ok(()), entropy) == Ok::<u64, RandError>(bound),
{
    lemma_ranged_value_within_bounds(full_range_value(entropy), bound, bound);
}

/// Over the range of all `u64` values a draw returns the full-range value of
/// its entropy unchanged.
pub proof fn lemma_full_range_is_identity(entropy: Seq<u8>)
    ensures
        draw_outcome(0, u64::MAX, Ok(()), entropy) == Ok::<u64, RandError>(
            full_range_value(entropy) as u64,
        ),
{
    lemma_small_mod(full_range_value(entropy), wrap_modulus());
}

/// The last byte of the buffer has no part in the result: two buffers that
/// agree on their first 31 bytes have the same full-range value.
pub proof fn lemma_last_byte_is_ignored(first: Seq<u8>, second: Seq<u8>)
    requires
        first.len() == ENTROPY_LEN,
        second.len() == ENTROPY_LEN,
        forall|i: int| 0 <= i < FOLDED_LEN ==> first[i] == second[i],
    ensures
        full_range_value(first) == full_range_value(second),
{
    assert(first.take(FOLDED_LEN as int) =~= second.take(FOLDED_LEN as int));
}

/// The `len` least significant digits of `n` in radix 255, most significant
/// digit first.
pub open spec fn radix_digits(n: nat, len: nat) -> Seq<u8>
    decreases len,
{
    if len == 0 {
        Seq::empty()
    } else {
        radix_digits(n / 255, (len - 1) as nat).push((n % 255) as u8)
    }
}

/// What is left of `n` once its `len` least significant digits in radix 255
/// are taken away.
pub open spec fn radix_rest(n: nat, len: nat) -> nat
    decreases len,
{
    if len == 0 {
        n
    } else {
        radix_rest(n / 255, (len - 1) as nat)
    }
}

/// A number that has no more than `len` digits in radix 255 is the value of
/// its `len` digits.
pub proof fn lemma_radix_digits_value(n: nat, len: nat)
    requires
        radix_rest(n, len) == 0,
    ensures
        radix_digits(n, len).len() == len,
        radix_value(radix_digits(n, len)) == n,
    decreases len,
{
    if len > 0 {
        let upper = radix_digits(n / 255, (len - 1) as nat);
        lemma_radix_digits_value(n / 255, (len - 1) as nat);
        assert(radix_digits(n, len).drop_last() =~= upper);
    }
}

/// Nothing is left of zero, however many digits are taken away.
proof fn lemma_radix_rest_of_zero(len: nat)
    ensures
        radix_rest(0, len) == 0,
    decreases len,
{
    if len > 0 {
        lemma_radix_rest_of_zero((len - 1) as nat);
    }
}

/// Every `u64` has no more than 31 digits in radix 255: nine are enough,
/// since 255^9 lies above 2^64.
pub proof fn lemma_u64_fits_folded_digits(n: nat)
    requires
        n <= u64::MAX,
    ensures
        radix_rest(n, FOLDED_LEN as nat) == 0,
{
    reveal_with_fuel(radix_rest, 10);
    let rest = n / 255 / 255 / 255 / 255 / 255 / 255 / 255 / 255 / 255;
    assert(rest == 0);
    assert(radix_rest(n, 31) == radix_rest(rest, 22));
    lemma_radix_rest_of_zero(22);
}

/// Every value of a valid range can be drawn: some buffer of entropy yields
/// it.
pub proof fn lemma_every_value_can_be_drawn(lower_bound: u64, upper_bound: u64, value: u64)
    requires
        lower_bound <= value <= upper_bound,
    ensures
        exists|entropy: Seq<u8>|
            entropy.len() == ENTROPY_LEN && #[trigger] draw_outcome(
                lower_bound,
                upper_bound,
                Ok(()),
                entropy,
            ) == Ok::<u64, RandError>(value),
{
    let offset = (value - lower_bound) as nat;
    let digits = radix_digits(offset, FOLDED_LEN as nat);
    let entropy = digits.push(0u8);
    lemma_u64_fits_folded_digits(offset);
    lemma_radix_digits_value(offset, FOLDED_LEN as nat);
    assert(entropy.take(FOLDED_LEN as int) =~= digits);
    lemma_small_mod(offset, wrap_modulus());
    assert(full_range_value(entropy) == offset);
    lemma_small_mod(offset, (upper_bound - lower_bound + 1) as nat);
    assert(ranged_value(offset, lower_bound, upper_bound) == value);
    assert(draw_outcome(lower_bound, upper_bound, Ok(()), entropy) == Ok::<u64, RandError>(value));
}

} // verus!
