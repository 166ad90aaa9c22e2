//! Randomness: shuffling and die rolls.
use vstd::prelude::*;
use rand::rngs::StdRng;
use rand::seq::SliceRandom;
use rand::Rng;

verus! {

#[verifier::external_type_specification]
#[verifier::external_body]
pub struct ExStdRng(StdRng);

/// `SliceRandom::shuffle`: puts the elements of `v` in a random order; the elements themselves
/// (with their multiplicities) stay the same.
#[verifier::external_body]
pub(crate) fn shuffle<T>(v: &mut Vec<T>, rng: &mut StdRng)
    ensures
        final(v)@.to_multiset() == old(v)@.to_multiset(),
{
    v.shuffle(rng);
}

/// `Rng::random_range` on `low..=high`: a random value of that range.
#[verifier::external_body]
pub(crate) fn random_in_range(rng: &mut StdRng, low: u8, high: u8) -> (r: u8)
    requires
        low <= high,
    ensures
        low <= r <= high,
{
    rng.random_range(low..=high)
}

/// `Rng::random_ratio`: `true` with a chance of `numerator` in `denominator`; always `true`
/// when the two are equal, always `false` when `numerator` is 0. Which value comes back
/// otherwise is left open.
#[verifier::external_body]
pub(crate) fn random_ratio(rng: &mut StdRng, numerator: u32, denominator: u32) -> (r: bool)
    requires
        0 < denominator,
        numerator <= denominator,
    ensures
        numerator == denominator ==> r,
        numerator == 0 ==> !r,
{
    rng.random_ratio(numerator, denominator)
}

} // verus!
