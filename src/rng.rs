//! The page's deterministic pseudo-random source and the draws taken from it.

use rand::seq::SliceRandom;
use rand::{Rng, SeedableRng};
use rand_xorshift::XorShiftRng;
use vstd::prelude::*;

verus! {

#[verifier::external_type_specification]
#[verifier::external_body]
pub struct ExXorShiftRng(XorShiftRng);

/// Relies on `SeedableRng::seed_from_u64` of rand_xorshift: the generator it
/// returns is a function of the seed.
#[verifier::external_body]
pub(crate) fn seeded(seed: u64) -> XorShiftRng {
    XorShiftRng::seed_from_u64(seed)
}

/// Relies on rand's `Rng::gen_range`: a value in `[low, high)`; it panics
/// when `low >= high`.
#[verifier::external_body]
pub(crate) fn draw_range(rng: &mut XorShiftRng, low: u64, high: u64) -> (r: u64)
    requires
        low < high,
    ensures
        low <= r < high,
{
    rng.gen_range(low, high)
}

/// Relies on rand's `Rng::gen_ratio`: `true` with probability
/// `numerator / denominator`, never for a zero numerator and always when the
/// two are equal; it panics when `denominator == 0` or
/// `numerator > denominator`.
#[verifier::external_body]
pub(crate) fn draw_ratio(rng: &mut XorShiftRng, numerator: u32, denominator: u32) -> (r: bool)
    requires
        0 < denominator,
        numerator <= denominator,
    ensures
        numerator == 0 ==> !r,
        numerator == denominator ==> r,
{
    rng.gen_ratio(numerator, denominator)
}

/// Relies on rand's `Rng::gen` for `u128`: 128 uniformly random bits.
#[verifier::external_body]
pub(crate) fn draw_bits(rng: &mut XorShiftRng) -> u128 {
    rng.gen::<u128>()
}

/// Relies on rand's `SliceRandom::shuffle`: the items are permuted in place.
#[verifier::external_body]
pub(crate) fn shuffle_in_place<T>(items: &mut Vec<T>, rng: &mut XorShiftRng)
    ensures
        final(items)@.to_multiset() == old(items)@.to_multiset(),
{
    items.shuffle(rng)
}

} // verus!
