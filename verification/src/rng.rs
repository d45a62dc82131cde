use vstd::prelude::*;
use crate::color_map::ColorPreset;
use rand::seq::SliceRandom;
use rand::SeedableRng;

verus! {

#[verifier::external_type_specification]
#[verifier::external_body]
pub struct ExChaCha8Rng(rand_chacha::ChaCha8Rng);

/// Relies on rand_chacha's `ChaCha8Rng` through rand's
/// `SeedableRng::from_rng`, seeded from the operating system's generator;
/// `from_rng` reports a failing entropy source as an error rather than
/// abort, and the fixed fallback seed then keeps the call total. The
/// randomization is cosmetic, so nothing is promised of the output either
/// way.
#[verifier::external_body]
pub fn new_entropy_rng() -> rand_chacha::ChaCha8Rng {
    match rand_chacha::ChaCha8Rng::from_rng(rand::rngs::OsRng) {
        Ok(rng) => rng,
        Err(_) => rand_chacha::ChaCha8Rng::seed_from_u64(0),
    }
}

/// Relies on rand's `SliceRandom::shuffle`: it reorders the slice in place by
/// swaps, so the result holds exactly the elements it started with.
#[verifier::external_body]
pub fn shuffle_presets(v: &mut Vec<ColorPreset>, rng: &mut rand_chacha::ChaCha8Rng)
    ensures
        final(v)@.to_multiset() == old(v)@.to_multiset(),
        final(v)@.len() == old(v)@.len(),
{
    v.shuffle(rng)
}

} // verus!
