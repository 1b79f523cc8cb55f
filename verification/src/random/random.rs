//! A seeded generator of random numbers.
use vstd::prelude::*;
use rand::{Rng, SeedableRng};
use rand_pcg::Pcg64;
use crate::random::dice::Dice;

verus! {

/// The generator of `rand_pcg`; nothing is known of its state.
#[verifier::external_type_specification]
#[verifier::external_body]
pub struct ExPcg64(rand_pcg::Lcg128Xsl64);

/// `Clone::clone` of the generator of `rand_pcg`. Nothing is claimed of the copy.
pub assume_specification[ <rand_pcg::Lcg128Xsl64 as Clone>::clone ](
    _0: &rand_pcg::Lcg128Xsl64,
) -> rand_pcg::Lcg128Xsl64;

/// A generator of random numbers that rolls dice.
#[derive(Clone)]
pub struct Random {
    pub random: Pcg64,
}

/// The generator that `rand_core` makes of the seed `seed` for `rand_pcg`:
/// the seed alone decides its state, on every machine and in every run.
/// Nothing else is known of it.
pub uninterp spec fn seeded_generator(seed: u64) -> Pcg64;

/// Calls `Rng::gen_range` of `rand` with the inclusive range from `low` to
/// `high`, which panics on an empty range: the range must hold a number.
/// The number that it returns lies in the range; which one it is depends on
/// the generator, whose state changes.
#[verifier::external_body]
pub(crate) fn gen_range_inclusive(random: &mut Pcg64, low: i32, high: i32) -> (number: i32)
    requires
        low <= high,
    ensures
        low <= number <= high,
{
    random.gen_range(low..=high)
}

impl Random {
    /// A generator that starts from `seed`.
    /// The same seed gives the same generator, and so the same rolls, on
    /// every machine and in every run.
    pub fn new(seed: u64) -> (random: Self)
        ensures
            random.random == seeded_generator(seed),
    {
        Self { random: seeded(seed) }
    }

    /// Rolls `dice`: a number between the least and the greatest that the dice can show.
    pub fn roll(&mut self, dice: Dice) -> (total: i32)
        requires
            dice.rollable(),
        ensures
            dice.spec_min() <= total <= dice.spec_max(),
    {
        dice.roll(&mut self.random)
    }
}

/// Calls `SeedableRng::seed_from_u64` of `rand_core` for the generator of
/// `rand_pcg`, which spreads the seed over the state of the generator by
/// arithmetic on the seed alone. The result is named, not described: the same
/// seed gives the same generator.
#[verifier::external_body]
pub(crate) fn seeded(seed: u64) -> (generator: Pcg64)
    ensures
        generator == seeded_generator(seed),
{
    Pcg64::seed_from_u64(seed)
}

} // verus!
