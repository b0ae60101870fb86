//! The injected source of randomness.
//!
//! Each model instance owns its own source, handed to its constructor, so
//! that deterministic seeding is possible: the crate's own `SeededRng` wraps
//! a seeded generator from the `rand` crate, and a caller (a test, say) may
//! implement `RandomSource` with a scripted sequence instead.

use vstd::prelude::*;

verus! {

/// A per-model source of randomness: a fair coin, a bounded uniform draw,
/// and raw uniform bits.
pub trait RandomSource {
    /// A fair coin flip: true with probability one half.
    fn coin(&mut self) -> bool;

    /// A value drawn uniformly from `0 .. n`.
    fn below(&mut self, n: u32) -> (r: u32)
        requires
            n >= 1,
        ensures
            r < n,
    ;

    /// Thirty-two uniformly distributed random bits.
    fn raw32(&mut self) -> u32;
}

#[verifier::external_type_specification]
#[verifier::external_body]
pub struct ExStdRng(rand::rngs::StdRng);

/// The default randomness source: a seeded pseudorandom generator from the
/// `rand` crate.
pub struct SeededRng {
    rng: rand::rngs::StdRng,
}

impl SeededRng {
    /// Relies on rand's `SeedableRng::seed_from_u64`: a generator whose
    /// draws are determined by the seed.
    #[verifier::external_body]
    pub fn from_seed(seed: u64) -> SeededRng {
        SeededRng { rng: <rand::rngs::StdRng as rand::SeedableRng>::seed_from_u64(seed) }
    }
}

/// Relies on rand's `RngExt::random_ratio` with ratio 1/2: a fair Bernoulli
/// draw.
#[verifier::external_body]
fn std_coin(rng: &mut rand::rngs::StdRng) -> bool {
    rand::RngExt::random_ratio(rng, 1, 2)
}

/// Relies on rand's `RngExt::random_range` over `0 .. n`: a draw uniform in
/// the range, which is non-empty because `n >= 1`.
#[verifier::external_body]
fn std_below(rng: &mut rand::rngs::StdRng, n: u32) -> (r: u32)
    requires
        n >= 1,
    ensures
        r < n,
{
    rand::RngExt::random_range(rng, 0..n)
}

/// Relies on rand's `Rng::next_u32`.
#[verifier::external_body]
fn std_raw32(rng: &mut rand::rngs::StdRng) -> u32 {
    rand::Rng::next_u32(rng)
}

impl RandomSource for SeededRng {
    fn coin(&mut self) -> bool {
        std_coin(&mut self.rng)
    }

    fn below(&mut self, n: u32) -> u32 {
        std_below(&mut self.rng, n)
    }

    fn raw32(&mut self) -> u32 {
        std_raw32(&mut self.rng)
    }
}

} // verus!
