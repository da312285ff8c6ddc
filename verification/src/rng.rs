use vstd::prelude::*;

verus! {

/// The fixed-point scale: one whole unit, shared by genes and probabilities.
/// A gene of `UNIT` stands for `1.0`; a chance of `UNIT` is certainty.
pub const UNIT: u32 = 1_000_000;

/// One half, as a probability: the weight of a fair coin.
pub const HALF: u32 = 500_000;

/// The injectable source of randomness.  It exposes exactly the two
/// primitive draws the engine uses: a uniform draw below a bound and a
/// boolean draw with a given probability.  Every call consumes exactly one
/// draw, so the engine's draw order is reproducible for any deterministic
/// implementation.
pub trait RandomSource {
    /// One uniform draw in `[0, bound)`.
    fn next_below(&mut self, bound: u128) -> (r: u128)
        requires
            bound >= 1,
        ensures
            r < bound,
    ;

    /// One boolean draw that is true with probability `chance / UNIT`.
    fn coin(&mut self, chance: u32) -> (r: bool)
        requires
            chance <= UNIT,
        ensures
            chance == 0 ==> !r,
            chance == UNIT ==> r,
    ;
}

#[verifier::external_type_specification]
#[verifier::external_body]
pub struct ExChaCha8Rng(rand_chacha::ChaCha8Rng);

/// Relies on rand_chacha::ChaCha8Rng::seed_from_u64 (rand_core::SeedableRng):
/// builds a generator whose stream is a function of the seed alone.
#[verifier::external_body]
fn chacha_from_seed(seed: u64) -> rand_chacha::ChaCha8Rng {
    <rand_chacha::ChaCha8Rng as rand::SeedableRng>::seed_from_u64(seed)
}

/// Relies on rand::Rng::gen_range: a draw from `0..bound` lies within the
/// range; the call panics only on an empty range, which the precondition
/// rules out.
#[verifier::external_body]
fn chacha_below(rng: &mut rand_chacha::ChaCha8Rng, bound: u128) -> (r: u128)
    requires
        bound >= 1,
    ensures
        r < bound,
{
    <rand_chacha::ChaCha8Rng as rand::Rng>::gen_range(rng, 0..bound)
}

/// A deterministic `RandomSource` backed by the ChaCha8 generator, so that
/// seeded runs reproduce the same stream of draws.
pub struct ChaChaSource {
    rng: rand_chacha::ChaCha8Rng,
}

impl ChaChaSource {
    /// A source whose whole stream is fixed by `seed`.
    pub fn from_seed(seed: u64) -> ChaChaSource {
        ChaChaSource { rng: chacha_from_seed(seed) }
    }
}

impl RandomSource for ChaChaSource {
    fn next_below(&mut self, bound: u128) -> (r: u128) {
        chacha_below(&mut self.rng, bound)
    }

    fn coin(&mut self, chance: u32) -> (r: bool) {
        let draw = chacha_below(&mut self.rng, UNIT as u128);
        draw < chance as u128
    }
}

} // verus!
