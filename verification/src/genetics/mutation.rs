use vstd::prelude::*;

use crate::errors::EngineError;
use crate::genetics::chromosome::Chromosome;
use crate::rng::{RandomSource, HALF, UNIT};

verus! {

/// A way of perturbing a child chromosome in place.  The length is always
/// preserved.
pub trait MutationMethod {
    fn mutate<R: RandomSource>(&self, prng: &mut R, child: &mut Chromosome)
        ensures
            final(child)@.len() == old(child)@.len(),
    ;
}

/// An integer `x` squeezed into the range of `i32`.
pub open spec fn clamp_i32(x: int) -> int {
    if x < i32::MIN {
        i32::MIN as int
    } else if x > i32::MAX {
        i32::MAX as int
    } else {
        x
    }
}

/// The gene `g` moved by `coeff * magnitude / UNIT`, away from or towards
/// negative infinity as `negative` says, saturating at the range of `i32`.
pub open spec fn perturbed_gene(g: i32, negative: bool, magnitude: int, coeff: u32) -> int {
    let delta = (coeff * magnitude) / (UNIT as int);
    if negative {
        clamp_i32(g - delta)
    } else {
        clamp_i32(g + delta)
    }
}

/// How one mutated gene may relate to the original: untouched, or moved by
/// a bounded perturbation in one direction.
pub open spec fn gene_mutation_step(g0: i32, g1: i32, coeff: u32) -> bool {
    g1 == g0 || exists|negative: bool, magnitude: int|
        0 <= magnitude < UNIT && g1 == perturbed_gene(g0, negative, magnitude, coeff)
}

/// Gaussian-style mutation: per gene, one fair coin picks the sign, one
/// biased coin decides whether the gene moves at all, and, only then, one
/// uniform draw picks the magnitude, in that fixed order.
#[derive(Clone, Debug)]
pub struct GaussianMutation {
    /// Probability of changing a gene, in `[0, UNIT]`:
    /// `0` leaves every gene alone, `UNIT` touches every gene.
    pub chance: u32,

    /// Magnitude of the change: a touched gene moves by at most `coeff`.
    pub coeff: u32,
}

impl GaussianMutation {
    /// A mutation strategy; a chance above `UNIT` is no probability and is
    /// refused with `ConfigError`.
    pub fn new(chance: u32, coeff: u32) -> (r: Result<GaussianMutation, EngineError>)
        ensures
            r is Ok <==> chance <= UNIT,
            r is Err ==> r == Err::<GaussianMutation, EngineError>(EngineError::ConfigError),
            r matches Ok(g) ==> g.chance == chance && g.coeff == coeff,
    {
        if chance <= UNIT {
            Ok(GaussianMutation { chance, coeff })
        } else {
            Err(EngineError::ConfigError)
        }
    }
}

impl MutationMethod for GaussianMutation {
    fn mutate<R: RandomSource>(&self, prng: &mut R, child: &mut Chromosome)
        ensures
            // A chance of zero guarantees the chromosome comes back
            // unchanged, whatever the coefficient and the generator state.
            self.chance == 0 ==> final(child)@ == old(child)@,
            // A coefficient of zero nullifies every perturbation.
            self.coeff == 0 ==> final(child)@ == old(child)@,
            // Each gene is untouched or moved by at most `coeff`.
            forall|i: int|
                0 <= i < old(child)@.len() ==> gene_mutation_step(
                    old(child)@[i],
                    final(child)@[i],
                    self.coeff,
                ),
    {
        let ghost orig = child@;
        let gene_count = child.len();
        let mut gene_idx: usize = 0;
        while gene_idx < gene_count
            invariant
                gene_idx <= gene_count,
                gene_count == orig.len(),
                child@.len() == orig.len(),
                self.chance == 0 ==> child@ == orig,
                self.coeff == 0 ==> child@ == orig,
                forall|i: int|
                    gene_idx <= i < orig.len() ==> child@[i] == orig[i],
                forall|i: int|
                    0 <= i < gene_idx ==> gene_mutation_step(orig[i], child@[i], self.coeff),
            decreases gene_count - gene_idx,
        {
            // A chance above `UNIT` cannot come out of `new`; a value built
            // by hand is read as certainty.
            let chance = if self.chance > UNIT { UNIT } else { self.chance };
            let negative = prng.coin(HALF);
            let gate = prng.coin(chance);
            if gate {
                let magnitude = prng.next_below(UNIT as u128) as u64;
                proof {
                    assert(self.coeff as int * (magnitude as int) <= self.coeff as int * (UNIT
                        - 1)) by (nonlinear_arith)
                        requires magnitude < UNIT;
                    assert(self.coeff as int * (UNIT - 1) < 0x10000000000000000)
                        by (nonlinear_arith)
                        requires self.coeff <= u32::MAX;
                }
                let delta = (self.coeff as u64 * magnitude) / (UNIT as u64);
                proof {
                    assert(self.coeff as int * (magnitude as int) <= (UNIT as int) * (
                    self.coeff as int)) by (nonlinear_arith)
                        requires magnitude < UNIT;
                    vstd::arithmetic::div_mod::lemma_multiply_divide_le(
                        self.coeff as int * (magnitude as int),
                        UNIT as int,
                        self.coeff as int,
                    );
                    assert(delta <= self.coeff as u64);
                }
                let g0 = child.genes()[gene_idx];
                let moved: i64 = if negative {
                    g0 as i64 - delta as i64
                } else {
                    g0 as i64 + delta as i64
                };
                let g1: i32 = if moved < i32::MIN as i64 {
                    i32::MIN
                } else if moved > i32::MAX as i64 {
                    i32::MAX
                } else {
                    moved as i32
                };
                let ghost prev = child@;
                child.set_gene(gene_idx, g1);
                proof {
                    assert(g1 == perturbed_gene(orig[gene_idx as int], negative, magnitude as int,
                        self.coeff));
                    assert(gene_mutation_step(orig[gene_idx as int], g1, self.coeff));
                    if self.coeff == 0 {
                        assert(g1 == orig[gene_idx as int]);
                        assert(child@ =~= orig);
                    }
                }
            }
            gene_idx = gene_idx + 1;
        }
    }
}

} // verus!
