use vstd::prelude::*;

use crate::errors::EngineError;
use crate::genetics::chromosome::Chromosome;
use crate::rng::{RandomSource, HALF};

verus! {

/// A way of combining two parent chromosomes of equal length into a child of
/// the same length.  Unequal parents are refused with `DimensionMismatch`;
/// the parents are never changed.
pub trait CrossoverMethod {
    fn crossover<R: RandomSource>(
        &self,
        prng: &mut R,
        parent_a: &Chromosome,
        parent_b: &Chromosome,
    ) -> (r: Result<Chromosome, EngineError>)
        ensures
            r is Ok <==> parent_a@.len() == parent_b@.len(),
            r is Err ==> r == Err::<Chromosome, EngineError>(EngineError::DimensionMismatch),
            r matches Ok(child) ==> child@.len() == parent_a@.len(),
    ;
}

/// Uniform crossover: one fair coin per gene position, in order; heads takes
/// the gene from parent A, tails from parent B.
#[derive(Clone, Debug)]
pub struct UniformCrossover;

impl UniformCrossover {
    /// A uniform crossover strategy.
    pub fn new() -> Self {
        Self
    }
}

impl CrossoverMethod for UniformCrossover {
    fn crossover<R: RandomSource>(
        &self,
        prng: &mut R,
        parent_a: &Chromosome,
        parent_b: &Chromosome,
    ) -> (r: Result<Chromosome, EngineError>)
        ensures
            // Every gene of the child is the corresponding gene of one of
            // its parents — never a blend.
            r matches Ok(child) ==> forall|i: int|
                0 <= i < child@.len() ==> child@[i] == parent_a@[i] || child@[i] == parent_b@[i],
    {
        if parent_a.len() != parent_b.len() {
            return Err(EngineError::DimensionMismatch);
        }

        let gene_count = parent_a.len();
        let mut child: Vec<i32> = Vec::new();
        let mut gene_idx: usize = 0;
        while gene_idx < gene_count
            invariant
                gene_idx <= gene_count,
                gene_count == parent_a@.len() == parent_b@.len(),
                child@.len() == gene_idx,
                forall|i: int|
                    0 <= i < gene_idx ==> child@[i] == parent_a@[i] || child@[i] == parent_b@[i],
            decreases gene_count - gene_idx,
        {
            let from_a = prng.coin(HALF);
            let gene = if from_a {
                parent_a.genes()[gene_idx]
            } else {
                parent_b.genes()[gene_idx]
            };
            child.push(gene);
            gene_idx = gene_idx + 1;
        }

        Ok(Chromosome::from_genes(child))
    }
}

} // verus!
