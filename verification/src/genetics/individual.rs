use vstd::prelude::*;

use crate::genetics::chromosome::Chromosome;

verus! {

/// The capability a domain type must offer to be evolved: a chromosome, a
/// scalar fitness, and a way to be rebuilt from a fresh chromosome.  The
/// algorithm never inspects the phenotype behind it.
pub trait Individual: Sized {
    /// The fitness, as the contracts see it.
    spec fn fitness_spec(&self) -> u32;

    /// The genes, as the contracts see them.
    spec fn genes_spec(&self) -> Seq<i32>;

    /// The scalar fitness this individual was scored with.
    fn fitness(&self) -> (r: u32)
        ensures
            r == self.fitness_spec(),
    ;

    /// The chromosome this individual carries.
    fn chromosome(&self) -> (r: &Chromosome)
        ensures
            r@ == self.genes_spec(),
    ;

    /// Builds a fresh individual around `chromosome`.
    fn create(chromosome: Chromosome) -> (r: Self)
        ensures
            r.genes_spec() == chromosome@,
    ;
}

/// The fitness of the first `k` individuals of `population`, summed.
pub open spec fn fitness_prefix<I: Individual>(population: Seq<I>, k: int) -> int
    decreases k,
{
    if k <= 0 {
        0
    } else {
        fitness_prefix(population, k - 1) + population[k - 1].fitness_spec()
    }
}

/// The fitness of the whole population, summed.
pub open spec fn total_fitness<I: Individual>(population: Seq<I>) -> int {
    fitness_prefix(population, population.len() as int)
}

/// A fitness prefix sum lies between zero and `k` times the largest fitness.
pub proof fn lemma_fitness_prefix_bounds<I: Individual>(population: Seq<I>, k: int)
    requires
        0 <= k,
    ensures
        0 <= fitness_prefix(population, k) <= k * (u32::MAX as int),
    decreases k,
{
    if k > 0 {
        lemma_fitness_prefix_bounds(population, k - 1);
        assert((k - 1) * (u32::MAX as int) + (u32::MAX as int) == k * (u32::MAX as int))
            by (nonlinear_arith);
    }
}

/// The sum of genes, clamped into `u32`: the fitness a `TestIndividual`
/// derives from its chromosome.
pub open spec fn clamped_gene_sum(genes: Seq<i32>) -> u32 {
    let s = gene_sum(genes, genes.len() as int);
    if s < 0 {
        0u32
    } else if s > u32::MAX {
        u32::MAX
    } else {
        s as u32
    }
}

/// The sum of the first `k` genes.
pub open spec fn gene_sum(genes: Seq<i32>, k: int) -> int
    decreases k,
{
    if k <= 0 {
        0
    } else {
        gene_sum(genes, k - 1) + genes[k - 1]
    }
}

proof fn lemma_gene_sum_bounds(genes: Seq<i32>, k: int)
    requires
        0 <= k,
    ensures
        k * (i32::MIN as int) <= gene_sum(genes, k) <= k * (i32::MAX as int),
    decreases k,
{
    if k > 0 {
        lemma_gene_sum_bounds(genes, k - 1);
        assert((k - 1) * (i32::MIN as int) + (i32::MIN as int) == k * (i32::MIN as int))
            by (nonlinear_arith);
        assert((k - 1) * (i32::MAX as int) + (i32::MAX as int) == k * (i32::MAX as int))
            by (nonlinear_arith);
    }
}

/// A ready-made individual for exercising the algorithm: it carries a
/// chromosome and scores itself with the clamped sum of its genes.
#[derive(Clone, Debug, PartialEq)]
pub struct TestIndividual {
    pub chromosome: Chromosome,
    pub fitness: u32,
}

impl TestIndividual {
    /// An individual with the given fitness and no genes.
    pub fn new(fitness: u32) -> (r: TestIndividual)
        ensures
            r.fitness_spec() == fitness,
            r.genes_spec() == Seq::<i32>::empty(),
    {
        TestIndividual { chromosome: Chromosome::from_genes(Vec::new()), fitness }
    }
}

impl Individual for TestIndividual {
    open spec fn fitness_spec(&self) -> u32 {
        self.fitness
    }

    open spec fn genes_spec(&self) -> Seq<i32> {
        self.chromosome@
    }

    fn fitness(&self) -> (r: u32) {
        self.fitness
    }

    fn chromosome(&self) -> (r: &Chromosome) {
        &self.chromosome
    }

    fn create(chromosome: Chromosome) -> (r: Self)
        ensures
            r.genes_spec() == chromosome@,
            r.fitness_spec() == clamped_gene_sum(chromosome@),
    {
        let genes = chromosome.genes();
        let ghost gs = chromosome@;
        let mut sum: i128 = 0;
        let mut i: usize = 0;
        while i < genes.len()
            invariant
                i <= genes.len(),
                genes@ == gs,
                sum == gene_sum(gs, i as int),
                (i as int) * (i32::MIN as int) <= sum <= (i as int) * (i32::MAX as int),
            decreases genes.len() - i,
        {
            proof {
                lemma_gene_sum_bounds(gs, i as int + 1);
            }
            sum = sum + genes[i] as i128;
            i = i + 1;
        }
        let fitness: u32 = if sum < 0 {
            0
        } else if sum > u32::MAX as i128 {
            u32::MAX
        } else {
            sum as u32
        };
        TestIndividual { chromosome, fitness }
    }
}

} // verus!
