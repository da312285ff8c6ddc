use vstd::prelude::*;

use crate::errors::EngineError;
use crate::genetics::crossover::CrossoverMethod;
use crate::genetics::individual::{total_fitness, Individual};
use crate::genetics::mutation::MutationMethod;
use crate::genetics::selection::SelectionMethod;
use crate::rng::RandomSource;

verus! {

/// Whether every chromosome of the population has the same length as the
/// first one — the shape on which a generation step is owed to succeed.
pub open spec fn uniform_gene_length<I: Individual>(population: Seq<I>) -> bool {
    forall|i: int|
        0 <= i < population.len() ==> #[trigger] population[i].genes_spec().len()
            == population[0].genes_spec().len()
}

/// One generation step, composed of one selection, one crossover and one
/// mutation strategy.
#[derive(Clone, Debug)]
pub struct GeneticAlgorithm<S, C, G> {
    pub selection_method: S,
    pub crossover_method: C,
    pub mutation_method: G,
}

impl<S, C, G> GeneticAlgorithm<S, C, G> where
    S: SelectionMethod,
    C: CrossoverMethod,
    G: MutationMethod,
 {
    /// Composes the three strategies into one algorithm.
    pub fn new(selection_method: S, crossover_method: C, mutation_method: G) -> (r:
        GeneticAlgorithm<S, C, G>)
        ensures
            r.selection_method == selection_method,
            r.crossover_method == crossover_method,
            r.mutation_method == mutation_method,
    {
        GeneticAlgorithm { selection_method, crossover_method, mutation_method }
    }

    /// Consumes one population and produces its successor of the same size.
    /// For each output slot, in order: select parent A, select parent B
    /// (self-crossover is permitted), cross them into a child chromosome,
    /// mutate it in place, and wrap it in a fresh individual.
    pub fn evolve<I: Individual, R: RandomSource>(
        &self,
        prng: &mut R,
        population: &Vec<I>,
    ) -> (r: Result<Vec<I>, EngineError>)
        ensures
            // The population size is invariant across generations.
            r matches Ok(next) ==> next@.len() == population@.len(),
            population@.len() == 0 <==> r == Err::<Vec<I>, EngineError>(
                EngineError::EmptyPopulation,
            ),
            population@.len() > 0 && total_fitness(population@) <= 0 ==> r == Err::<
                Vec<I>,
                EngineError,
            >(EngineError::DegenerateFitness),
            r is Ok ==> population@.len() > 0 && total_fitness(population@) > 0,
            // On the inputs the engine is specified for — a non-empty
            // population, a positive fitness sum, all chromosomes of one
            // length — a successor is owed, and its chromosomes share that
            // length.
            population@.len() > 0 && total_fitness(population@) > 0 && uniform_gene_length(
                population@,
            ) ==> r is Ok && forall|k: int|
                0 <= k < population@.len() ==> (r->Ok_0)@[k].genes_spec().len()
                    == population@[0].genes_spec().len(),
    {
        let n = population.len();
        if n == 0 {
            return Err(EngineError::EmptyPopulation);
        }

        let mut next: Vec<I> = Vec::new();
        let mut slot: usize = 0;
        while slot < n
            invariant
                slot <= n,
                n == population@.len(),
                n >= 1,
                slot > 0 ==> total_fitness(population@) > 0,
                next@.len() == slot,
                uniform_gene_length(population@) ==> forall|k: int|
                    0 <= k < slot ==> next@[k].genes_spec().len()
                        == population@[0].genes_spec().len(),
            decreases n - slot,
        {
            let parent_a = match self.selection_method.select(prng, population) {
                Ok(individual) => individual,
                Err(e) => {
                    return Err(e);
                },
            };
            let parent_b = match self.selection_method.select(prng, population) {
                Ok(individual) => individual,
                Err(e) => {
                    return Err(e);
                },
            };

            let mut child = match self.crossover_method.crossover(
                prng,
                parent_a.chromosome(),
                parent_b.chromosome(),
            ) {
                Ok(child) => child,
                Err(e) => {
                    return Err(e);
                },
            };

            self.mutation_method.mutate(prng, &mut child);

            next.push(I::create(child));
            slot = slot + 1;
        }

        Ok(next)
    }
}

} // verus!
