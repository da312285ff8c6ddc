use vstd::prelude::*;

use crate::errors::EngineError;
use crate::genetics::individual::{fitness_prefix, lemma_fitness_prefix_bounds, total_fitness, Individual};
use crate::rng::RandomSource;

verus! {

/// A way of picking one parent out of a population.  An empty population is
/// refused with `EmptyPopulation`, one whose fitness sum is zero with
/// `DegenerateFitness`; otherwise some individual with positive fitness is
/// returned.
pub trait SelectionMethod {
    fn select<'a, I: Individual, R: RandomSource>(
        &self,
        prng: &mut R,
        population: &'a Vec<I>,
    ) -> (r: Result<&'a I, EngineError>)
        ensures
            r is Ok <==> population@.len() > 0 && total_fitness(population@) > 0,
            population@.len() == 0 ==> r == Err::<&'a I, EngineError>(
                EngineError::EmptyPopulation,
            ),
            population@.len() > 0 && total_fitness(population@) <= 0 ==> r == Err::<
                &'a I,
                EngineError,
            >(EngineError::DegenerateFitness),
            r matches Ok(picked) ==> exists|j: int|
                0 <= j < population@.len() && *picked == population@[j]
                    && population@[j].fitness_spec() > 0,
    ;
}

/// Roulette-wheel (fitness-proportionate) selection: one uniform draw below
/// the fitness sum, then the first individual whose cumulative fitness
/// exceeds the draw.
#[derive(Clone, Debug, Default)]
pub struct RouletteWheelSelection;

impl RouletteWheelSelection {
    /// A roulette-wheel selection strategy.
    pub fn new() -> Self {
        Self
    }
}

/// Summing one more individual extends the fitness prefix by its fitness.
proof fn lemma_fitness_prefix_step<I: Individual>(population: Seq<I>, k: int)
    requires
        0 <= k < population.len(),
    ensures
        fitness_prefix(population, k + 1) == fitness_prefix(population, k)
            + population[k].fitness_spec(),
{
}

impl SelectionMethod for RouletteWheelSelection {
    fn select<'a, I: Individual, R: RandomSource>(
        &self,
        prng: &mut R,
        population: &'a Vec<I>,
    ) -> (r: Result<&'a I, EngineError>) {
        let n = population.len();
        if n == 0 {
            return Err(EngineError::EmptyPopulation);
        }

        // One pass to build the fitness sum the wheel spins over.
        let mut total: u128 = 0;
        let mut i: usize = 0;
        while i < n
            invariant
                i <= n,
                n == population@.len(),
                total == fitness_prefix(population@, i as int),
                total <= (i as int) * (u32::MAX as int),
            decreases n - i,
        {
            proof {
                lemma_fitness_prefix_bounds(population@, i as int + 1);
            }
            total = total + (&population[i]).fitness() as u128;
            i = i + 1;
        }
        if total == 0 {
            return Err(EngineError::DegenerateFitness);
        }

        // One draw, then the scan for the first individual whose cumulative
        // fitness exceeds it.  If the scan falls through, the last
        // individual is that one.
        let draw = prng.next_below(total);
        let mut cumulative: u128 = 0;
        let mut j: usize = 0;
        while j < n - 1
            invariant
                j <= n - 1,
                n == population@.len(),
                n >= 1,
                cumulative == fitness_prefix(population@, j as int),
                total == total_fitness(population@),
                draw < total,
                cumulative <= draw,
            decreases n - 1 - j,
        {
            proof {
                lemma_fitness_prefix_bounds(population@, j as int + 1);
            }
            let next = cumulative + (&population[j]).fitness() as u128;
            if draw < next {
                proof {
                    assert((&population@[j as int]).fitness_spec() > 0);
                }
                return Ok(&population[j]);
            }
            cumulative = next;
            j = j + 1;
        }

        proof {
            lemma_fitness_prefix_step(population@, n - 1 as int);
            assert(fitness_prefix(population@, n as int) == total_fitness(population@));
            assert((&population@[n - 1 as int]).fitness_spec() > 0);
        }
        Ok(&population[n - 1])
    }
}

} // verus!
