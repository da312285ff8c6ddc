use vstd::prelude::*;

use crate::errors::EngineError;
use crate::genetics::individual::{fitness_prefix, lemma_fitness_prefix_bounds, total_fitness, Individual};

verus! {

/// The smallest fitness among the first `k` individuals (`u32::MAX` for an
/// empty prefix, so that any fitness lowers it).
pub open spec fn min_fitness_prefix<I: Individual>(population: Seq<I>, k: int) -> int
    decreases k,
{
    if k <= 0 {
        u32::MAX as int
    } else {
        let rest = min_fitness_prefix(population, k - 1);
        if population[k - 1].fitness_spec() < rest {
            population[k - 1].fitness_spec() as int
        } else {
            rest
        }
    }
}

/// The largest fitness among the first `k` individuals (zero for an empty
/// prefix, so that any fitness raises it).
pub open spec fn max_fitness_prefix<I: Individual>(population: Seq<I>, k: int) -> int
    decreases k,
{
    if k <= 0 {
        0
    } else {
        let rest = max_fitness_prefix(population, k - 1);
        if population[k - 1].fitness_spec() > rest {
            population[k - 1].fitness_spec() as int
        } else {
            rest
        }
    }
}

/// Every prefix minimum and maximum is itself a `u32`, and the sum is at
/// most `k` times the maximum.
proof fn lemma_stats_prefix_bounds<I: Individual>(population: Seq<I>, k: int)
    requires
        0 <= k,
    ensures
        0 <= min_fitness_prefix(population, k) <= u32::MAX as int,
        0 <= max_fitness_prefix(population, k) <= u32::MAX as int,
        fitness_prefix(population, k) <= k * max_fitness_prefix(population, k),
    decreases k,
{
    if k > 0 {
        lemma_stats_prefix_bounds(population, k - 1);
        let m1 = max_fitness_prefix(population, k - 1);
        let m = max_fitness_prefix(population, k);
        assert((k - 1) * m1 <= (k - 1) * m) by (nonlinear_arith)
            requires 0 <= k - 1 && m1 <= m;
        assert((k - 1) * m + m == k * m) by (nonlinear_arith);
    }
}

/// A read-only fitness summary of one population: minimum, maximum, sum and
/// truncated arithmetic mean.
#[derive(Clone, Debug)]
pub struct Statistics {
    pub min_fitness: u32,
    pub max_fitness: u32,
    pub avg_fitness: u32,
    pub sum_fitness: u128,
}

impl Statistics {
    /// Scans the population once and summarises its fitness; an empty
    /// population is refused with `EmptyPopulation`.
    pub fn new<I: Individual>(population: &Vec<I>) -> (r: Result<Statistics, EngineError>)
        ensures
            r is Ok <==> population@.len() > 0,
            r is Err ==> r == Err::<Statistics, EngineError>(EngineError::EmptyPopulation),
            r matches Ok(s) ==> {
                let n = population@.len() as int;
                &&& s.min_fitness == min_fitness_prefix(population@, n)
                &&& s.max_fitness == max_fitness_prefix(population@, n)
                &&& s.sum_fitness == total_fitness(population@)
                &&& s.avg_fitness == total_fitness(population@) / n
            },
    {
        let n = population.len();
        if n == 0 {
            return Err(EngineError::EmptyPopulation);
        }

        let mut min_fitness: u32 = (&population[0]).fitness();
        let mut max_fitness: u32 = min_fitness;
        let mut sum_fitness: u128 = 0;
        let mut i: usize = 0;
        while i < n
            invariant
                i <= n,
                n == population@.len(),
                n >= 1,
                sum_fitness == fitness_prefix(population@, i as int),
                sum_fitness <= (i as int) * (u32::MAX as int),
                i > 0 ==> min_fitness == min_fitness_prefix(population@, i as int),
                i > 0 ==> max_fitness == max_fitness_prefix(population@, i as int),
                i == 0 ==> min_fitness == population@[0].fitness_spec() && max_fitness
                    == population@[0].fitness_spec(),
            decreases n - i,
        {
            proof {
                lemma_fitness_prefix_bounds(population@, i as int + 1);
                if i == 0 {
                    assert(min_fitness_prefix(population@, 0) == u32::MAX as int);
                    assert(max_fitness_prefix(population@, 0) == 0);
                }
            }
            let fitness = (&population[i]).fitness();
            if fitness < min_fitness {
                min_fitness = fitness;
            }
            if fitness > max_fitness {
                max_fitness = fitness;
            }
            sum_fitness = sum_fitness + fitness as u128;
            i = i + 1;
        }

        proof {
            lemma_stats_prefix_bounds(population@, n as int);
            vstd::arithmetic::div_mod::lemma_multiply_divide_le(
                sum_fitness as int,
                n as int,
                max_fitness_prefix(population@, n as int),
            );
        }
        let avg_fitness: u32 = (sum_fitness / n as u128) as u32;

        Ok(Statistics { min_fitness, max_fitness, avg_fitness, sum_fitness })
    }

    /// The minimum fitness of the population.
    pub fn min_fitness(&self) -> (r: u32)
        ensures
            r == self.min_fitness,
    {
        self.min_fitness
    }

    /// The maximum fitness of the population.
    pub fn max_fitness(&self) -> (r: u32)
        ensures
            r == self.max_fitness,
    {
        self.max_fitness
    }

    /// The truncated mean fitness of the population.
    pub fn avg_fitness(&self) -> (r: u32)
        ensures
            r == self.avg_fitness,
    {
        self.avg_fitness
    }

    /// The sum of all fitness values of the population.
    pub fn sum_fitness(&self) -> (r: u128)
        ensures
            r == self.sum_fitness,
    {
        self.sum_fitness
    }
}

} // verus!
