use snek::errors::EngineError;
use snek::genetics::algorithm::GeneticAlgorithm;
use snek::genetics::chromosome::Chromosome;
use snek::genetics::crossover::{CrossoverMethod, UniformCrossover};
use snek::genetics::individual::{Individual, TestIndividual};
use snek::genetics::mutation::{GaussianMutation, MutationMethod};
use snek::genetics::selection::{RouletteWheelSelection, SelectionMethod};
use snek::genetics::statistics::Statistics;
use snek::rng::{ChaChaSource, UNIT};

/// One whole unit in fixed point, as an `i32` gene.
const ONE: i32 = 1_000_000;

fn chromosome(genes: &[i32]) -> Chromosome {
    Chromosome::from_genes(genes.to_vec())
}

#[test]
fn length_test() {
    let chromosome = chromosome(&[3 * ONE, ONE, 2 * ONE]);

    assert_eq!(chromosome.len(), 3);
}

#[test]
fn chromosome_iter() {
    let chromosome = chromosome(&[3 * ONE, ONE, 2 * ONE]);

    let actual: Vec<&i32> = chromosome.genes().iter().collect();

    assert_eq!(actual.len(), 3);
    assert_eq!(*actual[0], 3 * ONE);
    assert_eq!(*actual[1], ONE);
    assert_eq!(*actual[2], 2 * ONE);
}

#[test]
fn chromosome_into_iter() {
    let chromosome = chromosome(&[3 * ONE, ONE, 2 * ONE]);

    let actual: Vec<i32> = chromosome.into_genes();

    assert_eq!(actual, vec![3 * ONE, ONE, 2 * ONE]);
}

#[test]
fn chromosome_to_chromosome() {
    let chromosome = chromosome(&[3 * ONE, ONE, 2 * ONE]);

    let chromosome_copy = chromosome.clone();

    let new_chromosome = Chromosome::from_genes(chromosome.into_genes());

    assert_eq!(chromosome_copy, new_chromosome);
}

#[test]
fn chromosome_from_iter() {
    let genes: Vec<i32> = vec![3 * ONE, ONE, 2 * ONE];

    let chromosome = Chromosome::from_genes(genes.clone());

    assert_eq!(chromosome.gene(0), Ok(genes[0]));
    assert_eq!(chromosome.gene(1), Ok(genes[1]));
    assert_eq!(chromosome.gene(2), Ok(genes[2]));
}

#[test]
fn chromosome_index_out_of_range() {
    let chromosome = chromosome(&[ONE, 2 * ONE]);

    assert_eq!(chromosome.gene(2), Err(EngineError::IndexOutOfRange));
    assert!(!chromosome.is_empty());
}

#[test]
fn uniform_crossover() {
    let mut prng = ChaChaSource::from_seed(0);

    // Two parents whose genes differ at every position.
    let parent_a: Vec<i32> = (1..=100).map(|n| n * 1000).collect();
    let parent_b: Vec<i32> = (1..=100).map(|n| -n * 1000).collect();
    let parent_a = Chromosome::from_genes(parent_a);
    let parent_b = Chromosome::from_genes(parent_b);

    let child = UniformCrossover::new()
        .crossover(&mut prng, &parent_a, &parent_b)
        .unwrap();

    assert_eq!(child.len(), 100);

    // Every child gene comes from one of the parents, never a blend.
    let mut diff_a = 0;
    let mut diff_b = 0;
    for i in 0..100 {
        let g = child.gene(i).unwrap();
        let a = parent_a.gene(i).unwrap();
        let b = parent_b.gene(i).unwrap();
        assert!(g == a || g == b);
        if g != a {
            diff_a += 1;
        }
        if g != b {
            diff_b += 1;
        }
    }

    // The parents differ everywhere, so the two counts cover all 100
    // positions; a fair coin keeps both near half.
    assert_eq!(diff_a + diff_b, 100);
    assert!(diff_a >= 20 && diff_a <= 80);
}

#[test]
fn crossover_length_mismatch() {
    let mut prng = ChaChaSource::from_seed(0);
    let parent_a = chromosome(&[ONE, 2 * ONE]);
    let parent_b = chromosome(&[ONE]);

    let result = UniformCrossover::new().crossover(&mut prng, &parent_a, &parent_b);

    assert_eq!(result, Err(EngineError::DimensionMismatch));
}

#[test]
fn gaussian_mutation() {
    let mut prng = ChaChaSource::from_seed(0);

    // A coefficient of zero nullifies every perturbation, whatever the
    // gate decides.
    let mutator = GaussianMutation::new(UNIT / 2, 0).unwrap();
    let mut child = chromosome(&[ONE, 2 * ONE, 3 * ONE, 4 * ONE, 5 * ONE]);
    mutator.mutate(&mut prng, &mut child);
    assert_eq!(child.genes(), &vec![ONE, 2 * ONE, 3 * ONE, 4 * ONE, 5 * ONE]);

    // A real coefficient moves each gene by at most the coefficient.
    let mutator = GaussianMutation::new(750_000, 2_000_000).unwrap();
    let original = [ONE, 2 * ONE, 3 * ONE, 4 * ONE, 5 * ONE];
    let mut child = chromosome(&original);
    mutator.mutate(&mut prng, &mut child);
    assert_eq!(child.len(), 5);
    for i in 0..5 {
        let moved = child.gene(i).unwrap() as i64 - original[i] as i64;
        assert!(moved.abs() <= 2_000_000);
    }

    let mutator = GaussianMutation::new(UNIT, 250_000).unwrap();
    let mut child = chromosome(&original);
    mutator.mutate(&mut prng, &mut child);
    assert_eq!(child.len(), 5);
    for i in 0..5 {
        let moved = child.gene(i).unwrap() as i64 - original[i] as i64;
        assert!(moved.abs() <= 250_000);
    }
}

#[test]
fn mutation_zero_chance_changes_nothing() {
    // Whatever the coefficient and the generator state, a chance of zero
    // leaves the chromosome untouched.
    for seed in 0..5u64 {
        let mut prng = ChaChaSource::from_seed(seed);
        let mutator = GaussianMutation::new(0, 3_000_000).unwrap();
        let mut child = chromosome(&[-ONE, 0, 7, 2 * ONE, i32::MAX, i32::MIN]);
        mutator.mutate(&mut prng, &mut child);
        assert_eq!(child.genes(), &vec![-ONE, 0, 7, 2 * ONE, i32::MAX, i32::MIN]);
    }
}

#[test]
fn mutation_chance_out_of_range() {
    assert!(matches!(
        GaussianMutation::new(UNIT + 1, 0),
        Err(EngineError::ConfigError)
    ));
}

#[test]
fn roulette_wheel_selection() {
    let mut prng = ChaChaSource::from_seed(0);

    let roulette_wheel = RouletteWheelSelection::new();

    let population = vec![
        TestIndividual::new(2),
        TestIndividual::new(1),
        TestIndividual::new(4),
        TestIndividual::new(3),
    ];

    // Spin the wheel a thousand times and count how often each fitness
    // value is chosen.
    let mut histogram = [0i32; 5];
    for _ in 0..1000 {
        let picked = roulette_wheel.select(&mut prng, &population).unwrap();
        histogram[picked.fitness() as usize] += 1;
    }

    // Each fitness should be chosen within a few percent of its share:
    // 10%, 20%, 40% and 30% of the thousand spins.
    assert!((histogram[1] - 100).abs() <= 50, "fitness 1: {}", histogram[1]);
    assert!((histogram[2] - 200).abs() <= 50, "fitness 2: {}", histogram[2]);
    assert!((histogram[4] - 400).abs() <= 50, "fitness 4: {}", histogram[4]);
    assert!((histogram[3] - 300).abs() <= 50, "fitness 3: {}", histogram[3]);
}

#[test]
fn selection_on_empty_population() {
    let mut prng = ChaChaSource::from_seed(0);
    let population: Vec<TestIndividual> = Vec::new();

    let result = RouletteWheelSelection::new().select(&mut prng, &population);

    assert_eq!(result, Err(EngineError::EmptyPopulation));
}

#[test]
fn selection_on_zero_fitness() {
    let mut prng = ChaChaSource::from_seed(0);
    let population = vec![TestIndividual::new(0), TestIndividual::new(0)];

    let result = RouletteWheelSelection::new().select(&mut prng, &population);

    assert_eq!(result, Err(EngineError::DegenerateFitness));
}

fn individual(genes: &[i32]) -> TestIndividual {
    TestIndividual::create(Chromosome::from_genes(genes.to_vec()))
}

#[test]
fn evolution() {
    let mut prng = ChaChaSource::from_seed(42);

    let ga = GeneticAlgorithm::new(
        RouletteWheelSelection::new(),
        UniformCrossover::new(),
        GaussianMutation::new(UNIT / 2, UNIT / 2).unwrap(),
    );

    let mut population = vec![
        individual(&[0, 0, 0]),
        individual(&[ONE, ONE, ONE]),
        individual(&[ONE, 2 * ONE, ONE]),
        individual(&[ONE, 2 * ONE, 4 * ONE]),
    ];

    for _ in 0..10 {
        population = ga.evolve(&mut prng, &population).unwrap();
        // The population size is invariant across generations, and every
        // chromosome keeps the common length.
        assert_eq!(population.len(), 4);
        for individual in &population {
            assert_eq!(individual.chromosome().len(), 3);
        }
    }
}

#[test]
fn evolution_is_reproducible() {
    // Two runs from one seed, with the same strategies and population,
    // walk the same draw sequence and land on identical successors.
    let run = |seed: u64| {
        let mut prng = ChaChaSource::from_seed(seed);
        let ga = GeneticAlgorithm::new(
            RouletteWheelSelection::new(),
            UniformCrossover::new(),
            GaussianMutation::new(UNIT / 4, UNIT / 10).unwrap(),
        );
        let mut population = vec![
            individual(&[10 * ONE, 5 * ONE, ONE]),
            individual(&[8 * ONE, 6 * ONE, 2 * ONE]),
            individual(&[4 * ONE, 9 * ONE, 3 * ONE]),
        ];
        for _ in 0..5 {
            population = ga.evolve(&mut prng, &population).unwrap();
        }
        population
    };

    assert_eq!(run(123), run(123));
    assert_ne!(run(123), run(124));
}

#[test]
fn evolution_of_empty_population() {
    let mut prng = ChaChaSource::from_seed(0);
    let ga = GeneticAlgorithm::new(
        RouletteWheelSelection::new(),
        UniformCrossover::new(),
        GaussianMutation::new(UNIT / 2, UNIT / 2).unwrap(),
    );
    let population: Vec<TestIndividual> = Vec::new();

    let result = ga.evolve(&mut prng, &population);

    assert_eq!(result, Err(EngineError::EmptyPopulation));
}

#[test]
fn stats() {
    let population = vec![
        TestIndividual::new(30),
        TestIndividual::new(10),
        TestIndividual::new(20),
        TestIndividual::new(40),
    ];

    let stats = Statistics::new(&population).unwrap();

    assert_eq!(stats.min_fitness(), 10);
    assert_eq!(stats.max_fitness(), 40);
    assert_eq!(stats.avg_fitness(), (10 + 20 + 30 + 40) / 4);
    assert_eq!(stats.sum_fitness(), 10 + 20 + 30 + 40);
}

#[test]
fn stats_of_empty_population() {
    let population: Vec<TestIndividual> = Vec::new();

    let result = Statistics::new(&population);

    assert!(result.is_err());
}
