use vstd::prelude::*;

verus! {

/// Every failure the engine can report.  All of them are precondition
/// violations surfaced at the call that detects them; nothing is retried.
#[derive(Clone, Copy, Debug, PartialEq, Eq, Structural)]
pub enum EngineError {
    /// An invalid constructor argument: an empty weight vector, a mutation
    /// chance outside `[0, UNIT]`, or a topology shorter than two layers.
    ConfigError,
    /// A propagation called with the wrong input length, or a crossover of
    /// unequal-length chromosomes.
    DimensionMismatch,
    /// A flat weight stream ran out before the topology was filled.
    InsufficientWeights,
    /// A flat weight stream still held scalars after the topology was filled.
    TooManyWeights,
    /// Selection, evolution or statistics asked of an empty population.
    EmptyPopulation,
    /// Selection asked of a population whose fitness sum is zero.
    DegenerateFitness,
    /// A chromosome read past its length.
    IndexOutOfRange,
}

} // verus!
