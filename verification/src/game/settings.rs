use vstd::prelude::*;

verus! {

/// The training configuration: how large the brains, eyes and populations
/// of the trainee players are.
#[derive(Clone, Debug)]
pub struct Config {
    pub eye_photoreceptors: usize,
    pub brain_neurons: usize,
    pub outputs: usize,
    pub generation_length: usize,
    pub population_size: usize,
}

impl Default for Config {
    /// The stock configuration: five inputs, fifteen neurons, one output,
    /// ten rounds per generation, a hundred trainees.
    fn default() -> (r: Config)
        ensures
            r.eye_photoreceptors == 5,
            r.brain_neurons == 15,
            r.outputs == 1,
            r.generation_length == 10,
            r.population_size == 100,
    {
        Config {
            eye_photoreceptors: 5,
            brain_neurons: 15,
            outputs: 1,
            generation_length: 10,
            population_size: 100,
        }
    }
}

} // verus!
