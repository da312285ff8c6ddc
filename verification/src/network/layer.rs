use vstd::prelude::*;

use crate::errors::EngineError;
use crate::network::neuron::{neuron_output, Neuron};
use crate::rng::{RandomSource, UNIT};

verus! {

/// Whether every neuron of the sequence takes exactly `input_count` inputs.
pub open spec fn layer_accepts(neurons: Seq<Neuron>, input_count: int) -> bool {
    forall|j: int|
        0 <= j < neurons.len() ==> #[trigger] neurons[j].weights@.len() == input_count
}

/// What one layer computes on an input vector: each neuron's output, in
/// neuron order.
pub open spec fn layer_output(neurons: Seq<Neuron>, inputs: Seq<i32>) -> Seq<i32> {
    Seq::new(neurons.len(), |j: int| neuron_output(neurons[j], inputs) as i32)
}

/// The flat encoding of the first `k` neurons: for each, its bias and then
/// its weights, left to right.
pub open spec fn layer_flat_prefix(neurons: Seq<Neuron>, k: int) -> Seq<i32>
    decreases k,
{
    if k <= 0 {
        Seq::empty()
    } else {
        layer_flat_prefix(neurons, k - 1) + seq![neurons[k - 1].bias] + neurons[k - 1].weights@
    }
}

/// The flat encoding of a whole layer.
pub open spec fn layer_flat(neurons: Seq<Neuron>) -> Seq<i32> {
    layer_flat_prefix(neurons, neurons.len() as int)
}

/// An ordered, non-empty collection of neurons that all read the same
/// input vector.
#[derive(Clone, Debug, PartialEq)]
pub struct Layer {
    pub neurons: Vec<Neuron>,
}

impl Layer {
    /// A layer over the given neurons.  An empty collection, a neuron with
    /// no weights, or neurons disagreeing about their input count are
    /// refused with `ConfigError`.
    pub fn new(neurons: Vec<Neuron>) -> (r: Result<Layer, EngineError>)
        ensures
            r is Ok <==> neurons@.len() >= 1 && neurons@[0].weights@.len() >= 1 && layer_accepts(
                neurons@,
                neurons@[0].weights@.len() as int,
            ),
            r is Err ==> r == Err::<Layer, EngineError>(EngineError::ConfigError),
            r matches Ok(l) ==> l.neurons@ == neurons@,
    {
        if neurons.len() == 0 {
            return Err(EngineError::ConfigError);
        }
        let input_count = neurons[0].weights.len();
        if input_count == 0 {
            return Err(EngineError::ConfigError);
        }
        let mut j: usize = 1;
        while j < neurons.len()
            invariant
                1 <= j <= neurons@.len(),
                input_count == neurons@[0].weights@.len(),
                forall|i: int| 0 <= i < j ==> #[trigger] neurons@[i].weights@.len() == input_count,
            decreases neurons@.len() - j,
        {
            if neurons[j].weights.len() != input_count {
                return Err(EngineError::ConfigError);
            }
            j = j + 1;
        }
        Ok(Layer { neurons })
    }

    /// The neurons of this layer, in order.
    pub fn neurons(&self) -> (r: &Vec<Neuron>)
        ensures
            r@ == self.neurons@,
    {
        &self.neurons
    }

    /// Applies the same input vector to every neuron, in order, and collects
    /// the outputs.  An input length differing from any neuron's weight
    /// count is refused with `DimensionMismatch`.
    pub fn propagate(&self, inputs: &Vec<i32>) -> (r: Result<Vec<i32>, EngineError>)
        ensures
            r is Ok <==> layer_accepts(self.neurons@, inputs@.len() as int),
            r is Err ==> r == Err::<Vec<i32>, EngineError>(EngineError::DimensionMismatch),
            r matches Ok(outputs) ==> outputs@ == layer_output(self.neurons@, inputs@),
    {
        let mut outputs: Vec<i32> = Vec::new();
        let mut j: usize = 0;
        while j < self.neurons.len()
            invariant
                j <= self.neurons@.len(),
                outputs@.len() == j,
                forall|i: int| 0 <= i < j ==> #[trigger] self.neurons@[i].weights@.len()
                    == inputs@.len(),
                forall|i: int| 0 <= i < j ==> outputs@[i] == layer_output(self.neurons@, inputs@)[i],
            decreases self.neurons@.len() - j,
        {
            let out = match (&self.neurons[j]).propagate(inputs) {
                Ok(out) => out,
                Err(e) => {
                    return Err(e);
                },
            };
            outputs.push(out);
            j = j + 1;
        }
        proof {
            assert(outputs@ =~= layer_output(self.neurons@, inputs@));
        }
        Ok(outputs)
    }

    /// A layer of `output_count` neurons drawn at random, each over
    /// `input_count` inputs, built in neuron order.  A zero count on either
    /// side is refused with `ConfigError`.
    pub fn random<R: RandomSource>(
        prng: &mut R,
        input_count: usize,
        output_count: usize,
    ) -> (r: Result<Layer, EngineError>)
        ensures
            r is Ok <==> input_count >= 1 && output_count >= 1,
            r is Err ==> r == Err::<Layer, EngineError>(EngineError::ConfigError),
            r matches Ok(l) ==> {
                &&& l.neurons@.len() == output_count
                &&& layer_accepts(l.neurons@, input_count as int)
                &&& forall|j: int|
                    0 <= j < output_count ==> -(UNIT as int) <= #[trigger] l.neurons@[j].bias
                        <= UNIT as int
            },
    {
        if input_count == 0 || output_count == 0 {
            return Err(EngineError::ConfigError);
        }
        let mut neurons: Vec<Neuron> = Vec::new();
        let mut j: usize = 0;
        while j < output_count
            invariant
                j <= output_count,
                input_count >= 1,
                neurons@.len() == j,
                forall|i: int| 0 <= i < j ==> #[trigger] neurons@[i].weights@.len() == input_count,
                forall|i: int| 0 <= i < j ==> -(UNIT as int) <= #[trigger] neurons@[i].bias
                    <= UNIT as int,
            decreases output_count - j,
        {
            let neuron = match Neuron::random(prng, input_count) {
                Ok(neuron) => neuron,
                Err(e) => {
                    proof {
                        assert(false);
                    }
                    return Err(e);
                },
            };
            neurons.push(neuron);
            j = j + 1;
        }
        Ok(Layer { neurons })
    }

    /// A layer of `output_count` neurons read off a flat weight buffer at a
    /// shared cursor, one neuron after the other.  A zero count on either
    /// side is refused with `ConfigError`; a buffer too short for all the
    /// neurons with `InsufficientWeights`.
    pub fn from_weights(
        input_count: usize,
        output_count: usize,
        weights: &Vec<i32>,
        cursor: &mut usize,
    ) -> (r: Result<Layer, EngineError>)
        requires
            *old(cursor) <= weights@.len(),
        ensures
            r is Ok <==> input_count >= 1 && output_count >= 1 && *old(cursor) + output_count * (1
                + input_count) <= weights@.len(),
            input_count == 0 || output_count == 0 ==> r == Err::<Layer, EngineError>(
                EngineError::ConfigError,
            ),
            input_count >= 1 && output_count >= 1 && *old(cursor) + output_count * (1 + input_count)
                > weights@.len() ==> r == Err::<Layer, EngineError>(
                EngineError::InsufficientWeights,
            ),
            r is Ok ==> *final(cursor) == *old(cursor) + output_count * (1 + input_count),
            *final(cursor) <= weights@.len(),
            r matches Ok(l) ==> {
                &&& l.neurons@.len() == output_count
                &&& layer_accepts(l.neurons@, input_count as int)
                &&& layer_flat(l.neurons@) == weights@.subrange(
                    *old(cursor) as int,
                    *final(cursor) as int,
                )
            },
    {
        if input_count == 0 || output_count == 0 {
            return Err(EngineError::ConfigError);
        }

        let start: usize = *cursor;
        let mut neurons: Vec<Neuron> = Vec::new();
        let mut j: usize = 0;
        while j < output_count
            invariant
                j <= output_count,
                input_count >= 1,
                output_count >= 1,
                start == *old(cursor),
                *cursor <= weights@.len(),
                *cursor == start + (j as int) * (1 + input_count),
                neurons@.len() == j,
                layer_accepts(neurons@, input_count as int),
                layer_flat_prefix(neurons@, j as int) == weights@.subrange(
                    start as int,
                    *cursor as int,
                ),
            decreases output_count - j,
        {
            let ghost cursor_before = *cursor;
            let ghost neurons_before = neurons@;
            let neuron = match Neuron::from_weights(input_count, weights, cursor) {
                Ok(neuron) => neuron,
                Err(e) => {
                    proof {
                        lemma_more_neurons_need_more(
                            start as int,
                            j as int,
                            output_count as int,
                            input_count as int,
                            weights@.len() as int,
                        );
                    }
                    return Err(e);
                },
            };
            neurons.push(neuron);
            j = j + 1;
            proof {
                assert(neurons@ == neurons_before.push(neuron));
                assert(layer_flat_prefix(neurons@, j as int) == layer_flat_prefix(
                    neurons_before,
                    j - 1,
                ) + seq![neuron.bias] + neuron.weights@) by {
                    assert(neurons@[j - 1] == neuron);
                    lemma_layer_flat_prefix_same(neurons_before, neurons@, j - 1);
                }
                assert(layer_flat_prefix(neurons@, j as int) =~= weights@.subrange(
                    start as int,
                    *cursor as int,
                ));
                assert(*cursor == start + (j as int) * (1 + input_count)) by (nonlinear_arith)
                    requires
                        *cursor == cursor_before + 1 + input_count,
                        cursor_before == start + (j - 1) * (1 + input_count),
                ;
            }
        }
        Ok(Layer { neurons })
    }
}

/// A flat prefix only reads the first `k` neurons, so any sequence agreeing
/// on those has the same flat prefix.
proof fn lemma_layer_flat_prefix_same(a: Seq<Neuron>, b: Seq<Neuron>, k: int)
    requires
        0 <= k <= a.len(),
        k <= b.len(),
        forall|i: int| 0 <= i < k ==> a[i] == b[i],
    ensures
        layer_flat_prefix(a, k) == layer_flat_prefix(b, k),
    decreases k,
{
    if k > 0 {
        lemma_layer_flat_prefix_same(a, b, k - 1);
    }
}

/// If the buffer cannot even serve neuron `j`, it cannot serve all
/// `output_count` of them.
proof fn lemma_more_neurons_need_more(
    start: int,
    j: int,
    output_count: int,
    input_count: int,
    available: int,
)
    requires
        0 <= j < output_count,
        0 <= input_count,
        start + j * (1 + input_count) + 1 + input_count > available,
    ensures
        start + output_count * (1 + input_count) > available,
{
    assert(j * (1 + input_count) + 1 + input_count == (j + 1) * (1 + input_count))
        by (nonlinear_arith);
    assert((j + 1) * (1 + input_count) <= output_count * (1 + input_count)) by (nonlinear_arith)
        requires j + 1 <= output_count && 0 <= 1 + input_count;
}

} // verus!
