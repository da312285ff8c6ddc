use vstd::prelude::*;

use crate::errors::EngineError;
use crate::rng::{RandomSource, UNIT};

verus! {

/// The sum of the first `k` products `weights[i] * inputs[i]`.
pub open spec fn dot_prefix(weights: Seq<i32>, inputs: Seq<i32>, k: int) -> int
    decreases k,
{
    if k <= 0 {
        0
    } else {
        dot_prefix(weights, inputs, k - 1) + weights[k - 1] * inputs[k - 1]
    }
}

/// The dot product of a weight vector with an equally long input vector.
pub open spec fn dot(weights: Seq<i32>, inputs: Seq<i32>) -> int {
    dot_prefix(weights, inputs, weights.len() as int)
}

/// Each product of two `i32` values is bounded by `2^62`, so the prefix sum
/// is bounded by `k` times that.
pub proof fn lemma_dot_prefix_bounds(weights: Seq<i32>, inputs: Seq<i32>, k: int)
    requires
        0 <= k,
    ensures
        -k * 0x4000000000000000 <= dot_prefix(weights, inputs, k) <= k * 0x4000000000000000,
    decreases k,
{
    if k > 0 {
        lemma_dot_prefix_bounds(weights, inputs, k - 1);
        let a = weights[k - 1] as int;
        let b = inputs[k - 1] as int;
        assert(-0x4000000000000000 <= a * b <= 0x4000000000000000) by (nonlinear_arith)
            requires i32::MIN <= a <= i32::MAX && i32::MIN <= b <= i32::MAX;
        assert((k - 1) * 0x4000000000000000 + 0x4000000000000000 == k * 0x4000000000000000)
            by (nonlinear_arith);
        assert(-(k - 1) * 0x4000000000000000 - 0x4000000000000000 == -k * 0x4000000000000000)
            by (nonlinear_arith);
    }
}

/// Division by `UNIT` truncated towards zero, as the machine computes it.
pub open spec fn unit_div(x: int) -> int {
    if x >= 0 {
        x / (UNIT as int)
    } else {
        -((-x) / (UNIT as int))
    }
}

/// The rectifier: negative sums floor to zero, and anything above the range
/// of an `i32` saturates at its maximum.
pub open spec fn relu_clamp(x: int) -> int {
    if x <= 0 {
        0
    } else if x > i32::MAX {
        i32::MAX as int
    } else {
        x
    }
}

/// What one neuron computes on an input vector: its bias plus the
/// fixed-point dot product of weights and inputs, rectified.
pub open spec fn neuron_output(neuron: Neuron, inputs: Seq<i32>) -> int {
    relu_clamp(neuron.bias + unit_div(dot(neuron.weights@, inputs)))
}

/// A single affine unit with rectified-linear activation: a bias and one
/// weight per input, all in fixed point.
#[derive(Clone, Debug, PartialEq)]
pub struct Neuron {
    pub bias: i32,
    pub weights: Vec<i32>,
}

impl Neuron {
    /// A neuron with the given bias and weights; an empty weight vector is
    /// refused with `ConfigError`.
    pub fn new(bias: i32, weights: Vec<i32>) -> (r: Result<Neuron, EngineError>)
        ensures
            r is Ok <==> weights@.len() >= 1,
            r is Err ==> r == Err::<Neuron, EngineError>(EngineError::ConfigError),
            r matches Ok(n) ==> n.bias == bias && n.weights@ == weights@,
    {
        if weights.len() == 0 {
            Err(EngineError::ConfigError)
        } else {
            Ok(Neuron { bias, weights })
        }
    }

    /// The bias of this neuron.
    pub fn bias(&self) -> (r: i32)
        ensures
            r == self.bias,
    {
        self.bias
    }

    /// The weights of this neuron, in order.
    pub fn weights(&self) -> (r: &Vec<i32>)
        ensures
            r@ == self.weights@,
    {
        &self.weights
    }

    /// Combines the inputs into one rectified output.  An input vector whose
    /// length differs from the weight count is refused with
    /// `DimensionMismatch`.
    pub fn propagate(&self, inputs: &Vec<i32>) -> (r: Result<i32, EngineError>)
        ensures
            r is Ok <==> inputs@.len() == self.weights@.len(),
            r is Err ==> r == Err::<i32, EngineError>(EngineError::DimensionMismatch),
            r matches Ok(out) ==> out == neuron_output(*self, inputs@),
    {
        if inputs.len() != self.weights.len() {
            return Err(EngineError::DimensionMismatch);
        }

        let n = self.weights.len();
        let mut acc: i128 = 0;
        let mut i: usize = 0;
        while i < n
            invariant
                i <= n,
                n == self.weights@.len() == inputs@.len(),
                acc == dot_prefix(self.weights@, inputs@, i as int),
                -(i as int) * 0x4000000000000000 <= acc <= (i as int) * 0x4000000000000000,
            decreases n - i,
        {
            proof {
                lemma_dot_prefix_bounds(self.weights@, inputs@, i as int + 1);
                assert(self.weights@[i as int] as int * (inputs@[i as int] as int)
                    <= 0x4000000000000000 && self.weights@[i as int] as int * (
                inputs@[i as int] as int) >= -0x4000000000000000) by (nonlinear_arith)
                    requires
                        i32::MIN <= self.weights@[i as int] <= i32::MAX,
                        i32::MIN <= inputs@[i as int] <= i32::MAX;
            }
            acc = acc + self.weights[i] as i128 * inputs[i] as i128;
            i = i + 1;
        }

        let scaled: i128 = if acc >= 0 {
            acc / (UNIT as i128)
        } else {
            -((-acc) / (UNIT as i128))
        };
        proof {
            assert(scaled == unit_div(dot(self.weights@, inputs@)));
        }
        let out: i128 = self.bias as i128 + scaled;
        let r: i32 = if out <= 0 {
            0
        } else if out > i32::MAX as i128 {
            i32::MAX
        } else {
            out as i32
        };
        Ok(r)
    }

    /// A neuron with bias and weights drawn uniformly from `[-UNIT, UNIT]`,
    /// one draw for the bias and then one per weight, in that order.  An
    /// input count of zero would make an empty weight vector and is refused
    /// with `ConfigError`.
    pub fn random<R: RandomSource>(prng: &mut R, input_count: usize) -> (r: Result<
        Neuron,
        EngineError,
    >)
        ensures
            r is Ok <==> input_count >= 1,
            r is Err ==> r == Err::<Neuron, EngineError>(EngineError::ConfigError),
            r matches Ok(n) ==> {
                &&& n.weights@.len() == input_count
                &&& -(UNIT as int) <= n.bias <= UNIT as int
                &&& forall|i: int|
                    0 <= i < input_count ==> -(UNIT as int) <= #[trigger] n.weights@[i]
                        <= UNIT as int
            },
    {
        if input_count == 0 {
            return Err(EngineError::ConfigError);
        }

        let bias = random_gene(prng);
        let mut weights: Vec<i32> = Vec::new();
        let mut i: usize = 0;
        while i < input_count
            invariant
                i <= input_count,
                weights@.len() == i,
                forall|j: int|
                    0 <= j < i ==> -(UNIT as int) <= #[trigger] weights@[j] <= UNIT as int,
            decreases input_count - i,
        {
            let w = random_gene(prng);
            weights.push(w);
            i = i + 1;
        }

        Ok(Neuron { bias, weights })
    }

    /// A neuron read from a flat weight buffer at a shared cursor: one
    /// scalar for the bias, then `input_count` weights, in order.  A buffer
    /// too short to serve them is refused with `InsufficientWeights` and the
    /// cursor is left where it was.
    pub fn from_weights(input_count: usize, weights: &Vec<i32>, cursor: &mut usize) -> (r: Result<
        Neuron,
        EngineError,
    >)
        requires
            *old(cursor) <= weights@.len(),
        ensures
            input_count == 0 ==> r == Err::<Neuron, EngineError>(EngineError::ConfigError),
            r is Ok <==> input_count >= 1 && *old(cursor) + 1 + input_count <= weights@.len(),
            input_count >= 1 && *old(cursor) + 1 + input_count > weights@.len() ==> r == Err::<
                Neuron,
                EngineError,
            >(EngineError::InsufficientWeights),
            r is Ok ==> *final(cursor) == *old(cursor) + 1 + input_count,
            r is Err ==> *final(cursor) == *old(cursor),
            *final(cursor) <= weights@.len(),
            r matches Ok(n) ==> {
                &&& n.bias == weights@[*old(cursor) as int]
                &&& n.weights@ == weights@.subrange(
                    *old(cursor) + 1,
                    *old(cursor) + 1 + input_count,
                )
            },
    {
        if input_count == 0 {
            return Err(EngineError::ConfigError);
        }
        let remaining = weights.len() - *cursor;
        if remaining == 0 || input_count > remaining - 1 {
            return Err(EngineError::InsufficientWeights);
        }

        let start = *cursor;
        let bias = weights[start];
        let mut taken: Vec<i32> = Vec::new();
        let mut pos: usize = start + 1;
        while taken.len() < input_count
            invariant
                taken@.len() <= input_count,
                pos == start + 1 + taken@.len(),
                start + 1 + input_count <= weights@.len(),
                weights@.len() <= usize::MAX,
                taken@ == weights@.subrange(start + 1, pos as int),
            decreases input_count - taken@.len(),
        {
            taken.push(weights[pos]);
            pos = pos + 1;
            proof {
                assert(taken@ =~= weights@.subrange(start + 1, pos as int));
            }
        }
        *cursor = pos;

        Ok(Neuron { bias, weights: taken })
    }
}

/// One uniform draw mapped onto the gene range `[-UNIT, UNIT]`.
fn random_gene<R: RandomSource>(prng: &mut R) -> (g: i32)
    ensures
        -(UNIT as int) <= g <= UNIT as int,
{
    let raw = prng.next_below(2 * UNIT as u128 + 1);
    (raw as i64 - UNIT as i64) as i32
}

} // verus!
