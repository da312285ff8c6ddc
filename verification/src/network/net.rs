use vstd::prelude::*;

use crate::errors::EngineError;
use crate::network::layer::{
    layer_accepts, layer_flat, layer_flat_prefix, layer_output, Layer,
};
use crate::network::neuron::Neuron;
use crate::rng::{RandomSource, UNIT};

verus! {

/// Whether a topology describes a buildable network: at least two layer
/// sizes, none of them zero.
pub open spec fn topology_ok(topology: Seq<usize>) -> bool {
    topology.len() >= 2 && forall|i: int| 0 <= i < topology.len() ==> #[trigger] topology[i] >= 1
}

/// How many scalars the first `k` built layers of a topology consume: layer
/// `k` is wired from `topology[k]` inputs to `topology[k + 1]` neurons, and
/// each neuron takes one bias and one weight per input.
pub open spec fn needed_prefix(topology: Seq<usize>, k: int) -> int
    decreases k,
{
    if k <= 0 {
        0
    } else {
        needed_prefix(topology, k - 1) + topology[k] * (1 + topology[k - 1])
    }
}

/// How many scalars a whole topology consumes.
pub open spec fn needed_weights(topology: Seq<usize>) -> int {
    needed_prefix(topology, topology.len() - 1)
}

/// Whether the layer sequence is wired as `topology` says.
pub open spec fn layers_match_topology(layers: Seq<Layer>, topology: Seq<usize>) -> bool {
    &&& layers.len() == topology.len() - 1
    &&& forall|k: int|
        0 <= k < layers.len() ==> #[trigger] layers[k].neurons@.len() == topology[k + 1]
            && layer_accepts(layers[k].neurons@, topology[k] as int)
}

/// Whether each layer reads exactly what the one before it produces,
/// starting from an input vector of length `input_count`.
pub open spec fn layers_chain(layers: Seq<Layer>, input_count: int) -> bool
    decreases layers.len(),
{
    if layers.len() == 0 {
        true
    } else {
        layer_accepts(layers[0].neurons@, input_count) && layers_chain(
            layers.skip(1),
            layers[0].neurons@.len() as int,
        )
    }
}

/// What the layer sequence computes on an input vector, folding each
/// layer's output into the next layer's input.
pub open spec fn layers_output(layers: Seq<Layer>, inputs: Seq<i32>) -> Seq<i32>
    decreases layers.len(),
{
    if layers.len() == 0 {
        inputs
    } else {
        layers_output(layers.skip(1), layer_output(layers[0].neurons@, inputs))
    }
}

/// The flat encoding of the first `k` layers, in layer order.
pub open spec fn net_flat_prefix(layers: Seq<Layer>, k: int) -> Seq<i32>
    decreases k,
{
    if k <= 0 {
        Seq::empty()
    } else {
        net_flat_prefix(layers, k - 1) + layer_flat(layers[k - 1].neurons@)
    }
}

/// The flat encoding of a whole network: for every layer, for every neuron,
/// its bias and then its weights — the exact order `from_weights` consumes.
pub open spec fn net_flat(layers: Seq<Layer>) -> Seq<i32> {
    net_flat_prefix(layers, layers.len() as int)
}

/// An ordered, non-empty sequence of layers forming one feed-forward
/// network.
#[derive(Clone, Debug, PartialEq)]
pub struct Network {
    pub layers: Vec<Layer>,
}

impl Network {
    /// A network over the given layers, exactly as handed in.  Only an
    /// empty sequence is refused, with `ConfigError`: whether the layers
    /// chain is `propagate`'s business, which reports any mismatch against
    /// the inputs it is given.
    pub fn new(layers: Vec<Layer>) -> (r: Result<Network, EngineError>)
        ensures
            r is Ok <==> layers@.len() >= 1,
            r is Err ==> r == Err::<Network, EngineError>(EngineError::ConfigError),
            r matches Ok(n) ==> n.layers@ == layers@,
    {
        if layers.len() == 0 {
            return Err(EngineError::ConfigError);
        }
        Ok(Network { layers })
    }

    /// The layers of this network, in order.
    pub fn layers(&self) -> (r: &Vec<Layer>)
        ensures
            r@ == self.layers@,
    {
        &self.layers
    }

    /// Folds the input vector through the layers in order; the last layer's
    /// output is the network's.  An input vector that does not fit the
    /// chain is refused with `DimensionMismatch` at the layer that detects
    /// it.
    pub fn propagate(&self, inputs: Vec<i32>) -> (r: Result<Vec<i32>, EngineError>)
        ensures
            r is Ok <==> layers_chain(self.layers@, inputs@.len() as int),
            r is Err ==> r == Err::<Vec<i32>, EngineError>(EngineError::DimensionMismatch),
            r matches Ok(outputs) ==> outputs@ == layers_output(self.layers@, inputs@),
    {
        let mut current = inputs;
        let ghost all = self.layers@;
        let ghost start = current@;
        proof {
            assert(all.skip(0) =~= all);
        }
        let mut k: usize = 0;
        while k < self.layers.len()
            invariant
                k <= all.len(),
                all == self.layers@,
                start == inputs@,
                layers_chain(all.skip(k as int), current@.len() as int) ==> layers_chain(
                    all,
                    start.len() as int,
                ),
                layers_output(all.skip(k as int), current@) == layers_output(all, start),
                layers_chain(all, start.len() as int) ==> layers_chain(
                    all.skip(k as int),
                    current@.len() as int,
                ),
            decreases all.len() - k,
        {
            let ghost before = current@;
            let next = match (&self.layers[k]).propagate(&current) {
                Ok(next) => next,
                Err(e) => {
                    proof {
                        assert(all.skip(k as int)[0] == all[k as int]);
                        assert(!layers_chain(all.skip(k as int), before.len() as int));
                    }
                    return Err(e);
                },
            };
            current = next;
            k = k + 1;
            proof {
                assert(all.skip(k - 1)[0] == all[k - 1]);
                assert(all.skip(k - 1).skip(1) =~= all.skip(k as int));
            }
        }
        proof {
            assert(all.skip(all.len() as int) =~= Seq::<Layer>::empty());
        }
        Ok(current)
    }

    /// A network drawn at random over `topology`: one layer per adjacent
    /// pair of sizes, in topology order.  A topology shorter than two
    /// layers, or one holding a zero size, is refused with `ConfigError`.
    pub fn random<R: RandomSource>(prng: &mut R, topology: &Vec<usize>) -> (r: Result<
        Network,
        EngineError,
    >)
        ensures
            r is Ok <==> topology_ok(topology@),
            r is Err ==> r == Err::<Network, EngineError>(EngineError::ConfigError),
            r matches Ok(n) ==> layers_match_topology(n.layers@, topology@),
    {
        if topology.len() < 2 {
            return Err(EngineError::ConfigError);
        }
        let mut check: usize = 0;
        while check < topology.len()
            invariant
                check <= topology@.len(),
                forall|i: int| 0 <= i < check ==> #[trigger] topology@[i] >= 1,
            decreases topology@.len() - check,
        {
            if topology[check] == 0 {
                return Err(EngineError::ConfigError);
            }
            check = check + 1;
        }

        let mut layers: Vec<Layer> = Vec::new();
        let mut k: usize = 0;
        while k < topology.len() - 1
            invariant
                k <= topology@.len() - 1,
                topology_ok(topology@),
                layers@.len() == k,
                forall|i: int|
                    0 <= i < k ==> #[trigger] layers@[i].neurons@.len() == topology@[i + 1]
                        && layer_accepts(layers@[i].neurons@, topology@[i] as int),
            decreases topology@.len() - 1 - k,
        {
            let layer = match Layer::random(prng, topology[k], topology[k + 1]) {
                Ok(layer) => layer,
                Err(e) => {
                    proof {
                        assert(false);
                    }
                    return Err(e);
                },
            };
            layers.push(layer);
            k = k + 1;
        }
        Ok(Network { layers })
    }

    /// A network read off a flat weight buffer over `topology`, threading
    /// one shared cursor through every layer and neuron in strict nesting
    /// order.  The buffer must hold exactly the scalars the topology needs:
    /// fewer are refused with `InsufficientWeights`, more with
    /// `TooManyWeights`, and on success the network's flat encoding is the
    /// buffer itself.
    pub fn from_weights(topology: &Vec<usize>, weights: &Vec<i32>) -> (r: Result<
        Network,
        EngineError,
    >)
        ensures
            r == Err::<Network, EngineError>(EngineError::ConfigError) <==> !topology_ok(topology@),
            r == Err::<Network, EngineError>(EngineError::InsufficientWeights) <==> topology_ok(
                topology@,
            ) && weights@.len() < needed_weights(topology@),
            r == Err::<Network, EngineError>(EngineError::TooManyWeights) <==> topology_ok(
                topology@,
            ) && weights@.len() > needed_weights(topology@),
            r is Ok <==> topology_ok(topology@) && weights@.len() == needed_weights(topology@),
            r matches Ok(n) ==> {
                &&& layers_match_topology(n.layers@, topology@)
                &&& net_flat(n.layers@) == weights@
            },
    {
        if topology.len() < 2 {
            return Err(EngineError::ConfigError);
        }
        let mut check: usize = 0;
        while check < topology.len()
            invariant
                check <= topology@.len(),
                forall|i: int| 0 <= i < check ==> #[trigger] topology@[i] >= 1,
            decreases topology@.len() - check,
        {
            if topology[check] == 0 {
                return Err(EngineError::ConfigError);
            }
            check = check + 1;
        }

        let mut cursor: usize = 0;
        let mut layers: Vec<Layer> = Vec::new();
        let mut k: usize = 0;
        while k < topology.len() - 1
            invariant
                k <= topology@.len() - 1,
                topology_ok(topology@),
                cursor <= weights@.len(),
                cursor == needed_prefix(topology@, k as int),
                layers@.len() == k,
                forall|i: int|
                    0 <= i < k ==> #[trigger] layers@[i].neurons@.len() == topology@[i + 1]
                        && layer_accepts(layers@[i].neurons@, topology@[i] as int),
                net_flat_prefix(layers@, k as int) == weights@.subrange(0, cursor as int),
            decreases topology@.len() - 1 - k,
        {
            let ghost layers_before = layers@;
            let ghost cursor_before = cursor as int;
            let layer = match Layer::from_weights(
                topology[k],
                topology[k + 1],
                weights,
                &mut cursor,
            ) {
                Ok(layer) => layer,
                Err(e) => {
                    proof {
                        lemma_needed_monotonic(topology@, k as int + 1, topology@.len() - 1);
                    }
                    return Err(EngineError::InsufficientWeights);
                },
            };
            layers.push(layer);
            k = k + 1;
            proof {
                lemma_net_flat_prefix_same(layers_before, layers@, k - 1);
                assert(net_flat_prefix(layers@, k as int) == net_flat_prefix(layers_before, k - 1)
                    + layer_flat(layer.neurons@));
                assert(net_flat_prefix(layers@, k as int) =~= weights@.subrange(0, cursor as int));
            }
        }

        if cursor != weights.len() {
            return Err(EngineError::TooManyWeights);
        }
        proof {
            assert(weights@.subrange(0, weights@.len() as int) =~= weights@);
        }
        Ok(Network { layers })
    }

    /// The flat encoding of this network, in the identical order
    /// `from_weights` expects: for every layer, for every neuron, its bias
    /// and then its weights.
    pub fn weights(&self) -> (r: Vec<i32>)
        ensures
            r@ == net_flat(self.layers@),
    {
        let mut flat: Vec<i32> = Vec::new();
        let mut k: usize = 0;
        while k < self.layers.len()
            invariant
                k <= self.layers@.len(),
                flat@ == net_flat_prefix(self.layers@, k as int),
            decreases self.layers@.len() - k,
        {
            let layer = &self.layers[k];
            let ghost layer_start = flat@;
            let mut j: usize = 0;
            while j < layer.neurons.len()
                invariant
                    j <= layer.neurons@.len(),
                    flat@ == layer_start + layer_flat_prefix(layer.neurons@, j as int),
                decreases layer.neurons@.len() - j,
            {
                let neuron = &layer.neurons[j];
                flat.push(neuron.bias);
                let ghost neuron_start = flat@;
                let mut w: usize = 0;
                while w < neuron.weights.len()
                    invariant
                        w <= neuron.weights@.len(),
                        flat@ == neuron_start + neuron.weights@.subrange(0, w as int),
                    decreases neuron.weights@.len() - w,
                {
                    flat.push(neuron.weights[w]);
                    proof {
                        assert(flat@ =~= neuron_start + neuron.weights@.subrange(0, w + 1));
                    }
                    w = w + 1;
                }
                proof {
                    assert(neuron.weights@.subrange(0, neuron.weights@.len() as int)
                        =~= neuron.weights@);
                    assert(flat@ =~= layer_start + layer_flat_prefix(layer.neurons@, j + 1));
                }
                j = j + 1;
            }
            proof {
                assert(flat@ =~= net_flat_prefix(self.layers@, k + 1));
            }
            k = k + 1;
        }
        flat
    }
}

/// A net flat prefix only reads the first `k` layers, so any sequence
/// agreeing on those has the same prefix.
proof fn lemma_net_flat_prefix_same(a: Seq<Layer>, b: Seq<Layer>, k: int)
    requires
        0 <= k <= a.len(),
        k <= b.len(),
        forall|i: int| 0 <= i < k ==> a[i] == b[i],
    ensures
        net_flat_prefix(a, k) == net_flat_prefix(b, k),
    decreases k,
{
    if k > 0 {
        lemma_net_flat_prefix_same(a, b, k - 1);
    }
}

/// The flat encoding of the first `k` neurons of a layer holds one bias and
/// `input_count` weights per neuron.
proof fn lemma_layer_flat_prefix_len(neurons: Seq<Neuron>, input_count: int, k: int)
    requires
        layer_accepts(neurons, input_count),
        0 <= k <= neurons.len(),
    ensures
        layer_flat_prefix(neurons, k).len() == k * (1 + input_count),
    decreases k,
{
    if k > 0 {
        lemma_layer_flat_prefix_len(neurons, input_count, k - 1);
        assert(neurons[k - 1].weights@.len() == input_count);
        assert(layer_flat_prefix(neurons, k).len() == layer_flat_prefix(neurons, k - 1).len() + 1
            + input_count);
        assert(layer_flat_prefix(neurons, k).len() == k * (1 + input_count)) by (nonlinear_arith)
            requires
                layer_flat_prefix(neurons, k).len() == layer_flat_prefix(neurons, k - 1).len() + 1
                    + input_count,
                layer_flat_prefix(neurons, k - 1).len() == (k - 1) * (1 + input_count),
        ;
    } else {
        assert(k * (1 + input_count) == 0) by (nonlinear_arith)
            requires k == 0;
    }
}

proof fn lemma_net_flat_prefix_len(layers: Seq<Layer>, topology: Seq<usize>, k: int)
    requires
        layers_match_topology(layers, topology),
        0 <= k <= layers.len(),
    ensures
        net_flat_prefix(layers, k).len() == needed_prefix(topology, k),
    decreases k,
{
    if k > 0 {
        lemma_net_flat_prefix_len(layers, topology, k - 1);
        lemma_layer_flat_prefix_len(
            layers[k - 1].neurons@,
            topology[k - 1] as int,
            layers[k - 1].neurons@.len() as int,
        );
    }
}

/// The weight/gene bijection, counted: a network wired as `topology` says
/// flattens to exactly the number of scalars `from_weights` demands for
/// that topology.  With the contracts of `from_weights` and `weights`, this
/// closes the round trip: a buffer of exactly this length decodes, and the
/// decoded network flattens back to the buffer.
pub proof fn lemma_flat_weight_count(layers: Seq<Layer>, topology: Seq<usize>)
    requires
        layers_match_topology(layers, topology),
    ensures
        net_flat(layers).len() == needed_weights(topology),
{
    lemma_net_flat_prefix_len(layers, topology, layers.len() as int);
}

/// Later layers only consume more: the needed prefix grows with `k`.
proof fn lemma_needed_monotonic(topology: Seq<usize>, k: int, m: int)
    requires
        0 <= k <= m,
    ensures
        needed_prefix(topology, k) <= needed_prefix(topology, m),
    decreases m - k,
{
    if k < m {
        lemma_needed_monotonic(topology, k, m - 1);
        assert(topology[m] * (1 + topology[m - 1]) >= 0) by (nonlinear_arith);
    }
}

} // verus!
