use snek::errors::EngineError;
use snek::network::layer::Layer;
use snek::network::net::Network;
use snek::network::neuron::Neuron;
use snek::rng::ChaChaSource;

/// One whole unit in fixed point, as an `i32` scalar.
const ONE: i32 = 1_000_000;

/// A tenth of a unit.
const TENTH: i32 = 100_000;

#[test]
fn random_neuron_creation() {
    let mut prng = ChaChaSource::from_seed(0);

    let neuron = Neuron::random(&mut prng, 4).unwrap();

    assert_eq!(neuron.weights().len(), 4);
    assert!(neuron.bias() >= -ONE && neuron.bias() <= ONE);
    for &w in neuron.weights().iter() {
        assert!(w >= -ONE && w <= ONE);
    }
}

#[test]
fn neuron_from_weights() {
    let weights = vec![TENTH, 2 * TENTH, 3 * TENTH, 4 * TENTH];
    let mut cursor = 0;

    let actual = Neuron::from_weights(3, &weights, &mut cursor).unwrap();

    assert_eq!(cursor, 4);
    assert_eq!(actual.bias(), TENTH);
    assert_eq!(actual.weights(), &vec![2 * TENTH, 3 * TENTH, 4 * TENTH]);
}

#[test]
fn neuron_propogation() {
    // bias 0.1, weights [-0.3, 0.6, 0.9], inputs [0.5, -0.6, 0.7]:
    // 0.1 - 0.15 - 0.36 + 0.63 = 0.22.
    let neuron = Neuron::new(TENTH, vec![-3 * TENTH, 6 * TENTH, 9 * TENTH]).unwrap();

    let propogated = neuron.propagate(&vec![5 * TENTH, -6 * TENTH, 7 * TENTH]).unwrap();

    assert_eq!(propogated, 220_000);
}

#[test]
fn neuron_output_restriction() {
    // ReLU floors every negative sum to zero.
    let neuron = Neuron::new(0, vec![ONE / 2]).unwrap();

    assert_eq!(neuron.propagate(&vec![-ONE]).unwrap(), 0);
    assert_eq!(neuron.propagate(&vec![-ONE / 2]).unwrap(), 0);
    assert_eq!(neuron.propagate(&vec![0]).unwrap(), 0);
    assert_eq!(neuron.propagate(&vec![ONE / 2]).unwrap(), ONE / 4);
    assert_eq!(neuron.propagate(&vec![ONE]).unwrap(), ONE / 2);

    let neuron = Neuron::new(2 * ONE, vec![150_000]).unwrap();

    assert_eq!(neuron.propagate(&vec![-ONE]).unwrap(), 1_850_000);
    assert_eq!(neuron.propagate(&vec![-ONE / 2]).unwrap(), 1_925_000);
    assert_eq!(neuron.propagate(&vec![0]).unwrap(), 2 * ONE);
    assert_eq!(neuron.propagate(&vec![ONE / 2]).unwrap(), 2_075_000);
    assert_eq!(neuron.propagate(&vec![-7 * ONE]).unwrap(), 950_000);
}

#[test]
fn neuron_wrong_input_count() {
    let neuron = Neuron::new(0, vec![ONE, ONE]).unwrap();

    assert_eq!(
        neuron.propagate(&vec![ONE]),
        Err(EngineError::DimensionMismatch)
    );
}

#[test]
fn neuron_needs_weights() {
    assert!(matches!(Neuron::new(0, Vec::new()), Err(EngineError::ConfigError)));
}

#[test]
fn random_layer_creation() {
    let mut prng = ChaChaSource::from_seed(0);

    let layer = Layer::random(&mut prng, 3, 2).unwrap();

    assert_eq!(layer.neurons().len(), 2);
    for neuron in layer.neurons().iter() {
        assert_eq!(neuron.weights().len(), 3);
        assert!(neuron.bias() >= -ONE && neuron.bias() <= ONE);
        for &w in neuron.weights().iter() {
            assert!(w >= -ONE && w <= ONE);
        }
    }
}

#[test]
fn random_network_creation() {
    let mut prng = ChaChaSource::from_seed(0);

    // Sliding over adjacent topology pairs leaves one fewer layer than
    // there are sizes.
    let network = Network::random(&mut prng, &vec![3, 2, 1]).unwrap();

    assert_eq!(network.layers().len(), 2);

    assert_eq!(network.layers()[0].neurons().len(), 2);
    assert_eq!(network.layers()[0].neurons()[0].weights().len(), 3);
    assert_eq!(network.layers()[0].neurons()[1].weights().len(), 3);

    assert_eq!(network.layers()[1].neurons().len(), 1);
    assert_eq!(network.layers()[1].neurons()[0].weights().len(), 2);
}

#[test]
fn network_propogation() {
    // The concrete two-layer scenario: both first-layer sums come out
    // negative, ReLU floors them, and the second layer sees only zeroes.
    let layer1 = Layer::new(vec![
        Neuron::new(0, vec![-5 * TENTH, -4 * TENTH, -3 * TENTH]).unwrap(),
        Neuron::new(0, vec![-2 * TENTH, -TENTH, 0]).unwrap(),
    ])
    .unwrap();
    let layer2 = Layer::new(vec![Neuron::new(0, vec![-5 * TENTH, 5 * TENTH]).unwrap()]).unwrap();

    let inputs = vec![5 * TENTH, 6 * TENTH, 7 * TENTH];

    let first = layer1.propagate(&inputs).unwrap();
    assert_eq!(first, vec![0, 0]);
    let expected = layer2.propagate(&first).unwrap();
    assert_eq!(expected, vec![0]);

    let network = Network::new(vec![layer1, layer2]).unwrap();
    let propogated = network.propagate(inputs).unwrap();

    assert_eq!(propogated, expected);
}

#[test]
fn network_from_weights() {
    // The round trip: decode a flat buffer of exactly the required length,
    // and flattening the network gives the buffer back, in order.
    let topology = vec![3, 2];
    let weights: Vec<i32> = vec![
        TENTH,
        2 * TENTH,
        3 * TENTH,
        4 * TENTH,
        5 * TENTH,
        6 * TENTH,
        7 * TENTH,
        8 * TENTH,
    ];

    let actual = Network::from_weights(&topology, &weights).unwrap().weights();

    assert_eq!(actual, weights);
}

#[test]
fn network_weights_must_not_run_short() {
    let topology = vec![3, 2];
    let seven: Vec<i32> = (1..=7).collect();

    assert!(matches!(
        Network::from_weights(&topology, &seven),
        Err(EngineError::InsufficientWeights)
    ));
}

#[test]
fn network_weights_must_not_run_over() {
    let topology = vec![3, 2];
    let nine: Vec<i32> = (1..=9).collect();

    assert!(matches!(
        Network::from_weights(&topology, &nine),
        Err(EngineError::TooManyWeights)
    ));
}

#[test]
fn network_needs_two_topology_layers() {
    let mut prng = ChaChaSource::from_seed(0);

    assert!(matches!(
        Network::random(&mut prng, &vec![3]),
        Err(EngineError::ConfigError)
    ));
    assert!(matches!(
        Network::from_weights(&vec![3], &vec![1, 2, 3]),
        Err(EngineError::ConfigError)
    ));
}

#[test]
fn weights_collection() {
    let layer1 = Layer::new(vec![
        Neuron::new(TENTH, vec![2 * TENTH, 3 * TENTH, 4 * TENTH]).unwrap(),
    ])
    .unwrap();
    let layer2 = Layer::new(vec![
        Neuron::new(5 * TENTH, vec![6 * TENTH, 7 * TENTH, 8 * TENTH]).unwrap(),
    ])
    .unwrap();

    let network = Network::new(vec![layer1, layer2]).unwrap();

    let weights = network.weights();

    let expected = vec![
        TENTH,
        2 * TENTH,
        3 * TENTH,
        4 * TENTH,
        5 * TENTH,
        6 * TENTH,
        7 * TENTH,
        8 * TENTH,
    ];

    assert_eq!(weights, expected);
}

#[test]
fn round_trip_over_random_networks() {
    // Any network the generator builds flattens to a buffer that decodes
    // back to the very same flat sequence.
    let mut prng = ChaChaSource::from_seed(7);
    let topologies = vec![vec![1, 1], vec![3, 2, 1], vec![2, 4, 4, 2], vec![5, 15, 1]];

    for topology in topologies {
        let network = Network::random(&mut prng, &topology).unwrap();
        let flat = network.weights();
        let rebuilt = Network::from_weights(&topology, &flat).unwrap();
        assert_eq!(rebuilt.weights(), flat);
    }
}
