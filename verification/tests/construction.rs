//! Construction of neurons, layers and networks from a stream of samples
//! drawn from a seeded generator.

use approx::Relative;
use neuroevolution::Layer;
use neuroevolution::LayerTopology;
use neuroevolution::Network;
use neuroevolution::Neuron;
use neuroevolution::samples_for_layer;
use neuroevolution::samples_for_network;
use neuroevolution::samples_for_neuron;
use neuroevolution::SampleStream;
use rand::Rng;
use rand::RngCore;
use rand::SeedableRng;
use rand_chacha::ChaCha8Rng;

fn seeded() -> ChaCha8Rng {
    ChaCha8Rng::from_seed(Default::default())
}

/// Draws `count` samples, each uniform over [-1, 1].
fn draw(rng: &mut dyn RngCore, count: usize) -> SampleStream<f32> {
    SampleStream::new((0..count).map(|_| rng.gen_range(-1.0..=1.0)).collect())
}

fn close(given: f32, expected: f32) -> bool {
    Relative::default().eq(&given, &expected)
}

fn all_close(given: &[f32], expected: &[f32]) -> bool {
    Relative::default().eq(given, expected)
}

fn topology(widths: &[usize]) -> Vec<LayerTopology> {
    widths.iter().map(|&neurons| LayerTopology { neurons }).collect()
}

fn bits(network: &Network<f32>) -> Vec<Vec<Vec<u32>>> {
    network
        .layers()
        .iter()
        .map(|layer| {
            layer
                .neurons()
                .iter()
                .map(|neuron| {
                    let mut all = vec![neuron.bias().to_bits()];
                    all.extend(neuron.weights().iter().map(|weight| weight.to_bits()));
                    all
                })
                .collect()
        })
        .collect()
}

#[test]
fn neuron_random_test() {
    let mut rng = seeded();
    let mut stream = draw(&mut rng, 5);
    let neuron = Neuron::random(&mut stream, 4).unwrap();

    assert!(close(neuron.bias(), -0.6255188));

    assert!(all_close(
        neuron.weights().as_slice(),
        [0.67383957, 0.8181262, 0.26284897, 0.5238807].as_ref()
    ));
}

#[test]
fn layer_random_test() {
    let mut rng = seeded();
    let mut stream = draw(&mut rng, 8);
    let layer = Layer::random(&mut stream, 3, 2).unwrap();

    let actual: Vec<_> = layer
        .neurons()
        .iter()
        .map(|neuron| neuron.weights().as_slice())
        .collect();

    let expected: Vec<&[f32]> = vec![
        &[0.67383957, 0.8181262, 0.26284897],
        &[-0.53516835, 0.069369674, -0.7648182],
    ];

    assert_eq!(actual.len(), expected.len());
    for (given, wanted) in actual.iter().zip(expected.iter()) {
        assert!(all_close(given, wanted));
    }
}

#[test]
fn network_random_test() {
    let mut rng = seeded();
    let topology = topology(&[3, 2, 1]);
    let mut stream = draw(&mut rng, 11);

    let network = Network::random(&mut stream, &topology).unwrap();

    assert_eq!(network.layers().len(), 2);
    assert_eq!(network.layers()[0].neurons().len(), 2);

    assert!(all_close(
        network.layers()[0].neurons()[0].weights().as_slice(),
        [0.67383957, 0.8181262, 0.26284897].as_slice()
    ));

    assert!(all_close(
        network.layers()[0].neurons()[1].weights().as_slice(),
        [-0.53516835, 0.069369674, -0.7648182].as_slice()
    ));

    assert_eq!(network.layers()[1].neurons().len(), 1);

    assert!(all_close(
        network.layers()[1].neurons()[0].weights().as_slice(),
        [-0.48879617, -0.19277132].as_slice()
    ));
}

#[test]
fn network_has_the_shape_of_its_topology() {
    let mut rng = seeded();
    let mut stream = draw(&mut rng, 11);
    let network = Network::random(&mut stream, &topology(&[3, 2, 1])).unwrap();

    assert_eq!(network.layers().len(), 2);
    let first = &network.layers()[0];
    assert_eq!(first.len(), 2);
    assert_eq!(first.neurons()[0].input_width(), 3);
    assert_eq!(first.neurons()[1].input_width(), 3);
    let second = &network.layers()[1];
    assert_eq!(second.len(), 1);
    assert_eq!(second.neurons()[0].input_width(), 2);
    assert!(network.accepts(3));
    assert!(!network.accepts(2));
}

#[test]
fn samples_are_taken_in_order() {
    let mut stream = SampleStream::new((0u32..20).collect());
    let network = Network::random(&mut stream, &topology(&[3, 2, 1])).unwrap();

    let first = &network.layers()[0];
    assert_eq!(first.neurons()[0].bias(), 0);
    assert_eq!(first.neurons()[0].weights(), &vec![1, 2, 3]);
    assert_eq!(first.neurons()[1].bias(), 4);
    assert_eq!(first.neurons()[1].weights(), &vec![5, 6, 7]);
    let second = &network.layers()[1];
    assert_eq!(second.neurons()[0].bias(), 8);
    assert_eq!(second.neurons()[0].weights(), &vec![9, 10]);
    assert_eq!(stream.consumed(), 11);
    assert_eq!(stream.remaining_len(), 9);
    assert_eq!(stream.draw(), Some(11));
}

#[test]
fn neuron_takes_bias_first_and_one_sample_more_than_inputs() {
    let mut stream = SampleStream::new(vec![70u8, 71, 72, 73, 74, 75]);
    let neuron = Neuron::random(&mut stream, 3).unwrap();
    assert_eq!(neuron.bias(), 70);
    assert_eq!(neuron.weights(), &vec![71, 72, 73]);
    assert_eq!(stream.consumed(), 4);

    let next = Neuron::random(&mut stream, 0).unwrap();
    assert_eq!(next.bias(), 74);
    assert!(next.weights().is_empty());
    assert_eq!(stream.consumed(), 5);
}

#[test]
fn layer_takes_its_neurons_one_after_the_other() {
    let mut stream = SampleStream::new((100u16..110).collect());
    let layer = Layer::random(&mut stream, 2, 3).unwrap();
    assert_eq!(layer.len(), 3);
    assert_eq!(layer.neurons()[0].bias(), 100);
    assert_eq!(layer.neurons()[0].weights(), &vec![101, 102]);
    assert_eq!(layer.neurons()[1].bias(), 103);
    assert_eq!(layer.neurons()[1].weights(), &vec![104, 105]);
    assert_eq!(layer.neurons()[2].bias(), 106);
    assert_eq!(layer.neurons()[2].weights(), &vec![107, 108]);
    assert_eq!(stream.consumed(), 9);
    assert!(layer.accepts(2));
    assert!(!layer.accepts(3));
}

#[test]
fn layer_without_neurons_takes_no_sample() {
    let mut stream = SampleStream::new(vec![1u8, 2, 3]);
    let layer = Layer::random(&mut stream, 5, 0).unwrap();
    assert_eq!(layer.len(), 0);
    assert_eq!(stream.consumed(), 0);
    assert!(layer.accepts(5));
    assert!(layer.accepts(0));
}

#[test]
fn replay_with_the_same_seed_reproduces_every_bit() {
    let widths = topology(&[4, 3, 3, 2]);
    let needed = samples_for_network(&widths).unwrap();

    let mut first_rng = seeded();
    let mut first_stream = draw(&mut first_rng, needed);
    let first = Network::random(&mut first_stream, &widths).unwrap();

    let mut second_rng = seeded();
    let mut second_stream = draw(&mut second_rng, needed + 7);
    let second = Network::random(&mut second_stream, &widths).unwrap();

    assert_eq!(bits(&first), bits(&second));
    assert_eq!(first_stream.consumed(), needed);
    assert_eq!(second_stream.consumed(), needed);
    assert_eq!(second_stream.remaining_len(), 7);
}

#[test]
fn construction_advances_the_generator_by_one_draw_per_sample() {
    let widths = topology(&[3, 2, 1]);
    let needed = samples_for_network(&widths).unwrap();

    let mut rng = seeded();
    let mut stream = draw(&mut rng, needed);
    Network::random(&mut stream, &widths).unwrap();
    let after: f32 = rng.gen_range(-1.0..=1.0);

    let mut replay = seeded();
    let mut all = draw(&mut replay, needed + 1);
    for _ in 0..needed {
        all.draw().unwrap();
    }
    assert_eq!(after.to_bits(), all.draw().unwrap().to_bits());
}

#[test]
fn samples_needed_counts_one_bias_and_one_weight_per_input() {
    assert_eq!(samples_for_neuron(4), Some(5));
    assert_eq!(samples_for_neuron(0), Some(1));
    assert_eq!(samples_for_layer(3, 2), Some(8));
    assert_eq!(samples_for_layer(3, 0), Some(0));
    assert_eq!(samples_for_network(&topology(&[3, 2, 1])), Some(11));
    assert_eq!(samples_for_network(&topology(&[4, 3, 3, 2])), Some(35));
    assert_eq!(samples_for_network(&topology(&[7])), Some(0));
    assert_eq!(samples_for_network(&topology(&[])), Some(0));
}

#[test]
fn samples_needed_is_none_where_the_count_does_not_fit() {
    assert_eq!(samples_for_neuron(usize::MAX), None);
    assert_eq!(samples_for_layer(usize::MAX, 1), None);
    assert_eq!(samples_for_layer(usize::MAX, 0), Some(0));
    assert_eq!(samples_for_layer(usize::MAX / 2, 3), None);
    assert_eq!(samples_for_layer(usize::MAX - 1, 1), Some(usize::MAX));
    assert_eq!(
        samples_for_network(&topology(&[usize::MAX - 1, 1, 1])),
        None
    );
    assert_eq!(
        samples_for_network(&topology(&[usize::MAX - 2, 1, 0])),
        Some(usize::MAX - 1)
    );
    assert_eq!(
        samples_for_network(&topology(&[1, usize::MAX, 0])),
        None
    );
}

#[test]
fn short_stream_builds_nothing_and_stays_as_it_is() {
    let mut stream = SampleStream::new(vec![1u8, 2, 3, 4]);
    assert_eq!(stream.draw(), Some(1));

    assert!(Neuron::random(&mut stream, 3).is_none());
    assert_eq!(stream.consumed(), 1);
    assert_eq!(stream.remaining_len(), 3);

    assert!(Layer::random(&mut stream, 1, 2).is_none());
    assert_eq!(stream.consumed(), 1);

    assert!(Network::random(&mut stream, &topology(&[1, 1, 1])).is_none());
    assert_eq!(stream.consumed(), 1);

    assert!(Network::random(&mut stream, &topology(&[usize::MAX, usize::MAX])).is_none());
    assert!(Layer::random(&mut stream, usize::MAX, 1).is_none());
    assert!(Neuron::random(&mut stream, usize::MAX).is_none());
    assert_eq!(stream.consumed(), 1);

    let neuron = Neuron::random(&mut stream, 2).unwrap();
    assert_eq!(neuron.bias(), 2);
    assert_eq!(neuron.weights(), &vec![3, 4]);
    assert_eq!(stream.remaining_len(), 0);
}

#[test]
fn stream_with_exactly_enough_samples_builds() {
    let mut stream = SampleStream::new((0u8..11).collect());
    assert!(Network::random(&mut stream, &topology(&[3, 2, 1])).is_some());
    assert_eq!(stream.remaining_len(), 0);

    let mut short = SampleStream::new((0u8..10).collect());
    assert!(Network::random(&mut short, &topology(&[3, 2, 1])).is_none());
    assert_eq!(short.remaining_len(), 10);
}

#[test]
fn smallest_topology_gives_one_layer() {
    let mut stream = SampleStream::new((0u8..6).collect());
    let network = Network::random(&mut stream, &topology(&[2, 2])).unwrap();
    assert_eq!(network.layers().len(), 1);
    assert_eq!(network.layers()[0].len(), 2);
    assert_eq!(stream.consumed(), 6);
}
