//! The sample stream, the accessors, and the handle of the genetic
//! algorithm.

use neuroevolution::GeneticAlgorithm;
use neuroevolution::Layer;
use neuroevolution::LayerTopology;
use neuroevolution::Network;
use neuroevolution::Neuron;
use neuroevolution::SampleStream;

#[test]
fn stream_yields_its_samples_front_to_back() {
    let mut stream = SampleStream::new(vec![3u8, 1, 4, 1, 5]);
    assert_eq!(stream.remaining_len(), 5);
    assert_eq!(stream.consumed(), 0);
    assert_eq!(stream.draw(), Some(3));
    assert_eq!(stream.draw(), Some(1));
    assert_eq!(stream.draw(), Some(4));
    assert_eq!(stream.remaining_len(), 2);
    assert_eq!(stream.consumed(), 3);
    assert_eq!(stream.draw(), Some(1));
    assert_eq!(stream.draw(), Some(5));
    assert_eq!(stream.remaining_len(), 0);
    assert_eq!(stream.consumed(), 5);
    assert_eq!(stream.draw(), None);
    assert_eq!(stream.consumed(), 5);
}

#[test]
fn empty_stream_has_nothing_left() {
    let mut stream: SampleStream<u8> = SampleStream::new(Vec::new());
    assert_eq!(stream.remaining_len(), 0);
    assert_eq!(stream.consumed(), 0);
    assert_eq!(stream.draw(), None);
    assert_eq!(stream.consumed(), 0);
}

#[test]
fn parts_come_back_as_they_went_in() {
    let neuron = Neuron::new(7u8, vec![1, 2, 3]);
    assert_eq!(neuron.bias(), 7);
    assert_eq!(neuron.weights(), &vec![1, 2, 3]);
    assert_eq!(neuron.input_width(), 3);

    let layer = Layer::new(vec![neuron.clone(), Neuron::new(8, vec![4, 5, 6])]);
    assert_eq!(layer.len(), 2);
    assert_eq!(layer.neurons()[1].bias(), 8);
    assert_eq!(layer.neurons()[1].weights(), &vec![4, 5, 6]);

    let network = Network::new(vec![layer.clone(), Layer::new(vec![Neuron::new(9, vec![1, 1])])]);
    assert_eq!(network.layers().len(), 2);
    assert_eq!(network.layers()[0].neurons()[0].bias(), 7);
    assert_eq!(network.layers()[1].neurons()[0].weights(), &vec![1, 1]);
}

#[test]
fn topology_holds_a_width() {
    let entry = LayerTopology { neurons: 12 };
    assert_eq!(entry.neurons, 12);
}

#[test]
fn genetic_algorithm_can_be_created() {
    let _created: GeneticAlgorithm = GeneticAlgorithm::new();
    let _default: GeneticAlgorithm = GeneticAlgorithm::default();
}
