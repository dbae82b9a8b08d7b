//! A small feedforward neural network with randomized construction and a
//! forward pass, together with the entry point of a genetic algorithm.
//!
//! The network is generic in its scalar type `T`. It stores and moves scalars
//! but never inspects them: every computation on scalars goes through an
//! [`Arithmetic`] handed in by the caller, and every random scalar comes out
//! of a [`SampleStream`] that the caller has filled. What is proved here is
//! therefore proved for every scalar type and every arithmetic: the shape of a
//! constructed network, the order in which samples are consumed, the order in
//! which sums are built, and the way layers feed one another.
//!
//! Contracts are stated over mathematical models: a neuron is a
//! [`NeuronModel`], a layer a sequence of those, a network a sequence of
//! layers.

pub mod arithmetic;
pub mod construction;
pub mod evaluation;
pub mod genetic_algorithm;
pub mod laws;
pub mod layer;
pub mod model;
pub mod network;
pub mod neuron;
pub mod sample_stream;
pub mod topology;

pub use arithmetic::Arithmetic;
pub use construction::samples_for_layer;
pub use construction::samples_for_network;
pub use construction::samples_for_neuron;
pub use genetic_algorithm::GeneticAlgorithm;
pub use layer::Layer;
pub use model::NeuronModel;
pub use network::Network;
pub use neuron::Neuron;
pub use sample_stream::SampleStream;
pub use topology::LayerTopology;
