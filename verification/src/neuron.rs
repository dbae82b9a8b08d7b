use vstd::prelude::*;
use crate::arithmetic::Arithmetic;
use crate::construction::neuron_cost;
use crate::construction::neuron_from;
use crate::construction::samples_for_neuron;
use crate::model::NeuronModel;
use crate::sample_stream::SampleStream;

verus! {

/// A neuron: a bias and one weight per input.
#[derive(Clone, Debug)]
pub struct Neuron<T> {
    bias: T,
    weights: Vec<T>,
}

impl<T> View for Neuron<T> {
    type V = NeuronModel<T>;

    closed spec fn view(&self) -> NeuronModel<T> {
        NeuronModel { bias: self.bias, weights: self.weights@ }
    }
}

impl<T: Copy> Neuron<T> {
    /// A neuron with the given bias and weights.
    pub fn new(bias: T, weights: Vec<T>) -> (neuron: Self)
        ensures
            neuron@ == (NeuronModel { bias, weights: weights@ }),
    {
        Neuron { bias, weights }
    }

    /// The bias.
    pub fn bias(&self) -> (bias: T)
        ensures
            bias == self@.bias,
    {
        self.bias
    }

    /// The weights, in the order of the inputs they apply to.
    pub fn weights(&self) -> (weights: &Vec<T>)
        ensures
            weights@ == self@.weights,
    {
        &self.weights
    }

    /// The number of inputs the neuron takes.
    pub fn input_width(&self) -> (width: usize)
        ensures
            width == self@.weights.len(),
    {
        self.weights.len()
    }

    /// Builds a neuron with `input_size` inputs from the stream: the bias
    /// is drawn first, then the weights in the order of their inputs.
    ///
    /// Returns `None`, and leaves the stream as it is, where the stream holds
    /// fewer samples than the neuron consumes.
    pub fn random(stream: &mut SampleStream<T>, input_size: usize) -> (neuron: Option<Self>)
        ensures
            neuron is Some <==> old(stream).remaining().len() >= neuron_cost(input_size as nat),
            neuron matches Some(built) ==> {
                &&& built@ == neuron_from(old(stream).remaining(), input_size as nat)
                &&& built@.weights.len() == input_size
                &&& final(stream).remaining() == old(stream).remaining().skip(
                    neuron_cost(input_size as nat) as int,
                )
                &&& final(stream).position() == old(stream).position() + neuron_cost(
                    input_size as nat,
                )
            },
            neuron is None ==> *final(stream) == *old(stream),
    {
        let ghost samples = stream.remaining();
        let ghost start = stream.position();
        let left = stream.remaining_len();
        match samples_for_neuron(input_size) {
            Some(needed) => {
                if left < needed {
                    return None;
                }
            },
            None => {
                return None;
            },
        }
        let bias = stream.draw().unwrap();
        let mut weights: Vec<T> = Vec::new();
        let mut i: usize = 0;
        while i < input_size
            invariant
                i <= input_size,
                samples.len() >= 1 + input_size,
                weights@ == samples.subrange(1, 1 + i),
                stream.remaining() == samples.skip(1 + i),
                stream.position() == start + 1 + i,
            decreases input_size - i,
        {
            let weight = stream.draw().unwrap();
            weights.push(weight);
            i += 1;
        }
        Some(Neuron { bias, weights })
    }

    /// The neuron's response to `inputs`: the activation of the bias plus the
    /// sum of the products of each input with its weight.
    ///
    /// The sum is built from `arithmetic.zero` upwards, one pair after the
    /// other in index order; the bias is the left operand of the last
    /// addition. Where each operation is a mathematical function, the
    /// response is [`crate::evaluation::Operations::neuron_output`].
    pub fn propagate<P, M, R>(
        &self,
        inputs: &[T],
        arithmetic: &Arithmetic<T, P, M, R>,
    ) -> (output: T)
        where
            P: Fn(T, T) -> T,
            M: Fn(T, T) -> T,
            R: Fn(T) -> T,
        requires
            inputs@.len() == self@.weights.len(),
            arithmetic.is_total(),
        ensures
            arithmetic.model().neuron_yields(self@, inputs@, output),
    {
        let mut sum = arithmetic.zero;
        let mut i: usize = 0;
        while i < inputs.len()
            invariant
                i <= inputs@.len(),
                inputs@.len() == self.weights@.len(),
                arithmetic.is_total(),
                arithmetic.model().sums_to(inputs@, self.weights@, i as nat, sum),
            decreases inputs@.len() - i,
        {
            let product = (arithmetic.times)(inputs[i], self.weights[i]);
            let longer = (arithmetic.plus)(sum, product);
            assert((arithmetic.model().plus)(sum, product, longer));
            sum = longer;
            i += 1;
        }
        let biased = (arithmetic.plus)(self.bias, sum);
        let output = (arithmetic.rectify)(biased);
        assert((arithmetic.model().plus)(self@.bias, sum, biased));
        output
    }
}

} // verus!
