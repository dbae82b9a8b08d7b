use vstd::prelude::*;
use crate::arithmetic::Arithmetic;
use crate::construction::layer_cost;
use crate::construction::layer_from;
use crate::construction::neuron_at;
use crate::construction::neuron_cost;
use crate::construction::samples_for_layer;
use crate::model::layer_accepts;
use crate::model::NeuronModel;
use crate::neuron::Neuron;
use crate::sample_stream::SampleStream;

verus! {

/// A layer: neurons that all see the same inputs.
#[derive(Clone, Debug)]
pub struct Layer<T> {
    neurons: Vec<Neuron<T>>,
}

impl<T> View for Layer<T> {
    type V = Seq<NeuronModel<T>>;

    closed spec fn view(&self) -> Seq<NeuronModel<T>> {
        self.neurons@.map_values(|neuron: Neuron<T>| neuron@)
    }
}

impl<T: Copy> Layer<T> {
    /// A layer of the given neurons, in their order.
    pub fn new(neurons: Vec<Neuron<T>>) -> (layer: Self)
        ensures
            layer@ == neurons@.map_values(|neuron: Neuron<T>| neuron@),
    {
        Layer { neurons }
    }

    /// The neurons, in order.
    pub fn neurons(&self) -> (neurons: &Vec<Neuron<T>>)
        ensures
            neurons@.map_values(|neuron: Neuron<T>| neuron@) == self@,
    {
        &self.neurons
    }

    /// The number of neurons, which is the number of outputs.
    pub fn len(&self) -> (count: usize)
        ensures
            count == self@.len(),
    {
        self.neurons.len()
    }

    /// Whether every neuron takes exactly `width` inputs.
    pub fn accepts(&self, width: usize) -> (accepted: bool)
        ensures
            accepted == layer_accepts(self@, width as nat),
    {
        let mut j: usize = 0;
        while j < self.neurons.len()
            invariant
                j <= self.neurons@.len(),
                forall|k: int| 0 <= k < j ==> (#[trigger] self@[k]).weights.len() == width,
            decreases self.neurons@.len() - j,
        {
            if self.neurons[j].input_width() != width {
                assert(self@[j as int].weights.len() != width);
                return false;
            }
            j += 1;
        }
        true
    }

    /// Builds a layer of `output_neurons` neurons with `input_neurons`
    /// inputs each from the stream, one neuron after the other.
    ///
    /// Returns `None`, and leaves the stream as it is, where the stream holds
    /// fewer samples than the layer consumes.
    pub fn random(
        stream: &mut SampleStream<T>,
        input_neurons: usize,
        output_neurons: usize,
    ) -> (layer: Option<Self>)
        ensures
            layer is Some <==> old(stream).remaining().len() >= layer_cost(
                input_neurons as nat,
                output_neurons as nat,
            ),
            layer matches Some(built) ==> {
                &&& built@ == layer_from(
                    old(stream).remaining(),
                    input_neurons as nat,
                    output_neurons as nat,
                )
                &&& built@.len() == output_neurons
                &&& layer_accepts(built@, input_neurons as nat)
                &&& final(stream).remaining() == old(stream).remaining().skip(
                    layer_cost(input_neurons as nat, output_neurons as nat) as int,
                )
                &&& final(stream).position() == old(stream).position() + layer_cost(
                    input_neurons as nat,
                    output_neurons as nat,
                )
            },
            layer is None ==> *final(stream) == *old(stream),
    {
        let ghost samples = stream.remaining();
        let ghost start = stream.position();
        let ghost each = neuron_cost(input_neurons as nat);
        let left = stream.remaining_len();
        match samples_for_layer(input_neurons, output_neurons) {
            Some(needed) => {
                if left < needed {
                    return None;
                }
            },
            None => {
                return None;
            },
        }
        let mut neurons: Vec<Neuron<T>> = Vec::new();
        let mut j: usize = 0;
        while j < output_neurons
            invariant
                j <= output_neurons,
                each == neuron_cost(input_neurons as nat),
                samples.len() >= output_neurons * each,
                neurons@.len() == j,
                forall|k: int|
                    0 <= k < j ==> (#[trigger] neurons@[k])@.weights.len() == input_neurons,
                forall|k: int|
                    0 <= k < j ==> (#[trigger] neurons@[k])@ == neuron_at(
                        samples,
                        input_neurons as nat,
                        k,
                    ),
                stream.remaining() == samples.skip(j * each),
                stream.position() == start + j * each,
            decreases output_neurons - j,
        {
            proof {
                assert((j + 1) * each == j * each + each && (j + 1) * each <= output_neurons
                    * each) by (nonlinear_arith)
                    requires
                        j < output_neurons,
                ;
            }
            let neuron = Neuron::random(stream, input_neurons).unwrap();
            assert(samples.skip(j * each).skip(each as int) == samples.skip((j + 1) * each));
            neurons.push(neuron);
            j += 1;
        }
        let layer = Layer { neurons };
        assert(layer@ =~= layer_from(samples, input_neurons as nat, output_neurons as nat));
        Some(layer)
    }

    /// The layer's response to `inputs`: the response of each neuron to the
    /// same `inputs`, in the order of the neurons. Where each operation is a
    /// mathematical function, the response is
    /// [`crate::evaluation::Operations::layer_output`].
    pub fn propagate<P, M, R>(
        &self,
        inputs: &[T],
        arithmetic: &Arithmetic<T, P, M, R>,
    ) -> (outputs: Vec<T>)
        where
            P: Fn(T, T) -> T,
            M: Fn(T, T) -> T,
            R: Fn(T) -> T,
        requires
            layer_accepts(self@, inputs@.len()),
            arithmetic.is_total(),
        ensures
            arithmetic.model().layer_yields(self@, inputs@, outputs@),
            outputs@.len() == self@.len(),
    {
        let mut outputs: Vec<T> = Vec::new();
        let mut j: usize = 0;
        while j < self.neurons.len()
            invariant
                j <= self.neurons@.len(),
                layer_accepts(self@, inputs@.len()),
                arithmetic.is_total(),
                outputs@.len() == j,
                forall|k: int|
                    0 <= k < j ==> arithmetic.model().neuron_yields(
                        self@[k],
                        inputs@,
                        #[trigger] outputs@[k],
                    ),
            decreases self.neurons@.len() - j,
        {
            assert(self@[j as int].weights.len() == inputs@.len());
            let output = self.neurons[j].propagate(inputs, arithmetic);
            outputs.push(output);
            j += 1;
        }
        outputs
    }
}

} // verus!
