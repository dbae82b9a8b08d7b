//! What construction from a stream of samples builds, as a function of the
//! samples and the widths.

use vstd::prelude::*;
use crate::model::LayerModel;
use crate::model::NetworkModel;
use crate::model::NeuronModel;
use crate::topology::widths_of;
use crate::topology::LayerTopology;

verus! {

/// The number of samples one neuron with `inputs` inputs consumes: one for
/// the bias and one for each weight.
pub open spec fn neuron_cost(inputs: nat) -> nat {
    1 + inputs
}

/// The number of samples a layer of `outputs` neurons with `inputs` inputs
/// each consumes.
pub open spec fn layer_cost(inputs: nat, outputs: nat) -> nat {
    outputs * neuron_cost(inputs)
}

/// The number of layers of a network with the given widths: one for each
/// pair of neighbours.
pub open spec fn layer_count(widths: Seq<nat>) -> nat {
    if widths.len() == 0 {
        0
    } else {
        (widths.len() - 1) as nat
    }
}

/// The number of samples consumed by the layers before layer `layer`.
pub open spec fn samples_before(widths: Seq<nat>, layer: nat) -> nat
    decreases layer,
{
    if layer == 0 {
        0
    } else {
        samples_before(widths, (layer - 1) as nat) + layer_cost(
            widths[layer - 1],
            widths[layer as int],
        )
    }
}

/// The number of samples a network with the given widths consumes.
pub open spec fn samples_needed(widths: Seq<nat>) -> nat {
    samples_before(widths, layer_count(widths))
}

/// The neuron built from the front of `samples`: the first sample is the
/// bias, the `inputs` samples after it are the weights, in order.
pub open spec fn neuron_from<T>(samples: Seq<T>, inputs: nat) -> NeuronModel<T> {
    NeuronModel { bias: samples[0], weights: samples.subrange(1, 1 + inputs as int) }
}

/// Neuron `j` of a layer built from the front of `samples`: it is built
/// from the samples that the `j` neurons before it have left.
pub open spec fn neuron_at<T>(samples: Seq<T>, inputs: nat, j: int) -> NeuronModel<T> {
    neuron_from(samples.skip(j * neuron_cost(inputs)), inputs)
}

/// The layer built from the front of `samples`: `outputs` neurons with
/// `inputs` inputs each, one after the other.
pub open spec fn layer_from<T>(samples: Seq<T>, inputs: nat, outputs: nat) -> LayerModel<T> {
    Seq::new(outputs, |j: int| neuron_at(samples, inputs, j))
}

/// Layer `i` of a network built from the front of `samples`: it takes
/// `widths[i]` inputs, has `widths[i + 1]` neurons, and is built from the
/// samples that the `i` layers before it have left.
pub open spec fn layer_at<T>(samples: Seq<T>, widths: Seq<nat>, i: int) -> LayerModel<T> {
    layer_from(samples.skip(samples_before(widths, i as nat) as int), widths[i], widths[i + 1])
}

/// The network built from the front of `samples`: one layer for each pair
/// of neighbouring widths, one after the other.
pub open spec fn network_from<T>(samples: Seq<T>, widths: Seq<nat>) -> NetworkModel<T> {
    Seq::new(layer_count(widths), |i: int| layer_at(samples, widths, i))
}

/// The layers before a later layer consume no fewer samples than those
/// before an earlier one.
pub proof fn samples_before_grows(widths: Seq<nat>, earlier: nat, later: nat)
    requires
        earlier <= later,
    ensures
        samples_before(widths, earlier) <= samples_before(widths, later),
    decreases later,
{
    if earlier < later {
        samples_before_grows(widths, earlier, (later - 1) as nat);
    }
}

/// The number of samples a neuron with `input_size` inputs consumes, or
/// `None` where that number does not fit.
pub fn samples_for_neuron(input_size: usize) -> (count: Option<usize>)
    ensures
        count matches Some(n) ==> n == neuron_cost(input_size as nat),
        count is None <==> neuron_cost(input_size as nat) > usize::MAX,
{
    input_size.checked_add(1)
}

/// The number of samples a layer of `output_neurons` neurons with
/// `input_neurons` inputs each consumes, or `None` where that number does not
/// fit.
pub fn samples_for_layer(input_neurons: usize, output_neurons: usize) -> (count: Option<usize>)
    ensures
        count matches Some(n) ==> n == layer_cost(input_neurons as nat, output_neurons as nat),
        count is None <==> layer_cost(input_neurons as nat, output_neurons as nat) > usize::MAX,
{
    if output_neurons == 0 {
        return Some(0);
    }
    match samples_for_neuron(input_neurons) {
        Some(each) => output_neurons.checked_mul(each),
        None => {
            assert(output_neurons * neuron_cost(input_neurons as nat) > usize::MAX)
                by (nonlinear_arith)
                requires
                    output_neurons >= 1,
                    neuron_cost(input_neurons as nat) > usize::MAX,
            ;
            None
        },
    }
}

/// The number of samples a network of the given topology consumes, or
/// `None` where that number does not fit.
pub fn samples_for_network(topology: &[LayerTopology]) -> (count: Option<usize>)
    ensures
        count matches Some(n) ==> n == samples_needed(widths_of(topology@)),
        count is None <==> samples_needed(widths_of(topology@)) > usize::MAX,
{
    let ghost widths = widths_of(topology@);
    let mut total: usize = 0;
    let mut i: usize = 1;
    while i < topology.len()
        invariant
            1 <= i,
            i <= topology@.len() || i == 1,
            widths == widths_of(topology@),
            total == samples_before(widths, (i - 1) as nat),
        decreases topology@.len() - i,
    {
        proof {
            samples_before_grows(widths, i as nat, layer_count(widths));
        }
        let cost = match samples_for_layer(topology[i - 1].neurons, topology[i].neurons) {
            Some(cost) => cost,
            None => {
                return None;
            },
        };
        total = match total.checked_add(cost) {
            Some(longer) => longer,
            None => {
                return None;
            },
        };
        i += 1;
    }
    Some(total)
}

} // verus!
