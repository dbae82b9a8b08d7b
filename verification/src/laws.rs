//! Laws of construction and of propagation, each proved from the
//! definitions that the contracts use.

use vstd::prelude::*;
use crate::arithmetic::ArithmeticModel;
use crate::construction::layer_cost;
use crate::construction::layer_count;
use crate::construction::network_from;
use crate::construction::neuron_cost;
use crate::construction::samples_before;
use crate::construction::samples_before_grows;
use crate::construction::samples_needed;
use crate::model::layer_accepts;
use crate::model::network_accepts;
use crate::model::LayerModel;
use crate::model::NetworkModel;
use crate::model::NeuronModel;

verus! {

/// The place in the stream of the bias of neuron `j` of layer `i`: behind
/// everything that the layers before layer `i` and the neurons before
/// neuron `j` consume.
pub open spec fn bias_position(widths: Seq<nat>, i: int, j: int) -> int {
    samples_before(widths, i as nat) + j * neuron_cost(widths[i])
}

/// The neurons of a network lie one behind the other in the stream, first
/// to last within a layer and first layer to last: the first bias is the
/// first sample, each neuron takes one sample more than it has inputs, the
/// next neuron begins where it ends, the next layer begins where the last
/// neuron of a layer ends, and the last neuron ends where construction does.
pub proof fn neurons_follow_one_another(widths: Seq<nat>, i: int, j: int)
    requires
        0 <= i < layer_count(widths),
        0 <= j < widths[i + 1],
    ensures
        bias_position(widths, 0, 0) == 0,
        0 <= bias_position(widths, i, j),
        bias_position(widths, i, j + 1) == bias_position(widths, i, j) + neuron_cost(widths[i]),
        j + 1 == widths[i + 1] ==> bias_position(widths, i, j + 1) == samples_before(
            widths,
            (i + 1) as nat,
        ),
        bias_position(widths, i + 1, 0) == samples_before(widths, (i + 1) as nat),
        bias_position(widths, i, j + 1) <= samples_needed(widths),
{
    let each = neuron_cost(widths[i]);
    assert(0 <= j * each && (j + 1) * each == j * each + each && (j + 1) * each <= widths[i + 1]
        * each) by (nonlinear_arith)
        requires
            0 <= j < widths[i + 1],
            0 <= each,
    ;
    assert(samples_before(widths, (i + 1) as nat) == samples_before(widths, i as nat) + layer_cost(
        widths[i],
        widths[i + 1],
    ));
    samples_before_grows(widths, (i + 1) as nat, layer_count(widths));
}

/// Samples are consumed strictly from left to right, one for the bias and
/// one for each weight of every neuron: in a network built from `samples`,
/// the bias of neuron `j` of layer `i` is the sample at `bias_position`, and
/// its weight `k` is the sample `1 + k` places further on.
pub proof fn construction_reads_in_order<T>(samples: Seq<T>, widths: Seq<nat>, i: int, j: int)
    requires
        samples.len() >= samples_needed(widths),
        0 <= i < layer_count(widths),
        0 <= j < widths[i + 1],
    ensures
        network_from(samples, widths)[i][j].bias == samples[bias_position(widths, i, j)],
        network_from(samples, widths)[i][j].weights.len() == widths[i],
        forall|k: int|
            0 <= k < widths[i] ==> #[trigger] network_from(samples, widths)[i][j].weights[k]
                == samples[bias_position(widths, i, j) + 1 + k],
{
    neurons_follow_one_another(widths, i, j);
}

/// A constructed network has the shape of its topology: one layer for each
/// pair of neighbouring widths, layer `i` with `widths[i + 1]` neurons of
/// `widths[i]` weights each. So every neuron of a layer takes the same number
/// of inputs, each layer takes as many inputs as the layer before it has
/// neurons, and the network accepts inputs of the first width.
pub proof fn constructed_network_has_topology_shape<T>(samples: Seq<T>, widths: Seq<nat>)
    requires
        samples.len() >= samples_needed(widths),
    ensures
        network_from(samples, widths).len() == layer_count(widths),
        forall|i: int|
            0 <= i < layer_count(widths) ==> (#[trigger] network_from(samples, widths)[i]).len()
                == widths[i + 1],
        forall|i: int|
            0 <= i < layer_count(widths) ==> layer_accepts(
                #[trigger] network_from(samples, widths)[i],
                widths[i],
            ),
        widths.len() > 0 ==> network_accepts(network_from(samples, widths), widths[0]),
{
    let network = network_from(samples, widths);
    assert forall|i: int| 0 <= i < layer_count(widths) implies layer_accepts(
        #[trigger] network[i],
        widths[i],
    ) by {
        assert forall|j: int| 0 <= j < network[i].len() implies (#[trigger] network[i][j])
            .weights.len() == widths[i] by {
            construction_reads_in_order(samples, widths, i, j);
        }
    }
}

/// Every bias and every weight of a constructed network is one of the
/// samples that construction consumes: where each of those samples has a
/// property, such as lying within a range, each bias and weight has it.
pub proof fn parameters_are_samples<T>(
    samples: Seq<T>,
    widths: Seq<nat>,
    property: spec_fn(T) -> bool,
)
    requires
        samples.len() >= samples_needed(widths),
        forall|p: int| 0 <= p < samples_needed(widths) ==> property(#[trigger] samples[p]),
    ensures
        forall|i: int, j: int|
            0 <= i < layer_count(widths) && 0 <= j < widths[i + 1] ==> property(
                (#[trigger] network_from(samples, widths)[i][j]).bias,
            ),
        forall|i: int, j: int, k: int|
            0 <= i < layer_count(widths) && 0 <= j < widths[i + 1] && 0 <= k < widths[i]
                ==> property(#[trigger] network_from(samples, widths)[i][j].weights[k]),
{
    let network = network_from(samples, widths);
    assert forall|i: int, j: int|
        0 <= i < layer_count(widths) && 0 <= j < widths[i + 1] implies property(
        (#[trigger] network[i][j]).bias,
    ) by {
        construction_reads_in_order(samples, widths, i, j);
        neurons_follow_one_another(widths, i, j);
    }
    assert forall|i: int, j: int, k: int|
        0 <= i < layer_count(widths) && 0 <= j < widths[i + 1] && 0 <= k < widths[i]
        implies property(#[trigger] network[i][j].weights[k]) by {
        construction_reads_in_order(samples, widths, i, j);
        neurons_follow_one_another(widths, i, j);
        assert(network[i][j].weights[k] == samples[bias_position(widths, i, j) + 1 + k]);
    }
}

/// Construction reads the samples it consumes and nothing else: two streams
/// that agree on their first `samples_needed(widths)` samples give the same
/// network. Replaying a stream therefore reproduces every bias and every
/// weight.
pub proof fn replay_reproduces_network<T>(first: Seq<T>, second: Seq<T>, widths: Seq<nat>)
    requires
        first.len() >= samples_needed(widths),
        second.len() >= samples_needed(widths),
        first.take(samples_needed(widths) as int) == second.take(samples_needed(widths) as int),
    ensures
        network_from(first, widths) == network_from(second, widths),
{
    let needed = samples_needed(widths) as int;
    let one = network_from(first, widths);
    let two = network_from(second, widths);
    constructed_network_has_topology_shape(first, widths);
    constructed_network_has_topology_shape(second, widths);
    assert forall|i: int| 0 <= i < one.len() implies one[i] == two[i] by {
        assert forall|j: int| 0 <= j < one[i].len() implies one[i][j] == two[i][j] by {
            construction_reads_in_order(first, widths, i, j);
            construction_reads_in_order(second, widths, i, j);
            neurons_follow_one_another(widths, i, j);
            assert forall|p: int| 0 <= p < needed implies first[p] == second[p] by {
                assert(first.take(needed)[p] == second.take(needed)[p]);
            }
            assert(one[i][j].weights =~= two[i][j].weights);
        }
        assert(one[i] =~= two[i]);
    }
    assert(one =~= two);
}

/// What leaves a stage of a network is as wide as that stage: a signal
/// that can leave the first `stages` layers has one scalar for each neuron
/// of the last of them. For all the layers, that is the neuron count of the
/// network's last layer.
pub proof fn signal_has_width_of_its_layer<T>(
    arithmetic: ArithmeticModel<T>,
    network: NetworkModel<T>,
    inputs: Seq<T>,
    stages: nat,
    signal: Seq<T>,
)
    requires
        stages > 0,
        arithmetic.network_yields(network, inputs, stages, signal),
    ensures
        signal.len() == network[stages - 1].len(),
{
}

/// Nothing leaves a neuron but through the activation: where every result
/// of `rectify` has a property, such as not being negative, every response
/// of a neuron has it.
pub proof fn neuron_output_is_rectified<T>(
    arithmetic: ArithmeticModel<T>,
    neuron: NeuronModel<T>,
    inputs: Seq<T>,
    output: T,
    property: spec_fn(T) -> bool,
)
    requires
        arithmetic.neuron_yields(neuron, inputs, output),
        forall|a: T, r: T| #[trigger] (arithmetic.rectify)(a, r) ==> property(r),
    ensures
        property(output),
{
}

/// Where every result of `rectify` has a property, every output of a layer
/// has it.
pub proof fn layer_outputs_are_rectified<T>(
    arithmetic: ArithmeticModel<T>,
    layer: LayerModel<T>,
    inputs: Seq<T>,
    outputs: Seq<T>,
    property: spec_fn(T) -> bool,
)
    requires
        arithmetic.layer_yields(layer, inputs, outputs),
        forall|a: T, r: T| #[trigger] (arithmetic.rectify)(a, r) ==> property(r),
    ensures
        forall|j: int| 0 <= j < outputs.len() ==> property(#[trigger] outputs[j]),
{
    assert forall|j: int| 0 <= j < outputs.len() implies property(#[trigger] outputs[j]) by {
        neuron_output_is_rectified(arithmetic, layer[j], inputs, outputs[j], property);
    }
}

/// Where every result of `rectify` has a property, every output of a
/// network with at least one layer has it.
pub proof fn network_outputs_are_rectified<T>(
    arithmetic: ArithmeticModel<T>,
    network: NetworkModel<T>,
    inputs: Seq<T>,
    outputs: Seq<T>,
    property: spec_fn(T) -> bool,
)
    requires
        network.len() > 0,
        arithmetic.network_yields(network, inputs, network.len(), outputs),
        forall|a: T, r: T| #[trigger] (arithmetic.rectify)(a, r) ==> property(r),
    ensures
        forall|j: int| 0 <= j < outputs.len() ==> property(#[trigger] outputs[j]),
{
    let last = network[network.len() - 1];
    let earlier = choose|earlier: Seq<T>|
        {
            &&& arithmetic.network_yields(network, inputs, (network.len() - 1) as nat, earlier)
            &&& #[trigger] arithmetic.layer_yields(last, earlier, outputs)
        };
    layer_outputs_are_rectified(arithmetic, last, earlier, outputs, property);
}

/// What leaves the first `stages` layers depends on those layers alone.
pub proof fn later_layers_do_not_matter<T>(
    arithmetic: ArithmeticModel<T>,
    one: NetworkModel<T>,
    other: NetworkModel<T>,
    inputs: Seq<T>,
    stages: nat,
    signal: Seq<T>,
)
    requires
        stages <= one.len(),
        stages <= other.len(),
        one.take(stages as int) == other.take(stages as int),
        arithmetic.network_yields(one, inputs, stages, signal),
    ensures
        arithmetic.network_yields(other, inputs, stages, signal),
    decreases stages,
{
    if stages > 0 {
        let before = (stages - 1) as nat;
        let earlier = choose|earlier: Seq<T>|
            {
                &&& arithmetic.network_yields(one, inputs, before, earlier)
                &&& #[trigger] arithmetic.layer_yields(one[stages - 1], earlier, signal)
            };
        assert(one.take(before as int) == other.take(before as int)) by {
            assert(one.take(stages as int).take(before as int) == one.take(before as int));
            assert(other.take(stages as int).take(before as int) == other.take(before as int));
        }
        later_layers_do_not_matter(arithmetic, one, other, inputs, before, earlier);
        assert(one[stages - 1] == other[stages - 1]) by {
            assert(one.take(stages as int)[stages - 1] == other.take(stages as int)[stages - 1]);
        }
        assert(arithmetic.layer_yields(other[stages - 1], earlier, signal));
    }
}

/// Layers are passed strictly in order: what a network of two parts can
/// return for `inputs` is what the second part can return for something that
/// the first part can return for `inputs`.
pub proof fn propagation_composes<T>(
    arithmetic: ArithmeticModel<T>,
    front: NetworkModel<T>,
    back: NetworkModel<T>,
    inputs: Seq<T>,
    outputs: Seq<T>,
)
    ensures
        arithmetic.network_yields(front + back, inputs, (front + back).len(), outputs) <==> exists|
            between: Seq<T>,
        |
            {
                &&& #[trigger] arithmetic.network_yields(front, inputs, front.len(), between)
                &&& arithmetic.network_yields(back, between, back.len(), outputs)
            },
    decreases back.len(),
{
    let whole = front + back;
    if back.len() == 0 {
        assert(whole =~= front);
        if arithmetic.network_yields(whole, inputs, whole.len(), outputs) {
            assert(arithmetic.network_yields(front, inputs, front.len(), outputs));
        }
    } else {
        let shorter = back.drop_last();
        let last = back.last();
        let before = (whole.len() - 1) as nat;
        assert(whole[before as int] == last);
        assert((front + shorter).len() == before);
        assert(whole.take(before as int) =~= (front + shorter).take(before as int));
        assert(back.take(shorter.len() as int) =~= shorter.take(shorter.len() as int));
        if arithmetic.network_yields(whole, inputs, whole.len(), outputs) {
            let earlier = choose|earlier: Seq<T>|
                {
                    &&& arithmetic.network_yields(whole, inputs, before, earlier)
                    &&& #[trigger] arithmetic.layer_yields(whole[whole.len() - 1], earlier, outputs)
                };
            later_layers_do_not_matter(arithmetic, whole, front + shorter, inputs, before, earlier);
            propagation_composes(arithmetic, front, shorter, inputs, earlier);
            let between = choose|between: Seq<T>|
                {
                    &&& #[trigger] arithmetic.network_yields(front, inputs, front.len(), between)
                    &&& arithmetic.network_yields(shorter, between, shorter.len(), earlier)
                };
            later_layers_do_not_matter(
                arithmetic,
                shorter,
                back,
                between,
                shorter.len(),
                earlier,
            );
            assert(arithmetic.layer_yields(back[back.len() - 1], earlier, outputs));
            assert(arithmetic.network_yields(back, between, back.len(), outputs));
        }
        if exists|between: Seq<T>|
            {
                &&& #[trigger] arithmetic.network_yields(front, inputs, front.len(), between)
                &&& arithmetic.network_yields(back, between, back.len(), outputs)
            } {
            let between = choose|between: Seq<T>|
                {
                    &&& #[trigger] arithmetic.network_yields(front, inputs, front.len(), between)
                    &&& arithmetic.network_yields(back, between, back.len(), outputs)
                };
            let earlier = choose|earlier: Seq<T>|
                {
                    &&& arithmetic.network_yields(back, between, (back.len() - 1) as nat, earlier)
                    &&& #[trigger] arithmetic.layer_yields(back[back.len() - 1], earlier, outputs)
                };
            later_layers_do_not_matter(
                arithmetic,
                back,
                shorter,
                between,
                shorter.len(),
                earlier,
            );
            propagation_composes(arithmetic, front, shorter, inputs, earlier);
            later_layers_do_not_matter(arithmetic, front + shorter, whole, inputs, before, earlier);
            assert(arithmetic.layer_yields(whole[whole.len() - 1], earlier, outputs));
            assert(arithmetic.network_yields(whole, inputs, whole.len(), outputs));
        }
    }
}

/// A network of two layers returns what the second layer returns for what
/// the first returns.
pub proof fn two_layers_compose<T>(
    arithmetic: ArithmeticModel<T>,
    first: LayerModel<T>,
    second: LayerModel<T>,
    inputs: Seq<T>,
    outputs: Seq<T>,
)
    ensures
        arithmetic.network_yields(seq![first, second], inputs, 2, outputs) <==> exists|
            between: Seq<T>,
        |
            {
                &&& #[trigger] arithmetic.layer_yields(first, inputs, between)
                &&& arithmetic.layer_yields(second, between, outputs)
            },
{
    let network = seq![first, second];
    assert(network[0] == first && network[1] == second);
    assert forall|between: Seq<T>|
        arithmetic.network_yields(network, inputs, 1, between) <==> arithmetic.layer_yields(
            first,
            inputs,
            between,
        ) by {
        reveal_with_fuel(ArithmeticModel::network_yields, 2);
        if arithmetic.layer_yields(first, inputs, between) {
            assert(arithmetic.network_yields(network, inputs, 0, inputs));
            assert(arithmetic.layer_yields(network[1 - 1], inputs, between));
        }
    }
    if arithmetic.network_yields(network, inputs, 2, outputs) {
        let between = choose|between: Seq<T>|
            {
                &&& arithmetic.network_yields(network, inputs, 1, between)
                &&& #[trigger] arithmetic.layer_yields(network[2 - 1], between, outputs)
            };
        assert(arithmetic.layer_yields(first, inputs, between));
    }
    if exists|between: Seq<T>|
        {
            &&& #[trigger] arithmetic.layer_yields(first, inputs, between)
            &&& arithmetic.layer_yields(second, between, outputs)
        } {
        let between = choose|between: Seq<T>|
            {
                &&& #[trigger] arithmetic.layer_yields(first, inputs, between)
                &&& arithmetic.layer_yields(second, between, outputs)
            };
        assert(arithmetic.network_yields(network, inputs, 1, between));
        assert(arithmetic.layer_yields(network[2 - 1], between, outputs));
    }
}

/// Under a deterministic arithmetic a running sum has one value.
pub proof fn sum_is_deterministic<T>(
    arithmetic: ArithmeticModel<T>,
    inputs: Seq<T>,
    weights: Seq<T>,
    n: nat,
    one: T,
    other: T,
)
    requires
        arithmetic.is_deterministic(),
        arithmetic.sums_to(inputs, weights, n, one),
        arithmetic.sums_to(inputs, weights, n, other),
    ensures
        one == other,
    decreases n,
{
    if n > 0 {
        let before = (n - 1) as nat;
        let (sum_one, product_one) = choose|earlier: T, product: T|
            {
                &&& arithmetic.sums_to(inputs, weights, before, earlier)
                &&& (arithmetic.times)(inputs[n - 1], weights[n - 1], product)
                &&& #[trigger] (arithmetic.plus)(earlier, product, one)
            };
        let (sum_other, product_other) = choose|earlier: T, product: T|
            {
                &&& arithmetic.sums_to(inputs, weights, before, earlier)
                &&& (arithmetic.times)(inputs[n - 1], weights[n - 1], product)
                &&& #[trigger] (arithmetic.plus)(earlier, product, other)
            };
        sum_is_deterministic(arithmetic, inputs, weights, before, sum_one, sum_other);
    }
}

/// Under a deterministic arithmetic a neuron has one response to an input.
pub proof fn neuron_is_deterministic<T>(
    arithmetic: ArithmeticModel<T>,
    neuron: NeuronModel<T>,
    inputs: Seq<T>,
    one: T,
    other: T,
)
    requires
        arithmetic.is_deterministic(),
        arithmetic.neuron_yields(neuron, inputs, one),
        arithmetic.neuron_yields(neuron, inputs, other),
    ensures
        one == other,
{
    let (sum_one, biased_one) = choose|sum: T, biased: T|
        {
            &&& arithmetic.sums_to(inputs, neuron.weights, inputs.len(), sum)
            &&& #[trigger] (arithmetic.plus)(neuron.bias, sum, biased)
            &&& (arithmetic.rectify)(biased, one)
        };
    let (sum_other, biased_other) = choose|sum: T, biased: T|
        {
            &&& arithmetic.sums_to(inputs, neuron.weights, inputs.len(), sum)
            &&& #[trigger] (arithmetic.plus)(neuron.bias, sum, biased)
            &&& (arithmetic.rectify)(biased, other)
        };
    sum_is_deterministic(arithmetic, inputs, neuron.weights, inputs.len(), sum_one, sum_other);
}

/// Under a deterministic arithmetic a layer has one response to an input.
pub proof fn layer_is_deterministic<T>(
    arithmetic: ArithmeticModel<T>,
    layer: LayerModel<T>,
    inputs: Seq<T>,
    one: Seq<T>,
    other: Seq<T>,
)
    requires
        arithmetic.is_deterministic(),
        arithmetic.layer_yields(layer, inputs, one),
        arithmetic.layer_yields(layer, inputs, other),
    ensures
        one == other,
{
    assert forall|j: int| 0 <= j < layer.len() implies one[j] == other[j] by {
        neuron_is_deterministic(arithmetic, layer[j], inputs, one[j], other[j]);
    }
    assert(one =~= other);
}

/// Propagation has no state: under a deterministic arithmetic, the same
/// network returns the same outputs for the same inputs.
pub proof fn propagation_is_deterministic<T>(
    arithmetic: ArithmeticModel<T>,
    network: NetworkModel<T>,
    inputs: Seq<T>,
    stages: nat,
    one: Seq<T>,
    other: Seq<T>,
)
    requires
        arithmetic.is_deterministic(),
        arithmetic.network_yields(network, inputs, stages, one),
        arithmetic.network_yields(network, inputs, stages, other),
    ensures
        one == other,
    decreases stages,
{
    if stages > 0 {
        let before = (stages - 1) as nat;
        let earlier_one = choose|earlier: Seq<T>|
            {
                &&& arithmetic.network_yields(network, inputs, before, earlier)
                &&& #[trigger] arithmetic.layer_yields(network[stages - 1], earlier, one)
            };
        let earlier_other = choose|earlier: Seq<T>|
            {
                &&& arithmetic.network_yields(network, inputs, before, earlier)
                &&& #[trigger] arithmetic.layer_yields(network[stages - 1], earlier, other)
            };
        propagation_is_deterministic(
            arithmetic,
            network,
            inputs,
            before,
            earlier_one,
            earlier_other,
        );
        layer_is_deterministic(arithmetic, network[stages - 1], earlier_one, one, other);
    }
}

} // verus!
