//! Propagation as a function: what a forward pass returns where each
//! operation of the arithmetic is a mathematical function.

use vstd::prelude::*;
use crate::arithmetic::ArithmeticModel;
use crate::model::LayerModel;
use crate::model::NetworkModel;
use crate::model::NeuronModel;

verus! {

/// Scalar operations as mathematical functions.
#[verifier::reject_recursive_types(T)]
pub struct Operations<T> {
    pub zero: T,
    pub plus: spec_fn(T, T) -> T,
    pub times: spec_fn(T, T) -> T,
    pub rectify: spec_fn(T) -> T,
}

impl<T> ArithmeticModel<T> {
    /// The arithmetic computes `operations`: it starts sums at the same
    /// zero, and each operation returns nothing but what the function of the
    /// same name gives.
    pub open spec fn computes(self, operations: Operations<T>) -> bool {
        &&& self.zero == operations.zero
        &&& forall|a: T, b: T, r: T|
            #[trigger] (self.plus)(a, b, r) ==> r == (operations.plus)(a, b)
        &&& forall|a: T, b: T, r: T|
            #[trigger] (self.times)(a, b, r) ==> r == (operations.times)(a, b)
        &&& forall|a: T, r: T| #[trigger] (self.rectify)(a, r) ==> r == (operations.rectify)(a)
    }
}

impl<T> Operations<T> {
    /// The sum of the products of the first `n` inputs with their weights,
    /// added up from `zero` in index order:
    /// `((zero + inputs[0] * weights[0]) + inputs[1] * weights[1]) + ...`.
    pub open spec fn weighted_sum(self, inputs: Seq<T>, weights: Seq<T>, n: nat) -> T
        decreases n,
    {
        if n == 0 {
            self.zero
        } else {
            (self.plus)(
                self.weighted_sum(inputs, weights, (n - 1) as nat),
                (self.times)(inputs[n - 1], weights[n - 1]),
            )
        }
    }

    /// The response of a neuron: `rectify(bias + weighted sum)`.
    pub open spec fn neuron_output(self, neuron: NeuronModel<T>, inputs: Seq<T>) -> T {
        (self.rectify)(
            (self.plus)(neuron.bias, self.weighted_sum(inputs, neuron.weights, inputs.len())),
        )
    }

    /// The response of a layer: the response of each of its neurons.
    pub open spec fn layer_output(self, layer: LayerModel<T>, inputs: Seq<T>) -> Seq<T> {
        Seq::new(layer.len(), |j: int| self.neuron_output(layer[j], inputs))
    }

    /// What leaves the first `stages` layers of a network: each layer
    /// applied to what leaves the layers before it.
    pub open spec fn network_output(
        self,
        network: NetworkModel<T>,
        inputs: Seq<T>,
        stages: nat,
    ) -> Seq<T>
        decreases stages,
    {
        if stages == 0 {
            inputs
        } else {
            self.layer_output(
                network[stages - 1],
                self.network_output(network, inputs, (stages - 1) as nat),
            )
        }
    }
}

/// Where the arithmetic computes `operations`, a running sum is the
/// weighted sum.
pub proof fn sum_is_weighted_sum<T>(
    arithmetic: ArithmeticModel<T>,
    operations: Operations<T>,
    inputs: Seq<T>,
    weights: Seq<T>,
    n: nat,
    sum: T,
)
    requires
        arithmetic.computes(operations),
        arithmetic.sums_to(inputs, weights, n, sum),
    ensures
        sum == operations.weighted_sum(inputs, weights, n),
    decreases n,
{
    if n > 0 {
        let (earlier, product) = choose|earlier: T, product: T|
            {
                &&& arithmetic.sums_to(inputs, weights, (n - 1) as nat, earlier)
                &&& (arithmetic.times)(inputs[n - 1], weights[n - 1], product)
                &&& #[trigger] (arithmetic.plus)(earlier, product, sum)
            };
        sum_is_weighted_sum(arithmetic, operations, inputs, weights, (n - 1) as nat, earlier);
    }
}

/// Where the arithmetic computes `operations`, a neuron returns
/// `rectify(bias + weighted sum)`.
pub proof fn neuron_returns_its_output<T>(
    arithmetic: ArithmeticModel<T>,
    operations: Operations<T>,
    neuron: NeuronModel<T>,
    inputs: Seq<T>,
    output: T,
)
    requires
        arithmetic.computes(operations),
        arithmetic.neuron_yields(neuron, inputs, output),
    ensures
        output == operations.neuron_output(neuron, inputs),
{
    let (sum, biased) = choose|sum: T, biased: T|
        {
            &&& arithmetic.sums_to(inputs, neuron.weights, inputs.len(), sum)
            &&& #[trigger] (arithmetic.plus)(neuron.bias, sum, biased)
            &&& (arithmetic.rectify)(biased, output)
        };
    sum_is_weighted_sum(arithmetic, operations, inputs, neuron.weights, inputs.len(), sum);
}

/// Where the arithmetic computes `operations`, a layer returns the outputs
/// of its neurons.
pub proof fn layer_returns_its_output<T>(
    arithmetic: ArithmeticModel<T>,
    operations: Operations<T>,
    layer: LayerModel<T>,
    inputs: Seq<T>,
    outputs: Seq<T>,
)
    requires
        arithmetic.computes(operations),
        arithmetic.layer_yields(layer, inputs, outputs),
    ensures
        outputs == operations.layer_output(layer, inputs),
{
    assert forall|j: int| 0 <= j < layer.len() implies outputs[j] == operations.neuron_output(
        layer[j],
        inputs,
    ) by {
        neuron_returns_its_output(arithmetic, operations, layer[j], inputs, outputs[j]);
    }
    assert(outputs =~= operations.layer_output(layer, inputs));
}

/// Where the arithmetic computes `operations`, a network returns the output
/// of its last layer for the output of the layers before it.
pub proof fn network_returns_its_output<T>(
    arithmetic: ArithmeticModel<T>,
    operations: Operations<T>,
    network: NetworkModel<T>,
    inputs: Seq<T>,
    stages: nat,
    signal: Seq<T>,
)
    requires
        arithmetic.computes(operations),
        arithmetic.network_yields(network, inputs, stages, signal),
    ensures
        signal == operations.network_output(network, inputs, stages),
    decreases stages,
{
    if stages > 0 {
        let earlier = choose|earlier: Seq<T>|
            {
                &&& arithmetic.network_yields(network, inputs, (stages - 1) as nat, earlier)
                &&& #[trigger] arithmetic.layer_yields(network[stages - 1], earlier, signal)
            };
        network_returns_its_output(
            arithmetic,
            operations,
            network,
            inputs,
            (stages - 1) as nat,
            earlier,
        );
        layer_returns_its_output(arithmetic, operations, network[stages - 1], earlier, signal);
    }
}

} // verus!
