//! The scalar operations of a forward pass, and the relations that say what
//! a forward pass may return under them.

use vstd::prelude::*;
use crate::model::LayerModel;
use crate::model::NetworkModel;
use crate::model::NeuronModel;

verus! {

/// The scalar operations a forward pass is built from.
///
/// A network does not compute on its scalars itself. Whoever propagates
/// hands in the arithmetic to use, and the contracts of propagation say how
/// its operations are combined: in which order, and on which operands.
pub struct Arithmetic<T, P, M, R> {
    /// The value a running sum starts from.
    pub zero: T,
    /// Addition of two scalars.
    pub plus: P,
    /// Multiplication of two scalars.
    pub times: M,
    /// The activation, applied to the sum of bias and weighted inputs.
    pub rectify: R,
}

/// What an [`Arithmetic`] is to a proof.
///
/// The operations are executable functions, and such a function is known as
/// a relation between its arguments and the results it can return, not as a
/// mathematical function: `plus(a, b, r)` says that adding `a` and `b` can
/// return `r`. Where an operation states its result exactly, the relation
/// holds of that one result.
#[verifier::reject_recursive_types(T)]
pub struct ArithmeticModel<T> {
    pub zero: T,
    pub plus: spec_fn(T, T, T) -> bool,
    pub times: spec_fn(T, T, T) -> bool,
    pub rectify: spec_fn(T, T) -> bool,
}

impl<T, P: Fn(T, T) -> T, M: Fn(T, T) -> T, R: Fn(T) -> T> Arithmetic<T, P, M, R> {
    /// The operations as relations: each holds of the arguments and a result
    /// exactly where the operation can return that result for them.
    pub open spec fn model(&self) -> ArithmeticModel<T> {
        ArithmeticModel {
            zero: self.zero,
            plus: |a: T, b: T, r: T| call_ensures(self.plus, (a, b), r),
            times: |a: T, b: T, r: T| call_ensures(self.times, (a, b), r),
            rectify: |a: T, r: T| call_ensures(self.rectify, (a,), r),
        }
    }

    /// Every operation may be called on every argument.
    pub open spec fn is_total(&self) -> bool {
        &&& forall|a: T, b: T| call_requires(self.plus, (a, b))
        &&& forall|a: T, b: T| call_requires(self.times, (a, b))
        &&& forall|a: T| call_requires(self.rectify, (a,))
    }
}

impl<T> ArithmeticModel<T> {
    /// No operation can return two different results for the same
    /// arguments.
    pub open spec fn is_deterministic(self) -> bool {
        &&& forall|a: T, b: T, r: T, s: T|
            #![trigger (self.plus)(a, b, r), (self.plus)(a, b, s)]
            (self.plus)(a, b, r) && (self.plus)(a, b, s) ==> r == s
        &&& forall|a: T, b: T, r: T, s: T|
            #![trigger (self.times)(a, b, r), (self.times)(a, b, s)]
            (self.times)(a, b, r) && (self.times)(a, b, s) ==> r == s
        &&& forall|a: T, r: T, s: T|
            #![trigger (self.rectify)(a, r), (self.rectify)(a, s)]
            (self.rectify)(a, r) && (self.rectify)(a, s) ==> r == s
    }

    /// `sum` is a value of the running sum over the first `n` pairs of
    /// `inputs` and `weights`: it starts at `zero`, and pair `i` is multiplied
    /// and then added to the sum of the pairs before it, for `i` ascending.
    pub open spec fn sums_to(self, inputs: Seq<T>, weights: Seq<T>, n: nat, sum: T) -> bool
        decreases n,
    {
        if n == 0 {
            sum == self.zero
        } else {
            exists|earlier: T, product: T|
                {
                    &&& self.sums_to(inputs, weights, (n - 1) as nat, earlier)
                    &&& (self.times)(inputs[n - 1], weights[n - 1], product)
                    &&& #[trigger] (self.plus)(earlier, product, sum)
                }
        }
    }

    /// `output` is a value that `neuron` can return for `inputs`: the
    /// activation of the bias plus the running sum over all pairs.
    pub open spec fn neuron_yields(
        self,
        neuron: NeuronModel<T>,
        inputs: Seq<T>,
        output: T,
    ) -> bool {
        exists|sum: T, biased: T|
            {
                &&& self.sums_to(inputs, neuron.weights, inputs.len(), sum)
                &&& #[trigger] (self.plus)(neuron.bias, sum, biased)
                &&& (self.rectify)(biased, output)
            }
    }

    /// `outputs` is a value that `layer` can return for `inputs`: one output
    /// per neuron, in the order of the neurons, each computed from the same
    /// `inputs`.
    pub open spec fn layer_yields(
        self,
        layer: LayerModel<T>,
        inputs: Seq<T>,
        outputs: Seq<T>,
    ) -> bool {
        &&& outputs.len() == layer.len()
        &&& forall|j: int|
            0 <= j < layer.len() ==> self.neuron_yields(layer[j], inputs, #[trigger] outputs[j])
    }

    /// `signal` is a value that can leave the first `n` layers of `network`
    /// when `inputs` enters the first: the inputs themselves for `n == 0`, and
    /// otherwise what layer `n - 1` returns for a signal that can leave the
    /// layers before it.
    pub open spec fn network_yields(
        self,
        network: NetworkModel<T>,
        inputs: Seq<T>,
        n: nat,
        signal: Seq<T>,
    ) -> bool
        decreases n,
    {
        if n == 0 {
            signal == inputs
        } else {
            exists|earlier: Seq<T>|
                {
                    &&& self.network_yields(network, inputs, (n - 1) as nat, earlier)
                    &&& #[trigger] self.layer_yields(network[n - 1], earlier, signal)
                }
        }
    }
}

} // verus!
