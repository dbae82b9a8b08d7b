//! Mathematical models of neurons, layers and networks, and the predicates
//! that say which input widths they accept.

use vstd::prelude::*;

verus! {

/// What a neuron is: a bias and one weight per input.
pub struct NeuronModel<T> {
    pub bias: T,
    pub weights: Seq<T>,
}

/// A layer is the sequence of its neurons, a network the sequence of its layers.
pub type LayerModel<T> = Seq<NeuronModel<T>>;

pub type NetworkModel<T> = Seq<Seq<NeuronModel<T>>>;

/// Every neuron of `layer` takes exactly `width` inputs.
///
/// A layer without neurons accepts every width.
pub open spec fn layer_accepts<T>(layer: LayerModel<T>, width: nat) -> bool {
    forall|j: int| 0 <= j < layer.len() ==> (#[trigger] layer[j]).weights.len() == width
}

/// The width of the signal that reaches layer `i` of `network` when the
/// network is fed `width` inputs: `width` itself for the first layer, and the
/// neuron count of the layer before for every other.
pub open spec fn width_into<T>(network: NetworkModel<T>, width: nat, i: int) -> nat {
    if i <= 0 {
        width
    } else {
        network[i - 1].len()
    }
}

/// An input of `width` scalars can be propagated through `network`: each
/// layer accepts the width of the signal that reaches it.
///
/// A network without layers accepts every width.
pub open spec fn network_accepts<T>(network: NetworkModel<T>, width: nat) -> bool {
    forall|i: int|
        0 <= i < network.len() ==> layer_accepts(
            #[trigger] network[i],
            width_into(network, width, i),
        )
}

} // verus!
