use vstd::prelude::*;
use crate::arithmetic::Arithmetic;
use crate::construction::layer_at;
use crate::construction::layer_cost;
use crate::construction::layer_count;
use crate::construction::network_from;
use crate::construction::samples_before;
use crate::construction::samples_before_grows;
use crate::construction::samples_for_network;
use crate::construction::samples_needed;
use crate::laws::constructed_network_has_topology_shape;
use crate::layer::Layer;
use crate::model::layer_accepts;
use crate::model::network_accepts;
use crate::model::width_into;
use crate::model::NeuronModel;
use crate::sample_stream::SampleStream;
use crate::topology::widths_of;
use crate::topology::LayerTopology;

verus! {

/// A feedforward network: layers, each fed by the one before it.
#[derive(Clone, Debug)]
pub struct Network<T> {
    layers: Vec<Layer<T>>,
}

impl<T> View for Network<T> {
    type V = Seq<Seq<NeuronModel<T>>>;

    closed spec fn view(&self) -> Seq<Seq<NeuronModel<T>>> {
        self.layers@.map_values(|layer: Layer<T>| layer@)
    }
}

impl<T: Copy> Network<T> {
    /// A network of the given layers, in their order.
    pub fn new(layers: Vec<Layer<T>>) -> (network: Self)
        ensures
            network@ == layers@.map_values(|layer: Layer<T>| layer@),
    {
        Network { layers }
    }

    /// The layers, in order.
    pub fn layers(&self) -> (layers: &Vec<Layer<T>>)
        ensures
            layers@.map_values(|layer: Layer<T>| layer@) == self@,
    {
        &self.layers
    }

    /// Whether an input of `width` scalars can be propagated: whether each
    /// layer accepts the width of the signal that reaches it.
    pub fn accepts(&self, width: usize) -> (accepted: bool)
        ensures
            accepted == network_accepts(self@, width as nat),
    {
        let mut reaching = width;
        let mut i: usize = 0;
        while i < self.layers.len()
            invariant
                i <= self.layers@.len(),
                reaching == width_into(self@, width as nat, i as int),
                forall|k: int|
                    0 <= k < i ==> layer_accepts(
                        #[trigger] self@[k],
                        width_into(self@, width as nat, k),
                    ),
            decreases self.layers@.len() - i,
        {
            if !self.layers[i].accepts(reaching) {
                assert(!layer_accepts(self@[i as int], width_into(self@, width as nat, i as int)));
                return false;
            }
            reaching = self.layers[i].len();
            i += 1;
        }
        true
    }

    /// Builds a network from the stream: one layer for each pair of
    /// neighbouring entries of `topology`, which give its number of inputs
    /// and its number of neurons, each layer complete before the next
    /// begins.
    ///
    /// Returns `None`, and leaves the stream as it is, where the stream holds
    /// fewer samples than the network consumes.
    pub fn random(
        stream: &mut SampleStream<T>,
        topology: &[LayerTopology],
    ) -> (network: Option<Self>)
        requires
            topology@.len() > 1,
        ensures
            network is Some <==> old(stream).remaining().len() >= samples_needed(
                widths_of(topology@),
            ),
            network matches Some(built) ==> {
                &&& built@ == network_from(old(stream).remaining(), widths_of(topology@))
                &&& built@.len() == topology@.len() - 1
                &&& network_accepts(built@, topology@[0].neurons as nat)
                &&& final(stream).remaining() == old(stream).remaining().skip(
                    samples_needed(widths_of(topology@)) as int,
                )
                &&& final(stream).position() == old(stream).position() + samples_needed(
                    widths_of(topology@),
                )
            },
            network is None ==> *final(stream) == *old(stream),
    {
        let ghost samples = stream.remaining();
        let ghost start = stream.position();
        let ghost widths = widths_of(topology@);
        let left = stream.remaining_len();
        match samples_for_network(topology) {
            Some(needed) => {
                if left < needed {
                    return None;
                }
            },
            None => {
                return None;
            },
        }
        let mut layers: Vec<Layer<T>> = Vec::new();
        let mut i: usize = 0;
        while i < topology.len() - 1
            invariant
                topology@.len() > 1,
                i <= topology@.len() - 1,
                widths == widths_of(topology@),
                samples.len() >= samples_needed(widths),
                layers@.len() == i,
                forall|k: int|
                    0 <= k < i ==> (#[trigger] layers@[k])@ == layer_at(samples, widths, k),
                stream.remaining() == samples.skip(samples_before(widths, i as nat) as int),
                stream.position() == start + samples_before(widths, i as nat),
            decreases topology@.len() - i,
        {
            proof {
                samples_before_grows(widths, (i + 1) as nat, layer_count(widths));
            }
            let layer = Layer::random(
                stream,
                topology[i].neurons,
                topology[i + 1].neurons,
            ).unwrap();
            assert(samples.skip(samples_before(widths, i as nat) as int).skip(
                layer_cost(widths[i as int], widths[i + 1]) as int,
            ) == samples.skip(samples_before(widths, (i + 1) as nat) as int));
            layers.push(layer);
            i += 1;
        }
        let network = Network { layers };
        assert(network@ =~= network_from(samples, widths));
        proof {
            constructed_network_has_topology_shape(samples, widths);
        }
        Some(network)
    }

    /// The network's response to `inputs`: the inputs go into the first
    /// layer, the response of each layer goes into the next, and the response
    /// of the last layer is returned. A network without layers returns its
    /// inputs. Where each operation is a mathematical function, the response
    /// is [`crate::evaluation::Operations::network_output`].
    pub fn propagate<P, M, R>(
        &self,
        inputs: Vec<T>,
        arithmetic: &Arithmetic<T, P, M, R>,
    ) -> (outputs: Vec<T>)
        where
            P: Fn(T, T) -> T,
            M: Fn(T, T) -> T,
            R: Fn(T) -> T,
        requires
            network_accepts(self@, inputs@.len()),
            arithmetic.is_total(),
        ensures
            arithmetic.model().network_yields(self@, inputs@, self@.len(), outputs@),
            self@.len() > 0 ==> outputs@.len() == self@.last().len(),
            self@.len() == 0 ==> outputs@ == inputs@,
    {
        let ghost width = inputs@.len();
        let ghost entered = inputs@;
        let mut signal = inputs;
        let mut i: usize = 0;
        while i < self.layers.len()
            invariant
                i <= self.layers@.len(),
                network_accepts(self@, width),
                arithmetic.is_total(),
                signal@.len() == width_into(self@, width, i as int),
                arithmetic.model().network_yields(self@, entered, i as nat, signal@),
            decreases self.layers@.len() - i,
        {
            assert(layer_accepts(self@[i as int], width_into(self@, width, i as int)));
            let next = self.layers[i].propagate(signal.as_slice(), arithmetic);
            assert(arithmetic.model().layer_yields(self@[(i + 1) as nat - 1], signal@, next@));
            signal = next;
            i += 1;
        }
        signal
    }
}

} // verus!
