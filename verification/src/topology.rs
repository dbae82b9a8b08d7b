use vstd::prelude::*;

verus! {

/// The width of one stage of a network: the number of inputs for the first
/// entry of a topology, the number of neurons of a layer for every other.
pub struct LayerTopology {
    pub neurons: usize,
}

/// The widths that a topology lists, as numbers.
pub open spec fn widths_of(topology: Seq<LayerTopology>) -> Seq<nat> {
    Seq::new(topology.len(), |i: int| topology[i].neurons as nat)
}

} // verus!
