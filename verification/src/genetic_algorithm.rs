use vstd::prelude::*;

verus! {

/// Handle of the genetic algorithm. It carries no state.
pub struct GeneticAlgorithm;

impl GeneticAlgorithm {
    /// Creates the algorithm.
    pub fn new() -> (algorithm: Self)
        ensures
            algorithm == GeneticAlgorithm,
    {
        GeneticAlgorithm
    }
}

impl Default for GeneticAlgorithm {
    /// Same as [`GeneticAlgorithm::new`].
    fn default() -> (algorithm: Self)
        ensures
            algorithm == GeneticAlgorithm,
    {
        GeneticAlgorithm::new()
    }
}

} // verus!
