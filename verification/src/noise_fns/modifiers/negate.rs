use vstd::prelude::*;

verus! {

/// A node that negates what its source outputs.
pub struct Negate<Source> {
    /// Outputs a value.
    pub source: Source,
}

impl<Source> Negate<Source> {
    pub fn new(source: Source) -> (node: Self)
        ensures
            node.source == source,
    {
        Negate { source }
    }
}

} // verus!
