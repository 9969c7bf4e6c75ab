use vstd::prelude::*;

verus! {

/// A node that outputs the absolute value of what its source outputs.
pub struct Abs<Source> {
    /// Outputs a value.
    pub source: Source,
}

impl<Source> Abs<Source> {
    pub fn new(source: Source) -> (node: Self)
        ensures
            node.source == source,
    {
        Abs { source }
    }
}

} // verus!
