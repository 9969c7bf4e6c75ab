use vstd::prelude::*;

verus! {

/// A node that outputs a weighted blend of two sources, the weight being what
/// a third, the control, outputs at the same point.
pub struct Blend<A, B, X> {
    /// Outputs one of the values to blend.
    pub source1: A,
    /// Outputs one of the values to blend.
    pub source2: B,
    /// Determines the weight of the blend. Low values weight it towards
    /// `source1`, high values towards `source2`.
    pub control: X,
}

impl<A, B, X> Blend<A, B, X> {
    pub fn new(source1: A, source2: B, control: X) -> (node: Self)
        ensures
            node.source1 == source1,
            node.source2 == source2,
            node.control == control,
    {
        Blend { source1, source2, control }
    }
}

} // verus!
