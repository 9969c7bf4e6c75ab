use vstd::prelude::*;

verus! {

/// A point at which noise can be sampled: a fixed number of coordinates of
/// one type.
pub trait SamplePoint: Copy {
    /// The type of a coordinate.
    type Element;

    /// The point with each coordinate multiplied by `factor`.
    fn mul_scalar(self, factor: Self::Element) -> Self;
}

} // verus!
