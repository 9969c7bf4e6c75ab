use vstd::prelude::*;

verus! {

/// Concentric cylinders centred on the origin and aligned with the z axis,
/// like the rings of a tree. The node carries no configuration.
#[derive(Clone, Copy, Debug)]
pub struct Cylinders;

impl Cylinders {
    pub fn new() -> (cylinders: Self)
        ensures
            cylinders == Cylinders,
    {
        Cylinders
    }
}

impl Default for Cylinders {
    fn default() -> (cylinders: Self)
        ensures
            cylinders == Cylinders,
    {
        Cylinders::new()
    }
}

} // verus!
