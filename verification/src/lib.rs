//! The integer core of a coherent-noise library: seeds and the sequences that
//! derive them, layer stacks, permutation tables, and the nodes of a noise
//! pipeline as plain, composable values.
//!
//! Everything here is exact arithmetic on integers and on the structure of a
//! pipeline. Evaluating a pipeline at a point is left to the caller, who
//! supplies the scalar type and its arithmetic.

pub mod math;
pub mod noise_fns;
pub mod permutationtable;
pub mod seeds;
pub mod transforms;

pub use crate::math::SamplePoint;
pub use crate::noise_fns::generators::checkerboard::Checkerboard;
pub use crate::noise_fns::generators::cylinders::Cylinders;
pub use crate::noise_fns::generators::perlin::Perlin;
pub use crate::noise_fns::modifiers::abs::Abs;
pub use crate::noise_fns::modifiers::negate::Negate;
pub use crate::noise_fns::selectors::blend::Blend;
pub use crate::noise_fns::Seedable;
