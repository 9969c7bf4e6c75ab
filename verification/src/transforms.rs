use crate::math::SamplePoint;
use crate::noise_fns::reseeded;
use crate::noise_fns::Seedable;
use vstd::prelude::*;

verus! {

/// A mapping of sample points onto sample points.
pub trait PointTransform<P> {
    fn transform(&self, point: P) -> P;
}

/// `to` is where `transform` takes `from`.
pub open spec fn leads_to<P, T: PointTransform<P>>(transform: T, from: P, to: P) -> bool {
    call_ensures(T::transform, (&transform, from), to)
}

/// A `PointTransform` which scales points uniformly across all axes.
#[derive(Clone, Copy, Debug, PartialEq, PartialOrd)]
pub struct UniformScale<T> {
    pub scale: T,
}

impl<T> UniformScale<T> {
    pub fn new(scale: T) -> (transform: Self)
        ensures
            transform.scale == scale,
    {
        UniformScale { scale }
    }
}

impl<P: SamplePoint> PointTransform<P> for UniformScale<P::Element> where P::Element: Copy {
    /// The point with each coordinate multiplied by the scale.
    fn transform(&self, point: P) -> (scaled: P)
        ensures
            call_ensures(P::mul_scalar, (point, self.scale), scaled),
    {
        point.mul_scalar(self.scale)
    }
}

/// A source together with the transform that its input points go through
/// first.
#[derive(Clone, Debug)]
pub struct Transformed<Source, Transform> {
    pub source: Source,
    pub transform: Transform,
}

impl<Source, Transform> Seedable for Transformed<Source, Transform> where Source: Seedable {
    /// Reseeds the source and leaves the transform as it is.
    fn with_seed(self, seed: u32) -> (seeded: Self)
        ensures
            reseeded(self.source, seed, seeded.source),
            seeded.transform == self.transform,
    {
        Transformed { source: self.source.with_seed(seed), transform: self.transform }
    }

    /// The seed of the source.
    fn seed(&self) -> (seed: u32)
        ensures
            call_ensures(Source::seed, (&self.source,), seed),
    {
        self.source.seed()
    }
}

} // verus!
