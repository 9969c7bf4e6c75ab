use crate::noise_fns::reseeded;
use crate::noise_fns::seeded_copy;
use crate::noise_fns::seeded_default;
use crate::noise_fns::seeded_with;
use crate::noise_fns::Seedable;
use crate::seeds::derived_seed;
use crate::seeds::SeedSequence;
use crate::transforms::leads_to;
use crate::transforms::PointTransform;
use crate::transforms::UniformScale;
use vstd::prelude::*;

verus! {

/// What a fractal is made of.
pub struct FractalView<Blender, BaseFunction, Transform> {
    /// The layers, the first one first.
    pub layers: Seq<BaseFunction>,
    /// The transform that leads from the sample point of one layer to that
    /// of the next.
    pub transform: Transform,
    /// What folds the values of the layers into one.
    pub blender: Blender,
    /// The seed that the seeds of the layers derive from.
    pub seed: u32,
}

impl<Blender, BaseFunction: Seedable, Transform> FractalView<Blender, BaseFunction, Transform> {
    /// There is a layer, and each layer was given the seed that the fractal's
    /// seed and the layer's index determine.
    pub open spec fn well_seeded(self) -> bool {
        &&& self.layers.len() >= 1
        &&& forall|k: int|
            0 <= k < self.layers.len() ==> seeded_with(
                #[trigger] self.layers[k],
                derived_seed(self.seed, k as nat),
            )
    }
}

/// The seed of a layer does not depend on the number of layers: in two
/// well-seeded fractals under one seed, however many layers each has, the
/// layers of one index were given the same seed, the one that the fractal's
/// seed and the index determine.
pub proof fn lemma_layer_seed_ignores_count<B1, B2, F: Seedable, T1, T2>(
    one: FractalView<B1, F, T1>,
    other: FractalView<B2, F, T2>,
    index: int,
)
    requires
        one.well_seeded(),
        other.well_seeded(),
        one.seed == other.seed,
        0 <= index < one.layers.len(),
        index < other.layers.len(),
    ensures
        seeded_with(one.layers[index], derived_seed(one.seed, index as nat)),
        seeded_with(other.layers[index], derived_seed(one.seed, index as nat)),
{
}

/// One layer for each of `seeds`: the default of its type, given the seed.
pub fn default_layers<F: Seedable + Default>(seeds: &[u32]) -> (layers: Vec<F>)
    ensures
        layers@.len() == seeds@.len(),
        forall|k: int|
            0 <= k < seeds@.len() ==> seeded_default(seeds@[k], #[trigger] layers@[k]),
{
    let mut layers: Vec<F> = Vec::new();
    let mut made: usize = 0;
    while made < seeds.len()
        invariant
            made <= seeds@.len(),
            layers@.len() == made,
            forall|k: int| 0 <= k < made ==> seeded_default(seeds@[k], #[trigger] layers@[k]),
        decreases seeds@.len() - made,
    {
        let initial = F::default();
        let layer = initial.with_seed(seeds[made]);
        assert(call_ensures(F::default, (), initial) && reseeded(initial, seeds@[made as int], layer));
        layers.push(layer);
        made += 1;
    }
    layers
}

/// One layer for each of `seeds`: a copy of `template`, given the seed.
pub fn copied_layers<F: Seedable + Clone>(template: &F, seeds: &[u32]) -> (layers: Vec<F>)
    ensures
        layers@.len() == seeds@.len(),
        forall|k: int|
            0 <= k < seeds@.len() ==> seeded_copy(*template, seeds@[k], #[trigger] layers@[k]),
{
    let mut layers: Vec<F> = Vec::new();
    let mut made: usize = 0;
    while made < seeds.len()
        invariant
            made <= seeds@.len(),
            layers@.len() == made,
            forall|k: int|
                0 <= k < made ==> seeded_copy(*template, seeds@[k], #[trigger] layers@[k]),
        decreases seeds@.len() - made,
    {
        let copy = template.clone();
        let layer = copy.with_seed(seeds[made]);
        assert(cloned(*template, copy) && reseeded(copy, seeds@[made as int], layer));
        layers.push(layer);
        made += 1;
    }
    layers
}

/// The layers `layers`, each given the seed of its index in `seeds`.
pub fn reseeded_layers<F: Seedable>(layers: Vec<F>, seeds: &[u32]) -> (reseeded_layers: Vec<F>)
    requires
        seeds@.len() == layers@.len(),
    ensures
        reseeded_layers@.len() == layers@.len(),
        forall|k: int|
            0 <= k < layers@.len() ==> reseeded(
                layers@[k],
                seeds@[k],
                #[trigger] reseeded_layers@[k],
            ),
{
    let ghost before = layers@;
    let mut reseeded_layers: Vec<F> = Vec::new();
    for layer in remaining: layers.into_iter()
        invariant
            remaining.seq() == before,
            seeds@.len() == before.len(),
            reseeded_layers@.len() == remaining.index(),
            forall|k: int|
                0 <= k < reseeded_layers@.len() ==> reseeded(
                    before[k],
                    seeds@[k],
                    #[trigger] reseeded_layers@[k],
                ),
    {
        let seed = seeds[reseeded_layers.len()];
        reseeded_layers.push(layer.with_seed(seed));
    }
    reseeded_layers
}

/// A noise function built up of layers of a simpler noise function.
///
/// Layer `k` is sampled at the point that `k` applications of the transform
/// lead to, and a blender folds the values of all layers into one. The layers
/// differ in their seeds: layer `k` works from `derived_seed(seed, k)`,
/// whatever the number of layers.
#[derive(Debug)]
pub struct Fractal<Blender, BaseFunction: Seedable, Transform> {
    layers: Vec<BaseFunction>,
    transform: Transform,
    blender: Blender,
    seed: u32,
}

impl<Blender, BaseFunction: Seedable, Transform> View for Fractal<
    Blender,
    BaseFunction,
    Transform,
> {
    type V = FractalView<Blender, BaseFunction, Transform>;

    closed spec fn view(&self) -> Self::V {
        FractalView {
            layers: self.layers@,
            transform: self.transform,
            blender: self.blender,
            seed: self.seed,
        }
    }
}

impl<B, F: Seedable, T> Fractal<B, F, T> {
    /// The seed of a new fractal.
    pub const DEFAULT_SEED: u32 = 0xD078_6B3E;

    pub const DEFAULT_LAYERS: u32 = 6;

    pub const MAX_LAYERS: usize = 32;

    #[verifier::type_invariant]
    spec fn layers_well_seeded(self) -> bool {
        self@.well_seeded()
    }

    /// A fractal of `layers` layers, each the default of its type with the
    /// seed of its index, under the default seed.
    pub fn new(layers: u32, transform: T, blender: B) -> (fractal: Self) where F: Default
        requires
            layers >= 1,
        ensures
            fractal@.seed == Self::DEFAULT_SEED,
            fractal@.layers.len() == layers,
            forall|k: int|
                0 <= k < layers ==> seeded_default(
                    derived_seed(Self::DEFAULT_SEED, k as nat),
                    #[trigger] fractal@.layers[k],
                ),
            fractal@.transform == transform,
            fractal@.blender == blender,
            fractal@.well_seeded(),
    {
        let seed = Self::DEFAULT_SEED;
        // Drawing the seeds from a generator keeps the layers of similar
        // seeds apart.
        let seeds = SeedSequence::new(seed).take(layers as usize);
        let stack: Vec<F> = default_layers(seeds.as_slice());
        assert forall|k: int| 0 <= k < stack@.len() implies seeded_with(
            #[trigger] stack@[k],
            derived_seed(seed, k as nat),
        ) by {
            assert(seeded_default(seeds@[k], stack@[k]));
        }
        Fractal { layers: stack, transform, blender, seed }
    }

    /// The fractal with its layers replaced by as many copies of
    /// `function_template`, each with the seed of its index.
    pub fn with_function<NewF>(self, function_template: NewF) -> (fractal: Fractal<B, NewF, T>) where
        NewF: Seedable + Clone,

        ensures
            fractal@.layers.len() == self@.layers.len(),
            forall|k: int|
                0 <= k < self@.layers.len() ==> seeded_copy(
                    function_template,
                    derived_seed(self@.seed, k as nat),
                    #[trigger] fractal@.layers[k],
                ),
            fractal@.seed == self@.seed,
            fractal@.transform == self@.transform,
            fractal@.blender == self@.blender,
            fractal@.well_seeded(),
    {
        proof {
            use_type_invariant(&self);
        }
        let seeds = SeedSequence::new(self.seed).take(self.layers.len());
        let stack = copied_layers(&function_template, seeds.as_slice());
        assert forall|k: int| 0 <= k < stack@.len() implies seeded_with(
            #[trigger] stack@[k],
            derived_seed(self.seed, k as nat),
        ) by {
            assert(seeded_copy(function_template, seeds@[k], stack@[k]));
        }
        Fractal { layers: stack, blender: self.blender, seed: self.seed, transform: self.transform }
    }

    /// Like `with_function`, with the default of the new type as the
    /// template.
    pub fn with_function_default<NewF>(self) -> (fractal: Fractal<B, NewF, T>) where
        NewF: Seedable + Clone + Default,

        ensures
            fractal@.layers.len() == self@.layers.len(),
            exists|template: NewF|
                call_ensures(NewF::default, (), template) && forall|k: int|
                    0 <= k < self@.layers.len() ==> seeded_copy(
                        template,
                        derived_seed(self@.seed, k as nat),
                        #[trigger] fractal@.layers[k],
                    ),
            fractal@.seed == self@.seed,
            fractal@.transform == self@.transform,
            fractal@.blender == self@.blender,
            fractal@.well_seeded(),
    {
        self.with_function(NewF::default())
    }

    /// The fractal cut down or grown to `layers` layers.
    ///
    /// The layers that stay are not touched. Each layer that is added is a
    /// copy of the first layer with the seed of its own index: the seed that
    /// it would have had, had the fractal been made with that many layers.
    pub fn with_layers(self, layers: usize) -> (fractal: Self) where F: Clone
        requires
            layers > 0,
        ensures
            fractal@.layers.len() == layers,
            forall|k: int|
                0 <= k < layers && k < self@.layers.len() ==> #[trigger] fractal@.layers[k]
                    == self@.layers[k],
            forall|k: int|
                self@.layers.len() <= k < layers ==> seeded_copy(
                    self@.layers[0],
                    derived_seed(self@.seed, k as nat),
                    #[trigger] fractal@.layers[k],
                ),
            fractal@.seed == self@.seed,
            fractal@.transform == self@.transform,
            fractal@.blender == self@.blender,
            fractal@.well_seeded(),
    {
        proof {
            use_type_invariant(&self);
        }
        let current_num_layers = self.layers.len();
        let mut stack = self.layers;
        if current_num_layers > layers {
            stack.truncate(layers);
        } else if current_num_layers < layers {
            let mut sequence = SeedSequence::new(self.seed);
            // The added layers get the seeds that they would have got had
            // all layers been made at once.
            sequence.skip(current_num_layers);
            let seeds = sequence.take(layers - current_num_layers);
            let mut next = copied_layers(&stack[0], seeds.as_slice());
            assert forall|k: int| 0 <= k < next@.len() implies seeded_copy(
                self@.layers[0],
                derived_seed(self.seed, (current_num_layers + k) as nat),
                #[trigger] next@[k],
            ) by {
                assert(seeded_copy(stack@[0], seeds@[k], next@[k]));
            }
            stack.append(&mut next);
        }
        assert forall|k: int| 0 <= k < stack@.len() implies seeded_with(
            #[trigger] stack@[k],
            derived_seed(self.seed, k as nat),
        ) by {
            if k < current_num_layers {
                assert(stack@[k] == self@.layers[k]);
            } else {
                assert(seeded_copy(self@.layers[0], derived_seed(self.seed, k as nat), stack@[k]));
            }
        }
        Fractal { layers: stack, transform: self.transform, blender: self.blender, seed: self.seed }
    }

    /// The fractal with `transform` between the sample points of successive
    /// layers: the first layer is sampled at the point itself, the fourth
    /// after three applications of the transform.
    pub fn with_transform<NewT>(self, transform: NewT) -> (fractal: Fractal<B, F, NewT>)
        ensures
            fractal@.transform == transform,
            fractal@.layers == self@.layers,
            fractal@.blender == self@.blender,
            fractal@.seed == self@.seed,
            fractal@.well_seeded(),
    {
        proof {
            use_type_invariant(&self);
        }
        Fractal { transform, blender: self.blender, layers: self.layers, seed: self.seed }
    }

    /// The fractal with `blender` to fold the values of its layers.
    pub fn with_layer_blender<NewB>(self, blender: NewB) -> (fractal: Fractal<NewB, F, T>)
        ensures
            fractal@.blender == blender,
            fractal@.layers == self@.layers,
            fractal@.transform == self@.transform,
            fractal@.seed == self@.seed,
            fractal@.well_seeded(),
    {
        proof {
            use_type_invariant(&self);
        }
        Fractal { blender, layers: self.layers, seed: self.seed, transform: self.transform }
    }

    /// The points at which the layers are sampled when the fractal is asked
    /// for `point`: the first layer at `point` itself, each further layer
    /// where the transform takes the point of the layer before it.
    pub fn layer_points<P: Copy>(&self, point: P) -> (points: Vec<P>) where T: PointTransform<P>
        ensures
            points@.len() == self@.layers.len(),
            points@[0] == point,
            forall|k: int|
                0 < k < points@.len() ==> leads_to(
                    self@.transform,
                    points@[k - 1],
                    #[trigger] points@[k],
                ),
    {
        proof {
            use_type_invariant(self);
        }
        let count = self.layers.len();
        let mut points: Vec<P> = Vec::new();
        points.push(point);
        let mut current = point;
        let mut index: usize = 1;
        while index < count
            invariant
                1 <= index <= count,
                count == self.layers@.len(),
                points@.len() == index,
                points@[0] == point,
                current == points@[index - 1],
                forall|k: int|
                    0 < k < index ==> leads_to(self.transform, points@[k - 1], #[trigger] points@[k]),
            decreases count - index,
        {
            let next = self.transform.transform(current);
            assert(leads_to(self.transform, current, next));
            points.push(next);
            current = next;
            index += 1;
        }
        points
    }

    /// The layers, the first one first.
    pub fn layers(&self) -> (layers: &[F])
        ensures
            layers@ == self@.layers,
            self@.well_seeded(),
    {
        proof {
            use_type_invariant(self);
        }
        self.layers.as_slice()
    }

    /// The transform between the sample points of successive layers.
    pub fn transform(&self) -> (transform: &T)
        ensures
            *transform == self@.transform,
    {
        &self.transform
    }

    /// What folds the values of the layers into one.
    pub fn blender(&self) -> (blender: &B)
        ensures
            *blender == self@.blender,
    {
        &self.blender
    }
}

impl<B, F: Seedable, E> Fractal<B, F, UniformScale<E>> {
    /// The fractal with each layer scaled by `lacunarity` against the one
    /// before it.
    pub fn with_lacunarity(self, lacunarity: E) -> (fractal: Self)
        ensures
            fractal@.transform.scale == lacunarity,
            fractal@.layers == self@.layers,
            fractal@.blender == self@.blender,
            fractal@.seed == self@.seed,
            fractal@.well_seeded(),
    {
        self.with_transform(UniformScale::new(lacunarity))
    }
}

impl<B, F: Seedable, T> Seedable for Fractal<B, F, T> {
    /// The fractal under `seed`: layer `k` is given the seed that `seed` and
    /// `k` determine.
    fn with_seed(self, seed: u32) -> (fractal: Self)
        ensures
            fractal@.seed == seed,
            fractal@.layers.len() == self@.layers.len(),
            forall|k: int|
                0 <= k < self@.layers.len() ==> reseeded(
                    self@.layers[k],
                    derived_seed(seed, k as nat),
                    #[trigger] fractal@.layers[k],
                ),
            fractal@.transform == self@.transform,
            fractal@.blender == self@.blender,
            fractal@.well_seeded(),
    {
        proof {
            use_type_invariant(&self);
        }
        let ghost before = self.layers@;
        let seeds = SeedSequence::new(seed).take(self.layers.len());
        let stack = reseeded_layers(self.layers, seeds.as_slice());
        assert forall|k: int| 0 <= k < stack@.len() implies seeded_with(
            #[trigger] stack@[k],
            derived_seed(seed, k as nat),
        ) by {
            assert(reseeded(before[k], seeds@[k], stack@[k]));
        }
        Fractal { layers: stack, blender: self.blender, seed, transform: self.transform }
    }

    fn seed(&self) -> (seed: u32)
        ensures
            seed == self@.seed,
    {
        self.seed
    }
}

} // verus!
