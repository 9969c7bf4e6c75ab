use crate::noise_fns::fractals::Fractal;
use crate::noise_fns::reseeded;
use crate::noise_fns::reseeded_default;
use crate::noise_fns::seeded_copy;
use crate::noise_fns::Seedable;
use crate::seeds::derived_seed;
use crate::seeds::SeedSequence;
use crate::transforms::Transformed;
use crate::transforms::UniformScale;
use vstd::prelude::*;

verus! {

/// A displacement field of a `Turbulence`: a fractal, sampled at the input
/// point scaled by the frequency.
pub type Distorter<Blender, Base, Scalar> = Transformed<
    Fractal<Blender, Base, UniformScale<Scalar>>,
    UniformScale<Scalar>,
>;

/// What the offsets of the sample points are counted in: an offset of `n` is
/// the fraction `n / OFFSET_UNITS` of the lattice spacing.
pub const OFFSET_UNITS: u32 = 65536;

/// The offset, in units, at which field `field` is sampled along axis `axis`.
///
/// A field is not sampled at the input point itself but a fixed offset away
/// from it, so that input points on the integer lattice, where gradient
/// noise is zero, are displaced like any other.
pub open spec fn field_offset(field: int, axis: int) -> int {
    if field == 0 {
        if axis == 0 {
            12414
        } else if axis == 1 {
            65124
        } else if axis == 2 {
            31337
        } else {
            57948
        }
    } else if field == 1 {
        if axis == 0 {
            26519
        } else if axis == 1 {
            18128
        } else if axis == 2 {
            60943
        } else {
            48513
        }
    } else if field == 2 {
        if axis == 0 {
            53820
        } else if axis == 1 {
            11213
        } else if axis == 2 {
            44845
        } else {
            39357
        }
    } else {
        if axis == 0 {
            18128
        } else if axis == 1 {
            44845
        } else if axis == 2 {
            12414
        } else {
            60943
        }
    }
}

/// The offset, in units, at which field `field` is sampled along axis `axis`:
/// a proper fraction of the lattice spacing.
pub fn sample_offset(field: usize, axis: usize) -> (offset: u32)
    requires
        field < 4,
        axis < 4,
    ensures
        offset == field_offset(field as int, axis as int),
        0 < offset < OFFSET_UNITS,
{
    let offsets: [[u32; 4]; 4] = [
        [12414, 65124, 31337, 57948],
        [26519, 18128, 60943, 48513],
        [53820, 11213, 44845, 39357],
        [18128, 44845, 12414, 60943],
    ];
    offsets[field][axis]
}

/// No offset is a whole number of lattice spacings, and along each axis the
/// four fields are sampled at four different offsets.
pub proof fn lemma_offsets_proper_and_distinct(field: int, other: int, axis: int)
    requires
        0 <= field < 4,
        0 <= other < 4,
        0 <= axis < 4,
    ensures
        0 < field_offset(field, axis) < OFFSET_UNITS,
        field != other ==> field_offset(field, axis) != field_offset(other, axis),
{
}

/// A noise function that displaces the input point before it asks its source.
///
/// The displacement along axis `k` comes from field `k` of four fractal
/// fields, multiplied by `power`. Field `k` works from
/// `derived_seed(seed, k)`, and `roughness` is the number of layers of each
/// field.
#[derive(Debug)]
pub struct Turbulence<Source, Blender, Base: Seedable, Scalar> {
    /// Source function that outputs a value.
    pub source: Source,
    /// The scale of the points at which the fields are sampled.
    pub frequency: Scalar,
    /// The strength of the turbulence: how far each point is moved.
    pub power: Scalar,
    /// The roughness of the turbulence. Higher values are rougher.
    pub roughness: usize,
    seed: u32,
    // The displacement fields, one for each of the axes x, y, z and u.
    distorter_x: Distorter<Blender, Base, Scalar>,
    distorter_y: Distorter<Blender, Base, Scalar>,
    distorter_z: Distorter<Blender, Base, Scalar>,
    distorter_u: Distorter<Blender, Base, Scalar>,
}

/// What a turbulence is made of.
pub struct TurbulenceView<Source, Blender, Base: Seedable, Scalar> {
    pub source: Source,
    pub frequency: Scalar,
    pub power: Scalar,
    pub roughness: usize,
    /// The seed that the seeds of the fields derive from.
    pub seed: u32,
    /// The four displacement fields, by axis.
    pub fields: Seq<Distorter<Blender, Base, Scalar>>,
}

impl<Source, B, F: Seedable, S> TurbulenceView<Source, B, F, S> {
    /// Field `k` works from the seed that the turbulence's seed and `k`
    /// determine, and is itself well seeded.
    pub open spec fn well_seeded(self) -> bool {
        &&& self.fields.len() == 4
        &&& forall|k: int|
            0 <= k < 4 ==> {
                &&& (#[trigger] self.fields[k]).source@.seed == derived_seed(self.seed, k as nat)
                &&& self.fields[k].source@.well_seeded()
            }
    }
}

impl<Source, B, F: Seedable, S> View for Turbulence<Source, B, F, S> {
    type V = TurbulenceView<Source, B, F, S>;

    closed spec fn view(&self) -> Self::V {
        TurbulenceView {
            source: self.source,
            frequency: self.frequency,
            power: self.power,
            roughness: self.roughness,
            seed: self.seed,
            fields: seq![self.distorter_x, self.distorter_y, self.distorter_z, self.distorter_u],
        }
    }
}

impl<Source, B, F: Seedable, S> Turbulence<Source, B, F, S> {
    pub const DEFAULT_SEED: u32 = 0;

    pub const DEFAULT_ROUGHNESS: usize = 3;

    /// A field of a new turbulence, under `seed`.
    pub fn new_field(seed: u32, blender: &B, lacunarity: S, frequency: S) -> (field: Distorter<
        B,
        F,
        S,
    >) where F: Default, B: Clone, S: Copy
        ensures
            Self::is_new_field(seed, *blender, lacunarity, frequency, field),
    {
        let fractal: Fractal<B, F, UniformScale<S>> = Fractal::new(
            Self::DEFAULT_ROUGHNESS as u32,
            UniformScale::new(lacunarity),
            blender.clone(),
        );
        let ghost first = fractal@.layers;
        let fractal = fractal.with_seed(seed);
        proof {
            assert forall|j: int| 0 <= j < Self::DEFAULT_ROUGHNESS implies reseeded_default(
                derived_seed(Fractal::<B, F, UniformScale<S>>::DEFAULT_SEED, j as nat),
                derived_seed(seed, j as nat),
                #[trigger] fractal@.layers[j],
            ) by {
                assert(reseeded(first[j], derived_seed(seed, j as nat), fractal@.layers[j]));
            }
        }
        Transformed { source: fractal, transform: UniformScale::new(frequency) }
    }

    /// `field` is a field of a new turbulence, under `seed`: a fractal of
    /// the default roughness in layers, each the default of its type, with
    /// a copy of `blender`, whose layers are `lacunarity` apart in scale.
    pub open spec fn is_new_field(
        seed: u32,
        blender: B,
        lacunarity: S,
        frequency: S,
        field: Distorter<B, F, S>,
    ) -> bool where F: Default, B: Clone {
        &&& field.transform.scale == frequency
        &&& field.source@.seed == seed
        &&& field.source@.well_seeded()
        &&& field.source@.transform.scale == lacunarity
        &&& cloned(blender, field.source@.blender)
        &&& field.source@.layers.len() == Self::DEFAULT_ROUGHNESS
        &&& forall|j: int|
            0 <= j < Self::DEFAULT_ROUGHNESS ==> reseeded_default(
                derived_seed(Fractal::<B, F, UniformScale<S>>::DEFAULT_SEED, j as nat),
                derived_seed(seed, j as nat),
                #[trigger] field.source@.layers[j],
            )
    }

    /// A turbulence around `source`, under the default seed and with the
    /// default roughness.
    pub fn new(source: Source, blender: B, lacunarity: S, frequency: S, power: S) -> (turbulence:
        Self) where F: Default, B: Clone, S: Copy
        ensures
            turbulence@.source == source,
            turbulence@.frequency == frequency,
            turbulence@.power == power,
            turbulence@.roughness == Self::DEFAULT_ROUGHNESS,
            turbulence@.seed == Self::DEFAULT_SEED,
            turbulence@.fields.len() == 4,
            forall|k: int|
                0 <= k < 4 ==> Self::is_new_field(
                    derived_seed(Self::DEFAULT_SEED, k as nat),
                    blender,
                    lacunarity,
                    frequency,
                    #[trigger] turbulence@.fields[k],
                ),
            turbulence@.well_seeded(),
    {
        let seed = Self::DEFAULT_SEED;
        let seeds = SeedSequence::new(seed).take(4);
        let x = Self::new_field(seeds[0], &blender, lacunarity, frequency);
        let y = Self::new_field(seeds[1], &blender, lacunarity, frequency);
        let z = Self::new_field(seeds[2], &blender, lacunarity, frequency);
        let u = Self::new_field(seeds[3], &blender, lacunarity, frequency);
        Turbulence {
            source,
            seed,
            frequency,
            power,
            roughness: Self::DEFAULT_ROUGHNESS,
            distorter_x: x,
            distorter_y: y,
            distorter_z: z,
            distorter_u: u,
        }
    }
    /// The turbulence with its fields sampled at points scaled by
    /// `frequency`.
    pub fn with_frequency(self, frequency: S) -> (turbulence: Self) where S: Copy
        ensures
            turbulence@.frequency == frequency,
            turbulence@.fields.len() == self@.fields.len(),
            forall|k: int|
                0 <= k < self@.fields.len() ==> {
                    &&& (#[trigger] turbulence@.fields[k]).source == self@.fields[k].source
                    &&& turbulence@.fields[k].transform.scale == frequency
                },
            turbulence@.source == self@.source,
            turbulence@.power == self@.power,
            turbulence@.roughness == self@.roughness,
            turbulence@.seed == self@.seed,
    {
        Turbulence {
            distorter_x: Transformed {
                source: self.distorter_x.source,
                transform: UniformScale::new(frequency),
            },
            distorter_y: Transformed {
                source: self.distorter_y.source,
                transform: UniformScale::new(frequency),
            },
            distorter_z: Transformed {
                source: self.distorter_z.source,
                transform: UniformScale::new(frequency),
            },
            distorter_u: Transformed {
                source: self.distorter_u.source,
                transform: UniformScale::new(frequency),
            },
            frequency,
            power: self.power,
            roughness: self.roughness,
            seed: self.seed,
            source: self.source,
        }
    }

    /// The turbulence with displacements multiplied by `power`.
    pub fn with_power(self, power: S) -> (turbulence: Self)
        ensures
            turbulence@.power == power,
            turbulence@.fields == self@.fields,
            turbulence@.source == self@.source,
            turbulence@.frequency == self@.frequency,
            turbulence@.roughness == self@.roughness,
            turbulence@.seed == self@.seed,
    {
        Turbulence {
            power,
            distorter_x: self.distorter_x,
            distorter_y: self.distorter_y,
            distorter_z: self.distorter_z,
            distorter_u: self.distorter_u,
            frequency: self.frequency,
            roughness: self.roughness,
            seed: self.seed,
            source: self.source,
        }
    }

    /// The turbulence with each field cut down or grown to `roughness`
    /// layers, as `Fractal::with_layers` does it.
    pub fn with_roughness(self, roughness: usize) -> (turbulence: Self) where F: Clone
        requires
            roughness > 0,
        ensures
            turbulence@.roughness == roughness,
            turbulence@.fields.len() == self@.fields.len(),
            forall|k: int|
                0 <= k < self@.fields.len() ==> Self::is_resized(
                    self@.fields[k],
                    roughness,
                    #[trigger] turbulence@.fields[k],
                ),
            turbulence@.source == self@.source,
            turbulence@.frequency == self@.frequency,
            turbulence@.power == self@.power,
            turbulence@.seed == self@.seed,
            self@.well_seeded() ==> turbulence@.well_seeded(),
    {
        Turbulence {
            distorter_x: Self::resize_field(self.distorter_x, roughness),
            distorter_y: Self::resize_field(self.distorter_y, roughness),
            distorter_z: Self::resize_field(self.distorter_z, roughness),
            distorter_u: Self::resize_field(self.distorter_u, roughness),
            frequency: self.frequency,
            power: self.power,
            roughness,
            seed: self.seed,
            source: self.source,
        }
    }

    /// The field `field` with its fractal cut down or grown to `layers`
    /// layers.
    pub fn resize_field(field: Distorter<B, F, S>, layers: usize) -> (resized: Distorter<
        B,
        F,
        S,
    >) where F: Clone
        requires
            layers > 0,
        ensures
            Self::is_resized(field, layers, resized),
    {
        Transformed { source: field.source.with_layers(layers), transform: field.transform }
    }

    /// `after` is `before` with its fractal cut down or grown to `layers`
    /// layers: the layers that stay are the same, and each added one is a
    /// copy of the first with the seed of its index.
    pub open spec fn is_resized(
        before: Distorter<B, F, S>,
        layers: usize,
        after: Distorter<B, F, S>,
    ) -> bool where F: Clone {
        &&& after.transform == before.transform
        &&& after.source@.seed == before.source@.seed
        &&& after.source@.transform == before.source@.transform
        &&& after.source@.blender == before.source@.blender
        &&& after.source@.well_seeded()
        &&& after.source@.layers.len() == layers
        &&& forall|j: int|
            0 <= j < layers && j < before.source@.layers.len() ==> #[trigger] after.source@.layers[j]
                == before.source@.layers[j]
        &&& forall|j: int|
            before.source@.layers.len() <= j < layers ==> seeded_copy(
                before.source@.layers[0],
                derived_seed(before.source@.seed, j as nat),
                #[trigger] after.source@.layers[j],
            )
    }

    /// The displacement field of axis `axis`.
    pub fn distorter(&self, axis: usize) -> (field: &Distorter<B, F, S>)
        requires
            axis < 4,
        ensures
            *field == self@.fields[axis as int],
    {
        if axis == 0 {
            &self.distorter_x
        } else if axis == 1 {
            &self.distorter_y
        } else if axis == 2 {
            &self.distorter_z
        } else {
            &self.distorter_u
        }
    }

    /// The field `field` with its fractal put under `seed`.
    pub fn reseed_field(field: Distorter<B, F, S>, seed: u32) -> (reseeded_field: Distorter<
        B,
        F,
        S,
    >)
        ensures
            Self::is_reseeded(field, seed, reseeded_field),
    {
        field.with_seed(seed)
    }

    /// `after` is `before` with its fractal under `seed`: layer `j` of the
    /// fractal was given the seed that `seed` and `j` determine.
    pub open spec fn is_reseeded(
        before: Distorter<B, F, S>,
        seed: u32,
        after: Distorter<B, F, S>,
    ) -> bool {
        &&& after.transform == before.transform
        &&& after.source@.seed == seed
        &&& after.source@.transform == before.source@.transform
        &&& after.source@.blender == before.source@.blender
        &&& after.source@.well_seeded()
        &&& after.source@.layers.len() == before.source@.layers.len()
        &&& forall|j: int|
            0 <= j < before.source@.layers.len() ==> reseeded(
                before.source@.layers[j],
                derived_seed(seed, j as nat),
                #[trigger] after.source@.layers[j],
            )
    }
}

impl<Source, B, F: Seedable, S> Seedable for Turbulence<Source, B, F, S> {
    /// The turbulence under `seed`: field `k` is put under the seed that
    /// `seed` and `k` determine.
    fn with_seed(self, seed: u32) -> (turbulence: Self)
        ensures
            turbulence@.seed == seed,
            turbulence@.fields.len() == self@.fields.len(),
            forall|k: int|
                0 <= k < self@.fields.len() ==> Self::is_reseeded(
                    self@.fields[k],
                    derived_seed(seed, k as nat),
                    #[trigger] turbulence@.fields[k],
                ),
            turbulence@.source == self@.source,
            turbulence@.frequency == self@.frequency,
            turbulence@.power == self@.power,
            turbulence@.roughness == self@.roughness,
            turbulence@.well_seeded(),
    {
        let seeds = SeedSequence::new(seed).take(4);
        let x = Self::reseed_field(self.distorter_x, seeds[0]);
        let y = Self::reseed_field(self.distorter_y, seeds[1]);
        let z = Self::reseed_field(self.distorter_z, seeds[2]);
        let u = Self::reseed_field(self.distorter_u, seeds[3]);
        Turbulence {
            distorter_x: x,
            distorter_y: y,
            distorter_z: z,
            distorter_u: u,
            frequency: self.frequency,
            power: self.power,
            roughness: self.roughness,
            seed,
            source: self.source,
        }
    }

    fn seed(&self) -> (seed: u32)
        ensures
            seed == self@.seed,
    {
        self.seed
    }
}

} // verus!
