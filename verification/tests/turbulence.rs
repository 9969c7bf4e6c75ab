use noise::noise_fns::transformers::turbulence::sample_offset;
use noise::noise_fns::transformers::turbulence::Turbulence;
use noise::noise_fns::transformers::turbulence::OFFSET_UNITS;
use noise::Seedable;

#[derive(Clone, Default, Debug, PartialEq)]
struct Leaf {
    seed: u32,
}

impl Seedable for Leaf {
    fn with_seed(self, seed: u32) -> Self {
        Leaf { seed }
    }

    fn seed(&self) -> u32 {
        self.seed
    }
}

type Warp = Turbulence<&'static str, u8, Leaf, f64>;

const FIELD_SEEDS: [u32; 4] = [3421425365, 3819375508, 2803965359, 1877840080];

const LAYER_SEEDS: [[u32; 6]; 4] = [
    [3362624407, 240417797, 3865739652, 1633949151, 3308372815, 1747467192],
    [832313741, 1215457323, 4165333527, 2002274176, 2799265943, 2100395863],
    [3381876098, 2228703426, 283277294, 3353185132, 2494687568, 2866735684],
    [733045357, 4041666949, 1299602336, 3145216338, 461016666, 3705093737],
];

fn warp() -> Warp {
    Turbulence::new("source", 4, 2.5, 1.0, 0.75)
}

fn layer_seeds(warp: &Warp, axis: usize) -> Vec<u32> {
    warp.distorter(axis).source.layers().iter().map(|layer| layer.seed()).collect()
}

#[test]
fn new_turbulence_has_defaults() {
    let warp = warp();
    assert_eq!(warp.source, "source");
    assert_eq!(warp.frequency, 1.0);
    assert_eq!(warp.power, 0.75);
    assert_eq!(warp.roughness, 3);
    assert_eq!(warp.seed(), 0);
    assert_eq!(Warp::DEFAULT_SEED, 0);
    assert_eq!(Warp::DEFAULT_ROUGHNESS, 3);
}

#[test]
fn new_turbulence_seeds_each_field_apart() {
    let warp = warp();
    for axis in 0..4 {
        let field = warp.distorter(axis);
        assert_eq!(field.seed(), FIELD_SEEDS[axis]);
        assert_eq!(field.transform.scale, 1.0);
        assert_eq!(field.source.transform().scale, 2.5);
        assert_eq!(*field.source.blender(), 4);
        assert_eq!(layer_seeds(&warp, axis), LAYER_SEEDS[axis][..3].to_vec());
    }
}

#[test]
fn with_roughness_resizes_every_field() {
    let warp = warp().with_roughness(6);
    assert_eq!(warp.roughness, 6);
    for axis in 0..4 {
        assert_eq!(warp.distorter(axis).seed(), FIELD_SEEDS[axis]);
        assert_eq!(layer_seeds(&warp, axis), LAYER_SEEDS[axis].to_vec());
    }
    let warp = warp.with_roughness(1);
    assert_eq!(warp.roughness, 1);
    for axis in 0..4 {
        assert_eq!(layer_seeds(&warp, axis), LAYER_SEEDS[axis][..1].to_vec());
    }
}

#[test]
fn with_seed_derives_seed_of_each_field() {
    let warp = warp().with_seed(2);
    assert_eq!(warp.seed(), 2);
    let fields = [1292328672u32, 3899683077, 1105383521, 4251381182];
    let layers = [
        [4021578440u32, 4121449083, 2122371907],
        [47750164, 2407963912, 2487438916],
        [1312936587, 3260640669, 3868662945],
        [2170278204, 3252626760, 2926389740],
    ];
    for axis in 0..4 {
        assert_eq!(warp.distorter(axis).seed(), fields[axis]);
        assert_eq!(layer_seeds(&warp, axis), layers[axis].to_vec());
    }
    assert_eq!(warp.roughness, 3);
    assert_eq!(warp.power, 0.75);
}

#[test]
fn with_default_seed_gives_new_turbulence_back() {
    let reseeded = warp().with_seed(2).with_seed(0);
    let fresh = warp();
    for axis in 0..4 {
        assert_eq!(reseeded.distorter(axis).seed(), fresh.distorter(axis).seed());
        assert_eq!(layer_seeds(&reseeded, axis), layer_seeds(&fresh, axis));
    }
}

#[test]
fn with_frequency_rescales_every_field() {
    let warp = warp().with_frequency(4.0);
    assert_eq!(warp.frequency, 4.0);
    for axis in 0..4 {
        assert_eq!(warp.distorter(axis).transform.scale, 4.0);
        assert_eq!(warp.distorter(axis).source.transform().scale, 2.5);
        assert_eq!(layer_seeds(&warp, axis), LAYER_SEEDS[axis][..3].to_vec());
    }
}

#[test]
fn with_power_changes_power_alone() {
    let warp = warp().with_power(0.0);
    assert_eq!(warp.power, 0.0);
    assert_eq!(warp.frequency, 1.0);
    assert_eq!(warp.source, "source");
    for axis in 0..4 {
        assert_eq!(layer_seeds(&warp, axis), LAYER_SEEDS[axis][..3].to_vec());
    }
}

#[test]
fn new_field_takes_given_seed() {
    let field = Warp::new_field(0, &4, 2.5, 1.5);
    assert_eq!(field.seed(), 0);
    assert_eq!(field.transform.scale, 1.5);
    assert_eq!(field.source.transform().scale, 2.5);
    assert_eq!(*field.source.blender(), 4);
    let seeds: Vec<u32> = field.source.layers().iter().map(|layer| layer.seed()).collect();
    assert_eq!(seeds, vec![3421425365, 3819375508, 2803965359]);
}

#[test]
fn reseed_and_resize_field() {
    let field = Warp::new_field(0, &4, 2.5, 1.5);
    let field = Warp::reseed_field(field, 1);
    assert_eq!(field.seed(), 1);
    let field = Warp::resize_field(field, 4);
    let seeds: Vec<u32> = field.source.layers().iter().map(|layer| layer.seed()).collect();
    assert_eq!(seeds, vec![2990447087, 2111005499, 1495820252, 2982852709]);
    assert_eq!(field.transform.scale, 1.5);
    let field = Warp::resize_field(field, 2);
    assert_eq!(field.source.layers().len(), 2);
    assert_eq!(field.seed(), 1);
}

#[test]
fn sample_offsets_are_proper_fractions() {
    assert_eq!(OFFSET_UNITS, 65536);
    let expected = [
        [12414u32, 65124, 31337, 57948],
        [26519, 18128, 60943, 48513],
        [53820, 11213, 44845, 39357],
        [18128, 44845, 12414, 60943],
    ];
    for field in 0..4 {
        for axis in 0..4 {
            assert_eq!(sample_offset(field, axis), expected[field][axis]);
            assert!(0 < sample_offset(field, axis) && sample_offset(field, axis) < OFFSET_UNITS);
        }
    }
}
