use noise::noise_fns::fractals::copied_layers;
use noise::noise_fns::fractals::default_layers;
use noise::noise_fns::fractals::reseeded_layers;
use noise::Seedable;

#[derive(Clone, Debug, PartialEq)]
struct Leaf {
    seed: u32,
    tag: u8,
}

impl Default for Leaf {
    fn default() -> Self {
        Leaf { seed: 99, tag: 1 }
    }
}

impl Seedable for Leaf {
    fn with_seed(self, seed: u32) -> Self {
        Leaf { seed, tag: self.tag }
    }

    fn seed(&self) -> u32 {
        self.seed
    }
}

#[test]
fn default_layers_take_given_seeds() {
    let layers: Vec<Leaf> = default_layers(&[4, 8, 15]);
    assert_eq!(
        layers,
        vec![Leaf { seed: 4, tag: 1 }, Leaf { seed: 8, tag: 1 }, Leaf { seed: 15, tag: 1 }]
    );
    let none: Vec<Leaf> = default_layers(&[]);
    assert!(none.is_empty());
}

#[test]
fn copied_layers_take_given_seeds() {
    let template = Leaf { seed: 0, tag: 7 };
    assert_eq!(
        copied_layers(&template, &[16, 23]),
        vec![Leaf { seed: 16, tag: 7 }, Leaf { seed: 23, tag: 7 }]
    );
    assert_eq!(template, Leaf { seed: 0, tag: 7 });
}

#[test]
fn reseeded_layers_keep_order_and_rest() {
    let layers = vec![Leaf { seed: 1, tag: 10 }, Leaf { seed: 2, tag: 20 }, Leaf { seed: 3, tag: 30 }];
    assert_eq!(
        reseeded_layers(layers, &[42, 43, 44]),
        vec![Leaf { seed: 42, tag: 10 }, Leaf { seed: 43, tag: 20 }, Leaf { seed: 44, tag: 30 }]
    );
}
