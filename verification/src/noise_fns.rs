use vstd::prelude::*;

pub mod fractals;
pub mod generators;
pub mod modifiers;
pub mod selectors;
pub mod transformers;

verus! {

/// A noise function whose output depends on a seed.
pub trait Seedable: Sized {
    /// Returns the function reconfigured to work from `seed`.
    fn with_seed(self, seed: u32) -> Self;

    /// Reads the seed back.
    fn seed(&self) -> u32;
}

/// `after` is what `before` became when it was given `seed`.
pub open spec fn reseeded<F: Seedable>(before: F, seed: u32, after: F) -> bool {
    call_ensures(F::with_seed, (before, seed), after)
}

/// `function` came out of a call that gave it `seed`.
pub open spec fn seeded_with<F: Seedable>(function: F, seed: u32) -> bool {
    exists|before: F| reseeded(before, seed, function)
}

/// `function` is a copy of `template` that was given `seed`.
pub open spec fn seeded_copy<F: Seedable + Clone>(template: F, seed: u32, function: F) -> bool {
    exists|copy: F| cloned(template, copy) && reseeded(copy, seed, function)
}

/// `function` is the default of its type after it was given `first` and then
/// `seed`.
pub open spec fn reseeded_default<F: Seedable + Default>(first: u32, seed: u32, function: F) -> bool {
    exists|initial: F| seeded_default(first, initial) && reseeded(initial, seed, function)
}

/// `function` is the default of its type after it was given `seed`.
pub open spec fn seeded_default<F: Seedable + Default>(seed: u32, function: F) -> bool {
    exists|initial: F| call_ensures(F::default, (), initial) && reseeded(initial, seed, function)
}

} // verus!
