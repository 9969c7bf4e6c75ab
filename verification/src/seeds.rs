//! Sequences of seeds derived from one seed.
//!
//! A composite noise function gives each of its parts a seed of its own, so
//! that the parts stay decorrelated. The seeds are the successive words of an
//! xorshift generator that is started from the composite's seed, which makes
//! the seed of part `k` a function of the composite's seed and of `k` alone.

use rand::Rng;
use rand::SeedableRng;
use rand_xorshift::XorShiftRng;
use vstd::prelude::*;

verus! {

#[verifier::external_type_specification]
#[verifier::external_body]
pub struct ExXorShiftRng(XorShiftRng);

/// The state of a generator: its four words `x`, `y`, `z`, `w`, in this order.
pub uninterp spec fn generator_state(generator: XorShiftRng) -> Seq<u32>;

/// The state in which `XorShiftRng::seed_from_u64` starts a generator.
pub uninterp spec fn seeded_state(seed: u64) -> Seq<u32>;

/// The state that one step of the xorshift recurrence leads to.
pub uninterp spec fn advanced_state(state: Seq<u32>) -> Seq<u32>;

/// `XorShiftRng::seed_from_u64`: the four words of the generator's state are
/// a function of the seed alone, the same on every run and machine.
#[verifier::external_body]
pub(crate) fn generator_from_seed(seed: u64) -> (generator: XorShiftRng)
    ensures
        generator_state(generator) == seeded_state(seed),
        generator_state(generator).len() == 4,
{
    XorShiftRng::seed_from_u64(seed)
}

/// `Rng::gen` at `u32`, which is `next_u32` of the generator: one step of the
/// recurrence, whose result is the new last word of the state. It cannot
/// fail.
#[verifier::external_body]
fn next_word(generator: &mut XorShiftRng) -> (word: u32)
    ensures
        generator_state(*final(generator)) == advanced_state(generator_state(*old(generator))),
        generator_state(*final(generator)).len() == 4,
        word == generator_state(*final(generator))[3],
    no_unwind
{
    generator.gen()
}

/// The state of the generator started from `seed` once `drawn` words have
/// been taken from it.
pub open spec fn state_after(seed: u64, drawn: nat) -> Seq<u32>
    decreases drawn,
{
    if drawn == 0 {
        seeded_state(seed)
    } else {
        advanced_state(state_after(seed, (drawn - 1) as nat))
    }
}

/// The seed of part `index` of a composite seeded with `seed`.
pub open spec fn derived_seed(seed: u32, index: nat) -> u32 {
    state_after(seed as u64, index + 1)[3]
}

/// Takes one word from a generator that stands `drawn` words into the
/// sequence of `origin`, and counts it.
fn draw(generator: &mut XorShiftRng, drawn: &mut Ghost<nat>, origin: Ghost<u32>) -> (word: u32)
    requires
        generator_state(*old(generator)) == state_after(origin@ as u64, old(drawn)@),
    ensures
        generator_state(*final(generator)) == state_after(origin@ as u64, final(drawn)@),
        final(drawn)@ == old(drawn)@ + 1,
        word == derived_seed(origin@, old(drawn)@),
    no_unwind
{
    let word = next_word(generator);
    proof {
        *drawn = Ghost((drawn@ + 1) as nat);
    }
    word
}

/// The seeds that a composite hands to its parts, in order.
pub struct SeedSequence {
    generator: XorShiftRng,
    origin: Ghost<u32>,
    drawn: Ghost<nat>,
}

impl SeedSequence {
    #[verifier::type_invariant]
    spec fn tracks_generator(self) -> bool {
        generator_state(self.generator) == state_after(self.origin@ as u64, self.drawn@)
    }

    /// The seed that the sequence was started from.
    pub closed spec fn origin(&self) -> u32 {
        self.origin@
    }

    /// How many seeds have been taken so far, which is the index of the next.
    pub closed spec fn position(&self) -> nat {
        self.drawn@
    }

    /// Starts the sequence of `seed` at its first element.
    pub fn new(seed: u32) -> (sequence: Self)
        ensures
            sequence.origin() == seed,
            sequence.position() == 0,
    {
        SeedSequence {
            generator: generator_from_seed(seed as u64),
            origin: Ghost(seed),
            drawn: Ghost(0),
        }
    }

    /// Takes the next seed.
    pub fn next_seed(&mut self) -> (seed: u32)
        ensures
            seed == derived_seed(old(self).origin(), old(self).position()),
            final(self).origin() == old(self).origin(),
            final(self).position() == old(self).position() + 1,
    {
        proof {
            use_type_invariant(&*self);
        }
        draw(&mut self.generator, &mut self.drawn, self.origin)
    }

    /// Takes the next `count` seeds, in order.
    pub fn take(&mut self, count: usize) -> (seeds: Vec<u32>)
        ensures
            seeds@.len() == count,
            forall|k: int|
                0 <= k < count ==> #[trigger] seeds@[k] == derived_seed(
                    old(self).origin(),
                    old(self).position() + k as nat,
                ),
            final(self).origin() == old(self).origin(),
            final(self).position() == old(self).position() + count,
    {
        let mut seeds: Vec<u32> = Vec::new();
        let mut taken: usize = 0;
        while taken < count
            invariant
                taken <= count,
                seeds@.len() == taken,
                forall|k: int|
                    0 <= k < taken ==> #[trigger] seeds@[k] == derived_seed(
                        old(self).origin(),
                        old(self).position() + k as nat,
                    ),
                self.origin() == old(self).origin(),
                self.position() == old(self).position() + taken,
            decreases count - taken,
        {
            let seed = self.next_seed();
            seeds.push(seed);
            taken += 1;
        }
        seeds
    }

    /// Passes over the next `count` seeds.
    pub fn skip(&mut self, count: usize)
        ensures
            final(self).origin() == old(self).origin(),
            final(self).position() == old(self).position() + count,
    {
        let mut passed: usize = 0;
        while passed < count
            invariant
                passed <= count,
                self.origin() == old(self).origin(),
                self.position() == old(self).position() + passed,
            decreases count - passed,
        {
            let _ = self.next_seed();
            passed += 1;
        }
    }
}

} // verus!
