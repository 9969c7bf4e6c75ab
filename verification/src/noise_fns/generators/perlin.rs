use crate::noise_fns::Seedable;
use crate::permutationtable::cell_corner;
use crate::permutationtable::corner_of_cell;
use crate::permutationtable::table_hash;
use crate::permutationtable::table_of_seed;
use crate::permutationtable::PermutationTable;
use vstd::prelude::*;

verus! {

/// Gradient noise on the integer lattice.
///
/// The generator owns the permutation table of its seed. The table gives
/// each lattice point the byte that selects its gradient; what is made of the
/// gradients is arithmetic on the coordinates and stands outside this type.
#[derive(Debug)]
pub struct Perlin {
    seed: u32,
    perm_table: PermutationTable,
}

impl View for Perlin {
    type V = u32;

    /// The seed, which determines the generator.
    closed spec fn view(&self) -> u32 {
        self.seed
    }
}

impl Perlin {
    pub const DEFAULT_SEED: u32 = 0;

    #[verifier::type_invariant]
    spec fn table_follows_seed(self) -> bool {
        self.perm_table@ == table_of_seed(self.seed)
    }

    /// The generator of `seed`.
    pub fn new(seed: u32) -> (perlin: Self)
        ensures
            perlin@ == seed,
    {
        Perlin { seed, perm_table: PermutationTable::new(seed) }
    }

    /// The permutation table of the generator, which is that of its seed.
    pub fn perm_table(&self) -> (table: &PermutationTable)
        ensures
            table@ == table_of_seed(self@),
    {
        proof {
            use_type_invariant(self);
        }
        &self.perm_table
    }

    /// The byte that selects the gradient of corner `corner` of the lattice
    /// cell at `cell`.
    pub fn corner_hash(&self, cell: &[i64], corner: u32) -> (hash: u8)
        requires
            cell@.len() >= 1,
        ensures
            hash == table_hash(table_of_seed(self@), cell_corner(cell@, corner)),
    {
        proof {
            use_type_invariant(self);
        }
        let point = corner_of_cell(cell, corner);
        self.perm_table.hash(point.as_slice())
    }
}

impl Default for Perlin {
    fn default() -> (perlin: Self)
        ensures
            perlin@ == Perlin::DEFAULT_SEED,
    {
        Perlin::new(Perlin::DEFAULT_SEED)
    }
}

impl Clone for Perlin {
    fn clone(&self) -> (perlin: Self)
        ensures
            perlin@ == self@,
    {
        proof {
            use_type_invariant(self);
        }
        Perlin { seed: self.seed, perm_table: self.perm_table.clone() }
    }
}

impl Seedable for Perlin {
    /// The generator of `seed`.
    fn with_seed(self, seed: u32) -> (perlin: Self)
        ensures
            perlin@ == seed,
    {
        // The table of the seed in hand need not be made again.
        if self.seed == seed {
            return self;
        }
        Perlin::new(seed)
    }

    fn seed(&self) -> (seed: u32)
        ensures
            seed == self@,
    {
        self.seed
    }
}

} // verus!
