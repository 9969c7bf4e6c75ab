use vstd::prelude::*;

verus! {

/// The mask that selects the block bit of a cell coordinate, for blocks whose
/// side is two to the power `exponent`.
pub open spec fn block_mask(exponent: u64) -> u64 {
    1u64 << exponent
}

/// The number of coordinates in `cells` whose block bit is set.
pub open spec fn marked_cells(cells: Seq<u64>, mask: u64) -> nat
    decreases cells.len(),
{
    if cells.len() == 0 {
        0
    } else {
        marked_cells(cells.drop_last(), mask) + if cells.last() & mask != 0 {
            1nat
        } else {
            0nat
        }
    }
}

/// The value of the board on a cell: -1 where an odd number of coordinates
/// have their block bit set, 1 elsewhere.
pub open spec fn board_value(cells: Seq<u64>, mask: u64) -> int {
    if marked_cells(cells, mask) % 2 == 1 {
        -1
    } else {
        1
    }
}

/// One more coordinate flips the value of a cell where its block bit is set,
/// and keeps it elsewhere.
pub proof fn lemma_board_value_push(cells: Seq<u64>, cell: u64, mask: u64)
    ensures
        board_value(cells.push(cell), mask) == if cell & mask != 0 {
            -board_value(cells, mask)
        } else {
            board_value(cells, mask)
        },
{
    assert(cells.push(cell).drop_last() =~= cells);
}

/// A step along one axis from one block into the next flips the value: two
/// cells that differ in one coordinate, and there in the block bit, have
/// opposite values.
pub proof fn lemma_board_value_alternates(cells: Seq<u64>, axis: int, cell: u64, mask: u64)
    requires
        0 <= axis < cells.len(),
        (cells[axis] & mask != 0) != (cell & mask != 0),
    ensures
        board_value(cells.update(axis, cell), mask) == -board_value(cells, mask),
    decreases cells.len(),
{
    let moved = cells.update(axis, cell);
    if axis == cells.len() - 1 {
        assert(moved.drop_last() =~= cells.drop_last());
    } else {
        assert(moved.drop_last() =~= cells.drop_last().update(axis, cell));
        lemma_board_value_alternates(cells.drop_last(), axis, cell, mask);
    }
}

/// A checkerboard of blocks that alternate between -1 and 1.
///
/// The blocks have side two to the power `size`. The pattern is of little
/// use as noise, but it makes the effect of a pipeline easy to see.
#[derive(Clone, Copy, Debug)]
pub struct Checkerboard {
    // The block mask: two to the power of the size exponent.
    size: u64,
}

impl Checkerboard {
    pub const DEFAULT_SIZE: u64 = 0;

    #[verifier::type_invariant]
    spec fn holds_block_mask(self) -> bool {
        exists|exponent: u64| exponent < 64 && self.size == block_mask(exponent)
    }

    /// The block mask of the board.
    pub closed spec fn mask(&self) -> u64 {
        self.size
    }

    /// A board of blocks with side two to the power `size`.
    pub fn new(size: u64) -> (board: Self)
        requires
            size < 64,
        ensures
            board.mask() == block_mask(size),
    {
        let mask = 1u64 << size;
        assert(mask == block_mask(size));
        Checkerboard { size: mask }
    }

    pub fn with_size(self, size: u64) -> (board: Self)
        requires
            size < 64,
        ensures
            board.mask() == block_mask(size),
    {
        let mask = 1u64 << size;
        assert(mask == block_mask(size));
        Checkerboard { size: mask }
    }

    /// The side of a block, which is the block mask.
    pub fn size(self) -> (side: u64)
        ensures
            side == self.mask(),
    {
        self.size
    }

    /// The value of the board on the cell with the integer coordinates `cells`.
    pub fn get(&self, cells: &[u64]) -> (value: i8)
        ensures
            value == board_value(cells@, self.mask()),
    {
        proof {
            use_type_invariant(self);
        }
        let mask = self.size;
        let ghost exponent: u64 = choose|exponent: u64| exponent < 64 && mask == block_mask(exponent);
        let mut folded: u64 = 0;
        let mut index: usize = 0;
        while index < cells.len()
            invariant
                index <= cells.len(),
                exponent < 64,
                mask == block_mask(exponent),
                folded == if marked_cells(cells@.take(index as int), mask) % 2 == 1 {
                    mask
                } else {
                    0
                },
            decreases cells.len() - index,
        {
            let cell = cells[index];
            proof {
                let before = cells@.take(index as int);
                let after = cells@.take(index + 1);
                assert(after.drop_last() =~= before);
                assert(after.last() == cell);
                assert(cell & (1u64 << exponent) == 0 || cell & (1u64 << exponent) == (1u64
                    << exponent)) by (bit_vector)
                    requires
                        exponent < 64,
                ;
                assert((1u64 << exponent) != 0) by (bit_vector)
                    requires
                        exponent < 64,
                ;
                assert(forall|a: u64, b: u64| #![auto] (a & a) ^ b == a ^ b) by (bit_vector);
                assert(forall|a: u64| #![auto] (0u64 & a) == 0) by (bit_vector);
                assert(forall|a: u64| #![auto] a ^ a == 0) by (bit_vector);
                assert(forall|a: u64| #![auto] a ^ 0 == a && 0 ^ a == a) by (bit_vector);
            }
            folded = (folded & mask) ^ (cell & mask);
            index += 1;
        }
        assert(cells@.take(index as int) =~= cells@);
        assert(mask != 0) by {
            assert((1u64 << exponent) != 0) by (bit_vector)
                requires
                    exponent < 64,
            ;
        }
        if folded > 0 {
            -1
        } else {
            1
        }
    }
}

impl Default for Checkerboard {
    fn default() -> (board: Self)
        ensures
            board.mask() == block_mask(Checkerboard::DEFAULT_SIZE),
    {
        Checkerboard::new(Checkerboard::DEFAULT_SIZE)
    }
}

} // verus!
