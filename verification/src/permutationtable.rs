//! The table that lattice noise looks its gradients up in.

use crate::seeds::generator_from_seed;
use crate::seeds::generator_state;
use crate::seeds::seeded_state;
use rand::seq::SliceRandom;
use rand_xorshift::XorShiftRng;
use vstd::prelude::*;

verus! {

/// The number of entries of a table.
pub const TABLE_SIZE: usize = 256;

/// The order in which `SliceRandom::shuffle` leaves `values` when it draws
/// from a generator in state `state`.
pub uninterp spec fn shuffled(values: Seq<u8>, state: Seq<u32>) -> Seq<u8>;

/// `SliceRandom::shuffle`: a sequence of swaps, so what comes out holds what
/// went in, each value as often as before, in an order that the values and
/// the generator's state determine.
#[verifier::external_body]
fn shuffle(values: &mut Vec<u8>, generator: &mut XorShiftRng)
    ensures
        final(values)@ == shuffled(old(values)@, generator_state(*old(generator))),
        final(values)@.to_multiset() == old(values)@.to_multiset(),
{
    values.shuffle(generator)
}

/// The bytes 0 to 255 in rising order.
pub open spec fn identity_table() -> Seq<u8> {
    Seq::new(TABLE_SIZE as nat, |i: int| i as u8)
}

/// `table` holds each byte exactly once.
pub open spec fn is_permutation(table: Seq<u8>) -> bool {
    &&& table.len() == TABLE_SIZE
    &&& table.no_duplicates()
}

/// The table of `seed`: the identity in the order in which the generator of
/// `seed` shuffles it.
pub open spec fn table_of_seed(seed: u32) -> Seq<u8> {
    shuffled(identity_table(), seeded_state(seed as u64))
}

/// The low byte of a lattice coordinate: the coordinate modulo the table
/// size.
pub open spec fn low_byte(coordinate: i64) -> u8 {
    (coordinate as int % 256) as u8
}

/// The entry that a walk through `table` along `coordinates` ends on. The
/// walk starts at the low byte of the first coordinate; each further
/// coordinate leads from an entry to the one whose index is the entry's
/// value combined by exclusive or with the coordinate's low byte.
pub open spec fn walk_index(table: Seq<u8>, coordinates: Seq<i64>) -> u8
    decreases coordinates.len(),
{
    if coordinates.len() <= 1 {
        low_byte(coordinates[0])
    } else {
        table[walk_index(table, coordinates.drop_last()) as int] ^ low_byte(coordinates.last())
    }
}

/// The hash of a lattice point under `table`.
pub open spec fn table_hash(table: Seq<u8>, coordinates: Seq<i64>) -> u8 {
    table[walk_index(table, coordinates) as int]
}

/// The coordinate one step further along its axis. The lattice is periodic,
/// so the step from the last coordinate leads to the first.
pub open spec fn next_coordinate(coordinate: i64) -> i64 {
    if coordinate == i64::MAX {
        i64::MIN
    } else {
        (coordinate + 1) as i64
    }
}

/// Corner `corner` of the lattice cell whose near corner is `cell`: along
/// axis `k` the corner lies one step further than the near corner where bit
/// `k` of `corner` is set.
pub open spec fn cell_corner(cell: Seq<i64>, corner: u32) -> Seq<i64> {
    Seq::new(
        cell.len(),
        |k: int|
            if 0 <= k < 32 && (corner >> (k as u32)) & 1 == 1 {
                next_coordinate(cell[k])
            } else {
                cell[k]
            },
    )
}

/// A seeded permutation of the bytes, from which lattice noise takes one
/// pseudo-random byte for each lattice point.
#[derive(Debug)]
pub struct PermutationTable {
    values: Vec<u8>,
}

impl View for PermutationTable {
    type V = Seq<u8>;

    closed spec fn view(&self) -> Seq<u8> {
        self.values@
    }
}

impl Clone for PermutationTable {
    fn clone(&self) -> (table: Self)
        ensures
            table@ == self@,
    {
        proof {
            use_type_invariant(self);
        }
        let values = self.values.clone();
        assert(values@ =~= self.values@);
        PermutationTable { values }
    }
}

impl PermutationTable {
    #[verifier::type_invariant]
    spec fn holds_permutation(self) -> bool {
        is_permutation(self.values@)
    }

    /// The table of `seed`.
    pub fn new(seed: u32) -> (table: Self)
        ensures
            table@ == table_of_seed(seed),
            is_permutation(table@),
    {
        let mut values: Vec<u8> = Vec::new();
        let mut next: usize = 0;
        while next < TABLE_SIZE
            invariant
                next <= TABLE_SIZE,
                values@.len() == next,
                forall|i: int| 0 <= i < next ==> values@[i] == i as u8,
            decreases TABLE_SIZE - next,
        {
            values.push(next as u8);
            next += 1;
        }
        assert(values@ =~= identity_table());
        let mut generator = generator_from_seed(seed as u64);
        shuffle(&mut values, &mut generator);
        proof {
            lemma_rearranged_identity(values@);
        }
        PermutationTable { values }
    }

    /// The table with the entries `values`, where these are a permutation of
    /// the bytes.
    pub fn from_values(values: Vec<u8>) -> (table: Option<Self>)
        ensures
            table is Some <==> is_permutation(values@),
            table matches Some(made) ==> made@ == values@,
    {
        if values.len() != TABLE_SIZE {
            return None;
        }
        let mut seen: Vec<bool> = Vec::new();
        while seen.len() < TABLE_SIZE
            invariant
                seen@.len() <= TABLE_SIZE,
                forall|byte: int| 0 <= byte < seen@.len() ==> !seen@[byte],
            decreases TABLE_SIZE - seen@.len(),
        {
            seen.push(false);
        }
        let mut index: usize = 0;
        while index < TABLE_SIZE
            invariant
                index <= TABLE_SIZE,
                values@.len() == TABLE_SIZE,
                seen@.len() == TABLE_SIZE,
                forall|byte: int|
                    0 <= byte < TABLE_SIZE ==> (#[trigger] seen@[byte] <==> exists|at: int|
                        0 <= at < index && #[trigger] values@[at] == byte),
                forall|i: int, j: int| 0 <= i < j < index ==> values@[i] != values@[j],
            decreases TABLE_SIZE - index,
        {
            let value = values[index];
            if seen[value as usize] {
                proof {
                    let at = choose|at: int| 0 <= at < index && #[trigger] values@[at] == value;
                    assert(values@[at] == values@[index as int]);
                }
                return None;
            }
            seen.set(value as usize, true);
            proof {
                assert forall|byte: int| 0 <= byte < TABLE_SIZE implies (#[trigger] seen@[byte]
                    <==> exists|at: int| 0 <= at < index + 1 && #[trigger] values@[at] == byte) by {
                    if byte == value {
                        assert(values@[index as int] == byte);
                    } else if seen@[byte] {
                        let at = choose|at: int| 0 <= at < index && #[trigger] values@[at] == byte;
                        assert(0 <= at < index + 1 && values@[at] == byte);
                    }
                }
            }
            index += 1;
        }
        Some(PermutationTable { values })
    }

    /// The entries of the table, in order.
    pub fn values(&self) -> (values: &[u8])
        ensures
            values@ == self@,
            is_permutation(self@),
    {
        proof {
            use_type_invariant(self);
        }
        self.values.as_slice()
    }

    /// The hash of the lattice point with the coordinates `to_hash`.
    pub fn hash(&self, to_hash: &[i64]) -> (hash: u8)
        requires
            to_hash@.len() >= 1,
        ensures
            hash == table_hash(self@, to_hash@),
    {
        proof {
            use_type_invariant(self);
        }
        let mut index: u8 = byte_of(to_hash[0]);
        let mut walked: usize = 1;
        assert(to_hash@.take(1).len() == 1);
        while walked < to_hash.len()
            invariant
                1 <= walked <= to_hash.len(),
                self.values@.len() == TABLE_SIZE,
                index == walk_index(self.values@, to_hash@.take(walked as int)),
            decreases to_hash.len() - walked,
        {
            let low = byte_of(to_hash[walked]);
            proof {
                let before = to_hash@.take(walked as int);
                let after = to_hash@.take(walked + 1);
                assert(after.drop_last() =~= before);
                assert(after.last() == to_hash@[walked as int]);
            }
            index = self.values[index as usize] ^ low;
            walked += 1;
        }
        assert(to_hash@.take(walked as int) =~= to_hash@);
        self.values[index as usize]
    }
}

/// The lattice point of corner `corner` of the cell at `cell`.
pub fn corner_of_cell(cell: &[i64], corner: u32) -> (point: Vec<i64>)
    ensures
        point@ == cell_corner(cell@, corner),
{
    let mut point: Vec<i64> = Vec::new();
    let mut axis: usize = 0;
    while axis < cell.len()
        invariant
            axis <= cell.len(),
            point@.len() == axis,
            forall|k: int| 0 <= k < axis ==> point@[k] == cell_corner(cell@, corner)[k],
        decreases cell.len() - axis,
    {
        let near = cell[axis];
        let far = axis < 32 && (corner >> (axis as u32)) & 1 == 1;
        point.push(
            if far {
                near.wrapping_add(1)
            } else {
                near
            },
        );
        axis += 1;
    }
    assert(point@ =~= cell_corner(cell@, corner));
    point
}

/// The low byte of `coordinate`.
fn byte_of(coordinate: i64) -> (byte: u8)
    ensures
        byte == low_byte(coordinate),
{
    let masked = coordinate & 0xff;
    assert(0 <= masked < 256 && masked == coordinate as int % 256) by (bit_vector)
        requires
            masked == coordinate & 0xff,
    ;
    masked as u8
}

/// The hash has period 256 along every axis: it depends on the low bytes of
/// the coordinates alone.
pub proof fn lemma_hash_periodic(table: Seq<u8>, one: Seq<i64>, other: Seq<i64>)
    requires
        one.len() == other.len(),
        one.len() >= 1,
        forall|k: int| 0 <= k < one.len() ==> low_byte(one[k]) == low_byte(other[k]),
    ensures
        table_hash(table, one) == table_hash(table, other),
{
    lemma_walk_periodic(table, one, other);
}

proof fn lemma_walk_periodic(table: Seq<u8>, one: Seq<i64>, other: Seq<i64>)
    requires
        one.len() == other.len(),
        one.len() >= 1,
        forall|k: int| 0 <= k < one.len() ==> low_byte(one[k]) == low_byte(other[k]),
    ensures
        walk_index(table, one) == walk_index(table, other),
    decreases one.len(),
{
    if one.len() > 1 {
        lemma_walk_periodic(table, one.drop_last(), other.drop_last());
    }
}

/// Cells that lie side by side share corners: a far corner of a cell along
/// axis `axis` is the near corner, along that axis, of the next cell.
pub proof fn lemma_neighbours_share_corners(cell: Seq<i64>, axis: int, corner: u32)
    requires
        0 <= axis < cell.len(),
        axis < 32,
        (corner >> (axis as u32)) & 1 == 0,
    ensures
        cell_corner(cell, corner | (1u32 << (axis as u32))) == cell_corner(
            cell.update(axis, next_coordinate(cell[axis])),
            corner,
        ),
{
    let shift = axis as u32;
    let far = corner | (1u32 << shift);
    let next = cell.update(axis, next_coordinate(cell[axis]));
    assert forall|k: int| 0 <= k < cell.len() implies cell_corner(cell, far)[k] == cell_corner(
        next,
        corner,
    )[k] by {
        if 0 <= k < 32 {
            let other = k as u32;
            assert((far >> shift) & 1 == 1) by (bit_vector)
                requires
                    shift < 32,
                    far == corner | (1u32 << shift),
            ;
            if k != axis {
                assert((far >> other) & 1 == (corner >> other) & 1) by (bit_vector)
                    requires
                        shift < 32,
                        other < 32,
                        other != shift,
                        far == corner | (1u32 << shift),
                ;
            }
        }
    }
    assert(cell_corner(cell, far) =~= cell_corner(next, corner));
}

/// Along the last axis the hash takes each value once in a period: two
/// lattice points that differ in the low byte of the last coordinate only
/// have different hashes.
pub proof fn lemma_hash_separates_last(table: Seq<u8>, walked: Seq<i64>, one: i64, other: i64)
    requires
        is_permutation(table),
        low_byte(one) != low_byte(other),
    ensures
        table_hash(table, walked.push(one)) != table_hash(table, walked.push(other)),
{
    let a = walked.push(one);
    let b = walked.push(other);
    assert(a.drop_last() =~= walked);
    assert(b.drop_last() =~= walked);
    let i = walk_index(table, a);
    let j = walk_index(table, b);
    if walked.len() >= 1 {
        let entry = table[walk_index(table, walked) as int];
        let x = low_byte(one);
        let y = low_byte(other);
        assert(entry ^ x != entry ^ y) by (bit_vector)
            requires
                x != y,
        ;
    }
    assert(i != j);
}

/// A sequence that holds what the identity holds, each value as often, is a
/// permutation of the bytes.
pub proof fn lemma_rearranged_identity(table: Seq<u8>)
    requires
        table.to_multiset() == identity_table().to_multiset(),
    ensures
        is_permutation(table),
{
    let identity = identity_table();
    assert(identity.no_duplicates());
    identity.lemma_multiset_has_no_duplicates();
    table.lemma_multiset_has_no_duplicates_conv();
    table.to_multiset_ensures();
    identity.to_multiset_ensures();
}

} // verus!
