use noise::permutationtable::corner_of_cell;
use noise::permutationtable::PermutationTable;
use noise::Perlin;
use noise::Seedable;

#[test]
fn perlin_owns_table_of_its_seed() {
    let perlin = Perlin::new(5);
    assert_eq!(perlin.seed(), 5);
    assert_eq!(perlin.perm_table().values(), PermutationTable::new(5).values());
    assert_eq!(perlin.perm_table().values()[..4].to_vec(), vec![137, 127, 15, 55]);
}

#[test]
fn default_perlin_has_default_seed() {
    let perlin = Perlin::default();
    assert_eq!(perlin.seed(), 0);
    assert_eq!(Perlin::DEFAULT_SEED, 0);
    assert_eq!(perlin.perm_table().values()[0], 225);
}

#[test]
fn perlin_with_seed_changes_table() {
    let perlin = Perlin::new(0).with_seed(1);
    assert_eq!(perlin.seed(), 1);
    assert_eq!(perlin.perm_table().values(), PermutationTable::new(1).values());
    let same = perlin.clone().with_seed(1);
    assert_eq!(same.seed(), 1);
    assert_eq!(same.perm_table().values(), perlin.perm_table().values());
}

#[test]
fn corners_of_cell() {
    assert_eq!(corner_of_cell(&[3, -7], 0), vec![3, -7]);
    assert_eq!(corner_of_cell(&[3, -7], 1), vec![4, -7]);
    assert_eq!(corner_of_cell(&[3, -7], 2), vec![3, -6]);
    assert_eq!(corner_of_cell(&[3, -7], 3), vec![4, -6]);
    assert_eq!(corner_of_cell(&[3, -7], 4), vec![3, -7]);
    assert_eq!(corner_of_cell(&[0, 0, 0, 0], 0b1010), vec![0, 1, 0, 1]);
    assert_eq!(corner_of_cell(&[i64::MAX, -1], 3), vec![i64::MIN, 0]);
    assert_eq!(corner_of_cell(&[], 1), Vec::<i64>::new());
}

#[test]
fn corner_hash_is_hash_of_corner() {
    let perlin = Perlin::new(0);
    let table = PermutationTable::new(0);
    assert_eq!(perlin.corner_hash(&[0], 0), 225);
    assert_eq!(perlin.corner_hash(&[0, 1], 3), 205);
    assert_eq!(perlin.corner_hash(&[0, 2], 1), 205);
    for corner in 0..8u32 {
        let point = corner_of_cell(&[12, -3, 255], corner);
        assert_eq!(perlin.corner_hash(&[12, -3, 255], corner), table.hash(&point));
    }
}

#[test]
fn neighbouring_cells_share_corner_hashes() {
    let perlin = Perlin::new(8);
    for corner in [0u32, 2] {
        assert_eq!(
            perlin.corner_hash(&[4, 9], corner | 1),
            perlin.corner_hash(&[5, 9], corner)
        );
    }
    assert_eq!(perlin.corner_hash(&[4, 9], 2), perlin.corner_hash(&[4, 10], 0));
}
