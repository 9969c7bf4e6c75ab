use noise::Checkerboard;

#[test]
fn checkerboard_parity() {
    let board = Checkerboard::new(0);
    assert_eq!(board.get(&[0, 0]), 1);
    assert_eq!(board.get(&[1, 0]), -1);
    assert_eq!(board.get(&[1, 1]), 1);
}

#[test]
fn default_board_has_unit_blocks() {
    let board = Checkerboard::default();
    assert_eq!(board.size(), 1);
    assert_eq!(board.get(&[0, 1]), -1);
    assert_eq!(board.get(&[2, 4]), 1);
    assert_eq!(Checkerboard::DEFAULT_SIZE, 0);
}

#[test]
fn size_is_two_to_the_exponent() {
    assert_eq!(Checkerboard::new(0).size(), 1);
    assert_eq!(Checkerboard::new(3).size(), 8);
    assert_eq!(Checkerboard::new(63).size(), 1 << 63);
    assert_eq!(Checkerboard::new(0).with_size(5).size(), 32);
}

#[test]
fn larger_blocks_alternate_at_their_side() {
    let board = Checkerboard::new(2);
    for x in 0..4 {
        assert_eq!(board.get(&[x, 0]), 1);
        assert_eq!(board.get(&[x, 4]), -1);
        assert_eq!(board.get(&[x + 4, 4]), 1);
        assert_eq!(board.get(&[x + 4, 9]), -1);
    }
}

#[test]
fn board_in_three_and_four_dimensions() {
    let board = Checkerboard::new(0);
    assert_eq!(board.get(&[1, 1, 1]), -1);
    assert_eq!(board.get(&[1, 0, 1]), 1);
    assert_eq!(board.get(&[1, 1, 1, 1]), 1);
    assert_eq!(board.get(&[0, 0, 1, 0]), -1);
}

#[test]
fn board_without_coordinates_is_light() {
    assert_eq!(Checkerboard::new(0).get(&[]), 1);
    assert_eq!(Checkerboard::new(0).get(&[3]), -1);
}

#[test]
fn step_into_next_block_flips_value() {
    let board = Checkerboard::new(1);
    let cells = [5u64, 8, 13];
    let moved = [5u64, 10, 13];
    assert_eq!(board.get(&cells), -board.get(&moved));
}
