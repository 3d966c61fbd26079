use snake_game::grid::{wrap, Position, GRID_HEIGHT, GRID_WIDTH};

#[test]
fn wrap_keeps_coordinates_on_the_axis() {
    assert_eq!(wrap(0, 30), 0);
    assert_eq!(wrap(7, 30), 7);
    assert_eq!(wrap(29, 30), 29);
}

#[test]
fn wrap_past_the_last_cell_gives_the_first() {
    assert_eq!(wrap(30, 30), 0);
    assert_eq!(wrap(20, 20), 0);
    assert_eq!(wrap(61, 30), 1);
}

#[test]
fn wrap_before_the_first_cell_gives_the_last() {
    assert_eq!(wrap(-1, 30), 29);
    assert_eq!(wrap(-1, 20), 19);
    assert_eq!(wrap(-30, 30), 0);
    assert_eq!(wrap(-31, 30), 29);
}

#[test]
fn wrap_is_the_mathematical_modulus() {
    for axis_size in [1i16, 2, 7, 20, 30, 1000, i16::MAX] {
        for coordinate in i16::MIN..=i16::MAX {
            assert_eq!(wrap(coordinate, axis_size), coordinate.rem_euclid(axis_size));
        }
    }
}

#[test]
fn wrap_takes_the_extremes() {
    assert_eq!(wrap(i16::MIN, 30), 22);
    assert_eq!(wrap(i16::MAX, 30), 7);
    assert_eq!(wrap(i16::MIN, i16::MAX), i16::MAX - 1);
}

#[test]
fn the_board_is_thirty_by_twenty() {
    assert_eq!(GRID_WIDTH, 30);
    assert_eq!(GRID_HEIGHT, 20);
}

#[test]
fn new_position_is_folded_onto_the_board() {
    assert_eq!(Position::new(3, 4), Position { x: 3, y: 4 });
    assert_eq!(Position::new(30, 20), Position { x: 0, y: 0 });
    assert_eq!(Position::new(-1, -1), Position { x: 29, y: 19 });
    assert_eq!(Position::new(65, -41), Position { x: 5, y: 19 });
}

#[test]
fn random_position_lies_in_the_given_range() {
    let mut rng = rand::thread_rng();
    for _ in 0..2000 {
        let position = Position::random(&mut rng, GRID_WIDTH, GRID_HEIGHT);
        assert!(0 <= position.x && position.x < GRID_WIDTH);
        assert!(0 <= position.y && position.y < GRID_HEIGHT);
    }
    for _ in 0..200 {
        let position = Position::random(&mut rng, 1, 1);
        assert_eq!(position, Position { x: 0, y: 0 });
    }
}

#[test]
fn random_position_varies() {
    let mut rng = rand::thread_rng();
    let first = Position::random(&mut rng, GRID_WIDTH, GRID_HEIGHT);
    let mut other_column = false;
    let mut other_row = false;
    for _ in 0..2000 {
        let position = Position::random(&mut rng, GRID_WIDTH, GRID_HEIGHT);
        other_column = other_column || position.x != first.x;
        other_row = other_row || position.y != first.y;
    }
    assert!(other_column);
    assert!(other_row);
}
