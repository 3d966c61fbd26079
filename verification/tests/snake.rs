use snake_game::grid::Position;
use snake_game::snake::{Direction, Snake};

fn at(x: i16, y: i16) -> Position {
    Position { x, y }
}

/// A snake of `length` segments that heads right, with its head at `head`.
fn long_snake(head: Position, length: usize) -> Snake {
    let steps = (length - 1) as i16;
    let mut snake = Snake::new(Position::new(head.x - steps, head.y));
    for _ in 1..length {
        snake.grow();
        snake.update();
    }
    assert_eq!(snake.segments().len(), length);
    assert_eq!(snake.segments()[0], head);
    snake
}

#[test]
fn new_snake_is_one_live_segment_heading_right() {
    let snake = Snake::new(at(4, 9));
    assert_eq!(snake.segments(), &vec![at(4, 9)]);
    assert_eq!(snake.direction(), Direction::Right);
    assert!(snake.is_alive());
}

#[test]
fn update_moves_the_head_one_cell() {
    let mut snake = Snake::new(at(4, 9));
    snake.update();
    assert_eq!(snake.segments(), &vec![at(5, 9)]);
    snake.set_direction(Direction::Down);
    snake.update();
    assert_eq!(snake.segments(), &vec![at(5, 10)]);
    snake.set_direction(Direction::Left);
    snake.update();
    assert_eq!(snake.segments(), &vec![at(4, 10)]);
    snake.set_direction(Direction::Up);
    snake.update();
    assert_eq!(snake.segments(), &vec![at(4, 9)]);
}

#[test]
fn head_wraps_at_the_right_edge() {
    let mut snake = Snake::new(at(29, 3));
    snake.update();
    assert_eq!(snake.segments()[0], at(0, 3));
}

#[test]
fn head_wraps_at_the_left_edge() {
    let mut snake = Snake::new(at(0, 3));
    snake.set_direction(Direction::Up);
    snake.set_direction(Direction::Left);
    snake.update();
    assert_eq!(snake.segments()[0], at(0, 2));
    snake.update();
    assert_eq!(snake.segments()[0], at(29, 2));
}

#[test]
fn head_wraps_at_the_top_edge() {
    let mut snake = Snake::new(at(6, 0));
    snake.set_direction(Direction::Up);
    snake.update();
    assert_eq!(snake.segments()[0], at(6, 19));
}

#[test]
fn head_wraps_at_the_bottom_edge() {
    let mut snake = Snake::new(at(6, 19));
    snake.set_direction(Direction::Down);
    snake.update();
    assert_eq!(snake.segments()[0], at(6, 0));
}

#[test]
fn head_stays_on_the_board_on_a_long_walk() {
    let mut snake = Snake::new(at(0, 0));
    let turns = [Direction::Up, Direction::Left, Direction::Down, Direction::Right];
    for tick in 0..500usize {
        if tick % 7 == 0 {
            snake.set_direction(turns[(tick / 7) % 4]);
        }
        snake.update();
        let head = snake.segments()[0];
        assert!(0 <= head.x && head.x < 30);
        assert!(0 <= head.y && head.y < 20);
    }
}

#[test]
fn set_direction_waits_for_the_tick() {
    let mut snake = Snake::new(at(4, 9));
    snake.set_direction(Direction::Up);
    assert_eq!(snake.direction(), Direction::Right);
    snake.update();
    assert_eq!(snake.direction(), Direction::Up);
}

#[test]
fn reverse_request_is_discarded() {
    let mut snake = Snake::new(at(4, 9));
    snake.set_direction(Direction::Left);
    snake.update();
    assert_eq!(snake.direction(), Direction::Right);
    assert_eq!(snake.segments()[0], at(5, 9));
}

#[test]
fn reverse_request_is_discarded_on_each_axis() {
    let pairs = [
        (Direction::Up, Direction::Down),
        (Direction::Down, Direction::Up),
    ];
    for (heading, reverse) in pairs {
        let mut snake = Snake::new(at(4, 9));
        snake.set_direction(heading);
        snake.update();
        snake.set_direction(reverse);
        snake.update();
        assert_eq!(snake.direction(), heading);
    }
    let mut snake = Snake::new(at(4, 9));
    snake.set_direction(Direction::Up);
    snake.set_direction(Direction::Left);
    snake.set_direction(Direction::Right);
    snake.update();
    snake.update();
    snake.update();
    assert_eq!(snake.direction(), Direction::Left);
}

#[test]
fn same_request_is_discarded_and_leaves_the_queue() {
    let mut snake = Snake::new(at(4, 9));
    snake.set_direction(Direction::Right);
    snake.set_direction(Direction::Up);
    snake.update();
    assert_eq!(snake.direction(), Direction::Right);
    snake.update();
    assert_eq!(snake.direction(), Direction::Up);
}

#[test]
fn one_request_is_taken_up_per_tick() {
    let mut snake = Snake::new(at(4, 9));
    snake.set_direction(Direction::Up);
    snake.set_direction(Direction::Left);
    snake.update();
    assert_eq!(snake.direction(), Direction::Up);
    assert_eq!(snake.segments()[0], at(4, 8));
    snake.update();
    assert_eq!(snake.direction(), Direction::Left);
    assert_eq!(snake.segments()[0], at(3, 8));
    snake.update();
    assert_eq!(snake.direction(), Direction::Left);
}

#[test]
fn a_request_is_held_against_the_heading_of_its_tick() {
    // Down reverses Up, which is the heading by the time Down is looked at.
    let mut snake = Snake::new(at(4, 9));
    snake.set_direction(Direction::Up);
    snake.set_direction(Direction::Down);
    snake.update();
    snake.update();
    assert_eq!(snake.direction(), Direction::Up);
}

#[test]
fn two_grows_and_one_update_add_one_segment() {
    let mut snake = Snake::new(at(4, 9));
    snake.grow();
    snake.grow();
    snake.update();
    assert_eq!(snake.segments().len(), 2);
}

#[test]
fn a_queued_grow_is_spent_on_the_next_tick() {
    let mut snake = Snake::new(at(4, 9));
    snake.grow();
    snake.grow();
    snake.update();
    assert_eq!(snake.segments().len(), 2);
    snake.update();
    assert_eq!(snake.segments().len(), 3);
    snake.update();
    assert_eq!(snake.segments().len(), 3);
}

#[test]
fn one_grow_adds_one_segment_once() {
    let mut snake = Snake::new(at(4, 9));
    snake.grow();
    snake.update();
    assert_eq!(snake.segments().len(), 2);
    snake.update();
    assert_eq!(snake.segments().len(), 2);
}

#[test]
fn update_without_grow_keeps_the_length() {
    let mut snake = Snake::new(at(4, 9));
    snake.update();
    assert_eq!(snake.segments().len(), 1);
}

#[test]
fn the_new_segment_lies_where_the_tail_was() {
    let mut snake = Snake::new(at(4, 9));
    snake.grow();
    snake.update();
    assert_eq!(snake.segments(), &vec![at(5, 9), at(4, 9)]);
    snake.grow();
    snake.update();
    assert_eq!(snake.segments(), &vec![at(6, 9), at(5, 9), at(4, 9)]);
}

#[test]
fn segments_follow_the_head() {
    let mut snake = long_snake(at(10, 10), 4);
    assert_eq!(snake.segments(), &vec![at(10, 10), at(9, 10), at(8, 10), at(7, 10)]);
    snake.set_direction(Direction::Down);
    snake.update();
    assert_eq!(snake.segments(), &vec![at(10, 11), at(10, 10), at(9, 10), at(8, 10)]);
    snake.update();
    assert_eq!(snake.segments(), &vec![at(10, 12), at(10, 11), at(10, 10), at(9, 10)]);
}

#[test]
fn check_collison_is_true_of_the_head_only() {
    let snake = long_snake(at(10, 10), 3);
    assert!(snake.check_collison(&at(10, 10)));
    assert!(!snake.check_collison(&at(9, 10)));
    assert!(!snake.check_collison(&at(8, 10)));
    assert!(!snake.check_collison(&at(11, 10)));
}

#[test]
fn a_straight_snake_does_not_collide() {
    let snake = long_snake(at(10, 10), 6);
    assert!(!snake.check_self_collision());
    assert!(snake.is_alive());
}

#[test]
fn a_snake_of_one_segment_does_not_collide() {
    let snake = Snake::new(at(1, 1));
    assert!(!snake.check_self_collision());
}

#[test]
fn running_into_the_body_kills() {
    let mut snake = long_snake(at(10, 10), 5);
    snake.set_direction(Direction::Down);
    snake.set_direction(Direction::Left);
    snake.set_direction(Direction::Up);
    snake.update();
    assert!(snake.is_alive());
    snake.update();
    assert!(snake.is_alive());
    snake.update();
    assert_eq!(snake.segments()[0], at(9, 10));
    assert_eq!(snake.segments()[4], at(9, 10));
    assert!(snake.check_self_collision());
    assert!(!snake.is_alive());
}

#[test]
fn a_dead_snake_stays_dead() {
    let mut snake = long_snake(at(10, 10), 5);
    snake.set_direction(Direction::Down);
    snake.set_direction(Direction::Left);
    snake.set_direction(Direction::Up);
    snake.update();
    snake.update();
    snake.update();
    assert!(!snake.is_alive());
    for _ in 0..10 {
        snake.update();
        assert!(!snake.is_alive());
    }
    snake.grow();
    snake.set_direction(Direction::Left);
    snake.update();
    assert!(!snake.check_self_collision());
    assert!(!snake.is_alive());
}

#[test]
fn a_snake_of_four_segments_cannot_reach_itself() {
    let mut snake = long_snake(at(10, 10), 4);
    snake.set_direction(Direction::Down);
    snake.set_direction(Direction::Left);
    snake.set_direction(Direction::Up);
    snake.update();
    snake.update();
    snake.update();
    assert!(snake.is_alive());
}

#[test]
fn growing_onto_the_head_kills_on_the_tick_of_the_growth() {
    // The head comes to lie where the tail was, and the new segment is put there.
    let mut snake = long_snake(at(10, 10), 4);
    snake.set_direction(Direction::Down);
    snake.set_direction(Direction::Left);
    snake.set_direction(Direction::Up);
    snake.update();
    snake.update();
    snake.grow();
    snake.update();
    assert_eq!(snake.segments().len(), 5);
    assert!(!snake.is_alive());
}

#[test]
fn a_board_wide_snake_meets_its_tail_across_the_edge() {
    // Thirty segments fill a row; the head steps onto the cell that the tail has left.
    let mut snake = long_snake(at(29, 5), 30);
    snake.update();
    assert!(snake.is_alive());
    // With a growth the tail stays, and the head runs into it.
    snake.grow();
    snake.update();
    assert!(!snake.is_alive());
}

#[test]
fn kill_ends_the_snake() {
    let mut snake = Snake::new(at(4, 9));
    snake.kill();
    assert!(!snake.is_alive());
    assert_eq!(snake.segments(), &vec![at(4, 9)]);
}

#[test]
fn should_change_direction_refuses_same_and_reverse() {
    let snake = Snake::new(at(4, 9));
    assert!(!snake.should_change_direction(&Direction::Right));
    assert!(!snake.should_change_direction(&Direction::Left));
    assert!(snake.should_change_direction(&Direction::Up));
    assert!(snake.should_change_direction(&Direction::Down));
}
