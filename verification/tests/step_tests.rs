//! Tests of the tick simulation: movement, eating, growth, and the two
//! collision kinds.

use snake_sim::board::{Direction, Position};
use snake_sim::logic::{check_dead, eat_bird, move_segments, move_snake_head, step};
use snake_sim::snake::{initial_bird, initial_segments, initial_snake_head, Bird, SnakeHead, SnakeSegment};

fn head_at(x: i32, y: i32, direction: Direction) -> SnakeHead {
    SnakeHead {
        position: Position { x, y },
        direction,
        new_direction: direction,
        last_direction: direction,
        last_position: Position { x, y },
        just_eating: false,
        moves: 0,
        points: 0,
    }
}

fn segment_at(x: i32, y: i32, direction: Direction, is_tail: bool) -> SnakeSegment {
    SnakeSegment { position: Position { x, y }, direction, last_direction: direction, is_tail }
}

#[test]
fn plain_tick_moves_head_one_cell_down() {
    // Head at (10, 10) heading down, bird at (9, 9): one tick with no turn
    // input moves the head to (10, 11); no eat, no death, no growth.
    let mut head = initial_snake_head();
    let mut bird = initial_bird();
    let mut segments = initial_segments();
    let dead = step(&mut head, &mut bird, &mut segments, Position { x: 0, y: 0 });
    assert_eq!(head.position, Position { x: 10, y: 11 });
    assert_eq!(head.points, 0);
    assert!(!head.just_eating);
    assert_eq!(bird.position, Position { x: 9, y: 9 });
    assert_eq!(segments.len(), 2);
    assert!(!dead);
    assert_eq!(head.moves, 1);
}

#[test]
fn tick_onto_bird_eats_and_relocates_it() {
    // Head at (9, 8) heading down, bird at (9, 9): the tick lands on the
    // bird, the score becomes 1 and the bird moves to the supplied cell.
    let mut head = head_at(9, 8, Direction::Down);
    let mut bird = initial_bird();
    let mut segments = initial_segments();
    let dead = step(&mut head, &mut bird, &mut segments, Position { x: 3, y: 4 });
    assert_eq!(head.position, Position { x: 9, y: 9 });
    assert_eq!(head.points, 1);
    assert!(head.just_eating);
    assert_eq!(bird.position, Position { x: 3, y: 4 });
    assert!(!dead);
}

#[test]
fn growth_becomes_visible_on_the_tick_after_eating() {
    let mut head = head_at(9, 8, Direction::Down);
    let mut bird = initial_bird();
    let mut segments = initial_segments();
    let dead = step(&mut head, &mut bird, &mut segments, Position { x: 3, y: 4 });
    assert!(!dead);
    // The eating tick itself leaves the body length unchanged.
    assert_eq!(segments.len(), 2);
    let dead = step(&mut head, &mut bird, &mut segments, Position { x: 5, y: 5 });
    assert!(!dead);
    // The following tick keeps the tail and the body grows by one.
    assert_eq!(segments.len(), 3);
    assert!(!head.just_eating);
}

#[test]
fn score_grows_by_exactly_one_per_eaten_bird() {
    let mut head = head_at(9, 8, Direction::Down);
    let mut bird = initial_bird();
    let mut segments = initial_segments();
    step(&mut head, &mut bird, &mut segments, Position { x: 9, y: 10 });
    assert_eq!(head.points, 1);
    // The relocated bird lies straight ahead: the next tick eats again.
    step(&mut head, &mut bird, &mut segments, Position { x: 0, y: 0 });
    assert_eq!(head.points, 2);
    assert_eq!(bird.position, Position { x: 0, y: 0 });
}

#[test]
fn wall_collision_ends_the_game() {
    // Board width 20, head at (19, 10) moving right: the head becomes
    // (20, 10) and the tick is terminal.
    let mut head = head_at(19, 10, Direction::Right);
    let mut bird = Bird { position: Position { x: 0, y: 0 } };
    let mut segments = initial_segments();
    let dead = step(&mut head, &mut bird, &mut segments, Position { x: 1, y: 1 });
    assert!(dead);
    assert_eq!(head.position, Position { x: 20, y: 10 });
}

#[test]
fn each_wall_is_terminal() {
    for (x, y, direction) in [
        (0, 10, Direction::Left),
        (19, 10, Direction::Right),
        (10, 0, Direction::Up),
        (10, 19, Direction::Down),
    ] {
        let mut head = head_at(x, y, direction);
        let mut bird = Bird { position: Position { x: 5, y: 5 } };
        let mut segments = initial_segments();
        let dead = step(&mut head, &mut bird, &mut segments, Position { x: 1, y: 1 });
        assert!(dead);
    }
}

#[test]
fn self_collision_on_a_tight_loop_ends_the_game() {
    // A snake of four body segments curled so that the cell ahead of the
    // head is segment index 2: the tick must be terminal.
    let mut head = head_at(5, 5, Direction::Up);
    head.new_direction = Direction::Left;
    let mut segments = vec![
        segment_at(5, 6, Direction::Up, false),
        segment_at(4, 6, Direction::Right, false),
        segment_at(4, 5, Direction::Down, false),
        segment_at(3, 5, Direction::Right, true),
    ];
    let mut bird = Bird { position: Position { x: 0, y: 0 } };
    let dead = step(&mut head, &mut bird, &mut segments, Position { x: 1, y: 1 });
    assert_eq!(head.position, Position { x: 4, y: 5 });
    assert!(dead);
}

#[test]
fn following_the_vacated_tail_cell_is_not_terminal() {
    // The old tail cell is given up by the same tick, so moving onto it is
    // allowed on a tick without pending growth.
    let mut head = head_at(5, 5, Direction::Up);
    head.new_direction = Direction::Left;
    let mut segments = vec![
        segment_at(5, 6, Direction::Up, false),
        segment_at(4, 6, Direction::Right, false),
        segment_at(4, 5, Direction::Down, true),
    ];
    let mut bird = Bird { position: Position { x: 0, y: 0 } };
    let dead = step(&mut head, &mut bird, &mut segments, Position { x: 1, y: 1 });
    assert_eq!(head.position, Position { x: 4, y: 5 });
    assert!(!dead);
}

#[test]
fn move_snake_head_applies_the_buffered_direction() {
    let mut head = head_at(10, 10, Direction::Down);
    head.new_direction = Direction::Left;
    move_snake_head(&mut head);
    assert_eq!(head.direction, Direction::Left);
    assert_eq!(head.position, Position { x: 9, y: 10 });
    assert_eq!(head.last_position, Position { x: 10, y: 10 });
    assert_eq!(head.last_direction, Direction::Down);
    assert_eq!(head.moves, 1);
}

#[test]
fn move_snake_head_refuses_an_exact_reversal() {
    let mut head = head_at(10, 10, Direction::Down);
    head.new_direction = Direction::Up;
    move_snake_head(&mut head);
    // The buffered reversal is not applied: the snake keeps going down.
    assert_eq!(head.direction, Direction::Down);
    assert_eq!(head.position, Position { x: 10, y: 11 });
}

#[test]
fn move_segments_shifts_the_body_behind_the_head() {
    let mut head = head_at(10, 10, Direction::Down);
    move_snake_head(&mut head);
    let mut segments = initial_segments();
    move_segments(&mut head, &mut segments);
    assert_eq!(segments.len(), 2);
    // The cell the head left becomes the front segment.
    assert_eq!(segments[0].position, Position { x: 10, y: 10 });
    assert!(!segments[0].is_tail);
    // The old front segment becomes the tail; the old tail cell is vacated.
    assert_eq!(segments[1].position, Position { x: 10, y: 9 });
    assert!(segments[1].is_tail);
}

#[test]
fn move_segments_keeps_the_tail_after_an_eat() {
    let mut head = head_at(10, 10, Direction::Down);
    head.just_eating = true;
    move_snake_head(&mut head);
    let mut segments = initial_segments();
    move_segments(&mut head, &mut segments);
    assert!(!head.just_eating);
    assert_eq!(segments.len(), 3);
    assert_eq!(segments[0].position, Position { x: 10, y: 10 });
    assert_eq!(segments[1].position, Position { x: 10, y: 9 });
    assert_eq!(segments[2].position, Position { x: 10, y: 8 });
    assert!(segments[2].is_tail);
}

#[test]
fn eat_bird_misses_when_cells_differ() {
    let mut head = head_at(4, 4, Direction::Up);
    let mut bird = Bird { position: Position { x: 5, y: 5 } };
    eat_bird(&mut head, &mut bird, Position { x: 7, y: 7 });
    assert_eq!(head.points, 0);
    assert!(!head.just_eating);
    assert_eq!(bird.position, Position { x: 5, y: 5 });
}

#[test]
fn eating_and_dying_can_share_a_tick() {
    // The bird may sit under a body segment (relocation does not avoid the
    // snake): a head landing there scores the point and still dies.
    let mut head = head_at(5, 5, Direction::Up);
    let mut segments = vec![
        segment_at(5, 4, Direction::Up, false),
        segment_at(5, 3, Direction::Up, true),
    ];
    let mut bird = Bird { position: Position { x: 5, y: 4 } };
    let dead = step(&mut head, &mut bird, &mut segments, Position { x: 2, y: 2 });
    assert!(dead);
    assert_eq!(head.points, 1);
    assert_eq!(bird.position, Position { x: 2, y: 2 });
}

#[test]
fn the_dead_tick_is_applied_in_full() {
    let mut head = head_at(0, 10, Direction::Left);
    let mut bird = Bird { position: Position { x: 5, y: 5 } };
    let mut segments = initial_segments();
    let dead = step(&mut head, &mut bird, &mut segments, Position { x: 1, y: 1 });
    assert!(dead);
    // The move that caused death is the last applied one.
    assert_eq!(head.position, Position { x: -1, y: 10 });
    assert_eq!(head.moves, 1);
    assert_eq!(head.last_position, Position { x: 0, y: 10 });
}

#[test]
fn check_dead_sees_walls_and_body() {
    let segments = initial_segments();
    let alive = head_at(10, 10, Direction::Down);
    assert!(!check_dead(&alive, &segments));
    let off_left = head_at(-1, 5, Direction::Left);
    assert!(check_dead(&off_left, &segments));
    let off_bottom = head_at(5, 20, Direction::Down);
    assert!(check_dead(&off_bottom, &segments));
    let on_body = head_at(10, 9, Direction::Up);
    assert!(check_dead(&on_body, &segments));
}
