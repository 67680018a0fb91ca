//! The mutable game state: snake head, body segments, and the bird (food).

use vstd::prelude::*;

use crate::board::{Direction, Position};

verus! {

/// The snake head together with the per-tick bookkeeping the simulation
/// needs: the active direction, the direction buffered from input, the
/// direction and position of the previous tick, the pending-growth flag,
/// and the two counters shown to the player.
#[derive(Clone, Copy, Debug)]
pub struct SnakeHead {
    /// The cell the head stands on.
    pub position: Position,
    /// The direction the head moved in on the last applied tick.
    pub direction: Direction,
    /// The direction buffered from input, applied at the next tick.
    pub new_direction: Direction,
    /// The value `direction` had before the last tick.
    pub last_direction: Direction,
    /// The cell the head stood on before the last tick.
    pub last_position: Position,
    /// Set when the head reached the bird this tick; the body grows by one
    /// segment on the following tick.
    pub just_eating: bool,
    /// Number of ticks applied so far.
    pub moves: i32,
    /// Number of birds eaten so far.
    pub points: i32,
}

/// One body cell of the snake. Segments are kept in a vector ordered from
/// nearest-head (index 0) to tail.
#[derive(Clone, Copy, Debug)]
pub struct SnakeSegment {
    /// The cell the segment stands on.
    pub position: Position,
    /// The direction the snake moved in when it left this cell.
    pub direction: Direction,
    /// The direction the snake moved in when it entered this cell; a segment
    /// whose `direction` differs from its `last_direction` sits on a corner.
    pub last_direction: Direction,
    /// Whether this segment is currently the tail.
    pub is_tail: bool,
}

/// The single bird (food item) on the board.
#[derive(Clone, Copy, Debug)]
pub struct Bird {
    /// The cell the bird stands on.
    pub position: Position,
}

/// The head a fresh game starts with: cell (10, 10), moving down, nothing
/// buffered, no pending growth, both counters at zero.
pub open spec fn initial_snake_head_spec() -> SnakeHead {
    SnakeHead {
        position: Position { x: 10, y: 10 },
        direction: Direction::Down,
        new_direction: Direction::Down,
        last_direction: Direction::Down,
        last_position: Position { x: 10, y: 10 },
        just_eating: false,
        moves: 0,
        points: 0,
    }
}

/// The two body segments a fresh game starts with, stacked above the head;
/// the lower one (index 0) is nearest the head, the upper one is the tail.
pub open spec fn initial_segments_spec() -> Seq<SnakeSegment> {
    seq![
        SnakeSegment {
            position: Position { x: 10, y: 9 },
            direction: Direction::Down,
            last_direction: Direction::Down,
            is_tail: false,
        },
        SnakeSegment {
            position: Position { x: 10, y: 8 },
            direction: Direction::Down,
            last_direction: Direction::Down,
            is_tail: true,
        },
    ]
}

/// The cell the bird starts on.
pub open spec fn initial_bird_spec() -> Bird {
    Bird { position: Position { x: 9, y: 9 } }
}

/// A fresh snake head, as spawned on entering the game.
pub fn initial_snake_head() -> (r: SnakeHead)
    ensures
        r == initial_snake_head_spec(),
{
    SnakeHead {
        position: Position { x: 10, y: 10 },
        direction: Direction::Down,
        new_direction: Direction::Down,
        last_direction: Direction::Down,
        last_position: Position { x: 10, y: 10 },
        just_eating: false,
        moves: 0,
        points: 0,
    }
}

/// The fresh two-segment body, as spawned on entering the game.
pub fn initial_segments() -> (r: Vec<SnakeSegment>)
    ensures
        r@ == initial_segments_spec(),
{
    let mut v: Vec<SnakeSegment> = Vec::new();
    v.push(SnakeSegment {
        position: Position { x: 10, y: 9 },
        direction: Direction::Down,
        last_direction: Direction::Down,
        is_tail: false,
    });
    v.push(SnakeSegment {
        position: Position { x: 10, y: 8 },
        direction: Direction::Down,
        last_direction: Direction::Down,
        is_tail: true,
    });
    proof {
        assert(v@ =~= initial_segments_spec());
    }
    v
}

/// A fresh bird, as spawned on entering the game.
pub fn initial_bird() -> (r: Bird)
    ensures
        r == initial_bird_spec(),
{
    Bird { position: Position { x: 9, y: 9 } }
}

} // verus!
