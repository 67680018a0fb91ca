//! The board: cell coordinates, movement directions, and board bounds.

use vstd::prelude::*;

verus! {

/// Number of cells in a board row.
pub const BOARD_WIDTH: i32 = 20;
/// Number of cells in a board column.
pub const BOARD_HEIGHT: i32 = 20;

/// A cell coordinate on the board, 0-indexed; `x` grows rightward and `y`
/// grows downward. In-play cells satisfy `0 <= x < BOARD_WIDTH` and
/// `0 <= y < BOARD_HEIGHT`; the head may briefly stand one cell outside on
/// the tick that ends the game.
#[derive(Clone, Copy, PartialEq, Eq, Structural, Debug)]
pub struct Position {
    pub x: i32,
    pub y: i32,
}

/// A movement direction of the snake head.
#[derive(Clone, Copy, PartialEq, Eq, Structural, Debug)]
pub enum Direction {
    Up,
    Down,
    Left,
    Right,
}

/// The direction exactly opposite to `d`.
pub open spec fn opposite_spec(d: Direction) -> Direction {
    match d {
        Direction::Up => Direction::Down,
        Direction::Down => Direction::Up,
        Direction::Left => Direction::Right,
        Direction::Right => Direction::Left,
    }
}

/// The cell one step from `p` in direction `d`.
pub open spec fn step_spec(p: Position, d: Direction) -> Position {
    match d {
        Direction::Up => Position { x: p.x, y: (p.y - 1) as i32 },
        Direction::Down => Position { x: p.x, y: (p.y + 1) as i32 },
        Direction::Left => Position { x: (p.x - 1) as i32, y: p.y },
        Direction::Right => Position { x: (p.x + 1) as i32, y: p.y },
    }
}

/// Whether `p` lies on the board.
pub open spec fn in_bounds_spec(p: Position) -> bool {
    0 <= p.x < BOARD_WIDTH && 0 <= p.y < BOARD_HEIGHT
}

impl Direction {
    /// The direction exactly opposite to `self`.
    pub fn opposite(&self) -> (r: Direction)
        ensures
            r == opposite_spec(*self),
    {
        match self {
            Direction::Up => Direction::Down,
            Direction::Down => Direction::Up,
            Direction::Left => Direction::Right,
            Direction::Right => Direction::Left,
        }
    }
}

impl Position {
    /// The cell one step from `self` in direction `d`.
    ///
    /// The bound on the coordinates keeps the step free of overflow; every
    /// position the game produces stays well inside it.
    pub fn stepped(&self, d: Direction) -> (r: Position)
        requires
            -1 <= self.x <= BOARD_WIDTH,
            -1 <= self.y <= BOARD_HEIGHT,
        ensures
            r == step_spec(*self, d),
    {
        match d {
            Direction::Up => Position { x: self.x, y: self.y - 1 },
            Direction::Down => Position { x: self.x, y: self.y + 1 },
            Direction::Left => Position { x: self.x - 1, y: self.y },
            Direction::Right => Position { x: self.x + 1, y: self.y },
        }
    }

    /// Whether `self` lies on the board.
    pub fn in_bounds(&self) -> (r: bool)
        ensures
            r == in_bounds_spec(*self),
    {
        0 <= self.x && self.x < BOARD_WIDTH && 0 <= self.y && self.y < BOARD_HEIGHT
    }
}

} // verus!
