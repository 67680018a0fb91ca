//! Discrete presentation selectors: which sprite a body segment shows and
//! whether a corner segment is mirrored. The host engine turns these into
//! images and rotations; the choices themselves are plain functions of the
//! segment.

use vstd::prelude::*;

use crate::board::Direction;
use crate::snake::SnakeSegment;

verus! {

/// The sprite a body segment is drawn with.
#[derive(Clone, Copy, PartialEq, Eq, Structural, Debug)]
pub enum SegmentSprite {
    /// The tail end of the snake.
    Tail,
    /// A bend: the snake changed direction on this cell.
    Corner,
    /// A straight piece of the body.
    Straight,
}

/// The sprite for a segment: the tail mark wins, then a direction change
/// makes a corner, and a straight piece remains.
pub open spec fn segment_sprite_spec(seg: SnakeSegment) -> SegmentSprite {
    if seg.is_tail {
        SegmentSprite::Tail
    } else if seg.direction != seg.last_direction {
        SegmentSprite::Corner
    } else {
        SegmentSprite::Straight
    }
}

/// Whether a corner at this segment turns anticlockwise, in which case the
/// corner sprite is mirrored before rotation.
pub open spec fn corner_anticlockwise_spec(seg: SnakeSegment) -> bool {
    match seg.direction {
        Direction::Up => seg.last_direction == Direction::Right,
        Direction::Right => seg.last_direction == Direction::Down,
        Direction::Down => seg.last_direction == Direction::Left,
        Direction::Left => seg.last_direction == Direction::Up,
    }
}

/// Pick the sprite for a body segment.
pub fn segment_sprite(seg: &SnakeSegment) -> (r: SegmentSprite)
    ensures
        r == segment_sprite_spec(*seg),
{
    if seg.is_tail {
        SegmentSprite::Tail
    } else if !(seg.direction == seg.last_direction) {
        SegmentSprite::Corner
    } else {
        SegmentSprite::Straight
    }
}

/// Decide whether the corner sprite for this segment is mirrored.
pub fn corner_anticlockwise(seg: &SnakeSegment) -> (r: bool)
    ensures
        r == corner_anticlockwise_spec(*seg),
{
    match seg.direction {
        Direction::Up => seg.last_direction == Direction::Right,
        Direction::Right => seg.last_direction == Direction::Down,
        Direction::Down => seg.last_direction == Direction::Left,
        Direction::Left => seg.last_direction == Direction::Up,
    }
}

} // verus!
