//! The simulation step: direction buffering, head movement, body shifting,
//! eating, and collision detection. One call of [`step`] advances the game
//! by exactly one tick.

use vstd::prelude::*;
use vstd::pervasive::VecAdditionalExecFns;

use crate::board::{
    BOARD_HEIGHT, BOARD_WIDTH, Direction, Position, in_bounds_spec, opposite_spec, step_spec,
};
use crate::snake::{Bird, SnakeHead, SnakeSegment};

verus! {

/// The direction a tick actually moves in: the buffered direction, unless it
/// is the exact opposite of the current one, which is refused so the snake
/// cannot reverse into itself.
pub open spec fn applied_direction_spec(current: Direction, buffered: Direction) -> Direction {
    if buffered == opposite_spec(current) {
        current
    } else {
        buffered
    }
}

/// The segment that takes the cell the head has just left, phrased over a
/// head whose move has already been applied this tick.
pub open spec fn front_segment_spec(h: SnakeHead) -> SnakeSegment {
    SnakeSegment {
        position: h.last_position,
        direction: h.direction,
        last_direction: h.last_direction,
        is_tail: false,
    }
}

/// `seg` with its tail mark set.
pub open spec fn tailified_spec(seg: SnakeSegment) -> SnakeSegment {
    SnakeSegment { is_tail: true, ..seg }
}

/// The body after one tick: the cell the head left becomes the new front
/// segment. If the snake ate on the previous tick the tail is kept and the
/// body grows by one; otherwise the last segment is dropped and the one
/// before it becomes the tail.
pub open spec fn shifted_segments_spec(
    just_ate: bool,
    front: SnakeSegment,
    segs: Seq<SnakeSegment>,
) -> Seq<SnakeSegment> {
    if just_ate {
        seq![front] + segs
    } else {
        seq![front] + segs.take(segs.len() - 2) + seq![tailified_spec(segs[segs.len() - 2])]
    }
}

/// Whether `p` lies on one of the body segments.
pub open spec fn hits_body_spec(p: Position, segs: Seq<SnakeSegment>) -> bool {
    exists|i: int| 0 <= i < segs.len() && segs[i].position == p
}

/// The terminal condition: the head left the board or landed on a body
/// segment.
pub open spec fn dead_spec(head_pos: Position, segs: Seq<SnakeSegment>) -> bool {
    !in_bounds_spec(head_pos) || hits_body_spec(head_pos, segs)
}

/// Buffer a direction pressed by the player. The press overwrites whatever
/// was buffered before, except that a press exactly opposite to the snake's
/// current direction is ignored.
pub fn handle_movement_input(head: &mut SnakeHead, pressed: Direction)
    ensures
        final(head).new_direction == (if pressed == opposite_spec(old(head).direction) {
            old(head).new_direction
        } else {
            pressed
        }),
        final(head).position == old(head).position,
        final(head).direction == old(head).direction,
        final(head).last_direction == old(head).last_direction,
        final(head).last_position == old(head).last_position,
        final(head).just_eating == old(head).just_eating,
        final(head).moves == old(head).moves,
        final(head).points == old(head).points,
{
    if !(pressed == head.direction.opposite()) {
        head.new_direction = pressed;
    }
}

/// Advance the head by one cell: apply the buffered direction (refusing an
/// exact reversal), remember the cell and direction just left, and count the
/// move. The applied direction is never the opposite of the direction the
/// snake had before the tick.
pub fn move_snake_head(head: &mut SnakeHead)
    requires
        in_bounds_spec(old(head).position),
        old(head).moves < i32::MAX,
    ensures
        final(head).direction == applied_direction_spec(
            old(head).direction,
            old(head).new_direction,
        ),
        final(head).direction != opposite_spec(old(head).direction),
        final(head).position == step_spec(old(head).position, final(head).direction),
        final(head).last_direction == old(head).direction,
        final(head).last_position == old(head).position,
        final(head).new_direction == old(head).new_direction,
        final(head).just_eating == old(head).just_eating,
        final(head).moves == old(head).moves + 1,
        final(head).points == old(head).points,
{
    head.last_direction = head.direction;
    if !(head.new_direction == head.direction.opposite()) {
        head.direction = head.new_direction;
    }
    head.last_position = head.position;
    head.position = head.position.stepped(head.direction);
    head.moves = head.moves + 1;
}

/// Shift the body behind the head: the cell the head just left becomes the
/// front segment. A pending eat from the previous tick keeps the tail, so
/// the body grows by one; otherwise the old tail cell is vacated and the
/// segment before it becomes the tail.
pub fn move_segments(head: &mut SnakeHead, segments: &mut Vec<SnakeSegment>)
    requires
        old(segments).len() >= 2,
        old(segments).len() < usize::MAX,
    ensures
        final(segments)@ == shifted_segments_spec(
            old(head).just_eating,
            front_segment_spec(*old(head)),
            old(segments)@,
        ),
        final(segments).len() == old(segments).len() + (if old(head).just_eating {
            1int
        } else {
            0int
        }),
        final(head).just_eating == false,
        final(head).position == old(head).position,
        final(head).direction == old(head).direction,
        final(head).new_direction == old(head).new_direction,
        final(head).last_direction == old(head).last_direction,
        final(head).last_position == old(head).last_position,
        final(head).moves == old(head).moves,
        final(head).points == old(head).points,
{
    let front = SnakeSegment {
        position: head.last_position,
        direction: head.direction,
        last_direction: head.last_direction,
        is_tail: false,
    };
    if head.just_eating {
        head.just_eating = false;
        segments.insert(0, front);
        proof {
            assert(segments@ =~= shifted_segments_spec(
                true,
                front_segment_spec(*old(head)),
                old(segments)@,
            ));
        }
    } else {
        let _ = segments.pop();
        let tail_index = segments.len() - 1;
        let mut new_tail = segments[tail_index];
        new_tail.is_tail = true;
        segments.set(tail_index, new_tail);
        segments.insert(0, front);
        proof {
            assert(segments@ =~= shifted_segments_spec(
                false,
                front_segment_spec(*old(head)),
                old(segments)@,
            ));
        }
    }
}

/// Check the head against the bird. On a hit: one point, pending growth for
/// the next tick, and the bird moves to `new_bird_position` — exactly once.
/// On a miss nothing changes. The caller supplies the relocation cell, drawn
/// at random by the host over the whole board.
pub fn eat_bird(head: &mut SnakeHead, bird: &mut Bird, new_bird_position: Position)
    requires
        old(head).points < i32::MAX,
    ensures
        old(head).position == old(bird).position ==> final(head).just_eating == true,
        old(head).position == old(bird).position ==> final(head).points == old(head).points + 1,
        old(head).position == old(bird).position ==> final(bird).position == new_bird_position,
        old(head).position != old(bird).position ==> final(head).just_eating == old(
            head,
        ).just_eating,
        old(head).position != old(bird).position ==> final(head).points == old(head).points,
        old(head).position != old(bird).position ==> *final(bird) == *old(bird),
        final(head).position == old(head).position,
        final(head).direction == old(head).direction,
        final(head).new_direction == old(head).new_direction,
        final(head).last_direction == old(head).last_direction,
        final(head).last_position == old(head).last_position,
        final(head).moves == old(head).moves,
{
    if head.position == bird.position {
        head.just_eating = true;
        head.points = head.points + 1;
        bird.position = new_bird_position;
    }
}

/// Advance the whole game by one tick, in the fixed order: move the head,
/// shift the body, check for collision, check for eating. Exactly one head
/// movement and at most one bird relocation take place; growth from an eat
/// becomes visible on the following tick.
///
/// Returns whether this tick ended the game. A dead tick is still applied
/// in full: the state it leaves behind is the terminal one.
pub fn step(
    head: &mut SnakeHead,
    bird: &mut Bird,
    segments: &mut Vec<SnakeSegment>,
    new_bird_position: Position,
) -> (dead: bool)
    requires
        in_bounds_spec(old(head).position),
        old(head).moves < i32::MAX,
        old(head).points < i32::MAX,
        old(segments).len() >= 2,
        old(segments).len() < usize::MAX,
    ensures
        final(head).direction == applied_direction_spec(
            old(head).direction,
            old(head).new_direction,
        ),
        final(head).direction != opposite_spec(old(head).direction),
        final(head).position == step_spec(old(head).position, final(head).direction),
        final(head).last_position == old(head).position,
        final(head).last_direction == old(head).direction,
        final(head).new_direction == old(head).new_direction,
        final(head).moves == old(head).moves + 1,
        final(segments)@ == shifted_segments_spec(
            old(head).just_eating,
            front_segment_spec(*final(head)),
            old(segments)@,
        ),
        final(segments).len() == old(segments).len() + (if old(head).just_eating {
            1int
        } else {
            0int
        }),
        dead == dead_spec(final(head).position, final(segments)@),
        final(head).position == old(bird).position ==> final(head).just_eating == true,
        final(head).position == old(bird).position ==> final(head).points == old(head).points
            + 1,
        final(head).position == old(bird).position ==> final(bird).position
            == new_bird_position,
        final(head).position != old(bird).position ==> final(head).just_eating == false,
        final(head).position != old(bird).position ==> final(head).points == old(head).points,
        final(head).position != old(bird).position ==> *final(bird) == *old(bird),
{
    move_snake_head(head);
    move_segments(head, segments);
    let dead = check_dead(head, segments);
    eat_bird(head, bird, new_bird_position);
    dead
}

/// Whether the game is over: true exactly when the head stands off the
/// board or on a body segment.
pub fn check_dead(head: &SnakeHead, segments: &Vec<SnakeSegment>) -> (dead: bool)
    ensures
        dead == dead_spec(head.position, segments@),
{
    if !head.position.in_bounds() {
        return true;
    }
    let mut i: usize = 0;
    while i < segments.len()
        invariant
            0 <= i <= segments.len(),
            forall|j: int| 0 <= j < i ==> segments@[j].position != head.position,
        decreases segments.len() - i,
    {
        if segments[i].position == head.position {
            return true;
        }
        i = i + 1;
    }
    false
}

/// A buffered direction equal to the exact opposite of the current
/// direction is never applied: whatever is buffered, the direction a tick
/// moves in differs from the opposite of the direction before the tick.
pub proof fn lemma_no_reversal(current: Direction, buffered: Direction)
    ensures
        applied_direction_spec(current, buffered) != opposite_spec(current),
{
}

/// Wall collision: a head cell one step outside the board — `x` at `-1` or
/// at the board width, or `y` at `-1` or at the board height — is terminal,
/// whatever the body looks like.
pub proof fn lemma_wall_collision(head_pos: Position, segs: Seq<SnakeSegment>)
    requires
        head_pos.x == -1 || head_pos.x == BOARD_WIDTH || head_pos.y == -1 || head_pos.y
            == BOARD_HEIGHT,
    ensures
        dead_spec(head_pos, segs),
{
}

/// Self collision: a head cell that lands on a body segment is terminal.
/// The one cell this does not cover is the old tail cell on a tick without
/// pending growth: that cell is vacated by the very same tick, and the
/// snake may follow its own tail through it.
pub proof fn lemma_self_collision(
    just_ate: bool,
    front: SnakeSegment,
    segs: Seq<SnakeSegment>,
    new_head: Position,
    i: int,
)
    requires
        segs.len() >= 2,
        0 <= i < segs.len(),
        just_ate || i < segs.len() - 1,
        segs[i].position == new_head,
    ensures
        dead_spec(new_head, shifted_segments_spec(just_ate, front, segs)),
{
    let shifted = shifted_segments_spec(just_ate, front, segs);
    if just_ate {
        assert(shifted[i + 1].position == new_head);
    } else if i < segs.len() - 2 {
        assert(shifted[i + 1].position == new_head);
    } else {
        assert(shifted[segs.len() - 1].position == new_head);
    }
}

} // verus!
