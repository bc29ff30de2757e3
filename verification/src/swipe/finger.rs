//! The state of one finger that is down.

use super::direction::classify;
use super::direction::direction_between;
use super::direction::magnitude;
use super::Direction;
use super::Swipe;
use super::Trigger;
use super::SWIPE_ALLOW_MULTIPLE_SWIPES_AT_ONCE;
use super::SWIPE_DIRECTION_CHUNK_DIST;
use super::SWIPE_DIRECTION_COMPLETED_MIN_CHUNK_COUNT;
use crate::geometry::Position;
use vstd::prelude::*;

verus! {

/// What is known of one finger since it touched down or since it last started
/// over.
#[derive(Debug, Copy, Clone, PartialEq, Eq)]
pub struct TrackedFinger {
    /// Chunks travelled in `direction` after the one that established it.
    pub swipe_chunk_count: u16,
    /// The anchor: where the finger was when the last chunk was consumed.
    pub last_pos: Position,
    /// Where the finger is now.
    pub current_pos: Position,
    /// Whether a chunk of this finger's motion had no direction, or another
    /// one than the chunks before it.
    pub invalidated: bool,
    /// The direction the finger travels in, once a chunk has shown one.
    pub direction: Option<Direction>,
}

impl TrackedFinger {
    /// The state of a finger that has just touched down at `start_pos`.
    pub open spec fn fresh(start_pos: Position) -> TrackedFinger {
        TrackedFinger {
            swipe_chunk_count: 0,
            last_pos: start_pos,
            current_pos: start_pos,
            invalidated: false,
            direction: None,
        }
    }

    /// The longer of the finger's horizontal and vertical distance from its
    /// anchor, were it at `pos`.
    pub open spec fn reach(self, pos: Position) -> int {
        let x_dist = magnitude(pos.x - self.last_pos.x);
        let y_dist = magnitude(pos.y - self.last_pos.y);
        if x_dist >= y_dist {
            x_dist
        } else {
            y_dist
        }
    }

    /// Whether a move to `pos` is far enough from the anchor to be classified.
    pub open spec fn crosses_chunk(self, pos: Position) -> bool {
        self.reach(pos) >= SWIPE_DIRECTION_CHUNK_DIST
    }

    /// The direction of the motion from the anchor to `pos`, if it has one.
    pub open spec fn heading(self, pos: Position) -> Option<Direction> {
        classify(pos.x - self.last_pos.x, pos.y - self.last_pos.y)
    }

    /// The chunk count after one more chunk. It stops at the largest value
    /// that the counter can hold.
    pub open spec fn next_chunk_count(self) -> u16 {
        if self.swipe_chunk_count < u16::MAX {
            (self.swipe_chunk_count + 1) as u16
        } else {
            self.swipe_chunk_count
        }
    }

    /// This state with the motion marked as inconsistent.
    pub open spec fn invalidate(self) -> TrackedFinger {
        TrackedFinger { invalidated: true, direction: None, ..self }
    }

    /// The state after the finger has moved to `pos`.
    pub open spec fn updated(self, pos: Position) -> TrackedFinger {
        let moved = TrackedFinger { current_pos: pos, ..self };
        if !self.crosses_chunk(pos) {
            moved
        } else if self.invalidated && !SWIPE_ALLOW_MULTIPLE_SWIPES_AT_ONCE {
            moved
        } else {
            match (self.heading(pos), self.direction) {
                (None, _) => moved.invalidate(),
                (Some(heading), None) => TrackedFinger {
                    last_pos: pos,
                    direction: Some(heading),
                    ..moved
                },
                (Some(heading), Some(expected)) => if heading == expected {
                    TrackedFinger {
                        last_pos: pos,
                        swipe_chunk_count: self.next_chunk_count(),
                        ..moved
                    }
                } else {
                    moved.invalidate()
                },
            }
        }
    }

    /// The state after the finger has visited `moves` one after the other.
    pub open spec fn updated_all(self, moves: Seq<Position>) -> TrackedFinger
        decreases moves.len(),
    {
        if moves.len() == 0 {
            self
        } else {
            self.updated_all(moves.drop_last()).updated(moves.last())
        }
    }

    /// Whether a finger in this state may be reported at all: it travels in
    /// a direction, and its motion was not invalidated, unless invalidated
    /// fingers are allowed to start over.
    pub open spec fn may_fire(self) -> bool {
        self.direction is Some && (SWIPE_ALLOW_MULTIPLE_SWIPES_AT_ONCE || !self.invalidated)
    }

    /// The distance in pixels that the counted chunks stand for.
    pub open spec fn counted_distance(self) -> int {
        SWIPE_DIRECTION_CHUNK_DIST * self.swipe_chunk_count
    }

    /// Whether `swipe` is reported for a finger in this state: when the
    /// finger lifts (`lifted`), or after a move while it stays down.
    pub open spec fn fires(self, swipe: Swipe, lifted: bool) -> bool {
        &&& self.may_fire()
        &&& self.direction == Some(swipe.direction)
        &&& match swipe.trigger {
            Trigger::Completed => lifted && self.swipe_chunk_count
                >= SWIPE_DIRECTION_COMPLETED_MIN_CHUNK_COUNT,
            Trigger::MinDistance(min_dist) => !lifted && min_dist <= self.counted_distance(),
        }
    }

    /// Starts to track a finger that has touched down at `start_pos`.
    pub fn new(start_pos: Position) -> (finger: Self)
        ensures
            finger == Self::fresh(start_pos),
    {
        Self {
            swipe_chunk_count: 0,
            last_pos: start_pos,
            direction: None,
            current_pos: start_pos,
            invalidated: false,
        }
    }

    /// The longer of the horizontal and the vertical distance between the
    /// finger and its anchor.
    pub fn highest_orthogonal_dist(&self) -> (dist: u16)
        ensures
            dist == self.reach(self.current_pos),
    {
        let x_dist: u16 = if self.current_pos.x >= self.last_pos.x {
            self.current_pos.x - self.last_pos.x
        } else {
            self.last_pos.x - self.current_pos.x
        };
        let y_dist: u16 = if self.current_pos.y >= self.last_pos.y {
            self.current_pos.y - self.last_pos.y
        } else {
            self.last_pos.y - self.current_pos.y
        };
        if x_dist >= y_dist {
            x_dist
        } else {
            y_dist
        }
    }

    /// Records that the finger has moved to `current_pos`, and classifies the
    /// motion since the anchor once it is a chunk long.
    pub fn update(&mut self, current_pos: Position)
        ensures
            *final(self) == old(self).updated(current_pos),
    {
        self.current_pos = current_pos;
        if self.highest_orthogonal_dist() < SWIPE_DIRECTION_CHUNK_DIST {
            return ;
        }
        if self.invalidated && !SWIPE_ALLOW_MULTIPLE_SWIPES_AT_ONCE {
            return ;
        }
        match direction_between(self.last_pos, self.current_pos) {
            None => {
                self.invalidated = true;
                self.direction = None;
            },
            Some(current_dir) => {
                match self.direction {
                    Some(expected_dir) => {
                        if expected_dir != current_dir {
                            self.invalidated = true;
                            self.direction = None;
                        } else {
                            self.last_pos = current_pos;
                            if self.swipe_chunk_count < u16::MAX {
                                self.swipe_chunk_count = self.swipe_chunk_count + 1;
                            }
                        }
                    },
                    None => {
                        self.last_pos = self.current_pos;
                        self.direction = Some(current_dir);
                    },
                }
            },
        }
    }

    /// Whether `swipe` is reported for this finger: when it lifts (`lifted`),
    /// or after a move while it stays down.
    pub fn is_fired(&self, swipe: &Swipe, lifted: bool) -> (fired: bool)
        ensures
            fired == self.fires(*swipe, lifted),
    {
        if self.invalidated && !SWIPE_ALLOW_MULTIPLE_SWIPES_AT_ONCE {
            return false;
        }
        match self.direction {
            None => false,
            Some(direction) => {
                if swipe.direction != direction {
                    false
                } else {
                    match swipe.trigger {
                        Trigger::Completed => lifted && self.swipe_chunk_count
                            >= SWIPE_DIRECTION_COMPLETED_MIN_CHUNK_COUNT,
                        Trigger::MinDistance(min_dist) => {
                            let chunk_dist: u32 = SWIPE_DIRECTION_CHUNK_DIST as u32;
                            let chunks: u32 = self.swipe_chunk_count as u32;
                            assert(chunk_dist * chunks <= 25 * 65535) by (nonlinear_arith)
                                requires
                                    chunk_dist == 25,
                                    chunks <= 65535,
                            ;
                            !lifted && min_dist as u32 <= chunk_dist * chunks
                        },
                    }
                }
            },
        }
    }
}

/// Motion that never takes the finger a chunk away from its anchor changes
/// nothing but the finger's position: no chunk is counted, no direction is
/// established, the anchor stays and the finger is not invalidated.
pub proof fn lemma_small_moves_change_nothing(finger: TrackedFinger, moves: Seq<Position>)
    requires
        forall|i: int| 0 <= i < moves.len() ==> !finger.crosses_chunk(#[trigger] moves[i]),
    ensures
        finger.updated_all(moves).swipe_chunk_count == finger.swipe_chunk_count,
        finger.updated_all(moves).direction == finger.direction,
        finger.updated_all(moves).last_pos == finger.last_pos,
        finger.updated_all(moves).invalidated == finger.invalidated,
        finger.updated_all(moves).current_pos == if moves.len() == 0 {
            finger.current_pos
        } else {
            moves.last()
        },
    decreases moves.len(),
{
    if moves.len() > 0 {
        lemma_small_moves_change_nothing(finger, moves.drop_last());
    }
}

/// A finger that has just touched down and never moves a chunk away from
/// where it touched down keeps a chunk count of 0 and has no direction.
pub proof fn lemma_small_moves_keep_fresh(start_pos: Position, moves: Seq<Position>)
    requires
        forall|i: int|
            0 <= i < moves.len() ==> !TrackedFinger::fresh(start_pos).crosses_chunk(
                #[trigger] moves[i],
            ),
    ensures
        TrackedFinger::fresh(start_pos).updated_all(moves).swipe_chunk_count == 0,
        TrackedFinger::fresh(start_pos).updated_all(moves).direction is None,
{
    lemma_small_moves_change_nothing(TrackedFinger::fresh(start_pos), moves);
}

/// Whether `moves` are a straight drag in `direction` that starts at
/// `start`: every move ends at least a chunk from where the move before it
/// ended, or from `start` for the first move, and heads in `direction` from
/// there.
pub open spec fn is_straight_drag(
    start: Position,
    moves: Seq<Position>,
    direction: Direction,
) -> bool {
    forall|i: int|
        0 <= i < moves.len() ==> {
            let from = TrackedFinger::fresh(if i == 0 { start } else { moves[i - 1] });
            &&& from.crosses_chunk(#[trigger] moves[i])
            &&& from.heading(moves[i]) == Some(direction)
        }
}

/// A finger that has just touched down and is dragged straight counts every
/// chunk of the drag but the first, which establishes the direction. Its
/// anchor follows the finger.
pub proof fn lemma_straight_drag_counts_all_but_the_first_chunk(
    start: Position,
    moves: Seq<Position>,
    direction: Direction,
)
    requires
        is_straight_drag(start, moves, direction),
        0 < moves.len() <= u16::MAX,
    ensures
        TrackedFinger::fresh(start).updated_all(moves) == (TrackedFinger {
            swipe_chunk_count: (moves.len() - 1) as u16,
            last_pos: moves.last(),
            current_pos: moves.last(),
            invalidated: false,
            direction: Some(direction),
        }),
    decreases moves.len(),
{
    let before = moves.drop_last();
    if before.len() > 0 {
        assert forall|i: int| 0 <= i < before.len() implies {
            let from = TrackedFinger::fresh(if i == 0 { start } else { before[i - 1] });
            &&& from.crosses_chunk(#[trigger] before[i])
            &&& from.heading(before[i]) == Some(direction)
        } by {
            assert(before[i] == moves[i]);
        }
        lemma_straight_drag_counts_all_but_the_first_chunk(start, before, direction);
        assert(before.last() == moves[moves.len() - 2]);
        assert(TrackedFinger::fresh(moves[moves.len() - 2]).crosses_chunk(moves[moves.len() - 1]));
    } else {
        assert(TrackedFinger::fresh(start).updated_all(before) == TrackedFinger::fresh(start));
        assert(TrackedFinger::fresh(start).crosses_chunk(moves[0]));
    }
}

/// Once a direction is established, a move of at least a chunk in that
/// direction counts one chunk more, keeps the direction and moves the anchor
/// to the finger. (A counter that is full stays as it is.)
pub proof fn lemma_consistent_chunk_is_counted(finger: TrackedFinger, pos: Position)
    requires
        finger.direction is Some,
        finger.crosses_chunk(pos),
        finger.heading(pos) == finger.direction,
        finger.swipe_chunk_count < u16::MAX,
    ensures
        finger.updated(pos).swipe_chunk_count == finger.swipe_chunk_count + 1,
        finger.updated(pos).direction == finger.direction,
        finger.updated(pos).last_pos == pos,
        finger.updated(pos).invalidated == finger.invalidated,
{
}

/// The first classified chunk of a finger without a direction establishes
/// the direction and moves the anchor, and is not counted.
pub proof fn lemma_first_chunk_establishes_direction(finger: TrackedFinger, pos: Position)
    requires
        finger.direction is None,
        finger.crosses_chunk(pos),
        finger.heading(pos) is Some,
    ensures
        finger.updated(pos).direction == finger.heading(pos),
        finger.updated(pos).swipe_chunk_count == finger.swipe_chunk_count,
        finger.updated(pos).last_pos == pos,
        finger.updated(pos).invalidated == finger.invalidated,
{
}

/// A finger with an established direction that moves at least a chunk in
/// another direction, such as left after right, is invalidated and loses its
/// direction. Its anchor and its chunk count stay.
pub proof fn lemma_turn_invalidates(finger: TrackedFinger, pos: Position)
    requires
        finger.direction is Some,
        finger.crosses_chunk(pos),
        finger.heading(pos) is Some,
        finger.heading(pos) != finger.direction,
    ensures
        finger.updated(pos).invalidated,
        finger.updated(pos).direction is None,
        finger.updated(pos).last_pos == finger.last_pos,
        finger.updated(pos).swipe_chunk_count == finger.swipe_chunk_count,
{
}

/// A move that is equally long on both axes never establishes a direction:
/// if it is at least a chunk long it invalidates the finger, and if it is
/// shorter it leaves the direction as it was.
pub proof fn lemma_diagonal_establishes_nothing(finger: TrackedFinger, pos: Position)
    requires
        magnitude(pos.x - finger.last_pos.x) == magnitude(pos.y - finger.last_pos.y),
    ensures
        finger.direction is None ==> finger.updated(pos).direction is None,
        finger.crosses_chunk(pos) ==> finger.updated(pos).direction is None && finger.updated(
            pos,
        ).invalidated,
        !finger.crosses_chunk(pos) ==> finger.updated(pos).direction == finger.direction,
{
}

/// A finger becomes invalidated only by a move of at least a chunk that has
/// no direction or another one than the finger had.
pub proof fn lemma_invalidation_has_a_cause(finger: TrackedFinger, pos: Position)
    requires
        !finger.invalidated,
        finger.updated(pos).invalidated,
    ensures
        finger.crosses_chunk(pos),
        finger.heading(pos) is None || (finger.direction is Some && finger.heading(pos)
            != finger.direction),
        finger.updated(pos).direction is None,
{
}

} // verus!

