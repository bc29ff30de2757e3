//! Classification of a displacement as one of the four cardinal directions.

use super::Direction;
use super::SWIPE_DIRECTION_MIN_RATIO_DEN;
use super::SWIPE_DIRECTION_MIN_RATIO_NUM;
use crate::geometry::Position;
use vstd::prelude::*;

verus! {

/// The absolute value of `v`.
pub open spec fn magnitude(v: int) -> int {
    if v < 0 {
        -v
    } else {
        v
    }
}

/// Whether travel of `along` pixels on one axis dominates travel of `across`
/// pixels on the other: it is the larger of the two, and the quotient of
/// `along` and `across` (taken as 1 where it is 0) is above the minimum ratio.
pub open spec fn is_dominant(along: int, across: int) -> bool {
    &&& along > across
    &&& along * SWIPE_DIRECTION_MIN_RATIO_DEN > SWIPE_DIRECTION_MIN_RATIO_NUM * (if across < 1 {
        1
    } else {
        across
    })
}

/// The direction of a displacement of `dx` pixels to the right and `dy`
/// pixels down, if one of the two axes dominates.
pub open spec fn classify(dx: int, dy: int) -> Option<Direction> {
    if is_dominant(magnitude(dx), magnitude(dy)) {
        Some(if dx > 0 { Direction::Right } else { Direction::Left })
    } else if is_dominant(magnitude(dy), magnitude(dx)) {
        Some(if dy > 0 { Direction::Down } else { Direction::Up })
    } else {
        None
    }
}

/// The direction of the motion from `from` to `to`, if it is straight enough.
pub fn direction_between(from: Position, to: Position) -> (direction: Option<Direction>)
    ensures
        direction == classify(to.x - from.x, to.y - from.y),
{
    let x_dist: i32 = to.x as i32 - from.x as i32;
    let y_dist: i32 = to.y as i32 - from.y as i32;
    let x_abs: i32 = if x_dist < 0 { -x_dist } else { x_dist };
    let y_abs: i32 = if y_dist < 0 { -y_dist } else { y_dist };
    let x_floor: i32 = if x_abs < 1 { 1 } else { x_abs };
    let y_floor: i32 = if y_abs < 1 { 1 } else { y_abs };
    let num: i32 = SWIPE_DIRECTION_MIN_RATIO_NUM as i32;
    let den: i32 = SWIPE_DIRECTION_MIN_RATIO_DEN as i32;
    if x_dist > y_abs && x_abs * den > num * y_floor {
        Some(Direction::Right)
    } else if -x_dist > y_abs && x_abs * den > num * y_floor {
        Some(Direction::Left)
    } else if y_dist > x_abs && y_abs * den > num * x_floor {
        Some(Direction::Down)
    } else if -y_dist > x_abs && y_abs * den > num * x_floor {
        Some(Direction::Up)
    } else {
        None
    }
}

/// A displacement that is equally long on both axes has no direction,
/// however long it is.
pub proof fn lemma_diagonal_has_no_direction(dx: int, dy: int)
    requires
        magnitude(dx) == magnitude(dy),
    ensures
        classify(dx, dy) is None,
{
}

/// The direction of a displacement lies on the axis with the longer travel
/// and points the way the finger went on it.
pub proof fn lemma_direction_follows_longer_axis(dx: int, dy: int)
    ensures
        classify(dx, dy) == Some(Direction::Right) ==> dx > 0 && dx > magnitude(dy),
        classify(dx, dy) == Some(Direction::Left) ==> dx < 0 && -dx > magnitude(dy),
        classify(dx, dy) == Some(Direction::Down) ==> dy > 0 && dy > magnitude(dx),
        classify(dx, dy) == Some(Direction::Up) ==> dy < 0 && -dy > magnitude(dx),
{
}

} // verus!
