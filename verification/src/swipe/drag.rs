//! What the tracker makes of a whole drag: a finger that touches down, moves
//! on chunk by chunk in one direction, and perhaps lifts.

use super::finger::is_straight_drag;
use super::finger::lemma_straight_drag_counts_all_but_the_first_chunk;
use super::finger::TrackedFinger;
use super::tracker::after_move;
use super::tracker::after_press;
use super::tracker::first_fired;
use super::tracker::lemma_first_fired_is_first;
use super::tracker::move_report;
use super::tracker::release_report;
use super::tracker::swipe_at;
use super::Direction;
use super::Swipe;
use super::Trigger;
use super::SWIPE_DIRECTION_CHUNK_DIST;
use super::SWIPE_DIRECTION_COMPLETED_MIN_CHUNK_COUNT;
use crate::geometry::Position;
use vstd::prelude::*;

verus! {

/// The fingers that are down after the finger `tracking_id` has visited
/// `moves` one after the other.
pub open spec fn after_moves(
    fingers: Map<i32, TrackedFinger>,
    tracking_id: i32,
    moves: Seq<Position>,
    conditions: Seq<Swipe>,
) -> Map<i32, TrackedFinger>
    decreases moves.len(),
{
    if moves.len() == 0 {
        fingers
    } else {
        after_move(
            after_moves(fingers, tracking_id, moves.drop_last(), conditions),
            tracking_id,
            moves.last(),
            conditions,
        )
    }
}

/// Whether `swipe` is a swipe in `direction` with a minimum distance of at
/// most `distance` pixels.
pub open spec fn due_within(swipe: Swipe, direction: Direction, distance: int) -> bool {
    swipe.direction == direction && match swipe.trigger {
        Trigger::MinDistance(min_dist) => min_dist <= distance,
        Trigger::Completed => false,
    }
}

/// Whether `conditions` hold no swipe in `direction` with a minimum distance
/// of at most `distance` pixels.
pub open spec fn none_due_within(
    conditions: Seq<Swipe>,
    direction: Direction,
    distance: int,
) -> bool {
    forall|i: int|
        0 <= i < conditions.len() ==> !due_within(#[trigger] conditions[i], direction, distance)
}

/// The state of a finger that was dragged straight in `direction` over
/// `chunks` chunks, at least one, and is now at `pos`: the first chunk has
/// established the direction and the others are counted.
pub open spec fn dragged(chunks: nat, pos: Position, direction: Direction) -> TrackedFinger
    recommends
        0 < chunks <= u16::MAX,
{
    TrackedFinger {
        swipe_chunk_count: (chunks - 1) as u16,
        last_pos: pos,
        current_pos: pos,
        invalidated: false,
        direction: Some(direction),
    }
}

/// The state of the finger `tracking_id` once it has touched down at `start`
/// and made all but the last of `moves`, during which no minimum distance
/// came due: the last move takes it to the state of a finger that was
/// dragged over all of `moves`.
proof fn lemma_before_the_last_move(
    fingers: Map<i32, TrackedFinger>,
    tracking_id: i32,
    start: Position,
    moves: Seq<Position>,
    direction: Direction,
    conditions: Seq<Swipe>,
)
    requires
        is_straight_drag(start, moves, direction),
        0 < moves.len() <= u16::MAX,
        none_due_within(conditions, direction, SWIPE_DIRECTION_CHUNK_DIST * (moves.len() - 2)),
    ensures
        ({
            let down = after_moves(
                after_press(fingers, tracking_id, start),
                tracking_id,
                moves.drop_last(),
                conditions,
            );
            &&& down.contains_key(tracking_id)
            &&& down == fingers.insert(tracking_id, down[tracking_id])
            &&& down[tracking_id].updated(moves.last()) == dragged(
                moves.len(),
                moves.last(),
                direction,
            )
        }),
    decreases moves.len(),
{
    let pressed = after_press(fingers, tracking_id, start);
    let before = moves.drop_last();
    let down = after_moves(pressed, tracking_id, before, conditions);
    lemma_straight_drag_counts_all_but_the_first_chunk(start, moves, direction);
    if before.len() > 0 {
        assert(is_straight_drag(start, before, direction)) by {
            assert forall|i: int| 0 <= i < before.len() implies {
                let from = TrackedFinger::fresh(if i == 0 { start } else { before[i - 1] });
                &&& from.crosses_chunk(#[trigger] before[i])
                &&& from.heading(before[i]) == Some(direction)
            } by {
                assert(before[i] == moves[i]);
            }
        }
        assert(none_due_within(
            conditions,
            direction,
            SWIPE_DIRECTION_CHUNK_DIST * (before.len() - 2),
        ));
        lemma_before_the_last_move(fingers, tracking_id, start, before, direction, conditions);
        lemma_straight_drag_counts_all_but_the_first_chunk(start, before, direction);
        let earlier = after_moves(pressed, tracking_id, before.drop_last(), conditions);
        let finger = earlier[tracking_id].updated(before.last());
        assert(finger == dragged(before.len(), before.last(), direction));
        assert(first_fired(conditions, finger, false) is None) by {
            lemma_first_fired_is_first(conditions, finger, false);
            assert forall|i: int| 0 <= i < conditions.len() implies !finger.fires(
                #[trigger] conditions[i],
                false,
            ) by {
                assert(!due_within(
                    conditions[i],
                    direction,
                    SWIPE_DIRECTION_CHUNK_DIST * (moves.len() - 2),
                ));
            }
        }
        assert(down == earlier.insert(tracking_id, finger));
        assert(down == fingers.insert(tracking_id, finger));
        assert(finger == TrackedFinger::fresh(start).updated_all(before));
    } else {
        assert(down == pressed);
        assert(down[tracking_id] == TrackedFinger::fresh(start).updated_all(before));
    }
}

/// As long as no swipe is reported, the tracker follows the finger: after a
/// straight drag during which no minimum distance came due, the finger has
/// counted every chunk but the first, and nothing was reported at the last
/// move.
pub proof fn lemma_drag_without_report(
    fingers: Map<i32, TrackedFinger>,
    tracking_id: i32,
    start: Position,
    moves: Seq<Position>,
    direction: Direction,
    conditions: Seq<Swipe>,
)
    requires
        is_straight_drag(start, moves, direction),
        0 < moves.len() <= u16::MAX,
        none_due_within(conditions, direction, SWIPE_DIRECTION_CHUNK_DIST * (moves.len() - 1)),
    ensures
        after_moves(after_press(fingers, tracking_id, start), tracking_id, moves, conditions)
            == fingers.insert(tracking_id, dragged(moves.len(), moves.last(), direction)),
        move_report(
            after_moves(
                after_press(fingers, tracking_id, start),
                tracking_id,
                moves.drop_last(),
                conditions,
            ),
            tracking_id,
            moves.last(),
            conditions,
        ) is None,
{
    let down = after_moves(
        after_press(fingers, tracking_id, start),
        tracking_id,
        moves.drop_last(),
        conditions,
    );
    lemma_before_the_last_move(fingers, tracking_id, start, moves, direction, conditions);
    let finger = dragged(moves.len(), moves.last(), direction);
    assert(first_fired(conditions, finger, false) is None) by {
        lemma_first_fired_is_first(conditions, finger, false);
        assert forall|i: int| 0 <= i < conditions.len() implies !finger.fires(
            #[trigger] conditions[i],
            false,
        ) by {
            assert(!due_within(
                conditions[i],
                direction,
                SWIPE_DIRECTION_CHUNK_DIST * (moves.len() - 1),
            ));
        }
    }
    assert(after_move(down, tracking_id, moves.last(), conditions) == fingers.insert(
        tracking_id,
        finger,
    ));
}

/// A swipe with a minimum distance is reported at the move that brings the
/// counted chunks of a straight drag up to that distance, and not before. The
/// finger is then tracked as if it had just touched down where that move
/// ended, so that the next drag of the same length is reported in the same
/// way.
pub proof fn lemma_drag_reports_at_minimum_distance(
    fingers: Map<i32, TrackedFinger>,
    tracking_id: i32,
    start: Position,
    moves: Seq<Position>,
    direction: Direction,
    conditions: Seq<Swipe>,
    at: int,
)
    requires
        is_straight_drag(start, moves, direction),
        0 < moves.len() <= u16::MAX,
        none_due_within(conditions, direction, SWIPE_DIRECTION_CHUNK_DIST * (moves.len() - 2)),
        0 <= at < conditions.len(),
        due_within(conditions[at], direction, SWIPE_DIRECTION_CHUNK_DIST * (moves.len() - 1)),
    ensures
        ({
            let report = move_report(
                after_moves(
                    after_press(fingers, tracking_id, start),
                    tracking_id,
                    moves.drop_last(),
                    conditions,
                ),
                tracking_id,
                moves.last(),
                conditions,
            );
            &&& report is Some
            &&& 0 <= report->0 <= at
            &&& due_within(
                conditions[report->0],
                direction,
                SWIPE_DIRECTION_CHUNK_DIST * (moves.len() - 1),
            )
        }),
        after_moves(after_press(fingers, tracking_id, start), tracking_id, moves, conditions)
            == after_press(fingers, tracking_id, moves.last()),
{
    let down = after_moves(
        after_press(fingers, tracking_id, start),
        tracking_id,
        moves.drop_last(),
        conditions,
    );
    lemma_before_the_last_move(fingers, tracking_id, start, moves, direction, conditions);
    let finger = dragged(moves.len(), moves.last(), direction);
    assert(finger.fires(conditions[at], false));
    lemma_first_fired_is_first(conditions, finger, false);
    let report = first_fired(conditions, finger, false);
    assert(report is Some && report->0 <= at);
    assert(finger.fires(conditions[report->0], false));
    assert(move_report(down, tracking_id, moves.last(), conditions) == report);
    assert(after_move(down, tracking_id, moves.last(), conditions) == down.insert(
        tracking_id,
        TrackedFinger::fresh(moves.last()),
    ));
    assert(down.insert(tracking_id, TrackedFinger::fresh(moves.last())) =~= fingers.insert(
        tracking_id,
        TrackedFinger::fresh(moves.last()),
    ));
}

/// A finger that lifts after a straight drag of at least three chunks, of
/// which the first establishes the direction and the others are counted, has
/// the completed swipe in its direction reported, if the list holds one and
/// no minimum distance came due on the way.
pub proof fn lemma_straight_swipe_is_completed(
    fingers: Map<i32, TrackedFinger>,
    tracking_id: i32,
    start: Position,
    moves: Seq<Position>,
    direction: Direction,
    conditions: Seq<Swipe>,
    at: int,
)
    requires
        is_straight_drag(start, moves, direction),
        SWIPE_DIRECTION_COMPLETED_MIN_CHUNK_COUNT < moves.len() <= u16::MAX,
        none_due_within(conditions, direction, SWIPE_DIRECTION_CHUNK_DIST * (moves.len() - 1)),
        0 <= at < conditions.len(),
        conditions[at] == (Swipe { direction, trigger: Trigger::Completed }),
    ensures
        swipe_at(
            conditions,
            release_report(
                after_moves(
                    after_press(fingers, tracking_id, start),
                    tracking_id,
                    moves,
                    conditions,
                ),
                tracking_id,
                conditions,
            ),
        ) == Some(Swipe { direction, trigger: Trigger::Completed }),
{
    lemma_drag_without_report(fingers, tracking_id, start, moves, direction, conditions);
    let finger = dragged(moves.len(), moves.last(), direction);
    assert(finger.fires(conditions[at], true));
    lemma_first_fired_is_first(conditions, finger, true);
}

/// A finger that lifts where it touched down, or after a straight drag of one
/// or two chunks, has nothing reported: the first chunk is not counted, so
/// fewer than two are.
pub proof fn lemma_short_swipe_is_not_completed(
    fingers: Map<i32, TrackedFinger>,
    tracking_id: i32,
    start: Position,
    moves: Seq<Position>,
    direction: Direction,
    conditions: Seq<Swipe>,
)
    requires
        is_straight_drag(start, moves, direction),
        moves.len() <= SWIPE_DIRECTION_COMPLETED_MIN_CHUNK_COUNT,
        none_due_within(conditions, direction, SWIPE_DIRECTION_CHUNK_DIST * (moves.len() - 1)),
    ensures
        release_report(
            after_moves(after_press(fingers, tracking_id, start), tracking_id, moves, conditions),
            tracking_id,
            conditions,
        ) is None,
{
    let down = after_moves(after_press(fingers, tracking_id, start), tracking_id, moves, conditions);
    if moves.len() > 0 {
        lemma_drag_without_report(fingers, tracking_id, start, moves, direction, conditions);
    }
    lemma_first_fired_is_first(conditions, down[tracking_id], true);
}

} // verus!
