use retris::geometry::Position;
use retris::swipe::Direction;
use retris::swipe::Swipe;
use retris::swipe::TrackedFinger;
use retris::swipe::Trigger;
use retris::swipe::SWIPE_ALLOW_MULTIPLE_SWIPES_AT_ONCE;
use retris::swipe::SWIPE_DIRECTION_CHUNK_DIST;
use retris::swipe::SWIPE_DIRECTION_COMPLETED_MIN_CHUNK_COUNT;
use retris::swipe::SWIPE_DIRECTION_MIN_RATIO_DEN;
use retris::swipe::SWIPE_DIRECTION_MIN_RATIO_NUM;

fn at(x: u16, y: u16) -> Position {
    Position { x, y }
}

#[test]
fn the_swipe_constants_have_their_values() {
    assert_eq!(SWIPE_DIRECTION_CHUNK_DIST, 25);
    assert_eq!(SWIPE_DIRECTION_COMPLETED_MIN_CHUNK_COUNT, 2);
    assert_eq!(SWIPE_DIRECTION_MIN_RATIO_NUM, 3);
    assert_eq!(SWIPE_DIRECTION_MIN_RATIO_DEN, 2);
    assert!(SWIPE_ALLOW_MULTIPLE_SWIPES_AT_ONCE);
}

#[test]
fn a_new_finger_is_anchored_where_it_touched_down() {
    let finger = TrackedFinger::new(at(100, 200));
    assert_eq!(
        finger,
        TrackedFinger {
            swipe_chunk_count: 0,
            last_pos: at(100, 200),
            current_pos: at(100, 200),
            invalidated: false,
            direction: None,
        }
    );
    assert_eq!(finger.highest_orthogonal_dist(), 0);
}

#[test]
fn the_reach_is_the_longer_of_the_two_distances() {
    let mut finger = TrackedFinger::new(at(100, 200));
    finger.update(at(110, 195));
    assert_eq!(finger.highest_orthogonal_dist(), 10);
    finger.update(at(97, 188));
    assert_eq!(finger.highest_orthogonal_dist(), 12);
    finger.update(at(76, 224));
    assert_eq!(finger.highest_orthogonal_dist(), 24);
}

#[test]
fn moves_below_the_chunk_distance_change_the_position_only() {
    let mut finger = TrackedFinger::new(at(100, 100));
    for pos in [at(124, 100), at(100, 124), at(76, 76), at(124, 124), at(100, 76), at(100, 100)] {
        finger.update(pos);
        assert_eq!(finger.swipe_chunk_count, 0);
        assert_eq!(finger.direction, None);
        assert_eq!(finger.last_pos, at(100, 100));
        assert!(!finger.invalidated);
        assert_eq!(finger.current_pos, pos);
    }
}

#[test]
fn the_first_chunk_establishes_the_direction_and_is_not_counted() {
    let mut finger = TrackedFinger::new(at(100, 100));
    finger.update(at(125, 100));
    assert_eq!(
        finger,
        TrackedFinger {
            swipe_chunk_count: 0,
            last_pos: at(125, 100),
            current_pos: at(125, 100),
            invalidated: false,
            direction: Some(Direction::Right),
        }
    );
}

#[test]
fn further_chunks_in_the_same_direction_are_counted() {
    let mut finger = TrackedFinger::new(at(100, 100));
    finger.update(at(100, 126));
    assert_eq!(finger.direction, Some(Direction::Down));
    assert_eq!(finger.swipe_chunk_count, 0);
    finger.update(at(100, 152));
    assert_eq!(finger.direction, Some(Direction::Down));
    assert_eq!(finger.swipe_chunk_count, 1);
    assert_eq!(finger.last_pos, at(100, 152));
    finger.update(at(103, 190));
    assert_eq!(finger.direction, Some(Direction::Down));
    assert_eq!(finger.swipe_chunk_count, 2);
    assert_eq!(finger.last_pos, at(103, 190));
    assert!(!finger.invalidated);
}

#[test]
fn a_move_below_the_chunk_distance_keeps_direction_and_count() {
    let mut finger = TrackedFinger::new(at(100, 100));
    finger.update(at(100, 130));
    finger.update(at(100, 160));
    let before = finger;
    finger.update(at(100, 184));
    assert_eq!(finger, TrackedFinger { current_pos: at(100, 184), ..before });
}

#[test]
fn a_reversal_invalidates_the_finger() {
    let mut finger = TrackedFinger::new(at(200, 100));
    finger.update(at(225, 100));
    finger.update(at(250, 100));
    assert_eq!(finger.direction, Some(Direction::Right));
    assert_eq!(finger.swipe_chunk_count, 1);
    finger.update(at(225, 100));
    assert_eq!(
        finger,
        TrackedFinger {
            swipe_chunk_count: 1,
            last_pos: at(250, 100),
            current_pos: at(225, 100),
            invalidated: true,
            direction: None,
        }
    );
}

#[test]
fn a_turn_invalidates_the_finger() {
    let mut finger = TrackedFinger::new(at(200, 200));
    finger.update(at(200, 170));
    assert_eq!(finger.direction, Some(Direction::Up));
    finger.update(at(230, 170));
    assert!(finger.invalidated);
    assert_eq!(finger.direction, None);
    assert_eq!(finger.last_pos, at(200, 170));
}

#[test]
fn a_diagonal_chunk_invalidates_the_finger() {
    let mut finger = TrackedFinger::new(at(100, 100));
    finger.update(at(125, 125));
    assert!(finger.invalidated);
    assert_eq!(finger.direction, None);
    assert_eq!(finger.swipe_chunk_count, 0);
    assert_eq!(finger.last_pos, at(100, 100));

    let mut finger = TrackedFinger::new(at(500, 500));
    finger.update(at(500, 540));
    finger.update(at(460, 500));
    assert!(finger.invalidated);
    assert_eq!(finger.direction, None);
}

#[test]
fn a_short_diagonal_move_establishes_nothing() {
    let mut finger = TrackedFinger::new(at(100, 100));
    finger.update(at(124, 124));
    assert!(!finger.invalidated);
    assert_eq!(finger.direction, None);
}

#[test]
fn an_invalidated_finger_can_start_over_from_its_anchor() {
    let mut finger = TrackedFinger::new(at(100, 100));
    finger.update(at(130, 130));
    assert!(finger.invalidated);
    finger.update(at(140, 100));
    assert_eq!(
        finger,
        TrackedFinger {
            swipe_chunk_count: 0,
            last_pos: at(140, 100),
            current_pos: at(140, 100),
            invalidated: true,
            direction: Some(Direction::Right),
        }
    );
    finger.update(at(170, 100));
    assert_eq!(finger.swipe_chunk_count, 1);
}

#[test]
fn a_full_counter_stays_full() {
    let mut finger = TrackedFinger {
        swipe_chunk_count: u16::MAX - 1,
        last_pos: at(100, 100),
        current_pos: at(100, 100),
        invalidated: false,
        direction: Some(Direction::Right),
    };
    finger.update(at(125, 100));
    assert_eq!(finger.swipe_chunk_count, u16::MAX);
    finger.update(at(150, 100));
    assert_eq!(finger.swipe_chunk_count, u16::MAX);
    assert_eq!(finger.last_pos, at(150, 100));
    assert_eq!(finger.direction, Some(Direction::Right));
}

fn travelling(direction: Direction, chunks: u16) -> TrackedFinger {
    TrackedFinger {
        swipe_chunk_count: chunks,
        last_pos: at(300, 300),
        current_pos: at(300, 300),
        invalidated: false,
        direction: Some(direction),
    }
}

#[test]
fn a_minimum_distance_is_due_once_the_counted_chunks_reach_it() {
    let swipe = Swipe { direction: Direction::Left, trigger: Trigger::MinDistance(50) };
    assert!(!travelling(Direction::Left, 0).is_fired(&swipe, false));
    assert!(!travelling(Direction::Left, 1).is_fired(&swipe, false));
    assert!(travelling(Direction::Left, 2).is_fired(&swipe, false));
    assert!(travelling(Direction::Left, 3).is_fired(&swipe, false));
    let swipe = Swipe { direction: Direction::Left, trigger: Trigger::MinDistance(51) };
    assert!(!travelling(Direction::Left, 2).is_fired(&swipe, false));
    assert!(travelling(Direction::Left, 3).is_fired(&swipe, false));
    let swipe = Swipe { direction: Direction::Left, trigger: Trigger::MinDistance(0) };
    assert!(travelling(Direction::Left, 0).is_fired(&swipe, false));
}

#[test]
fn a_minimum_distance_is_held_against_the_exact_product() {
    // 25 * 2622 = 65550 does not fit 16 bits.
    let swipe = Swipe { direction: Direction::Up, trigger: Trigger::MinDistance(65535) };
    assert!(!travelling(Direction::Up, 2621).is_fired(&swipe, false));
    assert!(travelling(Direction::Up, 2622).is_fired(&swipe, false));
    assert!(travelling(Direction::Up, u16::MAX).is_fired(&swipe, false));
}

#[test]
fn a_minimum_distance_is_never_due_when_the_finger_lifts() {
    let swipe = Swipe { direction: Direction::Left, trigger: Trigger::MinDistance(50) };
    assert!(!travelling(Direction::Left, 5).is_fired(&swipe, true));
}

#[test]
fn a_completed_swipe_is_due_on_lifting_with_two_chunks() {
    let swipe = Swipe { direction: Direction::Down, trigger: Trigger::Completed };
    assert!(!travelling(Direction::Down, 0).is_fired(&swipe, true));
    assert!(!travelling(Direction::Down, 1).is_fired(&swipe, true));
    assert!(travelling(Direction::Down, 2).is_fired(&swipe, true));
    assert!(travelling(Direction::Down, 40).is_fired(&swipe, true));
    assert!(!travelling(Direction::Down, 40).is_fired(&swipe, false));
}

#[test]
fn a_swipe_in_another_direction_is_never_due() {
    let completed = Swipe { direction: Direction::Down, trigger: Trigger::Completed };
    let distance = Swipe { direction: Direction::Down, trigger: Trigger::MinDistance(25) };
    for direction in [Direction::Up, Direction::Left, Direction::Right] {
        assert!(!travelling(direction, 10).is_fired(&completed, true));
        assert!(!travelling(direction, 10).is_fired(&distance, false));
    }
}

#[test]
fn a_finger_without_direction_fires_nothing() {
    let finger = TrackedFinger { direction: None, ..travelling(Direction::Down, 10) };
    let completed = Swipe { direction: Direction::Down, trigger: Trigger::Completed };
    let distance = Swipe { direction: Direction::Down, trigger: Trigger::MinDistance(0) };
    assert!(!finger.is_fired(&completed, true));
    assert!(!finger.is_fired(&distance, false));
}

#[test]
fn an_invalidated_finger_with_a_new_direction_fires() {
    let finger = TrackedFinger { invalidated: true, ..travelling(Direction::Down, 2) };
    let completed = Swipe { direction: Direction::Down, trigger: Trigger::Completed };
    let distance = Swipe { direction: Direction::Down, trigger: Trigger::MinDistance(50) };
    assert!(finger.is_fired(&completed, true));
    assert!(finger.is_fired(&distance, false));
}
