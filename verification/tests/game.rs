use retris::canvas::Placement;
use retris::geometry::Cell;
use retris::geometry::Position;
use retris::geometry::Rect;
use retris::geometry::Size;
use retris::input::Finger;
use retris::input::GPIOEvent;
use retris::input::InputEvent;
use retris::input::MultitouchEvent;
use retris::input::PhysicalButton;
use retris::scene::game_scene::swipes;
use retris::scene::game_scene::Action;
use retris::scene::game_scene::BlockChange;
use retris::scene::game_scene::Frame;
use retris::scene::game_scene::BLOCK_SIZE;
use retris::scene::game_scene::SCORE_FONT_SIZE;
use retris::scene::game_scene::TAP_MAX_DISTANCE;
use retris::scene::game_scene::TAP_MAX_MILLIS;
use retris::scene::GameScene;
use retris::scene::Transition;
use retris::swipe::Direction;
use retris::swipe::Swipe;
use retris::swipe::Trigger;

const PAUSE: Rect = Rect { top: 40, left: 30, width: 200, height: 70 };
const BACK: Rect = Rect { top: 40, left: 280, width: 300, height: 70 };
const LEFT: Rect = Rect { top: 1700, left: 25, width: 150, height: 160 };
const RIGHT: Rect = Rect { top: 1700, left: 1229, width: 150, height: 160 };

fn scene() -> GameScene {
    let mut scene = GameScene::new(Size { width: 10, height: 22 });
    scene.place_buttons(PAUSE, BACK, Some((LEFT, RIGHT)));
    scene
}

fn touch(event: MultitouchEvent) -> InputEvent {
    InputEvent::MultitouchEvent { event }
}

fn press(tracking_id: i32, x: u16, y: u16) -> InputEvent {
    touch(MultitouchEvent::Press { finger: Finger { tracking_id, pos: Position { x, y } } })
}

fn moved(tracking_id: i32, x: u16, y: u16) -> InputEvent {
    touch(MultitouchEvent::Move { finger: Finger { tracking_id, pos: Position { x, y } } })
}

fn release(tracking_id: i32, x: u16, y: u16) -> InputEvent {
    touch(MultitouchEvent::Release { finger: Finger { tracking_id, pos: Position { x, y } } })
}

fn button(button: PhysicalButton) -> InputEvent {
    InputEvent::GPIO { event: GPIOEvent::Press { button } }
}

#[test]
fn the_game_constants_have_their_values() {
    assert_eq!(BLOCK_SIZE, 50);
    assert_eq!(TAP_MAX_MILLIS, 300);
    assert_eq!(TAP_MAX_DISTANCE, 20);
    assert_eq!(SCORE_FONT_SIZE, 40);
    assert_eq!(
        swipes(),
        [
            Swipe { direction: Direction::Down, trigger: Trigger::Completed },
            Swipe { direction: Direction::Left, trigger: Trigger::MinDistance(50) },
            Swipe { direction: Direction::Right, trigger: Trigger::MinDistance(50) },
        ]
    );
}

#[test]
fn fields_up_to_the_size_of_the_display_fit() {
    assert!(GameScene::fits(Size { width: 10, height: 22 }));
    assert!(GameScene::fits(Size { width: 0, height: 0 }));
    assert!(GameScene::fits(Size { width: 28, height: 37 }));
    assert!(!GameScene::fits(Size { width: 29, height: 37 }));
    assert!(!GameScene::fits(Size { width: 28, height: 38 }));
    assert!(!GameScene::fits(Size { width: usize::MAX, height: 1 }));
}

#[test]
fn the_field_is_centred_on_the_display() {
    let scene = scene();
    assert_eq!(scene.game_size(), Size { width: 10, height: 22 });
    assert_eq!(scene.to_size((1, 1)), (50, 50));
    assert_eq!(scene.to_size((10, 22)), (500, 1100));
    assert_eq!(scene.to_size((0, 3)), (0, 150));
    assert_eq!(scene.to_coords((0, 0)), (452, 386));
    assert_eq!(scene.to_coords((9, 21)), (902, 1436));
    assert_eq!(scene.to_coords((10, 22)), (952, 1486));
    assert_eq!(scene.field_start_i32(), (452, 386));
    assert_eq!(scene.field_start_u32(), (452, 386));
    assert_eq!(scene.field_size(), (500, 1100));
}

#[test]
fn the_largest_field_leaves_a_margin() {
    let scene = GameScene::new(Size { width: 28, height: 37 });
    assert_eq!(scene.field_start_i32(), (2, 11));
    assert_eq!(scene.field_size(), (1400, 1850));
    assert_eq!(scene.field_border(), Rect { left: 0, top: 9, width: 1404, height: 1854 });
}

#[test]
fn a_field_of_odd_size_starts_on_a_whole_pixel() {
    let scene = GameScene::new(Size { width: 9, height: 21 });
    // 702 - 450 / 2 and 936 - 1050 / 2
    assert_eq!(scene.field_start_i32(), (477, 411));
}

#[test]
fn what_surrounds_the_field_is_placed_around_it() {
    let scene = scene();
    assert_eq!(scene.title_placement(), Placement { x: None, y: Some(336) });
    assert_eq!(scene.field_border(), Rect { left: 450, top: 384, width: 504, height: 1104 });
    assert_eq!(scene.score_area(), Rect { left: 452, top: 1489, width: 500, height: 70 });
    assert_eq!(scene.score_origin(), Placement { x: Some(462), y: Some(1531) });
}

#[test]
fn the_buttons_are_placed_in_two_rows() {
    assert_eq!(GameScene::pause_button_placement(), Placement { x: Some(50), y: Some(75) });
    assert_eq!(GameScene::back_button_placement(PAUSE), Placement { x: Some(280), y: Some(75) });
    assert_eq!(GameScene::left_button_placement(), Placement { x: Some(75), y: Some(1780) });
    assert_eq!(
        GameScene::right_button_placement(LEFT),
        Placement { x: Some(1404 + 50 - 175), y: Some(1780) }
    );
}

#[test]
fn the_buttons_of_the_case_move_the_block() {
    let mut scene = scene();
    assert_eq!(scene.on_input(button(PhysicalButton::MIDDLE), 0, 0), vec![Action::Rotate]);
    assert_eq!(scene.on_input(button(PhysicalButton::LEFT), 0, 0), vec![Action::MoveLeft]);
    assert_eq!(scene.on_input(button(PhysicalButton::RIGHT), 0, 0), vec![Action::MoveRight]);
    assert_eq!(scene.on_input(button(PhysicalButton::POWER), 0, 0), vec![Action::MoveDown]);
    assert_eq!(scene.on_input(button(PhysicalButton::WAKEUP), 0, 0), vec![]);
}

#[test]
fn a_button_that_is_let_go_does_nothing() {
    let mut scene = scene();
    let event = InputEvent::GPIO { event: GPIOEvent::Unpress { button: PhysicalButton::LEFT } };
    assert_eq!(scene.on_input(event, 0, 0), vec![]);
    let event = InputEvent::GPIO { event: GPIOEvent::Unknown };
    assert_eq!(scene.on_input(event, 0, 0), vec![]);
    assert_eq!(scene.on_input(InputEvent::Unknown, 0, 0), vec![]);
    assert_eq!(scene.on_input(touch(MultitouchEvent::Unknown), 0, 0), vec![]);
}

#[test]
fn a_tap_beside_the_buttons_rotates_the_block() {
    let mut scene = scene();
    assert_eq!(scene.on_input(press(1, 700, 900), 1000, 0), vec![]);
    assert_eq!(scene.on_input(release(1, 703, 898), 1299, 0), vec![Action::Rotate]);
}

#[test]
fn a_tap_needs_no_buttons() {
    let mut scene = GameScene::new(Size { width: 10, height: 22 });
    assert_eq!(scene.on_input(press(1, 100, 75), 0, 0), vec![]);
    assert_eq!(scene.on_input(release(1, 100, 75), 0, 0), vec![Action::Rotate]);
}

#[test]
fn a_finger_that_stays_down_too_long_has_not_tapped() {
    let mut scene = scene();
    scene.on_input(press(1, 700, 900), 1000, 0);
    assert_eq!(scene.on_input(release(1, 700, 900), 1300, 0), vec![]);
}

#[test]
fn a_finger_that_lifts_before_it_touched_down_has_not_tapped() {
    let mut scene = scene();
    scene.on_input(press(1, 700, 900), 1000, 0);
    assert_eq!(scene.on_input(release(1, 700, 900), 999, 0), vec![]);
}

#[test]
fn a_finger_that_lifts_too_far_away_has_not_tapped() {
    let mut scene = scene();
    scene.on_input(press(1, 700, 900), 0, 0);
    // 12 * 12 + 16 * 16 = 20 * 20
    assert_eq!(scene.on_input(release(1, 712, 916), 100, 0), vec![]);
    scene.on_input(press(1, 700, 900), 200, 0);
    assert_eq!(scene.on_input(release(1, 688, 885), 300, 0), vec![Action::Rotate]);
    scene.on_input(press(1, 700, 900), 400, 0);
    assert_eq!(scene.on_input(release(1, 700, 920), 500, 0), vec![]);
    scene.on_input(press(1, 700, 900), 600, 0);
    assert_eq!(scene.on_input(release(1, 681, 900), 700, 0), vec![Action::Rotate]);
}

#[test]
fn only_the_finger_that_touched_down_last_can_tap() {
    let mut scene = scene();
    scene.on_input(press(1, 700, 900), 0, 0);
    scene.on_input(press(2, 300, 300), 10, 0);
    assert_eq!(scene.on_input(release(1, 700, 900), 20, 0), vec![]);
    assert_eq!(scene.on_input(release(2, 300, 300), 30, 0), vec![Action::Rotate]);
}

#[test]
fn a_tap_on_an_arrow_moves_the_block() {
    let mut scene = scene();
    scene.on_input(press(1, 100, 1750), 0, 0);
    assert_eq!(scene.on_input(release(1, 100, 1750), 50, 0), vec![Action::MoveLeft]);
    scene.on_input(press(1, 1300, 1750), 100, 0);
    assert_eq!(scene.on_input(release(1, 1300, 1750), 150, 0), vec![Action::MoveRight]);
}

#[test]
fn a_tap_counts_where_the_finger_lifts() {
    let mut scene = scene();
    scene.on_input(press(1, 20, 1750), 0, 0);
    assert_eq!(scene.on_input(release(1, 25, 1750), 50, 0), vec![Action::MoveLeft]);
    scene.on_input(press(1, 25, 1750), 100, 0);
    assert_eq!(scene.on_input(release(1, 24, 1750), 150, 0), vec![Action::Rotate]);
}

#[test]
fn without_arrows_a_tap_in_their_place_rotates_the_block() {
    let mut scene = GameScene::new(Size { width: 10, height: 22 });
    scene.place_buttons(PAUSE, BACK, None);
    scene.on_input(press(1, 100, 1750), 0, 0);
    assert_eq!(scene.on_input(release(1, 100, 1750), 50, 0), vec![Action::Rotate]);
}

#[test]
fn a_tap_on_the_pause_button_pauses_and_resumes() {
    let mut scene = scene();
    assert!(!scene.is_paused());
    scene.on_input(press(1, 100, 75), 0, 0);
    assert_eq!(scene.on_input(release(1, 100, 75), 50, 0), vec![]);
    assert!(scene.is_paused());
    scene.on_input(press(1, 100, 75), 100, 0);
    assert_eq!(scene.on_input(release(1, 100, 75), 150, 0), vec![]);
    assert!(!scene.is_paused());
    assert!(!scene.back_button_pressed);
}

#[test]
fn a_tap_on_the_back_button_leads_to_the_menu() {
    let mut scene = scene();
    assert_eq!(scene.transition(false, 300), Transition::Stay);
    scene.on_input(press(1, 300, 75), 0, 0);
    assert_eq!(scene.on_input(release(1, 300, 75), 50, 0), vec![]);
    assert!(scene.back_button_pressed);
    assert!(!scene.is_paused());
    assert_eq!(scene.transition(false, 300), Transition::MainMenu { score: None });
}

#[test]
fn a_game_that_is_over_hands_its_score_to_the_menu() {
    let mut scene = scene();
    assert_eq!(scene.transition(true, 300), Transition::MainMenu { score: Some(300) });
    scene.back_button_pressed = true;
    assert_eq!(scene.transition(true, 0), Transition::MainMenu { score: Some(0) });
}

#[test]
fn where_buttons_overlap_the_pause_button_is_hit() {
    let mut scene = GameScene::new(Size { width: 10, height: 22 });
    scene.place_buttons(PAUSE, PAUSE, Some((PAUSE, PAUSE)));
    scene.on_input(press(1, 100, 75), 0, 0);
    assert_eq!(scene.on_input(release(1, 100, 75), 50, 0), vec![]);
    assert!(scene.is_paused());
    assert!(!scene.back_button_pressed);
}

#[test]
fn a_drag_to_the_side_moves_the_block_again_and_again() {
    let mut scene = scene();
    scene.on_input(press(1, 700, 900), 0, 7);
    let mut actions = Vec::new();
    for step in 1..=6 {
        actions.push(scene.on_input(moved(1, 700 + 25 * step, 900), 1000, 7));
    }
    assert_eq!(
        actions,
        vec![vec![], vec![], vec![Action::MoveRight], vec![], vec![], vec![Action::MoveRight]]
    );
    assert_eq!(scene.on_input(release(1, 850, 900), 2000, 7), vec![]);

    scene.on_input(press(2, 700, 900), 3000, 7);
    assert_eq!(scene.on_input(moved(2, 670, 900), 3100, 7), vec![]);
    assert_eq!(scene.on_input(moved(2, 640, 900), 3200, 7), vec![]);
    assert_eq!(scene.on_input(moved(2, 610, 900), 3300, 7), vec![Action::MoveLeft]);
}

#[test]
fn a_completed_swipe_down_drops_the_block() {
    let mut scene = scene();
    scene.on_input(press(1, 700, 900), 0, 7);
    for y in [930, 960, 990] {
        assert_eq!(scene.on_input(moved(1, 700, y), 1000, 7), vec![]);
    }
    assert_eq!(scene.on_input(release(1, 700, 990), 2000, 7), vec![Action::MoveDown; 22]);
}

#[test]
fn a_swipe_drops_the_block_by_the_height_of_the_field() {
    let mut scene = GameScene::new(Size { width: 4, height: 3 });
    scene.on_input(press(1, 700, 900), 0, 7);
    for y in [930, 960, 990] {
        scene.on_input(moved(1, 700, y), 1000, 7);
    }
    assert_eq!(scene.on_input(release(1, 700, 990), 2000, 7), vec![Action::MoveDown; 3]);
}

#[test]
fn a_swipe_up_does_nothing() {
    let mut scene = scene();
    scene.on_input(press(1, 700, 900), 0, 7);
    for y in [870, 840, 810, 780] {
        assert_eq!(scene.on_input(moved(1, 700, y), 1000, 7), vec![]);
    }
    assert_eq!(scene.on_input(release(1, 700, 780), 2000, 7), vec![]);
}

#[test]
fn a_swipe_that_began_under_another_block_does_nothing() {
    let mut scene = scene();
    scene.on_input(press(1, 700, 900), 0, 7);
    assert_eq!(scene.on_input(moved(1, 730, 900), 100, 7), vec![]);
    assert_eq!(scene.on_input(moved(1, 760, 900), 200, 8), vec![]);
    assert_eq!(scene.on_input(moved(1, 790, 900), 300, 8), vec![]);
    // The swipe was reported and the finger has started over all the same.
    assert_eq!(scene.on_input(moved(1, 820, 900), 400, 7), vec![]);
    assert_eq!(scene.on_input(moved(1, 850, 900), 500, 7), vec![]);
    assert_eq!(scene.on_input(moved(1, 880, 900), 600, 7), vec![Action::MoveRight]);

    scene.on_input(press(2, 700, 900), 1000, 8);
    for y in [930, 960, 990] {
        scene.on_input(moved(2, 700, y), 1100, 8);
    }
    assert_eq!(scene.on_input(release(2, 700, 990), 1200, 9), vec![]);
}

#[test]
fn a_finger_that_has_lifted_controls_nothing() {
    let mut scene = scene();
    scene.on_input(press(1, 700, 900), 0, 7);
    scene.on_input(release(1, 700, 900), 1000, 7);
    for x in [730, 760, 790, 820] {
        assert_eq!(scene.on_input(moved(1, x, 900), 2000, 7), vec![]);
    }
    assert_eq!(scene.on_input(release(1, 820, 900), 3000, 7), vec![]);
}

#[test]
fn a_release_can_both_tap_and_complete_a_swipe() {
    let mut scene = scene();
    scene.on_input(press(1, 700, 900), 0, 7);
    for (x, y) in [(700, 930), (700, 960), (700, 990)] {
        scene.on_input(moved(1, x, y), 10, 7);
    }
    // The finger is reported to lift near where it touched down, without a
    // move back that the tracker would have seen.
    let mut expected = vec![Action::Rotate];
    expected.extend(vec![Action::MoveDown; 22]);
    assert_eq!(scene.on_input(release(1, 700, 910), 30, 7), expected);
}

#[test]
fn the_first_frame_draws_and_later_frames_advance() {
    let mut scene = scene();
    assert_eq!(scene.start_frame(5000), Frame::First);
    assert_eq!(scene.start_frame(5033), Frame::Advance { millis: 33 });
    assert_eq!(scene.start_frame(5033), Frame::Advance { millis: 0 });
    assert_eq!(scene.start_frame(6000), Frame::Advance { millis: 967 });
}

#[test]
fn a_clock_that_goes_back_holds_the_game() {
    let mut scene = scene();
    scene.start_frame(5000);
    assert_eq!(scene.start_frame(4999), Frame::Hold);
    assert_eq!(scene.start_frame(5001), Frame::Advance { millis: 2 });
}

#[test]
fn a_paused_game_holds() {
    let mut scene = scene();
    scene.start_frame(5000);
    scene.on_input(press(1, 100, 75), 5010, 0);
    scene.on_input(release(1, 100, 75), 5020, 0);
    assert_eq!(scene.start_frame(5033), Frame::Hold);
    assert_eq!(scene.start_frame(5066), Frame::Hold);
    scene.on_input(press(1, 100, 75), 5070, 0);
    scene.on_input(release(1, 100, 75), 5080, 0);
    assert_eq!(scene.start_frame(5099), Frame::Advance { millis: 33 });
}

#[test]
fn a_paused_game_still_draws_its_first_frame() {
    let mut scene = scene();
    scene.on_input(press(1, 100, 75), 10, 0);
    scene.on_input(release(1, 100, 75), 20, 0);
    assert_eq!(scene.start_frame(33), Frame::First);
}

#[test]
fn the_score_is_drawn_when_it_changes() {
    let mut scene = scene();
    assert!(!scene.score_changed(0));
    assert!(scene.score_changed(100));
    assert!(!scene.score_changed(100));
    assert!(scene.score_changed(0));
}

fn change(x: usize, y: usize, filled: bool) -> BlockChange {
    BlockChange {
        x,
        y,
        rect: Rect {
            left: 452 + 50 * x as u32,
            top: 386 + 50 * y as u32,
            width: 50,
            height: 50,
        },
        filled,
    }
}

#[test]
fn the_first_blocks_are_all_new() {
    let mut scene = scene();
    let blocks =
        [Cell { x: 5, y: 21 }, Cell { x: 1, y: 0 }, Cell { x: 0, y: 0 }, Cell { x: 9, y: 3 }];
    assert_eq!(
        scene.draw_blocks(&blocks),
        vec![change(0, 0, true), change(1, 0, true), change(9, 3, true), change(5, 21, true)]
    );
}

#[test]
fn blocks_that_stay_are_not_drawn_again() {
    let mut scene = scene();
    let blocks = [Cell { x: 0, y: 0 }, Cell { x: 1, y: 0 }, Cell { x: 5, y: 21 }];
    scene.draw_blocks(&blocks);
    assert_eq!(scene.draw_blocks(&blocks), vec![]);
    let blocks = [Cell { x: 2, y: 0 }, Cell { x: 1, y: 0 }, Cell { x: 1, y: 0 }];
    assert_eq!(
        scene.draw_blocks(&blocks),
        vec![change(0, 0, false), change(2, 0, true), change(5, 21, false)]
    );
    assert_eq!(scene.draw_blocks(&[]), vec![change(1, 0, false), change(2, 0, false)]);
    assert_eq!(scene.draw_blocks(&[]), vec![]);
}

#[test]
fn blocks_outside_the_field_are_not_drawn() {
    let mut scene = scene();
    let blocks = [Cell { x: 10, y: 0 }, Cell { x: 0, y: 22 }, Cell { x: 255, y: 255 }];
    assert_eq!(scene.draw_blocks(&blocks), vec![]);
    assert_eq!(scene.draw_blocks(&[]), vec![]);
}

#[test]
fn cells_in_one_column_or_one_row_are_told_apart() {
    let mut scene = scene();
    assert_eq!(scene.draw_blocks(&[Cell { x: 1, y: 0 }]), vec![change(1, 0, true)]);
    assert_eq!(
        scene.draw_blocks(&[Cell { x: 0, y: 1 }]),
        vec![change(1, 0, false), change(0, 1, true)]
    );
}

#[test]
fn filled_cells_are_refreshed_before_empty_ones() {
    let changes = [
        change(0, 0, false),
        change(2, 0, true),
        change(5, 1, false),
        change(1, 2, true),
        change(3, 2, true),
    ];
    assert_eq!(
        GameScene::refresh_order(&changes),
        vec![
            changes[1].rect,
            changes[3].rect,
            changes[4].rect,
            changes[0].rect,
            changes[2].rect
        ]
    );
    assert_eq!(GameScene::refresh_order(&[]), vec![]);
}
