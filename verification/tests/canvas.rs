use retris::canvas::button_frame;
use retris::canvas::rect_area;
use retris::canvas::text_origin;
use retris::canvas::Placement;
use retris::geometry::is_hitting;
use retris::geometry::Position;
use retris::geometry::Rect;

#[test]
fn the_display_is_the_one_of_the_tablet() {
    let centre = text_origin(Placement { x: None, y: None }, 0, 0);
    assert_eq!(centre, (702, 936));
    assert_eq!(centre.0, libremarkable::dimensions::DISPLAYWIDTH as i32 / 2);
    assert_eq!(centre.1, libremarkable::dimensions::DISPLAYHEIGHT as i32 / 2);
}

#[test]
fn given_coordinates_are_kept() {
    assert_eq!(text_origin(Placement { x: Some(50), y: Some(75) }, 300, 40), (50, 75));
    assert_eq!(text_origin(Placement { x: Some(-5), y: Some(0) }, 300, 40), (-5, 0));
}

#[test]
fn missing_coordinates_centre_the_text() {
    assert_eq!(text_origin(Placement { x: None, y: Some(500) }, 404, 72), (500, 500));
    assert_eq!(text_origin(Placement { x: Some(10), y: None }, 404, 72), (10, 900));
    assert_eq!(text_origin(Placement { x: None, y: None }, 404, 72), (500, 900));
}

#[test]
fn halves_are_rounded_down_before_they_are_subtracted() {
    assert_eq!(text_origin(Placement { x: None, y: None }, 405, 73), (500, 900));
    assert_eq!(text_origin(Placement { x: None, y: None }, 1, 1), (702, 936));
}

#[test]
fn a_text_wider_than_the_display_starts_left_of_it() {
    assert_eq!(text_origin(Placement { x: None, y: None }, 2000, 4000), (-298, -1064));
    assert_eq!(
        text_origin(Placement { x: None, y: None }, u32::MAX, u32::MAX),
        (702 - 2147483647, 936 - 2147483647)
    );
}

#[test]
fn a_rectangle_covers_its_size_from_its_origin() {
    assert_eq!(
        rect_area(Placement { x: Some(450), y: Some(384) }, 504, 1104),
        Rect { top: 384, left: 450, width: 504, height: 1104 }
    );
    assert_eq!(
        rect_area(Placement { x: None, y: None }, 504, 1104),
        Rect { top: 384, left: 450, width: 504, height: 1104 }
    );
}

#[test]
fn a_negative_origin_wraps_around() {
    assert_eq!(
        rect_area(Placement { x: Some(-1), y: Some(i32::MIN) }, 10, 20),
        Rect { top: 0x8000_0000, left: 0xffff_ffff, width: 10, height: 20 }
    );
}

#[test]
fn the_frame_of_a_button_leaves_the_gaps_around_the_label() {
    let label = Rect { top: 1000, left: 600, width: 200, height: 90 };
    assert_eq!(
        button_frame(label, 25, 50),
        Rect { top: 975, left: 550, width: 300, height: 140 }
    );
    assert_eq!(button_frame(label, 0, 0), label);
    assert_eq!(
        button_frame(label, 1000, 600),
        Rect { top: 0, left: 0, width: 1400, height: 2090 }
    );
}

#[test]
fn a_hitbox_holds_its_left_and_top_edge_only() {
    let hitbox = Rect { top: 100, left: 50, width: 30, height: 20 };
    assert!(is_hitting(Position { x: 50, y: 100 }, hitbox));
    assert!(is_hitting(Position { x: 79, y: 119 }, hitbox));
    assert!(is_hitting(Position { x: 60, y: 110 }, hitbox));
    assert!(!is_hitting(Position { x: 49, y: 110 }, hitbox));
    assert!(!is_hitting(Position { x: 80, y: 110 }, hitbox));
    assert!(!is_hitting(Position { x: 60, y: 99 }, hitbox));
    assert!(!is_hitting(Position { x: 60, y: 120 }, hitbox));
}

#[test]
fn an_empty_hitbox_is_never_hit() {
    let hitbox = Rect { top: 100, left: 50, width: 0, height: 20 };
    assert!(!is_hitting(Position { x: 50, y: 100 }, hitbox));
    let hitbox = Rect { top: 100, left: 50, width: 30, height: 0 };
    assert!(!is_hitting(Position { x: 50, y: 100 }, hitbox));
}

#[test]
fn a_hitbox_at_the_end_of_the_coordinates_does_not_wrap() {
    let hitbox = Rect { top: 0, left: u32::MAX, width: 10, height: 10 };
    assert!(!is_hitting(Position { x: 5, y: 5 }, hitbox));
    let hitbox = Rect { top: 65000, left: 65000, width: u32::MAX, height: u32::MAX };
    assert!(is_hitting(Position { x: 65535, y: 65535 }, hitbox));
    assert!(!is_hitting(Position { x: 64999, y: 65535 }, hitbox));
}
