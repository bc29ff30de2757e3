//! The scene in which the game is played.
//!
//! The scene does not hold the game itself. It holds what surrounds it: the
//! layout of the field on the display, the buttons, the fingers that are
//! down, and what was drawn last. From the input it works out the actions
//! that the game is to perform, and from the blocks of the game it works out
//! what has to be drawn anew.

use super::Transition;
use crate::canvas::display_height;
use crate::canvas::display_width;
use crate::canvas::displayheight;
use crate::canvas::displaywidth;
use crate::canvas::Placement;
use crate::geometry::is_hitting;
use crate::geometry::Cell;
use crate::geometry::Position;
use crate::geometry::Rect;
use crate::geometry::Size;
use crate::id_map;
use crate::input::Finger;
use crate::input::GPIOEvent;
use crate::input::InputEvent;
use crate::input::MultitouchEvent;
use crate::input::PhysicalButton;
use crate::swipe::tracker::after_event;
use crate::swipe::tracker::event_report;
use crate::swipe::tracker::swipe_at;
use crate::swipe::Direction;
use crate::swipe::Swipe;
use crate::swipe::SwipeTracker;
use crate::swipe::TrackedFinger;
use crate::swipe::Trigger;
use fxhash::FxHashMap;
use std::collections::HashSet;
use vstd::prelude::*;

verus! {

/// The length of a block's edge in pixels.
pub const BLOCK_SIZE: usize = 50;

/// A finger that lifts this many milliseconds after it touched down, or
/// later, has not tapped.
pub const TAP_MAX_MILLIS: u64 = 300;

/// A finger that lifts this many pixels from where it touched down, or
/// farther, has not tapped.
pub const TAP_MAX_DISTANCE: u64 = 20;

/// The distance in pixels after which a swipe to the left or to the right
/// moves the block.
pub const MOVE_SWIPE_DISTANCE: u16 = 50;

/// The size of the font that the score is written in.
pub const SCORE_FONT_SIZE: u32 = 40;

/// The height on the display of the labels of the pause and the back button.
pub const BUTTON_ROW_Y: i32 = 75;

/// The height on the display of the labels of the two arrows.
pub const ARROW_ROW_Y: i32 = 1780;

/// The distance of the left arrow's label from the left edge of the display.
pub const ARROW_MARGIN: i32 = 75;

/// Pixels between the label of an arrow and its frame, to the left and to
/// the right.
pub const ARROW_HGAP: u32 = 50;

/// Pixels between the label of an arrow and its frame, above and below.
pub const ARROW_VGAP: u32 = 50;

/// Pixels between the label of the pause or the back button and its frame,
/// to the left and to the right.
pub const BUTTON_HGAP: u32 = 20;

/// Pixels between the label of the pause or the back button and its frame,
/// above and below.
pub const BUTTON_VGAP: u32 = 10;

/// What the game can be told to do with the falling block.
#[derive(Debug, Copy, Clone, PartialEq, Eq, Hash, Structural)]
pub enum Action {
    MoveDown,
    MoveLeft,
    MoveRight,
    Rotate,
}

/// What is due when a frame starts.
#[derive(Debug, Copy, Clone, PartialEq, Eq, Structural)]
pub enum Frame {
    /// Nothing was drawn yet: everything around the field is to be drawn.
    First,
    /// The game is to advance by the time that has passed since the last
    /// frame.
    Advance { millis: u64 },
    /// The game stands still: it is paused, or the clock has gone back.
    Hold,
}

/// A cell of the field that looks different from the last frame.
#[derive(Debug, Copy, Clone, PartialEq, Eq, Structural)]
pub struct BlockChange {
    /// The column of the cell, counted from the left.
    pub x: usize,
    /// The row of the cell, counted from the top.
    pub y: usize,
    /// Where the cell is on the display.
    pub rect: Rect,
    /// Whether a block is in the cell now.
    pub filled: bool,
}

/// What a tap lands on.
#[derive(Debug, Copy, Clone, PartialEq, Eq, Structural)]
pub enum TapTarget {
    PlayPause,
    Back,
    Left,
    Right,
    Elsewhere,
}

/// The swipes that the game listens for: a completed swipe down, and swipes
/// to the left and to the right that are reported again and again while the
/// finger travels.
pub open spec fn watched_swipes() -> Seq<Swipe> {
    seq![
        Swipe { direction: Direction::Down, trigger: Trigger::Completed },
        Swipe { direction: Direction::Left, trigger: Trigger::MinDistance(MOVE_SWIPE_DISTANCE) },
        Swipe { direction: Direction::Right, trigger: Trigger::MinDistance(MOVE_SWIPE_DISTANCE) },
    ]
}

/// The swipes that the game listens for.
pub fn swipes() -> (swipes: [Swipe; 3])
    ensures
        swipes@ == watched_swipes(),
{
    let swipes = [
        Swipe { direction: Direction::Down, trigger: Trigger::Completed },
        Swipe { direction: Direction::Left, trigger: Trigger::MinDistance(MOVE_SWIPE_DISTANCE) },
        Swipe { direction: Direction::Right, trigger: Trigger::MinDistance(MOVE_SWIPE_DISTANCE) },
    ];
    assert(swipes@ =~= watched_swipes());
    swipes
}

/// The square of the distance between `a` and `b`.
pub open spec fn squared_distance(a: Position, b: Position) -> int {
    (a.x - b.x) * (a.x - b.x) + (a.y - b.y) * (a.y - b.y)
}

/// Whether a touch at `pos` hits the button with hitbox `hitbox`, if the
/// button is there.
pub open spec fn hits(hitbox: Option<Rect>, pos: Position) -> bool {
    match hitbox {
        Some(hitbox) => hitbox.contains(pos),
        None => false,
    }
}

/// The actions that one of the case's buttons stands for.
pub open spec fn button_actions(event: GPIOEvent) -> Seq<Action> {
    match event {
        GPIOEvent::Press { button: PhysicalButton::MIDDLE } => seq![Action::Rotate],
        GPIOEvent::Press { button: PhysicalButton::LEFT } => seq![Action::MoveLeft],
        GPIOEvent::Press { button: PhysicalButton::RIGHT } => seq![Action::MoveRight],
        GPIOEvent::Press { button: PhysicalButton::POWER } => seq![Action::MoveDown],
        _ => Seq::empty(),
    }
}

/// The actions that a swipe in `direction` stands for on a field that is
/// `height` blocks high: a swipe down drops the block all the way.
pub open spec fn swipe_actions(direction: Direction, height: nat) -> Seq<Action> {
    match direction {
        Direction::Left => seq![Action::MoveLeft],
        Direction::Right => seq![Action::MoveRight],
        Direction::Down => Seq::new(height, |i: int| Action::MoveDown),
        Direction::Up => seq![Action::Rotate],
    }
}

/// The number under which the cell in column `x` and row `y` is remembered.
pub open spec fn cell_key(x: int, y: int) -> u16 {
    (x + 256 * y) as u16
}

/// The cells that `blocks` fill, by their numbers.
pub open spec fn occupied(blocks: Seq<Cell>) -> Set<u16>
    decreases blocks.len(),
{
    if blocks.len() == 0 {
        Set::empty()
    } else {
        occupied(blocks.drop_last()).insert(cell_key(blocks.last().x as int, blocks.last().y as int))
    }
}

/// The rectangles of those of `changes` that are filled, or of those that
/// are not, in the order of `changes`.
pub open spec fn rects_where(changes: Seq<BlockChange>, filled: bool) -> Seq<Rect>
    decreases changes.len(),
{
    if changes.len() == 0 {
        Seq::empty()
    } else {
        let before = rects_where(changes.drop_last(), filled);
        if changes.last().filled == filled {
            before.push(changes.last().rect)
        } else {
            before
        }
    }
}

/// Whether a field of `game_size` blocks fits on the display.
pub open spec fn fits_display(game_size: Size) -> bool {
    &&& game_size.width * BLOCK_SIZE <= display_width()
    &&& game_size.height * BLOCK_SIZE <= display_height()
}

/// What a game scene remembers.
#[verifier::ext_equal]
pub struct GameSceneView {
    pub game_size: Size,
    pub block_size: usize,
    /// The cells that were filled when the blocks were last drawn.
    pub last_blocks: Set<u16>,
    pub last_score: u64,
    /// The fingers that are down, as the swipe tracker knows them.
    pub fingers: Map<i32, TrackedFinger>,
    /// The finger that touched down last, and when it did, in milliseconds.
    pub last_pressed_finger: Option<(Finger, u64)>,
    pub play_pause_button_hitbox: Option<Rect>,
    pub back_button_hitbox: Option<Rect>,
    pub left_button_hitbox: Option<Rect>,
    pub right_button_hitbox: Option<Rect>,
    pub is_paused: bool,
    pub back_button_pressed: bool,
    /// For each finger that is down, the number of the block that was
    /// falling when it touched down.
    pub finger_controls_which_block: Map<i32, u32>,
    /// When the scene was last drawn, in milliseconds.
    pub last_draw: Option<u64>,
}

impl GameSceneView {
    /// Whether the field fits on the display with blocks of the size that
    /// the game draws.
    pub open spec fn wf(self) -> bool {
        &&& self.block_size == BLOCK_SIZE
        &&& fits_display(self.game_size)
    }

    /// The size in pixels of `pos.0` by `pos.1` blocks.
    pub open spec fn size_of(self, pos: (int, int)) -> (int, int) {
        (pos.0 * self.block_size, pos.1 * self.block_size)
    }

    /// The top left corner of the field, which is centred on the display.
    pub open spec fn field_start(self) -> (int, int) {
        (
            display_width() / 2 - self.game_size.width * self.block_size / 2,
            display_height() / 2 - self.game_size.height * self.block_size / 2,
        )
    }

    /// The top left corner of the cell in column `pos.0` and row `pos.1`.
    pub open spec fn coords_of(self, pos: (int, int)) -> (int, int) {
        (self.field_start().0 + self.size_of(pos).0, self.field_start().1 + self.size_of(pos).1)
    }

    /// The size of the field in pixels.
    pub open spec fn field_size(self) -> (int, int) {
        self.size_of((self.game_size.width as int, self.game_size.height as int))
    }

    /// The rectangle of the cell in column `x` and row `y`.
    pub open spec fn cell_rect(self, x: int, y: int) -> Rect {
        Rect {
            top: self.coords_of((x, y)).1 as u32,
            left: self.coords_of((x, y)).0 as u32,
            width: self.block_size as u32,
            height: self.block_size as u32,
        }
    }

    /// The change of the cell in column `x` and row `y`, which is filled now
    /// if `now` holds it.
    pub open spec fn change_at(self, now: Set<u16>, x: int, y: int) -> BlockChange {
        BlockChange {
            x: x as usize,
            y: y as usize,
            rect: self.cell_rect(x, y),
            filled: now.contains(cell_key(x, y)),
        }
    }

    /// Whether the cell in column `x` and row `y` has changed: it was filled
    /// and is not in `now`, or the other way round.
    pub open spec fn has_changed(self, now: Set<u16>, x: int, y: int) -> bool {
        self.last_blocks.contains(cell_key(x, y)) != now.contains(cell_key(x, y))
    }

    /// The changes in the first `columns` cells of row `y`, from left to
    /// right.
    pub open spec fn row_changes(self, now: Set<u16>, y: int, columns: int) -> Seq<BlockChange>
        decreases columns,
    {
        if columns <= 0 {
            Seq::empty()
        } else {
            let before = self.row_changes(now, y, columns - 1);
            if self.has_changed(now, columns - 1, y) {
                before.push(self.change_at(now, columns - 1, y))
            } else {
                before
            }
        }
    }

    /// The changes in the first `rows` rows of the field, row by row from
    /// the top.
    pub open spec fn changes_in(self, now: Set<u16>, rows: int) -> Seq<BlockChange>
        decreases rows,
    {
        if rows <= 0 {
            Seq::empty()
        } else {
            self.changes_in(now, rows - 1) + self.row_changes(
                now,
                rows - 1,
                self.game_size.width as int,
            )
        }
    }

    /// The cells of the field that have changed when `now` holds the cells
    /// that are filled.
    pub open spec fn changes(self, now: Set<u16>) -> Seq<BlockChange> {
        self.changes_in(now, self.game_size.height as int)
    }

    /// Whether `up`, a finger that lifts at the time `now`, has tapped: it is
    /// the finger that touched down last, it was down for less than
    /// `TAP_MAX_MILLIS` and it lifts less than `TAP_MAX_DISTANCE` from where
    /// it touched down.
    pub open spec fn is_tap(self, up: Finger, now: u64) -> bool {
        match self.last_pressed_finger {
            Some((down, down_when)) => {
                &&& down.tracking_id == up.tracking_id
                &&& down_when <= now
                &&& now - down_when < TAP_MAX_MILLIS
                &&& squared_distance(up.pos, down.pos) < TAP_MAX_DISTANCE * TAP_MAX_DISTANCE
            },
            None => false,
        }
    }

    /// What a tap at `pos` lands on. Where buttons overlap, the pause button
    /// comes before the back button, and that before the arrows.
    pub open spec fn tap_target(self, pos: Position) -> TapTarget {
        if hits(self.play_pause_button_hitbox, pos) {
            TapTarget::PlayPause
        } else if hits(self.back_button_hitbox, pos) {
            TapTarget::Back
        } else if hits(self.left_button_hitbox, pos) {
            TapTarget::Left
        } else if hits(self.right_button_hitbox, pos) {
            TapTarget::Right
        } else {
            TapTarget::Elsewhere
        }
    }

    /// The actions that the touch `event` stands for as a tap: a tap on an
    /// arrow moves the block, and a tap that hits no button rotates it.
    pub open spec fn tap_actions(self, event: MultitouchEvent, now: u64) -> Seq<Action> {
        match event {
            MultitouchEvent::Release { finger } => if self.is_tap(finger, now) {
                match self.tap_target(finger.pos) {
                    TapTarget::Left => seq![Action::MoveLeft],
                    TapTarget::Right => seq![Action::MoveRight],
                    TapTarget::Elsewhere => seq![Action::Rotate],
                    _ => Seq::empty(),
                }
            } else {
                Seq::empty()
            },
            _ => Seq::empty(),
        }
    }

    /// The scene after the touch `event` was looked at as a press or a tap.
    /// A finger that touches down is remembered with the time and with the
    /// block that is falling. A tap on the pause button pauses the game or
    /// lets it go on, and a tap on the back button presses it.
    pub open spec fn after_tap(self, event: MultitouchEvent, now: u64, block_id: u32) -> Self {
        match event {
            MultitouchEvent::Press { finger } => GameSceneView {
                last_pressed_finger: Some((finger, now)),
                finger_controls_which_block: self.finger_controls_which_block.insert(
                    finger.tracking_id,
                    block_id,
                ),
                ..self
            },
            MultitouchEvent::Release { finger } => if self.is_tap(finger, now) {
                match self.tap_target(finger.pos) {
                    TapTarget::PlayPause => GameSceneView { is_paused: !self.is_paused, ..self },
                    TapTarget::Back => GameSceneView { back_button_pressed: true, ..self },
                    _ => self,
                }
            } else {
                self
            },
            _ => self,
        }
    }

    /// Whether the finger `tracking_id` touched down while the block with
    /// the number `block_id` was falling.
    pub open spec fn controls(self, tracking_id: i32, block_id: u32) -> bool {
        self.finger_controls_which_block.contains_key(tracking_id)
            && self.finger_controls_which_block[tracking_id] == block_id
    }

    /// The actions that the touch `event` stands for as part of a swipe. A
    /// swipe counts only if its finger touched down while the block that is
    /// falling now was falling already.
    pub open spec fn touch_swipe_actions(self, event: MultitouchEvent, block_id: u32) -> Seq<
        Action,
    > {
        match (
            event.finger(),
            swipe_at(watched_swipes(), event_report(self.fingers, event, watched_swipes())),
        ) {
            (Some(finger), Some(swipe)) => if self.controls(finger.tracking_id, block_id) {
                swipe_actions(swipe.direction, self.game_size.height as nat)
            } else {
                Seq::empty()
            },
            _ => Seq::empty(),
        }
    }

    /// The scene after the touch `event` was fed to the swipe tracker. A
    /// finger that lifts is forgotten.
    pub open spec fn after_swipe(self, event: MultitouchEvent) -> Self {
        GameSceneView {
            fingers: after_event(self.fingers, event, watched_swipes()),
            finger_controls_which_block: match event {
                MultitouchEvent::Release { finger } => self.finger_controls_which_block.remove(
                    finger.tracking_id,
                ),
                _ => self.finger_controls_which_block,
            },
            ..self
        }
    }

    /// The scene after `event`, which arrives at the time `now` while the
    /// block with the number `block_id` is falling.
    pub open spec fn after_input(self, event: InputEvent, now: u64, block_id: u32) -> Self {
        match event {
            InputEvent::MultitouchEvent { event } => self.after_tap(
                event,
                now,
                block_id,
            ).after_swipe(event),
            _ => self,
        }
    }

    /// The actions that `event` stands for, in the order in which the game
    /// is to perform them: those of a tap before those of a swipe.
    pub open spec fn actions(self, event: InputEvent, now: u64, block_id: u32) -> Seq<Action> {
        match event {
            InputEvent::GPIO { event } => button_actions(event),
            InputEvent::MultitouchEvent { event } => self.tap_actions(event, now) + self.after_tap(
                event,
                now,
                block_id,
            ).touch_swipe_actions(event, block_id),
            InputEvent::Unknown => Seq::empty(),
        }
    }

    /// What is due when a frame starts at the time `now`.
    pub open spec fn frame(self, now: u64) -> Frame {
        match self.last_draw {
            None => Frame::First,
            Some(last_draw) => if !self.is_paused && last_draw <= now {
                Frame::Advance { millis: (now - last_draw) as u64 }
            } else {
                Frame::Hold
            },
        }
    }

    /// What follows the scene when the game is over or not, with the given
    /// score: the main menu once the game is over or the back button is
    /// pressed. Only a game that is over hands its score on.
    pub open spec fn transition(self, game_over: bool, score: u64) -> Transition {
        if game_over {
            Transition::MainMenu { score: Some(score) }
        } else if self.back_button_pressed {
            Transition::MainMenu { score: None }
        } else {
            Transition::Stay
        }
    }
}

/// A cell is filled exactly if one of the blocks lies in it.
pub proof fn lemma_occupied_cells(blocks: Seq<Cell>, x: u8, y: u8)
    ensures
        occupied(blocks).contains(cell_key(x as int, y as int)) <==> blocks.contains(
            Cell { x, y },
        ),
    decreases blocks.len(),
{
    if blocks.len() > 0 {
        lemma_occupied_cells(blocks.drop_last(), x, y);
        let last = blocks.last();
        if blocks.drop_last().contains(Cell { x, y }) {
            let i = choose|i: int|
                0 <= i < blocks.drop_last().len() && blocks.drop_last()[i] == (Cell { x, y });
            assert(blocks[i] == Cell { x, y });
        }
        if blocks.contains(Cell { x, y }) {
            let i = choose|i: int| 0 <= i < blocks.len() && blocks[i] == (Cell { x, y });
            if i < blocks.len() - 1 {
                assert(blocks.drop_last()[i] == Cell { x, y });
            }
        }
        if last == (Cell { x, y }) {
            assert(blocks[blocks.len() - 1] == Cell { x, y });
        }
    }
}

/// The changes in the first `columns` cells of a row are the cells among
/// them that have changed.
proof fn lemma_row_changes(scene: GameSceneView, now: Set<u16>, y: int, columns: int)
    requires
        0 <= columns <= scene.game_size.width,
        0 <= y < scene.game_size.height,
    ensures
        forall|k: int|
            0 <= k < scene.row_changes(now, y, columns).len() ==> {
                let change = #[trigger] scene.row_changes(now, y, columns)[k];
                &&& 0 <= change.x < columns
                &&& change.y == y
                &&& scene.has_changed(now, change.x as int, y)
                &&& change == scene.change_at(now, change.x as int, y)
            },
        forall|x: int|
            0 <= x < columns && scene.has_changed(now, x, y) ==> scene.row_changes(
                now,
                y,
                columns,
            ).contains(#[trigger] scene.change_at(now, x, y)),
    decreases columns,
{
    if columns > 0 {
        lemma_row_changes(scene, now, y, columns - 1);
        let before = scene.row_changes(now, y, columns - 1);
        let all = scene.row_changes(now, y, columns);
        assert forall|k: int| 0 <= k < all.len() implies {
            let change = #[trigger] all[k];
            &&& 0 <= change.x < columns
            &&& change.y == y
            &&& scene.has_changed(now, change.x as int, y)
            &&& change == scene.change_at(now, change.x as int, y)
        } by {
            if k < before.len() {
                assert(all[k] == before[k]);
            }
        }
        assert forall|x: int| 0 <= x < columns && scene.has_changed(now, x, y) implies all.contains(
            #[trigger] scene.change_at(now, x, y),
        ) by {
            if x < columns - 1 {
                let k = choose|k: int|
                    0 <= k < before.len() && before[k] == scene.change_at(now, x, y);
                assert(all[k] == scene.change_at(now, x, y));
            } else {
                assert(all[all.len() - 1] == scene.change_at(now, x, y));
            }
        }
    }
}

/// The changes in the first `rows` rows are the cells among them that have
/// changed.
proof fn lemma_changes_in(scene: GameSceneView, now: Set<u16>, rows: int)
    requires
        0 <= rows <= scene.game_size.height,
    ensures
        forall|k: int|
            0 <= k < scene.changes_in(now, rows).len() ==> {
                let change = #[trigger] scene.changes_in(now, rows)[k];
                &&& 0 <= change.x < scene.game_size.width
                &&& 0 <= change.y < rows
                &&& scene.has_changed(now, change.x as int, change.y as int)
                &&& change == scene.change_at(now, change.x as int, change.y as int)
            },
        forall|x: int, y: int|
            0 <= x < scene.game_size.width && 0 <= y < rows && scene.has_changed(now, x, y)
                ==> scene.changes_in(now, rows).contains(#[trigger] scene.change_at(now, x, y)),
    decreases rows,
{
    if rows > 0 {
        lemma_changes_in(scene, now, rows - 1);
        lemma_row_changes(scene, now, rows - 1, scene.game_size.width as int);
        let before = scene.changes_in(now, rows - 1);
        let row = scene.row_changes(now, rows - 1, scene.game_size.width as int);
        let all = scene.changes_in(now, rows);
        assert(all == before + row);
        assert forall|k: int| 0 <= k < all.len() implies {
            let change = #[trigger] all[k];
            &&& 0 <= change.x < scene.game_size.width
            &&& 0 <= change.y < rows
            &&& scene.has_changed(now, change.x as int, change.y as int)
            &&& change == scene.change_at(now, change.x as int, change.y as int)
        } by {
            if k < before.len() {
                assert(all[k] == before[k]);
            } else {
                assert(all[k] == row[k - before.len()]);
            }
        }
        assert forall|x: int, y: int|
            0 <= x < scene.game_size.width && 0 <= y < rows && scene.has_changed(
                now,
                x,
                y,
            ) implies all.contains(#[trigger] scene.change_at(now, x, y)) by {
            if y < rows - 1 {
                let k = choose|k: int|
                    0 <= k < before.len() && before[k] == scene.change_at(now, x, y);
                assert(all[k] == scene.change_at(now, x, y));
            } else {
                let k = choose|k: int| 0 <= k < row.len() && row[k] == scene.change_at(now, x, y);
                assert(all[before.len() + k] == scene.change_at(now, x, y));
            }
        }
    }
}

/// The changes of the field are the cells of the field that have changed,
/// each with its place on the display and with what it holds now: every
/// change that is listed is such a cell, and every such cell is listed.
pub proof fn lemma_changes(scene: GameSceneView, now: Set<u16>)
    ensures
        forall|k: int|
            0 <= k < scene.changes(now).len() ==> {
                let change = #[trigger] scene.changes(now)[k];
                &&& 0 <= change.x < scene.game_size.width
                &&& 0 <= change.y < scene.game_size.height
                &&& scene.has_changed(now, change.x as int, change.y as int)
                &&& change == scene.change_at(now, change.x as int, change.y as int)
            },
        forall|x: int, y: int|
            0 <= x < scene.game_size.width && 0 <= y < scene.game_size.height && scene.has_changed(
                now,
                x,
                y,
            ) ==> scene.changes(now).contains(#[trigger] scene.change_at(now, x, y)),
{
    lemma_changes_in(scene, now, scene.game_size.height as int);
}

/// The scene in which the game is played.
pub struct GameScene {
    game_size: Size,
    block_size: usize,
    last_blocks: HashSet<u16>,
    last_score: u64,
    swipe_tracker: SwipeTracker,
    last_pressed_finger: Option<(Finger, u64)>,
    play_pause_button_hitbox: Option<Rect>,
    back_button_hitbox: Option<Rect>,
    left_button_hitbox: Option<Rect>,
    right_button_hitbox: Option<Rect>,
    is_paused: bool,
    pub back_button_pressed: bool,
    finger_controls_which_block: FxHashMap<i32, u32>,
    last_draw: Option<u64>,
}

impl View for GameScene {
    type V = GameSceneView;

    closed spec fn view(&self) -> GameSceneView {
        GameSceneView {
            game_size: self.game_size,
            block_size: self.block_size,
            last_blocks: self.last_blocks@,
            last_score: self.last_score,
            fingers: self.swipe_tracker@,
            last_pressed_finger: self.last_pressed_finger,
            play_pause_button_hitbox: self.play_pause_button_hitbox,
            back_button_hitbox: self.back_button_hitbox,
            left_button_hitbox: self.left_button_hitbox,
            right_button_hitbox: self.right_button_hitbox,
            is_paused: self.is_paused,
            back_button_pressed: self.back_button_pressed,
            finger_controls_which_block: self.finger_controls_which_block@,
            last_draw: self.last_draw,
        }
    }
}

/// The number under which the cell in column `x` and row `y` is remembered.
fn cell_number(x: u8, y: u8) -> (key: u16)
    ensures
        key == cell_key(x as int, y as int),
{
    x as u16 + 256 * (y as u16)
}

/// The square of the distance between `a` and `b`.
fn distance_squared(a: Position, b: Position) -> (squared: u64)
    ensures
        squared == squared_distance(a, b),
{
    let x_dist: u64 = if a.x >= b.x {
        (a.x - b.x) as u64
    } else {
        (b.x - a.x) as u64
    };
    let y_dist: u64 = if a.y >= b.y {
        (a.y - b.y) as u64
    } else {
        (b.y - a.y) as u64
    };
    assert(x_dist * x_dist <= 65535 * 65535 && x_dist * x_dist == (a.x - b.x) * (a.x - b.x))
        by (nonlinear_arith)
        requires
            x_dist <= 65535,
            x_dist == a.x - b.x || x_dist == b.x - a.x,
    ;
    assert(y_dist * y_dist <= 65535 * 65535 && y_dist * y_dist == (a.y - b.y) * (a.y - b.y))
        by (nonlinear_arith)
        requires
            y_dist <= 65535,
            y_dist == a.y - b.y || y_dist == b.y - a.y,
    ;
    x_dist * x_dist + y_dist * y_dist
}

/// Whether a touch at `pos` hits the button with hitbox `hitbox`, if the
/// button is there.
fn hit(hitbox: Option<Rect>, pos: Position) -> (hit: bool)
    ensures
        hit == hits(hitbox, pos),
{
    match hitbox {
        Some(hitbox) => is_hitting(pos, hitbox),
        None => false,
    }
}

impl GameScene {
    /// Whether the field fits on the display.
    pub open spec fn wf(&self) -> bool {
        self@.wf()
    }

    /// A scene for a game on a field of `game_size` blocks. Nothing is drawn
    /// yet, no finger is down and no button is there.
    pub fn new(game_size: Size) -> (scene: Self)
        requires
            fits_display(game_size),
        ensures
            scene.wf(),
            scene@ =~= (GameSceneView {
                game_size,
                block_size: BLOCK_SIZE,
                last_blocks: Set::empty(),
                last_score: 0,
                fingers: Map::empty(),
                last_pressed_finger: None,
                play_pause_button_hitbox: None,
                back_button_hitbox: None,
                left_button_hitbox: None,
                right_button_hitbox: None,
                is_paused: false,
                back_button_pressed: false,
                finger_controls_which_block: Map::empty(),
                last_draw: None,
            }),
    {
        Self {
            game_size,
            block_size: BLOCK_SIZE,
            last_blocks: HashSet::new(),
            last_score: 0,
            swipe_tracker: SwipeTracker::new(),
            last_pressed_finger: None,
            play_pause_button_hitbox: None,
            back_button_hitbox: None,
            left_button_hitbox: None,
            right_button_hitbox: None,
            is_paused: false,
            back_button_pressed: false,
            finger_controls_which_block: FxHashMap::default(),
            last_draw: None,
        }
    }

    /// Whether a field of `game_size` blocks fits on the display.
    pub fn fits(game_size: Size) -> (fits: bool)
        ensures
            fits == fits_display(game_size),
    {
        let max_width: usize = displaywidth() as usize / BLOCK_SIZE;
        let max_height: usize = displayheight() as usize / BLOCK_SIZE;
        game_size.width <= max_width && game_size.height <= max_height
    }

    /// The size of the field in blocks.
    pub fn game_size(&self) -> (game_size: Size)
        ensures
            game_size == self@.game_size,
    {
        self.game_size
    }

    /// Whether the game is paused.
    pub fn is_paused(&self) -> (is_paused: bool)
        ensures
            is_paused == self@.is_paused,
    {
        self.is_paused
    }

    /// The size in pixels of `pos.0` by `pos.1` blocks.
    pub fn to_size(&self, pos: (usize, usize)) -> (size: (usize, usize))
        requires
            self.wf(),
            self@.size_of((pos.0 as int, pos.1 as int)).0 <= usize::MAX,
            self@.size_of((pos.0 as int, pos.1 as int)).1 <= usize::MAX,
        ensures
            size.0 == self@.size_of((pos.0 as int, pos.1 as int)).0,
            size.1 == self@.size_of((pos.0 as int, pos.1 as int)).1,
    {
        (pos.0 * self.block_size, pos.1 * self.block_size)
    }

    /// The top left corner on the display of the cell in column `pos.0` and
    /// row `pos.1` of the field.
    pub fn to_coords(&self, pos: (usize, usize)) -> (coords: (usize, usize))
        requires
            self.wf(),
            self@.coords_of((pos.0 as int, pos.1 as int)).0 <= usize::MAX,
            self@.coords_of((pos.0 as int, pos.1 as int)).1 <= usize::MAX,
        ensures
            coords.0 == self@.coords_of((pos.0 as int, pos.1 as int)).0,
            coords.1 == self@.coords_of((pos.0 as int, pos.1 as int)).1,
    {
        let start_x = displaywidth() as usize / 2 - self.game_size.width * self.block_size / 2;
        let start_y = displayheight() as usize / 2 - self.game_size.height * self.block_size / 2;
        let offset = self.to_size(pos);
        (start_x + offset.0, start_y + offset.1)
    }

    /// The top left corner of the field.
    pub fn field_start_i32(&self) -> (start: (i32, i32))
        requires
            self.wf(),
        ensures
            start.0 == self@.field_start().0,
            start.1 == self@.field_start().1,
    {
        let field_start = self.to_coords((0, 0));
        (field_start.0 as i32, field_start.1 as i32)
    }

    /// The top left corner of the field.
    pub fn field_start_u32(&self) -> (start: (u32, u32))
        requires
            self.wf(),
        ensures
            start.0 == self@.field_start().0,
            start.1 == self@.field_start().1,
    {
        let field_start = self.to_coords((0, 0));
        (field_start.0 as u32, field_start.1 as u32)
    }

    /// The size of the field in pixels.
    pub fn field_size(&self) -> (size: (u32, u32))
        requires
            self.wf(),
        ensures
            size.0 == self@.field_size().0,
            size.1 == self@.field_size().1,
            size.0 <= display_width(),
            size.1 <= display_height(),
    {
        let field_size = self.to_size((self.game_size.width, self.game_size.height));
        (field_size.0 as u32, field_size.1 as u32)
    }

    /// What is due now that a frame starts at the time `now`, which is
    /// remembered as the time of the last frame.
    pub fn start_frame(&mut self, now: u64) -> (frame: Frame)
        ensures
            frame == old(self)@.frame(now),
            final(self)@ =~= (GameSceneView { last_draw: Some(now), ..old(self)@ }),
    {
        let frame = match self.last_draw {
            None => Frame::First,
            Some(last_draw) => {
                if !self.is_paused && last_draw <= now {
                    Frame::Advance { millis: now - last_draw }
                } else {
                    Frame::Hold
                }
            },
        };
        self.last_draw = Some(now);
        frame
    }

    /// Records where the buttons were drawn. The arrows are left out where
    /// they are not wanted.
    pub fn place_buttons(
        &mut self,
        play_pause_button: Rect,
        back_button: Rect,
        arrow_buttons: Option<(Rect, Rect)>,
    )
        ensures
            final(self)@ =~= (GameSceneView {
                play_pause_button_hitbox: Some(play_pause_button),
                back_button_hitbox: Some(back_button),
                left_button_hitbox: match arrow_buttons {
                    Some(arrows) => Some(arrows.0),
                    None => old(self)@.left_button_hitbox,
                },
                right_button_hitbox: match arrow_buttons {
                    Some(arrows) => Some(arrows.1),
                    None => old(self)@.right_button_hitbox,
                },
                ..old(self)@
            }),
    {
        self.play_pause_button_hitbox = Some(play_pause_button);
        self.back_button_hitbox = Some(back_button);
        if let Some(arrows) = arrow_buttons {
            self.left_button_hitbox = Some(arrows.0);
            self.right_button_hitbox = Some(arrows.1);
        }
    }

    /// Whether the score is to be drawn anew because it is not the one that
    /// was drawn last. `score` is remembered as the one drawn last.
    pub fn score_changed(&mut self, score: u64) -> (changed: bool)
        ensures
            changed == (old(self)@.last_score != score),
            final(self)@ =~= (GameSceneView { last_score: score, ..old(self)@ }),
    {
        if self.last_score != score {
            self.last_score = score;
            true
        } else {
            false
        }
    }

    /// Takes in `event`, which arrives at the time `now`, in milliseconds,
    /// while the block with the number `block_id` is falling. Returns the
    /// actions that the game is to perform for it, in order.
    ///
    /// A button of the case moves or rotates the block. A finger that
    /// touches down is remembered; one that lifts soon and near where it
    /// touched down has tapped, on a button of the scene or to rotate the
    /// block. Every sample of a finger is also fed to the swipe tracker, and
    /// a swipe that it reports moves or drops the block, if the finger
    /// touched down while this block was falling.
    pub fn on_input(&mut self, event: InputEvent, now: u64, block_id: u32) -> (actions: Vec<Action>)
        ensures
            final(self).wf() == old(self).wf(),
            final(self)@ =~= old(self)@.after_input(event, now, block_id),
            actions@ == old(self)@.actions(event, now, block_id),
    {
        let mut actions: Vec<Action> = Vec::new();
        match event {
            InputEvent::GPIO { event } => {
                if let GPIOEvent::Press { button } = event {
                    match button {
                        PhysicalButton::MIDDLE => actions.push(Action::Rotate),
                        PhysicalButton::LEFT => actions.push(Action::MoveLeft),
                        PhysicalButton::RIGHT => actions.push(Action::MoveRight),
                        PhysicalButton::POWER => actions.push(Action::MoveDown),
                        PhysicalButton::WAKEUP => {},
                    }
                }
                assert(actions@ =~= button_actions(event));
            },
            InputEvent::MultitouchEvent { event } => {
                self.on_tap(event, now, block_id, &mut actions);
                self.on_swipe(event, block_id, &mut actions);
            },
            InputEvent::Unknown => {},
        }
        actions
    }

    /// Looks at the touch `event` as a press or a tap, and adds the actions
    /// of a tap to `actions`.
    fn on_tap(&mut self, event: MultitouchEvent, now: u64, block_id: u32, actions: &mut Vec<Action>)
        ensures
            final(self)@ =~= old(self)@.after_tap(event, now, block_id),
            final(actions)@ == old(actions)@ + old(self)@.tap_actions(event, now),
    {
        match event {
            MultitouchEvent::Press { finger } => {
                self.last_pressed_finger = Some((finger, now));
                id_map::insert(&mut self.finger_controls_which_block, finger.tracking_id, block_id);
            },
            MultitouchEvent::Release { finger: up_finger } => {
                if let Some((down_finger, down_when)) = self.last_pressed_finger {
                    if down_finger.tracking_id == up_finger.tracking_id && down_when <= now && now
                        - down_when < TAP_MAX_MILLIS {
                        if distance_squared(up_finger.pos, down_finger.pos) < TAP_MAX_DISTANCE
                            * TAP_MAX_DISTANCE {
                            if hit(self.play_pause_button_hitbox, up_finger.pos) {
                                self.is_paused = !self.is_paused;
                            } else if hit(self.back_button_hitbox, up_finger.pos) {
                                self.back_button_pressed = true;
                            } else if hit(self.left_button_hitbox, up_finger.pos) {
                                actions.push(Action::MoveLeft);
                            } else if hit(self.right_button_hitbox, up_finger.pos) {
                                actions.push(Action::MoveRight);
                            } else {
                                actions.push(Action::Rotate);
                            }
                        }
                    }
                }
            },
            _ => {},
        }
        assert(actions@ =~= old(actions)@ + old(self)@.tap_actions(event, now));
    }

    /// Feeds the touch `event` to the swipe tracker, and adds the actions of
    /// the swipe that it reports to `actions`.
    fn on_swipe(&mut self, event: MultitouchEvent, block_id: u32, actions: &mut Vec<Action>)
        ensures
            final(self)@ =~= old(self)@.after_swipe(event),
            final(actions)@ == old(actions)@ + old(self)@.touch_swipe_actions(event, block_id),
    {
        let finger = match event.finger() {
            Some(finger) => finger,
            None => {
                assert(actions@ =~= old(actions)@ + old(self)@.touch_swipe_actions(
                    event,
                    block_id,
                ));
                return ;
            },
        };
        let swipes = swipes();
        let tracking_id = finger.tracking_id;
        let fired = match self.swipe_tracker.detect(event, &swipes) {
            Some(swipe) => Some(*swipe),
            None => None,
        };
        let is_current = match id_map::get(&self.finger_controls_which_block, tracking_id) {
            Some(controlled) => *controlled == block_id,
            None => false,
        };
        if let Some(swipe) = fired {
            if is_current {
                match swipe.direction {
                    Direction::Left => actions.push(Action::MoveLeft),
                    Direction::Right => actions.push(Action::MoveRight),
                    Direction::Down => {
                        let mut dropped: usize = 0;
                        while dropped < self.game_size.height
                            invariant
                                dropped <= self.game_size.height,
                                actions@ == old(actions)@ + Seq::new(
                                    dropped as nat,
                                    |i: int| Action::MoveDown,
                                ),
                            decreases self.game_size.height - dropped,
                        {
                            actions.push(Action::MoveDown);
                            dropped = dropped + 1;
                        }
                    },
                    Direction::Up => actions.push(Action::Rotate),
                }
            }
        }
        if let MultitouchEvent::Release { .. } = event {
            id_map::remove(&mut self.finger_controls_which_block, tracking_id);
        }
        assert(actions@ =~= old(actions)@ + old(self)@.touch_swipe_actions(event, block_id));
    }

    /// Compares the cells that `blocks` fill with the cells that were filled
    /// when the blocks were last drawn, and returns the cells of the field
    /// that have changed, row by row from the top and in each row from the
    /// left. The cells that `blocks` fill are remembered for the next time.
    pub fn draw_blocks(&mut self, blocks: &[Cell]) -> (changed_rects: Vec<BlockChange>)
        requires
            old(self).wf(),
        ensures
            final(self).wf(),
            changed_rects@ == old(self)@.changes(occupied(blocks@)),
            final(self)@ =~= (GameSceneView { last_blocks: occupied(blocks@), ..old(self)@ }),
    {
        let filled_now = Self::filled_cells(blocks);
        let mut changed_rects: Vec<BlockChange> = Vec::new();
        let width = self.game_size.width;
        let height = self.game_size.height;
        let mut y: usize = 0;
        while y < height
            invariant
                y <= height,
                self.wf(),
                *self == *old(self),
                width == self.game_size.width,
                height == self.game_size.height,
                filled_now@ == occupied(blocks@),
                changed_rects@ == self@.changes_in(filled_now@, y as int),
            decreases height - y,
        {
            let ghost rows_before = changed_rects@;
            let mut x: usize = 0;
            while x < width
                invariant
                    x <= width,
                    y < height,
                    self.wf(),
                    *self == *old(self),
                    width == self.game_size.width,
                    height == self.game_size.height,
                    filled_now@ == occupied(blocks@),
                    changed_rects@ == rows_before + self@.row_changes(
                        filled_now@,
                        y as int,
                        x as int,
                    ),
                decreases width - x,
            {
                let key = cell_number(x as u8, y as u8);
                let was_filled = self.last_blocks.contains(&key);
                let is_filled = filled_now.contains(&key);
                if was_filled != is_filled {
                    let block_start = self.to_coords((x, y));
                    let block_size = self.to_size((1, 1));
                    changed_rects.push(
                        BlockChange {
                            x,
                            y,
                            rect: Rect {
                                left: block_start.0 as u32,
                                top: block_start.1 as u32,
                                width: block_size.0 as u32,
                                height: block_size.1 as u32,
                            },
                            filled: is_filled,
                        },
                    );
                }
                x = x + 1;
                assert(changed_rects@ =~= rows_before + self@.row_changes(
                    filled_now@,
                    y as int,
                    x as int,
                ));
            }
            y = y + 1;
        }
        self.last_blocks = filled_now;
        changed_rects
    }

    /// The set of the cells that `blocks` fill.
    fn filled_cells(blocks: &[Cell]) -> (filled: HashSet<u16>)
        ensures
            filled@ == occupied(blocks@),
    {
        let mut filled: HashSet<u16> = HashSet::new();
        let mut i: usize = 0;
        while i < blocks.len()
            invariant
                i <= blocks.len(),
                filled@ == occupied(blocks@.take(i as int)),
            decreases blocks.len() - i,
        {
            filled.insert(cell_number(blocks[i].x, blocks[i].y));
            assert(blocks@.take(i + 1).drop_last() =~= blocks@.take(i as int));
            i = i + 1;
        }
        assert(blocks@.take(i as int) =~= blocks@);
        filled
    }

    /// The order in which the changed cells are to be refreshed on the
    /// display: first those that are filled now, then those that are empty
    /// now, each group in the order of `changes`.
    pub fn refresh_order(changes: &[BlockChange]) -> (rects: Vec<Rect>)
        ensures
            rects@ == rects_where(changes@, true) + rects_where(changes@, false),
    {
        let mut rects: Vec<Rect> = Vec::new();
        let mut i: usize = 0;
        while i < changes.len()
            invariant
                i <= changes.len(),
                rects@ == rects_where(changes@.take(i as int), true),
            decreases changes.len() - i,
        {
            if changes[i].filled {
                rects.push(changes[i].rect);
            }
            assert(changes@.take(i + 1).drop_last() =~= changes@.take(i as int));
            i = i + 1;
        }
        assert(changes@.take(i as int) =~= changes@);
        let mut j: usize = 0;
        while j < changes.len()
            invariant
                j <= changes.len(),
                rects@ == rects_where(changes@, true) + rects_where(changes@.take(j as int), false),
            decreases changes.len() - j,
        {
            if !changes[j].filled {
                rects.push(changes[j].rect);
            }
            assert(changes@.take(j + 1).drop_last() =~= changes@.take(j as int));
            j = j + 1;
        }
        assert(changes@.take(j as int) =~= changes@);
        rects
    }

    /// The area below the field in which the score is written: as wide as
    /// the field, and high enough for a line in the score's font.
    pub fn score_area(&self) -> (area: Rect)
        requires
            self.wf(),
        ensures
            area.left == self@.field_start().0,
            area.top == self@.field_start().1 + self@.field_size().1 + 3,
            area.width == self@.field_size().0,
            area.height == SCORE_FONT_SIZE + 30,
    {
        let field_start = self.field_start_u32();
        let field_size = self.field_size();
        Rect {
            left: field_start.0,
            top: field_start.1 + field_size.1 + 3,
            width: field_size.0,
            height: SCORE_FONT_SIZE + 30,
        }
    }

    /// Where the score is written: a little to the right of the field's left
    /// edge, with the base line a line's height below the field.
    pub fn score_origin(&self) -> (origin: Placement)
        requires
            self.wf(),
        ensures
            origin.x == Some((self@.field_start().0 + 10) as i32),
            origin.y == Some(
                (self@.field_start().1 + self@.field_size().1 + SCORE_FONT_SIZE + 5) as i32,
            ),
    {
        let field_start = self.field_start_u32();
        let field_size = self.field_size();
        Placement {
            x: Some((field_start.0 + 10) as i32),
            y: Some((field_start.1 + field_size.1 + SCORE_FONT_SIZE + 5) as i32),
        }
    }

    /// Where the title goes: centred, 50 pixels above the field.
    pub fn title_placement(&self) -> (placement: Placement)
        requires
            self.wf(),
        ensures
            placement.x is None,
            placement.y == Some((self@.field_start().1 - 50) as i32),
    {
        Placement { x: None, y: Some(self.field_start_i32().1 - 50) }
    }

    /// The border around the field: two pixels away from it on every side.
    pub fn field_border(&self) -> (border: Rect)
        requires
            self.wf(),
        ensures
            border.left == self@.field_start().0 - 2,
            border.top == self@.field_start().1 - 2,
            border.width == 2 + self@.field_size().0 + 2,
            border.height == 2 + self@.field_size().1 + 2,
    {
        let field_start = self.field_start_i32();
        let field_size = self.field_size();
        Rect {
            left: (field_start.0 - 2) as u32,
            top: (field_start.1 - 2) as u32,
            width: 2 + field_size.0 + 2,
            height: 2 + field_size.1 + 2,
        }
    }

    /// Where the label of the pause button goes.
    pub fn pause_button_placement() -> (placement: Placement)
        ensures
            placement == (Placement { x: Some(50), y: Some(BUTTON_ROW_Y) }),
    {
        Placement { x: Some(50), y: Some(BUTTON_ROW_Y) }
    }

    /// Where the label of the back button goes: in a row with the pause
    /// button, 50 pixels to the right of its frame `play_pause_button`.
    pub fn back_button_placement(play_pause_button: Rect) -> (placement: Placement)
        requires
            play_pause_button.left + play_pause_button.width + 50 <= i32::MAX,
        ensures
            placement.x == Some((play_pause_button.left + play_pause_button.width + 50) as i32),
            placement.y == Some(BUTTON_ROW_Y),
    {
        Placement {
            x: Some(play_pause_button.left as i32 + play_pause_button.width as i32 + 50),
            y: Some(BUTTON_ROW_Y),
        }
    }

    /// Where the label of the left arrow goes.
    pub fn left_button_placement() -> (placement: Placement)
        ensures
            placement == (Placement { x: Some(ARROW_MARGIN), y: Some(ARROW_ROW_Y) }),
    {
        Placement { x: Some(ARROW_MARGIN), y: Some(ARROW_ROW_Y) }
    }

    /// Where the label of the right arrow goes: in a row with the left
    /// arrow, as far from the right edge of the display as the frame
    /// `left_button` of the left arrow reaches in from the left edge, less
    /// the gap between a label and its frame.
    pub fn right_button_placement(left_button: Rect) -> (placement: Placement)
        requires
            left_button.left + left_button.width <= i32::MAX,
        ensures
            placement.x == Some(
                (display_width() + ARROW_HGAP - (left_button.left + left_button.width)) as i32,
            ),
            placement.y == Some(ARROW_ROW_Y),
    {
        Placement {
            x: Some(
                displaywidth() as i32 + ARROW_HGAP as i32 - (left_button.left as i32
                    + left_button.width as i32),
            ),
            y: Some(ARROW_ROW_Y),
        }
    }

    /// What follows the scene.
    pub fn transition(&self, game_over: bool, score: u64) -> (next: Transition)
        ensures
            next == self@.transition(game_over, score),
    {
        if game_over {
            Transition::MainMenu { score: Some(score) }
        } else if self.back_button_pressed {
            Transition::MainMenu { score: None }
        } else {
            Transition::Stay
        }
    }
}

} // verus!
