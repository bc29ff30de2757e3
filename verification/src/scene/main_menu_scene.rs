//! The main menu.

use super::Transition;
use super::GAME_HEIGHT;
use super::GAME_WIDTH;
use crate::canvas::button_frame;
use crate::canvas::frame_fits;
use crate::canvas::frame_of;
use crate::geometry::is_hitting;
use crate::geometry::Rect;
use crate::geometry::Size;
use crate::input::InputEvent;
use crate::input::MultitouchEvent;
use vstd::prelude::*;

verus! {

/// Pixels between the label of a menu button and its frame, above and below.
pub const MENU_BUTTON_VGAP: u32 = 25;

/// Pixels between the label of a menu button and its frame, to the left and
/// to the right.
pub const MENU_BUTTON_HGAP: u32 = 50;

/// The main menu: a title, the score of the game that has just ended, if
/// there was one, and the buttons to play and to leave.
pub struct MainMenuScene {
    drawn: bool,
    play_button_hitbox: Option<Rect>,
    pub play_button_pressed: bool,
    exit_button_hitbox: Option<Rect>,
    pub exit_button_pressed: bool,
    score: Option<u64>,
}

/// What a main menu remembers.
pub struct MainMenu {
    pub drawn: bool,
    pub play_button_hitbox: Option<Rect>,
    pub play_button_pressed: bool,
    pub exit_button_hitbox: Option<Rect>,
    pub exit_button_pressed: bool,
    pub score: Option<u64>,
}

impl MainMenu {
    /// Whether a touch of `event` lands on the button with hitbox `hitbox`.
    pub open spec fn presses(event: InputEvent, hitbox: Option<Rect>) -> bool {
        &&& event matches InputEvent::MultitouchEvent {
            event: MultitouchEvent::Press { finger },
        }
        &&& hitbox matches Some(hitbox)
        &&& hitbox.contains(finger.pos)
    }

    /// The menu after `event`: a button is pressed once a finger has touched
    /// down on it, and stays so.
    pub open spec fn after_input(self, event: InputEvent) -> MainMenu {
        MainMenu {
            play_button_pressed: self.play_button_pressed || Self::presses(
                event,
                self.play_button_hitbox,
            ),
            exit_button_pressed: self.exit_button_pressed || Self::presses(
                event,
                self.exit_button_hitbox,
            ),
            ..self
        }
    }

    /// What follows the menu: a game if the button to play is pressed, the
    /// end of the program if only the button to leave is.
    pub open spec fn transition(self) -> Transition {
        if self.play_button_pressed {
            Transition::Game { game_size: Size { width: GAME_WIDTH, height: GAME_HEIGHT } }
        } else if self.exit_button_pressed {
            Transition::Exit
        } else {
            Transition::Stay
        }
    }
}

impl View for MainMenuScene {
    type V = MainMenu;

    closed spec fn view(&self) -> MainMenu {
        MainMenu {
            drawn: self.drawn,
            play_button_hitbox: self.play_button_hitbox,
            play_button_pressed: self.play_button_pressed,
            exit_button_hitbox: self.exit_button_hitbox,
            exit_button_pressed: self.exit_button_pressed,
            score: self.score,
        }
    }
}

impl MainMenuScene {
    /// A menu that is not drawn yet and shows `score`.
    pub fn new(score: Option<u64>) -> (scene: Self)
        ensures
            scene@ == (MainMenu {
                drawn: false,
                play_button_hitbox: None,
                play_button_pressed: false,
                exit_button_hitbox: None,
                exit_button_pressed: false,
                score,
            }),
    {
        Self {
            drawn: false,
            play_button_hitbox: None,
            play_button_pressed: false,
            exit_button_hitbox: None,
            exit_button_pressed: false,
            score,
        }
    }

    /// The score that the menu shows.
    pub fn score(&self) -> (score: Option<u64>)
        ensures
            score == self@.score,
    {
        self.score
    }

    /// Whether the menu is to be drawn now. That is so the first time, and
    /// never again.
    pub fn draw(&mut self) -> (draw_now: bool)
        ensures
            draw_now == !old(self)@.drawn,
            final(self)@ == (MainMenu { drawn: true, ..old(self)@ }),
    {
        if self.drawn {
            return false;
        }
        self.drawn = true;
        true
    }

    /// The frame of a menu button whose label covers `label`.
    pub fn draw_button(label: Rect) -> (frame: Rect)
        requires
            frame_fits(label, MENU_BUTTON_VGAP, MENU_BUTTON_HGAP),
        ensures
            frame == frame_of(label, MENU_BUTTON_VGAP, MENU_BUTTON_HGAP),
    {
        button_frame(label, MENU_BUTTON_VGAP, MENU_BUTTON_HGAP)
    }

    /// Records where the two buttons were drawn.
    pub fn place_buttons(&mut self, play_button: Rect, exit_button: Rect)
        ensures
            final(self)@ == (MainMenu {
                play_button_hitbox: Some(play_button),
                exit_button_hitbox: Some(exit_button),
                ..old(self)@
            }),
    {
        self.play_button_hitbox = Some(play_button);
        self.exit_button_hitbox = Some(exit_button);
    }

    /// Takes in an event: a finger that touches down on a button presses it.
    pub fn on_input(&mut self, event: InputEvent)
        ensures
            final(self)@ == old(self)@.after_input(event),
    {
        if let InputEvent::MultitouchEvent { event } = event {
            if let MultitouchEvent::Press { finger } = event {
                let position = finger.pos;
                if let Some(hitbox) = self.play_button_hitbox {
                    if is_hitting(position, hitbox) {
                        self.play_button_pressed = true;
                    }
                }
                if let Some(hitbox) = self.exit_button_hitbox {
                    if is_hitting(position, hitbox) {
                        self.exit_button_pressed = true;
                    }
                }
            }
        }
    }

    /// What follows the menu.
    pub fn transition(&self) -> (next: Transition)
        ensures
            next == self@.transition(),
    {
        if self.play_button_pressed {
            Transition::Game { game_size: Size { width: GAME_WIDTH, height: GAME_HEIGHT } }
        } else if self.exit_button_pressed {
            Transition::Exit
        } else {
            Transition::Stay
        }
    }
}

} // verus!
