//! The scenes of the game: what each of them remembers, what it makes of the
//! input, and which scene comes next. What a scene shows is drawn by the
//! caller, who asks the scene what is due.

use crate::geometry::Size;
use vstd::prelude::*;

pub mod blank_scene;
pub mod game_scene;
pub mod main_menu_scene;

pub use blank_scene::BlankScene;
pub use game_scene::GameScene;
pub use main_menu_scene::MainMenuScene;

verus! {

/// The width of the field that a game is played on, in blocks.
pub const GAME_WIDTH: usize = 10;

/// The height of the field that a game is played on, in blocks.
pub const GAME_HEIGHT: usize = 22;

/// What follows a scene once its input is handled and it is drawn.
#[derive(Debug, Copy, Clone, PartialEq, Eq, Structural)]
pub enum Transition {
    /// The scene stays.
    Stay,
    /// The main menu follows. It shows `score` if there is one.
    MainMenu { score: Option<u64> },
    /// A game on a field of `game_size` blocks follows.
    Game { game_size: Size },
    /// The program ends.
    Exit,
}

} // verus!
