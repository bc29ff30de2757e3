//! Gesture and scene logic of a falling-block game for an e-ink touchscreen.
//!
//! The heart of the crate is [`swipe`]: a per-finger state machine that turns a
//! stream of press / move / release samples into directional swipes. The other
//! modules hold the decisions of the game's scenes, each as a function from
//! plain values to plain values, so that the code that talks to the display and
//! to the input devices only has to carry values back and forth.

pub mod canvas;
pub mod geometry;
pub mod id_map;
pub mod input;
pub mod opts;
pub mod randomizer;
pub mod scene;
pub mod swipe;
pub mod texture;
