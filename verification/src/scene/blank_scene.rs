//! A scene that shows nothing.

use vstd::prelude::*;

verus! {

/// A scene that blanks the display once and then leaves it alone.
pub struct BlankScene {
    blanked_out: bool,
}

impl View for BlankScene {
    type V = bool;

    /// Whether the display has been blanked.
    closed spec fn view(&self) -> bool {
        self.blanked_out
    }
}

impl BlankScene {
    /// A scene that has not blanked the display yet.
    pub fn new() -> (scene: Self)
        ensures
            !scene@,
    {
        Self { blanked_out: false }
    }

    /// Whether the display is to be cleared and refreshed now. That is so the
    /// first time the scene is drawn, and never again.
    pub fn draw(&mut self) -> (blank_now: bool)
        ensures
            blank_now == !old(self)@,
            final(self)@,
    {
        if !self.blanked_out {
            self.blanked_out = true;
            true
        } else {
            false
        }
    }
}

} // verus!
