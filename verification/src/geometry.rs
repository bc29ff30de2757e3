//! Pixel coordinates and rectangles.

use vstd::prelude::*;

verus! {

/// A pixel coordinate on the touch surface or the display.
#[derive(Debug, Copy, Clone, PartialEq, Eq, Hash, Structural)]
pub struct Position {
    pub x: u16,
    pub y: u16,
}

/// A rectangle on the display, given by its top left corner and its size in
/// pixels.
#[derive(Debug, Copy, Clone, PartialEq, Eq, Hash, Structural)]
pub struct Rect {
    pub top: u32,
    pub left: u32,
    pub width: u32,
    pub height: u32,
}

/// A size in whole units: blocks or pixels.
#[derive(Debug, Copy, Clone, PartialEq, Eq, Hash, Structural)]
pub struct Size {
    pub width: usize,
    pub height: usize,
}

/// A cell of the field, by its column and its row.
#[derive(Debug, Copy, Clone, PartialEq, Eq, Hash, Structural)]
pub struct Cell {
    pub x: u8,
    pub y: u8,
}

impl Rect {
    /// Whether `pos` lies in the rectangle. The left and the top edge belong
    /// to it, the right and the bottom edge do not.
    pub open spec fn contains(self, pos: Position) -> bool {
        &&& self.left <= pos.x < self.left + self.width
        &&& self.top <= pos.y < self.top + self.height
    }
}

/// Whether a touch at `pos` hits the rectangle `hitbox`.
pub fn is_hitting(pos: Position, hitbox: Rect) -> (hit: bool)
    ensures
        hit == hitbox.contains(pos),
{
    let x: u64 = pos.x as u64;
    let y: u64 = pos.y as u64;
    x >= hitbox.left as u64 && x < hitbox.left as u64 + hitbox.width as u64 && y
        >= hitbox.top as u64 && y < hitbox.top as u64 + hitbox.height as u64
}

} // verus!
