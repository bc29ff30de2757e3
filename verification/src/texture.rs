//! The patterns that the blocks are filled with.
//!
//! The display knows black and white only, so each kind of block has a
//! pattern of its own in place of a colour. A pattern says of every pixel of
//! a block, counted from the block's top left corner, whether it is black.

use vstd::prelude::*;

verus! {

/// The kinds of block, named after the letter that a figure of four such
/// blocks looks like.
#[derive(Debug, Copy, Clone, PartialEq, Eq, Hash, Structural)]
pub enum BlockKind {
    I,
    J,
    L,
    O,
    S,
    T,
    Z,
}

/// Whether the pixel in column `x` and row `y` of a block of the kind `kind`
/// is black.
pub open spec fn is_black(kind: BlockKind, x: int, y: int) -> bool {
    match kind {
        BlockKind::I => x * y % 5 == 0,
        BlockKind::J => x % 5 == 0 || y % 2 == 0,
        BlockKind::L => y % 5 == 0,
        BlockKind::O => y * x % 10 > 3,
        BlockKind::S => x * y % 5 != 0,
        BlockKind::T => y * x * 3 % 10 == 0,
        BlockKind::Z => y % 5 == 0,
    }
}

/// Whether the pixel in column `x` and row `y` of a block of the kind `kind`
/// is black.
pub fn texture_pixel(kind: BlockKind, x: u32, y: u32) -> (black: bool)
    ensures
        black == is_black(kind, x as int, y as int),
{
    let wide_x: u128 = x as u128;
    let wide_y: u128 = y as u128;
    assert(wide_x * wide_y <= 0xffff_ffff * 0xffff_ffff && wide_x * wide_y == wide_y * wide_x)
        by (nonlinear_arith)
        requires
            wide_x <= 0xffff_ffff,
            wide_y <= 0xffff_ffff,
    ;
    let product: u128 = wide_x * wide_y;
    match kind {
        BlockKind::I => product % 5 == 0,
        BlockKind::J => x % 5 == 0 || y % 2 == 0,
        BlockKind::L => y % 5 == 0,
        BlockKind::O => product % 10 > 3,
        BlockKind::S => product % 5 != 0,
        BlockKind::T => product * 3 % 10 == 0,
        BlockKind::Z => y % 5 == 0,
    }
}

} // verus!
