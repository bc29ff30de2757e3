//! Where things go on the display.
//!
//! Drawing itself is left to the caller. This module computes the places: the
//! origin of a text that is to be centred, the area that a rectangle covers,
//! and the frame of a button around its label.

use crate::geometry::Rect;
use vstd::prelude::*;

verus! {

/// The width of the display in pixels.
pub open spec fn display_width() -> int {
    1404
}

/// The height of the display in pixels.
pub open spec fn display_height() -> int {
    1872
}

/// The constant `libremarkable::dimensions::DISPLAYWIDTH`, which that crate
/// defines as 1404.
#[verifier::external_body]
pub(crate) fn displaywidth() -> (width: u16)
    ensures
        width == display_width(),
{
    libremarkable::dimensions::DISPLAYWIDTH
}

/// The constant `libremarkable::dimensions::DISPLAYHEIGHT`, which that crate
/// defines as 1872.
#[verifier::external_body]
pub(crate) fn displayheight() -> (height: u16)
    ensures
        height == display_height(),
{
    libremarkable::dimensions::DISPLAYHEIGHT
}

/// Where to put something on the display. A coordinate that is left out
/// stands for "centred on that axis".
#[derive(Debug, Copy, Clone, PartialEq, Eq, Structural)]
pub struct Placement {
    pub x: Option<i32>,
    pub y: Option<i32>,
}

/// The coordinate at which something `extent` pixels long starts when it is
/// centred in `display` pixels.
pub open spec fn centered(display: int, extent: int) -> int {
    display / 2 - extent / 2
}

/// A coordinate as the display driver takes it: a negative one wraps around
/// to the far end of the unsigned range.
pub open spec fn wrapped(coordinate: int) -> int {
    if coordinate < 0 {
        coordinate + 0x1_0000_0000
    } else {
        coordinate
    }
}

/// The top left corner of something of the given size that is placed at
/// `pos`: the coordinates that `pos` gives, and on each axis that it leaves
/// out the coordinate that centres the thing on the display.
pub open spec fn origin_of(pos: Placement, width: int, height: int) -> (int, int) {
    (
        match pos.x {
            Some(x) => x as int,
            None => centered(display_width(), width),
        },
        match pos.y {
            Some(y) => y as int,
            None => centered(display_height(), height),
        },
    )
}

/// The area covered by something of the given size that is placed at `pos`.
pub open spec fn area_of(pos: Placement, width: u32, height: u32) -> Rect {
    Rect {
        top: wrapped(origin_of(pos, width as int, height as int).1) as u32,
        left: wrapped(origin_of(pos, width as int, height as int).0) as u32,
        width,
        height,
    }
}

/// The frame of a button: the rectangle that leaves `hgap` pixels to the left
/// and to the right of the label's rectangle and `vgap` pixels above and
/// below it.
pub open spec fn frame_of(label: Rect, vgap: u32, hgap: u32) -> Rect {
    Rect {
        top: (label.top - vgap) as u32,
        left: (label.left - hgap) as u32,
        width: (hgap + label.width + hgap) as u32,
        height: (vgap + label.height + vgap) as u32,
    }
}

/// Whether the frame of a button around `label` can be given in display
/// coordinates: it starts at or after 0 on both axes and its size fits the
/// coordinate type.
pub open spec fn frame_fits(label: Rect, vgap: u32, hgap: u32) -> bool {
    &&& label.top >= vgap
    &&& label.left >= hgap
    &&& hgap + label.width + hgap <= u32::MAX
    &&& vgap + label.height + vgap <= u32::MAX
}

/// The coordinate at which something `extent` pixels long starts when it is
/// centred in `display` pixels.
fn center(display: u16, extent: u32) -> (start: i32)
    ensures
        start == centered(display as int, extent as int),
{
    (display / 2) as i32 - (extent / 2) as i32
}

/// The origin at which to draw a text that takes `width` by `height` pixels
/// and is placed at `pos`.
pub fn text_origin(pos: Placement, width: u32, height: u32) -> (origin: (i32, i32))
    ensures
        origin.0 == origin_of(pos, width as int, height as int).0,
        origin.1 == origin_of(pos, width as int, height as int).1,
{
    let x = match pos.x {
        Some(x) => x,
        None => center(displaywidth(), width),
    };
    let y = match pos.y {
        Some(y) => y,
        None => center(displayheight(), height),
    };
    (x, y)
}

/// `coordinate` as the display driver takes it.
fn wrap(coordinate: i32) -> (unsigned: u32)
    ensures
        unsigned == wrapped(coordinate as int),
{
    if coordinate < 0 {
        (coordinate as i64 + 0x1_0000_0000) as u32
    } else {
        coordinate as u32
    }
}

/// The area that a rectangle of `width` by `height` pixels covers when it is
/// placed at `pos`.
pub fn rect_area(pos: Placement, width: u32, height: u32) -> (area: Rect)
    ensures
        area == area_of(pos, width, height),
{
    let origin = text_origin(pos, width, height);
    Rect { top: wrap(origin.1), left: wrap(origin.0), width, height }
}

/// Whether the frame of a button around `label` can be given in display
/// coordinates.
pub fn fits_frame(label: Rect, vgap: u32, hgap: u32) -> (fits: bool)
    ensures
        fits == frame_fits(label, vgap, hgap),
{
    label.top >= vgap && label.left >= hgap && hgap as u64 + label.width as u64 + hgap as u64
        <= u32::MAX as u64 && vgap as u64 + label.height as u64 + vgap as u64 <= u32::MAX as u64
}

/// The frame of a button whose label covers `label`, with `vgap` pixels
/// between label and frame above and below and `hgap` pixels to the left and
/// to the right.
pub fn button_frame(label: Rect, vgap: u32, hgap: u32) -> (frame: Rect)
    requires
        frame_fits(label, vgap, hgap),
    ensures
        frame == frame_of(label, vgap, hgap),
{
    Rect {
        top: label.top - vgap,
        left: label.left - hgap,
        width: hgap + label.width + hgap,
        height: vgap + label.height + vgap,
    }
}

} // verus!
