//! Recognition of single-finger swipes in the four cardinal directions.
//!
//! A [`SwipeTracker`] owns one [`TrackedFinger`] per finger that is currently
//! down. Each sample of a finger is routed to its tracker, and the tracker's
//! new state is held against a caller-supplied list of [`Swipe`] descriptors;
//! the first descriptor in list order that is due is reported.

use vstd::prelude::*;

pub mod direction;
pub mod drag;
pub mod finger;
pub mod tracker;

pub use direction::classify;
pub use direction::direction_between;
pub use direction::is_dominant;
pub use direction::magnitude;
pub use finger::TrackedFinger;
pub use tracker::SwipeTracker;

verus! {

/// Distance in pixels that a finger has to travel from its anchor, along the
/// x or the y axis, before the motion is classified.
pub const SWIPE_DIRECTION_CHUNK_DIST: u16 = 25;

/// Number of counted chunks a finger needs for a swipe to count as completed
/// when it lifts.
pub const SWIPE_DIRECTION_COMPLETED_MIN_CHUNK_COUNT: u16 = 2;

/// Numerator of the minimum ratio between the travel along a direction and
/// the travel across it. The ratio is `3 / 2`.
pub const SWIPE_DIRECTION_MIN_RATIO_NUM: u16 = 3;

/// Denominator of the minimum ratio.
pub const SWIPE_DIRECTION_MIN_RATIO_DEN: u16 = 2;

/// Whether a finger whose motion was invalidated may start a new swipe
/// without being lifted first.
pub const SWIPE_ALLOW_MULTIPLE_SWIPES_AT_ONCE: bool = true;

/// The four cardinal directions a swipe can have.
#[derive(Debug, Copy, Clone, PartialEq, Eq, Hash, Structural)]
pub enum Direction {
    Up,
    Down,
    Left,
    Right,
}

/// When a watched swipe is reported.
#[derive(Debug, Copy, Clone, PartialEq, Eq, Hash, Structural)]
pub enum Trigger {
    /// Reported when the finger lifts.
    Completed,
    /// Reported as soon as the counted travel reaches the given number of
    /// pixels. The finger then starts over and can be reported again without
    /// lifting.
    MinDistance(u16),
}

/// A swipe the caller wants to hear about.
#[derive(Debug, Copy, Clone, PartialEq, Eq, Hash, Structural)]
pub struct Swipe {
    pub direction: Direction,
    pub trigger: Trigger,
}

} // verus!
