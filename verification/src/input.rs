//! The events that the input devices report, as far as the game reads them.

use crate::geometry::Position;
use vstd::prelude::*;

verus! {

/// One finger as the touchscreen reports it.
#[derive(Debug, Copy, Clone, PartialEq, Eq, Structural)]
pub struct Finger {
    /// Identifies the finger for as long as it stays down.
    pub tracking_id: i32,
    pub pos: Position,
}

/// A sample from the touchscreen.
#[derive(Debug, Copy, Clone, PartialEq, Eq, Structural)]
pub enum MultitouchEvent {
    Press { finger: Finger },
    Release { finger: Finger },
    Move { finger: Finger },
    /// Anything that is not the press, move or release of a finger.
    Unknown,
}

impl MultitouchEvent {
    /// The finger that the sample is about.
    pub open spec fn spec_finger(self) -> Option<Finger> {
        match self {
            MultitouchEvent::Press { finger } => Some(finger),
            MultitouchEvent::Release { finger } => Some(finger),
            MultitouchEvent::Move { finger } => Some(finger),
            MultitouchEvent::Unknown => None,
        }
    }

    /// The finger that the sample is about.
    #[verifier::when_used_as_spec(spec_finger)]
    pub fn finger(self) -> (finger: Option<Finger>)
        ensures
            finger == self.spec_finger(),
    {
        match self {
            MultitouchEvent::Press { finger } => Some(finger),
            MultitouchEvent::Release { finger } => Some(finger),
            MultitouchEvent::Move { finger } => Some(finger),
            MultitouchEvent::Unknown => None,
        }
    }
}

/// The buttons on the device's case.
#[derive(Debug, Copy, Clone, PartialEq, Eq, Structural)]
pub enum PhysicalButton {
    LEFT,
    MIDDLE,
    RIGHT,
    POWER,
    WAKEUP,
}

/// An event of one of the buttons.
#[derive(Debug, Copy, Clone, PartialEq, Eq, Structural)]
pub enum GPIOEvent {
    Press { button: PhysicalButton },
    Unpress { button: PhysicalButton },
    Unknown,
}

/// An event of any of the input devices.
#[derive(Debug, Copy, Clone, PartialEq, Eq, Structural)]
#[allow(inconsistent_fields)]
pub enum InputEvent {
    MultitouchEvent { event: MultitouchEvent },
    GPIO { event: GPIOEvent },
    /// An event of a device that the game does not listen to.
    Unknown,
}

} // verus!
