//! The options that the program is started with.

use vstd::prelude::*;

verus! {

/// The options of the command line.
#[derive(Debug, Copy, Clone, PartialEq, Eq, Structural)]
pub struct Opts {
    /// Stop the tablet's own user interface if it is running.
    pub kill_xochitl: bool,
    /// Do not show the arrows to the left and to the right on the display.
    pub no_arrow_buttons: bool,
}

impl Opts {
    /// Whether the tablet's own user interface is to be stopped, given the
    /// exit code with which the search for its process ended, if the search
    /// could be run. It is stopped if that is asked for and the process was
    /// found, which an exit code of 0 says.
    pub fn stops_xochitl(&self, search_exit_code: Option<i32>) -> (stops: bool)
        ensures
            stops == (self.kill_xochitl && search_exit_code == Some(0i32)),
    {
        if !self.kill_xochitl {
            false
        } else {
            match search_exit_code {
                Some(code) => code == 0,
                None => false,
            }
        }
    }

    /// Whether the arrows are shown on the display.
    pub fn shows_arrow_buttons(&self) -> (shows: bool)
        ensures
            shows == !self.no_arrow_buttons,
    {
        !self.no_arrow_buttons
    }
}

} // verus!
