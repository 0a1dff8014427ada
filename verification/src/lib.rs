//! The runtime core of a small golf game for a handheld calculator: a stack of application
//! states driven frame by frame, and the rules of the course.

use vstd::prelude::*;

pub mod display;
pub mod eadk;
pub mod escher;
pub mod game;
pub mod golf;
pub mod graphmgr;
pub mod keyboard;
pub mod menu;
pub mod utils;

verus! {

/// How to handle the end of the main app.
#[derive(Clone, Copy, PartialEq, Eq, Structural, Debug)]
pub enum ExitBehaviour {
    Exit,
    Hang,
    Restart,
}

/// What a state that is popped tells the state beneath it.
#[derive(Clone, Copy, PartialEq, Eq, Structural, Debug)]
pub enum PopMessage {
    /// The answer to a popup that asks to confirm or to go back: whether it was confirmed.
    OkBackPopupIsOk(bool),
    /// Nothing to tell.
    Nothing,
}

} // verus!
