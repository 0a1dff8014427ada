//! A small user interface: events, boxes with margins, and text in a fixed font. This module
//! holds the layout; drawing is left to the caller.

use vstd::prelude::*;

pub mod components;
pub mod text;

verus! {

/// The color of a component that is not selected.
pub const IDLE_COLOR: u16 = 57083;

/// The color of a selected component.
pub const SELECT_COLOR: u16 = 48631;

/// An event of the user interface.
#[derive(Clone, Copy, PartialEq, Eq, Structural, Debug)]
pub enum UiEvent {
    /// No input: everything is drawn again.
    Nothing,
    /// `Ok` or `Exe`.
    Okay,
    Up,
    Down,
    Left,
    Right,
    Back,
    Number(u8),
    Backspace,
}

} // verus!
