//! The screen that ends a level.

use vstd::prelude::*;

use crate::graphmgr::StackAction;
use crate::keyboard::{KeyboardTimedState, RawKey};
use crate::PopMessage;

verus! {

/// The end of a level, with the number of hits that it took.
#[derive(Clone, Copy, PartialEq, Eq, Structural, Debug)]
pub struct GameOverState(pub u8);

impl GameOverState {
    /// What the screen asks of the stack for a keyboard state: any of `Back`, `Ok` and `Exe`
    /// pops it.
    pub open spec fn update_spec<S>(
        keyboard_state: KeyboardTimedState,
    ) -> StackAction<PopMessage, S> {
        if keyboard_state.pressing().holds(RawKey::Back)
            || keyboard_state.pressing().holds(RawKey::Okay)
            || keyboard_state.pressing().holds(RawKey::Exe) {
            StackAction::Pop(PopMessage::Nothing)
        } else {
            StackAction::Nop
        }
    }

    /// The logic of the screen for one frame: it leaves the stack as soon as one of its keys
    /// is just pressed.
    pub fn update<S>(
        &mut self,
        keyboard_state: &KeyboardTimedState,
    ) -> (action: StackAction<PopMessage, S>)
        ensures
            action == Self::update_spec::<S>(*keyboard_state),
            *final(self) == *old(self),
    {
        if keyboard_state.is_key_just_pressed(RawKey::Back)
            || keyboard_state.is_key_just_pressed(RawKey::Okay)
            || keyboard_state.is_key_just_pressed(RawKey::Exe) {
            StackAction::Pop(PopMessage::Nothing)
        } else {
            StackAction::Nop
        }
    }
}

} // verus!
