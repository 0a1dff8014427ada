//! A popup that asks the player to confirm or to go back.

use vstd::prelude::*;

use crate::graphmgr::StackAction;
use crate::keyboard::{KeyboardTimedState, RawKey};
use crate::PopMessage;

verus! {

/// A popup with its question.
#[derive(Clone, PartialEq, Eq, Debug)]
pub struct PopupState(pub String);

impl PopupState {
    /// What the popup asks of the stack for a keyboard state: `Back` pops it with the answer
    /// no, `Ok` or `Exe` pops it with the answer yes, and `Back` goes first.
    pub open spec fn update_spec<S>(
        keyboard_state: KeyboardTimedState,
    ) -> StackAction<PopMessage, S> {
        if keyboard_state.pressing().holds(RawKey::Back) {
            StackAction::Pop(PopMessage::OkBackPopupIsOk(false))
        } else if keyboard_state.pressing().holds(RawKey::Okay)
            || keyboard_state.pressing().holds(RawKey::Exe) {
            StackAction::Pop(PopMessage::OkBackPopupIsOk(true))
        } else {
            StackAction::Nop
        }
    }

    /// The logic of the popup for one frame: it leaves the stack with the player's answer as
    /// soon as one of its keys is just pressed.
    pub fn update<S>(
        &mut self,
        keyboard_state: &KeyboardTimedState,
    ) -> (action: StackAction<PopMessage, S>)
        ensures
            action == Self::update_spec::<S>(*keyboard_state),
            *final(self) == *old(self),
    {
        if keyboard_state.is_key_just_pressed(RawKey::Back) {
            StackAction::Pop(PopMessage::OkBackPopupIsOk(false))
        } else if keyboard_state.is_key_just_pressed(RawKey::Okay)
            || keyboard_state.is_key_just_pressed(RawKey::Exe) {
            StackAction::Pop(PopMessage::OkBackPopupIsOk(true))
        } else {
            StackAction::Nop
        }
    }
}

} // verus!
