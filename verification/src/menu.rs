//! The main menu.

use vstd::prelude::*;

use crate::game::module::{EmptyModule, SquareEndModule};
use crate::keyboard::{KeyboardTimedState, RawKey};
use crate::utils::vec::Vec2;

verus! {

/// The main menu: the first state of the application.
#[derive(Clone, Copy, PartialEq, Eq, Structural, Debug)]
pub struct MainMenuState;

/// What the player chose in the main menu.
#[derive(Clone, Copy, PartialEq, Eq, Structural, Debug)]
pub enum MenuChoice {
    /// Start the level: the game is to be pushed on the stack.
    Play,
    /// Leave the application: the menu is to be popped.
    Leave,
    /// Nothing yet.
    Stay,
}

/// The modules of the level that the menu starts.
pub struct Level {
    /// The plain ground.
    pub ground: Vec<EmptyModule>,
    /// The square with the hole.
    pub end: SquareEndModule,
}

impl MainMenuState {
    /// The choice that a keyboard state makes: `Ok` or `Exe` plays, `Back` leaves, and
    /// playing goes first.
    pub open spec fn update_spec(keyboard_state: KeyboardTimedState) -> MenuChoice {
        if keyboard_state.pressing().holds(RawKey::Okay)
            || keyboard_state.pressing().holds(RawKey::Exe) {
            MenuChoice::Play
        } else if keyboard_state.pressing().holds(RawKey::Back) {
            MenuChoice::Leave
        } else {
            MenuChoice::Stay
        }
    }

    /// The logic of the menu for one frame.
    pub fn update(&mut self, keyboard_state: &KeyboardTimedState) -> (choice: MenuChoice)
        ensures
            choice == Self::update_spec(*keyboard_state),
    {
        if keyboard_state.is_key_just_pressed(RawKey::Okay)
            || keyboard_state.is_key_just_pressed(RawKey::Exe) {
            MenuChoice::Play
        } else if keyboard_state.is_key_just_pressed(RawKey::Back) {
            MenuChoice::Leave
        } else {
            MenuChoice::Stay
        }
    }

    /// The level that the menu starts: two stretches of plain ground, and the square with the
    /// hole where they lead. The ball starts at the origin, on the first stretch.
    pub fn level(&self) -> (level: Level)
        ensures
            level.ground@.len() == 2,
            level.ground@[0].pos() == (Vec2 { x: -8i32, y: -8i32 }),
            level.ground@[0].size() == (Vec2 { x: 8i32, y: 4i32 }),
            level.ground@[1].pos() == (Vec2 { x: 24i32, y: -8i32 }),
            level.ground@[1].size() == (Vec2 { x: 2i32, y: 7i32 }),
            level.end.pos() == (Vec2 { x: 20i32, y: 20i32 }),
    {
        let mut ground = Vec::new();
        ground.push(EmptyModule::new_rect(Vec2 { x: -8, y: -8 }, (8, 4)));
        ground.push(EmptyModule::new_rect(Vec2 { x: 24, y: -8 }, (2, 7)));
        Level { ground, end: SquareEndModule::new_4x4(Vec2 { x: 20, y: 20 }) }
    }
}

} // verus!
