//! The menu of the simpler game.

use vstd::prelude::*;

use crate::eadk::input::{Key, KeyboardState};
use crate::escher::components::{BoxContainer, MarginType};
use crate::escher::text::Label;

verus! {

/// The margin of the menu's box at the top and on the left.
pub const MENU_MARGIN: u16 = 10;

/// The number of characters of the menu's label.
pub const MENU_LABEL_LEN: usize = 5;

/// The menu: a label in a box.
pub struct Menu {
    child: BoxContainer<Label>,
}

impl Menu {
    /// The box of the menu, with the label in it.
    pub closed spec fn child(&self) -> BoxContainer<Label> {
        self.child
    }

    /// The menu: a selected label of five characters without a glyph of their own, in a box
    /// with a fixed margin at the top and on the left that extends to the right and to the
    /// bottom.
    pub fn new() -> (menu: Self)
        ensures
            menu.child().child.text@ == Seq::new(MENU_LABEL_LEN as nat, |i: int| 0u8),
            menu.child().child.selected,
            menu.child().margin_top == MarginType::Margin(MENU_MARGIN),
            menu.child().margin_left == MarginType::Margin(MENU_MARGIN),
            menu.child().margin_bottom == MarginType::Extend,
            menu.child().margin_right == MarginType::Extend,
    {
        let mut text: Vec<u8> = Vec::new();
        let mut i: usize = 0;
        while i < MENU_LABEL_LEN
            invariant
                i <= MENU_LABEL_LEN,
                text@ == Seq::new(i as nat, |k: int| 0u8),
            decreases MENU_LABEL_LEN - i,
        {
            text.push(0);
            i = i + 1;
        }
        let label = Label { text, selected: true };
        Menu {
            child: BoxContainer::new(
                label,
                MarginType::Margin(MENU_MARGIN),
                MarginType::Extend,
                MarginType::Margin(MENU_MARGIN),
                MarginType::Extend,
            ),
        }
    }

    /// The box of the menu.
    pub fn container(&self) -> (container: &BoxContainer<Label>)
        ensures
            *container == self.child(),
    {
        &self.child
    }

    /// Whether the player asks for the level to be launched: while `Exe` is down.
    pub fn update(&mut self, keys: &KeyboardState) -> (launch: bool)
        ensures
            launch == keys.holds(Key::Exe),
            final(self).child() == old(self).child(),
    {
        keys.key_down(Key::Exe)
    }
}

} // verus!
