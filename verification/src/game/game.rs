//! The rules of a frame of play: how the reports of the modules are combined, how the player
//! steers, and what is counted.
//!
//! The position and the speed of the ball are kept outside this module. It decides from what
//! the modules report and from two findings about the ball: whether it is at rest, and whether
//! the launch vector is long enough to count as an aim.
//!
//! A frame of play goes through these steps: the zoom follows the keys ([`GameState::zoom`]);
//! while the ball lies still the aim follows the keys ([`GameState::aim`]), and the ball is
//! stopped or launched ([`GameState::steer`]); every module reports on the ball, the reports
//! are combined ([`aggregate`]) and taken in ([`GameState::settle`]), which may end the level;
//! the ball is reset or rolls on, and the camera follows it; and the player may ask to leave
//! ([`GameState::leave`]). [`GameState::update`] takes all of these decisions but the aim in
//! one call.

use vstd::prelude::*;
use vstd::string::*;

use crate::display::{Color, Rect, CHAR_HEIGHT, CHAR_WIDTH, SCREEN_HEIGHT, SCREEN_WIDTH};
use crate::game::game_over::GameOverState;
use crate::game::module::BallInteraction;
use crate::game::popup::PopupState;
use crate::graphmgr::StackAction;
use crate::keyboard::{KeyboardTimedState, RawKey};
use crate::utils::vec::Vec2;
use crate::PopMessage;

verus! {

/// The smallest zoom: pixels per unit.
pub const MIN_UNIT_SIZE: u8 = 1;

/// The largest zoom: pixels per unit.
pub const MAX_UNIT_SIZE: u8 = 8;

/// The zoom at which a level starts: pixels per unit.
pub const START_UNIT_SIZE: u8 = 3;

/// The number of characters that the score takes on the screen.
pub const SCORE_CHARS: u16 = 12;

/// The color of the background: green.
pub fn clear_color() -> (color: Color)
    ensures
        color == Color(0x07E0),
{
    Color::green()
}

/// The point of the screen where the camera keeps the ball: the middle.
pub fn camera_offset() -> (offset: Vec2<u16>)
    ensures
        offset.x == SCREEN_WIDTH / 2,
        offset.y == SCREEN_HEIGHT / 2,
{
    Vec2 { x: SCREEN_WIDTH / 2, y: SCREEN_HEIGHT / 2 }
}

/// The rectangle in which the score is written: `SCORE_CHARS` characters of the standard
/// font in the top left corner. It is repainted before the score is written again.
pub fn score_rect() -> (rect: Rect)
    ensures
        rect == (Rect { x: 0, y: 0, width: (SCORE_CHARS * CHAR_WIDTH) as u16, height: CHAR_HEIGHT }),
        rect.on_screen(),
{
    Rect { x: 0, y: 0, width: SCORE_CHARS * CHAR_WIDTH, height: CHAR_HEIGHT }
}

/// Whether one of the modules reports a win.
pub open spec fn wins<D>(results: Seq<BallInteraction<D>>) -> bool {
    exists|i: int| 0 <= i < results.len() && results[i] is Win
}

/// Whether one of the modules reports a dead ball.
pub open spec fn dies<D>(results: Seq<BallInteraction<D>>) -> bool {
    exists|i: int| 0 <= i < results.len() && results[i] is Dead
}

/// The drag factors that the modules report, in the order of the modules.
pub open spec fn drags<D>(results: Seq<BallInteraction<D>>) -> Seq<D>
    decreases results.len(),
{
    if results.len() == 0 {
        Seq::empty()
    } else {
        match results.last() {
            BallInteraction::In(drag) => drags(results.drop_last()).push(drag),
            _ => drags(results.drop_last()),
        }
    }
}

/// What the reports of all modules amount to in one frame.
#[derive(Clone, PartialEq, Debug)]
pub enum Aggregate<D> {
    /// A module reports a win: the level ends in victory.
    Win,
    /// No module reports a win, and either one reports a dead ball or none has the ball in
    /// its region: the ball is put back to where it started.
    Reset,
    /// The ball is in the regions of the modules whose drag factors these are, in the order
    /// of the modules: it rolls on, slowed down by their mean.
    Roll(Vec<D>),
}

/// Combines the reports of all modules for one frame. A win goes before everything else; a
/// dead ball, or a ball that no module has in its region, is reset; otherwise the drag
/// factors of all modules that have the ball are collected.
pub fn aggregate<D: Copy>(results: &Vec<BallInteraction<D>>) -> (aggregate: Aggregate<D>)
    ensures
        aggregate is Win <==> wins(results@),
        aggregate is Reset <==> !wins(results@) && (dies(results@) || drags(results@).len() == 0),
        aggregate matches Aggregate::Roll(factors) ==> factors@ == drags(results@),
        aggregate matches Aggregate::Roll(factors) ==> factors@.len() > 0,
{
    let mut win = false;
    let mut dead = false;
    let mut factors: Vec<D> = Vec::new();
    let mut i: usize = 0;
    while i < results.len()
        invariant
            i <= results.len(),
            win == wins(results@.take(i as int)),
            dead == dies(results@.take(i as int)),
            factors@ == drags(results@.take(i as int)),
        decreases results.len() - i,
    {
        proof {
            let before = results@.take(i as int);
            let after = results@.take(i + 1);
            assert(after.drop_last() == before);
            assert(after.last() == results@[i as int]);
        }
        match &results[i] {
            BallInteraction::Win => {
                win = true;
            },
            BallInteraction::Dead => {
                dead = true;
            },
            BallInteraction::In(drag) => {
                factors.push(*drag);
            },
            BallInteraction::Out => {},
        }
        i += 1;
    }
    assert(results@.take(i as int) == results@);
    if win {
        Aggregate::Win
    } else if dead || factors.len() == 0 {
        Aggregate::Reset
    } else {
        Aggregate::Roll(factors)
    }
}

/// The direction in which the player moves the aim, and whether slowly.
#[derive(Clone, Copy, PartialEq, Eq, Structural, Debug)]
pub struct Aim {
    /// To the right (1), to the left (-1) or neither (0).
    pub x: i8,
    /// Down (1), up (-1) or neither (0).
    pub y: i8,
    /// Whether the aim moves at half speed.
    pub slow: bool,
}

/// What happens to the ball's motion in a frame.
#[derive(Clone, Copy, PartialEq, Eq, Structural, Debug)]
pub enum Motion {
    /// Neither of the two below.
    Keep,
    /// The rolling ball has come to rest: its velocity is to be set to zero.
    Stop,
    /// The player hits the ball: it is to be launched.
    Launch,
}

/// What a frame of play comes to: what is to be done to the ball, in this order, and what is
/// asked of the stack.
#[derive(Clone, PartialEq, Debug)]
pub struct Frame<D> {
    /// What happens to the ball's motion, before anything else.
    pub motion: Motion,
    /// What the modules amount to, unless it is a win: the ball is reset, or rolls on.
    pub aggregate: Aggregate<D>,
    /// The state to put in place of the game, if the level is won.
    pub game_over: Option<GameOverState>,
    /// The popup to push on the game, if the player asks to leave a level that is not won.
    pub popup: Option<PopupState>,
}

/// The number that stands for a key being down, in a difference of two keys.
pub open spec fn held(keyboard_state: KeyboardTimedState, key: RawKey) -> int {
    if keyboard_state.current().holds(key) {
        1
    } else {
        0
    }
}

/// Whether a key that confirms is just pressed: `Ok` or `Exe`.
pub open spec fn confirms_spec(keyboard_state: &KeyboardTimedState) -> bool {
    keyboard_state.pressing().holds(RawKey::Okay) || keyboard_state.pressing().holds(RawKey::Exe)
}

/// Whether a key that confirms is just pressed: `Ok` or `Exe`.
#[verifier::when_used_as_spec(confirms_spec)]
pub fn confirms(keyboard_state: &KeyboardTimedState) -> (confirmed: bool)
    ensures
        confirmed == confirms_spec(keyboard_state),
{
    keyboard_state.is_key_just_pressed(RawKey::Okay)
        || keyboard_state.is_key_just_pressed(RawKey::Exe)
}

/// What happens to the ball's motion in a frame. A rolling ball that is found at rest stops.
/// A ball at rest is launched when a key that confirms is just pressed and the player has
/// aimed.
pub open spec fn steered(
    is_moving: bool,
    keyboard_state: &KeyboardTimedState,
    at_rest: bool,
    aimed: bool,
) -> Motion {
    if is_moving {
        if at_rest {
            Motion::Stop
        } else {
            Motion::Keep
        }
    } else if confirms(keyboard_state) && aimed {
        Motion::Launch
    } else {
        Motion::Keep
    }
}

/// The number of attempts that a frame counts: one for a launch, and one for a reset.
pub open spec fn counted(motion: Motion, reset: bool) -> int {
    (if motion is Launch {
        1int
    } else {
        0int
    }) + (if reset {
        1int
    } else {
        0int
    })
}

/// The zoom after a frame: one step up if `Plus` is just pressed, one step down if `Minus`
/// is, and never outside the range of zooms.
pub open spec fn zoomed(unit_size: u8, keyboard_state: KeyboardTimedState) -> int {
    let up: int = if keyboard_state.pressing().holds(RawKey::Plus) {
        1
    } else {
        0
    };
    let down: int = if keyboard_state.pressing().holds(RawKey::Minus) {
        1
    } else {
        0
    };
    let wanted = unit_size + up - down;
    if wanted < MIN_UNIT_SIZE {
        MIN_UNIT_SIZE as int
    } else if wanted > MAX_UNIT_SIZE {
        MAX_UNIT_SIZE as int
    } else {
        wanted
    }
}

/// What is decided and counted while a level is played.
#[derive(Clone, Copy, PartialEq, Eq, Debug)]
pub struct GameState {
    is_moving: bool,
    attempts: u8,
    unit_size: u8,
}

impl GameState {
    #[verifier::type_invariant]
    spec fn zoom_in_range(self) -> bool {
        MIN_UNIT_SIZE <= self.unit_size <= MAX_UNIT_SIZE
    }

    /// Whether the ball is rolling. While it is, the player cannot aim.
    pub closed spec fn is_moving_spec(&self) -> bool {
        self.is_moving
    }

    /// The number of attempts so far: launches, and resets of the ball.
    pub closed spec fn attempts_spec(&self) -> u8 {
        self.attempts
    }

    /// The zoom: pixels per unit.
    pub closed spec fn unit_size_spec(&self) -> u8 {
        self.unit_size
    }

    /// The start of a level: the ball at rest, nothing counted, the zoom at its start value.
    pub fn new() -> (state: Self)
        ensures
            !state.is_moving_spec(),
            state.attempts_spec() == 0,
            state.unit_size_spec() == START_UNIT_SIZE,
    {
        GameState { is_moving: false, attempts: 0, unit_size: START_UNIT_SIZE }
    }

    /// Whether the ball is rolling.
    #[verifier::when_used_as_spec(is_moving_spec)]
    pub fn is_moving(&self) -> (moving: bool)
        ensures
            moving == self.is_moving_spec(),
    {
        self.is_moving
    }

    /// The number of attempts so far.
    #[verifier::when_used_as_spec(attempts_spec)]
    pub fn attempts(&self) -> (attempts: u8)
        ensures
            attempts == self.attempts_spec(),
    {
        self.attempts
    }

    /// The zoom, in pixels per unit: always in the range of zooms.
    #[verifier::when_used_as_spec(unit_size_spec)]
    pub fn unit_size(&self) -> (unit_size: u8)
        ensures
            unit_size == self.unit_size_spec(),
            MIN_UNIT_SIZE <= unit_size <= MAX_UNIT_SIZE,
    {
        proof {
            use_type_invariant(self);
        }
        self.unit_size
    }

    /// What the game asks of the stack when the state above it is popped: if that was a popup
    /// that the player confirmed, the game is popped too.
    pub fn resume<S>(&self, pop_message: PopMessage) -> (action: StackAction<PopMessage, S>)
        ensures
            action == (if pop_message == PopMessage::OkBackPopupIsOk(true) {
                StackAction::<PopMessage, S>::Pop(PopMessage::Nothing)
            } else {
                StackAction::<PopMessage, S>::Nop
            }),
    {
        match pop_message {
            PopMessage::OkBackPopupIsOk(true) => StackAction::Pop(PopMessage::Nothing),
            _ => StackAction::Nop,
        }
    }

    /// Changes the zoom by the keys `Plus` and `Minus`: one step for each time that a key
    /// goes down, none while it is held.
    pub fn zoom(&mut self, keyboard_state: &KeyboardTimedState)
        ensures
            final(self).unit_size_spec() == zoomed(old(self).unit_size_spec(), *keyboard_state),
            final(self).is_moving_spec() == old(self).is_moving_spec(),
            final(self).attempts_spec() == old(self).attempts_spec(),
    {
        proof {
            use_type_invariant(&*self);
        }
        let mut wanted: u8 = self.unit_size;
        if keyboard_state.is_key_just_pressed(RawKey::Plus) {
            wanted = wanted + 1;
        }
        if keyboard_state.is_key_just_pressed(RawKey::Minus) {
            wanted = wanted - 1;
        }
        if wanted < MIN_UNIT_SIZE {
            wanted = MIN_UNIT_SIZE;
        } else if wanted > MAX_UNIT_SIZE {
            wanted = MAX_UNIT_SIZE;
        }
        self.unit_size = wanted;
    }

    /// Takes in what the modules amount to in this frame. On a win it answers with the state
    /// that ends the level, which holds the number of attempts; a reset counts as an attempt
    /// and leaves the ball at rest; otherwise nothing changes.
    pub fn settle<D>(&mut self, aggregate: &Aggregate<D>) -> (over: Option<GameOverState>)
        requires
            aggregate is Reset ==> old(self).attempts_spec() < u8::MAX,
        ensures
            over == (if aggregate is Win {
                Some(GameOverState(old(self).attempts_spec()))
            } else {
                None
            }),
            final(self).unit_size_spec() == old(self).unit_size_spec(),
            final(self).attempts_spec() == old(self).attempts_spec() + (if aggregate is Reset {
                1int
            } else {
                0int
            }),
            final(self).is_moving_spec() == (old(self).is_moving_spec() && !(aggregate is Reset)),
    {
        proof {
            use_type_invariant(&*self);
        }
        match aggregate {
            Aggregate::Win => Some(GameOverState(self.attempts)),
            Aggregate::Reset => {
                self.attempts = self.attempts + 1;
                self.is_moving = false;
                None
            },
            Aggregate::Roll(_) => None,
        }
    }

    /// The direction in which the held keys move the aim: right against left, down against
    /// up; `Shift` slows it.
    pub fn aim(&self, keyboard_state: &KeyboardTimedState) -> (aim: Aim)
        ensures
            aim.x == held(*keyboard_state, RawKey::Right) - held(*keyboard_state, RawKey::Left),
            aim.y == held(*keyboard_state, RawKey::Down) - held(*keyboard_state, RawKey::Up),
            aim.slow == keyboard_state.current().holds(RawKey::Shift),
    {
        let mut x: i8 = 0;
        let mut y: i8 = 0;
        if keyboard_state.is_key_pressed(RawKey::Right) {
            x = x + 1;
        }
        if keyboard_state.is_key_pressed(RawKey::Left) {
            x = x - 1;
        }
        if keyboard_state.is_key_pressed(RawKey::Down) {
            y = y + 1;
        }
        if keyboard_state.is_key_pressed(RawKey::Up) {
            y = y - 1;
        }
        Aim { x, y, slow: keyboard_state.is_key_pressed(RawKey::Shift) }
    }

    /// Decides the ball's motion for this frame. A rolling ball that is found at rest stops.
    /// A ball at rest is launched when a key that confirms is just pressed and the player
    /// has aimed, which counts as an attempt. `at_rest` is read only while the ball rolls,
    /// `aimed` only while it does not.
    pub fn steer(
        &mut self,
        keyboard_state: &KeyboardTimedState,
        at_rest: bool,
        aimed: bool,
    ) -> (motion: Motion)
        requires
            !old(self).is_moving_spec() && confirms(keyboard_state) && aimed
                ==> old(self).attempts_spec() < u8::MAX,
        ensures
            final(self).unit_size_spec() == old(self).unit_size_spec(),
            motion == steered(old(self).is_moving_spec(), keyboard_state, at_rest, aimed),
            final(self).is_moving_spec() == (match motion {
                Motion::Keep => old(self).is_moving_spec(),
                Motion::Stop => false,
                Motion::Launch => true,
            }),
            final(self).attempts_spec() == old(self).attempts_spec() + (if motion is Launch {
                1int
            } else {
                0int
            }),
    {
        proof {
            use_type_invariant(&*self);
        }
        if self.is_moving {
            if at_rest {
                self.is_moving = false;
                Motion::Stop
            } else {
                Motion::Keep
            }
        } else if confirms(keyboard_state) && aimed {
            self.attempts = self.attempts + 1;
            self.is_moving = true;
            Motion::Launch
        } else {
            Motion::Keep
        }
    }

    /// Whether the attempts that a frame would count can still be counted.
    pub fn countable<D>(
        &self,
        keyboard_state: &KeyboardTimedState,
        at_rest: bool,
        aimed: bool,
        aggregate: &Aggregate<D>,
    ) -> (countable: bool)
        ensures
            countable == (self.attempts_spec() + counted(
                steered(self.is_moving_spec(), keyboard_state, at_rest, aimed),
                aggregate is Reset,
            ) <= u8::MAX),
    {
        let launch: u16 = if !self.is_moving && confirms(keyboard_state) && aimed {
            1
        } else {
            0
        };
        let reset: u16 = match aggregate {
            Aggregate::Reset => 1,
            _ => 0,
        };
        self.attempts as u16 + launch + reset <= 255
    }

    /// The decisions of one frame of play, from the keys, from what was found of the ball
    /// (whether it is at rest, and whether the player has aimed) and from what the modules
    /// amount to. The zoom follows the keys; the ball is stopped or launched; then the
    /// modules are taken in: a win ends the level, a reset is counted; and unless the level
    /// is won, the player may ask to leave it.
    pub fn update<D>(
        &mut self,
        keyboard_state: &KeyboardTimedState,
        at_rest: bool,
        aimed: bool,
        aggregate: Aggregate<D>,
    ) -> (frame: Frame<D>)
        requires
            old(self).attempts_spec() + counted(
                steered(old(self).is_moving_spec(), keyboard_state, at_rest, aimed),
                aggregate is Reset,
            ) <= u8::MAX,
        ensures
            final(self).unit_size_spec() == zoomed(old(self).unit_size_spec(), *keyboard_state),
            frame.motion == steered(old(self).is_moving_spec(), keyboard_state, at_rest, aimed),
            frame.aggregate == aggregate,
            final(self).attempts_spec() == old(self).attempts_spec() + counted(
                frame.motion,
                aggregate is Reset,
            ),
            final(self).is_moving_spec() == (!(aggregate is Reset) && match frame.motion {
                Motion::Keep => old(self).is_moving_spec(),
                Motion::Stop => false,
                Motion::Launch => true,
            }),
            frame.game_over == (if aggregate is Win {
                Some(GameOverState(final(self).attempts_spec()))
            } else {
                None
            }),
            frame.popup is Some <==> !(aggregate is Win) && keyboard_state.pressing().holds(
                RawKey::Back,
            ),
            frame.popup matches Some(state) ==> state.0@ == "Leave ???"@,
    {
        self.zoom(keyboard_state);
        let motion = self.steer(keyboard_state, at_rest, aimed);
        let game_over = self.settle(&aggregate);
        let popup = match game_over {
            Some(_) => None,
            None => self.leave(keyboard_state),
        };
        Frame { motion, aggregate, game_over, popup }
    }

    /// The popup to push when the player asks to leave the level: when `Back` is just
    /// pressed.
    pub fn leave(&self, keyboard_state: &KeyboardTimedState) -> (popup: Option<PopupState>)
        ensures
            popup is Some <==> keyboard_state.pressing().holds(RawKey::Back),
            popup matches Some(state) ==> state.0@ == "Leave ???"@,
    {
        if keyboard_state.is_key_just_pressed(RawKey::Back) {
            Some(PopupState(String::from_str("Leave ???")))
        } else {
            None
        }
    }
}

} // verus!
