//! The rules of the simpler game: a level is idle, moving, dead or won.
//!
//! The position and the speed of the ball are kept outside this module. It decides from what
//! the modules report, from whether the ball is at rest, and from the keys.

use vstd::prelude::*;

use crate::eadk::input::{Key, KeyboardState};
use crate::golf::module::BallInteraction;

verus! {

/// The state of a level.
#[derive(Clone, Copy, PartialEq, Eq, Structural, Debug)]
pub enum GameState {
    /// The ball rolls.
    Moving,
    /// The ball lies still, and the player aims.
    Idle,
    /// The ball fell off the course or was killed: it is put back in the next frame.
    Dead,
    /// The level is completed.
    Won,
}

/// What is to be done to the ball at the end of a frame.
#[derive(Clone, Copy, PartialEq, Eq, Structural, Debug)]
pub enum BallCommand {
    /// Nothing.
    Keep,
    /// Move the aim by the direction of the held keys; then nothing else.
    Aim(i8, i8),
    /// Move the aim by the direction of the held keys; then launch the ball.
    AimAndLaunch(i8, i8),
    /// Set the velocity to zero.
    Stop,
    /// Put the ball back to where the level starts.
    Reset,
}

/// The first report in `results` that decides a frame, if there is one: a dead ball or a
/// win.
pub open spec fn first_decisive(results: Seq<BallInteraction>) -> Option<BallInteraction>
    decreases results.len(),
{
    if results.len() == 0 {
        None
    } else if results[0] is Dead || results[0] is Win {
        Some(results[0])
    } else {
        first_decisive(results.drop_first())
    }
}

/// Whether a module has the ball in its region.
pub open spec fn in_region(results: Seq<BallInteraction>) -> bool {
    exists|i: int| 0 <= i < results.len() && !(results[i] is OutOfRegion)
}

/// The state of a level after the modules reported `results`, in their order. A level that
/// is not in play stays as it is. In one that is, the first dead ball or win decides; without
/// one, a ball that no module has in its region is dead, and otherwise the state stays as it
/// is.
pub open spec fn judged(state: GameState, results: Seq<BallInteraction>) -> GameState {
    if state is Dead || state is Won {
        state
    } else {
        match first_decisive(results) {
            Some(BallInteraction::Win) => GameState::Won,
            Some(_) => GameState::Dead,
            None => if in_region(results) {
                state
            } else {
                GameState::Dead
            },
        }
    }
}

/// The number that stands for a key being down, in a difference of two keys.
pub open spec fn held(keys: KeyboardState, key: Key) -> int {
    if keys.holds(key) {
        1
    } else {
        0
    }
}

/// What is decided and counted in a level of the simpler game.
#[derive(Clone, Copy, PartialEq, Eq, Structural, Debug)]
pub struct Scene {
    pub game_state: GameState,
    pub attempts: u8,
}

impl Scene {
    /// The start of a level: idle, nothing counted.
    pub fn new() -> (scene: Self)
        ensures
            scene == (Scene { game_state: GameState::Idle, attempts: 0 }),
    {
        Scene { game_state: GameState::Idle, attempts: 0 }
    }

    /// Whether the ball and the modules are updated in this frame: while the level is idle
    /// or moving.
    pub fn in_play(&self) -> (playing: bool)
        ensures
            playing == (self.game_state is Idle || self.game_state is Moving),
    {
        match self.game_state {
            GameState::Idle => true,
            GameState::Moving => true,
            _ => false,
        }
    }

    /// Whether a report decides the frame, so that no further module is asked.
    pub fn decisive(interaction: BallInteraction) -> (decisive: bool)
        ensures
            decisive == (interaction is Dead || interaction is Win),
    {
        match interaction {
            BallInteraction::Dead => true,
            BallInteraction::Win => true,
            _ => false,
        }
    }

    /// Takes in the reports of the modules for this frame, in their order, up to the first
    /// that decides the frame or all of them; see [`judged`].
    pub fn judge(&mut self, results: &Vec<BallInteraction>)
        ensures
            final(self).game_state == judged(old(self).game_state, results@),
            final(self).attempts == old(self).attempts,
    {
        if !self.in_play() {
            return ;
        }
        let mut inside = false;
        let mut i: usize = 0;
        assert(results@.skip(0) == results@);
        while i < results.len()
            invariant
                i <= results.len(),
                first_decisive(results@.take(i as int)) is None,
                inside == in_region(results@.take(i as int)),
                first_decisive(results@) == first_decisive(results@.skip(i as int)),
                *self == *old(self),
                self.game_state is Idle || self.game_state is Moving,
            decreases results.len() - i,
        {
            let ghost rest = results@.skip(i as int);
            assert(rest.drop_first() == results@.skip(i + 1));
            match results[i] {
                BallInteraction::Dead => {
                    self.game_state = GameState::Dead;
                    return ;
                },
                BallInteraction::Win => {
                    self.game_state = GameState::Won;
                    return ;
                },
                _ => {},
            }
            proof {
                let before = results@.take(i as int);
                let after = results@.take(i + 1);
                lemma_first_decisive_push(before, results@[i as int]);
                assert(after == before.push(results@[i as int]));
                if !(results@[i as int] is OutOfRegion) {
                    assert(!(after[i as int] is OutOfRegion));
                }
            }
            if results[i] == BallInteraction::Inside {
                inside = true;
            }
            i += 1;
        }
        if !inside {
            self.game_state = GameState::Dead;
        }
    }

    /// Decides what happens to the ball at the end of a frame, and moves the level on. A
    /// moving ball that is found at rest stops, and the level becomes idle. In an idle level
    /// the held keys move the aim, and `Ok` launches the ball, which counts as an attempt. A
    /// dead ball is put back, which counts as an attempt too, and the level becomes idle. A
    /// level that is won stays so.
    pub fn control(&mut self, keys: &KeyboardState, at_rest: bool) -> (command: BallCommand)
        requires
            old(self).game_state is Dead || (old(self).game_state is Idle && keys.holds(Key::Okay))
                ==> old(self).attempts < u8::MAX,
        ensures
            command == (match old(self).game_state {
                GameState::Moving => if at_rest {
                    BallCommand::Stop
                } else {
                    BallCommand::Keep
                },
                GameState::Idle => if keys.holds(Key::Okay) {
                    BallCommand::AimAndLaunch(
                        (held(*keys, Key::Right) - held(*keys, Key::Left)) as i8,
                        (held(*keys, Key::Down) - held(*keys, Key::Up)) as i8,
                    )
                } else {
                    BallCommand::Aim(
                        (held(*keys, Key::Right) - held(*keys, Key::Left)) as i8,
                        (held(*keys, Key::Down) - held(*keys, Key::Up)) as i8,
                    )
                },
                GameState::Dead => BallCommand::Reset,
                GameState::Won => BallCommand::Keep,
            }),
            final(self).game_state == (match command {
                BallCommand::Keep => old(self).game_state,
                BallCommand::Aim(_, _) => GameState::Idle,
                BallCommand::AimAndLaunch(_, _) => GameState::Moving,
                BallCommand::Stop => GameState::Idle,
                BallCommand::Reset => GameState::Idle,
            }),
            final(self).attempts == old(self).attempts + (if command is Reset
                || command is AimAndLaunch {
                1int
            } else {
                0int
            }),
    {
        match self.game_state {
            GameState::Moving => {
                if at_rest {
                    self.game_state = GameState::Idle;
                    BallCommand::Stop
                } else {
                    BallCommand::Keep
                }
            },
            GameState::Idle => {
                let mut x: i8 = 0;
                let mut y: i8 = 0;
                if keys.key_down(Key::Right) {
                    x = x + 1;
                }
                if keys.key_down(Key::Left) {
                    x = x - 1;
                }
                if keys.key_down(Key::Down) {
                    y = y + 1;
                }
                if keys.key_down(Key::Up) {
                    y = y - 1;
                }
                if keys.key_down(Key::Okay) {
                    self.attempts = self.attempts + 1;
                    self.game_state = GameState::Moving;
                    BallCommand::AimAndLaunch(x, y)
                } else {
                    BallCommand::Aim(x, y)
                }
            },
            GameState::Dead => {
                self.attempts = self.attempts + 1;
                self.game_state = GameState::Idle;
                BallCommand::Reset
            },
            GameState::Won => BallCommand::Keep,
        }
    }
}

/// A report that does not decide, added at the end, changes nothing about the first report
/// that does.
proof fn lemma_first_decisive_push(results: Seq<BallInteraction>, last: BallInteraction)
    requires
        !(last is Dead || last is Win),
    ensures
        first_decisive(results.push(last)) == first_decisive(results),
    decreases results.len(),
{
    if results.len() == 0 {
        assert(results.push(last).drop_first() == results);
    } else {
        assert(results.push(last).drop_first() == results.drop_first().push(last));
        lemma_first_decisive_push(results.drop_first(), last);
    }
}

} // verus!
