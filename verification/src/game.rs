//! The game: the obstacles of a course, the rules of a frame of play, and the states of the
//! application around it.

pub mod ball;
pub mod game;
pub mod game_over;
pub mod module;
pub mod popup;
