//! A simpler game on the same course: the modules slow the ball down themselves, and the
//! first module to report a win or a dead ball decides.

pub mod module;
pub mod scene;
pub mod ui;
