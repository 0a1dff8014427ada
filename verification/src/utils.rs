//! Small utilities shared by the rest of the crate.

pub mod vec;
