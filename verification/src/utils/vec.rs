//! Two-dimensional vectors.

use vstd::prelude::*;

verus! {

/// 2-dimensional vector (generic).
#[derive(Default, Clone, Copy, PartialEq, Eq, Debug)]
pub struct Vec2<T> {
    pub x: T,
    pub y: T,
}

} // verus!
