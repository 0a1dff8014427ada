//! The obstacles of the simpler game.

use vstd::prelude::*;

use crate::eadk::{Color, Rect};
use crate::utils::vec::Vec2;

verus! {

/// What one module reports of the ball in one frame.
#[derive(Clone, Copy, PartialEq, Eq, Structural, Debug)]
pub enum BallInteraction {
    /// The ball is outside this module's region.
    OutOfRegion,
    /// The ball is inside, and nothing else is to be told.
    Inside,
    /// The ball must be reset.
    Dead,
    /// The level is completed.
    Win,
}

/// The size of one module tile. The ball has a radius of 1 (a diameter of 2).
pub const TILE_SIZE: i32 = 8;

/// The darker green of the ground's checkerboard.
pub const DARK_GROUND: u16 = 0x0580;

/// The lighter green of the ground's checkerboard.
pub const LIGHT_GROUND: u16 = 0x0640;

/// An axis-aligned region of the course, by the coordinates of its edges.
#[derive(Clone, Copy, PartialEq, Eq, Structural, Debug)]
pub struct Region {
    pub left: i64,
    pub top: i64,
    pub right: i64,
    pub bottom: i64,
}

/// A rectangle of plain ground: `size` tiles from `offset`.
#[derive(Clone, Copy, PartialEq, Eq, Debug)]
pub struct EmptyModule {
    pub offset: Vec2<i32>,
    pub size: Vec2<i32>,
}

impl EmptyModule {
    /// The region that the module covers.
    pub open spec fn region_spec(&self) -> Region {
        Region {
            left: self.offset.x as i64,
            top: self.offset.y as i64,
            right: (self.offset.x + self.size.x * TILE_SIZE) as i64,
            bottom: (self.offset.y + self.size.y * TILE_SIZE) as i64,
        }
    }

    /// Where on an axis of the screen the tile with the given index starts, for a module at
    /// `pos` on that axis, a camera at `camera` and a zoom of `unit_size` pixels per unit.
    pub open spec fn tile_origin(index: int, pos: int, camera: int, unit_size: int) -> int {
        index * unit_size * TILE_SIZE - camera + pos * unit_size
    }

    /// A module of 2 by 2 tiles with its corner at `offset`.
    pub fn new(offset: Vec2<i32>) -> (module: Self)
        ensures
            module.offset == offset,
            module.size == (Vec2 { x: 2i32, y: 2i32 }),
    {
        EmptyModule { offset, size: Vec2 { x: 2, y: 2 } }
    }

    /// The region that the module covers: from its corner, `TILE_SIZE` units for each tile.
    #[verifier::when_used_as_spec(region_spec)]
    pub fn region(&self) -> (region: Region)
        ensures
            region == self.region_spec(),
    {
        let width: i64 = self.size.x as i64 * 8;
        let height: i64 = self.size.y as i64 * 8;
        Region {
            left: self.offset.x as i64,
            top: self.offset.y as i64,
            right: self.offset.x as i64 + width,
            bottom: self.offset.y as i64 + height,
        }
    }

    /// What the module reports of a ball that is outside its region or not.
    pub fn interaction(&self, outside: bool) -> (interaction: BallInteraction)
        ensures
            interaction == (if outside {
                BallInteraction::OutOfRegion
            } else {
                BallInteraction::Inside
            }),
    {
        if outside {
            BallInteraction::OutOfRegion
        } else {
            BallInteraction::Inside
        }
    }

    /// The part on the screen of the module's tile in column `x` and row `y`, seen by a
    /// camera at `camera` with a zoom of `unit_size` pixels per unit, and the tile's color:
    /// the tiles form a checkerboard, with the lighter green where column and row add to an
    /// even number. The size of a tile in pixels must fit in 32 bits.
    pub fn tile(&self, x: i32, y: i32, camera: Vec2<i32>, unit_size: i32) -> (tile: (Rect, Color))
        requires
            i32::MIN <= unit_size * TILE_SIZE <= i32::MAX,
        ensures
            tile.0 == Rect::culled(
                Self::tile_origin(x as int, self.offset.x as int, camera.x as int, unit_size as int),
                Self::tile_origin(y as int, self.offset.y as int, camera.y as int, unit_size as int),
                unit_size * TILE_SIZE,
                unit_size * TILE_SIZE,
            ),
            tile.1.rgb565 == (if (x + y) % 2 == 0 {
                LIGHT_GROUND
            } else {
                DARK_GROUND
            }),
    {
        let unit: i128 = unit_size as i128;
        let step: i128 = unit * 8;
        assert(x * unit_size * TILE_SIZE == x * step && y * unit_size * TILE_SIZE == y * step)
            by (nonlinear_arith)
            requires
                step == unit_size * 8,
                TILE_SIZE == 8,
        ;
        assert(-0x1_0000_0000_0000_0000 <= x * step <= 0x1_0000_0000_0000_0000
            && -0x1_0000_0000_0000_0000 <= y * step <= 0x1_0000_0000_0000_0000
            && -0x1_0000_0000_0000_0000 <= self.offset.x * unit <= 0x1_0000_0000_0000_0000
            && -0x1_0000_0000_0000_0000 <= self.offset.y * unit <= 0x1_0000_0000_0000_0000)
            by (nonlinear_arith)
            requires
                -0x1000_0000 <= unit <= 0x1000_0000,
                -0x8000_0000 <= step <= 0x8000_0000,
                -0x8000_0000 <= x < 0x8000_0000,
                -0x8000_0000 <= y < 0x8000_0000,
                -0x8000_0000 <= self.offset.x < 0x8000_0000,
                -0x8000_0000 <= self.offset.y < 0x8000_0000,
        ;
        let left: i128 = x as i128 * step - camera.x as i128 + self.offset.x as i128 * unit;
        let top: i128 = y as i128 * step - camera.y as i128 + self.offset.y as i128 * unit;
        let side: i32 = unit_size * 8;
        (
            Rect::cull(left, top, side, side),
            Color {
                rgb565: if (x as i64 + y as i64) % 2 == 0 {
                    LIGHT_GROUND
                } else {
                    DARK_GROUND
                },
            },
        )
    }
}

} // verus!
