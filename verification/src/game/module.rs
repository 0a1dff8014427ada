//! The obstacles of a course. Each one covers an axis-aligned region of whole units and
//! reports, frame by frame, how it interacts with the ball.

use vstd::prelude::*;

use crate::display::{Color, Rect};
use crate::utils::vec::Vec2;

verus! {

/// What one module reports of the ball in one frame. `D` is the type of a drag factor.
#[derive(Clone, Copy, PartialEq, Debug)]
pub enum BallInteraction<D> {
    /// The ball is outside this module's region: no effect.
    Out,
    /// The ball is inside, with the factor by which the module slows it down.
    ///
    /// The drag is reported and not applied by the module, because a ball on an edge touches
    /// several modules, and each of them would apply it.
    In(D),
    /// The ball must be reset.
    Dead,
    /// The level is completed.
    Win,
}

/// The size of one module tile. The ball has a radius of 1 (a diameter of 2).
pub const TILE_SIZE: u16 = 4;

/// An axis-aligned region of the course, by the coordinates of its edges.
#[derive(Clone, Copy, PartialEq, Eq, Structural, Debug)]
pub struct Region {
    pub left: i64,
    pub top: i64,
    pub right: i64,
    pub bottom: i64,
}

/// The darker green of the ground's checkerboard.
pub const DARK_GROUND: u16 = 0x0580;

/// The lighter green of the ground's checkerboard.
pub const LIGHT_GROUND: u16 = 0x0640;

/// The color of the tile in column `x` and row `y` of a module: the tiles of a module form a
/// checkerboard, with the lighter green on the tiles whose column and row add to an even
/// number.
pub fn tile_color(x: i32, y: i32) -> (color: Color)
    ensures
        color == Color(if (x + y) % 2 == 0 {
            LIGHT_GROUND
        } else {
            DARK_GROUND
        }),
{
    if (x as i64 + y as i64) % 2 == 0 {
        Color(LIGHT_GROUND)
    } else {
        Color(DARK_GROUND)
    }
}

/// Where on an axis of the screen the tile with the given index starts, for a module at
/// `pos` on that axis, a camera at `offset` and a zoom of `unit_size` pixels per unit.
pub open spec fn tile_origin(index: int, pos: int, offset: int, unit_size: int) -> int {
    index * unit_size * TILE_SIZE - offset + pos * unit_size
}

/// The part on the screen of the tile in column `x` and row `y` of a module at `pos`; see
/// [`tile_origin`]. A tile is `TILE_SIZE` units wide and high.
pub open spec fn tile_rect_spec(pos: Vec2<i32>, x: i32, y: i32, offset: Vec2<i32>, unit_size: u8) -> Rect {
    Rect::clipped(
        tile_origin(x as int, pos.x as int, offset.x as int, unit_size as int),
        tile_origin(y as int, pos.y as int, offset.y as int, unit_size as int),
        (unit_size * TILE_SIZE) as u16,
        (unit_size * TILE_SIZE) as u16,
    )
}

/// Computes [`tile_rect_spec`].
fn tile_rect(pos: Vec2<i32>, x: i32, y: i32, offset: Vec2<i32>, unit_size: u8) -> (rect: Rect)
    ensures
        rect == tile_rect_spec(pos, x, y, offset, unit_size),
        rect.on_screen(),
{
    let unit: i64 = unit_size as i64;
    let step: i64 = unit * 4;
    assert(x * unit_size * TILE_SIZE == x * step) by (nonlinear_arith)
        requires
            step == unit_size * 4,
            TILE_SIZE == 4,
    ;
    assert(y * unit_size * TILE_SIZE == y * step) by (nonlinear_arith)
        requires
            step == unit_size * 4,
            TILE_SIZE == 4,
    ;
    assert(-0x1000_0000_0000 <= x * step <= 0x1000_0000_0000 && -0x1000_0000_0000 <= y * step
        <= 0x1000_0000_0000 && -0x1000_0000_0000 <= pos.x * unit <= 0x1000_0000_0000 && -0x1000_0000_0000
        <= pos.y * unit <= 0x1000_0000_0000) by (nonlinear_arith)
        requires
            0 <= unit <= 255,
            0 <= step <= 1020,
            -0x8000_0000 <= x < 0x8000_0000,
            -0x8000_0000 <= y < 0x8000_0000,
            -0x8000_0000 <= pos.x < 0x8000_0000,
            -0x8000_0000 <= pos.y < 0x8000_0000,
    ;
    let left: i64 = x as i64 * step - offset.x as i64 + pos.x as i64 * unit;
    let top: i64 = y as i64 * step - offset.y as i64 + pos.y as i64 * unit;
    let side: u16 = unit_size as u16 * TILE_SIZE;
    Rect::clip(left, top, side, side)
}

/// A rectangle of plain ground: `size` tiles from `pos`.
#[derive(Clone, Copy, PartialEq, Eq, Debug)]
pub struct EmptyModule {
    pos: Vec2<i32>,
    size: Vec2<i32>,
}

impl EmptyModule {
    /// The corner of the module with the smallest coordinates.
    pub closed spec fn pos(&self) -> Vec2<i32> {
        self.pos
    }

    /// The number of tiles along each axis.
    pub closed spec fn size(&self) -> Vec2<i32> {
        self.size
    }

    /// The region that the module covers.
    pub open spec fn region_spec(&self) -> Region {
        Region {
            left: self.pos().x as i64,
            top: self.pos().y as i64,
            right: (self.pos().x + self.size().x * TILE_SIZE) as i64,
            bottom: (self.pos().y + self.size().y * TILE_SIZE) as i64,
        }
    }

    /// A module of `size.0` by `size.1` tiles with its corner at `offset`.
    pub fn new_rect(offset: Vec2<i32>, size: (i32, i32)) -> (module: Self)
        ensures
            module.pos() == offset,
            module.size() == (Vec2 { x: size.0, y: size.1 }),
    {
        EmptyModule { pos: offset, size: Vec2 { x: size.0, y: size.1 } }
    }

    /// The region that the module covers: from its corner, `TILE_SIZE` units for each tile.
    #[verifier::when_used_as_spec(region_spec)]
    pub fn region(&self) -> (region: Region)
        ensures
            region == self.region_spec(),
            region.left == self.pos().x,
            region.top == self.pos().y,
            region.right == self.pos().x + self.size().x * TILE_SIZE,
            region.bottom == self.pos().y + self.size().y * TILE_SIZE,
    {
        let width: i64 = self.size.x as i64 * 4;
        let height: i64 = self.size.y as i64 * 4;
        Region {
            left: self.pos.x as i64,
            top: self.pos.y as i64,
            right: self.pos.x as i64 + width,
            bottom: self.pos.y as i64 + height,
        }
    }

    /// The number of tiles along each axis.
    pub fn tiles(&self) -> (size: Vec2<i32>)
        ensures
            size == self.size(),
    {
        self.size
    }

    /// The part on the screen of the module's tile in column `x` and row `y`, seen by a
    /// camera at `offset` with a zoom of `unit_size` pixels per unit.
    pub fn tile_rect(&self, x: i32, y: i32, offset: Vec2<i32>, unit_size: u8) -> (rect: Rect)
        ensures
            rect == tile_rect_spec(self.pos(), x, y, offset, unit_size),
            rect.on_screen(),
    {
        self::tile_rect(self.pos, x, y, offset, unit_size)
    }

    /// What the module reports of a ball that is outside its region or not: plain ground
    /// only slows the ball down.
    pub fn interaction<D>(&self, outside: bool, drag: D) -> (interaction: BallInteraction<D>)
        ensures
            interaction == (if outside {
                BallInteraction::Out
            } else {
                BallInteraction::In(drag)
            }),
    {
        if outside {
            BallInteraction::Out
        } else {
            BallInteraction::In(drag)
        }
    }
}

/// A square of 4 by 4 tiles with the hole in its middle: the end of a level.
#[derive(Clone, Copy, PartialEq, Eq, Debug)]
pub struct SquareEndModule {
    pos: Vec2<i32>,
}

impl SquareEndModule {
    /// The corner of the module with the smallest coordinates.
    pub closed spec fn pos(&self) -> Vec2<i32> {
        self.pos
    }

    /// The region that the module covers.
    pub open spec fn region_spec(&self) -> Region {
        Region {
            left: self.pos().x as i64,
            top: self.pos().y as i64,
            right: (self.pos().x + 4 * TILE_SIZE) as i64,
            bottom: (self.pos().y + 4 * TILE_SIZE) as i64,
        }
    }

    /// The region of the hole.
    pub open spec fn hole_spec(&self) -> Region {
        Region {
            left: (self.pos().x + 2 * TILE_SIZE - 1) as i64,
            top: (self.pos().y + 2 * TILE_SIZE - 1) as i64,
            right: (self.pos().x + 2 * TILE_SIZE + 1) as i64,
            bottom: (self.pos().y + 2 * TILE_SIZE + 1) as i64,
        }
    }

    /// A module of 4 by 4 tiles with its corner at `offset`.
    pub fn new_4x4(offset: Vec2<i32>) -> (module: Self)
        ensures
            module.pos() == offset,
    {
        SquareEndModule { pos: offset }
    }

    /// The region that the module covers: four tiles along each axis.
    #[verifier::when_used_as_spec(region_spec)]
    pub fn region(&self) -> (region: Region)
        ensures
            region == self.region_spec(),
            region.right - region.left == 4 * TILE_SIZE,
            region.bottom - region.top == 4 * TILE_SIZE,
    {
        Region {
            left: self.pos.x as i64,
            top: self.pos.y as i64,
            right: self.pos.x as i64 + 4 * TILE_SIZE as i64,
            bottom: self.pos.y as i64 + 4 * TILE_SIZE as i64,
        }
    }

    /// The region of the hole: a square of side 2 around the middle of the module.
    #[verifier::when_used_as_spec(hole_spec)]
    pub fn hole(&self) -> (hole: Region)
        ensures
            hole == self.hole_spec(),
            self.region_spec().left < hole.left < hole.right < self.region_spec().right,
            self.region_spec().top < hole.top < hole.bottom < self.region_spec().bottom,
            hole.left + hole.right == self.region_spec().left + self.region_spec().right,
            hole.top + hole.bottom == self.region_spec().top + self.region_spec().bottom,
    {
        Region {
            left: self.pos.x as i64 + 2 * TILE_SIZE as i64 - 1,
            top: self.pos.y as i64 + 2 * TILE_SIZE as i64 - 1,
            right: self.pos.x as i64 + 2 * TILE_SIZE as i64 + 1,
            bottom: self.pos.y as i64 + 2 * TILE_SIZE as i64 + 1,
        }
    }

    /// The part on the screen of the module's tile in column `x` and row `y`, seen by a
    /// camera at `offset` with a zoom of `unit_size` pixels per unit.
    pub fn tile_rect(&self, x: i32, y: i32, offset: Vec2<i32>, unit_size: u8) -> (rect: Rect)
        ensures
            rect == tile_rect_spec(self.pos(), x, y, offset, unit_size),
            rect.on_screen(),
    {
        self::tile_rect(self.pos, x, y, offset, unit_size)
    }

    /// The part on the screen of the hole, seen by a camera at `offset` with a zoom of
    /// `unit_size` pixels per unit: a square of two units around the middle of the module.
    pub fn hole_rect(&self, offset: Vec2<i32>, unit_size: u8) -> (rect: Rect)
        ensures
            rect == Rect::clipped(
                tile_origin(2, self.pos().x as int, offset.x as int, unit_size as int) - unit_size,
                tile_origin(2, self.pos().y as int, offset.y as int, unit_size as int) - unit_size,
                (unit_size * 2) as u16,
                (unit_size * 2) as u16,
            ),
            rect.on_screen(),
    {
        let unit: i64 = unit_size as i64;
        assert(2 * unit_size * TILE_SIZE == 8 * unit) by (nonlinear_arith)
            requires
                unit == unit_size,
                TILE_SIZE == 4,
        ;
        assert(-0x1000_0000_0000 <= self.pos.x * unit <= 0x1000_0000_0000 && -0x1000_0000_0000
            <= self.pos.y * unit <= 0x1000_0000_0000) by (nonlinear_arith)
            requires
                0 <= unit <= 255,
                -0x8000_0000 <= self.pos.x < 0x8000_0000,
                -0x8000_0000 <= self.pos.y < 0x8000_0000,
        ;
        let left: i64 = 8 * unit - offset.x as i64 + self.pos.x as i64 * unit - unit;
        let top: i64 = 8 * unit - offset.y as i64 + self.pos.y as i64 * unit - unit;
        let side: u16 = unit_size as u16 * 2;
        Rect::clip(left, top, side, side)
    }

    /// What the module reports of a ball that is outside its region or not, and outside the
    /// hole or not: a ball in the hole wins the level, elsewhere on the module it is only
    /// slowed down.
    pub fn interaction<D>(
        &self,
        outside: bool,
        outside_hole: bool,
        drag: D,
    ) -> (interaction: BallInteraction<D>)
        ensures
            interaction == (if outside {
                BallInteraction::Out
            } else if outside_hole {
                BallInteraction::In(drag)
            } else {
                BallInteraction::Win
            }),
    {
        if outside {
            BallInteraction::Out
        } else if outside_hole {
            BallInteraction::In(drag)
        } else {
            BallInteraction::Win
        }
    }
}

} // verus!
