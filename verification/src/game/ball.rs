//! The ball on the screen: the pixels that it covers, and the rectangles that have to be
//! repainted with the background before it is drawn again.
//!
//! The ball is drawn as a disc with a radius of one unit around its position on the screen,
//! which is handed in as whole pixels. While the player aims, two small marks are drawn
//! beside it: one at the full reach of the club and one at the aim.

use vstd::prelude::*;

use crate::display::{Rect, SCREEN_WIDTH};
use crate::utils::vec::Vec2;

verus! {

/// The width and height of a mark of the launch indicator.
pub const MARK_SIZE: u16 = 3;

/// The color of the mark at the full reach of the club: gray.
pub const REACH_COLOR: u16 = 0xB5B6;

/// The columns and rows of the screen that are scanned for the pixels of the ball: the
/// columns from `x_start` up to, not including, `x_end`, and the rows likewise.
#[derive(Clone, Copy, PartialEq, Eq, Structural, Debug)]
pub struct PixelSpan {
    pub x_start: u16,
    pub x_end: u16,
    pub y_start: u16,
    pub y_end: u16,
}

/// What is to be drawn of the ball in a frame.
#[derive(Clone, Copy, PartialEq, Eq, Debug)]
pub struct BallDrawing {
    /// The pixels to scan: those of them that the ball covers are painted.
    pub span: PixelSpan,
    /// The marks of the launch indicator, if it is shown: the reach of the club, then the aim.
    pub marks: Option<(Rect, Rect)>,
}

/// The larger of two numbers.
pub open spec fn max_spec(a: int, b: int) -> int {
    if a >= b {
        a
    } else {
        b
    }
}

/// The smaller of two numbers.
pub open spec fn min_spec(a: int, b: int) -> int {
    if a <= b {
        a
    } else {
        b
    }
}

/// Whether the pixel `(x, y)` belongs to the disc of radius `unit_size` around `ball_pos`.
pub open spec fn covers_spec(ball_pos: Vec2<i32>, unit_size: u8, x: int, y: int) -> bool {
    (x - ball_pos.x) * (x - ball_pos.x) + (y - ball_pos.y) * (y - ball_pos.y) <= unit_size
        * unit_size
}

/// The rectangle around the disc, cut to the screen: what drawing the ball may touch.
pub open spec fn footprint_spec(ball_pos: Vec2<i32>, unit_size: u8) -> Rect {
    Rect::clipped(
        ball_pos.x - unit_size,
        ball_pos.y - unit_size,
        (2 * unit_size + 1) as u16,
        (2 * unit_size + 1) as u16,
    )
}

/// The pixels to scan for the disc: the square around it, cut at the first column and row
/// and, on both axes, at the width of the screen.
pub open spec fn span_spec(ball_pos: Vec2<i32>, unit_size: u8) -> PixelSpan {
    let x_start = min_spec(max_spec(ball_pos.x - unit_size, 0), SCREEN_WIDTH as int);
    let y_start = min_spec(max_spec(ball_pos.y - unit_size, 0), SCREEN_WIDTH as int);
    PixelSpan {
        x_start: x_start as u16,
        x_end: max_spec(x_start, min_spec(ball_pos.x + unit_size + 1, SCREEN_WIDTH as int)) as u16,
        y_start: y_start as u16,
        y_end: max_spec(y_start, min_spec(ball_pos.y + unit_size + 1, SCREEN_WIDTH as int)) as u16,
    }
}

/// The mark around a point of the screen: a square of `MARK_SIZE` with the point in its
/// middle, cut to the screen.
pub open spec fn mark_spec(at: Vec2<i32>) -> Rect {
    Rect::clipped(at.x - 1, at.y - 1, MARK_SIZE, MARK_SIZE)
}

/// The marks of a launch indicator.
pub open spec fn marks_spec(indicator: Option<(Vec2<i32>, Vec2<i32>)>) -> Option<(Rect, Rect)> {
    match indicator {
        Some((reach, aim)) => Some((mark_spec(reach), mark_spec(aim))),
        None => None,
    }
}

/// Whether the ball at `ball_pos` covers the pixel `(x, y)`.
pub fn covers(ball_pos: Vec2<i32>, unit_size: u8, x: u16, y: u16) -> (covered: bool)
    ensures
        covered == covers_spec(ball_pos, unit_size, x as int, y as int),
{
    let dx: i64 = x as i64 - ball_pos.x as i64;
    let dy: i64 = y as i64 - ball_pos.y as i64;
    let radius: i64 = unit_size as i64;
    assert(0 <= dx * dx <= 0x1_0000_0000_0000_0000 && 0 <= dy * dy <= 0x1_0000_0000_0000_0000
        && 0 <= radius * radius <= 0x1_0000) by (nonlinear_arith)
        requires
            -0x1_0000_0000 <= dx <= 0x1_0000_0000,
            -0x1_0000_0000 <= dy <= 0x1_0000_0000,
            0 <= radius <= 0x100,
    ;
    dx as i128 * dx as i128 + dy as i128 * dy as i128 <= (radius * radius) as i128
}

/// The mark around a point; see [`mark_spec`].
fn mark(at: Vec2<i32>) -> (rect: Rect)
    ensures
        rect == mark_spec(at),
        rect.on_screen(),
{
    Rect::clip(at.x as i64 - 1, at.y as i64 - 1, MARK_SIZE, MARK_SIZE)
}

/// What the ball last touched on the screen.
#[derive(Clone, Copy, PartialEq, Eq, Debug)]
pub struct BallFootprint {
    old_pos: Rect,
    old_launch_indicator: Option<(Vec2<i32>, Vec2<i32>)>,
}

impl BallFootprint {
    /// The rectangle that the disc was last drawn in.
    pub closed spec fn old_pos(&self) -> Rect {
        self.old_pos
    }

    /// The points of the launch indicator, if it was shown when the ball was last drawn.
    pub closed spec fn old_launch_indicator(&self) -> Option<(Vec2<i32>, Vec2<i32>)> {
        self.old_launch_indicator
    }

    /// The footprint of a ball that was not drawn yet: nothing to repaint.
    pub fn new() -> (footprint: Self)
        ensures
            footprint.old_pos() == (Rect { x: 0, y: 0, width: 0, height: 0 }),
            footprint.old_launch_indicator() is None,
    {
        BallFootprint { old_pos: Rect::new(0, 0, 0, 0), old_launch_indicator: None }
    }

    /// Takes note of where the ball is drawn in this frame, and says what to draw: the
    /// pixels to scan for the disc and, if there is a launch indicator, its marks.
    /// `indicator` holds the point at the full reach of the club and the point of the aim.
    pub fn render(
        &mut self,
        ball_pos: Vec2<i32>,
        unit_size: u8,
        indicator: Option<(Vec2<i32>, Vec2<i32>)>,
    ) -> (drawing: BallDrawing)
        ensures
            final(self).old_pos() == footprint_spec(ball_pos, unit_size),
            final(self).old_launch_indicator() == indicator,
            drawing.span == span_spec(ball_pos, unit_size),
            drawing.marks == marks_spec(indicator),
            drawing.span.x_start <= drawing.span.x_end <= SCREEN_WIDTH,
            drawing.span.y_start <= drawing.span.y_end <= SCREEN_WIDTH,
    {
        let unit: i64 = unit_size as i64;
        let side: u16 = 2 * (unit_size as u16) + 1;
        self.old_pos = Rect::clip(ball_pos.x as i64 - unit, ball_pos.y as i64 - unit, side, side);
        self.old_launch_indicator = indicator;
        let x_start: i64 = min(max(ball_pos.x as i64 - unit, 0), SCREEN_WIDTH as i64);
        let y_start: i64 = min(max(ball_pos.y as i64 - unit, 0), SCREEN_WIDTH as i64);
        let x_end: i64 = max(x_start, min(ball_pos.x as i64 + unit + 1, SCREEN_WIDTH as i64));
        let y_end: i64 = max(y_start, min(ball_pos.y as i64 + unit + 1, SCREEN_WIDTH as i64));
        BallDrawing {
            span: PixelSpan {
                x_start: x_start as u16,
                x_end: x_end as u16,
                y_start: y_start as u16,
                y_end: y_end as u16,
            },
            marks: match indicator {
                Some((reach, aim)) => Some((mark(reach), mark(aim))),
                None => None,
            },
        }
    }

    /// The rectangles to repaint with the background before the next frame is drawn: where
    /// the disc was last drawn and, if the launch indicator was shown, its marks.
    pub fn erase(&self) -> (dirty: (Rect, Option<(Rect, Rect)>))
        ensures
            dirty.0 == self.old_pos(),
            dirty.1 == marks_spec(self.old_launch_indicator()),
    {
        (
            self.old_pos,
            match self.old_launch_indicator {
                Some((reach, aim)) => Some((mark(reach), mark(aim))),
                None => None,
            },
        )
    }
}

/// Every pixel of the screen that is scanned for the ball lies in the rectangle that is
/// repainted afterwards: erasing the footprint removes all of the disc that was drawn.
pub proof fn lemma_footprint_holds_span(ball_pos: Vec2<i32>, unit_size: u8, x: int, y: int)
    requires
        span_spec(ball_pos, unit_size).x_start <= x < span_spec(ball_pos, unit_size).x_end,
        span_spec(ball_pos, unit_size).y_start <= y < span_spec(ball_pos, unit_size).y_end,
        y < crate::display::SCREEN_HEIGHT,
    ensures
        footprint_spec(ball_pos, unit_size).x <= x < footprint_spec(ball_pos, unit_size).x
            + footprint_spec(ball_pos, unit_size).width,
        footprint_spec(ball_pos, unit_size).y <= y < footprint_spec(ball_pos, unit_size).y
            + footprint_spec(ball_pos, unit_size).height,
{
}

/// The larger of two numbers.
fn max(a: i64, b: i64) -> (larger: i64)
    ensures
        larger == max_spec(a as int, b as int),
{
    if a >= b {
        a
    } else {
        b
    }
}

/// The smaller of two numbers.
fn min(a: i64, b: i64) -> (smaller: i64)
    ensures
        smaller == min_spec(a as int, b as int),
{
    if a <= b {
        a
    } else {
        b
    }
}

} // verus!
