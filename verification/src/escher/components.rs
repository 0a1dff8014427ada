//! Containers: a box that surrounds its child with margins.

use vstd::prelude::*;

use crate::eadk::{Color, Rect, SCREEN_HEIGHT, SCREEN_WIDTH};
use crate::escher::{IDLE_COLOR, SELECT_COLOR};
use crate::utils::vec::Vec2;

verus! {

/// The margin on one side of a box.
#[derive(Clone, Copy, PartialEq, Eq, Structural, Debug)]
pub enum MarginType {
    /// So many pixels.
    Margin(u16),
    /// As much as the screen allows.
    Extend,
}

/// A box around a child component.
pub struct BoxContainer<C> {
    pub child: C,
    pub margin_top: MarginType,
    pub margin_bottom: MarginType,
    pub margin_left: MarginType,
    pub margin_right: MarginType,
}

/// Where a box and its child are drawn.
#[derive(Clone, Copy, PartialEq, Eq, Debug)]
pub struct BoxLayout {
    /// The background of the box: what of it is on the screen.
    pub background: Rect,
    /// The color of the background.
    pub color: Color,
    /// Where the child is drawn.
    pub child_offset: Vec2<i32>,
}

/// The length of a box along one axis: with a fixed margin on both sides, the child and the
/// margins; otherwise the length `full`.
pub open spec fn box_length(before: MarginType, after: MarginType, child: int, full: int) -> int {
    match (before, after) {
        (MarginType::Margin(m1), MarginType::Margin(m2)) => child + m1 + m2,
        _ => full,
    }
}

/// The length in pixels of a box as it is drawn along one axis: with a fixed margin on both
/// sides, the child, of whose length the lower 16 bits are taken, and the margins; otherwise
/// the width of the screen.
pub open spec fn box_extent(before: MarginType, after: MarginType, child: i32) -> int {
    match (before, after) {
        (MarginType::Margin(m1), MarginType::Margin(m2)) => (child as u16) + m1 + m2,
        _ => SCREEN_WIDTH as int,
    }
}

/// Computes [`box_extent`].
fn extent(before: MarginType, after: MarginType, child: i32) -> (length: u16)
    requires
        box_extent(before, after, child) <= u16::MAX,
    ensures
        length == box_extent(before, after, child),
{
    match (before, after) {
        (MarginType::Margin(m1), MarginType::Margin(m2)) => {
            let inner: u16 = #[verifier::truncate]
            (child as u16);
            inner + m1 + m2
        },
        _ => SCREEN_WIDTH,
    }
}

/// How far into a box its child lies along one axis: behind a fixed margin before it; else
/// before a fixed margin after it, counted from the length `full`; else in the middle of
/// `full`, rounded towards zero.
pub open spec fn child_shift(before: MarginType, after: MarginType, child: int, full: int) -> int {
    match (before, after) {
        (MarginType::Margin(m), _) => m as int,
        (MarginType::Extend, MarginType::Margin(m)) => full - m - child,
        (MarginType::Extend, MarginType::Extend) => if full - child >= 0 {
            (full - child) / 2
        } else {
            -((child - full) / 2)
        },
    }
}

/// Computes [`child_shift`].
fn shift(before: MarginType, after: MarginType, child: i32, full: u16) -> (shift: i64)
    ensures
        shift == child_shift(before, after, child as int, full as int),
{
    match (before, after) {
        (MarginType::Margin(m), _) => m as i64,
        (MarginType::Extend, MarginType::Margin(m)) => full as i64 - m as i64 - child as i64,
        (MarginType::Extend, MarginType::Extend) => (full as i64 - child as i64) / 2,
    }
}

impl<C> BoxContainer<C> {
    /// A box around `child` with the given margins.
    pub fn new(
        child: C,
        margin_top: MarginType,
        margin_bottom: MarginType,
        margin_left: MarginType,
        margin_right: MarginType,
    ) -> (container: Self)
        ensures
            container == (BoxContainer { child, margin_top, margin_bottom, margin_left, margin_right }),
    {
        BoxContainer { child, margin_top, margin_bottom, margin_left, margin_right }
    }

    /// The size that the box asks for, given the size that its child asks for: along each
    /// axis the child with both margins, or the whole screen if a margin extends.
    pub fn requested_size(&self, child_size: Vec2<i32>) -> (size: Vec2<i32>)
        requires
            box_length(self.margin_left, self.margin_right, child_size.x as int, SCREEN_WIDTH as int)
                <= i32::MAX,
            box_length(self.margin_top, self.margin_bottom, child_size.y as int, SCREEN_HEIGHT as int)
                <= i32::MAX,
        ensures
            size.x == box_length(
                self.margin_left,
                self.margin_right,
                child_size.x as int,
                SCREEN_WIDTH as int,
            ),
            size.y == box_length(
                self.margin_top,
                self.margin_bottom,
                child_size.y as int,
                SCREEN_HEIGHT as int,
            ),
    {
        let x: i32 = match (self.margin_left, self.margin_right) {
            (MarginType::Margin(m1), MarginType::Margin(m2)) => (child_size.x as i64 + m1 as i64
                + m2 as i64) as i32,
            _ => SCREEN_WIDTH as i32,
        };
        let y: i32 = match (self.margin_top, self.margin_bottom) {
            (MarginType::Margin(m1), MarginType::Margin(m2)) => (child_size.y as i64 + m1 as i64
                + m2 as i64) as i32,
            _ => SCREEN_HEIGHT as i32,
        };
        Vec2 { x, y }
    }

    /// Where the box and its child are drawn when the box lies at `offset`: the background
    /// is the box, culled to the screen, in the color that shows whether the child is
    /// selected; the child lies within the box as the margins say. A box with a margin that
    /// extends takes the width of the screen along either axis. The size of the box must fit
    /// in 16 bits, and the place of the child in 32.
    pub fn layout(
        &self,
        child_size: Vec2<i32>,
        selected: bool,
        offset: Vec2<i32>,
    ) -> (layout: BoxLayout)
        requires
            box_extent(self.margin_left, self.margin_right, child_size.x) <= u16::MAX,
            box_extent(self.margin_top, self.margin_bottom, child_size.y) <= u16::MAX,
            i32::MIN <= offset.x + child_shift(
                self.margin_left,
                self.margin_right,
                child_size.x as int,
                SCREEN_WIDTH as int,
            ) <= i32::MAX,
            i32::MIN <= offset.y + child_shift(
                self.margin_top,
                self.margin_bottom,
                child_size.y as int,
                SCREEN_WIDTH as int,
            ) <= i32::MAX,
        ensures
            layout.background == Rect::culled(
                offset.x as int,
                offset.y as int,
                box_extent(self.margin_left, self.margin_right, child_size.x),
                box_extent(self.margin_top, self.margin_bottom, child_size.y),
            ),
            layout.color.rgb565 == (if selected {
                SELECT_COLOR
            } else {
                IDLE_COLOR
            }),
            layout.child_offset.x == offset.x + child_shift(
                self.margin_left,
                self.margin_right,
                child_size.x as int,
                SCREEN_WIDTH as int,
            ),
            layout.child_offset.y == offset.y + child_shift(
                self.margin_top,
                self.margin_bottom,
                child_size.y as int,
                SCREEN_WIDTH as int,
            ),
    {
        let size_x: u16 = extent(self.margin_left, self.margin_right, child_size.x);
        let size_y: u16 = extent(self.margin_top, self.margin_bottom, child_size.y);
        let shift_x: i64 = shift(self.margin_left, self.margin_right, child_size.x, SCREEN_WIDTH);
        let shift_y: i64 = shift(self.margin_top, self.margin_bottom, child_size.y, SCREEN_WIDTH);
        BoxLayout {
            background: Rect::screen_space_culling(offset.x, offset.y, size_x as i32, size_y as i32),
            color: Color {
                rgb565: if selected {
                    SELECT_COLOR
                } else {
                    IDLE_COLOR
                },
            },
            child_offset: Vec2 {
                x: (offset.x as i64 + shift_x) as i32,
                y: (offset.y as i64 + shift_y) as i32,
            },
        }
    }
}

} // verus!
