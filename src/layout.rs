use vstd::prelude::*;

use crate::geometry::Axis;
use crate::scalar::{div_sat, div_trunc, sat, sub_sat};

verus! {

/// The direction in which a flow container places its children.
#[derive(Clone, Copy, Debug, PartialEq, Eq, Structural)]
pub enum Direction {
    Horizontal,
    Vertical,
    HorizontalReverse,
    VerticalReverse,
}

/// The primary axis and the cross axis of a direction.
pub open spec fn direction_axes(d: Direction) -> (Axis, Axis) {
    match d {
        Direction::Horizontal => (Axis::PosX, Axis::PosY),
        Direction::Vertical => (Axis::PosY, Axis::PosX),
        Direction::HorizontalReverse => (Axis::NegX, Axis::PosY),
        Direction::VerticalReverse => (Axis::NegY, Axis::PosX),
    }
}

impl Direction {
    pub fn axis(&self) -> (r: (Axis, Axis))
        ensures
            r == direction_axes(*self),
    {
        match self {
            Direction::Horizontal => (Axis::PosX, Axis::PosY),
            Direction::Vertical => (Axis::PosY, Axis::PosX),
            Direction::HorizontalReverse => (Axis::NegX, Axis::PosY),
            Direction::VerticalReverse => (Axis::NegY, Axis::PosX),
        }
    }
}

/// How children are placed across the primary axis.
#[derive(Clone, Copy, Debug, PartialEq, Eq, Structural)]
pub enum CrossAlign {
    /// Align items to the start of the cross axis
    Start,
    /// Align items to the center of the cross axis
    Center,
    /// Align items to the end of the cross axis
    End,
    /// Fill the cross axis
    Stretch,
}

/// Offset along the cross axis of an item of extent `size` in a line of extent `total`.
pub open spec fn align_offset(a: CrossAlign, total: i64, size: i64) -> i64 {
    match a {
        CrossAlign::Start => 0,
        CrossAlign::Center => sat(div_trunc(sat(total - size) as int, 2)),
        CrossAlign::End => sat(total - size),
        CrossAlign::Stretch => 0,
    }
}

impl CrossAlign {
    pub fn align_offset(&self, total_size: i64, size: i64) -> (r: i64)
        ensures
            r == align_offset(*self, total_size, size),
    {
        match self {
            CrossAlign::Start => 0,
            CrossAlign::Center => div_sat(sub_sat(total_size, size), 2),
            CrossAlign::End => sub_sat(total_size, size),
            CrossAlign::Stretch => 0,
        }
    }
}

/// The flow layout of a container: a direction and a cross-axis alignment.
#[derive(Clone, Copy, Debug, PartialEq, Eq, Structural)]
pub struct Layout {
    pub cross_align: CrossAlign,
    pub direction: Direction,
}

impl Layout {
    pub fn new(direction: Direction, cross_align: CrossAlign) -> (r: Layout)
        ensures
            r == (Layout { cross_align, direction }),
    {
        Layout { cross_align, direction }
    }
}

} // verus!
