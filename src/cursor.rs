use vstd::prelude::*;

use crate::geometry::{
    along, edges_in_axis, rect_size, scale, scaled, support, vadd, vmax, vmin, Axis, Edges, Rect,
    Vec2,
};
use crate::scalar::{add_sat, max_i, max_of, min_i, sat};

verus! {

/// A rectangle together with the margin that surrounds it.
#[derive(Clone, Copy, Debug, PartialEq, Eq, Structural)]
pub struct Block {
    pub rect: Rect,
    pub margin: Edges,
}

impl Block {
    pub fn new(rect: Rect, margin: Edges) -> (r: Block)
        ensures
            r == (Block { rect, margin }),
    {
        Block { rect, margin }
    }
}

pub open spec fn neg_axis(a: Axis) -> Axis {
    match a {
        Axis::PosX => Axis::NegX,
        Axis::NegX => Axis::PosX,
        Axis::PosY => Axis::NegY,
        Axis::NegY => Axis::PosY,
    }
}

impl Axis {
    pub fn neg(self) -> (r: Axis)
        ensures
            r == neg_axis(self),
    {
        match self {
            Axis::PosX => Axis::NegX,
            Axis::NegX => Axis::PosX,
            Axis::PosY => Axis::NegY,
            Axis::NegY => Axis::PosY,
        }
    }
}

/// The space left between two neighbouring blocks whose facing margins are
/// `pending` (the earlier block's) and `back` (the later block's): the larger
/// of the non-negative parts, reduced by the negative parts, and never below zero.
pub open spec fn collapsed_gap(pending: int, back: int) -> int {
    max_i(
        max_i(max_i(pending, 0), max_i(back, 0)) + min_i(pending, 0) + min_i(back, 0),
        0,
    )
}

/// The component-wise product of `v` with the unit vector of `a`.
pub open spec fn masked(v: Vec2, a: Axis) -> Vec2 {
    match a {
        Axis::PosX => Vec2 { x: v.x, y: 0 },
        Axis::NegX => Vec2 { x: sat(-v.x), y: 0 },
        Axis::PosY => Vec2 { x: 0, y: v.y },
        Axis::NegY => Vec2 { x: 0, y: sat(-v.y) },
    }
}

/// Places blocks one after another along `axis`, collapsing the margins of
/// neighbours and recording the largest cross-axis extent of the line.
#[derive(Clone, Copy, Debug)]
pub struct MarginCursor {
    pub pending_margin: i64,
    pub start: Vec2,
    pub cursor: Vec2,
    pub line_height: i64,
    pub axis: Axis,
    pub cross_axis: Axis,
}

pub open spec fn cursor_new(start: Vec2, axis: Axis, cross_axis: Axis) -> MarginCursor {
    MarginCursor { pending_margin: 0, start, cursor: start, line_height: 0, axis, cross_axis }
}

/// Cross-axis extent of a block, its margins included.
pub open spec fn block_cross_extent(b: Block, cross: Axis) -> i64 {
    let (end, start) = edges_in_axis(b.margin, cross);
    sat(sat(sat(along(rect_size(b.rect), cross)) + start) + end)
}

/// The cursor after placing `b`, and the position given to `b`.
pub open spec fn put_spec(c: MarginCursor, b: Block) -> (MarginCursor, Vec2) {
    let (front, back) = edges_in_axis(b.margin, c.axis);
    let gap = collapsed_gap(c.pending_margin as int, back as int);
    let lead = sat(support(b.rect, neg_axis(c.axis)));
    let at = vadd(c.cursor, vadd(scaled(c.axis, gap), scaled(c.axis, lead as int)));
    let (_, cross_start) = edges_in_axis(b.margin, c.cross_axis);
    let pos = vadd(at, scaled(c.cross_axis, cross_start as int));
    let extent = sat(support(b.rect, c.axis));
    let next = MarginCursor {
        pending_margin: front,
        cursor: vadd(at, scaled(c.axis, extent as int)),
        line_height: max_i(c.line_height as int, block_cross_extent(b, c.cross_axis) as int) as i64,
        ..c
    };
    (next, pos)
}

/// The cursor after closing the line, and the line's bounding rect.
pub open spec fn finish_spec(c: MarginCursor) -> (MarginCursor, Rect) {
    let end = vadd(
        vadd(c.cursor, scaled(c.cross_axis, c.line_height as int)),
        scaled(c.axis, c.pending_margin as int),
    );
    let line = Rect { min: vmin(c.start, end), max: vmax(c.start, end) };
    let next = MarginCursor {
        pending_margin: 0,
        cursor: end,
        start: vadd(vadd(masked(c.start, c.axis), end), scaled(c.cross_axis, 1)),
        ..c
    };
    (next, line)
}

fn gap_between(pending: i64, back: i64) -> (r: i64)
    ensures
        r == collapsed_gap(pending as int, back as int),
{
    let p: i128 = pending as i128;
    let b: i128 = back as i128;
    let pos_p: i128 = if p > 0 { p } else { 0 };
    let pos_b: i128 = if b > 0 { b } else { 0 };
    let neg_p: i128 = if p < 0 { p } else { 0 };
    let neg_b: i128 = if b < 0 { b } else { 0 };
    let larger: i128 = if pos_p >= pos_b { pos_p } else { pos_b };
    let total: i128 = larger + neg_p + neg_b;
    if total > 0 {
        total as i64
    } else {
        0
    }
}

fn masked_of(v: Vec2, a: Axis) -> (r: Vec2)
    ensures
        r == masked(v, a),
{
    match a {
        Axis::PosX => Vec2 { x: v.x, y: 0 },
        Axis::NegX => Vec2 { x: crate::scalar::sub_sat(0, v.x), y: 0 },
        Axis::PosY => Vec2 { x: 0, y: v.y },
        Axis::NegY => Vec2 { x: 0, y: crate::scalar::sub_sat(0, v.y) },
    }
}

impl MarginCursor {
    pub fn new(start: Vec2, axis: Axis, cross_axis: Axis) -> (r: MarginCursor)
        ensures
            r == cursor_new(start, axis, cross_axis),
    {
        MarginCursor { pending_margin: 0, start, cursor: start, line_height: 0, axis, cross_axis }
    }

    /// Places `block` after the blocks already placed and returns its position.
    pub fn put(&mut self, block: &Block) -> (pos: Vec2)
        ensures
            (*final(self), pos) == put_spec(*old(self), *block),
    {
        let (front_margin, back_margin) = block.margin.in_axis(self.axis);
        let advance = gap_between(self.pending_margin, back_margin);
        self.pending_margin = front_margin;
        let lead = block.rect.support(self.axis.neg());
        self.cursor = self.cursor.add(scale(self.axis, advance).add(scale(self.axis, lead)));
        let (end_margin, start_margin) = block.margin.in_axis(self.cross_axis);
        let pos = self.cursor.add(scale(self.cross_axis, start_margin));
        let extent = block.rect.support(self.axis);
        self.cursor = self.cursor.add(scale(self.axis, extent));
        let cross = add_sat(
            add_sat(block.rect.size().along(self.cross_axis), start_margin),
            end_margin,
        );
        self.line_height = max_of(self.line_height, cross);
        pos
    }

    /// Closes the line: moves past its height and its last pending margin,
    /// and returns the rect that the line covers.
    pub fn finish(&mut self) -> (line: Rect)
        ensures
            (*final(self), line) == finish_spec(*old(self)),
    {
        self.cursor = self.cursor.add(scale(self.cross_axis, self.line_height));
        self.cursor = self.cursor.add(scale(self.axis, self.pending_margin));
        self.pending_margin = 0;
        let line = Rect::from_two_points(self.start, self.cursor);
        self.start = masked_of(self.start, self.axis).add(self.cursor).add(
            scale(self.cross_axis, 1),
        );
        line
    }
}

} // verus!
