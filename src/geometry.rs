use vstd::prelude::*;

use crate::scalar::{add_sat, max_i, max_of, min_i, min_of, sat, sub_sat};

verus! {

/// A point or an extent in the plane.
#[derive(Clone, Copy, Debug, PartialEq, Eq, Structural)]
pub struct Vec2 {
    pub x: i64,
    pub y: i64,
}

/// One of the four unit directions along which blocks can be laid out.
#[derive(Clone, Copy, Debug, PartialEq, Eq, Structural)]
pub enum Axis {
    PosX,
    NegX,
    PosY,
    NegY,
}

/// Component of `v` along `a` (the dot product with the unit vector of `a`).
pub open spec fn along(v: Vec2, a: Axis) -> int {
    match a {
        Axis::PosX => v.x as int,
        Axis::NegX => -(v.x as int),
        Axis::PosY => v.y as int,
        Axis::NegY => -(v.y as int),
    }
}

/// The vector `s * a`, saturated.
pub open spec fn scaled(a: Axis, s: int) -> Vec2 {
    match a {
        Axis::PosX => Vec2 { x: sat(s), y: 0 },
        Axis::NegX => Vec2 { x: sat(-s), y: 0 },
        Axis::PosY => Vec2 { x: 0, y: sat(s) },
        Axis::NegY => Vec2 { x: 0, y: sat(-s) },
    }
}

pub open spec fn vadd(a: Vec2, b: Vec2) -> Vec2 {
    Vec2 { x: sat(a.x + b.x), y: sat(a.y + b.y) }
}

pub open spec fn vsub(a: Vec2, b: Vec2) -> Vec2 {
    Vec2 { x: sat(a.x - b.x), y: sat(a.y - b.y) }
}

pub open spec fn vmin(a: Vec2, b: Vec2) -> Vec2 {
    Vec2 { x: min_i(a.x as int, b.x as int) as i64, y: min_i(a.y as int, b.y as int) as i64 }
}

pub open spec fn vmax(a: Vec2, b: Vec2) -> Vec2 {
    Vec2 { x: max_i(a.x as int, b.x as int) as i64, y: max_i(a.y as int, b.y as int) as i64 }
}

/// Component-wise `v` raised to `lo`, then lowered to `hi`.
pub open spec fn vclamp(v: Vec2, lo: Vec2, hi: Vec2) -> Vec2 {
    vmin(vmax(v, lo), hi)
}

impl Vec2 {
    pub fn zero() -> (r: Vec2)
        ensures
            r == (Vec2 { x: 0, y: 0 }),
    {
        Vec2 { x: 0, y: 0 }
    }

    pub fn new(x: i64, y: i64) -> (r: Vec2)
        ensures
            r == (Vec2 { x, y }),
    {
        Vec2 { x, y }
    }

    pub fn add(self, o: Vec2) -> (r: Vec2)
        ensures
            r == vadd(self, o),
    {
        Vec2 { x: add_sat(self.x, o.x), y: add_sat(self.y, o.y) }
    }

    pub fn sub(self, o: Vec2) -> (r: Vec2)
        ensures
            r == vsub(self, o),
    {
        Vec2 { x: sub_sat(self.x, o.x), y: sub_sat(self.y, o.y) }
    }

    pub fn min(self, o: Vec2) -> (r: Vec2)
        ensures
            r == vmin(self, o),
    {
        Vec2 { x: min_of(self.x, o.x), y: min_of(self.y, o.y) }
    }

    pub fn max(self, o: Vec2) -> (r: Vec2)
        ensures
            r == vmax(self, o),
    {
        Vec2 { x: max_of(self.x, o.x), y: max_of(self.y, o.y) }
    }

    pub fn clamp(self, lo: Vec2, hi: Vec2) -> (r: Vec2)
        ensures
            r == vclamp(self, lo, hi),
    {
        self.max(lo).min(hi)
    }

    /// Component along `a`, saturated.
    pub fn along(self, a: Axis) -> (r: i64)
        ensures
            r == sat(along(self, a)),
    {
        match a {
            Axis::PosX => self.x,
            Axis::NegX => sub_sat(0, self.x),
            Axis::PosY => self.y,
            Axis::NegY => sub_sat(0, self.y),
        }
    }
}

/// The vector `s * a`.
pub fn scale(a: Axis, s: i64) -> (r: Vec2)
    ensures
        r == scaled(a, s as int),
{
    match a {
        Axis::PosX => Vec2 { x: s, y: 0 },
        Axis::NegX => Vec2 { x: sub_sat(0, s), y: 0 },
        Axis::PosY => Vec2 { x: 0, y: s },
        Axis::NegY => Vec2 { x: 0, y: sub_sat(0, s) },
    }
}

/// Spacing between an outer and an inner bound, one value per side.
#[derive(Clone, Copy, Debug, PartialEq, Eq, Structural)]
pub struct Edges {
    pub left: i64,
    pub right: i64,
    pub top: i64,
    pub bottom: i64,
}

/// The margin on the side that `a` points to, and the one on the side it comes from.
pub open spec fn edges_in_axis(e: Edges, a: Axis) -> (i64, i64) {
    match a {
        Axis::PosX => (e.right, e.left),
        Axis::NegX => (e.left, e.right),
        Axis::PosY => (e.bottom, e.top),
        Axis::NegY => (e.top, e.bottom),
    }
}

pub open spec fn edges_size(e: Edges) -> Vec2 {
    Vec2 { x: sat(e.left + e.right), y: sat(e.top + e.bottom) }
}

impl Edges {
    pub fn zero() -> (r: Edges)
        ensures
            r == (Edges { left: 0, right: 0, top: 0, bottom: 0 }),
    {
        Edges { left: 0, right: 0, top: 0, bottom: 0 }
    }

    pub fn new(left: i64, right: i64, top: i64, bottom: i64) -> (r: Edges)
        ensures
            r == (Edges { left, right, top, bottom }),
    {
        Edges { left, right, top, bottom }
    }

    pub fn even(distance: i64) -> (r: Edges)
        ensures
            r == (Edges { left: distance, right: distance, top: distance, bottom: distance }),
    {
        Edges { left: distance, right: distance, top: distance, bottom: distance }
    }

    /// Total horizontal and vertical spacing.
    pub fn size(&self) -> (r: Vec2)
        ensures
            r == edges_size(*self),
    {
        Vec2 { x: add_sat(self.left, self.right), y: add_sat(self.top, self.bottom) }
    }

    pub fn in_axis(&self, a: Axis) -> (r: (i64, i64))
        ensures
            r == edges_in_axis(*self, a),
    {
        match a {
            Axis::PosX => (self.right, self.left),
            Axis::NegX => (self.left, self.right),
            Axis::PosY => (self.bottom, self.top),
            Axis::NegY => (self.top, self.bottom),
        }
    }
}

/// An axis-aligned rectangle given by two corners. `min <= max` is not
/// enforced: a rectangle of negative size is a valid value.
#[derive(Clone, Copy, Debug, PartialEq, Eq, Structural)]
pub struct Rect {
    pub min: Vec2,
    pub max: Vec2,
}

pub open spec fn rect_size(r: Rect) -> Vec2 {
    vsub(r.max, r.min)
}

pub open spec fn rect_inset(r: Rect, e: Edges) -> Rect {
    Rect {
        min: vadd(r.min, Vec2 { x: e.left, y: e.top }),
        max: vsub(r.max, Vec2 { x: e.right, y: e.bottom }),
    }
}

pub open spec fn rect_pad(r: Rect, e: Edges) -> Rect {
    Rect {
        min: vsub(r.min, Vec2 { x: e.left, y: e.top }),
        max: vadd(r.max, Vec2 { x: e.right, y: e.bottom }),
    }
}

/// The rect with corner `min` whose size is the clamp of `r`'s size into `[lo, hi]`.
pub open spec fn rect_clamp(r: Rect, lo: Vec2, hi: Vec2) -> Rect {
    Rect { min: r.min, max: vadd(r.min, vclamp(rect_size(r), lo, hi)) }
}

/// Coordinate of the edge of `r` that lies farthest in direction `a`.
pub open spec fn support(r: Rect, a: Axis) -> int {
    match a {
        Axis::PosX | Axis::PosY => along(r.max, a),
        Axis::NegX | Axis::NegY => along(r.min, a),
    }
}

impl Rect {
    pub fn from_size_pos(size: Vec2, pos: Vec2) -> (r: Rect)
        ensures
            r == (Rect { min: pos, max: vadd(pos, size) }),
    {
        Rect { min: pos, max: pos.add(size) }
    }

    /// The rect spanned by two corners given in any order.
    pub fn from_two_points(a: Vec2, b: Vec2) -> (r: Rect)
        ensures
            r == (Rect { min: vmin(a, b), max: vmax(a, b) }),
    {
        Rect { min: a.min(b), max: a.max(b) }
    }

    pub fn size(&self) -> (r: Vec2)
        ensures
            r == rect_size(*self),
    {
        self.max.sub(self.min)
    }

    pub fn pos(&self) -> (r: Vec2)
        ensures
            r == self.min,
    {
        self.min
    }

    /// Makes the rect smaller by the given padding.
    pub fn inset(&self, padding: &Edges) -> (r: Rect)
        ensures
            r == rect_inset(*self, *padding),
    {
        Rect {
            min: self.min.add(Vec2 { x: padding.left, y: padding.top }),
            max: self.max.sub(Vec2 { x: padding.right, y: padding.bottom }),
        }
    }

    /// Makes the rect larger by the given padding.
    pub fn pad(&self, padding: &Edges) -> (r: Rect)
        ensures
            r == rect_pad(*self, *padding),
    {
        Rect {
            min: self.min.sub(Vec2 { x: padding.left, y: padding.top }),
            max: self.max.add(Vec2 { x: padding.right, y: padding.bottom }),
        }
    }

    pub fn translate(&self, v: Vec2) -> (r: Rect)
        ensures
            r == (Rect { min: vadd(self.min, v), max: vadd(self.max, v) }),
    {
        Rect { min: self.min.add(v), max: self.max.add(v) }
    }

    /// Clamps the size into `[lo, hi]`, keeping `min` in place.
    pub fn clamp(&self, lo: Vec2, hi: Vec2) -> (r: Rect)
        ensures
            r == rect_clamp(*self, lo, hi),
    {
        let size = self.size().clamp(lo, hi);
        Rect { min: self.min, max: self.min.add(size) }
    }

    pub fn support(&self, a: Axis) -> (r: i64)
        ensures
            r == sat(support(*self, a)),
    {
        match a {
            Axis::PosX | Axis::PosY => self.max.along(a),
            Axis::NegX | Axis::NegY => self.min.along(a),
        }
    }
}

} // verus!
