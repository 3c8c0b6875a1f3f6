//! Integer geometry: sizes, points, rectangles, insets and alignment anchors.
//!
//! Lengths are whole pixels held in `u32`; coordinates are `i64` so that a
//! pointer position may lie anywhere, also left of or above a widget.
//! Coordinate arithmetic saturates at the ends of `i64`.

use vstd::prelude::*;

verus! {

/// The largest length; a maximum of this value means "unbounded".
pub const UNBOUNDED: u32 = 0xffff_ffff;

/// A width and a height.
#[derive(Clone, Copy, Debug, PartialEq, Eq, Structural)]
pub struct Size {
    pub width: u32,
    pub height: u32,
}

impl Size {
    /// The size `width` by `height`.
    pub fn new(width: u32, height: u32) -> (s: Size)
        ensures
            s == (Size { width, height }),
    {
        Size { width, height }
    }

    /// The empty size.
    pub fn zero() -> (s: Size)
        ensures
            s == (Size { width: 0, height: 0 }),
    {
        Size { width: 0, height: 0 }
    }

    /// Whether `self` is no larger than `outer` on both axes.
    pub open spec fn fits(self, outer: Size) -> bool {
        self.width <= outer.width && self.height <= outer.height
    }
}

/// The value of `v` brought into the range of `i64`.
pub open spec fn saturate(v: int) -> i64 {
    if v > i64::MAX {
        i64::MAX
    } else if v < i64::MIN {
        i64::MIN
    } else {
        v as i64
    }
}

/// Brings a wide coordinate into the range of `i64`.
pub fn saturated(v: i128) -> (r: i64)
    ensures
        r == saturate(v as int),
{
    if v > i64::MAX as i128 {
        i64::MAX
    } else if v < i64::MIN as i128 {
        i64::MIN
    } else {
        v as i64
    }
}

/// A position, relative to the origin of whatever coordinate space it is used in.
#[derive(Clone, Copy, Debug, PartialEq, Eq, Structural)]
pub struct Point {
    pub x: i64,
    pub y: i64,
}

impl Point {
    /// The position `x`, `y`.
    pub fn new(x: i64, y: i64) -> (p: Point)
        ensures
            p == (Point { x, y }),
    {
        Point { x, y }
    }

    /// The origin of a coordinate space.
    pub fn origin() -> (p: Point)
        ensures
            p == Point::spec_origin(),
    {
        Point { x: 0, y: 0 }
    }

    /// The origin of a coordinate space.
    pub open spec fn spec_origin() -> Point {
        Point { x: 0, y: 0 }
    }

    /// `self` moved by `delta`.
    pub open spec fn spec_plus(self, delta: Point) -> Point {
        Point { x: saturate(self.x + delta.x), y: saturate(self.y + delta.y) }
    }

    /// `self` as seen from a coordinate space whose origin is at `base`.
    pub open spec fn spec_minus(self, base: Point) -> Point {
        Point { x: saturate(self.x - base.x), y: saturate(self.y - base.y) }
    }

    /// Moves the point by `delta`, saturating.
    pub fn plus(self, delta: Point) -> (p: Point)
        ensures
            p == self.spec_plus(delta),
    {
        Point {
            x: saturated(self.x as i128 + delta.x as i128),
            y: saturated(self.y as i128 + delta.y as i128),
        }
    }

    /// Expresses the point relative to `base`, saturating.
    pub fn minus(self, base: Point) -> (p: Point)
        ensures
            p == self.spec_minus(base),
    {
        Point {
            x: saturated(self.x as i128 - base.x as i128),
            y: saturated(self.y as i128 - base.y as i128),
        }
    }
}

/// An axis-aligned rectangle: the position of its top-left corner and its size.
#[derive(Clone, Copy, Debug, PartialEq, Eq, Structural)]
pub struct Rect {
    pub origin: Point,
    pub size: Size,
}

impl Rect {
    /// The rectangle of size `size` with its top-left corner at `origin`.
    pub fn from_origin_size(origin: Point, size: Size) -> (r: Rect)
        ensures
            r == (Rect { origin, size }),
    {
        Rect { origin, size }
    }

    /// Whether `p` lies inside the rectangle. The left and top edges belong
    /// to it, the right and bottom edges do not.
    pub open spec fn spec_contains(self, p: Point) -> bool {
        &&& self.origin.x <= p.x < self.origin.x + self.size.width
        &&& self.origin.y <= p.y < self.origin.y + self.size.height
    }

    /// Hit test: whether `p` lies inside the rectangle.
    pub fn contains(&self, p: Point) -> (inside: bool)
        ensures
            inside == self.spec_contains(p),
    {
        let right: i128 = self.origin.x as i128 + self.size.width as i128;
        let bottom: i128 = self.origin.y as i128 + self.size.height as i128;
        self.origin.x <= p.x && (p.x as i128) < right && self.origin.y <= p.y && (p.y as i128)
            < bottom
    }
}

/// Distances to keep free on the four sides of a rectangle.
#[derive(Clone, Copy, Debug, PartialEq, Eq, Structural)]
pub struct Insets {
    pub left: u32,
    pub top: u32,
    pub right: u32,
    pub bottom: u32,
}

impl Insets {
    /// Insets for each side.
    pub fn new(left: u32, top: u32, right: u32, bottom: u32) -> (i: Insets)
        ensures
            i == (Insets { left, top, right, bottom }),
    {
        Insets { left, top, right, bottom }
    }

    /// The same distance on all four sides.
    pub fn uniform(d: u32) -> (i: Insets)
        ensures
            i == (Insets { left: d, top: d, right: d, bottom: d }),
    {
        Insets { left: d, top: d, right: d, bottom: d }
    }

    /// The width taken by the left and right insets together.
    pub open spec fn spec_x_total(self) -> int {
        self.left + self.right
    }

    /// The height taken by the top and bottom insets together.
    pub open spec fn spec_y_total(self) -> int {
        self.top + self.bottom
    }

    /// The width taken by the left and right insets together.
    pub fn x_total(&self) -> (t: u64)
        ensures
            t == self.spec_x_total(),
    {
        self.left as u64 + self.right as u64
    }

    /// The height taken by the top and bottom insets together.
    pub fn y_total(&self) -> (t: u64)
        ensures
            t == self.spec_y_total(),
    {
        self.top as u64 + self.bottom as u64
    }
}

/// Where along one axis something is placed in the room left over.
#[derive(Clone, Copy, Debug, PartialEq, Eq, Structural)]
pub enum Anchor {
    Start,
    Center,
    End,
}

impl Anchor {
    /// The offset that puts something at this anchor when `extra` is left over.
    pub open spec fn spec_along(self, extra: int) -> int {
        match self {
            Anchor::Start => 0,
            Anchor::Center => extra / 2,
            Anchor::End => extra,
        }
    }

    /// The offset that puts something at this anchor when `extra` is left
    /// over.
    pub fn along(self, extra: u32) -> (offset: u32)
        ensures
            offset == self.spec_along(extra as int),
            offset <= extra,
    {
        match self {
            Anchor::Start => 0,
            Anchor::Center => extra / 2,
            Anchor::End => extra,
        }
    }
}

/// A position inside a rectangle, given by one anchor per axis.
#[derive(Clone, Copy, Debug, PartialEq, Eq, Structural)]
pub struct UnitPoint {
    pub x: Anchor,
    pub y: Anchor,
}

impl UnitPoint {
    /// The position with the given anchors.
    pub fn new(x: Anchor, y: Anchor) -> (u: UnitPoint)
        ensures
            u == (UnitPoint { x, y }),
    {
        UnitPoint { x, y }
    }

    /// The middle of both axes.
    pub open spec fn spec_center() -> UnitPoint {
        UnitPoint { x: Anchor::Center, y: Anchor::Center }
    }

    /// The left edge, vertically centered.
    pub open spec fn spec_left() -> UnitPoint {
        UnitPoint { x: Anchor::Start, y: Anchor::Center }
    }

    /// The right edge, vertically centered.
    pub open spec fn spec_right() -> UnitPoint {
        UnitPoint { x: Anchor::End, y: Anchor::Center }
    }

    /// The middle of both axes.
    pub fn center() -> (u: UnitPoint)
        ensures
            u == UnitPoint::spec_center(),
    {
        UnitPoint { x: Anchor::Center, y: Anchor::Center }
    }

    /// The left edge, vertically centered.
    pub fn left() -> (u: UnitPoint)
        ensures
            u == UnitPoint::spec_left(),
    {
        UnitPoint { x: Anchor::Start, y: Anchor::Center }
    }

    /// The right edge, vertically centered.
    pub fn right() -> (u: UnitPoint)
        ensures
            u == UnitPoint::spec_right(),
    {
        UnitPoint { x: Anchor::End, y: Anchor::Center }
    }

    /// The top-left corner of a box placed at this position inside a room
    /// that is `extra` larger than the box.
    pub open spec fn spec_resolve(self, extra: Size) -> Point {
        Point {
            x: self.x.spec_along(extra.width as int) as i64,
            y: self.y.spec_along(extra.height as int) as i64,
        }
    }

    /// The top-left corner of a box placed at this position inside a room
    /// that is `extra` larger than the box.
    pub fn resolve(&self, extra: Size) -> (p: Point)
        ensures
            p == self.spec_resolve(extra),
            0 <= p.x <= extra.width,
            0 <= p.y <= extra.height,
    {
        Point { x: self.x.along(extra.width) as i64, y: self.y.along(extra.height) as i64 }
    }
}

} // verus!
