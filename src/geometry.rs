//! Logical-pixel geometry: points, sizes and axis-aligned rectangles.
use vstd::prelude::*;

verus! {

/// A point in logical coordinates.
#[derive(Clone, Copy, Debug, PartialEq, Eq, Structural)]
pub struct Point {
    pub x: i32,
    pub y: i32,
}

/// A width and a height in logical units.
#[derive(Clone, Copy, Debug, PartialEq, Eq, Structural)]
pub struct Size {
    pub w: i32,
    pub h: i32,
}

/// An axis-aligned rectangle: its top-left corner and its size.
#[derive(Clone, Copy, Debug, PartialEq, Eq, Structural)]
pub struct Rectangle {
    pub loc: Point,
    pub size: Size,
}

impl Point {
    pub fn new(x: i32, y: i32) -> (r: Point)
        ensures
            r.x == x,
            r.y == y,
    {
        Point { x, y }
    }

    /// Whether `self + other` is representable.
    pub open spec fn can_offset(self, other: Point) -> bool {
        &&& i32::MIN <= self.x + other.x <= i32::MAX
        &&& i32::MIN <= self.y + other.y <= i32::MAX
    }

    /// The point `self` moved by `other`.
    pub fn offset(self, other: Point) -> (r: Point)
        requires
            self.can_offset(other),
        ensures
            r.x == self.x + other.x,
            r.y == self.y + other.y,
    {
        Point { x: self.x + other.x, y: self.y + other.y }
    }
}

impl Size {
    pub fn new(w: i32, h: i32) -> (r: Size)
        ensures
            r.w == w,
            r.h == h,
    {
        Size { w, h }
    }
}

impl Rectangle {
    pub fn new(loc: Point, size: Size) -> (r: Rectangle)
        ensures
            r.loc == loc,
            r.size == size,
    {
        Rectangle { loc, size }
    }

    /// Half-open containment: the left and top edges belong to the
    /// rectangle, the right and bottom edges do not. Each far edge is
    /// `start + length` clamped to the `i32` range.
    pub open spec fn spec_contains(self, p: Point) -> bool {
        &&& self.loc.x <= p.x < spec_saturating_end(self.loc.x, self.size.w)
        &&& self.loc.y <= p.y < spec_saturating_end(self.loc.y, self.size.h)
    }

    /// No point lies in both rectangles.
    pub open spec fn disjoint(self, other: Rectangle) -> bool {
        forall|p: Point| !(#[trigger] self.spec_contains(p) && other.spec_contains(p))
    }

    pub fn contains(&self, p: Point) -> (r: bool)
        ensures
            r == self.spec_contains(p),
    {
        self.loc.x <= p.x && p.x < saturating_end(self.loc.x, self.size.w) && self.loc.y <= p.y
            && p.y < saturating_end(self.loc.y, self.size.h)
    }
}

/// `start + len`, clamped to the `i32` range.
pub open spec fn spec_saturating_end(start: i32, len: i32) -> int {
    if start + len > i32::MAX {
        i32::MAX as int
    } else if start + len < i32::MIN {
        i32::MIN as int
    } else {
        start + len
    }
}

fn saturating_end(start: i32, len: i32) -> (r: i32)
    ensures
        r == spec_saturating_end(start, len),
{
    let sum = start as i64 + len as i64;
    if sum > i32::MAX as i64 {
        i32::MAX
    } else if sum < i32::MIN as i64 {
        i32::MIN
    } else {
        sum as i32
    }
}

} // verus!
