//! Plain integer geometry used throughout the backend.
//!
//! All coordinates are integers in logical units (device pixels divided by
//! the device scale factor). Rectangles are axis-aligned and half-open:
//! a point lies inside when `x0 <= x < x1` and `y0 <= y < y1`.

use vstd::prelude::*;

verus! {

/// A point in logical units.
#[derive(Clone, Copy, Debug, PartialEq, Eq, Structural)]
pub struct Point {
    pub x: i64,
    pub y: i64,
}

/// A width/height pair in logical units.
#[derive(Clone, Copy, Debug, PartialEq, Eq, Structural)]
pub struct Size {
    pub width: i64,
    pub height: i64,
}

/// An axis-aligned rectangle in logical units, half-open on the high edges.
#[derive(Clone, Copy, Debug, PartialEq, Eq, Structural)]
pub struct Rect {
    pub x0: i64,
    pub y0: i64,
    pub x1: i64,
    pub y1: i64,
}

/// A solid colour with 8-bit channels.
#[derive(Clone, Copy, Debug, PartialEq, Eq, Structural)]
pub struct Color {
    pub r: u8,
    pub g: u8,
    pub b: u8,
    pub a: u8,
}

/// The shapes the drawing contract accepts. Rounded rectangles are treated
/// as their bounding rectangle; every other shape is reported as
/// unsupported by the operations that take a `Shape`.
#[derive(Clone, Copy, Debug, PartialEq, Eq, Structural)]
pub enum Shape {
    Rect(Rect),
    RoundedRect { rect: Rect, radius: i64 },
    /// A shape outside the supported set (paths, circles, lines, ...).
    Other,
}

impl Rect {
    /// A rectangle is well formed when both edges are ordered and its
    /// extents fit in the coordinate type.
    pub open spec fn spec_wf(self) -> bool {
        &&& self.x0 <= self.x1
        &&& self.y0 <= self.y1
        &&& self.x1 - self.x0 <= i64::MAX
        &&& self.y1 - self.y0 <= i64::MAX
    }

    pub open spec fn spec_width(self) -> int {
        self.x1 - self.x0
    }

    pub open spec fn spec_height(self) -> int {
        self.y1 - self.y0
    }

    pub open spec fn spec_contains(self, p: Point) -> bool {
        self.x0 <= p.x < self.x1 && self.y0 <= p.y < self.y1
    }

    /// The centre, rounding towards the low edge for odd extents.
    pub open spec fn spec_center(self) -> Point
        recommends
            self.spec_wf(),
    {
        Point {
            x: (self.x0 + self.spec_width() / 2) as i64,
            y: (self.y0 + self.spec_height() / 2) as i64,
        }
    }

    pub fn wf(&self) -> (r: bool)
        ensures
            r == self.spec_wf(),
    {
        self.x0 <= self.x1 && self.y0 <= self.y1
            && (self.x1 as i128) - (self.x0 as i128) <= i64::MAX as i128
            && (self.y1 as i128) - (self.y0 as i128) <= i64::MAX as i128
    }

    pub fn size(&self) -> (r: Size)
        requires
            self.spec_wf(),
        ensures
            r.width == self.spec_width(),
            r.height == self.spec_height(),
    {
        Size { width: self.x1 - self.x0, height: self.y1 - self.y0 }
    }

    pub fn center(&self) -> (r: Point)
        requires
            self.spec_wf(),
        ensures
            r == self.spec_center(),
    {
        let w: i64 = self.x1 - self.x0;
        let h: i64 = self.y1 - self.y0;
        Point { x: self.x0 + w / 2, y: self.y0 + h / 2 }
    }

    pub fn contains(&self, p: Point) -> (r: bool)
        ensures
            r == self.spec_contains(p),
    {
        self.x0 <= p.x && p.x < self.x1 && self.y0 <= p.y && p.y < self.y1
    }

    /// The smallest rectangle covering both `self` and `other`.
    pub open spec fn spec_union(self, other: Rect) -> Rect {
        Rect {
            x0: if self.x0 <= other.x0 { self.x0 } else { other.x0 },
            y0: if self.y0 <= other.y0 { self.y0 } else { other.y0 },
            x1: if self.x1 >= other.x1 { self.x1 } else { other.x1 },
            y1: if self.y1 >= other.y1 { self.y1 } else { other.y1 },
        }
    }

    pub fn union(&self, other: &Rect) -> (r: Rect)
        ensures
            r == self.spec_union(*other),
    {
        Rect {
            x0: if self.x0 <= other.x0 { self.x0 } else { other.x0 },
            y0: if self.y0 <= other.y0 { self.y0 } else { other.y0 },
            x1: if self.x1 >= other.x1 { self.x1 } else { other.x1 },
            y1: if self.y1 >= other.y1 { self.y1 } else { other.y1 },
        }
    }

    /// Grow the rectangle by `d` on every side (shrink when `d < 0`).
    pub open spec fn spec_inset(self, d: int) -> Rect {
        Rect {
            x0: (self.x0 - d) as i64,
            y0: (self.y0 - d) as i64,
            x1: (self.x1 + d) as i64,
            y1: (self.y1 + d) as i64,
        }
    }

    pub fn inset(&self, d: i64) -> (r: Rect)
        requires
            i64::MIN <= self.x0 - d <= i64::MAX,
            i64::MIN <= self.y0 - d <= i64::MAX,
            i64::MIN <= self.x1 + d <= i64::MAX,
            i64::MIN <= self.y1 + d <= i64::MAX,
        ensures
            r == self.spec_inset(d as int),
    {
        Rect { x0: self.x0 - d, y0: self.y0 - d, x1: self.x1 + d, y1: self.y1 + d }
    }
}

impl Shape {
    /// Rectangles and rounded rectangles reduce to a plain rectangle;
    /// rounded rectangles are approximated by their bounding rectangle.
    pub open spec fn spec_as_rect(self) -> Option<Rect> {
        match self {
            Shape::Rect(r) => Some(r),
            Shape::RoundedRect { rect, .. } => Some(rect),
            Shape::Other => None,
        }
    }

    pub fn as_rect(&self) -> (r: Option<Rect>)
        ensures
            r == self.spec_as_rect(),
    {
        match self {
            Shape::Rect(r) => Some(*r),
            Shape::RoundedRect { rect, .. } => Some(*rect),
            Shape::Other => None,
        }
    }
}

impl Color {
    pub fn rgba8(r: u8, g: u8, b: u8, a: u8) -> (c: Color)
        ensures
            c == (Color { r, g, b, a }),
    {
        Color { r, g, b, a }
    }

    /// Fully transparent black, the colour treated as "nothing to paint".
    pub open spec fn spec_transparent() -> Color {
        Color { r: 0, g: 0, b: 0, a: 0 }
    }

    pub fn transparent() -> (c: Color)
        ensures
            c == Color::spec_transparent(),
    {
        Color { r: 0, g: 0, b: 0, a: 0 }
    }

    pub fn is_transparent(&self) -> (r: bool)
        ensures
            r == (*self == Color::spec_transparent()),
    {
        self.r == 0 && self.g == 0 && self.b == 0 && self.a == 0
    }
}

} // verus!
