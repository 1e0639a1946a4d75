//! Points and rectangles on the desktop.

use vstd::prelude::*;

verus! {

/// A position on the desktop.
///
/// A point is wide enough to name every position on or between the edges
/// of any [`Rect`].
#[derive(Debug, Clone, Copy, PartialEq, Eq, Structural)]
pub struct Point {
    pub x: i64,
    pub y: i64,
}

/// An axis-aligned rectangle: its top-left corner and its size.
///
/// The size is unsigned, so no rectangle has a negative extent, and the far
/// edges `x + width` and `y + height` always fit an `i64`.
#[derive(Debug, Clone, Copy, PartialEq, Eq, Structural)]
pub struct Rect {
    pub x: i32,
    pub y: i32,
    pub width: u32,
    pub height: u32,
}

impl Rect {
    /// The left edge.
    pub open spec fn spec_min_x(self) -> int {
        self.x as int
    }

    /// The top edge.
    pub open spec fn spec_min_y(self) -> int {
        self.y as int
    }

    /// The right edge.
    pub open spec fn spec_max_x(self) -> int {
        self.x + self.width
    }

    /// The bottom edge.
    pub open spec fn spec_max_y(self) -> int {
        self.y + self.height
    }

    /// The horizontal midpoint, rounded down to a whole pixel.
    pub open spec fn spec_mid_x(self) -> int {
        self.x + self.width / 2
    }

    /// The vertical midpoint, rounded down to a whole pixel.
    pub open spec fn spec_mid_y(self) -> int {
        self.y + self.height / 2
    }

    /// The midpoint of the rectangle, each coordinate rounded down to a
    /// whole pixel.
    pub open spec fn spec_center(self) -> Point {
        Point { x: self.spec_mid_x() as i64, y: self.spec_mid_y() as i64 }
    }

    /// Whether `point` lies in the rectangle, edges included.
    pub open spec fn spec_contains(self, point: Point) -> bool {
        &&& self.spec_min_x() <= point.x <= self.spec_max_x()
        &&& self.spec_min_y() <= point.y <= self.spec_max_y()
    }

    /// Whether `inner` lies wholly in the rectangle, edges included.
    pub open spec fn encloses(self, inner: Rect) -> bool {
        &&& self.spec_min_x() <= inner.spec_min_x()
        &&& inner.spec_max_x() <= self.spec_max_x()
        &&& self.spec_min_y() <= inner.spec_min_y()
        &&& inner.spec_max_y() <= self.spec_max_y()
    }

    /// Whether the area that starts at `corner` and is `width` by `height`
    /// lies wholly in the rectangle, edges included.
    pub open spec fn encloses_area(self, corner: Point, width: int, height: int) -> bool {
        &&& self.spec_min_x() <= corner.x
        &&& corner.x + width <= self.spec_max_x()
        &&& self.spec_min_y() <= corner.y
        &&& corner.y + height <= self.spec_max_y()
    }

    /// The rectangle with its top-left corner at `x`, `y` that is `width`
    /// wide and `height` high.
    pub fn new(x: i32, y: i32, width: u32, height: u32) -> (rect: Rect)
        ensures
            rect == (Rect { x, y, width, height }),
    {
        Rect { x, y, width, height }
    }

    /// The left edge: `x`.
    pub fn min_x(&self) -> (edge: i64)
        ensures
            edge == self.spec_min_x(),
    {
        self.x as i64
    }

    /// The top edge: `y`.
    pub fn min_y(&self) -> (edge: i64)
        ensures
            edge == self.spec_min_y(),
    {
        self.y as i64
    }

    /// The right edge: `x + width`.
    pub fn max_x(&self) -> (edge: i64)
        ensures
            edge == self.spec_max_x(),
    {
        self.x as i64 + self.width as i64
    }

    /// The bottom edge: `y + height`.
    pub fn max_y(&self) -> (edge: i64)
        ensures
            edge == self.spec_max_y(),
    {
        self.y as i64 + self.height as i64
    }

    /// The horizontal midpoint, `x + width / 2`, rounded down to a whole
    /// pixel.
    pub fn mid_x(&self) -> (mid: i64)
        ensures
            mid == self.spec_mid_x(),
    {
        self.x as i64 + (self.width / 2) as i64
    }

    /// The vertical midpoint, `y + height / 2`, rounded down to a whole
    /// pixel.
    pub fn mid_y(&self) -> (mid: i64)
        ensures
            mid == self.spec_mid_y(),
    {
        self.y as i64 + (self.height / 2) as i64
    }

    /// The point by which a window is assigned to a monitor: a window that
    /// straddles two monitors belongs to the one that holds its midpoint.
    pub fn center(&self) -> (point: Point)
        ensures
            point == self.spec_center(),
            point.x == self.spec_mid_x(),
            point.y == self.spec_mid_y(),
    {
        Point { x: self.mid_x(), y: self.mid_y() }
    }

    /// Whether `point` lies in the rectangle. A point on an edge does.
    pub fn contains(&self, point: Point) -> (inside: bool)
        ensures
            inside == self.spec_contains(point),
            inside <==> (self.spec_min_x() <= point.x <= self.spec_max_x()
                && self.spec_min_y() <= point.y <= self.spec_max_y()),
    {
        point.x >= self.min_x() && point.x <= self.max_x() && point.y >= self.min_y()
            && point.y <= self.max_y()
    }
}

/// The nearest value to `value` that an `i32` holds.
pub open spec fn clamp_to_i32(value: int) -> int {
    if value < i32::MIN {
        i32::MIN as int
    } else if value > i32::MAX {
        i32::MAX as int
    } else {
        value
    }
}

/// Holds a coordinate to what an `i32` holds.
pub fn clamp_coordinate(value: i64) -> (clamped: i32)
    ensures
        clamped == clamp_to_i32(value as int),
{
    if value < i32::MIN as i64 {
        i32::MIN
    } else if value > i32::MAX as i64 {
        i32::MAX
    } else {
        value as i32
    }
}

} // verus!
