//! Logical-pixel geometry: pixels, points, sizes, bounds, edges, axes and anchors.
//!
//! Pixel quantities are whole logical pixels held in an `i64`. Every layout
//! coordinate that the library stores is kept within `COORD_LIMIT` of zero, so
//! that the sums and differences computed from a few of them never leave `i64`.
use vstd::prelude::*;

verus! {

/// Largest magnitude of a stored layout coordinate or extent.
pub const COORD_LIMIT: i64 = 1_099_511_627_776;

/// A length or coordinate in logical pixels.
#[derive(Clone, Copy, Debug, PartialEq, Eq, Structural)]
pub struct Pixels(pub i64);

/// Builds a pixel value.
pub fn px(v: i64) -> (r: Pixels)
    ensures
        r.0 == v,
{
    Pixels(v)
}

/// A value that may be stored as a layout coordinate.
pub open spec fn coord_ok(v: int) -> bool {
    -COORD_LIMIT <= v <= COORD_LIMIT
}

/// A point in logical pixels.
#[derive(Clone, Copy, Debug, PartialEq, Eq, Structural)]
pub struct Point {
    pub x: Pixels,
    pub y: Pixels,
}

/// Builds a point.
pub fn point(x: Pixels, y: Pixels) -> (r: Point)
    ensures
        r.x == x,
        r.y == y,
{
    Point { x, y }
}

impl Point {
    /// Both coordinates are storable.
    pub open spec fn wf(self) -> bool {
        coord_ok(self.x.0 as int) && coord_ok(self.y.0 as int)
    }

    /// The origin.
    pub fn zero() -> (r: Point)
        ensures
            r.x.0 == 0,
            r.y.0 == 0,
    {
        Point { x: Pixels(0), y: Pixels(0) }
    }
}

/// A width and a height in logical pixels.
#[derive(Clone, Copy, Debug, PartialEq, Eq, Structural)]
pub struct Size {
    pub width: Pixels,
    pub height: Pixels,
}

/// Builds a size.
pub fn size(width: Pixels, height: Pixels) -> (r: Size)
    ensures
        r.width == width,
        r.height == height,
{
    Size { width, height }
}

impl Size {
    /// Both extents are storable.
    pub open spec fn wf(self) -> bool {
        coord_ok(self.width.0 as int) && coord_ok(self.height.0 as int)
    }
}

/// A rectangle given by its top-left corner and its size.
#[derive(Clone, Copy, Debug, PartialEq, Eq, Structural)]
pub struct Bounds {
    pub origin: Point,
    pub size: Size,
}

impl Bounds {
    /// Origin and size are storable.
    pub open spec fn wf(self) -> bool {
        self.origin.wf() && self.size.wf()
    }

    pub open spec fn top_spec(self) -> int {
        self.origin.y.0 as int
    }

    pub open spec fn bottom_spec(self) -> int {
        self.origin.y.0 + self.size.height.0
    }

    pub open spec fn left_spec(self) -> int {
        self.origin.x.0 as int
    }

    pub open spec fn right_spec(self) -> int {
        self.origin.x.0 + self.size.width.0
    }

    /// Builds bounds from an origin and a size.
    pub fn new(origin: Point, size: Size) -> (r: Bounds)
        ensures
            r.origin == origin,
            r.size == size,
    {
        Bounds { origin, size }
    }

    /// The y coordinate of the top edge.
    pub fn top(&self) -> (r: i64)
        ensures
            r == self.top_spec(),
    {
        self.origin.y.0
    }

    /// The origin is within eight times the coordinate limit and the size is storable.
    pub open spec fn loose_wf(self) -> bool {
        -8 * COORD_LIMIT <= self.origin.x.0 <= 8 * COORD_LIMIT
            && -8 * COORD_LIMIT <= self.origin.y.0 <= 8 * COORD_LIMIT && self.size.wf()
    }

    /// The y coordinate of the bottom edge.
    pub fn bottom(&self) -> (r: i64)
        requires
            self.loose_wf(),
        ensures
            r == self.bottom_spec(),
    {
        self.origin.y.0 + self.size.height.0
    }

    /// The x coordinate of the left edge.
    pub fn left(&self) -> (r: i64)
        ensures
            r == self.left_spec(),
    {
        self.origin.x.0
    }

    /// The x coordinate of the right edge.
    pub fn right(&self) -> (r: i64)
        requires
            self.loose_wf(),
        ensures
            r == self.right_spec(),
    {
        self.origin.x.0 + self.size.width.0
    }

    /// The bounds of a box of `size` whose `anchor` corner stands at `origin`.
    pub open spec fn from_anchor_and_size_spec(anchor: Anchor, origin: Point, size: Size) -> Bounds {
        let x = if anchor.is_right() { origin.x.0 - size.width.0 } else { origin.x.0 as int };
        let y = if anchor.is_bottom() { origin.y.0 - size.height.0 } else { origin.y.0 as int };
        Bounds { origin: Point { x: Pixels(x as i64), y: Pixels(y as i64) }, size }
    }

    /// Places a box of `size` so that its `anchor` corner stands at `origin`.
    pub fn from_anchor_and_size(anchor: Anchor, origin: Point, size: Size) -> (r: Bounds)
        requires
            -4 * COORD_LIMIT <= origin.x.0 <= 4 * COORD_LIMIT,
            -4 * COORD_LIMIT <= origin.y.0 <= 4 * COORD_LIMIT,
            size.wf(),
        ensures
            r == Self::from_anchor_and_size_spec(anchor, origin, size),
            r.left_spec() == (if anchor.is_right() { origin.x.0 - size.width.0 } else { origin.x.0 as int }),
            r.top_spec() == (if anchor.is_bottom() { origin.y.0 - size.height.0 } else { origin.y.0 as int }),
    {
        let x = match anchor {
            Anchor::TopRight | Anchor::BottomRight => origin.x.0 - size.width.0,
            _ => origin.x.0,
        };
        let y = match anchor {
            Anchor::BottomLeft | Anchor::BottomRight => origin.y.0 - size.height.0,
            _ => origin.y.0,
        };
        Bounds { origin: Point { x: Pixels(x), y: Pixels(y) }, size }
    }
}

/// Space on the four sides of a box.
#[derive(Clone, Copy, Debug, PartialEq, Eq, Structural)]
pub struct Edges {
    pub top: Pixels,
    pub right: Pixels,
    pub bottom: Pixels,
    pub left: Pixels,
}

impl Edges {
    /// All four sides are storable.
    pub open spec fn wf(self) -> bool {
        coord_ok(self.top.0 as int) && coord_ok(self.right.0 as int) && coord_ok(
            self.bottom.0 as int,
        ) && coord_ok(self.left.0 as int)
    }

    /// The same value on every side.
    pub fn all(v: Pixels) -> (r: Edges)
        ensures
            r.top == v,
            r.right == v,
            r.bottom == v,
            r.left == v,
    {
        Edges { top: v, right: v, bottom: v, left: v }
    }
}

/// One of the two layout axes.
#[derive(Clone, Copy, Debug, PartialEq, Eq, Structural)]
pub enum Axis {
    Vertical,
    Horizontal,
}

impl Axis {
    /// Whether this is the horizontal axis.
    pub fn is_horizontal(&self) -> (r: bool)
        ensures
            r == (*self == Axis::Horizontal),
    {
        match self {
            Axis::Horizontal => true,
            Axis::Vertical => false,
        }
    }

    /// Whether this is the vertical axis.
    pub fn is_vertical(&self) -> (r: bool)
        ensures
            r == (*self == Axis::Vertical),
    {
        match self {
            Axis::Horizontal => false,
            Axis::Vertical => true,
        }
    }
}

/// The corner of a box that is pinned to a position.
#[derive(Clone, Copy, Debug, PartialEq, Eq, Structural)]
pub enum Anchor {
    TopLeft,
    TopRight,
    BottomLeft,
    BottomRight,
}

impl Anchor {
    pub open spec fn is_right(self) -> bool {
        self == Anchor::TopRight || self == Anchor::BottomRight
    }

    pub open spec fn is_bottom(self) -> bool {
        self == Anchor::BottomLeft || self == Anchor::BottomRight
    }

    pub open spec fn other_side_along_spec(self, axis: Axis) -> Anchor {
        match axis {
            Axis::Horizontal => match self {
                Anchor::TopLeft => Anchor::TopRight,
                Anchor::TopRight => Anchor::TopLeft,
                Anchor::BottomLeft => Anchor::BottomRight,
                Anchor::BottomRight => Anchor::BottomLeft,
            },
            Axis::Vertical => match self {
                Anchor::TopLeft => Anchor::BottomLeft,
                Anchor::TopRight => Anchor::BottomRight,
                Anchor::BottomLeft => Anchor::TopLeft,
                Anchor::BottomRight => Anchor::TopRight,
            },
        }
    }

    /// The corner on the other side of the box along `axis`.
    pub fn other_side_along(&self, axis: Axis) -> (r: Anchor)
        ensures
            r == self.other_side_along_spec(axis),
            axis == Axis::Horizontal ==> r.is_bottom() == self.is_bottom() && r.is_right() != self.is_right(),
            axis == Axis::Vertical ==> r.is_right() == self.is_right() && r.is_bottom() != self.is_bottom(),
    {
        match axis {
            Axis::Horizontal => match self {
                Anchor::TopLeft => Anchor::TopRight,
                Anchor::TopRight => Anchor::TopLeft,
                Anchor::BottomLeft => Anchor::BottomRight,
                Anchor::BottomRight => Anchor::BottomLeft,
            },
            Axis::Vertical => match self {
                Anchor::TopLeft => Anchor::BottomLeft,
                Anchor::TopRight => Anchor::BottomRight,
                Anchor::BottomLeft => Anchor::TopLeft,
                Anchor::BottomRight => Anchor::TopRight,
            },
        }
    }
}

/// Switching the anchor twice along one axis gives the anchor back.
pub proof fn lemma_other_side_along_involutive(anchor: Anchor, axis: Axis)
    ensures
        anchor.other_side_along_spec(axis).other_side_along_spec(axis) == anchor,
{
}

/// A length in pixels or in rems (thousandths of the root font size).
#[derive(Clone, Copy, Debug, PartialEq, Eq, Structural)]
pub enum AbsoluteLength {
    Pixels(Pixels),
    Rems(u32),
}

/// How content that does not fit in a box is handled along one axis.
#[derive(Clone, Copy, Debug, PartialEq, Eq, Structural)]
pub enum Overflow {
    Visible,
    Clip,
    Hidden,
    Scroll,
}

/// A value for each axis.
#[derive(Clone, Copy, Debug, PartialEq, Eq, Structural)]
pub struct AxisOverflow {
    pub x: Overflow,
    pub y: Overflow,
}

/// A value for each corner of a box.
#[derive(Clone, Copy, Debug, PartialEq, Eq)]
pub struct Corners<T> {
    pub top_left: T,
    pub top_right: T,
    pub bottom_right: T,
    pub bottom_left: T,
}

impl<T: Copy> Corners<T> {
    /// The same value at every corner.
    pub fn all(v: T) -> (r: Corners<T>)
        ensures
            r == (Corners { top_left: v, top_right: v, bottom_right: v, bottom_left: v }),
    {
        Corners { top_left: v, top_right: v, bottom_right: v, bottom_left: v }
    }
}

} // verus!
