//! Pixel geometry: points, and the rectangles that a web view occupies.

use vstd::prelude::*;

verus! {

/// A point in whole pixels.
#[derive(Clone, Copy, Debug, PartialEq, Eq, Structural)]
pub struct Point {
    pub x: i32,
    pub y: i32,
}

/// An extent in whole pixels.
#[derive(Clone, Copy, Debug, PartialEq, Eq, Structural)]
pub struct Size {
    pub width: i32,
    pub height: i32,
}

/// A rectangle in whole pixels. The left and top edges belong to it, the right
/// and bottom edges do not.
#[derive(Clone, Copy, Debug, PartialEq, Eq, Structural)]
pub struct PixelRect {
    pub left: i32,
    pub top: i32,
    pub right: i32,
    pub bottom: i32,
}

/// Whether a machine integer of 32 bits can hold `n`.
pub open spec fn fits(n: int) -> bool {
    i32::MIN <= n <= i32::MAX
}

impl PixelRect {
    /// The distance from the left to the right edge.
    pub open spec fn width(self) -> int {
        self.right - self.left
    }

    /// The distance from the top to the bottom edge.
    pub open spec fn height(self) -> int {
        self.bottom - self.top
    }

    /// Whether `p` lies in the rectangle.
    pub open spec fn covers(self, p: Point) -> bool {
        &&& self.left <= p.x < self.right
        &&& self.top <= p.y < self.bottom
    }

    /// Whether the way from the top left corner to `p` can be written as a `Point`.
    pub open spec fn can_localize(self, p: Point) -> bool {
        &&& fits(p.x - self.left)
        &&& fits(p.y - self.top)
    }

    /// `p` seen from the top left corner.
    pub open spec fn local(self, p: Point) -> Point {
        Point { x: (p.x - self.left) as i32, y: (p.y - self.top) as i32 }
    }

    /// The rectangle whose edges are all zero.
    pub fn zero() -> (r: PixelRect)
        ensures
            r.left == 0,
            r.top == 0,
            r.right == 0,
            r.bottom == 0,
    {
        PixelRect { left: 0, top: 0, right: 0, bottom: 0 }
    }

    /// Tells whether `p` lies in the rectangle.
    pub fn contains(&self, p: Point) -> (inside: bool)
        ensures
            inside == self.covers(p),
            inside <==> self.left <= p.x && p.x < self.right && self.top <= p.y && p.y
                < self.bottom,
    {
        !(p.x < self.left || p.y < self.top || p.x >= self.right || p.y >= self.bottom)
    }

    /// Moves the origin to the top left corner.
    pub fn localize(&self, p: Point) -> (q: Point)
        requires
            self.can_localize(p),
        ensures
            q.x == p.x - self.left,
            q.y == p.y - self.top,
            q == self.local(p),
    {
        Point { x: p.x - self.left, y: p.y - self.top }
    }
}

/// The rectangle that reaches from `position` as far as `size` says.
pub open spec fn spanned(position: Point, size: Size) -> PixelRect {
    PixelRect {
        left: position.x,
        top: position.y,
        right: (position.x + size.width) as i32,
        bottom: (position.y + size.height) as i32,
    }
}

/// The rectangle with its top left corner at `position` and the extent `size`.
pub fn rect(position: Point, size: Size) -> (r: PixelRect)
    requires
        fits(position.x + size.width),
        fits(position.y + size.height),
    ensures
        r == spanned(position, size),
        r.left == position.x,
        r.top == position.y,
        r.right == position.x + size.width,
        r.bottom == position.y + size.height,
        r.width() == size.width,
        r.height() == size.height,
{
    PixelRect {
        left: position.x,
        top: position.y,
        right: position.x + size.width,
        bottom: position.y + size.height,
    }
}

/// A point that a rectangle covers lands within the rectangle's extent once it
/// is seen from the top left corner.
pub proof fn law_covered_points_land_in_extent(r: PixelRect, p: Point)
    requires
        r.covers(p),
        r.can_localize(p),
    ensures
        0 <= r.local(p).x < r.width(),
        0 <= r.local(p).y < r.height(),
{
}

/// Where both extents can be written in 32 bits, as they can for every rectangle
/// built from a position and a size, every covered point can be localized.
pub proof fn law_measurable_rects_localize(r: PixelRect, p: Point)
    requires
        fits(r.width()),
        fits(r.height()),
        r.covers(p),
    ensures
        r.can_localize(p),
{
}

/// Two different points have different local positions.
pub proof fn law_localizing_keeps_points_apart(r: PixelRect, p: Point, q: Point)
    requires
        r.can_localize(p),
        r.can_localize(q),
        r.local(p) == r.local(q),
    ensures
        p == q,
{
}

/// The left and top edges belong to a rectangle, the right and bottom edges do
/// not, and nothing outside of them does.
pub proof fn law_rects_are_half_open(r: PixelRect, p: Point)
    ensures
        r.covers(p) <==> r.left <= p.x && p.x < r.right && r.top <= p.y && p.y < r.bottom,
{
}

/// A point seen from the corner leads back to itself once the corner is added, and
/// it can be written exactly when both differences lie in the range of 32 bits.
pub proof fn law_localizing_subtracts_the_corner(r: PixelRect, p: Point)
    ensures
        r.can_localize(p) <==> {
            &&& -0x8000_0000 <= p.x - r.left <= 0x7fff_ffff
            &&& -0x8000_0000 <= p.y - r.top <= 0x7fff_ffff
        },
        r.can_localize(p) ==> r.local(p).x + r.left == p.x && r.local(p).y + r.top == p.y,
{
}

/// A rectangle built from a position and a size covers exactly the points that lie
/// at least at the position, and less than the size away from it.
pub proof fn law_rects_span_their_size(position: Point, size: Size, p: Point)
    requires
        -0x8000_0000 <= position.x + size.width <= 0x7fff_ffff,
        -0x8000_0000 <= position.y + size.height <= 0x7fff_ffff,
    ensures
        spanned(position, size).covers(p) <==> 0 <= p.x - position.x < size.width && 0 <= p.y
            - position.y < size.height,
        spanned(position, size).left == position.x,
        spanned(position, size).top == position.y,
        spanned(position, size).right - position.x == size.width,
        spanned(position, size).bottom - position.y == size.height,
{
}

} // verus!
