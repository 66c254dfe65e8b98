//! Rectangles of pixels, as reported for alpha textures.

use vstd::prelude::*;

verus! {

/// A rectangle of pixels. It holds the columns from `left` up to but excluding
/// `right`, and the rows from `top` up to but excluding `bottom`.
#[derive(Clone, Copy, Debug, PartialEq, Eq, Structural)]
pub struct Bounds {
    pub left: i32,
    pub top: i32,
    pub right: i32,
    pub bottom: i32,
}

impl Bounds {
    /// The number of columns.
    pub open spec fn width(self) -> int {
        self.right - self.left
    }

    /// The number of rows.
    pub open spec fn height(self) -> int {
        self.bottom - self.top
    }

    /// Whether the pixel in column `x` and row `y` lies inside.
    pub open spec fn holds(self, x: int, y: int) -> bool {
        &&& self.left <= x < self.right
        &&& self.top <= y < self.bottom
    }

    /// Whether no pixel lies inside.
    pub open spec fn empty(self) -> bool {
        self.right <= self.left || self.bottom <= self.top
    }

    /// Whether the extents, and the distance of the top edge above the
    /// baseline, are numbers that an `i32` can hold.
    pub open spec fn measurable(self) -> bool {
        &&& i32::MIN <= self.width() <= i32::MAX
        &&& i32::MIN <= self.height() <= i32::MAX
        &&& -self.top <= i32::MAX
    }

    /// Whether no pixel lies inside.
    pub fn is_empty(&self) -> (r: bool)
        ensures
            r == self.empty(),
            r == (self.right <= self.left || self.bottom <= self.top),
    {
        self.right <= self.left || self.bottom <= self.top
    }

    /// Whether the extents, and the distance of the top edge above the
    /// baseline, are numbers that an `i32` can hold.
    pub fn is_measurable(&self) -> (r: bool)
        ensures
            r == self.measurable(),
            r <==> {
                &&& i32::MIN <= self.right - self.left <= i32::MAX
                &&& i32::MIN <= self.bottom - self.top <= i32::MAX
                &&& self.top > i32::MIN
            },
    {
        let width: i64 = self.right as i64 - self.left as i64;
        let height: i64 = self.bottom as i64 - self.top as i64;
        width >= i32::MIN as i64 && width <= i32::MAX as i64 && height >= i32::MIN as i64
            && height <= i32::MAX as i64 && self.top != i32::MIN
    }

    /// Whether the edges of `other` lie within those of `self`.
    pub open spec fn encloses(self, other: Bounds) -> bool {
        &&& self.left <= other.left
        &&& self.top <= other.top
        &&& other.right <= self.right
        &&& other.bottom <= self.bottom
    }
}

/// A rectangle without pixels is exactly one that is `empty`.
pub proof fn law_empty_holds_no_pixel(bounds: Bounds)
    ensures
        bounds.empty() <==> forall|x: int, y: int| !bounds.holds(x, y),
{
    if !bounds.empty() {
        assert(bounds.holds(bounds.left as int, bounds.top as int));
    }
}

/// The left edge and the top edge belong to a rectangle, the right edge and the
/// bottom edge do not: what it holds is as many columns from `left` on and as
/// many rows from `top` on as it is wide and high.
pub proof fn law_edges_delimit_the_pixels(bounds: Bounds, dx: int, dy: int)
    ensures
        bounds.holds(bounds.left + dx, bounds.top + dy) <==> 0 <= dx < bounds.right - bounds.left
            && 0 <= dy < bounds.bottom - bounds.top,
        bounds.left + bounds.width() == bounds.right,
        bounds.top + bounds.height() == bounds.bottom,
{
}

/// A rectangle is empty unless its edges are in order.
pub proof fn law_edges_out_of_order_hold_nothing(bounds: Bounds)
    ensures
        !bounds.empty() <==> bounds.left < bounds.right && bounds.top < bounds.bottom,
{
}

/// A rectangle encloses another if and only if none of the other's edges lies
/// further out.
pub proof fn law_enclosing_compares_edges(outer: Bounds, inner: Bounds)
    ensures
        !outer.encloses(inner) <==> {
            ||| inner.left < outer.left
            ||| inner.top < outer.top
            ||| inner.right > outer.right
            ||| inner.bottom > outer.bottom
        },
{
}

/// A rectangle is measurable if and only if its extents and the distance of its
/// top edge above the baseline fit an `i32`.
pub proof fn law_measurable_extents_fit(bounds: Bounds)
    ensures
        bounds.measurable() <==> {
            &&& -0x8000_0000 <= bounds.right - bounds.left <= 0x7FFF_FFFF
            &&& -0x8000_0000 <= bounds.bottom - bounds.top <= 0x7FFF_FFFF
            &&& bounds.top > -0x8000_0000
        },
{
}

} // verus!
