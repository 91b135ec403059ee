//! Axis-aligned integer rectangles.
//!
//! A rectangle is an origin `(x, y)` and a size `(w, h)`. Two conventions
//! meet here and both are deliberate:
//!
//! * overlap tests and [`Rect::intersection`] read the edges as *closed*
//!   bounds, so rectangles that merely touch do intersect;
//! * painting reads them as *half-open* bounds, see [`Rect::covers`].

use vstd::prelude::*;

verus! {

/// A rectangle with its top-left corner at `(x, y)`, `w` wide and `h` high.
///
/// Nothing is checked on construction. A negative `w` or `h` gives a rectangle
/// whose right edge lies left of its left edge (or bottom above top); such a
/// rectangle covers no pixel.
#[derive(Debug, Clone, Copy, PartialEq, Eq, Structural)]
pub struct Rect {
    pub x: i32,
    pub y: i32,
    pub w: i32,
    pub h: i32,
}

impl Rect {
    /// The left edge, `x`.
    pub open spec fn spec_left(self) -> int {
        self.x as int
    }

    /// The top edge, `y`.
    pub open spec fn spec_top(self) -> int {
        self.y as int
    }

    /// The right edge, `x + w`, as a mathematical integer.
    pub open spec fn spec_right(self) -> int {
        self.x + self.w
    }

    /// The bottom edge, `y + h`, as a mathematical integer.
    pub open spec fn spec_bottom(self) -> int {
        self.y + self.h
    }

    /// The canonical empty rectangle, `{0, 0, 0, 0}`.
    pub open spec fn spec_empty() -> Rect {
        Rect { x: 0, y: 0, w: 0, h: 0 }
    }

    /// Whether the pixel `(x, y)` is painted when this rectangle is filled:
    /// left and top edges are included, right and bottom edges are not.
    pub open spec fn covers(self, x: int, y: int) -> bool {
        &&& self.spec_left() <= x < self.spec_right()
        &&& self.spec_top() <= y < self.spec_bottom()
    }

    /// Whether the closed intervals `[left, right] x [top, bottom]` of the two
    /// rectangles overlap. Touching edges count.
    pub open spec fn spec_intersects(self, other: Rect) -> bool {
        &&& self.spec_left() <= other.spec_right()
        &&& other.spec_left() <= self.spec_right()
        &&& self.spec_top() <= other.spec_bottom()
        &&& other.spec_top() <= self.spec_bottom()
    }

    /// The larger of the two left edges.
    pub open spec fn overlap_left(a: Rect, b: Rect) -> int {
        if a.spec_left() >= b.spec_left() { a.spec_left() } else { b.spec_left() }
    }

    /// The smaller of the two right edges.
    pub open spec fn overlap_right(a: Rect, b: Rect) -> int {
        if a.spec_right() <= b.spec_right() { a.spec_right() } else { b.spec_right() }
    }

    /// The larger of the two top edges.
    pub open spec fn overlap_top(a: Rect, b: Rect) -> int {
        if a.spec_top() >= b.spec_top() { a.spec_top() } else { b.spec_top() }
    }

    /// The smaller of the two bottom edges.
    pub open spec fn overlap_bottom(a: Rect, b: Rect) -> int {
        if a.spec_bottom() <= b.spec_bottom() { a.spec_bottom() } else { b.spec_bottom() }
    }

    /// Whether the closed overlap of `a` and `b` is a proper interval on both
    /// axes. For rectangles of non-negative size this is `spec_intersects`.
    pub open spec fn has_overlap(a: Rect, b: Rect) -> bool {
        &&& Rect::overlap_left(a, b) <= Rect::overlap_right(a, b)
        &&& Rect::overlap_top(a, b) <= Rect::overlap_bottom(a, b)
    }

    /// Whether the size of the closed overlap, counted in integer points per
    /// axis, fits the `i32` fields of a `Rect`.
    pub open spec fn overlap_fits(a: Rect, b: Rect) -> bool {
        Rect::has_overlap(a, b) ==> {
            &&& Rect::overlap_right(a, b) - Rect::overlap_left(a, b) + 1 <= i32::MAX
            &&& Rect::overlap_bottom(a, b) - Rect::overlap_top(a, b) + 1 <= i32::MAX
        }
    }

    /// The intersection of two rectangles under the closed-edge convention.
    ///
    /// Without an overlap it is the canonical empty rectangle. Otherwise it
    /// starts at the overlap's top-left corner and its size counts the integer
    /// points from edge to edge, both edges included (hence the `+ 1`).
    pub open spec fn spec_intersection(a: Rect, b: Rect) -> Rect {
        if Rect::has_overlap(a, b) {
            Rect {
                x: Rect::overlap_left(a, b) as i32,
                y: Rect::overlap_top(a, b) as i32,
                w: (Rect::overlap_right(a, b) - Rect::overlap_left(a, b) + 1) as i32,
                h: (Rect::overlap_bottom(a, b) - Rect::overlap_top(a, b) + 1) as i32,
            }
        } else {
            Rect::spec_empty()
        }
    }

    /// Builds a rectangle from its fields, unchecked.
    pub fn new(x: i32, y: i32, w: i32, h: i32) -> (r: Rect)
        ensures
            r == (Rect { x, y, w, h }),
    {
        Rect { x, y, w, h }
    }

    /// The left edge.
    pub fn left(&self) -> (v: i32)
        ensures
            v == self.spec_left(),
    {
        self.x
    }

    /// The top edge.
    pub fn top(&self) -> (v: i32)
        ensures
            v == self.spec_top(),
    {
        self.y
    }

    /// The right edge. The sum `x + w` has to fit an `i32`.
    pub fn right(&self) -> (v: i32)
        requires
            i32::MIN <= self.spec_right() <= i32::MAX,
        ensures
            v == self.spec_right(),
    {
        self.x + self.w
    }

    /// The bottom edge. The sum `y + h` has to fit an `i32`.
    pub fn bottom(&self) -> (v: i32)
        requires
            i32::MIN <= self.spec_bottom() <= i32::MAX,
        ensures
            v == self.spec_bottom(),
    {
        self.y + self.h
    }

    /// Whether this rectangle intersects `other`, edges included.
    ///
    /// Defined for every pair of rectangles: the edges are compared as exact
    /// integers, so extreme coordinates cannot overflow.
    pub fn intersects(&self, other: &Rect) -> (b: bool)
        ensures
            b == self.spec_intersects(*other),
    {
        let self_right: i64 = self.x as i64 + self.w as i64;
        let self_bottom: i64 = self.y as i64 + self.h as i64;
        let other_right: i64 = other.x as i64 + other.w as i64;
        let other_bottom: i64 = other.y as i64 + other.h as i64;
        self.x as i64 <= other_right && other.x as i64 <= self_right
            && self.y as i64 <= other_bottom && other.y as i64 <= self_bottom
    }

    /// The intersection of `a` and `b`, edges included.
    ///
    /// Rectangles that do not intersect give the canonical empty rectangle.
    /// The only inputs left out are those whose overlap is too large for the
    /// `i32` size fields.
    pub fn intersection(a: &Rect, b: &Rect) -> (r: Rect)
        requires
            Rect::overlap_fits(*a, *b),
        ensures
            r == Rect::spec_intersection(*a, *b),
            !a.spec_intersects(*b) ==> r == Rect::spec_empty(),
    {
        let left: i64 = if a.x >= b.x { a.x as i64 } else { b.x as i64 };
        let top: i64 = if a.y >= b.y { a.y as i64 } else { b.y as i64 };
        let a_right: i64 = a.x as i64 + a.w as i64;
        let b_right: i64 = b.x as i64 + b.w as i64;
        let a_bottom: i64 = a.y as i64 + a.h as i64;
        let b_bottom: i64 = b.y as i64 + b.h as i64;
        let right: i64 = if a_right <= b_right { a_right } else { b_right };
        let bottom: i64 = if a_bottom <= b_bottom { a_bottom } else { b_bottom };

        if left > right || top > bottom {
            return Rect { x: 0, y: 0, w: 0, h: 0 };
        }
        Rect::new(left as i32, top as i32, (right - left + 1) as i32, (bottom - top + 1) as i32)
    }
}

/// Intersection testing is symmetric.
pub proof fn lemma_intersects_symmetric(a: Rect, b: Rect)
    ensures
        a.spec_intersects(b) == b.spec_intersects(a),
{
}

/// Rectangles that do not intersect have the canonical empty rectangle as
/// their intersection.
pub proof fn lemma_disjoint_intersection_is_empty(a: Rect, b: Rect)
    requires
        !a.spec_intersects(b),
    ensures
        Rect::spec_intersection(a, b) == Rect::spec_empty(),
{
}

/// Intersecting a rectangle with itself recovers its closed extent: the same
/// origin, and one more than its width and height, since both edges count.
/// A rectangle of negative width or height has no extent, and the result is
/// the canonical empty rectangle.
pub proof fn lemma_intersection_with_self(a: Rect)
    requires
        Rect::overlap_fits(a, a),
    ensures
        a.w >= 0 && a.h >= 0 ==> {
            &&& Rect::spec_intersection(a, a).x == a.x
            &&& Rect::spec_intersection(a, a).y == a.y
            &&& Rect::spec_intersection(a, a).w == a.w + 1
            &&& Rect::spec_intersection(a, a).h == a.h + 1
        },
        a.w < 0 || a.h < 0 ==> Rect::spec_intersection(a, a) == Rect::spec_empty(),
{
}

/// With non-negative sizes, two rectangles intersect exactly when their
/// intersection is not the canonical empty rectangle.
pub proof fn lemma_intersects_iff_nonempty_intersection(a: Rect, b: Rect)
    requires
        a.w >= 0,
        a.h >= 0,
        b.w >= 0,
        b.h >= 0,
        Rect::overlap_fits(a, b),
    ensures
        a.spec_intersects(b) <==> Rect::spec_intersection(a, b) != Rect::spec_empty(),
{
}

} // verus!
