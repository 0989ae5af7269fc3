//! Axis-aligned rectangle and point types with translate and overlap-test
//! operations, on an integer coordinate grid.

use vstd::prelude::*;

verus! {

/// A point or velocity vector on the integer coordinate grid.
#[derive(Clone, Copy, Debug, PartialEq, Eq, Structural)]
pub struct Point2 {
    pub x: i64,
    pub y: i64,
}

impl Point2 {
    pub fn new(x: i64, y: i64) -> (p: Point2)
        ensures
            p == (Point2 { x, y }),
    {
        Point2 { x, y }
    }
}

/// An axis-aligned rectangle given by its top-left and bottom-right corners.
/// Callers are expected to keep `top_left.x <= bottom_right.x` and
/// `top_left.y <= bottom_right.y`; the operations below do not require it.
#[derive(Clone, Copy, Debug, PartialEq, Eq, Structural)]
pub struct Rect {
    pub top_left: Point2,
    pub bottom_right: Point2,
}

/// Two rectangles overlap iff they overlap strictly on both axes; touching
/// edges do not count.
pub open spec fn spec_overlaps(a: Rect, b: Rect) -> bool {
    &&& a.top_left.x < b.bottom_right.x
    &&& b.top_left.x < a.bottom_right.x
    &&& a.top_left.y < b.bottom_right.y
    &&& b.top_left.y < a.bottom_right.y
}

impl Rect {
    pub fn new(top_left: Point2, bottom_right: Point2) -> (r: Rect)
        ensures
            r == (Rect { top_left, bottom_right }),
    {
        Rect { top_left, bottom_right }
    }

    /// Shifts both corners by the velocity vector `vel`.
    pub fn translate(&mut self, vel: &Point2)
        requires
            i64::MIN <= old(self).top_left.x + vel.x <= i64::MAX,
            i64::MIN <= old(self).top_left.y + vel.y <= i64::MAX,
            i64::MIN <= old(self).bottom_right.x + vel.x <= i64::MAX,
            i64::MIN <= old(self).bottom_right.y + vel.y <= i64::MAX,
        ensures
            final(self).top_left.x == old(self).top_left.x + vel.x,
            final(self).top_left.y == old(self).top_left.y + vel.y,
            final(self).bottom_right.x == old(self).bottom_right.x + vel.x,
            final(self).bottom_right.y == old(self).bottom_right.y + vel.y,
    {
        self.top_left.x = self.top_left.x + vel.x;
        self.top_left.y = self.top_left.y + vel.y;
        self.bottom_right.x = self.bottom_right.x + vel.x;
        self.bottom_right.y = self.bottom_right.y + vel.y;
    }

    /// Returns true iff the two rectangles overlap on both axes. The
    /// comparisons are strict, so rectangles that merely share an edge are
    /// not reported as overlapping.
    pub fn check_bounds(self, rect: &Rect) -> (r: bool)
        ensures
            r == spec_overlaps(self, *rect),
    {
        // if one rectangle is entirely to the left of the other
        if self.top_left.x >= rect.bottom_right.x || rect.top_left.x >= self.bottom_right.x {
            return false;
        }

        // if one rectangle is entirely above the other
        if self.top_left.y >= rect.bottom_right.y || rect.top_left.y >= self.bottom_right.y {
            return false;
        }

        true
    }
}

/// The overlap test is symmetric: `a.check_bounds(b) == b.check_bounds(a)`
/// for every pair of rectangles.
pub proof fn lemma_overlaps_symmetric(a: Rect, b: Rect)
    ensures
        spec_overlaps(a, b) == spec_overlaps(b, a),
{
}

/// Rectangles that share a boundary edge (for example
/// `a.bottom_right.x == b.top_left.x`) are never reported as overlapping.
pub proof fn lemma_touching_edge_no_overlap(a: Rect, b: Rect)
    requires
        a.bottom_right.x == b.top_left.x
            || b.bottom_right.x == a.top_left.x
            || a.bottom_right.y == b.top_left.y
            || b.bottom_right.y == a.top_left.y,
    ensures
        !spec_overlaps(a, b),
{
}

} // verus!
