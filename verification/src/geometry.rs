//! Points, selection rectangles, and normalized bounds in logical
//! (DPI-scaled) screen coordinates.

use vstd::prelude::*;

verus! {

/// A point in logical screen coordinates.
#[derive(Clone, Copy, PartialEq, Eq, Structural, Debug)]
pub struct Point {
    pub x: i32,
    pub y: i32,
}

/// A selection rectangle as the two drag anchors. `start` and `end` are the
/// points where the drag began and where it currently is (or was released);
/// neither is guaranteed to be the minimum or the maximum corner.
#[derive(Clone, Copy, PartialEq, Eq, Structural, Debug)]
pub struct SelectionRect {
    pub start: Point,
    pub end: Point,
}

/// A rectangle in normalized form: minimum and maximum per axis,
/// independent of the drag direction.
#[derive(Clone, Copy, PartialEq, Eq, Structural, Debug)]
pub struct Bounds {
    pub min_x: i32,
    pub min_y: i32,
    pub max_x: i32,
    pub max_y: i32,
}

/// Squared Euclidean distance between two points.
pub open spec fn dist_sq(a: Point, b: Point) -> int {
    (a.x - b.x) * (a.x - b.x) + (a.y - b.y) * (a.y - b.y)
}

/// Squared Euclidean distance, exactly as `dist_sq`. Squared distances are
/// compared against a squared radius, so no square root is ever needed.
pub fn distance_sq(a: Point, b: Point) -> (d: i128)
    ensures
        d == dist_sq(a, b),
{
    let dx: i128 = a.x as i128 - b.x as i128;
    let dy: i128 = a.y as i128 - b.y as i128;
    proof {
        assert(dx * dx <= 0x1_0000_0000_0000_0000 && dx * dx >= 0) by (nonlinear_arith)
            requires
                -0x1_0000_0000 <= dx <= 0x1_0000_0000,
        ;
        assert(dy * dy <= 0x1_0000_0000_0000_0000 && dy * dy >= 0) by (nonlinear_arith)
            requires
                -0x1_0000_0000 <= dy <= 0x1_0000_0000,
        ;
    }
    dx * dx + dy * dy
}

impl SelectionRect {
    /// The same rectangle with the two drag anchors exchanged.
    pub open spec fn swapped(self) -> SelectionRect {
        SelectionRect { start: self.end, end: self.start }
    }
}

/// The normalized form of a selection rectangle: per axis, the smaller
/// anchor coordinate becomes the minimum and the larger one the maximum.
pub open spec fn normalize_spec(r: SelectionRect) -> Bounds {
    Bounds {
        min_x: if r.start.x <= r.end.x {
            r.start.x
        } else {
            r.end.x
        },
        min_y: if r.start.y <= r.end.y {
            r.start.y
        } else {
            r.end.y
        },
        max_x: if r.start.x <= r.end.x {
            r.end.x
        } else {
            r.start.x
        },
        max_y: if r.start.y <= r.end.y {
            r.end.y
        } else {
            r.start.y
        },
    }
}

impl SelectionRect {
    /// Normalized bounds of this rectangle.
    pub fn normalized(&self) -> (b: Bounds)
        ensures
            b == normalize_spec(*self),
            b.wf(),
    {
        Bounds {
            min_x: if self.start.x <= self.end.x {
                self.start.x
            } else {
                self.end.x
            },
            min_y: if self.start.y <= self.end.y {
                self.start.y
            } else {
                self.end.y
            },
            max_x: if self.start.x <= self.end.x {
                self.end.x
            } else {
                self.start.x
            },
            max_y: if self.start.y <= self.end.y {
                self.end.y
            } else {
                self.start.y
            },
        }
    }
}

impl Bounds {
    /// Normalized bounds are ordered per axis. Zero width or height is a
    /// valid, zero-area rectangle.
    pub open spec fn wf(self) -> bool {
        self.min_x <= self.max_x && self.min_y <= self.max_y
    }

    /// The rectangle with these bounds as drag anchors: top-left as `start`,
    /// bottom-right as `end`.
    pub open spec fn as_rect(self) -> SelectionRect {
        SelectionRect {
            start: Point { x: self.min_x, y: self.min_y },
            end: Point { x: self.max_x, y: self.max_y },
        }
    }

    pub open spec fn top_left_spec(self) -> Point {
        Point { x: self.min_x, y: self.min_y }
    }

    pub open spec fn top_right_spec(self) -> Point {
        Point { x: self.max_x, y: self.min_y }
    }

    pub open spec fn bottom_left_spec(self) -> Point {
        Point { x: self.min_x, y: self.max_y }
    }

    pub open spec fn bottom_right_spec(self) -> Point {
        Point { x: self.max_x, y: self.max_y }
    }

    pub fn top_left(&self) -> (p: Point)
        ensures
            p == self.top_left_spec(),
    {
        Point { x: self.min_x, y: self.min_y }
    }

    pub fn top_right(&self) -> (p: Point)
        ensures
            p == self.top_right_spec(),
    {
        Point { x: self.max_x, y: self.min_y }
    }

    pub fn bottom_left(&self) -> (p: Point)
        ensures
            p == self.bottom_left_spec(),
    {
        Point { x: self.min_x, y: self.max_y }
    }

    pub fn bottom_right(&self) -> (p: Point)
        ensures
            p == self.bottom_right_spec(),
    {
        Point { x: self.max_x, y: self.max_y }
    }

    /// Whether the point lies inside the bounds, edges included.
    pub open spec fn contains_spec(self, p: Point) -> bool {
        self.min_x <= p.x <= self.max_x && self.min_y <= p.y <= self.max_y
    }

    /// Inclusive point-in-rectangle test.
    pub fn contains(&self, p: Point) -> (r: bool)
        ensures
            r == self.contains_spec(p),
    {
        self.min_x <= p.x && p.x <= self.max_x && self.min_y <= p.y && p.y <= self.max_y
    }
}

/// Normalization is idempotent: renormalizing a rectangle built from already
/// normalized bounds changes nothing.
pub proof fn lemma_normalize_idempotent(r: SelectionRect)
    ensures
        normalize_spec(normalize_spec(r).as_rect()) == normalize_spec(r),
{
}

/// Normalization does not depend on drag direction: exchanging the two
/// anchors yields the same normalized bounds.
pub proof fn lemma_normalize_swap(r: SelectionRect)
    ensures
        normalize_spec(r.swapped()) == normalize_spec(r),
{
}

} // verus!
