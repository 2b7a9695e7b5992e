//! Corner-handle hit-testing and the cursor icon each handle requests.

use vstd::prelude::*;
use crate::geometry::{Bounds, Point, dist_sq, distance_sq};

verus! {

/// Hit radius around each corner handle, in logical pixels. A pointer whose
/// Euclidean distance to a corner is at most this selects that corner.
pub const HIT_RADIUS: i32 = 10;

/// The hit-test zone the pointer currently occupies relative to the
/// selection rectangle. Never cached across ticks: always recomputed as a
/// pure function of (rectangle, pointer position).
#[derive(Clone, Copy, PartialEq, Eq, Structural, Debug)]
pub enum ResizeHandle {
    TopLeft,
    TopRight,
    BottomLeft,
    BottomRight,
    Inner,
    Outer,
}

/// The cursor icon to request from the OS for a handle.
#[derive(Clone, Copy, PartialEq, Eq, Structural, Debug)]
pub enum CursorIcon {
    /// Diagonal resize, north-west/south-east pair.
    ResizeNwSe,
    /// Diagonal resize, north-east/south-west pair.
    ResizeNeSw,
    /// Four-way move.
    ResizeAll,
    /// Default pointer.
    Arrow,
}

pub open spec fn min2(a: int, b: int) -> int {
    if a <= b {
        a
    } else {
        b
    }
}

/// Squared distance from the pointer to the nearest of the four corners.
pub open spec fn nearest_corner_dist_sq(b: Bounds, p: Point) -> int {
    min2(
        min2(dist_sq(p, b.top_left_spec()), dist_sq(p, b.top_right_spec())),
        min2(dist_sq(p, b.bottom_left_spec()), dist_sq(p, b.bottom_right_spec())),
    )
}

/// Which handle the pointer occupies:
/// 1. if the nearest corner is within the hit radius, the corner at minimum
///    distance, ties broken in the fixed priority order top-left, top-right,
///    bottom-left, bottom-right;
/// 2. otherwise `Inner` if the pointer lies inside the bounds (inclusive);
/// 3. otherwise `Outer`.
pub open spec fn hit_test_spec(b: Bounds, p: Point) -> ResizeHandle {
    let dtl = dist_sq(p, b.top_left_spec());
    let dtr = dist_sq(p, b.top_right_spec());
    let dbl = dist_sq(p, b.bottom_left_spec());
    let dbr = dist_sq(p, b.bottom_right_spec());
    let dmin = nearest_corner_dist_sq(b, p);
    if dmin <= HIT_RADIUS * HIT_RADIUS {
        if dtl == dmin {
            ResizeHandle::TopLeft
        } else if dtr == dmin {
            ResizeHandle::TopRight
        } else if dbl == dmin {
            ResizeHandle::BottomLeft
        } else {
            ResizeHandle::BottomRight
        }
    } else if b.contains_spec(p) {
        ResizeHandle::Inner
    } else {
        ResizeHandle::Outer
    }
}

/// Hit-test the pointer against a rectangle's normalized bounds. Total: any
/// bounds (zero-area included) and any pointer position yield exactly one of
/// the six handles.
pub fn hit_test(b: &Bounds, p: Point) -> (h: ResizeHandle)
    ensures
        h == hit_test_spec(*b, p),
{
    let dtl: i128 = distance_sq(p, b.top_left());
    let dtr: i128 = distance_sq(p, b.top_right());
    let dbl: i128 = distance_sq(p, b.bottom_left());
    let dbr: i128 = distance_sq(p, b.bottom_right());
    let mut dmin: i128 = dtl;
    if dtr < dmin {
        dmin = dtr;
    }
    if dbl < dmin {
        dmin = dbl;
    }
    if dbr < dmin {
        dmin = dbr;
    }
    if dmin <= (HIT_RADIUS as i128) * (HIT_RADIUS as i128) {
        if dtl == dmin {
            ResizeHandle::TopLeft
        } else if dtr == dmin {
            ResizeHandle::TopRight
        } else if dbl == dmin {
            ResizeHandle::BottomLeft
        } else {
            ResizeHandle::BottomRight
        }
    } else if b.contains(p) {
        ResizeHandle::Inner
    } else {
        ResizeHandle::Outer
    }
}

/// The cursor icon for each handle: the NW/SE diagonal pair for top-left and
/// bottom-right, the NE/SW pair for top-right and bottom-left, four-way move
/// inside, default pointer outside.
pub open spec fn cursor_for_spec(h: ResizeHandle) -> CursorIcon {
    match h {
        ResizeHandle::TopLeft => CursorIcon::ResizeNwSe,
        ResizeHandle::BottomRight => CursorIcon::ResizeNwSe,
        ResizeHandle::TopRight => CursorIcon::ResizeNeSw,
        ResizeHandle::BottomLeft => CursorIcon::ResizeNeSw,
        ResizeHandle::Inner => CursorIcon::ResizeAll,
        ResizeHandle::Outer => CursorIcon::Arrow,
    }
}

/// Exhaustive, total handle-to-icon mapping.
pub fn cursor_for(h: ResizeHandle) -> (c: CursorIcon)
    ensures
        c == cursor_for_spec(h),
{
    match h {
        ResizeHandle::TopLeft => CursorIcon::ResizeNwSe,
        ResizeHandle::BottomRight => CursorIcon::ResizeNwSe,
        ResizeHandle::TopRight => CursorIcon::ResizeNeSw,
        ResizeHandle::BottomLeft => CursorIcon::ResizeNeSw,
        ResizeHandle::Inner => CursorIcon::ResizeAll,
        ResizeHandle::Outer => CursorIcon::Arrow,
    }
}

/// Hit-testing is total: for every rectangle (zero-area included) and every
/// pointer position it yields one of the six handles, and which one is
/// decided by the corner distances and the inclusive bounds test alone.
pub proof fn lemma_hit_test_total(b: Bounds, p: Point)
    ensures
        hit_test_spec(b, p) is TopLeft || hit_test_spec(b, p) is TopRight || hit_test_spec(
            b,
            p,
        ) is BottomLeft || hit_test_spec(b, p) is BottomRight || hit_test_spec(b, p) is Inner
            || hit_test_spec(b, p) is Outer,
        nearest_corner_dist_sq(b, p) > HIT_RADIUS * HIT_RADIUS && b.contains_spec(p)
            ==> hit_test_spec(b, p) is Inner,
        nearest_corner_dist_sq(b, p) > HIT_RADIUS * HIT_RADIUS && !b.contains_spec(p)
            ==> hit_test_spec(b, p) is Outer,
{
}

/// Corner priority is deterministic: whenever the top-left corner is within
/// the hit radius and no other corner is strictly nearer, the top-left
/// handle is chosen — in particular on exact ties.
pub proof fn lemma_corner_priority(b: Bounds, p: Point)
    requires
        dist_sq(p, b.top_left_spec()) <= HIT_RADIUS * HIT_RADIUS,
        dist_sq(p, b.top_left_spec()) <= dist_sq(p, b.top_right_spec()),
        dist_sq(p, b.top_left_spec()) <= dist_sq(p, b.bottom_left_spec()),
        dist_sq(p, b.top_left_spec()) <= dist_sq(p, b.bottom_right_spec()),
    ensures
        hit_test_spec(b, p) == ResizeHandle::TopLeft,
{
}

} // verus!
