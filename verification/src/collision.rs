//! Axis-aligned collision primitives.
//!
//! Both tests use strict inequalities at the boundary: rectangles whose
//! edges exactly touch do not overlap. That tie-break keeps an entity
//! resting exactly on a platform edge from flickering in and out of
//! collision. Comparisons are doubled so the half extents need no division.

use vstd::prelude::*;

use crate::texture::Rect;
use crate::texture::rect_wf;

verus! {

/// The open horizontal spans of the two boxes intersect.
pub open spec fn spec_overlap_x(a: Rect, b: Rect) -> bool {
    &&& 2 * a.x + a.w > 2 * b.x - b.w
    &&& 2 * a.x - a.w < 2 * b.x + b.w
}

/// Both the open horizontal spans and the open vertical spans intersect.
pub open spec fn spec_intersect(a: Rect, b: Rect) -> bool {
    &&& spec_overlap_x(a, b)
    &&& 2 * a.y - a.h < 2 * b.y + b.h
    &&& 2 * a.y + a.h > 2 * b.y - b.h
}

/// True iff the horizontal projections of the two boxes strictly overlap:
/// touching edges do not count.
pub fn overlap_x(a: Rect, b: Rect) -> (r: bool)
    requires
        rect_wf(a),
        rect_wf(b),
    ensures
        r == spec_overlap_x(a, b),
{
    if 2 * a.x + a.w <= 2 * b.x - b.w {
        return false;
    }
    if 2 * a.x - a.w >= 2 * b.x + b.w {
        return false;
    }
    true
}

/// True iff the two boxes strictly overlap on both axes: touching edges do
/// not count.
pub fn intersect(a: &Rect, b: &Rect) -> (r: bool)
    requires
        rect_wf(*a),
        rect_wf(*b),
    ensures
        r == spec_intersect(*a, *b),
{
    if 2 * a.y - a.h >= 2 * b.y + b.h {
        return false;
    }
    if 2 * a.y + a.h <= 2 * b.y - b.h {
        return false;
    }
    if 2 * a.x + a.w <= 2 * b.x - b.w {
        return false;
    }
    if 2 * a.x - a.w >= 2 * b.x + b.w {
        return false;
    }
    true
}

/// Horizontal overlap is symmetric: which box is asked first cannot matter.
pub proof fn lemma_overlap_x_symmetric(a: Rect, b: Rect)
    ensures
        spec_overlap_x(a, b) == spec_overlap_x(b, a),
{
}

/// Full intersection is symmetric: which box is asked first cannot matter.
pub proof fn lemma_intersect_symmetric(a: Rect, b: Rect)
    ensures
        spec_intersect(a, b) == spec_intersect(b, a),
{
}

/// Boxes that exactly touch along an edge, on either axis and on either
/// side, do not intersect: touching is not colliding.
pub proof fn lemma_touching_edges_do_not_intersect(a: Rect, b: Rect)
    requires
        2 * a.x + a.w == 2 * b.x - b.w || 2 * b.x + b.w == 2 * a.x - a.w || 2 * a.y + a.h == 2 * b.y
            - b.h || 2 * b.y + b.h == 2 * a.y - a.h,
    ensures
        !spec_intersect(a, b),
        !spec_intersect(b, a),
{
}

/// Touching along a vertical edge is not horizontal overlap either.
pub proof fn lemma_touching_edges_do_not_overlap_x(a: Rect, b: Rect)
    requires
        2 * a.x + a.w == 2 * b.x - b.w || 2 * b.x + b.w == 2 * a.x - a.w,
    ensures
        !spec_overlap_x(a, b),
        !spec_overlap_x(b, a),
{
}

} // verus!
