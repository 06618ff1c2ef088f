//! Hit-testing of the four edges of a draggable outline.
//!
//! The outline shrunk by a margin on every side is its core. Each edge owns the
//! band between the core's extended edge and the outline's edge, the full length
//! of the outline. Where bands overlap, in the corners, the bottom band wins over
//! the top one, the top over the right and the right over the left.
use vstd::prelude::*;
use crate::geometry::{Point, Rect};

verus! {

/// Width of the band along each edge of the crop outline that starts a resize.
pub const EDGE_INSET: u32 = 5;

/// The edge of the outline being dragged, or the zone of a point.
#[derive(Clone, Copy, Debug, PartialEq, Eq, Structural)]
pub enum ActiveEdge {
    NoEdge,
    Top,
    Bottom,
    Left,
    Right,
}

/// The point lies in the core: the outline shrunk by `inset` on all sides.
pub open spec fn in_core(p: Point, outline: Rect, inset: int) -> bool {
    outline.min.x + inset <= p.x <= outline.max.x - inset && outline.min.y + inset <= p.y
        <= outline.max.y - inset
}

pub open spec fn in_top_band(p: Point, outline: Rect, inset: int) -> bool {
    outline.min.x <= p.x <= outline.max.x && outline.min.y <= p.y <= outline.min.y + inset
}

pub open spec fn in_bottom_band(p: Point, outline: Rect, inset: int) -> bool {
    outline.min.x <= p.x <= outline.max.x && outline.max.y - inset <= p.y <= outline.max.y
}

pub open spec fn in_left_band(p: Point, outline: Rect, inset: int) -> bool {
    outline.min.x <= p.x <= outline.min.x + inset && outline.min.y <= p.y <= outline.max.y
}

pub open spec fn in_right_band(p: Point, outline: Rect, inset: int) -> bool {
    outline.max.x - inset <= p.x <= outline.max.x && outline.min.y <= p.y <= outline.max.y
}

/// The band that holds the point, bottom first, then top, right and left.
pub open spec fn spec_classify_point(p: Point, outline: Rect, inset: int) -> ActiveEdge {
    if in_bottom_band(p, outline, inset) {
        ActiveEdge::Bottom
    } else if in_top_band(p, outline, inset) {
        ActiveEdge::Top
    } else if in_right_band(p, outline, inset) {
        ActiveEdge::Right
    } else if in_left_band(p, outline, inset) {
        ActiveEdge::Left
    } else {
        ActiveEdge::NoEdge
    }
}

/// The edge that a drag starting at `p` takes hold of: only a point of the outline
/// outside its core takes hold of one.
pub open spec fn spec_edge_at_drag_start(p: Point, outline: Rect, inset: int) -> ActiveEdge {
    if outline.spec_contains(p) && !in_core(p, outline, inset) {
        spec_classify_point(p, outline, inset)
    } else {
        ActiveEdge::NoEdge
    }
}

/// Which edge band of `outline` holds `p`; `NoEdge` for a point of the core or one
/// outside the outline.
pub fn classify_point(p: Point, outline: &Rect, inset: u32) -> (e: ActiveEdge)
    ensures
        e == spec_classify_point(p, *outline, inset as int),
{
    let x = p.x as i64;
    let y = p.y as i64;
    let (x0, y0) = (outline.min.x as i64, outline.min.y as i64);
    let (x1, y1) = (outline.max.x as i64, outline.max.y as i64);
    let m = inset as i64;
    let across = x0 <= x && x <= x1;
    let along = y0 <= y && y <= y1;
    if across && y1 - m <= y && y <= y1 {
        ActiveEdge::Bottom
    } else if across && y0 <= y && y <= y0 + m {
        ActiveEdge::Top
    } else if along && x1 - m <= x && x <= x1 {
        ActiveEdge::Right
    } else if along && x0 <= x && x <= x0 + m {
        ActiveEdge::Left
    } else {
        ActiveEdge::NoEdge
    }
}

/// The edge that a drag starting at `p` takes hold of. A point of the outline that
/// is not in its core always lies in some band, so it takes hold of an edge; any
/// other point takes hold of none.
pub fn edge_at_drag_start(p: Point, outline: &Rect, inset: u32) -> (e: ActiveEdge)
    ensures
        e == spec_edge_at_drag_start(p, *outline, inset as int),
        (e != ActiveEdge::NoEdge) == (outline.spec_contains(p) && !in_core(p, *outline, inset as int)),
{
    let m = inset as i64;
    let in_core = outline.min.x as i64 + m <= p.x as i64 && p.x as i64 <= outline.max.x as i64 - m
        && outline.min.y as i64 + m <= p.y as i64 && p.y as i64 <= outline.max.y as i64 - m;
    if outline.contains(p) && !in_core {
        classify_point(p, outline, inset)
    } else {
        ActiveEdge::NoEdge
    }
}

} // verus!
