//! The crop overlay: a rectangle edited in display space by dragging its edges.
//!
//! Every update is checked against the value it would produce, so the overlay
//! never leaves its display rectangle and never gets thinner than `MIN_EDGE`,
//! not even for one frame.
use vstd::prelude::*;
use crate::geometry::{
    floor_div, from_two_points, spec_from_two_points, MonitorFrame, Point, Rect, Size,
};
use crate::handle::ActiveEdge;
use crate::transform::{lemma_quotient_bound, monitor_axis, to_monitor, ShrinkFactor};

verus! {

/// The shortest edge that a resize may leave, in display units.
pub const MIN_EDGE: u32 = 15;

/// The crop rectangle being edited, in display space, with the rectangle the
/// capture is drawn into and the shrink factor fixed when editing began.
#[derive(Clone, Copy, Debug, PartialEq, Eq, Structural)]
pub struct CropOverlay {
    pub position: Point,
    pub dimensions: Size,
    pub display_rect: Rect,
    pub shrink: ShrinkFactor,
}

/// One frame of an edge drag: the edge held and the frame's pointer movement.
pub type DragStep = (ActiveEdge, i32, i32);

/// `v` moved into `lo..=hi`.
pub open spec fn clamp(v: int, lo: int, hi: int) -> int {
    if v < lo {
        lo
    } else if v > hi {
        hi
    } else {
        v
    }
}

/// A monitor coordinate projected onto a display side that spans `lo..=hi`,
/// scaled by the shrink factor and kept inside the side.
pub open spec fn project(c: int, lo: int, hi: int, s: ShrinkFactor) -> int {
    clamp(lo + c * s.display / (s.monitor as int), lo, hi)
}

/// The shrink factor of a display rectangle that shows a whole monitor.
pub open spec fn shrink_of(display: Rect, m: MonitorFrame) -> ShrinkFactor {
    ShrinkFactor { display: display.spec_width() as u32, monitor: m.width }
}

/// The overlay that a selection of the monitor gets when crop editing begins: the
/// selection's projection into the display rectangle, kept inside it.
pub open spec fn spec_seed(region: Rect, m: MonitorFrame, display: Rect) -> CropOverlay {
    let s = shrink_of(display, m);
    let x0 = project(region.min.x as int, display.min.x as int, display.max.x as int, s);
    let y0 = project(region.min.y as int, display.min.y as int, display.max.y as int, s);
    let x1 = project(region.max.x as int, display.min.x as int, display.max.x as int, s);
    let y1 = project(region.max.y as int, display.min.y as int, display.max.y as int, s);
    CropOverlay {
        position: Point { x: x0 as i32, y: y0 as i32 },
        dimensions: Size { width: (x1 - x0) as u32, height: (y1 - y0) as u32 },
        display_rect: display,
        shrink: s,
    }
}

/// A display coordinate taken back to a monitor side of `extent` pixels.
pub open spec fn back_to_monitor(c: int, lo: int, s: ShrinkFactor, extent: int) -> int {
    clamp(to_monitor(c, lo, s), 0, extent)
}

impl CropOverlay {
    pub open spec fn right(self) -> int {
        self.position.x + self.dimensions.width
    }

    pub open spec fn bottom(self) -> int {
        self.position.y + self.dimensions.height
    }

    /// The overlay lies inside its display rectangle, with a valid shrink factor.
    pub open spec fn wf(self) -> bool {
        &&& self.display_rect.is_normalized()
        &&& self.shrink.is_valid()
        &&& self.display_rect.min.x <= self.position.x
        &&& self.display_rect.min.y <= self.position.y
        &&& self.right() <= self.display_rect.max.x
        &&& self.bottom() <= self.display_rect.max.y
    }

    pub open spec fn spec_outline(self) -> Rect {
        Rect {
            min: self.position,
            max: Point { x: self.right() as i32, y: self.bottom() as i32 },
        }
    }

    /// The overlay with `position` and `dimensions` replaced.
    pub open spec fn placed(self, x: int, y: int, w: int, h: int) -> CropOverlay {
        CropOverlay {
            position: Point { x: x as i32, y: y as i32 },
            dimensions: Size { width: w as u32, height: h as u32 },
            display_rect: self.display_rect,
            shrink: self.shrink,
        }
    }

    /// One frame of an edge drag. Each edge changes one side, and the top and left
    /// edges move the position with it. The update is dropped when the new side
    /// would be shorter than `MIN_EDGE` or the moved edge would leave the display
    /// rectangle.
    pub open spec fn resized(self, edge: ActiveEdge, dx: i32, dy: i32) -> CropOverlay {
        let x = self.position.x as int;
        let y = self.position.y as int;
        let w = self.dimensions.width as int;
        let h = self.dimensions.height as int;
        let d = self.display_rect;
        match edge {
            ActiveEdge::Top => {
                if h - dy < MIN_EDGE || y + dy < d.min.y {
                    self
                } else {
                    self.placed(x, y + dy, w, h - dy)
                }
            },
            ActiveEdge::Bottom => {
                if h + dy < MIN_EDGE || y + h + dy > d.max.y {
                    self
                } else {
                    self.placed(x, y, w, h + dy)
                }
            },
            ActiveEdge::Right => {
                if w + dx < MIN_EDGE || x + w + dx > d.max.x {
                    self
                } else {
                    self.placed(x, y, w + dx, h)
                }
            },
            ActiveEdge::Left => {
                if w - dx < MIN_EDGE || x + dx < d.min.x {
                    self
                } else {
                    self.placed(x + dx, y, w - dx, h)
                }
            },
            ActiveEdge::NoEdge => self,
        }
    }

    /// The overlay after a whole sequence of drag frames.
    pub open spec fn resized_by_all(self, steps: Seq<DragStep>) -> CropOverlay
        decreases steps.len(),
    {
        if steps.len() == 0 {
            self
        } else {
            self.resized(steps[0].0, steps[0].1, steps[0].2).resized_by_all(steps.drop_first())
        }
    }

    /// The selection, in monitor space, that the overlay stands for.
    pub open spec fn spec_confirmed_region(self, m: MonitorFrame) -> Rect {
        let d = self.display_rect;
        let s = self.shrink;
        let a = Point {
            x: back_to_monitor(self.position.x as int, d.min.x as int, s, m.width as int) as i32,
            y: back_to_monitor(self.position.y as int, d.min.y as int, s, m.height as int) as i32,
        };
        let b = Point {
            x: back_to_monitor(self.right(), d.min.x as int, s, m.width as int) as i32,
            y: back_to_monitor(self.bottom(), d.min.y as int, s, m.height as int) as i32,
        };
        spec_from_two_points(a, b)
    }

    /// The outline of the overlay in display space.
    pub fn outline(&self) -> (r: Rect)
        requires
            self.wf(),
        ensures
            r == self.spec_outline(),
            r.is_normalized(),
    {
        Rect {
            min: self.position,
            max: Point {
                x: (self.position.x as i64 + self.dimensions.width as i64) as i32,
                y: (self.position.y as i64 + self.dimensions.height as i64) as i32,
            },
        }
    }

    /// Applies one frame of an edge drag, with the frame's own pointer movement.
    pub fn resize(&mut self, edge: ActiveEdge, dx: i32, dy: i32)
        requires
            old(self).wf(),
        ensures
            *final(self) == old(self).resized(edge, dx, dy),
            final(self).wf(),
    {
        let x = self.position.x as i64;
        let y = self.position.y as i64;
        let w = self.dimensions.width as i64;
        let h = self.dimensions.height as i64;
        let min = MIN_EDGE as i64;
        match edge {
            ActiveEdge::Top => {
                if !(h - (dy as i64) < min || y + (dy as i64) < self.display_rect.min.y as i64) {
                    self.position.y = (y + dy as i64) as i32;
                    self.dimensions.height = (h - dy as i64) as u32;
                }
            },
            ActiveEdge::Bottom => {
                if !(h + (dy as i64) < min || y + h + (dy as i64) > self.display_rect.max.y as i64) {
                    self.dimensions.height = (h + dy as i64) as u32;
                }
            },
            ActiveEdge::Right => {
                if !(w + (dx as i64) < min || x + w + (dx as i64) > self.display_rect.max.x as i64) {
                    self.dimensions.width = (w + dx as i64) as u32;
                }
            },
            ActiveEdge::Left => {
                if !(w - (dx as i64) < min || x + (dx as i64) < self.display_rect.min.x as i64) {
                    self.position.x = (x + dx as i64) as i32;
                    self.dimensions.width = (w - dx as i64) as u32;
                }
            },
            ActiveEdge::NoEdge => {},
        }
    }

    /// The overlay for a selection of the monitor, drawn in `display`: the
    /// selection's projection, kept inside `display`. The shrink factor is the
    /// display's width over the monitor's, fixed from here on.
    pub fn seed(region: &Rect, m: MonitorFrame, display: &Rect) -> (o: CropOverlay)
        requires
            region.is_normalized(),
            m.is_usable(),
            display.is_normalized(),
            display.spec_width() >= 1,
        ensures
            o == spec_seed(*region, m, *display),
            o.wf(),
    {
        let s = ShrinkFactor { display: display.width(), monitor: m.width };
        let x0 = project_axis(region.min.x, display.min.x, display.max.x, s);
        let y0 = project_axis(region.min.y, display.min.y, display.max.y, s);
        let x1 = project_axis(region.max.x, display.min.x, display.max.x, s);
        let y1 = project_axis(region.max.y, display.min.y, display.max.y, s);
        proof {
            lemma_project_monotone(region.min.x as int, region.max.x as int, display.min.x as int, display.max.x as int, s);
            lemma_project_monotone(region.min.y as int, region.max.y as int, display.min.y as int, display.max.y as int, s);
        }
        CropOverlay {
            position: Point { x: x0, y: y0 },
            dimensions: Size {
                width: (x1 as i64 - x0 as i64) as u32,
                height: (y1 as i64 - y0 as i64) as u32,
            },
            display_rect: *display,
            shrink: s,
        }
    }

    /// The selection in monitor space that the overlay stands for: both corners
    /// mapped back with the shrink factor and kept inside the monitor.
    pub fn confirmed_region(&self, m: MonitorFrame) -> (r: Rect)
        requires
            self.wf(),
        ensures
            r == self.spec_confirmed_region(m),
            r.is_normalized(),
            m.spec_rect().spec_contains_rect(r),
    {
        let d = &self.display_rect;
        let far = self.outline().max;
        let a = Point {
            x: monitor_clamped(self.position.x, d.min.x, self.shrink, m.width),
            y: monitor_clamped(self.position.y, d.min.y, self.shrink, m.height),
        };
        let b = Point {
            x: monitor_clamped(far.x, d.min.x, self.shrink, m.width),
            y: monitor_clamped(far.y, d.min.y, self.shrink, m.height),
        };
        from_two_points(a, b)
    }
}

/// `project` is monotone in the coordinate.
proof fn lemma_project_monotone(a: int, b: int, lo: int, hi: int, s: ShrinkFactor)
    requires
        a <= b,
        lo <= hi,
        s.is_valid(),
    ensures
        project(a, lo, hi, s) <= project(b, lo, hi, s),
{
    assert(a * s.display <= b * s.display) by (nonlinear_arith)
        requires
            a <= b,
            s.display > 0,
    ;
    vstd::arithmetic::div_mod::lemma_div_is_ordered(
        a * s.display,
        b * s.display,
        s.monitor as int,
    );
    assert(a * s.display / (s.monitor as int) <= b * s.display / (s.monitor as int));
}

/// Projects a monitor coordinate onto the display side `lo..=hi`.
fn project_axis(c: i32, lo: i32, hi: i32, s: ShrinkFactor) -> (p: i32)
    requires
        s.is_valid(),
        lo <= hi,
    ensures
        p == project(c as int, lo as int, hi as int, s),
{
    proof {
        assert(-0x1_0000_0000_0000_0000 <= c * s.display <= 0x1_0000_0000_0000_0000)
            by (nonlinear_arith)
            requires
                -0x8000_0000 <= c <= 0x8000_0000,
                0 <= s.display <= 0x1_0000_0000,
        ;
    }
    let scaled = floor_div(c as i128 * s.display as i128, s.monitor as i128);
    proof {
        lemma_quotient_bound(c * s.display, s.monitor as int, 0x1_0000_0000_0000_0000);
    }
    let v = lo as i128 + scaled;
    if v < lo as i128 {
        lo
    } else if v > hi as i128 {
        hi
    } else {
        v as i32
    }
}

/// A display coordinate mapped back to a monitor side of `extent` pixels.
fn monitor_clamped(c: i32, lo: i32, s: ShrinkFactor, extent: u16) -> (v: i32)
    requires
        s.is_valid(),
    ensures
        v == back_to_monitor(c as int, lo as int, s, extent as int),
{
    let m = monitor_axis(c, lo, s);
    if m < 0 {
        0
    } else if m > extent as i128 {
        extent as i32
    } else {
        m as i32
    }
}

/// A drag frame with no movement changes nothing, on any edge.
pub proof fn zero_drag_changes_nothing(o: CropOverlay, edge: ActiveEdge)
    ensures
        o.resized(edge, 0, 0) == o,
{
}

/// One drag frame keeps the overlay inside its display rectangle, and leaves each
/// side either as it was or at least `MIN_EDGE` long.
pub proof fn resize_step_keeps_bounds(o: CropOverlay, edge: ActiveEdge, dx: i32, dy: i32)
    requires
        o.wf(),
    ensures
        o.resized(edge, dx, dy).wf(),
        o.resized(edge, dx, dy).dimensions.width == o.dimensions.width || o.resized(
            edge,
            dx,
            dy,
        ).dimensions.width >= MIN_EDGE,
        o.resized(edge, dx, dy).dimensions.height == o.dimensions.height || o.resized(
            edge,
            dx,
            dy,
        ).dimensions.height >= MIN_EDGE,
{
}

/// No sequence of drag frames takes a side below `MIN_EDGE`: each side ends at
/// least as long as the shorter of its starting length and `MIN_EDGE`.
pub proof fn drags_keep_min_size(o: CropOverlay, steps: Seq<DragStep>)
    requires
        o.wf(),
    ensures
        o.resized_by_all(steps).dimensions.width >= if o.dimensions.width < MIN_EDGE {
            o.dimensions.width
        } else {
            MIN_EDGE
        },
        o.resized_by_all(steps).dimensions.height >= if o.dimensions.height < MIN_EDGE {
            o.dimensions.height
        } else {
            MIN_EDGE
        },
    decreases steps.len(),
{
    if steps.len() > 0 {
        let next = o.resized(steps[0].0, steps[0].1, steps[0].2);
        resize_step_keeps_bounds(o, steps[0].0, steps[0].1, steps[0].2);
        drags_keep_min_size(next, steps.drop_first());
    }
}

/// Any sequence of drag frames keeps the overlay inside its display rectangle.
pub proof fn drags_keep_containment(o: CropOverlay, steps: Seq<DragStep>)
    requires
        o.wf(),
    ensures
        o.resized_by_all(steps).wf(),
        o.display_rect.spec_contains_rect(o.resized_by_all(steps).spec_outline()),
    decreases steps.len(),
{
    if steps.len() > 0 {
        let next = o.resized(steps[0].0, steps[0].1, steps[0].2);
        resize_step_keeps_bounds(o, steps[0].0, steps[0].1, steps[0].2);
        drags_keep_containment(next, steps.drop_first());
    }
}

} // verus!
