//! Points and rectangles in pixel space.
use vstd::prelude::*;

verus! {

/// A point in pixel space.
#[derive(Clone, Copy, Debug, PartialEq, Eq, Structural)]
pub struct Point {
    pub x: i32,
    pub y: i32,
}

/// An axis-aligned rectangle given by two corners, `min` top-left and `max` bottom-right.
#[derive(Clone, Copy, Debug, PartialEq, Eq, Structural)]
pub struct Rect {
    pub min: Point,
    pub max: Point,
}

/// Size of a rectangle, in pixels.
#[derive(Clone, Copy, Debug, PartialEq, Eq, Structural)]
pub struct Size {
    pub width: u32,
    pub height: u32,
}

/// Pixel dimensions of the captured monitor. Its origin is the point (0, 0).
#[derive(Clone, Copy, Debug, PartialEq, Eq, Structural)]
pub struct MonitorFrame {
    pub width: u16,
    pub height: u16,
}

/// The smaller of two coordinates.
pub open spec fn lesser(a: i32, b: i32) -> i32 {
    if a <= b { a } else { b }
}

/// The larger of two coordinates.
pub open spec fn greater(a: i32, b: i32) -> i32 {
    if a <= b { b } else { a }
}

/// Whether a mathematical integer can be stored as a coordinate.
pub open spec fn is_coord(v: int) -> bool {
    i32::MIN <= v <= i32::MAX
}

/// The rectangle spanned by two corners, whichever order they come in.
pub open spec fn spec_from_two_points(a: Point, b: Point) -> Rect {
    Rect {
        min: Point { x: lesser(a.x, b.x), y: lesser(a.y, b.y) },
        max: Point { x: greater(a.x, b.x), y: greater(a.y, b.y) },
    }
}

impl Point {
    pub fn new(x: i32, y: i32) -> (p: Point)
        ensures
            p.x == x,
            p.y == y,
    {
        Point { x, y }
    }
}

impl Rect {
    /// `min` lies left of and above `max` (or on them).
    pub open spec fn is_normalized(self) -> bool {
        self.min.x <= self.max.x && self.min.y <= self.max.y
    }

    pub open spec fn spec_width(self) -> int {
        self.max.x - self.min.x
    }

    pub open spec fn spec_height(self) -> int {
        self.max.y - self.min.y
    }

    /// Containment of a point, edges included.
    pub open spec fn spec_contains(self, p: Point) -> bool {
        self.min.x <= p.x <= self.max.x && self.min.y <= p.y <= self.max.y
    }

    /// Containment of a rectangle, edges included.
    pub open spec fn spec_contains_rect(self, r: Rect) -> bool {
        self.min.x <= r.min.x && r.max.x <= self.max.x && self.min.y <= r.min.y && r.max.y
            <= self.max.y
    }

    pub fn zero() -> (r: Rect)
        ensures
            r.min == (Point { x: 0, y: 0 }),
            r.max == (Point { x: 0, y: 0 }),
    {
        Rect { min: Point { x: 0, y: 0 }, max: Point { x: 0, y: 0 } }
    }

    pub fn width(&self) -> (w: u32)
        requires
            self.is_normalized(),
        ensures
            w == self.spec_width(),
    {
        (self.max.x as i64 - self.min.x as i64) as u32
    }

    pub fn height(&self) -> (h: u32)
        requires
            self.is_normalized(),
        ensures
            h == self.spec_height(),
    {
        (self.max.y as i64 - self.min.y as i64) as u32
    }

    pub fn size(&self) -> (s: Size)
        requires
            self.is_normalized(),
        ensures
            s.width == self.spec_width(),
            s.height == self.spec_height(),
    {
        Size { width: self.width(), height: self.height() }
    }

    pub fn contains(&self, p: Point) -> (r: bool)
        ensures
            r == self.spec_contains(p),
    {
        self.min.x <= p.x && p.x <= self.max.x && self.min.y <= p.y && p.y <= self.max.y
    }

    pub fn contains_rect(&self, other: &Rect) -> (r: bool)
        ensures
            r == self.spec_contains_rect(*other),
    {
        self.min.x <= other.min.x && other.max.x <= self.max.x && self.min.y <= other.min.y
            && other.max.y <= self.max.y
    }
}

impl MonitorFrame {
    /// The monitor as a rectangle of monitor space.
    pub open spec fn spec_rect(self) -> Rect {
        Rect { min: Point { x: 0, y: 0 }, max: Point { x: self.width as i32, y: self.height as i32 } }
    }

    pub fn rect(&self) -> (r: Rect)
        ensures
            r == self.spec_rect(),
    {
        Rect { min: Point { x: 0, y: 0 }, max: Point { x: self.width as i32, y: self.height as i32 } }
    }

    /// Neither side of the monitor is zero.
    pub open spec fn is_usable(self) -> bool {
        self.width > 0 && self.height > 0
    }
}

/// The rectangle spanned by two corners: componentwise minimum and maximum.
pub fn from_two_points(a: Point, b: Point) -> (r: Rect)
    ensures
        r == spec_from_two_points(a, b),
{
    let min = Point {
        x: if a.x <= b.x { a.x } else { b.x },
        y: if a.y <= b.y { a.y } else { b.y },
    };
    let max = Point {
        x: if a.x <= b.x { b.x } else { a.x },
        y: if a.y <= b.y { b.y } else { a.y },
    };
    Rect { min, max }
}

/// The order of the two corners does not matter, and the result is normalized.
pub proof fn from_two_points_is_symmetric(a: Point, b: Point)
    ensures
        spec_from_two_points(a, b) == spec_from_two_points(b, a),
        spec_from_two_points(a, b).is_normalized(),
{
}

/// Floor division by a positive divisor.
pub fn floor_div(n: i128, d: i128) -> (q: i128)
    requires
        d > 0,
        n > i128::MIN,
    ensures
        q == n / d,
{
    if n >= 0 {
        n / d
    } else {
        let t = (-n - 1) / d;
        proof {
            let m: int = -n - 1;
            let dd: int = d as int;
            assert(m == dd * (m / dd) + m % dd) by {
                vstd::arithmetic::div_mod::lemma_fundamental_div_mod(m, dd);
            }
            assert(0 <= m % dd < dd) by {
                vstd::arithmetic::div_mod::lemma_mod_bound(m, dd);
            }
            assert(n == (-(m / dd) - 1) * dd + (dd - 1 - m % dd)) by (nonlinear_arith)
                requires
                    m == dd * (m / dd) + m % dd,
                    n == -m - 1,
            ;
            vstd::arithmetic::div_mod::lemma_fundamental_div_mod_converse(
                n as int,
                dd,
                -(m / dd) - 1,
                dd - 1 - m % dd,
            );
        }
        -t - 1
    }
}

} // verus!
