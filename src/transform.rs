//! Conversions between monitor space, texture space and display space.
//!
//! Texture coordinates are fixed point: `UV_ONE` stands for one whole side of
//! the captured image. Every conversion rounds toward negative infinity.
use vstd::prelude::*;
use vstd::arithmetic::div_mod::lemma_fundamental_div_mod;
use crate::geometry::{floor_div, is_coord, MonitorFrame, Point, Rect, Size};

verus! {

/// One whole side of the texture, in texture coordinates.
pub const UV_ONE: i64 = 1048576;

/// Space left free above and below the image while the crop overlay is edited.
pub const CROP_MARGIN: u32 = 60;

/// A point in texture space.
#[derive(Clone, Copy, Debug, PartialEq, Eq, Structural)]
pub struct UvPoint {
    pub u: i64,
    pub v: i64,
}

/// A rectangle in texture space.
#[derive(Clone, Copy, Debug, PartialEq, Eq, Structural)]
pub struct UvRect {
    pub min: UvPoint,
    pub max: UvPoint,
}

/// The ratio of display width to monitor width, as a fraction `display / monitor`.
#[derive(Clone, Copy, Debug, PartialEq, Eq, Structural)]
pub struct ShrinkFactor {
    pub display: u32,
    pub monitor: u16,
}

impl ShrinkFactor {
    pub open spec fn is_valid(self) -> bool {
        self.display > 0 && self.monitor > 0
    }
}

impl UvRect {
    /// All four coordinates lie in `0..=UV_ONE`.
    pub open spec fn in_unit_square(self) -> bool {
        0 <= self.min.u <= UV_ONE && 0 <= self.max.u <= UV_ONE && 0 <= self.min.v <= UV_ONE && 0
            <= self.max.v <= UV_ONE
    }
}

/// A monitor coordinate in texture space, for a monitor side of `extent` pixels.
pub open spec fn to_uv(c: int, extent: int) -> int {
    c * UV_ONE / extent
}

/// A texture coordinate on a display side that starts at `lo` and is `len` long.
pub open spec fn to_display(t: int, lo: int, len: int) -> int {
    lo + t * len / (UV_ONE as int)
}

/// A display coordinate, relative to the origin `lo`, back in monitor space.
pub open spec fn to_monitor(c: int, lo: int, s: ShrinkFactor) -> int {
    (c - lo) * s.monitor / (s.display as int)
}

pub open spec fn spec_uv_of(r: Rect, m: MonitorFrame) -> UvRect {
    if m.width == 0 || m.height == 0 {
        UvRect { min: UvPoint { u: 0, v: 0 }, max: UvPoint { u: 0, v: 0 } }
    } else {
        UvRect {
            min: UvPoint {
                u: to_uv(r.min.x as int, m.width as int) as i64,
                v: to_uv(r.min.y as int, m.height as int) as i64,
            },
            max: UvPoint {
                u: to_uv(r.max.x as int, m.width as int) as i64,
                v: to_uv(r.max.y as int, m.height as int) as i64,
            },
        }
    }
}

pub open spec fn spec_uv_to_display(t: UvRect, d: Rect) -> Rect {
    Rect {
        min: Point {
            x: to_display(t.min.u as int, d.min.x as int, d.spec_width()) as i32,
            y: to_display(t.min.v as int, d.min.y as int, d.spec_height()) as i32,
        },
        max: Point {
            x: to_display(t.max.u as int, d.min.x as int, d.spec_width()) as i32,
            y: to_display(t.max.v as int, d.min.y as int, d.spec_height()) as i32,
        },
    }
}

pub open spec fn spec_display_to_monitor(p: Point, d: Rect, s: ShrinkFactor) -> Point {
    Point {
        x: to_monitor(p.x as int, d.min.x as int, s) as i32,
        y: to_monitor(p.y as int, d.min.y as int, s) as i32,
    }
}

/// The point can be mapped back to monitor space without leaving the coordinate range.
pub open spec fn maps_to_monitor(p: Point, d: Rect, s: ShrinkFactor) -> bool {
    is_coord(to_monitor(p.x as int, d.min.x as int, s)) && is_coord(
        to_monitor(p.y as int, d.min.y as int, s),
    )
}

/// Lower end of a span of length `len` centred on `c`.
pub open spec fn centered_lo(c: int, len: int) -> int {
    c - len / 2
}

/// A span of length `len` centred on `c` fits the coordinate range.
pub open spec fn centered_fits(c: int, len: int) -> bool {
    is_coord(centered_lo(c, len)) && is_coord(centered_lo(c, len) + len)
}

/// The rectangle of the given size centred on `c`.
pub open spec fn centered_rect(c: Point, w: int, h: int) -> Rect {
    Rect {
        min: Point { x: centered_lo(c.x as int, w) as i32, y: centered_lo(c.y as int, h) as i32 },
        max: Point {
            x: (centered_lo(c.x as int, w) + w) as i32,
            y: (centered_lo(c.y as int, h) + h) as i32,
        },
    }
}

/// Division rounded up, for a positive divisor.
pub open spec fn ceil_div(n: int, d: int) -> int {
    (n + d - 1) / d
}

/// Where an image of size `content` is drawn inside `avail`, centred on `anchor`.
///
/// If it fits as it is, or its height is zero, it keeps its size. Otherwise it is
/// scaled to the largest size of the same aspect ratio that fits: the axis that
/// fills `avail` keeps `avail`'s span, the other is centred on `anchor`.
pub open spec fn spec_fit_rect(avail: Rect, content: Size, anchor: Point) -> Rect {
    let space = centered_rect(anchor, content.width as int, content.height as int);
    let aw = avail.spec_width();
    let ah = avail.spec_height();
    if avail.spec_contains_rect(space) || content.height == 0 {
        space
    } else if ah * content.width <= aw * content.height {
        let w = ceil_div(ah * content.width, content.height as int);
        Rect {
            min: Point { x: centered_lo(anchor.x as int, w) as i32, y: avail.min.y },
            max: Point { x: (centered_lo(anchor.x as int, w) + w) as i32, y: avail.max.y },
        }
    } else {
        let h = ceil_div(aw * content.height, content.width as int);
        Rect {
            min: Point { x: avail.min.x, y: centered_lo(anchor.y as int, h) as i32 },
            max: Point { x: avail.max.x, y: (centered_lo(anchor.y as int, h) + h) as i32 },
        }
    }
}

/// Height of the image while the crop overlay is edited: the available height less
/// a margin above and below, or zero where nothing is left.
pub open spec fn crop_image_height(avail: Rect) -> int {
    if avail.spec_height() > 2 * CROP_MARGIN {
        avail.spec_height() - 2 * CROP_MARGIN
    } else {
        0
    }
}

/// Width of the image while the crop overlay is edited, at the monitor's aspect ratio.
pub open spec fn crop_image_width(avail: Rect, m: MonitorFrame) -> int {
    crop_image_height(avail) * m.width / (m.height as int)
}

/// Centre of a rectangle, rounded toward its top-left corner.
pub open spec fn spec_center(r: Rect) -> Point {
    Point {
        x: (r.min.x + r.spec_width() / 2) as i32,
        y: (r.min.y + r.spec_height() / 2) as i32,
    }
}

pub open spec fn spec_crop_display_rect(avail: Rect, m: MonitorFrame) -> Rect {
    centered_rect(spec_center(avail), crop_image_width(avail, m), crop_image_height(avail))
}

/// A bound on `n / e` from one on `n`.
pub(crate) proof fn lemma_quotient_bound(n: int, e: int, b: int)
    requires
        e >= 1,
        -b <= n <= b,
    ensures
        -b <= n / e <= b,
{
    lemma_fundamental_div_mod(n, e);
    let q = n / e;
    let r = n % e;
    assert(-b <= q <= b) by (nonlinear_arith)
        requires
            n == e * q + r,
            0 <= r < e,
            e >= 1,
            -b <= n <= b,
    ;
}

/// `t * len / UV_ONE` lies in `0..=len` for `t` in `0..=UV_ONE`.
proof fn lemma_scale_in_span(t: int, len: int)
    requires
        0 <= t <= UV_ONE,
        0 <= len,
    ensures
        0 <= t * len / (UV_ONE as int) <= len,
{
    let s = UV_ONE as int;
    lemma_fundamental_div_mod(t * len, s);
    let q = t * len / s;
    let r = (t * len) % s;
    assert(0 <= q <= len) by (nonlinear_arith)
        requires
            t * len == s * q + r,
            0 <= r < s,
            0 <= t <= s,
            0 <= len,
            s > 0,
    ;
}

/// `c * UV_ONE / e` lies in `0..=UV_ONE` for `c` in `0..=e`.
proof fn lemma_uv_in_unit(c: int, e: int)
    requires
        0 <= c <= e,
        e >= 1,
    ensures
        0 <= to_uv(c, e) <= UV_ONE,
{
    let s = UV_ONE as int;
    lemma_fundamental_div_mod(c * s, e);
    let q = c * s / e;
    let r = (c * s) % e;
    assert(0 <= q <= s) by (nonlinear_arith)
        requires
            c * s == e * q + r,
            0 <= r < e,
            0 <= c <= e,
            s > 0,
    ;
}

/// Maps a monitor coordinate to texture space.
fn uv_axis(c: i32, extent: u16) -> (t: i64)
    requires
        extent > 0,
    ensures
        t == to_uv(c as int, extent as int),
{
    proof {
        assert(-0x8_0000_0000_0000 <= c * UV_ONE <= 0x8_0000_0000_0000) by (nonlinear_arith)
            requires
                -0x8000_0000 <= c <= 0x8000_0000,
                UV_ONE == 0x10_0000,
        ;
    }
    let n: i128 = c as i128 * UV_ONE as i128;
    let q = floor_div(n, extent as i128);
    proof {
        lemma_quotient_bound(n as int, extent as int, 0x8_0000_0000_0000);
    }
    q as i64
}

/// Maps a monitor-space rectangle to texture coordinates, dividing by the monitor's
/// width and height. A monitor with a zero side gives the zero rectangle.
pub fn uv_of(r: &Rect, m: MonitorFrame) -> (t: UvRect)
    ensures
        t == spec_uv_of(*r, m),
        m.is_usable() && r.is_normalized() && m.spec_rect().spec_contains_rect(*r)
            ==> t.in_unit_square(),
{
    if m.width == 0 || m.height == 0 {
        return UvRect { min: UvPoint { u: 0, v: 0 }, max: UvPoint { u: 0, v: 0 } };
    }
    let t = UvRect {
        min: UvPoint { u: uv_axis(r.min.x, m.width), v: uv_axis(r.min.y, m.height) },
        max: UvPoint { u: uv_axis(r.max.x, m.width), v: uv_axis(r.max.y, m.height) },
    };
    proof {
        if r.is_normalized() && m.spec_rect().spec_contains_rect(*r) {
            lemma_uv_in_unit(r.min.x as int, m.width as int);
            lemma_uv_in_unit(r.max.x as int, m.width as int);
            lemma_uv_in_unit(r.min.y as int, m.height as int);
            lemma_uv_in_unit(r.max.y as int, m.height as int);
        }
    }
    t
}

/// Maps a texture coordinate onto a display side starting at `lo`, `len` long.
fn display_axis(t: i64, lo: i32, len: u32) -> (c: i32)
    requires
        0 <= t <= UV_ONE,
        is_coord(lo + len),
    ensures
        c == to_display(t as int, lo as int, len as int),
        lo <= c <= lo + len,
{
    proof {
        lemma_scale_in_span(t as int, len as int);
    }
    let off = (t as i128 * len as i128) / (UV_ONE as i128);
    (lo as i128 + off) as i32
}

/// Maps a rectangle of the unit texture square into the display rectangle `d`.
pub fn uv_to_display(t: &UvRect, d: &Rect) -> (r: Rect)
    requires
        t.in_unit_square(),
        d.is_normalized(),
    ensures
        r == spec_uv_to_display(*t, *d),
        d.spec_contains(r.min),
        d.spec_contains(r.max),
{
    let w = d.width();
    let h = d.height();
    Rect {
        min: Point { x: display_axis(t.min.u, d.min.x, w), y: display_axis(t.min.v, d.min.y, h) },
        max: Point { x: display_axis(t.max.u, d.min.x, w), y: display_axis(t.max.v, d.min.y, h) },
    }
}

/// The monitor coordinate of a display coordinate, exactly.
pub(crate) fn monitor_axis(c: i32, lo: i32, s: ShrinkFactor) -> (m: i128)
    requires
        s.is_valid(),
    ensures
        m == to_monitor(c as int, lo as int, s),
{
    let diff: i128 = c as i128 - lo as i128;
    proof {
        assert(-0x1_0000_0000_0000 <= diff * s.monitor <= 0x1_0000_0000_0000) by (nonlinear_arith)
            requires
                -0x1_0000_0000 <= diff <= 0x1_0000_0000,
                0 <= s.monitor <= 0x1_0000,
        ;
    }
    let n: i128 = diff * s.monitor as i128;
    floor_div(n, s.display as i128)
}

/// Maps a display-space point back to monitor space: subtract the display origin,
/// then divide by the shrink factor.
pub fn display_to_monitor(p: Point, d: &Rect, s: ShrinkFactor) -> (q: Point)
    requires
        s.is_valid(),
        maps_to_monitor(p, *d, s),
    ensures
        q == spec_display_to_monitor(p, *d, s),
{
    Point { x: monitor_axis(p.x, d.min.x, s) as i32, y: monitor_axis(p.y, d.min.y, s) as i32 }
}

/// `ceil_div(n, d)` lies in `1..=bound` when `0 < n <= bound * d`.
proof fn lemma_ceil_div_between(n: int, d: int, bound: int)
    requires
        d >= 1,
        1 <= n <= bound * d,
    ensures
        1 <= ceil_div(n, d) <= bound,
{
    lemma_fundamental_div_mod(n + d - 1, d);
    let q = (n + d - 1) / d;
    let r = (n + d - 1) % d;
    assert(1 <= q <= bound) by (nonlinear_arith)
        requires
            n + d - 1 == d * q + r,
            0 <= r < d,
            d >= 1,
            1 <= n <= bound * d,
    ;
}

/// Computes where an image of size `content` is drawn inside `avail`, centred on
/// `anchor`, keeping its aspect ratio.
pub fn fit_rect(avail: &Rect, content: Size, anchor: Point) -> (r: Rect)
    requires
        avail.is_normalized(),
        centered_fits(anchor.x as int, content.width as int),
        centered_fits(anchor.y as int, content.height as int),
        centered_fits(anchor.x as int, avail.spec_width()),
        centered_fits(anchor.y as int, avail.spec_height()),
    ensures
        r == spec_fit_rect(*avail, content, anchor),
        r.is_normalized(),
        content.width > 0 && content.height > 0 && avail.spec_width() > 0 && avail.spec_height()
            > 0 ==> r.spec_width() > 0 && r.spec_height() > 0,
        !avail.spec_contains_rect(centered_rect(anchor, content.width as int, content.height as int))
            && content.height > 0 ==> r.spec_width() <= avail.spec_width() && r.spec_height()
            <= avail.spec_height(),
{
    let cw = content.width as i64;
    let ch = content.height as i64;
    let x0 = anchor.x as i64 - cw / 2;
    let y0 = anchor.y as i64 - ch / 2;
    let space = Rect {
        min: Point { x: x0 as i32, y: y0 as i32 },
        max: Point { x: (x0 + cw) as i32, y: (y0 + ch) as i32 },
    };
    if avail.contains_rect(&space) || content.height == 0 {
        return space;
    }
    let aw = avail.width() as u128;
    let ah = avail.height() as u128;
    proof {
        assert(ah * content.width <= 0x1_0000_0000_0000_0000) by (nonlinear_arith)
            requires
                ah <= 0x1_0000_0000,
                content.width <= 0x1_0000_0000,
        ;
        assert(aw * content.height <= 0x1_0000_0000_0000_0000) by (nonlinear_arith)
            requires
                aw <= 0x1_0000_0000,
                content.height <= 0x1_0000_0000,
        ;
    }
    if ah * (content.width as u128) <= aw * (content.height as u128) {
        let n = ah * (content.width as u128);
        let w = (n + content.height as u128 - 1) / (content.height as u128);
        proof {
            if ah >= 1 && content.width >= 1 {
                assert(n >= 1) by (nonlinear_arith)
                    requires
                        n == ah * content.width,
                        ah >= 1,
                        content.width >= 1,
                ;
            }
            if n >= 1 {
                lemma_ceil_div_between(n as int, content.height as int, aw as int);
            } else {
                vstd::arithmetic::div_mod::lemma_basic_div(
                    (n + content.height - 1) as int,
                    content.height as int,
                );
            }
        }
        let lo = anchor.x as i64 - (w as i64) / 2;
        Rect {
            min: Point { x: lo as i32, y: avail.min.y },
            max: Point { x: (lo + w as i64) as i32, y: avail.max.y },
        }
    } else {
        assert(content.width > 0) by {
            if content.width == 0 {
                assert(ah * content.width == 0);
            }
        }
        let n = aw * (content.height as u128);
        let h = (n + content.width as u128 - 1) / (content.width as u128);
        proof {
            if n >= 1 {
                lemma_ceil_div_between(n as int, content.width as int, ah as int);
            } else {
                vstd::arithmetic::div_mod::lemma_basic_div(
                    (n + content.width - 1) as int,
                    content.width as int,
                );
            }
            if aw >= 1 {
                assert(n >= 1) by (nonlinear_arith)
                    requires
                        n == aw * content.height,
                        aw >= 1,
                        content.height >= 1,
                ;
            }
        }
        let lo = anchor.y as i64 - (h as i64) / 2;
        Rect {
            min: Point { x: avail.min.x, y: lo as i32 },
            max: Point { x: avail.max.x, y: (lo + h as i64) as i32 },
        }
    }
}

/// The centre of a rectangle, rounded toward its top-left corner.
pub fn center(r: &Rect) -> (c: Point)
    requires
        r.is_normalized(),
    ensures
        c == spec_center(*r),
{
    Point {
        x: (r.min.x as i64 + r.width() as i64 / 2) as i32,
        y: (r.min.y as i64 + r.height() as i64 / 2) as i32,
    }
}

/// The rectangle the whole capture is drawn into while the crop overlay is
/// edited: the available height less a margin, at the monitor's aspect ratio,
/// centred in the available area. `None` where `avail` is not normalized or the
/// rectangle would leave the coordinate range.
pub fn crop_display_rect(avail: &Rect, m: MonitorFrame) -> (r: Option<Rect>)
    requires
        m.is_usable(),
    ensures
        r is Some <==> avail.is_normalized() && centered_fits(
            spec_center(*avail).x as int,
            crop_image_width(*avail, m),
        ) && centered_fits(spec_center(*avail).y as int, crop_image_height(*avail)),
        r matches Some(d) ==> d == spec_crop_display_rect(*avail, m) && d.is_normalized()
            && d.spec_height() == crop_image_height(*avail) && d.spec_width() == crop_image_width(
            *avail,
            m,
        ),
{
    if !(avail.min.x <= avail.max.x && avail.min.y <= avail.max.y) {
        return None;
    }
    let ah = avail.height() as i128;
    let h: i128 = if ah > 2 * CROP_MARGIN as i128 {
        ah - 2 * CROP_MARGIN as i128
    } else {
        0
    };
    proof {
        assert(h * m.width >= 0) by (nonlinear_arith)
            requires
                h >= 0,
        ;
        assert(h * m.width <= 0x1_0000_0000_0000int) by (nonlinear_arith)
            requires
                0 <= h <= 0x1_0000_0000,
                m.width <= 0x1_0000,
        ;
        lemma_quotient_bound(h * m.width, m.height as int, 0x1_0000_0000_0000int);
    }
    let w = h * (m.width as i128) / (m.height as i128);
    let c = center(avail);
    let x0 = c.x as i128 - w / 2;
    let y0 = c.y as i128 - h / 2;
    let lo = i32::MIN as i128;
    let hi = i32::MAX as i128;
    if x0 < lo || x0 + w > hi || y0 < lo || y0 + h > hi {
        return None;
    }
    Some(
        Rect {
            min: Point { x: x0 as i32, y: y0 as i32 },
            max: Point { x: (x0 + w) as i32, y: (y0 + h) as i32 },
        },
    )
}

/// `back` lies at most one pixel, one texture step and one display pixel (the last two
/// measured in monitor pixels) below `orig`, on an axis `extent` monitor pixels long.
pub open spec fn within_round_trip(
    orig: int,
    back: int,
    extent: int,
    monitor_width: int,
    display_width: int,
) -> bool {
    back <= orig && (orig - back) * UV_ONE * display_width < UV_ONE * display_width + UV_ONE
        * monitor_width + extent * display_width
}

/// One axis of the round trip monitor, texture, display, monitor.
proof fn lemma_axis_round_trip(x: int, e: int, len: int, w: int, dw: int)
    requires
        0 <= x <= e,
        e >= 1,
        len >= 0,
        w >= 1,
        dw >= 1,
        len * w == dw * e,
    ensures
        ({
            let d0 = to_uv(x, e) * len / (UV_ONE as int);
            let back = d0 * w / dw;
            &&& 0 <= back <= x
            &&& within_round_trip(x, back, e, w, dw)
        }),
{
    let s = UV_ONE as int;
    let u = to_uv(x, e);
    let d0 = u * len / s;
    let back = d0 * w / dw;
    lemma_fundamental_div_mod(x * s, e);
    lemma_fundamental_div_mod(u * len, s);
    lemma_fundamental_div_mod(d0 * w, dw);
    let r1 = (x * s) % e;
    let r2 = (u * len) % s;
    let r3 = (d0 * w) % dw;
    lemma_uv_in_unit(x, e);
    lemma_scale_in_span(u, len);
    assert(back >= 0) by (nonlinear_arith)
        requires
            d0 * w == dw * back + r3,
            0 <= r3 < dw,
            d0 >= 0,
            w >= 1,
    ;
    assert(back * dw * s <= d0 * w * s) by (nonlinear_arith)
        requires
            d0 * w == dw * back + r3,
            0 <= r3,
            s > 0,
    ;
    assert(d0 * s * w <= u * len * w) by (nonlinear_arith)
        requires
            u * len == s * d0 + r2,
            0 <= r2,
            w >= 1,
    ;
    assert(u * len * w == u * dw * e) by (nonlinear_arith)
        requires
            len * w == dw * e,
    ;
    assert(u * e * dw <= x * s * dw) by (nonlinear_arith)
        requires
            x * s == e * u + r1,
            0 <= r1,
            dw >= 1,
    ;
    assert(back <= x) by (nonlinear_arith)
        requires
            back * dw * s <= d0 * w * s,
            d0 * s * w <= u * len * w,
            u * len * w == u * dw * e,
            u * e * dw <= x * s * dw,
            dw >= 1,
            s > 0,
    ;
    assert(x * s * dw < u * e * dw + e * dw) by (nonlinear_arith)
        requires
            x * s == e * u + r1,
            r1 < e,
            dw >= 1,
    ;
    assert(u * len * w < d0 * s * w + s * w) by (nonlinear_arith)
        requires
            u * len == s * d0 + r2,
            r2 < s,
            w >= 1,
    ;
    assert(d0 * w * s < back * dw * s + dw * s) by (nonlinear_arith)
        requires
            d0 * w == dw * back + r3,
            r3 < dw,
            s > 0,
    ;
    assert((x - back) * s * dw == x * s * dw - back * dw * s) by (nonlinear_arith);
    assert(u * e * dw == u * dw * e) by (nonlinear_arith);
    assert(d0 * s * w == d0 * w * s) by (nonlinear_arith);
    assert((x - back) * s * dw < s * dw + s * w + e * dw);
}

/// A rectangle of the monitor, taken to texture space, drawn into a display
/// rectangle of the monitor's aspect ratio, and mapped back with that rectangle's
/// shrink factor, comes back to itself up to rounding: each coordinate ends at most
/// one pixel, one texture step and one display pixel below where it started.
pub proof fn display_round_trip(r: Rect, m: MonitorFrame, d: Rect)
    requires
        m.is_usable(),
        r.is_normalized(),
        m.spec_rect().spec_contains_rect(r),
        d.is_normalized(),
        d.spec_width() >= 1,
        d.spec_width() * m.height == d.spec_height() * m.width,
    ensures
        ({
            let s = ShrinkFactor { display: d.spec_width() as u32, monitor: m.width };
            let shown = spec_uv_to_display(spec_uv_of(r, m), d);
            let a = spec_display_to_monitor(shown.min, d, s);
            let b = spec_display_to_monitor(shown.max, d, s);
            &&& s.is_valid()
            &&& maps_to_monitor(shown.min, d, s)
            &&& maps_to_monitor(shown.max, d, s)
            &&& within_round_trip(r.min.x as int, a.x as int, m.width as int, m.width as int, d.spec_width())
            &&& within_round_trip(r.min.y as int, a.y as int, m.height as int, m.width as int, d.spec_width())
            &&& within_round_trip(r.max.x as int, b.x as int, m.width as int, m.width as int, d.spec_width())
            &&& within_round_trip(r.max.y as int, b.y as int, m.height as int, m.width as int, d.spec_width())
        }),
{
    let dw = d.spec_width();
    let dh = d.spec_height();
    let w = m.width as int;
    let h = m.height as int;
    lemma_uv_in_unit(r.min.x as int, w);
    lemma_uv_in_unit(r.max.x as int, w);
    lemma_uv_in_unit(r.min.y as int, h);
    lemma_uv_in_unit(r.max.y as int, h);
    lemma_scale_in_span(to_uv(r.min.x as int, w), dw);
    lemma_scale_in_span(to_uv(r.max.x as int, w), dw);
    lemma_scale_in_span(to_uv(r.min.y as int, h), dh);
    lemma_scale_in_span(to_uv(r.max.y as int, h), dh);
    assert(dh * w == dw * h);
    lemma_axis_round_trip(r.min.x as int, w, dw, w, dw);
    lemma_axis_round_trip(r.max.x as int, w, dw, w, dw);
    lemma_axis_round_trip(r.min.y as int, h, dh, w, dw);
    lemma_axis_round_trip(r.max.y as int, h, dh, w, dw);
}

} // verus!
