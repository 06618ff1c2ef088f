use screen_capture::geometry::{from_two_points, MonitorFrame, Point, Rect, Size};
use screen_capture::handle::{classify_point, edge_at_drag_start, ActiveEdge, EDGE_INSET};
use screen_capture::transform::{
    crop_display_rect, display_to_monitor, fit_rect, uv_of, uv_to_display, ShrinkFactor, UvPoint,
    UvRect, UV_ONE,
};

fn pt(x: i32, y: i32) -> Point {
    Point::new(x, y)
}

fn rect(x0: i32, y0: i32, x1: i32, y1: i32) -> Rect {
    Rect { min: pt(x0, y0), max: pt(x1, y1) }
}

#[test]
fn from_two_points_ignores_corner_order() {
    let a = pt(300, 40);
    let b = pt(-20, 250);
    let r = from_two_points(a, b);
    assert_eq!(r, from_two_points(b, a));
    assert_eq!(r, rect(-20, 40, 300, 250));
    assert!(r.min.x <= r.max.x && r.min.y <= r.max.y);
}

#[test]
fn from_two_points_of_one_point_is_empty() {
    let r = from_two_points(pt(50, 50), pt(50, 50));
    assert_eq!(r, rect(50, 50, 50, 50));
    assert_eq!(r.width(), 0);
    assert_eq!(r.height(), 0);
}

#[test]
fn uv_of_divides_by_monitor_size() {
    let m = MonitorFrame { width: 1920, height: 1080 };
    let t = uv_of(&rect(0, 0, 960, 540), m);
    assert_eq!(t.min, UvPoint { u: 0, v: 0 });
    assert_eq!(t.max, UvPoint { u: UV_ONE / 2, v: UV_ONE / 2 });
    let whole = uv_of(&m.rect(), m);
    assert_eq!(whole.max, UvPoint { u: UV_ONE, v: UV_ONE });
}

#[test]
fn uv_of_zero_monitor_is_degenerate() {
    let t = uv_of(&rect(10, 10, 20, 20), MonitorFrame { width: 0, height: 1080 });
    assert_eq!(t, UvRect { min: UvPoint { u: 0, v: 0 }, max: UvPoint { u: 0, v: 0 } });
}

#[test]
fn uv_to_display_scales_into_display_rect() {
    let t = UvRect { min: UvPoint { u: 0, v: 0 }, max: UvPoint { u: UV_ONE / 2, v: UV_ONE / 2 } };
    let r = uv_to_display(&t, &rect(100, 50, 900, 500));
    assert_eq!(r, rect(100, 50, 500, 275));
}

#[test]
fn display_to_monitor_inverts_shrink() {
    let d = rect(100, 50, 900, 500);
    let s = ShrinkFactor { display: 800, monitor: 1920 };
    assert_eq!(display_to_monitor(pt(500, 275), &d, s), pt(960, 540));
    // Left of the display origin the result rounds down: -2.4 becomes -3.
    assert_eq!(display_to_monitor(pt(99, 50), &d, s), pt(-3, 0));
}

#[test]
fn round_trip_through_display_stays_close() {
    let m = MonitorFrame { width: 1920, height: 1080 };
    let d = rect(100, 50, 900, 500);
    let s = ShrinkFactor { display: 800, monitor: 1920 };
    let r = rect(101, 203, 1001, 707);
    let shown = uv_to_display(&uv_of(&r, m), &d);
    let a = display_to_monitor(shown.min, &d, s);
    let b = display_to_monitor(shown.max, &d, s);
    for (orig, back) in [(r.min.x, a.x), (r.min.y, a.y), (r.max.x, b.x), (r.max.y, b.y)] {
        assert!(back <= orig);
        assert!(orig - back <= 3, "{} came back as {}", orig, back);
    }
}

#[test]
fn fit_rect_keeps_a_fitting_image_unscaled() {
    let r = fit_rect(&rect(0, 0, 1000, 1000), Size { width: 200, height: 100 }, pt(500, 500));
    assert_eq!(r, rect(400, 450, 600, 550));
}

#[test]
fn fit_rect_scales_a_wide_image_to_the_width() {
    let r = fit_rect(&rect(0, 0, 100, 100), Size { width: 200, height: 100 }, pt(50, 50));
    assert_eq!(r, rect(0, 25, 100, 75));
}

#[test]
fn fit_rect_scales_a_tall_image_to_the_height() {
    let r = fit_rect(&rect(0, 0, 300, 100), Size { width: 100, height: 200 }, pt(150, 50));
    assert_eq!(r, rect(125, 0, 175, 100));
}

#[test]
fn fit_rect_never_collapses_a_thin_image() {
    let r = fit_rect(&rect(0, 0, 100, 100), Size { width: 1, height: 10000 }, pt(50, 50));
    assert_eq!(r.height(), 100);
    assert_eq!(r.width(), 1);
}

#[test]
fn fit_rect_leaves_a_zero_height_image_unscaled() {
    let r = fit_rect(&rect(0, 0, 100, 100), Size { width: 200, height: 0 }, pt(50, 50));
    assert_eq!(r, rect(-50, 50, 150, 50));
}

#[test]
fn crop_display_rect_keeps_monitor_aspect() {
    let m = MonitorFrame { width: 1920, height: 1080 };
    let r = crop_display_rect(&rect(0, 0, 1000, 720), m);
    assert_eq!(r, Some(rect(-33, 60, 1033, 660)));
    let small = crop_display_rect(&rect(0, 0, 1000, 100), m).unwrap();
    assert_eq!(small.height(), 0);
}

#[test]
fn crop_display_rect_refuses_what_leaves_the_range() {
    let m = MonitorFrame { width: 65535, height: 1 };
    assert_eq!(crop_display_rect(&rect(0, 0, 1000, 200_000), m), None);
    assert_eq!(crop_display_rect(&rect(10, 0, 0, 720), MonitorFrame { width: 4, height: 3 }), None);
}

#[test]
fn classify_point_finds_each_band() {
    let o = rect(100, 100, 200, 150);
    assert_eq!(classify_point(pt(150, 102), &o, EDGE_INSET), ActiveEdge::Top);
    assert_eq!(classify_point(pt(150, 148), &o, EDGE_INSET), ActiveEdge::Bottom);
    assert_eq!(classify_point(pt(198, 120), &o, EDGE_INSET), ActiveEdge::Right);
    assert_eq!(classify_point(pt(102, 120), &o, EDGE_INSET), ActiveEdge::Left);
    assert_eq!(classify_point(pt(150, 120), &o, EDGE_INSET), ActiveEdge::NoEdge);
    assert_eq!(classify_point(pt(300, 300), &o, EDGE_INSET), ActiveEdge::NoEdge);
}

#[test]
fn classify_point_corners_follow_band_order() {
    let o = rect(100, 100, 200, 150);
    assert_eq!(classify_point(pt(102, 102), &o, EDGE_INSET), ActiveEdge::Top);
    assert_eq!(classify_point(pt(198, 148), &o, EDGE_INSET), ActiveEdge::Bottom);
    assert_eq!(classify_point(pt(198, 102), &o, EDGE_INSET), ActiveEdge::Top);
}

#[test]
fn drag_start_takes_an_edge_only_from_the_rim() {
    let o = rect(100, 100, 200, 150);
    assert_eq!(edge_at_drag_start(pt(198, 120), &o, EDGE_INSET), ActiveEdge::Right);
    assert_eq!(edge_at_drag_start(pt(150, 120), &o, EDGE_INSET), ActiveEdge::NoEdge);
    assert_eq!(edge_at_drag_start(pt(250, 120), &o, EDGE_INSET), ActiveEdge::NoEdge);
    // Without a margin the core is the whole outline: no edge at all.
    assert_eq!(edge_at_drag_start(pt(100, 120), &o, 0), ActiveEdge::NoEdge);
}
