use screen_capture::capture::CaptureBuffer;
use screen_capture::geometry::{MonitorFrame, Point, Rect, Size};
use screen_capture::handle::ActiveEdge;
use screen_capture::keys::{Action, Key, KeyBindings};
use screen_capture::session::{CaptureFailure, CaptureSession, SessionAction, SessionPhase};
use screen_capture::transform::{UvPoint, UV_ONE};

fn pt(x: i32, y: i32) -> Point {
    Point::new(x, y)
}

fn rect(x0: i32, y0: i32, x1: i32, y1: i32) -> Rect {
    Rect { min: pt(x0, y0), max: pt(x1, y1) }
}

fn monitor() -> MonitorFrame {
    MonitorFrame { width: 1920, height: 1080 }
}

fn buffer(width: u32, height: u32) -> CaptureBuffer {
    let n = (width * height * 4) as usize;
    CaptureBuffer { width, height, pixels: (0..n).map(|i| i as u8).collect() }
}

/// A session in the editing phase, with the whole monitor selected.
fn editing_session() -> CaptureSession {
    let mut s = CaptureSession::new(monitor());
    assert_eq!(s.handle_fullscreen_capture(), SessionAction::ShowCaptureOverlay);
    assert_eq!(s.tick(0), SessionAction::CaptureScreen);
    assert_eq!(s.capture_finished(Ok(buffer(4, 2))), SessionAction::RestoreWindow);
    s
}

#[test]
fn new_session_is_idle_and_empty() {
    let s = CaptureSession::new(monitor());
    assert_eq!(s.phase, SessionPhase::Idle);
    assert_eq!(s.region, rect(0, 0, 0, 0));
    assert!(s.capture.is_none());
    assert!(s.overlay.is_none());
    assert_eq!(s.edge, ActiveEdge::NoEdge);
}

#[test]
fn drag_from_press_to_release_commits_region() {
    let mut s = CaptureSession::new(monitor());
    assert_eq!(s.request_new_capture(), SessionAction::ShowCaptureOverlay);
    assert_eq!(s.phase, SessionPhase::ChoosingCaptureMode);
    s.begin_selection(pt(100, 100));
    assert_eq!(s.phase, SessionPhase::DrawingSelection);
    assert_eq!(s.selection_preview(pt(300, 250)), rect(100, 100, 300, 250));
    assert_eq!(s.region, rect(0, 0, 0, 0));
    s.finish_selection(pt(300, 250));
    assert_eq!(s.region, rect(100, 100, 300, 250));
    assert_eq!(s.phase, SessionPhase::AwaitingCapture);
}

#[test]
fn release_at_press_point_discards_region() {
    let mut s = CaptureSession::new(monitor());
    s.request_new_capture();
    s.begin_selection(pt(50, 50));
    s.finish_selection(pt(50, 50));
    assert_eq!(s.phase, SessionPhase::ChoosingCaptureMode);
    assert_eq!(s.region, rect(0, 0, 0, 0));
}

#[test]
fn selection_is_kept_on_the_monitor() {
    let mut s = CaptureSession::new(monitor());
    s.request_new_capture();
    s.begin_selection(pt(-40, 500));
    s.finish_selection(pt(2500, 1200));
    assert_eq!(s.region, rect(0, 500, 1920, 1080));
}

#[test]
fn full_screen_selects_whole_monitor() {
    let mut s = CaptureSession::new(monitor());
    s.request_new_capture();
    assert_eq!(s.handle_fullscreen_capture(), SessionAction::Nothing);
    assert_eq!(s.region, rect(0, 0, 1920, 1080));
    assert_eq!(s.phase, SessionPhase::AwaitingCapture);
}

#[test]
fn capture_arrives_one_frame_later_and_editing_begins() {
    let s = editing_session();
    assert_eq!(s.phase, SessionPhase::Editing);
    assert_eq!(s.capture.as_ref().map(|c| (c.width, c.height)), Some((4, 2)));
    assert_eq!(s.calculate_uv().max, UvPoint { u: UV_ONE, v: UV_ONE });
}

#[test]
fn capture_failure_returns_to_mode_choice() {
    let mut s = CaptureSession::new(monitor());
    s.handle_fullscreen_capture();
    let a = s.capture_finished(Err(CaptureFailure::NoMonitor));
    assert_eq!(a, SessionAction::Nothing);
    assert_eq!(s.phase, SessionPhase::ChoosingCaptureMode);
    assert_eq!(s.region, rect(0, 0, 0, 0));
    assert!(s.capture.is_none());
    s.handle_fullscreen_capture();
    s.capture_finished(Err(CaptureFailure::BackendUnavailable));
    assert_eq!(s.phase, SessionPhase::ChoosingCaptureMode);
}

#[test]
fn new_capture_discards_previous_region() {
    let mut s = editing_session();
    assert_eq!(s.request_new_capture(), SessionAction::ShowCaptureOverlay);
    assert_eq!(s.phase, SessionPhase::ChoosingCaptureMode);
    assert_eq!(s.region, rect(0, 0, 0, 0));
}

#[test]
fn delayed_capture_waits_for_its_deadline() {
    let mut s = CaptureSession::new(monitor());
    assert_eq!(s.schedule_capture(1000, 3), SessionAction::HideWindow);
    assert_eq!(s.deadline, Some(4000));
    assert_eq!(s.seconds_left(2500), Some(2));
    assert_eq!(s.tick(3999), SessionAction::Nothing);
    assert_eq!(s.phase, SessionPhase::Idle);
    assert_eq!(s.tick(4000), SessionAction::ShowCaptureOverlay);
    assert_eq!(s.phase, SessionPhase::ChoosingCaptureMode);
    assert_eq!(s.deadline, None);
    assert_eq!(s.seconds_left(5000), None);
}

#[test]
fn zero_delay_starts_at_once() {
    let mut s = CaptureSession::new(monitor());
    assert_eq!(s.schedule_capture(1000, 0), SessionAction::ShowCaptureOverlay);
    assert_eq!(s.phase, SessionPhase::ChoosingCaptureMode);
}

#[test]
fn huge_delay_saturates() {
    let mut s = CaptureSession::new(monitor());
    s.schedule_capture(u64::MAX - 5, u64::MAX);
    assert_eq!(s.deadline, Some(u64::MAX));
}

#[test]
fn crop_edit_then_confirm_replaces_region() {
    let mut s = editing_session();
    assert!(s.handle_crop_request());
    assert_eq!(s.phase, SessionPhase::CroppingOverlay);
    assert!(s.overlay.is_none());
    s.layout_crop(&rect(100, 50, 900, 500));
    let o = s.overlay.unwrap();
    assert_eq!(o.position, pt(100, 50));
    assert_eq!(o.dimensions, Size { width: 800, height: 450 });
    // Grab the right edge and pull it in by 10, then by 5 more, then let go.
    s.drag(Some(pt(898, 200)), -10, 0, false);
    assert_eq!(s.edge, ActiveEdge::Right);
    s.drag(None, -5, 0, true);
    assert_eq!(s.edge, ActiveEdge::NoEdge);
    assert_eq!(s.overlay.unwrap().dimensions, Size { width: 785, height: 450 });
    // A second layout does not move the overlay.
    s.layout_crop(&rect(0, 0, 10, 10));
    assert_eq!(s.overlay.unwrap().dimensions.width, 785);
    s.confirm_crop();
    assert_eq!(s.phase, SessionPhase::Editing);
    assert!(s.overlay.is_none());
    assert_eq!(s.region, rect(0, 0, 1884, 1080));
}

#[test]
fn crop_cancel_keeps_region() {
    let mut s = editing_session();
    s.handle_crop_request();
    s.layout_crop(&rect(100, 50, 900, 500));
    s.drag(Some(pt(100, 200)), 50, 0, true);
    assert_eq!(s.overlay.unwrap().position, pt(150, 50));
    s.cancel_crop();
    assert_eq!(s.phase, SessionPhase::Editing);
    assert_eq!(s.region, rect(0, 0, 1920, 1080));
}

#[test]
fn drag_inside_the_core_moves_nothing() {
    let mut s = editing_session();
    s.handle_crop_request();
    s.layout_crop(&rect(100, 50, 900, 500));
    s.drag(Some(pt(500, 300)), 30, 30, false);
    assert_eq!(s.edge, ActiveEdge::NoEdge);
    assert_eq!(s.overlay.unwrap().dimensions, Size { width: 800, height: 450 });
}

#[test]
fn crop_request_needs_a_capture() {
    let mut s = CaptureSession::new(monitor());
    assert!(!s.handle_crop_request());
    assert_eq!(s.phase, SessionPhase::Idle);
}

#[test]
fn shortcuts_follow_the_phase() {
    let b = KeyBindings::new();
    let key = |c: char| Key::from_code(c as u32);
    let mut s = CaptureSession::new(monitor());
    assert_eq!(s.check_shortcut_press(&b, key('S'), true, false, true), SessionAction::Nothing);
    let mut e = editing_session();
    assert_eq!(e.check_shortcut_press(&b, key('S'), true, false, true), SessionAction::Save);
    assert_eq!(e.check_shortcut_press(&b, key('C'), true, false, true), SessionAction::CopyToClipboard);
    assert_eq!(e.check_shortcut_press(&b, key('S'), true, true, true), SessionAction::Nothing);
    assert_eq!(e.check_shortcut_press(&b, key('X'), true, false, true), SessionAction::Nothing);
    assert_eq!(e.phase, SessionPhase::CroppingOverlay);
    assert_eq!(e.check_shortcut_press(&b, key('Z'), true, false, true), SessionAction::Nothing);
    assert_eq!(e.phase, SessionPhase::Editing);
    assert_eq!(s.check_shortcut_press(&b, key('N'), true, false, true), SessionAction::ShowCaptureOverlay);
    assert_eq!(s.phase, SessionPhase::ChoosingCaptureMode);
    let mut f = CaptureSession::new(monitor());
    assert_eq!(f.apply_shortcut(Action::Fullscreen), SessionAction::ShowCaptureOverlay);
    assert_eq!(f.phase, SessionPhase::AwaitingCapture);
    assert_eq!(f.region, rect(0, 0, 1920, 1080));
}

#[test]
fn calculate_space_scales_selection_into_view() {
    let s = editing_session();
    let r = s.calculate_space(&rect(0, 0, 960, 1000));
    assert_eq!(r, Some(rect(0, 270, 960, 810)));
    assert_eq!(s.calculate_space(&rect(0, 0, -5, 10)), None);
    assert_eq!(s.calculate_space(&rect(i32::MIN, 0, i32::MAX, 10)), None);
}
