use screen_capture::capture::{export_format, CaptureBuffer, ExportFormat};
use screen_capture::geometry::{MonitorFrame, Point};
use screen_capture::session::{CaptureSession, SessionPhase};

fn buffer(width: u32, height: u32) -> CaptureBuffer {
    let n = (width * height * 4) as usize;
    CaptureBuffer { width, height, pixels: (0..n).map(|i| i as u8).collect() }
}

#[test]
fn crop_takes_the_selected_pixels() {
    let m = MonitorFrame { width: 4, height: 2 };
    let mut s = CaptureSession::new(m);
    s.request_new_capture();
    s.begin_selection(Point::new(1, 0));
    s.finish_selection(Point::new(3, 2));
    s.tick(0);
    s.capture_finished(Ok(buffer(4, 2)));
    assert_eq!(s.phase, SessionPhase::Editing);
    let out = s.crop_image().unwrap();
    assert_eq!((out.width, out.height), (2, 2));
    let mut want: Vec<u8> = (4..12).collect();
    want.extend(20..28u8);
    assert_eq!(out.pixels, want);
}

#[test]
fn crop_scales_by_image_width() {
    // The image has twice the monitor's resolution.
    let m = MonitorFrame { width: 2, height: 1 };
    let mut s = CaptureSession::new(m);
    s.request_new_capture();
    s.begin_selection(Point::new(1, 0));
    s.finish_selection(Point::new(2, 1));
    s.tick(0);
    s.capture_finished(Ok(buffer(4, 2)));
    let out = s.crop_image().unwrap();
    assert_eq!((out.width, out.height), (2, 2));
    let mut want: Vec<u8> = (8..16).collect();
    want.extend(24..32u8);
    assert_eq!(out.pixels, want);
}

#[test]
fn crop_is_clamped_to_the_image() {
    let b = buffer(4, 2);
    let m = MonitorFrame { width: 8, height: 4 };
    let r = screen_capture::geometry::Rect { min: Point::new(6, 0), max: Point::new(8, 4) };
    let out = b.crop(&r, m);
    assert_eq!((out.width, out.height), (1, 2));
    assert_eq!(out.pixels, vec![12, 13, 14, 15, 28, 29, 30, 31]);
}

#[test]
fn crop_image_only_while_editing() {
    let s = CaptureSession::new(MonitorFrame { width: 4, height: 2 });
    assert!(s.crop_image().is_none());
}

#[test]
fn export_format_by_extension() {
    assert_eq!(export_format("png"), Some(ExportFormat::Png));
    assert_eq!(export_format("jpg"), Some(ExportFormat::Jpeg));
    assert_eq!(export_format("jpeg"), Some(ExportFormat::Jpeg));
    assert_eq!(export_format("gif"), Some(ExportFormat::Gif));
    assert_eq!(export_format("PNG"), None);
    assert_eq!(export_format("bmp"), None);
    assert_eq!(export_format(""), None);
}
