//! The captured image, and the part of it that a selection stands for.
use vstd::prelude::*;
use vstd::string::StringSliceAdditionalSpecFns;
use crate::geometry::{MonitorFrame, Rect};

verus! {

/// Bytes per pixel: red, green, blue and alpha.
pub const CHANNELS: u32 = 4;

/// A captured image: `width * height` RGBA pixels, row by row.
#[derive(Clone, Debug)]
pub struct CaptureBuffer {
    pub width: u32,
    pub height: u32,
    pub pixels: Vec<u8>,
}

/// The file formats a capture can be saved in.
#[derive(Clone, Copy, Debug, PartialEq, Eq, Structural)]
pub enum ExportFormat {
    Png,
    Jpeg,
    Gif,
}

/// Start of a window along a side of `extent` pixels, kept on the image.
pub open spec fn window_start(start: int, extent: int) -> int {
    if start < extent {
        start
    } else {
        extent
    }
}

/// Length of a window along a side of `extent` pixels, kept on the image.
pub open spec fn window_len(start: int, len: int, extent: int) -> int {
    let s = window_start(start, extent);
    if len < extent - s {
        len
    } else {
        extent - s
    }
}

/// `out` holds the `w` by `h` window of `src` (an image `width` pixels wide) whose
/// top-left pixel is `(x, y)`, row by row.
pub open spec fn is_window_of(
    out: Seq<u8>,
    src: Seq<u8>,
    width: int,
    x: int,
    y: int,
    w: int,
    h: int,
) -> bool {
    &&& out.len() == w * h * CHANNELS
    &&& forall|i: int, j: int, c: int|
        0 <= i < w && 0 <= j < h && 0 <= c < CHANNELS ==> #[trigger] out[(j * w + i) * CHANNELS
            + c] == src[((y + j) * width + x + i) * CHANNELS + c]
}

/// A monitor coordinate in image pixels, for an image `image_width` pixels wide
/// taken of a monitor `monitor_width` pixels wide, kept in the range of `u32`.
pub open spec fn to_pixels(c: int, image_width: int, monitor_width: int) -> int {
    let v = c * image_width / monitor_width;
    if v < 0 {
        0
    } else if v > u32::MAX {
        u32::MAX as int
    } else {
        v
    }
}

/// Relies on `image::ImageBuffer::from_raw`, `image::imageops::crop_imm` and
/// `SubImage::to_image`: the window is first clamped to the image (start at most
/// the side, length at most what is left), and the result holds its pixels row by
/// row.
#[verifier::external_body]
fn crop_rgba(pixels: &Vec<u8>, width: u32, height: u32, x: u32, y: u32, w: u32, h: u32) -> (r:
    Vec<u8>)
    requires
        pixels@.len() == width * height * CHANNELS,
    ensures
        is_window_of(
            r@,
            pixels@,
            width as int,
            window_start(x as int, width as int),
            window_start(y as int, height as int),
            window_len(x as int, w as int, width as int),
            window_len(y as int, h as int, height as int),
        ),
{
    let image = image::RgbaImage::from_raw(width, height, pixels.clone()).unwrap();
    image::imageops::crop_imm(&image, x, y, w, h).to_image().into_raw()
}

/// Converts a monitor coordinate to image pixels.
fn pixel_axis(c: i64, image_width: u32, monitor_width: u16) -> (p: u32)
    requires
        monitor_width > 0,
        -0x1_0000_0000 <= c <= 0x1_0000_0000,
    ensures
        p == to_pixels(c as int, image_width as int, monitor_width as int),
{
    proof {
        assert(-0x1_0000_0000_0000_0000 <= c * image_width <= 0x1_0000_0000_0000_0000)
            by (nonlinear_arith)
            requires
                -0x1_0000_0000 <= c <= 0x1_0000_0000,
                0 <= image_width <= 0x1_0000_0000,
        ;
        crate::transform::lemma_quotient_bound(
            c * image_width,
            monitor_width as int,
            0x1_0000_0000_0000_0000,
        );
    }
    let v = crate::geometry::floor_div(c as i128 * image_width as i128, monitor_width as i128);
    if v < 0 {
        0
    } else if v > u32::MAX as i128 {
        u32::MAX
    } else {
        v as u32
    }
}

impl CaptureBuffer {
    /// The pixel bytes are exactly `width * height` pixels.
    pub open spec fn wf(self) -> bool {
        self.pixels@.len() == self.width * self.height * CHANNELS
    }

    /// The window of image pixels that a monitor-space selection covers, before it
    /// is clamped to the image: the selection scaled by image width over monitor
    /// width on both axes.
    pub open spec fn spec_pixel_window(self, region: Rect, m: MonitorFrame) -> (int, int, int, int) {
        (
            to_pixels(region.min.x as int, self.width as int, m.width as int),
            to_pixels(region.min.y as int, self.width as int, m.width as int),
            to_pixels(region.spec_width(), self.width as int, m.width as int),
            to_pixels(region.spec_height(), self.width as int, m.width as int),
        )
    }

    /// `out` is the part of the image that a monitor-space selection covers: the
    /// pixel window of the selection, clamped to the image.
    pub open spec fn is_crop(self, out: CaptureBuffer, region: Rect, m: MonitorFrame) -> bool {
        let (x, y, w, h) = self.spec_pixel_window(region, m);
        &&& out.width == window_len(x, w, self.width as int)
        &&& out.height == window_len(y, h, self.height as int)
        &&& is_window_of(
            out.pixels@,
            self.pixels@,
            self.width as int,
            window_start(x, self.width as int),
            window_start(y, self.height as int),
            out.width as int,
            out.height as int,
        )
    }

    /// The part of the image that a monitor-space selection covers.
    pub fn crop(&self, region: &Rect, m: MonitorFrame) -> (r: CaptureBuffer)
        requires
            self.wf(),
            region.is_normalized(),
            m.is_usable(),
        ensures
            r.wf(),
            self.is_crop(r, *region, m),
    {
        let x = pixel_axis(region.min.x as i64, self.width, m.width);
        let y = pixel_axis(region.min.y as i64, self.width, m.width);
        let w = pixel_axis(region.width() as i64, self.width, m.width);
        let h = pixel_axis(region.height() as i64, self.width, m.width);
        let pixels = crop_rgba(&self.pixels, self.width, self.height, x, y, w, h);
        let x0 = if x < self.width { x } else { self.width };
        let y0 = if y < self.height { y } else { self.height };
        let cw = if w < self.width - x0 { w } else { self.width - x0 };
        let ch = if h < self.height - y0 { h } else { self.height - y0 };
        CaptureBuffer { width: cw, height: ch, pixels }
    }
}

/// The format a file extension asks for: `png`, `jpg` or `jpeg`, or `gif`, in
/// lower case.
pub open spec fn spec_export_format(ext: Seq<u8>) -> Option<ExportFormat> {
    if ext == seq![112u8, 110u8, 103u8] {
        Some(ExportFormat::Png)
    } else if ext == seq![106u8, 112u8, 103u8] || ext == seq![106u8, 112u8, 101u8, 103u8] {
        Some(ExportFormat::Jpeg)
    } else if ext == seq![103u8, 105u8, 102u8] {
        Some(ExportFormat::Gif)
    } else {
        None
    }
}

/// The format that a file extension asks for, if it is one the capture can be
/// saved in.
pub fn export_format(ext: &str) -> (f: Option<ExportFormat>)
    ensures
        f == spec_export_format(ext.spec_bytes()),
{
    let b = ext.as_bytes();
    let n = b.len();
    let f = if n == 3 && b[0] == 112 && b[1] == 110 && b[2] == 103 {
        Some(ExportFormat::Png)
    } else if n == 3 && b[0] == 106 && b[1] == 112 && b[2] == 103 {
        Some(ExportFormat::Jpeg)
    } else if n == 4 && b[0] == 106 && b[1] == 112 && b[2] == 101 && b[3] == 103 {
        Some(ExportFormat::Jpeg)
    } else if n == 3 && b[0] == 103 && b[1] == 105 && b[2] == 102 {
        Some(ExportFormat::Gif)
    } else {
        None
    };
    proof {
        let s = ext.spec_bytes();
        assert(b@ == s);
        if n == 3 && b[0] == 112 && b[1] == 110 && b[2] == 103 {
            assert(s =~= seq![112u8, 110u8, 103u8]);
        } else if n == 3 && b[0] == 106 && b[1] == 112 && b[2] == 103 {
            assert(s =~= seq![106u8, 112u8, 103u8]);
        } else if n == 4 && b[0] == 106 && b[1] == 112 && b[2] == 101 && b[3] == 103 {
            assert(s =~= seq![106u8, 112u8, 101u8, 103u8]);
        } else if n == 3 && b[0] == 103 && b[1] == 105 && b[2] == 102 {
            assert(s =~= seq![103u8, 105u8, 102u8]);
        } else {
            if s == seq![112u8, 110u8, 103u8] {
                assert(s[0] == 112u8);
            }
            if s == seq![106u8, 112u8, 103u8] {
                assert(s[0] == 106u8);
            }
            if s == seq![106u8, 112u8, 101u8, 103u8] {
                assert(s[2] == 101u8);
            }
            if s == seq![103u8, 105u8, 102u8] {
                assert(s[0] == 103u8);
            }
        }
    }
    f
}

} // verus!
