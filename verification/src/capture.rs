//! The screen-capture capability interface and pixel-format converter
//! helpers.
//!
//! Platform pixel-grabbing backends (X11, GDI, CoreGraphics and their kin)
//! live outside the verified core and implement `ScreenCapture`; everything
//! here depends only on that interface.

use vstd::prelude::*;

verus! {

use crate::error::{CaptureError, CaptureResult};
use crate::simd::{drop_alpha, swap_rb, SimdConverter};
use crate::types::{CaptureRegion, DisplayInfo, RawImage};

/// Main capability for screen capture implementations. Backends are
/// implemented outside the verified core, so the methods carry no contracts:
/// every caller in this library states what holds whatever they return.
pub trait ScreenCapture {
    /// Get the list of available displays.
    fn get_displays(&self) -> CaptureResult<Vec<DisplayInfo>>;

    /// Capture a screenshot from a specific display.
    fn capture_display(&self, display_index: usize) -> CaptureResult<RawImage>;

    /// Capture a specific region of the screen.
    fn capture_region(&self, region: CaptureRegion) -> CaptureResult<RawImage>;

    /// Get the implementation name.
    fn implementation_name(&self) -> String;

    /// Check if hardware acceleration is available.
    fn is_hardware_accelerated(&self) -> bool;

    /// Check if the implementation is available on the current system.
    fn is_available(&self) -> bool;

    /// Get the capabilities of the implementation.
    fn capabilities(&self) -> CaptureCapabilities;
}

/// Capabilities of a capture implementation.
#[derive(Debug, Clone)]
pub struct CaptureCapabilities {
    /// Supports capturing the cursor.
    pub supports_cursor: bool,
    /// Supports capturing specific windows.
    pub supports_window_capture: bool,
    /// Supports HDR capture.
    pub supports_hdr: bool,
    /// Maximum resolution width supported (0 = unlimited).
    pub max_resolution_width: u32,
    /// Maximum resolution height supported (0 = unlimited).
    pub max_resolution_height: u32,
    /// Supports multi-display capture.
    pub supports_multi_display: bool,
    /// Supports GPU acceleration.
    pub supports_gpu_acceleration: bool,
    /// Estimated capture latency in milliseconds.
    pub estimated_latency_ms: u32,
}

impl Default for CaptureCapabilities {
    /// Everything off, resolution unlimited, zero latency estimate.
    fn default() -> (c: CaptureCapabilities)
        ensures
            !c.supports_cursor,
            !c.supports_window_capture,
            !c.supports_hdr,
            c.max_resolution_width == 0,
            c.max_resolution_height == 0,
            !c.supports_multi_display,
            !c.supports_gpu_acceleration,
            c.estimated_latency_ms == 0,
    {
        CaptureCapabilities {
            supports_cursor: false,
            supports_window_capture: false,
            supports_hdr: false,
            max_resolution_width: 0,
            max_resolution_height: 0,
            supports_multi_display: false,
            supports_gpu_acceleration: false,
            estimated_latency_ms: 0,
        }
    }
}

/// The buffer with its pixel rows in reverse vertical order; complete rows
/// only, trailing bytes unchanged.
pub open spec fn flip_rows(s: Seq<u8>, width: int, height: int, bpp: int) -> Seq<u8> {
    let row = width * bpp;
    Seq::new(
        s.len(),
        |i: int|
            if 0 < row && i < row * height {
                s[(height - 1 - i / row) * row + i % row]
            } else {
                s[i]
            },
    )
}

/// Helper capability for pixel format conversion. Both implementations in
/// this library meet the exact channel-swap contracts.
pub trait PixelFormatConverter {
    /// Convert BGRA to RGBA in place.
    fn convert_bgra_to_rgba(&self, data: &mut Vec<u8>)
        ensures
            final(data)@ == swap_rb(old(data)@, 4),
    ;

    /// Convert BGR to RGB in place.
    fn convert_bgr_to_rgb(&self, data: &mut Vec<u8>)
        ensures
            final(data)@ == swap_rb(old(data)@, 3),
    ;

    /// Convert RGBA to RGB (remove the alpha channel).
    fn convert_rgba_to_rgb(&self, src: &Vec<u8>, dst: &mut Vec<u8>)
        requires
            old(dst)@.len() >= 3 * (src@.len() / 4),
        ensures
            final(dst)@ == drop_alpha(src@, old(dst)@),
    ;

    /// Flip the image vertically, row by row.
    fn flip_vertical(&self, data: &mut Vec<u8>, width: u32, height: u32, bytes_per_pixel: u32)
        requires
            width * bytes_per_pixel * height <= old(data)@.len(),
        ensures
            final(data)@ == flip_rows(old(data)@, width as int, height as int, bytes_per_pixel as int),
    ;
}

/// Default scalar implementation of pixel format conversion.
pub struct DefaultPixelConverter;

impl PixelFormatConverter for DefaultPixelConverter {
    fn convert_bgra_to_rgba(&self, data: &mut Vec<u8>) {
        SimdConverter::new().convert_bgra_to_rgba(data);
    }

    fn convert_bgr_to_rgb(&self, data: &mut Vec<u8>) {
        SimdConverter::new().convert_bgr_to_rgb(data);
    }

    fn convert_rgba_to_rgb(&self, src: &Vec<u8>, dst: &mut Vec<u8>) {
        SimdConverter::new().convert_rgba_to_rgb(src, dst);
    }

    fn flip_vertical(&self, data: &mut Vec<u8>, width: u32, height: u32, bytes_per_pixel: u32) {
        flip_vertical_rows(data, width, height, bytes_per_pixel);
    }
}

/// Pixel converter that would dispatch to vector instructions; the verified
/// build carries the same scalar strategy as `DefaultPixelConverter`.
pub struct SimdPixelConverter;

impl PixelFormatConverter for SimdPixelConverter {
    fn convert_bgra_to_rgba(&self, data: &mut Vec<u8>) {
        SimdConverter::new().convert_bgra_to_rgba(data);
    }

    fn convert_bgr_to_rgb(&self, data: &mut Vec<u8>) {
        SimdConverter::new().convert_bgr_to_rgb(data);
    }

    fn convert_rgba_to_rgb(&self, src: &Vec<u8>, dst: &mut Vec<u8>) {
        SimdConverter::new().convert_rgba_to_rgb(src, dst);
    }

    fn flip_vertical(&self, data: &mut Vec<u8>, width: u32, height: u32, bytes_per_pixel: u32) {
        flip_vertical_rows(data, width, height, bytes_per_pixel);
    }
}

/// Reverse the vertical order of the complete pixel rows of `data`.
fn flip_vertical_rows(data: &mut Vec<u8>, width: u32, height: u32, bytes_per_pixel: u32)
    requires
        width * bytes_per_pixel * height <= old(data)@.len(),
    ensures
        final(data)@ == flip_rows(old(data)@, width as int, height as int, bytes_per_pixel as int),
{
    let n: usize = data.len();
    let h: usize = height as usize;
    if h == 0 {
        proof {
            assert(width * bytes_per_pixel * height == 0) by (nonlinear_arith)
                requires
                    height == 0,
            ;
            assert(data@ =~= flip_rows(
                old(data)@,
                width as int,
                height as int,
                bytes_per_pixel as int,
            ));
        }
        return;
    }
    proof {
        assert(width * bytes_per_pixel <= width * bytes_per_pixel * height) by (nonlinear_arith)
            requires
                height >= 1,
        ;
    }
    let row: usize = (width as usize) * (bytes_per_pixel as usize);
    if row == 0 {
        proof {
            assert(data@ =~= flip_rows(
                old(data)@,
                width as int,
                height as int,
                bytes_per_pixel as int,
            ));
        }
        return;
    }
    proof {
        assert(row * h == width * bytes_per_pixel * height) by (nonlinear_arith)
            requires
                row == width * bytes_per_pixel,
                h == height,
        ;
    }
    let mut out: Vec<u8> = Vec::new();
    let mut y: usize = 0;
    while y < h
        invariant
            row == width * bytes_per_pixel,
            h == height,
            row >= 1,
            n == data@.len(),
            row * h <= n,
            y <= h,
            out@.len() == y * row,
            forall|i: int|
                0 <= i < y * row ==> out@[i] == data@[(h - 1 - i / (row as int)) * row + i % (
                row as int)],
        decreases h - y,
    {
        proof {
            assert((h - 1 - y) * row + row <= h * row) by (nonlinear_arith)
                requires
                    y < h,
                    row >= 1,
            ;
        }
        let src_row: usize = (h - 1 - y) * row;
        let mut k: usize = 0;
        while k < row
            invariant
                row == width * bytes_per_pixel,
                h == height,
                row >= 1,
                n == data@.len(),
                row * h <= n,
                y < h,
                k <= row,
                src_row == (h - 1 - y) * row,
                out@.len() == y * row + k,
                forall|i: int|
                    0 <= i < y * row ==> out@[i] == data@[(h - 1 - i / (row as int)) * row + i % (
                    row as int)],
                forall|j: int| 0 <= j < k ==> out@[y * row + j] == data@[#[trigger] (src_row + j)],
            decreases row - k,
        {
            proof {
                assert(src_row + k < n) by {
                    assert((h - 1 - y) * row + row <= h * row) by (nonlinear_arith)
                        requires
                            y < h,
                            row >= 1,
                    ;
                };
            }
            out.push(data[src_row + k]);
            k = k + 1;
        }
        y = y + 1;
        proof {
            assert(y * row == (y - 1) * row + row) by (nonlinear_arith);
            assert forall|i: int| 0 <= i < y * row implies out@[i] == data@[(h - 1 - i / (
            row as int)) * row + i % (row as int)] by {
                if i >= (y - 1) * row {
                    let j = i - (y - 1) * row;
                    assert(0 <= j < row);
                    assert(out@[i] == data@[src_row + j]);
                    assert(i / (row as int) == y - 1 && i % (row as int) == j) by (nonlinear_arith)
                        requires
                            i == (y - 1) * row + j,
                            0 <= j < row,
                            row >= 1,
                    ;
                }
            };
            assert(y * row <= h * row) by (nonlinear_arith)
                requires
                    y <= h,
                    row >= 1,
            ;
        }
    }
    // Trailing bytes past the complete rows are carried over unchanged.
    proof {
        assert(h * row == row * h) by (nonlinear_arith);
        assert(h * row <= n);
    }
    let mut t: usize = h * row;
    proof {
        assert(out@.len() == h * row);
    }
    while t < n
        invariant
            n == data@.len(),
            h * row <= t <= n,
            out@.len() == t,
            forall|i: int|
                0 <= i < h * row ==> out@[i] == data@[(h - 1 - i / (row as int)) * row + i % (
                row as int)],
            forall|i: int| h * row <= i < t ==> out@[i] == data@[i],
        decreases n - t,
    {
        out.push(data[t]);
        t = t + 1;
    }
    *data = out;
    proof {
        assert(data@ =~= flip_rows(
            old(data)@,
            width as int,
            height as int,
            bytes_per_pixel as int,
        ));
    }
}

/// Platform-specific capturer factory. The platform backends are outside the
/// verified core; a build of this library without one linked in reports that
/// no display backend is available.
pub struct Capturer;

impl Capturer {
    /// Create a new platform-specific capturer. Without a platform backend
    /// linked into this build, this reports that no display is available.
    pub fn new() -> (r: CaptureResult<Capturer>)
        ensures
            r matches Err(e) && e matches CaptureError::DisplayEnumerationFailed(m) && m@
                == "No display backend available"@,
    {
        Err(CaptureError::DisplayEnumerationFailed("No display backend available".to_owned()))
    }

    /// Create a capturer with hardware acceleration if available; same
    /// backend situation as `new`.
    pub fn with_hardware_acceleration() -> (r: CaptureResult<Capturer>)
        ensures
            r matches Err(e) && e matches CaptureError::DisplayEnumerationFailed(m) && m@
                == "No display backend available"@,
    {
        Err(CaptureError::DisplayEnumerationFailed("No display backend available".to_owned()))
    }
}

} // verus!
