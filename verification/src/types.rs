//! Core data types: pixel formats, raw images, encoder configuration,
//! geometry, and capture statistics.

use vstd::prelude::*;

verus! {

use crate::text::{dec_seq, join2, u64_to_string};

/// Information about a display/monitor. The scale factor is carried in
/// hundredths (100 means 1.0) so that the whole record stays in integers.
#[derive(Debug, Clone)]
pub struct DisplayInfo {
    /// Display index (0-based).
    pub index: usize,
    /// Display name or identifier.
    pub name: String,
    /// Width in pixels.
    pub width: u32,
    /// Height in pixels.
    pub height: u32,
    /// X offset from the primary display.
    pub x: i32,
    /// Y offset from the primary display.
    pub y: i32,
    /// Scale factor in hundredths (for HiDPI displays; 100 = 1.0).
    pub scale_factor_percent: u32,
    /// Whether this is the primary display.
    pub is_primary: bool,
    /// Refresh rate in Hz.
    pub refresh_rate: u32,
    /// Color depth in bits.
    pub color_depth: u8,
}

impl Default for DisplayInfo {
    /// A full-HD primary display.
    fn default() -> (d: DisplayInfo)
        ensures
            d.index == 0,
            d.name@ == "Primary Display"@,
            d.width == 1920,
            d.height == 1080,
            d.x == 0 && d.y == 0,
            d.scale_factor_percent == 100,
            d.is_primary,
            d.refresh_rate == 60,
            d.color_depth == 32,
    {
        DisplayInfo {
            index: 0,
            name: "Primary Display".to_owned(),
            width: 1920,
            height: 1080,
            x: 0,
            y: 0,
            scale_factor_percent: 100,
            is_primary: true,
            refresh_rate: 60,
            color_depth: 32,
        }
    }
}

impl DisplayInfo {
    /// Get the total pixel count.
    pub fn pixel_count(&self) -> (n: u32)
        requires
            self.width * self.height <= u32::MAX,
        ensures
            n == self.width * self.height,
    {
        self.width * self.height
    }

    /// Get the display bounds as a rectangle.
    pub fn bounds(&self) -> (r: Rectangle)
        ensures
            r == (Rectangle { x: self.x, y: self.y, width: self.width, height: self.height }),
    {
        Rectangle { x: self.x, y: self.y, width: self.width, height: self.height }
    }
}

/// Pixel format for raw image data, 8 bits per channel.
#[derive(Clone, Copy, Debug, PartialEq, Eq, Structural)]
pub enum PixelFormat {
    /// Red, green, blue, alpha.
    RGBA8,
    /// Blue, green, red, alpha.
    BGRA8,
    /// Red, green, blue.
    RGB8,
    /// Blue, green, red.
    BGR8,
    /// Grayscale.
    Gray8,
    /// Grayscale with alpha.
    GrayA8,
}

impl PixelFormat {
    /// Number of bytes per pixel in spec form.
    pub open spec fn bytes_per_pixel_spec(self) -> int {
        match self {
            PixelFormat::RGBA8 | PixelFormat::BGRA8 => 4,
            PixelFormat::RGB8 | PixelFormat::BGR8 => 3,
            PixelFormat::GrayA8 => 2,
            PixelFormat::Gray8 => 1,
        }
    }

    /// Get the number of bytes per pixel.
    pub fn bytes_per_pixel(&self) -> (n: usize)
        ensures
            n == self.bytes_per_pixel_spec(),
            1 <= n <= 4,
    {
        match self {
            PixelFormat::RGBA8 | PixelFormat::BGRA8 => 4,
            PixelFormat::RGB8 | PixelFormat::BGR8 => 3,
            PixelFormat::GrayA8 => 2,
            PixelFormat::Gray8 => 1,
        }
    }

    /// Check if the format has an alpha channel.
    pub fn has_alpha(&self) -> (b: bool)
        ensures
            b == (self is RGBA8 || self is BGRA8 || self is GrayA8),
    {
        matches!(self, PixelFormat::RGBA8 | PixelFormat::BGRA8 | PixelFormat::GrayA8)
    }

    /// Get the number of color channels (equal to the bytes per pixel for
    /// these 8-bit formats).
    pub fn channel_count(&self) -> (n: usize)
        ensures
            n == self.bytes_per_pixel_spec(),
    {
        match self {
            PixelFormat::RGBA8 | PixelFormat::BGRA8 => 4,
            PixelFormat::RGB8 | PixelFormat::BGR8 => 3,
            PixelFormat::GrayA8 => 2,
            PixelFormat::Gray8 => 1,
        }
    }
}

/// Raw image data container.
#[derive(Debug, Clone)]
pub struct RawImage {
    /// Pixel data.
    pub data: Vec<u8>,
    /// Image width in pixels.
    pub width: u32,
    /// Image height in pixels.
    pub height: u32,
    /// Pixel format.
    pub format: PixelFormat,
    /// Stride (bytes per row, may include padding).
    pub stride: usize,
}

impl RawImage {
    /// Byte offset of the pixel at the given coordinates.
    pub open spec fn pixel_offset(self, x: u32, y: u32) -> int {
        y * self.stride + x * self.format.bytes_per_pixel_spec()
    }

    /// Create a new image whose stride is exactly one packed row.
    pub fn new(data: Vec<u8>, width: u32, height: u32, format: PixelFormat) -> (img: RawImage)
        requires
            width * format.bytes_per_pixel_spec() <= usize::MAX,
        ensures
            img.data == data,
            img.width == width,
            img.height == height,
            img.format == format,
            img.stride == width * format.bytes_per_pixel_spec(),
    {
        let stride: usize = (width as usize) * format.bytes_per_pixel();
        RawImage { data, width, height, format, stride }
    }

    /// Create a new image with a custom stride.
    pub fn with_stride(
        data: Vec<u8>,
        width: u32,
        height: u32,
        format: PixelFormat,
        stride: usize,
    ) -> (img: RawImage)
        ensures
            img == (RawImage { data, width, height, format, stride }),
    {
        RawImage { data, width, height, format, stride }
    }

    /// Get the total size in bytes.
    pub fn size(&self) -> (n: usize)
        ensures
            n == self.data@.len(),
    {
        self.data.len()
    }

    /// Get the pixel count.
    pub fn pixel_count(&self) -> (n: usize)
        requires
            self.width * self.height <= usize::MAX,
        ensures
            n == self.width * self.height,
    {
        (self.width as usize) * (self.height as usize)
    }

    /// Check that the buffer holds at least `height` full rows.
    pub fn is_valid(&self) -> (b: bool)
        ensures
            b == (self.data@.len() >= self.stride * self.height),
    {
        let len: usize = self.data.len();
        match self.stride.checked_mul(self.height as usize) {
            Some(expected) => len >= expected,
            None => false,
        }
    }

    /// Get a copy of the pixel at the given coordinates, or `None` when the
    /// coordinates or the backing buffer do not cover it.
    pub fn get_pixel(&self, x: u32, y: u32) -> (r: Option<Vec<u8>>)
        ensures
            match r {
                Some(p) => {
                    &&& x < self.width
                    &&& y < self.height
                    &&& self.pixel_offset(x, y) + self.format.bytes_per_pixel_spec()
                        <= self.data@.len()
                    &&& p@ == self.data@.subrange(
                        self.pixel_offset(x, y),
                        self.pixel_offset(x, y) + self.format.bytes_per_pixel_spec(),
                    )
                },
                None => {
                    ||| x >= self.width
                    ||| y >= self.height
                    ||| self.pixel_offset(x, y) + self.format.bytes_per_pixel_spec()
                        > self.data@.len()
                },
            },
    {
        if x >= self.width || y >= self.height {
            return None;
        }
        let len: usize = self.data.len();
        let bpp: usize = self.format.bytes_per_pixel();
        let row_start: usize = match (y as usize).checked_mul(self.stride) {
            Some(v) => v,
            None => {
                return None;
            },
        };
        let col: usize = match (x as usize).checked_mul(bpp) {
            Some(v) => v,
            None => {
                return None;
            },
        };
        let offset: usize = match row_start.checked_add(col) {
            Some(v) => v,
            None => {
                return None;
            },
        };
        let end: usize = match offset.checked_add(bpp) {
            Some(v) => v,
            None => {
                return None;
            },
        };
        if end > len {
            return None;
        }
        let mut p: Vec<u8> = Vec::new();
        let mut i: usize = 0;
        while i < bpp
            invariant
                i <= bpp,
                bpp == self.format.bytes_per_pixel_spec(),
                offset == self.pixel_offset(x, y),
                len == self.data@.len(),
                offset + bpp <= len,
                p@ == self.data@.subrange(offset as int, offset + i),
            decreases bpp - i,
        {
            p.push(self.data[offset + i]);
            i = i + 1;
            proof {
                assert(p@ =~= self.data@.subrange(offset as int, offset + i));
            }
        }
        proof {
            assert(p@ =~= self.data@.subrange(
                self.pixel_offset(x, y),
                self.pixel_offset(x, y) + self.format.bytes_per_pixel_spec(),
            ));
        }
        Some(p)
    }
}

/// WebP encoding configuration.
#[derive(Debug, Clone, Copy)]
pub struct WebPConfig {
    /// Quality factor (0-100, where 100 is best quality).
    pub quality: u8,
    /// Compression method (0-6, where 0 is fastest, 6 is best compression).
    pub method: u8,
    /// Enable lossless compression.
    pub lossless: bool,
    /// Near-lossless encoding quality (0-100, only with lossless).
    pub near_lossless: u8,
    /// Number of segments (1-4).
    pub segments: u8,
    /// Spatial noise shaping strength (0-100).
    pub sns_strength: u8,
    /// Filter strength (0-100).
    pub filter_strength: u8,
    /// Filter sharpness (0-7).
    pub filter_sharpness: u8,
    /// Enable auto-filter.
    pub auto_filter: bool,
    /// Alpha channel compression.
    pub alpha_compression: bool,
    /// Alpha filtering level (0-2).
    pub alpha_filtering: u8,
    /// Alpha quality (0-100).
    pub alpha_quality: u8,
    /// Number of entropy-analysis passes (1-10).
    pub pass: u8,
    /// Thread count (0 = auto-detect).
    pub thread_count: usize,
    /// Enable low memory mode.
    pub low_memory: bool,
    /// Preserve RGB values under transparency.
    pub exact: bool,
}

impl WebPConfig {
    /// The default configuration.
    pub open spec fn spec_default() -> WebPConfig {
        WebPConfig {
            quality: 80,
            method: 4,
            lossless: false,
            near_lossless: 100,
            segments: 4,
            sns_strength: 50,
            filter_strength: 60,
            filter_sharpness: 0,
            auto_filter: false,
            alpha_compression: true,
            alpha_filtering: 1,
            alpha_quality: 100,
            pass: 1,
            thread_count: 0,
            low_memory: false,
            exact: false,
        }
    }

    /// Whether every field is inside its documented range.
    pub open spec fn valid_spec(self) -> bool {
        &&& self.quality <= 100
        &&& self.method <= 6
        &&& 1 <= self.segments <= 4
        &&& self.filter_sharpness <= 7
        &&& self.alpha_filtering <= 2
        &&& 1 <= self.pass <= 10
    }

    /// Create a high-quality preset.
    pub fn high_quality() -> (c: WebPConfig)
        ensures
            c == (WebPConfig { quality: 95, method: 6, pass: 10, ..Self::spec_default() }),
    {
        let mut c = WebPConfig::default();
        c.quality = 95;
        c.method = 6;
        c.pass = 10;
        c
    }

    /// Create a fast encoding preset.
    pub fn fast() -> (c: WebPConfig)
        ensures
            c == (WebPConfig { quality: 75, method: 0, pass: 1, ..Self::spec_default() }),
    {
        let mut c = WebPConfig::default();
        c.quality = 75;
        c.method = 0;
        c.pass = 1;
        c
    }

    /// Create a lossless encoding preset.
    pub fn lossless() -> (c: WebPConfig)
        ensures
            c == (WebPConfig { lossless: true, quality: 100, method: 6, ..Self::spec_default() }),
    {
        let mut c = WebPConfig::default();
        c.lossless = true;
        c.quality = 100;
        c.method = 6;
        c
    }

    /// Create a balanced preset (good quality/speed tradeoff).
    pub fn balanced() -> (c: WebPConfig)
        ensures
            c == (WebPConfig { quality: 85, method: 4, pass: 6, ..Self::spec_default() }),
    {
        let mut c = WebPConfig::default();
        c.quality = 85;
        c.method = 4;
        c.pass = 6;
        c
    }

    /// The message for the first field that is out of range (meaningful only
    /// when the configuration is invalid).
    pub open spec fn validate_error_spec(self) -> Seq<char> {
        if self.quality > 100 {
            "Quality must be 0-100, got "@ + dec_seq(self.quality as int)
        } else if self.method > 6 {
            "Method must be 0-6, got "@ + dec_seq(self.method as int)
        } else if self.segments < 1 || self.segments > 4 {
            "Segments must be 1-4, got "@ + dec_seq(self.segments as int)
        } else if self.filter_sharpness > 7 {
            "Filter sharpness must be 0-7, got "@ + dec_seq(self.filter_sharpness as int)
        } else if self.alpha_filtering > 2 {
            "Alpha filtering must be 0-2, got "@ + dec_seq(self.alpha_filtering as int)
        } else {
            "Pass must be 1-10, got "@ + dec_seq(self.pass as int)
        }
    }

    /// Validate the configuration: `Ok` exactly when every field is in range,
    /// and otherwise the message for the first field that is out of range.
    pub fn validate(&self) -> (r: Result<(), String>)
        ensures
            r is Ok <==> self.valid_spec(),
            r matches Err(msg) ==> msg@ == self.validate_error_spec(),
    {
        if self.quality > 100 {
            let digits = u64_to_string(self.quality as u64);
            return Err(join2("Quality must be 0-100, got ", digits.as_str()));
        }
        if self.method > 6 {
            let digits = u64_to_string(self.method as u64);
            return Err(join2("Method must be 0-6, got ", digits.as_str()));
        }
        if self.segments < 1 || self.segments > 4 {
            let digits = u64_to_string(self.segments as u64);
            return Err(join2("Segments must be 1-4, got ", digits.as_str()));
        }
        if self.filter_sharpness > 7 {
            let digits = u64_to_string(self.filter_sharpness as u64);
            return Err(join2("Filter sharpness must be 0-7, got ", digits.as_str()));
        }
        if self.alpha_filtering > 2 {
            let digits = u64_to_string(self.alpha_filtering as u64);
            return Err(join2("Alpha filtering must be 0-2, got ", digits.as_str()));
        }
        if self.pass < 1 || self.pass > 10 {
            let digits = u64_to_string(self.pass as u64);
            return Err(join2("Pass must be 1-10, got ", digits.as_str()));
        }
        Ok(())
    }
}

impl Default for WebPConfig {
    /// The default configuration: quality 80, method 4, one pass.
    fn default() -> (c: WebPConfig)
        ensures
            c == Self::spec_default(),
    {
        WebPConfig {
            quality: 80,
            method: 4,
            lossless: false,
            near_lossless: 100,
            segments: 4,
            sns_strength: 50,
            filter_strength: 60,
            filter_sharpness: 0,
            auto_filter: false,
            alpha_compression: true,
            alpha_filtering: 1,
            alpha_quality: 100,
            pass: 1,
            thread_count: 0,
            low_memory: false,
            exact: false,
        }
    }
}

/// Capture configuration. Durations are in milliseconds.
#[derive(Debug, Clone)]
pub struct CaptureConfig {
    /// WebP encoding configuration.
    pub webp_config: WebPConfig,
    /// Include cursor in capture.
    pub include_cursor: bool,
    /// Capture region (`None` for full display).
    pub region: Option<CaptureRegion>,
    /// Enable hardware acceleration if available.
    pub use_hardware_acceleration: bool,
    /// Maximum capture retries.
    pub max_retries: u32,
    /// Retry delay in milliseconds.
    pub retry_delay_ms: u64,
    /// Capture timeout in milliseconds.
    pub timeout_ms: u64,
}

impl Default for CaptureConfig {
    /// Defaults: no cursor, full display, three retries.
    fn default() -> (c: CaptureConfig)
        ensures
            c.webp_config == WebPConfig::spec_default(),
            !c.include_cursor,
            c.region is None,
            c.use_hardware_acceleration,
            c.max_retries == 3,
            c.retry_delay_ms == 100,
            c.timeout_ms == 5000,
    {
        CaptureConfig {
            webp_config: WebPConfig::default(),
            include_cursor: false,
            region: None,
            use_hardware_acceleration: true,
            max_retries: 3,
            retry_delay_ms: 100,
            timeout_ms: 5000,
        }
    }
}

/// Capture region specification.
#[derive(Debug, Clone, Copy, PartialEq, Eq, Structural)]
pub struct CaptureRegion {
    pub x: i32,
    pub y: i32,
    pub width: u32,
    pub height: u32,
}

impl CaptureRegion {
    /// Create a region from its coordinates.
    pub fn new(x: i32, y: i32, width: u32, height: u32) -> (r: CaptureRegion)
        ensures
            r == (CaptureRegion { x, y, width, height }),
    {
        CaptureRegion { x, y, width, height }
    }

    /// Create a region covering a rectangle.
    pub fn from_rect(rect: Rectangle) -> (r: CaptureRegion)
        ensures
            r == (CaptureRegion { x: rect.x, y: rect.y, width: rect.width, height: rect.height }),
    {
        CaptureRegion { x: rect.x, y: rect.y, width: rect.width, height: rect.height }
    }
}

/// Rectangle structure.
#[derive(Debug, Clone, Copy, PartialEq, Eq, Structural)]
pub struct Rectangle {
    pub x: i32,
    pub y: i32,
    pub width: u32,
    pub height: u32,
}

impl Rectangle {
    /// Create a rectangle from its coordinates.
    pub fn new(x: i32, y: i32, width: u32, height: u32) -> (r: Rectangle)
        ensures
            r == (Rectangle { x, y, width, height }),
    {
        Rectangle { x, y, width, height }
    }

    /// Whether the point lies inside the rectangle.
    pub fn contains_point(&self, px: i32, py: i32) -> (b: bool)
        ensures
            b == (px >= self.x && py >= self.y && px < self.x + self.width && py < self.y
                + self.height),
    {
        (px as i64) >= (self.x as i64) && (py as i64) >= (self.y as i64) && (px as i64) < (self.x
            as i64) + (self.width as i64) && (py as i64) < (self.y as i64) + (self.height as i64)
    }

    /// The area in pixels.
    pub fn area(&self) -> (a: u32)
        requires
            self.width * self.height <= u32::MAX,
        ensures
            a == self.width * self.height,
    {
        self.width * self.height
    }
}

/// Screenshot result with metadata.
#[derive(Debug, Clone)]
pub struct Screenshot {
    /// Encoded image data.
    pub data: Vec<u8>,
    /// Image width.
    pub width: u32,
    /// Image height.
    pub height: u32,
    /// Display index this was captured from.
    pub display_index: usize,
    /// Capture metadata.
    pub metadata: CaptureMetadata,
}

impl Screenshot {
    /// Get the size of the encoded data.
    pub fn size(&self) -> (n: usize)
        ensures
            n == self.data@.len(),
    {
        self.data.len()
    }
}

/// Capture metadata. Times are in milliseconds.
#[derive(Debug, Clone)]
pub struct CaptureMetadata {
    /// Timestamp of capture, milliseconds since an arbitrary origin.
    pub timestamp_ms: u64,
    /// Time taken to capture, in milliseconds.
    pub capture_duration_ms: u64,
    /// Time taken to encode, in milliseconds.
    pub encoding_duration_ms: u64,
    /// Original uncompressed size.
    pub original_size: usize,
    /// Compressed size.
    pub compressed_size: usize,
    /// Implementation used.
    pub implementation: String,
}

impl CaptureMetadata {
    /// Get the total processing time in milliseconds (saturating).
    pub fn total_duration(&self) -> (t: u64)
        ensures
            t == if self.capture_duration_ms + self.encoding_duration_ms <= u64::MAX {
                self.capture_duration_ms + self.encoding_duration_ms
            } else {
                u64::MAX as int
            },
    {
        self.capture_duration_ms.saturating_add(self.encoding_duration_ms)
    }
}

/// Performance statistics. Times are in milliseconds.
#[derive(Debug, Clone)]
pub struct PerformanceStats {
    pub total_captures: u64,
    pub successful_captures: u64,
    pub failed_captures: u64,
    pub total_bytes_captured: u64,
    pub total_bytes_encoded: u64,
    pub total_capture_time_ms: u64,
    pub total_encoding_time_ms: u64,
    pub fastest_capture_ms: u64,
    pub slowest_capture_ms: u64,
}

impl PerformanceStats {
    /// The all-zero statistics record.
    pub open spec fn spec_default() -> PerformanceStats {
        PerformanceStats {
            total_captures: 0,
            successful_captures: 0,
            failed_captures: 0,
            total_bytes_captured: 0,
            total_bytes_encoded: 0,
            total_capture_time_ms: 0,
            total_encoding_time_ms: 0,
            fastest_capture_ms: 0,
            slowest_capture_ms: 0,
        }
    }

    /// Get the average capture time in milliseconds over the successful
    /// captures, or 0 when there were none.
    pub fn average_capture_time(&self) -> (t: u64)
        ensures
            t == if self.successful_captures == 0 {
                0int
            } else {
                self.total_capture_time_ms as int / self.successful_captures as int
            },
    {
        if self.successful_captures == 0 {
            0
        } else {
            self.total_capture_time_ms / self.successful_captures
        }
    }
}

impl Default for PerformanceStats {
    /// All counters start at zero.
    fn default() -> (s: PerformanceStats)
        ensures
            s == Self::spec_default(),
    {
        PerformanceStats {
            total_captures: 0,
            successful_captures: 0,
            failed_captures: 0,
            total_bytes_captured: 0,
            total_bytes_encoded: 0,
            total_capture_time_ms: 0,
            total_encoding_time_ms: 0,
            fastest_capture_ms: 0,
            slowest_capture_ms: 0,
        }
    }
}

} // verus!
