//! Screen-capture core: a size-bucketed buffer pool, verified pixel-format
//! conversion, a zero-copy capture optimizer with guaranteed fallback, and a
//! streaming pipeline with backpressure and adaptive quality control.
//!
//! Platform pixel-grabbing backends and the image codec itself are consumed
//! as capabilities (`ScreenCapture`, `ImageEncoder`) implemented by callers.

pub mod capture;
pub mod clock;
pub mod encoder;
pub mod error;
pub mod gpu;
pub mod memory_pool;
pub mod simd;
pub mod streaming;
pub mod text;
pub mod types;
pub mod zero_copy;

pub use capture::{CaptureCapabilities, Capturer, DefaultPixelConverter, PixelFormatConverter,
    ScreenCapture, SimdPixelConverter};
pub use encoder::ImageEncoder;
pub use error::{CaptureError, CaptureResult, EncodingError, EncodingResult, MemoryPoolError,
    MemoryPoolResult};
pub use memory_pool::{MemoryPool, PoolConfig, PoolStats, PooledBuffer};
pub use simd::SimdConverter;
pub use streaming::{Frame, StreamingConfig, StreamingPipeline, StreamingPipelineBuilder,
    StreamingStats};
pub use types::{CaptureConfig, CaptureMetadata, CaptureRegion, DisplayInfo, PerformanceStats,
    PixelFormat, RawImage, Rectangle, Screenshot, WebPConfig};
pub use zero_copy::{ZeroCopyOptimizer, ZeroCopyStats};

use vstd::prelude::*;

verus! {

use crate::clock::{instant_now, millis_since};
use crate::memory_pool::sat_u64;

/// Main entry point for screenshot capture: a facade around a capture
/// capability, an encoder capability, the buffer pool, and the zero-copy
/// optimizer.
pub struct WebPScreenshot<C: ScreenCapture, E: ImageEncoder> {
    capturer: C,
    encoder: E,
    memory_pool: MemoryPool,
    config: CaptureConfig,
    stats: PerformanceStats,
    zero_copy: Option<ZeroCopyOptimizer>,
    gpu_encoder: Option<gpu::GpuWebPEncoder>,
    origin: std::time::Instant,
}

impl<C: ScreenCapture, E: ImageEncoder> WebPScreenshot<C, E> {
    /// The capture configuration.
    pub closed spec fn spec_config(self) -> CaptureConfig {
        self.config
    }

    /// The performance statistics.
    pub closed spec fn spec_stats(self) -> PerformanceStats {
        self.stats
    }

    /// The zero-copy optimizer, when the platform supports one.
    pub closed spec fn spec_zero_copy(self) -> Option<ZeroCopyOptimizer> {
        self.zero_copy
    }

    /// The buffer pool.
    pub closed spec fn spec_memory_pool(self) -> MemoryPool {
        self.memory_pool
    }

    /// Create a new instance around the two capabilities, with the default
    /// configuration.
    pub fn new(capturer: C, encoder: E) -> (w: WebPScreenshot<C, E>)
        ensures
            w.spec_config().webp_config == WebPConfig::spec_default(),
            w.spec_stats() == PerformanceStats::spec_default(),
            w.spec_zero_copy() is Some,
            w.spec_memory_pool().wf(),
    {
        Self::with_config(capturer, encoder, CaptureConfig::default())
    }

    /// Create a new instance with a custom configuration.
    pub fn with_config(capturer: C, encoder: E, config: CaptureConfig) -> (w: WebPScreenshot<C, E>)
        ensures
            w.spec_config() == config,
            w.spec_stats() == PerformanceStats::spec_default(),
            w.spec_zero_copy() is Some,
            w.spec_memory_pool().wf(),
    {
        let zero_copy: Option<ZeroCopyOptimizer> = if ZeroCopyOptimizer::is_supported() {
            Some(ZeroCopyOptimizer::new())
        } else {
            None
        };
        WebPScreenshot {
            capturer,
            encoder,
            memory_pool: MemoryPool::new(),
            config,
            stats: PerformanceStats::default(),
            zero_copy,
            gpu_encoder: None,
            origin: instant_now(),
        }
    }

    /// Get information about the available displays.
    pub fn get_displays(&self) -> CaptureResult<Vec<DisplayInfo>> {
        self.capturer.get_displays()
    }

    /// Capture a screenshot from a specific display, retrying recoverable
    /// failures up to the configured retry count. Success and failure each
    /// count exactly one capture.
    pub fn capture_display(&mut self, display_index: usize) -> (r: CaptureResult<Screenshot>)
        ensures
            final(self).spec_config() == old(self).spec_config(),
            r is Ok ==> {
                &&& final(self).spec_stats().successful_captures == sat_u64(
                    old(self).spec_stats().successful_captures + 1,
                )
                &&& final(self).spec_stats().failed_captures == old(
                    self,
                ).spec_stats().failed_captures
                &&& final(self).spec_stats().total_captures == sat_u64(
                    old(self).spec_stats().total_captures + 1,
                )
            },
            r is Err ==> {
                &&& final(self).spec_stats().failed_captures == sat_u64(
                    old(self).spec_stats().failed_captures + 1,
                )
                &&& final(self).spec_stats().successful_captures == old(
                    self,
                ).spec_stats().successful_captures
                &&& final(self).spec_stats().total_captures == sat_u64(
                    old(self).spec_stats().total_captures + 1,
                )
            },
    {
        let max_retries: u32 = self.config.max_retries;
        let mut attempt: u32 = 0;
        while attempt <= max_retries
            invariant
                self.config == old(self).config,
                self.stats.successful_captures == old(self).stats.successful_captures,
                self.stats.failed_captures == old(self).stats.failed_captures,
                self.stats.total_captures == old(self).stats.total_captures,
            decreases max_retries - attempt,
        {
            let attempt_result = self.capture_display_internal(display_index);
            match attempt_result {
                Ok(screenshot) => {
                    self.stats.successful_captures = self.stats.successful_captures.saturating_add(
                        1,
                    );
                    self.stats.total_captures = self.stats.total_captures.saturating_add(1);
                    return Ok(screenshot);
                },
                Err(e) => {
                    if e.is_recoverable() && attempt < max_retries {
                        attempt = attempt + 1;
                    } else {
                        self.stats.failed_captures = self.stats.failed_captures.saturating_add(1);
                        self.stats.total_captures = self.stats.total_captures.saturating_add(1);
                        return Err(e);
                    }
                },
            }
        }
        self.stats.failed_captures = self.stats.failed_captures.saturating_add(1);
        self.stats.total_captures = self.stats.total_captures.saturating_add(1);
        Err(CaptureError::CaptureFailed("Max retries exceeded".to_owned()))
    }

    /// One capture and encode attempt: pull a raw image (through the
    /// zero-copy optimizer for full-screen captures when it is enabled),
    /// encode it with the encoder capability, and assemble the screenshot
    /// with its metadata. The attempt counters are managed by the caller.
    fn capture_display_internal(&mut self, display_index: usize) -> (r: CaptureResult<Screenshot>)
        ensures
            final(self).spec_config() == old(self).spec_config(),
            final(self).spec_stats().successful_captures == old(
                self,
            ).spec_stats().successful_captures,
            final(self).spec_stats().failed_captures == old(self).spec_stats().failed_captures,
            final(self).spec_stats().total_captures == old(self).spec_stats().total_captures,
            r matches Ok(s) ==> {
                &&& s.display_index == display_index
                &&& s.metadata.compressed_size == s.data@.len()
            },
    {
        let timestamp_ms: u64 = millis_since(&self.origin);
        let capture_start = instant_now();
        // Zero-copy is for full-screen captures only; a region capture goes
        // through the normal path.
        let use_zero_copy: bool = match &self.zero_copy {
            Some(zc) => zc.is_enabled() && self.config.region.is_none(),
            None => false,
        };
        let raw_result: CaptureResult<RawImage> = if use_zero_copy {
            match &mut self.zero_copy {
                Some(zc) => zc.capture_zero_copy(&self.capturer, display_index),
                None => self.capturer.capture_display(display_index),
            }
        } else {
            self.capture_normal(display_index)
        };
        let raw_image = match raw_result {
            Ok(image) => image,
            Err(e) => {
                return Err(e);
            },
        };
        let capture_duration_ms: u64 = millis_since(&capture_start);
        self.stats.total_bytes_captured = self.stats.total_bytes_captured.saturating_add(
            raw_image.data.len() as u64,
        );
        self.stats.total_capture_time_ms = self.stats.total_capture_time_ms.saturating_add(
            capture_duration_ms,
        );
        let encoding_start = instant_now();
        let encoded = match self.encoder.encode(&raw_image, &self.config.webp_config) {
            Ok(data) => data,
            Err(e) => {
                return Err(CaptureError::from_encoding(&e));
            },
        };
        let encoding_duration_ms: u64 = millis_since(&encoding_start);
        self.stats.total_bytes_encoded = self.stats.total_bytes_encoded.saturating_add(
            encoded.len() as u64,
        );
        self.stats.total_encoding_time_ms = self.stats.total_encoding_time_ms.saturating_add(
            encoding_duration_ms,
        );
        let total_duration_ms: u64 = capture_duration_ms.saturating_add(encoding_duration_ms);
        if self.stats.fastest_capture_ms == 0 || total_duration_ms < self.stats.fastest_capture_ms {
            self.stats.fastest_capture_ms = total_duration_ms;
        }
        if total_duration_ms > self.stats.slowest_capture_ms {
            self.stats.slowest_capture_ms = total_duration_ms;
        }
        let compressed_size: usize = encoded.len();
        let metadata = CaptureMetadata {
            timestamp_ms,
            capture_duration_ms,
            encoding_duration_ms,
            original_size: raw_image.data.len(),
            compressed_size,
            implementation: self.capturer.implementation_name(),
        };
        Ok(
            Screenshot {
                data: encoded,
                width: raw_image.width,
                height: raw_image.height,
                display_index,
                metadata,
            },
        )
    }

    /// Normal capture without zero-copy: the configured region when one is
    /// set, the whole display otherwise.
    fn capture_normal(&self, display_index: usize) -> CaptureResult<RawImage> {
        match self.config.region {
            Some(region) => self.capturer.capture_region(region),
            None => self.capturer.capture_display(display_index),
        }
    }

    /// Capture screenshots from all available displays, one result per
    /// display; a failed enumeration yields that single error.
    pub fn capture_all_displays(&mut self) -> (results: Vec<CaptureResult<Screenshot>>)
        ensures
            final(self).spec_config() == old(self).spec_config(),
    {
        let displays = match self.get_displays() {
            Ok(displays) => displays,
            Err(e) => {
                let mut failed: Vec<CaptureResult<Screenshot>> = Vec::new();
                failed.push(Err(e));
                return failed;
            },
        };
        let count: usize = displays.len();
        let mut results: Vec<CaptureResult<Screenshot>> = Vec::new();
        let mut index: usize = 0;
        while index < count
            invariant
                results@.len() == index,
                index <= count,
                self.config == old(self).config,
            decreases count - index,
        {
            let shot = self.capture_display(index);
            results.push(shot);
            index = index + 1;
        }
        results
    }

    /// Capture with a one-off encoder configuration; the configured one is
    /// restored afterwards.
    pub fn capture_with_config(
        &mut self,
        display_index: usize,
        webp_config: WebPConfig,
    ) -> (r: CaptureResult<Screenshot>)
        ensures
            final(self).spec_config() == old(self).spec_config(),
    {
        let original_config = self.config.webp_config;
        self.config.webp_config = webp_config;
        let result = self.capture_display(display_index);
        self.config.webp_config = original_config;
        result
    }

    /// Create a builder for a streaming pipeline.
    pub fn create_streaming_pipeline(&self) -> (b: StreamingPipelineBuilder)
        ensures
            b.spec_config().target_fps == 30,
    {
        StreamingPipelineBuilder::new()
    }

    /// Set the capture configuration.
    pub fn set_config(&mut self, config: CaptureConfig)
        ensures
            final(self).spec_config() == config,
            final(self).spec_stats() == old(self).spec_stats(),
    {
        self.config = config;
    }

    /// Get the current capture configuration.
    pub fn config(&self) -> (c: &CaptureConfig)
        ensures
            *c == self.spec_config(),
    {
        &self.config
    }

    /// Get the performance statistics.
    pub fn stats(&self) -> (s: &PerformanceStats)
        ensures
            *s == self.spec_stats(),
    {
        &self.stats
    }

    /// Reset the performance statistics.
    pub fn reset_stats(&mut self)
        ensures
            final(self).spec_stats() == PerformanceStats::spec_default(),
            final(self).spec_config() == old(self).spec_config(),
    {
        self.stats = PerformanceStats::default();
    }

    /// Get the memory pool statistics.
    pub fn memory_stats(&self) -> (s: PoolStats)
        ensures
            s.current_memory_usage == self.spec_memory_pool()@.current,
            s.available_buffers == self.spec_memory_pool()@.idle.len(),
    {
        self.memory_pool.stats()
    }

    /// Get the zero-copy statistics, when the optimizer exists.
    pub fn zero_copy_stats(&self) -> (r: Option<ZeroCopyStats>)
        ensures
            match r {
                Some(s) => self.spec_zero_copy() matches Some(zc) && s == zc.spec_stats(),
                None => self.spec_zero_copy() is None,
            },
    {
        match &self.zero_copy {
            Some(zc) => Some(zc.stats()),
            None => None,
        }
    }

    /// Get the capture implementation's name.
    pub fn implementation_name(&self) -> String {
        self.capturer.implementation_name()
    }

    /// Check if the capture implementation is hardware accelerated.
    pub fn is_hardware_accelerated(&self) -> bool {
        self.capturer.is_hardware_accelerated()
    }

    /// Get GPU encoder information; this build initializes no GPU device.
    pub fn gpu_info(&self) -> (r: Option<String>)
        ensures
            r is None,
    {
        match &self.gpu_encoder {
            Some(g) => g.device_info(),
            None => None,
        }
    }
}

/// Convenience function to capture the primary display. Without a platform
/// backend linked into this build, this reports that no display is available.
pub fn capture_primary_display() -> (r: CaptureResult<Screenshot>)
    ensures
        r matches Err(e) && e matches CaptureError::DisplayEnumerationFailed(m) && m@
            == "No display backend available"@,
{
    match Capturer::new() {
        Ok(_) => Err(
            CaptureError::DisplayEnumerationFailed("No display backend available".to_owned()),
        ),
        Err(e) => Err(e),
    }
}

/// Convenience function to capture with a specific quality; same backend
/// situation as `capture_primary_display`.
pub fn capture_with_quality(display_index: usize, quality: u8) -> (r: CaptureResult<Screenshot>)
    ensures
        r matches Err(e) && e matches CaptureError::DisplayEnumerationFailed(m) && m@
            == "No display backend available"@,
{
    match Capturer::new() {
        Ok(_) => Err(
            CaptureError::DisplayEnumerationFailed("No display backend available".to_owned()),
        ),
        Err(e) => Err(e),
    }
}

/// Get the available displays; same backend situation as
/// `capture_primary_display`.
pub fn get_displays() -> (r: CaptureResult<Vec<DisplayInfo>>)
    ensures
        r matches Err(e) && e matches CaptureError::DisplayEnumerationFailed(m) && m@
            == "No display backend available"@,
{
    match Capturer::new() {
        Ok(_) => Err(
            CaptureError::DisplayEnumerationFailed("No display backend available".to_owned()),
        ),
        Err(e) => Err(e),
    }
}

/// Library version string; matches the package version.
pub fn version() -> (v: &'static str)
    ensures
        v@.len() > 0,
{
    proof {
        reveal_strlit("0.1.0");
    }
    "0.1.0"
}

/// Get the library capabilities as a comma-separated summary.
pub fn capabilities() -> (s: String)
    ensures
        s@ == "Zero-Copy"@,
{
    if ZeroCopyOptimizer::is_supported() {
        "Zero-Copy".to_owned()
    } else {
        String::new()
    }
}

} // verus!
