//! Zero-copy capture optimizer: a best-effort shortcut around the normal
//! capture path, with a guaranteed fallback to the capture capability.
//!
//! The platform mapping paths (DIB sections, shared-memory segments,
//! IOSurface) are unsafe platform code outside the verified core, so the
//! attempt here always reports that no mapping path is linked in; the
//! accounting is verified for every outcome of the attempt, and the fallback
//! is unconditional: the optimizer never fails where the capability would
//! succeed.

use vstd::prelude::*;

verus! {

use crate::capture::ScreenCapture;
use crate::clock::{instant_now, millis_since};
use crate::encoder::ImageEncoder;
use crate::error::{CaptureError, CaptureResult, EncodingResult};
use crate::memory_pool::{sat_u64, sat_usize};
use crate::types::{RawImage, WebPConfig};

/// Statistics for zero-copy operations. A failed attempt counts both as a
/// failed attempt and as a traditional capture, so the sum of zero-copy and
/// traditional captures is not the number of calls.
#[derive(Debug, Clone, Copy)]
pub struct ZeroCopyStats {
    /// Captures served by a platform mapping path.
    pub zero_copy_captures: u64,
    /// Captures served by the capture capability.
    pub traditional_captures: u64,
    /// Estimated bytes saved (one avoided frame copy per zero-copy capture).
    pub memory_saved_bytes: u64,
    /// Estimated milliseconds saved.
    pub time_saved_ms: u64,
    /// Platform-path attempts that failed and fell back.
    pub failed_attempts: u64,
}

impl ZeroCopyStats {
    /// The all-zero statistics record.
    pub open spec fn spec_default() -> ZeroCopyStats {
        ZeroCopyStats {
            zero_copy_captures: 0,
            traditional_captures: 0,
            memory_saved_bytes: 0,
            time_saved_ms: 0,
            failed_attempts: 0,
        }
    }

    /// Get the average estimated memory saved per zero-copy capture, or 0
    /// when there was none.
    pub fn avg_memory_saved(&self) -> (r: usize)
        ensures
            r == if self.zero_copy_captures == 0 {
                0int
            } else {
                sat_usize(self.memory_saved_bytes as int / self.zero_copy_captures as int)
            },
    {
        if self.zero_copy_captures == 0 {
            0
        } else {
            let per_capture: u64 = self.memory_saved_bytes / self.zero_copy_captures;
            if per_capture > usize::MAX as u64 {
                usize::MAX
            } else {
                per_capture as usize
            }
        }
    }
}

impl Default for ZeroCopyStats {
    /// All counters start at zero.
    fn default() -> (s: ZeroCopyStats)
        ensures
            s == Self::spec_default(),
    {
        ZeroCopyStats {
            zero_copy_captures: 0,
            traditional_captures: 0,
            memory_saved_bytes: 0,
            time_saved_ms: 0,
            failed_attempts: 0,
        }
    }
}

/// Zero-copy optimizer for efficient capture and encoding.
pub struct ZeroCopyOptimizer {
    stats: ZeroCopyStats,
    enabled: bool,
}

impl ZeroCopyOptimizer {
    /// The current statistics.
    pub closed spec fn spec_stats(self) -> ZeroCopyStats {
        self.stats
    }

    /// Whether the optimizer is switched on.
    pub closed spec fn spec_enabled(self) -> bool {
        self.enabled
    }

    /// Create a new zero-copy optimizer, enabled on supported platforms.
    pub fn new() -> (z: ZeroCopyOptimizer)
        ensures
            z.spec_stats() == ZeroCopyStats::spec_default(),
            z.spec_enabled(),
    {
        ZeroCopyOptimizer { stats: ZeroCopyStats::default(), enabled: Self::is_supported() }
    }

    /// Check if zero-copy capture is supported on this platform. The library
    /// targets the desktop platforms that all have a mapping path, so this
    /// holds.
    pub fn is_supported() -> (b: bool)
        ensures
            b,
    {
        true
    }

    /// Enable or disable the zero-copy optimization.
    pub fn set_enabled(&mut self, enabled: bool)
        ensures
            final(self).spec_enabled() == enabled,
            final(self).spec_stats() == old(self).spec_stats(),
    {
        self.enabled = enabled;
    }

    /// Check if zero-copy capture is enabled.
    pub fn is_enabled(&self) -> (b: bool)
        ensures
            b == self.spec_enabled(),
    {
        self.enabled && Self::is_supported()
    }

    /// The platform-specific mapping attempt. The unsafe platform paths are
    /// not part of the verified core, so no mapping path is linked into this
    /// build and the attempt reports so; callers promise nothing about its
    /// outcome and handle both.
    fn platform_capture(&self, display_index: usize) -> CaptureResult<RawImage> {
        Err(CaptureError::PlatformError("no zero-copy mapping path in this build".to_owned()))
    }

    /// Capture with zero-copy optimization. When the optimizer is off, the
    /// call goes straight to the capability and counts as traditional; when
    /// on, a successful platform attempt is recorded with its estimated
    /// saving, and a failed one counts both a failed attempt and a
    /// traditional fallback capture.
    pub fn capture_zero_copy<C: ScreenCapture>(
        &mut self,
        capturer: &C,
        display_index: usize,
    ) -> (r: CaptureResult<RawImage>)
        ensures
            final(self).spec_enabled() == old(self).spec_enabled(),
            !old(self).spec_enabled() ==> final(self).spec_stats() == (ZeroCopyStats {
                traditional_captures: sat_u64(
                    old(self).spec_stats().traditional_captures + 1,
                ) as u64,
                ..old(self).spec_stats()
            }),
            old(self).spec_enabled() ==> ({
                ||| (r matches Ok(image) && {
                    let s = final(self).spec_stats();
                    let o = old(self).spec_stats();
                    &&& s.zero_copy_captures == sat_u64(o.zero_copy_captures + 1)
                    &&& s.memory_saved_bytes == sat_u64(
                        o.memory_saved_bytes + sat_u64(image.width * image.height * 4),
                    )
                    &&& s.time_saved_ms >= o.time_saved_ms
                    &&& s.traditional_captures == o.traditional_captures
                    &&& s.failed_attempts == o.failed_attempts
                })
                ||| final(self).spec_stats() == (ZeroCopyStats {
                    failed_attempts: sat_u64(old(self).spec_stats().failed_attempts + 1) as u64,
                    traditional_captures: sat_u64(
                        old(self).spec_stats().traditional_captures + 1,
                    ) as u64,
                    ..old(self).spec_stats()
                })
            }),
    {
        if !self.is_enabled() {
            self.stats.traditional_captures = self.stats.traditional_captures.saturating_add(1);
            return capturer.capture_display(display_index);
        }
        let start = instant_now();
        let result = self.platform_capture(display_index);
        match result {
            Ok(image) => {
                let elapsed: u64 = millis_since(&start);
                self.stats.zero_copy_captures = self.stats.zero_copy_captures.saturating_add(1);
                self.stats.time_saved_ms = self.stats.time_saved_ms.saturating_add(elapsed);
                // Estimate the saving as one avoided copy of a full frame.
                proof {
                    assert(image.width * image.height <= u64::MAX) by (nonlinear_arith)
                        requires
                            image.width <= u32::MAX,
                            image.height <= u32::MAX,
                    ;
                }
                let pixels: u64 = (image.width as u64) * (image.height as u64);
                let estimated: u64 = if pixels > u64::MAX / 4 {
                    u64::MAX
                } else {
                    pixels * 4
                };
                self.stats.memory_saved_bytes = self.stats.memory_saved_bytes.saturating_add(
                    estimated,
                );
                Ok(image)
            },
            Err(_) => {
                self.stats.failed_attempts = self.stats.failed_attempts.saturating_add(1);
                self.stats.traditional_captures = self.stats.traditional_captures.saturating_add(
                    1,
                );
                capturer.capture_display(display_index)
            },
        }
    }

    /// Encode with zero-copy optimization. No memory-mapped encoding path is
    /// available, so this delegates to the encoder capability either way.
    pub fn encode_zero_copy<E: ImageEncoder>(
        &self,
        image: &RawImage,
        encoder: &mut E,
        config: &WebPConfig,
    ) -> EncodingResult<Vec<u8>> {
        encoder.encode(image, config)
    }

    /// Get a snapshot of the statistics.
    pub fn stats(&self) -> (s: ZeroCopyStats)
        ensures
            s == self.spec_stats(),
    {
        self.stats
    }

    /// Reset the statistics.
    pub fn reset_stats(&mut self)
        ensures
            final(self).spec_stats() == ZeroCopyStats::spec_default(),
            final(self).spec_enabled() == old(self).spec_enabled(),
    {
        self.stats = ZeroCopyStats::default();
    }
}

impl Default for ZeroCopyOptimizer {
    /// Same as `new`.
    fn default() -> (z: ZeroCopyOptimizer)
        ensures
            z.spec_stats() == ZeroCopyStats::spec_default(),
            z.spec_enabled(),
    {
        ZeroCopyOptimizer::new()
    }
}

} // verus!
