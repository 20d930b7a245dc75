//! Tests for the zero-copy optimizer's accounting.

use std::cell::Cell;

use webp_screenshot::{
    CaptureCapabilities, CaptureError, CaptureRegion, CaptureResult, DisplayInfo, PixelFormat,
    RawImage, ScreenCapture, ZeroCopyOptimizer,
};

struct CountingCapture {
    calls: Cell<u64>,
}

impl CountingCapture {
    fn new() -> CountingCapture {
        CountingCapture { calls: Cell::new(0) }
    }
}

impl ScreenCapture for CountingCapture {
    fn get_displays(&self) -> CaptureResult<Vec<DisplayInfo>> {
        Ok(vec![DisplayInfo::default()])
    }

    fn capture_display(&self, _display_index: usize) -> CaptureResult<RawImage> {
        self.calls.set(self.calls.get() + 1);
        Ok(RawImage::new(vec![0u8; 16], 2, 2, PixelFormat::RGBA8))
    }

    fn capture_region(&self, _region: CaptureRegion) -> CaptureResult<RawImage> {
        Err(CaptureError::CaptureFailed("no region support".to_string()))
    }

    fn implementation_name(&self) -> String {
        "counting-stub".to_string()
    }

    fn is_hardware_accelerated(&self) -> bool {
        false
    }

    fn is_available(&self) -> bool {
        true
    }

    fn capabilities(&self) -> CaptureCapabilities {
        CaptureCapabilities::default()
    }
}

#[test]
fn test_zero_copy_support() {
    let optimizer = ZeroCopyOptimizer::new();
    println!("Zero-copy supported: {}", ZeroCopyOptimizer::is_supported());
    println!("Zero-copy enabled: {}", optimizer.is_enabled());
}

#[test]
fn test_zero_copy_disabled_counts_traditional_only() {
    // With the optimizer disabled, every call increments traditional
    // captures by exactly 1 and never the zero-copy counter.
    let mut optimizer = ZeroCopyOptimizer::new();
    optimizer.set_enabled(false);
    assert!(!optimizer.is_enabled());

    let capturer = CountingCapture::new();
    for call in 1..=5u64 {
        let result = optimizer.capture_zero_copy(&capturer, 0);
        assert!(result.is_ok());
        let stats = optimizer.stats();
        assert_eq!(stats.traditional_captures, call);
        assert_eq!(stats.zero_copy_captures, 0);
        assert_eq!(stats.failed_attempts, 0);
    }
    assert_eq!(capturer.calls.get(), 5);
}

#[test]
fn test_zero_copy_enabled_falls_back() {
    // No platform mapping path is linked into this build, so an enabled
    // attempt records one failed attempt and one traditional capture, and
    // the fallback still succeeds.
    let mut optimizer = ZeroCopyOptimizer::new();
    assert!(optimizer.is_enabled());

    let capturer = CountingCapture::new();
    let result = optimizer.capture_zero_copy(&capturer, 0);
    assert!(result.is_ok());

    let stats = optimizer.stats();
    assert_eq!(stats.failed_attempts, 1);
    assert_eq!(stats.traditional_captures, 1);
    assert_eq!(stats.zero_copy_captures, 0);
    assert_eq!(stats.memory_saved_bytes, 0);
    assert_eq!(capturer.calls.get(), 1);
}

#[test]
fn test_zero_copy_stats_reset_and_average() {
    let mut optimizer = ZeroCopyOptimizer::new();
    let capturer = CountingCapture::new();
    let _ = optimizer.capture_zero_copy(&capturer, 0);
    assert!(optimizer.stats().traditional_captures > 0);

    optimizer.reset_stats();
    let stats = optimizer.stats();
    assert_eq!(stats.traditional_captures, 0);
    assert_eq!(stats.failed_attempts, 0);
    assert_eq!(stats.avg_memory_saved(), 0);
}

#[test]
fn test_zero_copy_set_enabled_round_trip() {
    let mut optimizer = ZeroCopyOptimizer::new();
    optimizer.set_enabled(false);
    assert!(!optimizer.is_enabled());
    optimizer.set_enabled(true);
    assert!(optimizer.is_enabled());
}
