//! Tests for the streaming pipeline: configuration, the start/stop state
//! machine, adaptive quality, frame dropping, and an end-to-end drive of the
//! stage step functions.

use webp_screenshot::{
    CaptureCapabilities, CaptureError, CaptureRegion, CaptureResult, DisplayInfo, EncodingError,
    EncodingResult, ImageEncoder, PixelFormat, RawImage, ScreenCapture, StreamingPipeline,
    StreamingPipelineBuilder, WebPConfig,
};

struct FixedImageCapture {
    width: u32,
    height: u32,
}

impl ScreenCapture for FixedImageCapture {
    fn get_displays(&self) -> CaptureResult<Vec<DisplayInfo>> {
        Ok(vec![DisplayInfo::default()])
    }

    fn capture_display(&self, _display_index: usize) -> CaptureResult<RawImage> {
        let size = (self.width * self.height * 4) as usize;
        Ok(RawImage::new(vec![0x7Fu8; size], self.width, self.height, PixelFormat::RGBA8))
    }

    fn capture_region(&self, _region: CaptureRegion) -> CaptureResult<RawImage> {
        Err(CaptureError::CaptureFailed("no region support".to_string()))
    }

    fn implementation_name(&self) -> String {
        "fixed-image-stub".to_string()
    }

    fn is_hardware_accelerated(&self) -> bool {
        false
    }

    fn is_available(&self) -> bool {
        true
    }

    fn capabilities(&self) -> CaptureCapabilities {
        CaptureCapabilities::default()
    }
}

struct FailingCapture;

impl ScreenCapture for FailingCapture {
    fn get_displays(&self) -> CaptureResult<Vec<DisplayInfo>> {
        Err(CaptureError::DisplayEnumerationFailed("none".to_string()))
    }

    fn capture_display(&self, _display_index: usize) -> CaptureResult<RawImage> {
        Err(CaptureError::CaptureFailed("always fails".to_string()))
    }

    fn capture_region(&self, _region: CaptureRegion) -> CaptureResult<RawImage> {
        Err(CaptureError::CaptureFailed("always fails".to_string()))
    }

    fn implementation_name(&self) -> String {
        "failing-stub".to_string()
    }

    fn is_hardware_accelerated(&self) -> bool {
        false
    }

    fn is_available(&self) -> bool {
        false
    }

    fn capabilities(&self) -> CaptureCapabilities {
        CaptureCapabilities::default()
    }
}

/// Hands back the first bytes of each frame, uncompressed.
struct PassThroughEncoder;

impl ImageEncoder for PassThroughEncoder {
    fn encode(&mut self, image: &RawImage, config: &WebPConfig) -> EncodingResult<Vec<u8>> {
        if config.validate().is_err() {
            return Err(EncodingError::InvalidConfiguration("bad config".to_string()));
        }
        let take = image.data.len().min(16);
        Ok(image.data[..take].to_vec())
    }

    fn name(&self) -> String {
        "pass-through-stub".to_string()
    }

    fn supports_format(&self, format: PixelFormat) -> bool {
        matches!(format, PixelFormat::RGBA8 | PixelFormat::RGB8)
    }
}

#[test]
fn test_pipeline_builder() {
    let pipeline = StreamingPipelineBuilder::new()
        .target_fps(60)
        .buffer_size(120)
        .capture_threads(2)
        .encoding_threads(4)
        .adaptive_quality(true)
        .build(FixedImageCapture { width: 64, height: 64 });

    assert_eq!(pipeline.config().target_fps, 60);
    assert_eq!(pipeline.config().buffer_size, 120);
}

#[test]
fn test_quality_adjustment() {
    let config = WebPConfig {
        quality: 80,
        method: 4,
        ..Default::default()
    };

    // Test quality reduction.
    let adjusted =
        StreamingPipeline::<FixedImageCapture>::adjust_quality(config.clone(), 25, 40);
    assert!(adjusted.quality < config.quality);

    // Test quality increase.
    let adjusted =
        StreamingPipeline::<FixedImageCapture>::adjust_quality(config.clone(), 5, 5);
    assert!(adjusted.quality > config.quality);
}

#[test]
fn test_quality_adjustment_exact_bounds() {
    // quality 80, a 25 ms capture and a backlog of 40: quality drops to 75
    // and the method steps down by one.
    let config = WebPConfig {
        quality: 80,
        method: 4,
        ..Default::default()
    };
    let adjusted = StreamingPipeline::<FixedImageCapture>::adjust_quality(config, 25, 40);
    assert_eq!(adjusted.quality, 75);
    assert_eq!(adjusted.method, 3);

    // The floors hold.
    let low = WebPConfig {
        quality: 60,
        method: 0,
        ..Default::default()
    };
    let adjusted = StreamingPipeline::<FixedImageCapture>::adjust_quality(low, 25, 40);
    assert_eq!(adjusted.quality, 60);
    assert_eq!(adjusted.method, 0);

    // The ceilings hold.
    let high = WebPConfig {
        quality: 90,
        method: 4,
        ..Default::default()
    };
    let adjusted = StreamingPipeline::<FixedImageCapture>::adjust_quality(high, 5, 5);
    assert_eq!(adjusted.quality, 90);
    assert_eq!(adjusted.method, 4);

    // The steady band holds the configuration.
    let mid = WebPConfig {
        quality: 80,
        method: 2,
        ..Default::default()
    };
    let adjusted = StreamingPipeline::<FixedImageCapture>::adjust_quality(mid, 15, 20);
    assert_eq!(adjusted.quality, 80);
    assert_eq!(adjusted.method, 2);
}

#[test]
fn test_pipeline_double_start_errors() {
    // `start` on an already-running pipeline fails and leaves the run alone.
    let mut pipeline = StreamingPipelineBuilder::new()
        .build(FixedImageCapture { width: 64, height: 64 });
    assert!(!pipeline.is_running());

    assert!(pipeline.start().is_ok());
    assert!(pipeline.is_running());

    let second = pipeline.start();
    assert!(second.is_err());
    assert_eq!(
        second.err().unwrap().message(),
        "Capture failed: Pipeline already running"
    );
    // The first run is unaffected.
    assert!(pipeline.is_running());

    pipeline.stop();
    assert!(!pipeline.is_running());
    assert!(pipeline.start().is_ok());
}

#[test]
fn test_pipeline_end_to_end_fixed_frames() {
    // A stub capturer returns a fixed 64x64 RGBA image instantly; at a
    // 10 fps target over a 500 ms window the pacing yields 5 ticks, and the
    // callback sees one non-empty payload per tick.
    let mut pipeline = StreamingPipelineBuilder::new()
        .target_fps(10)
        .use_zero_copy(false)
        .adaptive_quality(false)
        .build(FixedImageCapture { width: 64, height: 64 });
    let mut encoder = PassThroughEncoder;

    assert!(pipeline.start().is_ok());
    let interval_us = webp_screenshot::streaming::frame_interval_micros(10);
    assert_eq!(interval_us, 100000);
    let ticks = (500000 / interval_us) as usize;
    assert_eq!(ticks, 5);

    let mut delivered: Vec<Vec<u8>> = Vec::new();
    let mut config = WebPConfig::default();
    for _tick in 0..ticks {
        let frame = pipeline.capture_tick(0).expect("stub capture succeeds");
        let (encoded, next_config) = pipeline.encode_tick(&mut encoder, &frame, 0, config);
        config = next_config;
        if let Some(payload) = encoded {
            delivered.push(payload);
        }
    }
    pipeline.stop();

    assert_eq!(delivered.len(), 5);
    for payload in &delivered {
        assert!(!payload.is_empty());
    }
    let stats = pipeline.stats();
    assert_eq!(stats.frames_captured, 5);
    assert_eq!(stats.frames_encoded, 5);
    assert_eq!(stats.frames_dropped, 0);
    assert!(stats.bytes_encoded > 0);
}

#[test]
fn test_pipeline_frame_ids_are_sequential() {
    let mut pipeline = StreamingPipelineBuilder::new()
        .use_zero_copy(false)
        .build(FixedImageCapture { width: 2, height: 2 });
    let first = pipeline.capture_tick(0).unwrap();
    let second = pipeline.capture_tick(0).unwrap();
    let third = pipeline.capture_tick(0).unwrap();
    assert_eq!(first.id, 0);
    assert_eq!(second.id, 1);
    assert_eq!(third.id, 2);
}

#[test]
fn test_pipeline_failed_capture_skips_tick() {
    let mut pipeline = StreamingPipelineBuilder::new()
        .use_zero_copy(false)
        .build(FailingCapture);
    assert!(pipeline.capture_tick(0).is_none());
    assert_eq!(pipeline.stats().frames_captured, 0);
}

#[test]
fn test_pipeline_drops_frames_under_backlog() {
    let mut pipeline = StreamingPipelineBuilder::new()
        .use_zero_copy(false)
        .allow_frame_drop(true)
        .build(FixedImageCapture { width: 2, height: 2 });
    let mut encoder = PassThroughEncoder;
    let frame = pipeline.capture_tick(0).unwrap();

    // Backlog deeper than 10 queued frames: discard without encoding.
    let (encoded, _) = pipeline.encode_tick(&mut encoder, &frame, 11, WebPConfig::default());
    assert!(encoded.is_none());
    assert_eq!(pipeline.stats().frames_dropped, 1);
    assert_eq!(pipeline.stats().frames_encoded, 0);

    // At the threshold the frame is still encoded.
    let (encoded, _) = pipeline.encode_tick(&mut encoder, &frame, 10, WebPConfig::default());
    assert!(encoded.is_some());
    assert_eq!(pipeline.stats().frames_encoded, 1);
}

#[test]
fn test_pipeline_swallows_encode_failures() {
    let mut pipeline = StreamingPipelineBuilder::new()
        .use_zero_copy(false)
        .adaptive_quality(false)
        .build(FixedImageCapture { width: 2, height: 2 });
    let mut encoder = PassThroughEncoder;
    let frame = pipeline.capture_tick(0).unwrap();

    let bad_config = WebPConfig {
        quality: 101,
        ..Default::default()
    };
    let (encoded, _) = pipeline.encode_tick(&mut encoder, &frame, 0, bad_config);
    assert!(encoded.is_none());
    // The failure is absorbed: nothing counted, nothing propagated.
    assert_eq!(pipeline.stats().frames_encoded, 0);
    assert_eq!(pipeline.stats().frames_dropped, 0);
}

#[test]
fn test_pipeline_update_rates() {
    let mut pipeline = StreamingPipelineBuilder::new()
        .use_zero_copy(false)
        .build(FixedImageCapture { width: 2, height: 2 });
    pipeline.update_rates(30, 4000, 1000);
    let stats = pipeline.stats();
    assert_eq!(stats.current_fps, 30);
    assert_eq!(stats.current_bitrate, 32000);
}

#[test]
fn test_streaming_defaults() {
    let config = webp_screenshot::StreamingConfig::default();
    assert_eq!(config.target_fps, 30);
    assert_eq!(config.buffer_size, 60);
    assert_eq!(config.capture_threads, 1);
    // Half the CPU count, but never fewer than two encoder threads.
    assert!(config.encoding_threads >= 2);
    assert!(config.adaptive_quality);
    assert!(config.allow_frame_drop);
    assert_eq!(config.webp_config.quality, 75); // the fast preset
    assert!(config.use_zero_copy);
    assert!(!config.use_gpu);
}

#[test]
fn test_pacing_helpers() {
    assert_eq!(webp_screenshot::streaming::frame_interval_micros(30), 33333);
    assert_eq!(webp_screenshot::streaming::next_deadline_micros(100, 33333), 33433);
}
