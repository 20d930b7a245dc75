//! Tests for the core data types.

use webp_screenshot::{
    CaptureConfig, CaptureMetadata, CaptureRegion, PerformanceStats, PixelFormat, RawImage,
    Rectangle, WebPConfig,
};

#[test]
fn test_pixel_format_bytes_per_pixel() {
    assert_eq!(PixelFormat::RGBA8.bytes_per_pixel(), 4);
    assert_eq!(PixelFormat::RGB8.bytes_per_pixel(), 3);
    assert_eq!(PixelFormat::Gray8.bytes_per_pixel(), 1);
}

#[test]
fn test_webp_config_validation() {
    let mut config = WebPConfig::default();
    assert!(config.validate().is_ok());

    config.quality = 101;
    assert!(config.validate().is_err());
}

#[test]
fn test_raw_image_pixel_access() {
    let data = vec![255; 1920 * 1080 * 4];
    let image = RawImage::new(data, 1920, 1080, PixelFormat::RGBA8);

    let pixel = image.get_pixel(0, 0).unwrap();
    assert_eq!(pixel, vec![255, 255, 255, 255]);

    assert!(image.get_pixel(1920, 0).is_none());
}

#[test]
fn test_config_creation() {
    let config = CaptureConfig::default();
    assert_eq!(config.webp_config.quality, 80);
    assert!(!config.include_cursor);
}

#[test]
fn test_pixel_format_channels_and_alpha() {
    assert!(PixelFormat::RGBA8.has_alpha());
    assert!(PixelFormat::BGRA8.has_alpha());
    assert!(PixelFormat::GrayA8.has_alpha());
    assert!(!PixelFormat::RGB8.has_alpha());
    assert!(!PixelFormat::BGR8.has_alpha());
    assert!(!PixelFormat::Gray8.has_alpha());
    assert_eq!(PixelFormat::BGRA8.channel_count(), 4);
    assert_eq!(PixelFormat::GrayA8.channel_count(), 2);
}

#[test]
fn test_webp_config_presets() {
    let high = WebPConfig::high_quality();
    assert_eq!(high.quality, 95);
    assert_eq!(high.method, 6);
    assert_eq!(high.pass, 10);

    let fast = WebPConfig::fast();
    assert_eq!(fast.quality, 75);
    assert_eq!(fast.method, 0);
    assert_eq!(fast.pass, 1);

    let lossless = WebPConfig::lossless();
    assert!(lossless.lossless);
    assert_eq!(lossless.quality, 100);

    let balanced = WebPConfig::balanced();
    assert_eq!(balanced.quality, 85);
    assert_eq!(balanced.pass, 6);
}

#[test]
fn test_webp_config_validation_each_field() {
    let mut config = WebPConfig::default();
    config.method = 7;
    assert!(config.validate().is_err());

    let mut config = WebPConfig::default();
    config.segments = 0;
    assert!(config.validate().is_err());
    config.segments = 5;
    assert!(config.validate().is_err());

    let mut config = WebPConfig::default();
    config.filter_sharpness = 8;
    assert!(config.validate().is_err());

    let mut config = WebPConfig::default();
    config.alpha_filtering = 3;
    assert!(config.validate().is_err());

    let mut config = WebPConfig::default();
    config.pass = 0;
    assert!(config.validate().is_err());
    config.pass = 11;
    assert!(config.validate().is_err());
    config.pass = 10;
    assert!(config.validate().is_ok());

    let mut config = WebPConfig::default();
    config.quality = 120;
    assert_eq!(config.validate().err().unwrap(), "Quality must be 0-100, got 120");
}

#[test]
fn test_raw_image_validity_and_stride() {
    let image = RawImage::new(vec![0u8; 12], 2, 2, PixelFormat::RGB8);
    assert_eq!(image.stride, 6);
    assert!(image.is_valid());
    assert_eq!(image.size(), 12);
    assert_eq!(image.pixel_count(), 4);

    let short = RawImage::new(vec![0u8; 11], 2, 2, PixelFormat::RGB8);
    assert!(!short.is_valid());

    let padded = RawImage::with_stride(vec![7u8; 16], 2, 2, PixelFormat::RGB8, 8);
    assert_eq!(padded.stride, 8);
    assert!(padded.is_valid());
    let pixel = padded.get_pixel(1, 1).unwrap();
    assert_eq!(pixel, vec![7, 7, 7]);
}

#[test]
fn test_rectangle_geometry() {
    let rect = Rectangle::new(10, 20, 100, 50);
    assert!(rect.contains_point(10, 20));
    assert!(rect.contains_point(109, 69));
    assert!(!rect.contains_point(110, 69));
    assert!(!rect.contains_point(9, 20));
    assert_eq!(rect.area(), 5000);

    let region = CaptureRegion::from_rect(rect);
    assert_eq!(region.x, 10);
    assert_eq!(region.y, 20);
    assert_eq!(region.width, 100);
    assert_eq!(region.height, 50);
    assert_eq!(region, CaptureRegion::new(10, 20, 100, 50));
}

#[test]
fn test_metadata_total_duration() {
    let metadata = CaptureMetadata {
        timestamp_ms: 0,
        capture_duration_ms: 12,
        encoding_duration_ms: 30,
        original_size: 1000,
        compressed_size: 100,
        implementation: "test".to_string(),
    };
    assert_eq!(metadata.total_duration(), 42);
}

#[test]
fn test_performance_stats_average() {
    let mut stats = PerformanceStats::default();
    assert_eq!(stats.average_capture_time(), 0);
    stats.successful_captures = 4;
    stats.total_capture_time_ms = 100;
    assert_eq!(stats.average_capture_time(), 25);
}
