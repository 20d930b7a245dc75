//! Tests for the pre-encoding checks and pixel normalization.

use webp_screenshot::encoder::{prepare_pixels, validate_for_encoding};
use webp_screenshot::{EncodingError, PixelFormat, RawImage, WebPConfig};

#[test]
fn test_config_validation() {
    let mut config = WebPConfig::default();
    assert!(config.validate().is_ok());

    config.quality = 101;
    assert!(config.validate().is_err());
}

#[test]
fn test_validate_for_encoding_rejects_bad_dimensions() {
    let config = WebPConfig::default();
    let empty = RawImage::new(Vec::new(), 0, 100, PixelFormat::RGBA8);
    let result = validate_for_encoding(&empty, &config);
    assert!(matches!(
        result,
        Err(EncodingError::InvalidDimensions { width: 0, height: 100 })
    ));

    let good = RawImage::new(vec![0u8; 16], 2, 2, PixelFormat::RGBA8);
    assert!(validate_for_encoding(&good, &config).is_ok());
}

#[test]
fn test_validate_for_encoding_rejects_bad_config() {
    let mut config = WebPConfig::default();
    config.method = 9;
    let image = RawImage::new(vec![0u8; 16], 2, 2, PixelFormat::RGBA8);
    let result = validate_for_encoding(&image, &config);
    assert!(matches!(result, Err(EncodingError::InvalidConfiguration(_))));
}

#[test]
fn test_prepare_pixels_passthrough_and_swap() {
    let rgba = RawImage::new(vec![1, 2, 3, 4], 1, 1, PixelFormat::RGBA8);
    let (data, format) = prepare_pixels(&rgba).unwrap();
    assert_eq!(data, vec![1, 2, 3, 4]);
    assert_eq!(format, PixelFormat::RGBA8);

    let bgra = RawImage::new(vec![1, 2, 3, 4], 1, 1, PixelFormat::BGRA8);
    let (data, format) = prepare_pixels(&bgra).unwrap();
    assert_eq!(data, vec![3, 2, 1, 4]);
    assert_eq!(format, PixelFormat::RGBA8);

    let bgr = RawImage::new(vec![1, 2, 3], 1, 1, PixelFormat::BGR8);
    let (data, format) = prepare_pixels(&bgr).unwrap();
    assert_eq!(data, vec![3, 2, 1]);
    assert_eq!(format, PixelFormat::RGB8);

    let rgb = RawImage::new(vec![1, 2, 3], 1, 1, PixelFormat::RGB8);
    let (data, format) = prepare_pixels(&rgb).unwrap();
    assert_eq!(data, vec![1, 2, 3]);
    assert_eq!(format, PixelFormat::RGB8);
}

#[test]
fn test_prepare_pixels_refuses_grayscale() {
    let gray = RawImage::new(vec![1], 1, 1, PixelFormat::Gray8);
    assert!(matches!(
        prepare_pixels(&gray),
        Err(EncodingError::UnsupportedFormat(_))
    ));

    let gray_alpha = RawImage::new(vec![1, 2], 1, 1, PixelFormat::GrayA8);
    assert!(matches!(
        prepare_pixels(&gray_alpha),
        Err(EncodingError::UnsupportedFormat(_))
    ));
}
