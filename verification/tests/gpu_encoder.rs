//! Tests for the GPU encoder front end.

use webp_screenshot::gpu::GpuWebPEncoder;
use webp_screenshot::{PixelFormat, RawImage, WebPConfig};

#[test]
fn test_gpu_detection() {
    let encoder = GpuWebPEncoder::new();
    println!("GPU Backend: {}", encoder.backend_name());
    println!("GPU Available: {}", encoder.is_available());

    if let Some(info) = encoder.device_info() {
        println!("GPU Device: {}", info);
    }
}

#[test]
fn test_size_suitability() {
    let encoder = GpuWebPEncoder::new();

    assert!(encoder.is_size_suitable(1920, 1080)); // Full HD
    assert!(encoder.is_size_suitable(3840, 2160)); // 4K
    assert!(!encoder.is_size_suitable(640, 480)); // Too small
}

#[test]
fn test_gpu_encode_without_device_fails() {
    let encoder = GpuWebPEncoder::new();
    assert!(!encoder.is_available());
    let image = RawImage::new(vec![0u8; 16], 2, 2, PixelFormat::RGBA8);
    let result = encoder.encode(&image, &WebPConfig::default());
    assert!(result.is_err());
    assert_eq!(
        result.err().unwrap().message(),
        "Unsupported feature: GPU encoding not available"
    );
    assert_eq!(encoder.estimate_encoding_time(1920, 1080), 0);
    assert_eq!(encoder.backend_name(), "None");
}
