//! Tests for the pixel-format converter.

use webp_screenshot::SimdConverter;

#[test]
fn test_simd_detection() {
    let converter = SimdConverter::new();
    println!("SIMD capabilities: {}", converter.capabilities());
}

#[test]
fn test_bgra_to_rgba_conversion() {
    let converter = SimdConverter::new();
    let mut data = vec![0, 1, 2, 3, 4, 5, 6, 7]; // Two BGRA pixels

    converter.convert_bgra_to_rgba(&mut data);

    assert_eq!(data, vec![2, 1, 0, 3, 6, 5, 4, 7]); // Now RGBA
}

#[test]
fn test_rgba_to_rgb_conversion() {
    let converter = SimdConverter::new();
    let src = vec![255, 128, 64, 255, 128, 64, 32, 255]; // Two RGBA pixels
    let mut dst = vec![0u8; 6];

    converter.convert_rgba_to_rgb(&src, &mut dst);

    assert_eq!(dst, vec![255, 128, 64, 128, 64, 32]); // RGB without alpha
}

#[test]
fn test_bgra_to_rgba_example_pixels() {
    // Two BGRA pixels swap into RGBA with alpha untouched.
    let converter = SimdConverter::new();
    let mut data = vec![10, 20, 30, 40, 1, 2, 3, 4];
    converter.convert_bgra_to_rgba(&mut data);
    assert_eq!(data, vec![30, 20, 10, 40, 3, 2, 1, 4]);
}

#[test]
fn test_bgra_to_rgba_involution() {
    // Applying the conversion twice restores the original buffer.
    let converter = SimdConverter::new();
    let original: Vec<u8> = (0u8..=255).collect(); // 256 bytes, a multiple of 4
    let mut data = original.clone();
    converter.convert_bgra_to_rgba(&mut data);
    assert_ne!(data, original);
    converter.convert_bgra_to_rgba(&mut data);
    assert_eq!(data, original);
}

#[test]
fn test_bgra_to_rgba_ignores_trailing_bytes() {
    // A length that is not a multiple of 4: only the complete pixel changes.
    let converter = SimdConverter::new();
    let mut data = vec![1, 2, 3, 4, 9, 8];
    converter.convert_bgra_to_rgba(&mut data);
    assert_eq!(data, vec![3, 2, 1, 4, 9, 8]);
}

#[test]
fn test_bgr_to_rgb_conversion() {
    let converter = SimdConverter::new();
    let mut data = vec![1, 2, 3, 4, 5, 6, 7]; // Two BGR pixels and one stray byte
    converter.convert_bgr_to_rgb(&mut data);
    assert_eq!(data, vec![3, 2, 1, 6, 5, 4, 7]);
}

#[test]
fn test_rgba_to_rgb_output_length_ratio() {
    // The written region is exactly 3/4 of a well-formed input length.
    let converter = SimdConverter::new();
    let src: Vec<u8> = (0u8..80).collect(); // 20 RGBA pixels
    let mut dst = vec![0xAAu8; 60];
    converter.convert_rgba_to_rgb(&src, &mut dst);
    assert_eq!(dst.len(), src.len() * 3 / 4);
    for pixel in 0..20usize {
        assert_eq!(dst[pixel * 3], src[pixel * 4]);
        assert_eq!(dst[pixel * 3 + 1], src[pixel * 4 + 1]);
        assert_eq!(dst[pixel * 3 + 2], src[pixel * 4 + 2]);
    }
}

#[test]
fn test_benchmark_conversion_runs() {
    let converter = SimdConverter::new();
    let elapsed_ms = converter.benchmark_conversion(1024);
    println!("benchmark: {} ms per conversion", elapsed_ms);
}
