use r3sizer::error::CoreError;
use r3sizer::io::{rgb_to_rgba, rgba_to_rgb, DecodeLimits};

#[test]
fn too_large_dimension_rejected() {
    let limits = DecodeLimits { max_dimension: 3, max_pixels: 1_000_000 };
    assert!(!limits.admits(4, 4));
}

#[test]
fn too_many_pixels_rejected() {
    let limits = DecodeLimits { max_dimension: 65535, max_pixels: 15 };
    assert!(!limits.admits(4, 4));
}

#[test]
fn load_as_linear_uses_default_limits() {
    let limits = DecodeLimits::default();
    assert_eq!(limits, DecodeLimits { max_pixels: 100_000_000, max_dimension: 16_384 });
    assert!(limits.admits(4, 4));
}

#[test]
fn default_limits_edges() {
    let limits = DecodeLimits::default();
    assert!(limits.admits(16_384, 6_103));
    assert!(!limits.admits(16_384, 6_104));
    assert!(!limits.admits(16_385, 1));
    assert!(!limits.admits(1, 16_385));
    assert!(limits.admits(0, 0));
}

#[test]
fn pixel_limit_counts_in_64_bits() {
    let limits = DecodeLimits { max_pixels: u64::MAX, max_dimension: u32::MAX };
    assert!(limits.admits(u32::MAX, u32::MAX));
    let tight = DecodeLimits { max_pixels: (u32::MAX as u64) * (u32::MAX as u64) - 1, max_dimension: u32::MAX };
    assert!(!tight.admits(u32::MAX, u32::MAX));
}

#[test]
fn rgba_to_rgb_drops_alpha() {
    let rgba = vec![1u8, 2, 3, 255, 4, 5, 6, 0];
    assert_eq!(rgba_to_rgb(&rgba, 2, 1).unwrap(), vec![1, 2, 3, 4, 5, 6]);
    assert_eq!(rgba_to_rgb(&[], 0, 7).unwrap(), Vec::<u8>::new());
}

#[test]
fn rgba_to_rgb_rejects_wrong_length() {
    let rgba = vec![0u8; 7];
    assert!(matches!(
        rgba_to_rgb(&rgba, 2, 1),
        Err(CoreError::BufferLengthMismatch { expected_len: 8, got_len: 7 })
    ));
}

#[test]
fn rgb_to_rgba_adds_opaque_alpha() {
    assert_eq!(rgb_to_rgba(&[9, 8, 7, 6, 5, 4]), vec![9, 8, 7, 255, 6, 5, 4, 255]);
    // A trailing partial triple is dropped.
    assert_eq!(rgb_to_rgba(&[1, 2, 3, 4]), vec![1, 2, 3, 255]);
    assert_eq!(rgb_to_rgba(&[]), Vec::<u8>::new());
}

#[test]
fn rgb_rgba_round_trip() {
    let rgb: Vec<u8> = (0..30).collect();
    let rgba = rgb_to_rgba(&rgb);
    assert_eq!(rgba_to_rgb(&rgba, 5, 2).unwrap(), rgb);
}
