use r3sizer::classifier::{class_counts, classify_all, classify_features, ThresholdBits};
use r3sizer::types::{RegionClass, RegionMap};

/// Default classifier thresholds: gradient 0.05 / 0.40, variance 0.001 / 0.010.
fn default_params() -> ThresholdBits {
    ThresholdBits {
        gradient_low: 0.05f32.to_bits(),
        gradient_high: 0.40f32.to_bits(),
        variance_low: 0.001f32.to_bits(),
        variance_high: 0.010f32.to_bits(),
    }
}

fn classify(g: f32, v: f32, p: &ThresholdBits) -> RegionClass {
    classify_features(g.to_bits(), v.to_bits(), p)
}

#[test]
fn flat_low_gradient_low_variance() {
    let p = default_params();
    assert_eq!(classify(0.01, 0.0005, &p), RegionClass::Flat);
}

#[test]
fn textured_moderate_gradient() {
    let p = default_params();
    // gradient >= gradient_low (0.05), variance below variance_low
    assert_eq!(classify(0.10, 0.0005, &p), RegionClass::Textured);
}

#[test]
fn textured_moderate_variance() {
    let p = default_params();
    // gradient < gradient_low, variance >= variance_low (0.001)
    assert_eq!(classify(0.01, 0.005, &p), RegionClass::Textured);
}

#[test]
fn strong_edge_high_gradient_low_variance() {
    let p = default_params();
    assert_eq!(classify(0.50, 0.005, &p), RegionClass::StrongEdge);
}

#[test]
fn microtexture_high_variance_low_gradient() {
    let p = default_params();
    // variance >= variance_high (0.01) AND gradient < gradient_low (0.05)
    assert_eq!(classify(0.02, 0.015, &p), RegionClass::Microtexture);
}

#[test]
fn risky_halo_zone_high_gradient_high_variance() {
    let p = default_params();
    assert_eq!(classify(0.50, 0.015, &p), RegionClass::RiskyHaloZone);
}

#[test]
fn risky_halo_takes_priority_over_strong_edge() {
    let p = default_params();
    // Both gradient and variance are high -> RiskyHaloZone, not StrongEdge
    assert_eq!(classify(1.0, 0.1, &p), RegionClass::RiskyHaloZone);
}

#[test]
fn moderate_gradient_high_variance_is_textured_not_microtexture() {
    let p = default_params();
    // variance >= variance_high but gradient >= gradient_low (not < gradient_low)
    // so Microtexture rule does not match; falls through to Textured
    assert_eq!(classify(0.10, 0.015, &p), RegionClass::Textured);
}

#[test]
fn thresholds_are_inclusive() {
    let p = default_params();
    assert_eq!(classify(0.40, 0.0, &p), RegionClass::StrongEdge);
    assert_eq!(classify(0.05, 0.0, &p), RegionClass::Textured);
    assert_eq!(classify(0.0, 0.001, &p), RegionClass::Textured);
}

#[test]
fn nan_features_compare_false() {
    let p = default_params();
    // A NaN gradient satisfies no gradient test; the variance still decides.
    assert_eq!(classify(f32::NAN, 0.0, &p), RegionClass::Flat);
    assert_eq!(classify(f32::NAN, 0.005, &p), RegionClass::Textured);
    assert_eq!(classify(f32::NAN, 0.5, &p), RegionClass::Textured);
}

#[test]
fn classify_all_is_pointwise() {
    let p = default_params();
    let g: Vec<u32> = [0.01f32, 0.5, 0.02].iter().map(|v| v.to_bits()).collect();
    let v: Vec<u32> = [0.0005f32, 0.015, 0.015].iter().map(|v| v.to_bits()).collect();
    assert_eq!(
        classify_all(&g, &v, &p),
        vec![RegionClass::Flat, RegionClass::RiskyHaloZone, RegionClass::Microtexture]
    );
}

#[test]
fn class_counts_partition_the_map() {
    let map = RegionMap::new(
        2,
        2,
        vec![RegionClass::Flat, RegionClass::Textured, RegionClass::StrongEdge, RegionClass::Flat],
    )
    .unwrap();
    let counts = class_counts(&map);
    assert_eq!(counts, [2, 1, 1, 0, 0]);
    assert_eq!(counts.iter().sum::<u32>(), 4);
}
