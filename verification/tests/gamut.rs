use r3sizer::metrics::{count_out_of_gamut_pixels, count_out_of_range, count_ringing_profiles};

fn bits(values: &[f32]) -> Vec<u32> {
    values.iter().map(|v| v.to_bits()).collect()
}

/// Channel clipping ratio: out-of-range components over all components.
fn channel_clipping_ratio(values: &[f32]) -> f32 {
    if values.is_empty() {
        return 0.0;
    }
    count_out_of_range(&bits(values)) as f32 / values.len() as f32
}

/// Pixel out-of-gamut ratio: out-of-gamut pixels over all pixels.
fn pixel_out_of_gamut_ratio(values: &[f32]) -> f32 {
    let pixels = values.len() / 3;
    if pixels == 0 {
        return 0.0;
    }
    count_out_of_gamut_pixels(&bits(values)) as f32 / pixels as f32
}

fn solid(width: u32, height: u32, value: f32) -> Vec<f32> {
    vec![value; (width * height * 3) as usize]
}

/// Halo ringing score: ringing profiles over all profiles.
fn halo_ringing_score(profiles: &[[f32; 5]]) -> f32 {
    if profiles.is_empty() {
        return 0.0;
    }
    let b: Vec<[u32; 5]> = profiles.iter().map(|p| p.map(|v| v.to_bits())).collect();
    count_ringing_profiles(&b) as f32 / profiles.len() as f32
}

#[test]
fn gamut_all_zero_is_clean() {
    let img = solid(10, 10, 0.0);
    assert_eq!(channel_clipping_ratio(&img), 0.0);
}

#[test]
fn gamut_all_one_is_clean() {
    let img = solid(10, 10, 1.0);
    assert_eq!(channel_clipping_ratio(&img), 0.0);
}

#[test]
fn gamut_all_mid_is_clean() {
    let img = solid(10, 10, 0.5);
    assert_eq!(channel_clipping_ratio(&img), 0.0);
}

#[test]
fn gamut_one_out_of_range_component() {
    let mut data = vec![0.5_f32; 12];
    data[0] = -0.001;
    let expected = 1.0 / 12.0;
    assert!((channel_clipping_ratio(&data) - expected).abs() < 1e-7);
}

#[test]
fn gamut_all_components_above_one() {
    let img = solid(4, 4, 1.001);
    assert_eq!(channel_clipping_ratio(&img), 1.0);
}

#[test]
fn gamut_all_components_below_zero() {
    let img = solid(4, 4, -0.5);
    assert_eq!(channel_clipping_ratio(&img), 1.0);
}

#[test]
fn gamut_boundary_values_not_counted() {
    let mut data = vec![0.0_f32; 6];
    data[3] = 1.0;
    assert_eq!(channel_clipping_ratio(&data), 0.0);
}

#[test]
fn gamut_pixel_all_zero_is_clean() {
    let img = solid(10, 10, 0.0);
    assert_eq!(pixel_out_of_gamut_ratio(&img), 0.0);
}

#[test]
fn gamut_pixel_all_one_is_clean() {
    let img = solid(10, 10, 1.0);
    assert_eq!(pixel_out_of_gamut_ratio(&img), 0.0);
}

#[test]
fn gamut_pixel_one_bad_channel_counts_one_pixel() {
    let mut data = vec![0.5_f32; 12];
    data[0] = -0.001;
    let expected = 1.0 / 4.0;
    assert!((pixel_out_of_gamut_ratio(&data) - expected).abs() < 1e-7);
}

#[test]
fn gamut_pixel_all_three_bad_counts_one_pixel() {
    let mut data = vec![0.5_f32; 12];
    data[0] = 1.5;
    data[1] = -0.1;
    data[2] = 2.0;
    let expected = 1.0 / 4.0;
    assert!((pixel_out_of_gamut_ratio(&data) - expected).abs() < 1e-7);
}

#[test]
fn gamut_pixel_ratio_leq_channel_ratio() {
    let mut data = vec![0.5_f32; 12];
    data[0] = 1.5;
    data[1] = -0.1;
    data[2] = 2.0;
    assert!(pixel_out_of_gamut_ratio(&data) <= channel_clipping_ratio(&data));
}

#[test]
fn metrics_all_zero_is_clean() {
    let img = solid(10, 10, 0.0);
    assert_eq!(channel_clipping_ratio(&img), 0.0);
}

#[test]
fn metrics_all_one_is_clean() {
    let img = solid(10, 10, 1.0);
    assert_eq!(channel_clipping_ratio(&img), 0.0);
}

#[test]
fn metrics_all_mid_is_clean() {
    let img = solid(10, 10, 0.5);
    assert_eq!(channel_clipping_ratio(&img), 0.0);
}

#[test]
fn metrics_one_out_of_range_component() {
    let mut data = vec![0.5_f32; 12];
    data[0] = -0.001;
    let expected = 1.0 / 12.0;
    assert!((channel_clipping_ratio(&data) - expected).abs() < 1e-7);
}

#[test]
fn metrics_all_components_above_one() {
    let img = solid(4, 4, 1.001);
    assert_eq!(channel_clipping_ratio(&img), 1.0);
}

#[test]
fn metrics_all_components_below_zero() {
    let img = solid(4, 4, -0.5);
    assert_eq!(channel_clipping_ratio(&img), 1.0);
}

#[test]
fn metrics_boundary_values_not_counted() {
    let mut data = vec![0.0_f32; 6];
    data[3] = 1.0;
    assert_eq!(channel_clipping_ratio(&data), 0.0);
}

#[test]
fn metrics_pixel_all_zero_is_clean() {
    let img = solid(10, 10, 0.0);
    assert_eq!(pixel_out_of_gamut_ratio(&img), 0.0);
}

#[test]
fn metrics_pixel_all_one_is_clean() {
    let img = solid(10, 10, 1.0);
    assert_eq!(pixel_out_of_gamut_ratio(&img), 0.0);
}

#[test]
fn metrics_pixel_one_bad_channel_counts_one_pixel() {
    let mut data = vec![0.5_f32; 12];
    data[0] = -0.001;
    let expected = 1.0 / 4.0;
    assert!((pixel_out_of_gamut_ratio(&data) - expected).abs() < 1e-7);
}

#[test]
fn metrics_pixel_all_three_bad_counts_one_pixel() {
    let mut data = vec![0.5_f32; 12];
    data[0] = 1.5;
    data[1] = -0.1;
    data[2] = 2.0;
    let expected = 1.0 / 4.0;
    assert!((pixel_out_of_gamut_ratio(&data) - expected).abs() < 1e-7);
}

#[test]
fn metrics_pixel_ratio_leq_channel_ratio() {
    let mut data = vec![0.5_f32; 12];
    data[0] = 1.5;
    data[1] = -0.1;
    data[2] = 2.0;
    assert!(pixel_out_of_gamut_ratio(&data) <= channel_clipping_ratio(&data));
}

#[test]
fn halo_empty_profiles_returns_zero() {
    assert_eq!(halo_ringing_score(&[]), 0.0);
}

#[test]
fn no_ringing_monotonic_diff() {
    let p = [0.01, 0.02, 0.05, 0.08, 0.1];
    assert_eq!(halo_ringing_score(&[p]), 0.0);
}

#[test]
fn one_sign_change_not_ringing() {
    let p = [-0.05, -0.02, 0.01, 0.03, 0.05];
    assert_eq!(halo_ringing_score(&[p]), 0.0);
}

#[test]
fn two_sign_changes_is_ringing() {
    let p = [0.05, -0.03, 0.02, -0.01, 0.005];
    assert_eq!(halo_ringing_score(&[p]), 1.0);
}

#[test]
fn noise_floor_suppresses_false_positives() {
    let p = [0.05, 1e-6, -1e-6, 1e-6, 0.03];
    assert_eq!(halo_ringing_score(&[p]), 0.0);
}

#[test]
fn mixed_profiles_correct_ratio() {
    let ringing = [0.05, -0.03, 0.02, -0.01, 0.005];
    let clean = [0.01, 0.02, 0.05, 0.08, 0.1];
    let score = halo_ringing_score(&[ringing, clean]);
    assert!((score - 0.5).abs() < 1e-6);
}

#[test]
fn all_below_noise_floor_not_ringing() {
    let p = [1e-6, -1e-7, 1e-8, -1e-9, 1e-6];
    assert_eq!(halo_ringing_score(&[p]), 0.0);
}
