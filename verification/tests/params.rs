use r3sizer::classifier::class_counts;
use r3sizer::error::CoreError;
use r3sizer::params::{
    check_classification, check_image_buffer, check_plane_len, check_static_probes,
    first_invalid_gain, sort_strengths, strengths_distinct, strengths_positive, validate_params,
    ParamSettings, ProbeSettings,
};
use r3sizer::types::{RegionClass, RegionMap};

fn b(v: f32) -> u32 {
    v.to_bits()
}

fn gains(flat: f32, textured: f32, strong_edge: f32, microtexture: f32, risky: f32) -> [u32; 5] {
    [b(flat), b(textured), b(strong_edge), b(microtexture), b(risky)]
}

/// The default parameters: 800x600, budget 0.003, sigma 1.0, content-adaptive
/// with backoff factor 0.8, two-pass probing 7 x [0.003, 1.0] then 4 dense.
fn default_settings() -> ParamSettings {
    ParamSettings {
        target_width: 800,
        target_height: 600,
        target_artifact_ratio: b(0.003),
        sharpen_sigma: b(1.0),
        backoff_scale_factor: Some(b(0.8)),
        probes: ProbeSettings::TwoPass {
            coarse_count: 7,
            coarse_min: b(0.003),
            coarse_max: b(1.0),
            dense_count: 4,
            window_margin: b(0.5),
        },
    }
}

fn message(r: Result<(), CoreError>) -> String {
    match r {
        Err(CoreError::InvalidParams(m)) => m,
        other => panic!("expected InvalidParams, got {:?}", other),
    }
}

#[test]
fn gain_table_out_of_bounds_rejected() {
    assert_eq!(first_invalid_gain(&gains(0.2, 1.0, 1.0, 1.0, 1.0)), Some(0));
    assert_eq!(first_invalid_gain(&gains(1.0, 5.0, 1.0, 1.0, 1.0)), Some(1));
}

#[test]
fn gain_table_at_bounds_accepted() {
    assert_eq!(first_invalid_gain(&gains(0.25, 4.0, 1.0, 1.0, 1.0)), None);
}

#[test]
fn gain_table_defaults_within_bounds() {
    assert_eq!(first_invalid_gain(&gains(0.75, 0.95, 1.00, 1.10, 0.70)), None);
}

#[test]
fn gain_table_nan_rejected() {
    assert_eq!(first_invalid_gain(&gains(1.0, 1.0, 1.0, f32::NAN, 1.0)), Some(3));
}

#[test]
fn classification_params_default_valid() {
    assert!(check_classification(b(0.05), b(0.40), b(0.001), b(0.010), 5).is_ok());
}

#[test]
fn classification_params_inverted_gradient_rejected() {
    let r = check_classification(b(0.5), b(0.1), b(0.001), b(0.01), 5);
    assert_eq!(message(r), "gradient_low_threshold must be <= gradient_high_threshold");
}

#[test]
fn classification_params_inverted_variance_rejected() {
    let r = check_classification(b(0.05), b(0.4), b(0.1), b(0.01), 5);
    assert_eq!(message(r), "variance_low_threshold must be <= variance_high_threshold");
}

#[test]
fn classification_params_even_window_rejected() {
    let r = check_classification(b(0.05), b(0.4), b(0.001), b(0.01), 4);
    assert_eq!(message(r), "variance_window must be odd");
}

#[test]
fn classification_params_window_too_small_rejected() {
    let r = check_classification(b(0.05), b(0.4), b(0.001), b(0.01), 1);
    assert_eq!(message(r), "variance_window must be >= 3");
}

#[test]
fn gain_map_valid_construction() {
    assert!(check_plane_len(3, 2, 6).is_ok());
}

#[test]
fn gain_map_wrong_length_fails() {
    assert!(matches!(
        check_plane_len(3, 2, 5),
        Err(CoreError::BufferLengthMismatch { expected_len: 6, got_len: 5 })
    ));
}

#[test]
fn region_coverage_invariant() {
    let map = RegionMap::new(
        2,
        2,
        vec![RegionClass::Flat, RegionClass::Textured, RegionClass::StrongEdge, RegionClass::Flat],
    )
    .unwrap();
    let c = class_counts(&map);
    assert_eq!(c.iter().sum::<u32>(), 4);
    assert_eq!(c[0], 2);
    assert_eq!(c[1], 1);
    assert_eq!(c[2], 1);
    assert_eq!(c[3], 0);
    assert_eq!(c[4], 0);
}

#[test]
fn image_buffer_checks() {
    assert!(matches!(check_image_buffer(0, 4, 3, 0), Err(CoreError::EmptyImage)));
    assert!(check_image_buffer(2, 2, 3, 12).is_ok());
    assert!(matches!(
        check_image_buffer(2, 2, 3, 11),
        Err(CoreError::BufferLengthMismatch { expected_len: 12, got_len: 11 })
    ));
}

#[test]
fn default_params_are_valid() {
    assert!(validate_params(&default_settings()).is_ok());
}

#[test]
fn validate_reports_first_failure() {
    let mut s = default_settings();
    s.target_width = 0;
    s.sharpen_sigma = b(-1.0);
    assert_eq!(message(validate_params(&s)), "target dimensions must be non-zero");

    let mut s = default_settings();
    s.target_artifact_ratio = b(1.5);
    assert_eq!(message(validate_params(&s)), "target_artifact_ratio must be in [0, 1]");

    let mut s = default_settings();
    s.sharpen_sigma = b(0.0);
    assert_eq!(message(validate_params(&s)), "sharpen_sigma must be positive");

    let mut s = default_settings();
    s.backoff_scale_factor = Some(b(1.0));
    assert_eq!(message(validate_params(&s)), "backoff_scale_factor must be in (0.0, 1.0)");
    s.backoff_scale_factor = None;
    assert!(validate_params(&s).is_ok());
}

#[test]
fn validate_two_pass_checks() {
    let two_pass = |cc: usize, cmin: f32, cmax: f32, dc: usize, wm: f32| {
        let mut s = default_settings();
        s.probes = ProbeSettings::TwoPass {
            coarse_count: cc,
            coarse_min: b(cmin),
            coarse_max: b(cmax),
            dense_count: dc,
            window_margin: b(wm),
        };
        validate_params(&s)
    };
    assert_eq!(message(two_pass(2, 0.1, 1.0, 4, 0.5)), "TwoPass coarse_count must be >= 3");
    assert_eq!(message(two_pass(7, 0.1, 1.0, 1, 0.5)), "TwoPass dense_count must be >= 2");
    assert_eq!(message(two_pass(7, 0.0, 1.0, 4, 0.5)), "TwoPass coarse_min must be positive");
    assert_eq!(
        message(two_pass(7, 1.0, 1.0, 4, 0.5)),
        "TwoPass coarse_min must be less than coarse_max"
    );
    assert_eq!(message(two_pass(7, 0.1, 1.0, 4, -0.1)), "TwoPass window_margin must be >= 0");
    assert!(two_pass(7, 0.1, 1.0, 4, 0.0).is_ok());
}

#[test]
fn static_probe_checks() {
    let range = |min: f32, max: f32, count: usize| {
        check_static_probes(&ProbeSettings::Range { min: b(min), max: b(max), count })
    };
    assert_eq!(message(range(0.1, 1.0, 3)), "probe range must have at least 4 samples");
    assert_eq!(message(range(1.0, 0.5, 4)), "probe range min must be less than max");
    assert_eq!(message(range(0.0, 0.5, 4)), "probe range min must be positive");
    assert!(range(0.05, 0.5, 4).is_ok());

    let few = ProbeSettings::Explicit { values: vec![b(0.1), b(0.2), b(0.3)] };
    assert_eq!(message(check_static_probes(&few)), "explicit probe list must have at least 4 values");
    let ok = ProbeSettings::Explicit { values: vec![b(0.4), b(0.1), b(0.2), b(0.3)] };
    assert!(check_static_probes(&ok).is_ok());

    let explicit = |v: &[f32]| check_static_probes(&ProbeSettings::Explicit { values: v.iter().map(|x| b(*x)).collect() });
    assert_eq!(message(explicit(&[0.0, 0.1, 0.2, 0.3])), "explicit probe values must be positive");
    assert_eq!(message(explicit(&[0.1, -0.2, 0.2, 0.3])), "explicit probe values must be positive");
    assert_eq!(message(explicit(&[0.1, 0.2, f32::NAN, 0.3])), "explicit probe values must be positive");
    assert_eq!(message(explicit(&[0.0, 0.0, -1.0, 1.0])), "explicit probe values must be positive");
    assert_eq!(message(explicit(&[0.1, 0.2, 0.1, 0.3])), "explicit probe values must be distinct");
    assert_eq!(message(explicit(&[0.1, 0.2])), "explicit probe list must have at least 4 values");

    let two_pass = ProbeSettings::TwoPass {
        coarse_count: 7,
        coarse_min: b(0.003),
        coarse_max: b(1.0),
        dense_count: 4,
        window_margin: b(0.5),
    };
    assert_eq!(
        message(check_static_probes(&two_pass)),
        "TwoPass probe config is handled by the pipeline; use AutoSharpParams directly"
    );
}

#[test]
fn validate_rejects_explicit_list_with_zero_or_repeats() {
    let mut s = default_settings();
    s.probes = ProbeSettings::Explicit { values: vec![b(0.0), b(0.05), b(0.1), b(0.2)] };
    assert_eq!(message(validate_params(&s)), "explicit probe values must be positive");
    s.probes = ProbeSettings::Explicit { values: vec![b(0.05), b(0.1), b(0.2), b(0.05)] };
    assert_eq!(message(validate_params(&s)), "explicit probe values must be distinct");
    s.probes = ProbeSettings::Explicit { values: vec![b(0.05), b(0.1), b(0.2), b(0.4)] };
    assert!(validate_params(&s).is_ok());
}

#[test]
fn explicit_value_predicates() {
    assert!(strengths_positive(&vec![b(0.1), b(3.0)]));
    assert!(!strengths_positive(&vec![b(0.1), b(-0.0)]));
    assert!(strengths_distinct(&vec![b(0.1), b(0.2), b(0.3)]));
    assert!(!strengths_distinct(&vec![b(0.1), b(0.2), b(0.1)]));
    assert!(strengths_distinct(&vec![]));
}

#[test]
fn sort_strengths_orders_ascending() {
    let input: Vec<u32> = [0.4f32, 0.05, 3.0, -1.0, 0.2, 0.05].iter().map(|v| b(*v)).collect();
    let out: Vec<f32> = sort_strengths(&input).into_iter().map(f32::from_bits).collect();
    assert_eq!(out, vec![-1.0, 0.05, 0.05, 0.2, 0.4, 3.0]);
    assert!(sort_strengths(&[]).is_empty());
    let infs: Vec<u32> = [f32::INFINITY, 1.0, f32::NEG_INFINITY].iter().map(|v| b(*v)).collect();
    let out: Vec<f32> = sort_strengths(&infs).into_iter().map(f32::from_bits).collect();
    assert_eq!(out, vec![f32::NEG_INFINITY, 1.0, f32::INFINITY]);
}
