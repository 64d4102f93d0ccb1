use r3sizer::color_space::{plan_ingress, IngressPlan};
use r3sizer::error::CoreError;
use r3sizer::types::InputColorSpace;

fn bits(values: &[f32]) -> Vec<u32> {
    values.iter().map(|v| v.to_bits()).collect()
}

#[test]
fn srgb_is_noop() {
    let data = bits(&[0.5, 0.3, 0.1, 0.9, 0.8, 0.7]);
    assert_eq!(plan_ingress(InputColorSpace::Srgb, &data).unwrap(), IngressPlan::PassThrough);
}

#[test]
fn linear_rgb_detects_out_of_range() {
    let data = bits(&[0.5, 1.5, 0.1, -0.1, 0.8, 0.7]);
    match plan_ingress(InputColorSpace::LinearRgb, &data).unwrap() {
        IngressPlan::RangeChecked { out_of_range, total } => {
            let frac = out_of_range as f32 / total as f32;
            assert!(frac > 0.0);
            assert!((frac - 2.0 / 6.0).abs() < 1e-6);
        }
        other => panic!("unexpected plan {:?}", other),
    }
}

#[test]
fn raw_linear_normalizes() {
    let values = [1.0f32, 2.0, 0.5];
    match plan_ingress(InputColorSpace::RawLinear, &bits(&values)).unwrap() {
        IngressPlan::Normalized { extent } => {
            assert!(extent.needs_normalization);
            let scale = f32::from_bits(extent.max);
            assert!((scale - 2.0).abs() < 1e-6);
            let inv = 1.0 / scale;
            let out: Vec<f32> = values.iter().map(|v| v * inv).collect();
            assert!((out[0] - 0.5).abs() < 1e-6);
            assert!((out[1] - 1.0).abs() < 1e-6);
            assert!((out[2] - 0.25).abs() < 1e-6);
        }
        other => panic!("unexpected plan {:?}", other),
    }
}

#[test]
fn raw_linear_no_normalization_needed() {
    match plan_ingress(InputColorSpace::RawLinear, &bits(&[0.5, 0.3, 0.1])).unwrap() {
        IngressPlan::Normalized { extent } => {
            assert!(!extent.needs_normalization);
            assert_eq!(f32::from_bits(extent.min), 0.1);
            assert_eq!(f32::from_bits(extent.max), 0.5);
        }
        other => panic!("unexpected plan {:?}", other),
    }
}

#[test]
fn raw_linear_empty_is_error_but_others_pass() {
    assert!(matches!(plan_ingress(InputColorSpace::RawLinear, &[]), Err(CoreError::EmptyImage)));
    assert_eq!(plan_ingress(InputColorSpace::Srgb, &[]).unwrap(), IngressPlan::PassThrough);
    assert_eq!(
        plan_ingress(InputColorSpace::LinearRgb, &[]).unwrap(),
        IngressPlan::RangeChecked { out_of_range: 0, total: 0 }
    );
}
