use r3sizer::error::CoreError;
use r3sizer::solve::find_sharpness_direct;
use r3sizer::types::{CrossingStatus, SelectionMode};

fn bits(values: &[f32]) -> Vec<u32> {
    values.iter().map(|v| v.to_bits()).collect()
}

#[test]
fn direct_search_picks_best_sample() {
    let strengths = [0.5f32, 1.0, 2.0, 3.0];
    let metrics = [0.0001f32, 0.0005, 0.002, 0.01];
    let result = find_sharpness_direct(&bits(&strengths), &bits(&metrics), 0.001f32.to_bits()).unwrap();
    // Largest strength with metric_value <= 0.001 is s=1.0 (ratio=0.0005).
    assert!((strengths[result.index] - 1.0).abs() < 1e-5);
    assert_eq!(result.selection_mode, SelectionMode::BestSampleWithinBudget);
}

#[test]
fn fallback_uses_metric_value_not_artifact_ratio() {
    // metric_value differs from artifact_ratio (simulating RelativeToBase mode);
    // only the metric values take part in the selection.
    let strengths = [0.5f32, 1.0, 2.0, 3.0];
    let metrics = [0.005f32, 0.010, 0.020, 0.035];
    // P0 = 0.015 in relative terms: s=1.0 has metric_value=0.010 <= 0.015.
    let result = find_sharpness_direct(&bits(&strengths), &bits(&metrics), 0.015f32.to_bits()).unwrap();
    assert!((strengths[result.index] - 1.0).abs() < 1e-5);
    assert_eq!(result.selection_mode, SelectionMode::BestSampleWithinBudget);
}

#[test]
fn fallback_picks_largest_qualifying_sample() {
    let strengths = [1.0f32, 2.0, 3.0, 4.0];
    // only the first three are <= 0.001
    let metrics = [0.0002f32, 0.0005, 0.001, 0.005];
    let r = find_sharpness_direct(&bits(&strengths), &bits(&metrics), 0.001f32.to_bits()).unwrap();
    assert_eq!(r.index, 2);
    assert!((strengths[r.index] - 3.0).abs() < 1e-5);
    assert_eq!(r.selection_mode, SelectionMode::BestSampleWithinBudget);
    assert_eq!(r.crossing_status, CrossingStatus::NotFoundInRange);
}

#[test]
fn all_samples_exceed_budget_picks_least_bad() {
    let strengths = [1.0f32, 2.0, 3.0, 4.0];
    let metrics = [0.01f32, 0.02, 0.03, 0.04];
    let r = find_sharpness_direct(&bits(&strengths), &bits(&metrics), 0.001f32.to_bits()).unwrap();
    assert_eq!(r.index, 0);
    assert!((strengths[r.index] - 1.0).abs() < 1e-5);
    assert_eq!(r.selection_mode, SelectionMode::LeastBadSample);
}

#[test]
fn ties_take_last_strength_and_first_metric() {
    // Equal strengths within budget: the later one is chosen.
    let r = find_sharpness_direct(
        &bits(&[1.0, 2.0, 2.0, 0.5]),
        &bits(&[0.0, 0.0, 0.0, 0.0]),
        0.1f32.to_bits(),
    )
    .unwrap();
    assert_eq!(r.index, 2);
    // Equal smallest metrics over budget: the earlier one is chosen.
    let r = find_sharpness_direct(
        &bits(&[1.0, 2.0, 3.0]),
        &bits(&[0.5, 0.2, 0.2]),
        0.1f32.to_bits(),
    )
    .unwrap();
    assert_eq!(r.index, 1);
    assert_eq!(r.selection_mode, SelectionMode::LeastBadSample);
}

#[test]
fn no_samples_is_an_error() {
    match find_sharpness_direct(&[], &[], 0.1f32.to_bits()) {
        Err(CoreError::NoValidRoot { .. }) => {}
        other => panic!("unexpected {other:?}"),
    }
}

#[test]
fn no_root_in_range_triggers_fallback() {
    // The cubic's roots lie outside [3.5, 4.0]: the samples decide.
    let strengths = [3.5f32, 3.7, 3.9, 4.0];
    let metrics = [0.0001f32, 0.0002, 0.0003, 0.0004];
    let r = find_sharpness_direct(&bits(&strengths), &bits(&metrics), 0.001f32.to_bits()).unwrap();
    assert_eq!(r.crossing_status, CrossingStatus::NotFoundInRange);
    assert!(matches!(
        r.selection_mode,
        SelectionMode::BestSampleWithinBudget | SelectionMode::LeastBadSample
    ));
}
