use r3sizer::fit::check_monotonicity;

fn bits(values: &[f32]) -> Vec<u32> {
    values.iter().map(|v| v.to_bits()).collect()
}

#[test]
fn monotonic_samples_detected() {
    let (mono, quasi) = check_monotonicity(&bits(&[0.001, 0.002, 0.005, 0.010]));
    assert!(mono);
    assert!(quasi);
}

#[test]
fn non_monotonic_samples_detected() {
    let (mono, quasi) = check_monotonicity(&bits(&[0.005, 0.002, 0.008, 0.003]));
    assert!(!mono);
    assert!(!quasi); // 2 inversions
}

#[test]
fn quasi_monotonic_one_inversion() {
    let (mono, quasi) = check_monotonicity(&bits(&[0.001, 0.003, 0.002, 0.010]));
    assert!(!mono);
    assert!(quasi); // exactly 1 inversion
}

#[test]
fn monotonicity_edge_cases() {
    assert_eq!(check_monotonicity(&[]), (true, true));
    assert_eq!(check_monotonicity(&bits(&[0.5])), (true, true));
    // Equal neighbours are not inversions; -0.0 equals 0.0.
    assert_eq!(check_monotonicity(&bits(&[0.0, -0.0, 0.0, 0.1, 0.1])), (true, true));
    // Comparisons with NaN are false, so NaN never counts as an inversion.
    assert_eq!(check_monotonicity(&bits(&[0.2, f32::NAN, 0.1])), (true, true));
}
