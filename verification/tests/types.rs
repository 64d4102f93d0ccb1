use r3sizer::error::CoreError;
use r3sizer::classifier::gain_map_from_region_map;
use r3sizer::types::{
    DiagnosticsLevel, GainTable, KernelTable, RegionClass, RegionMap, ResizeKernel, StageTiming,
};

#[test]
fn region_class_as_usize_stable_ordering() {
    assert_eq!(RegionClass::Flat as usize, 0);
    assert_eq!(RegionClass::Textured as usize, 1);
    assert_eq!(RegionClass::StrongEdge as usize, 2);
    assert_eq!(RegionClass::Microtexture as usize, 3);
    assert_eq!(RegionClass::RiskyHaloZone as usize, 4);
}

#[test]
fn region_map_valid_construction() {
    let data = vec![RegionClass::Flat; 12];
    let map = RegionMap::new(4, 3, data).unwrap();
    assert_eq!(map.width, 4);
    assert_eq!(map.height, 3);
    assert_eq!(map.get(0, 0), RegionClass::Flat);
    assert_eq!(map.get(3, 2), RegionClass::Flat);
}

#[test]
fn region_map_wrong_length_fails() {
    let data = vec![RegionClass::Flat; 10];
    assert!(RegionMap::new(4, 3, data).is_err());
}

#[test]
fn region_class_index_matches_declaration_order() {
    let all = [
        RegionClass::Flat,
        RegionClass::Textured,
        RegionClass::StrongEdge,
        RegionClass::Microtexture,
        RegionClass::RiskyHaloZone,
    ];
    for (i, c) in all.iter().enumerate() {
        assert_eq!(c.index(), i);
        assert_eq!(*c as usize, i);
    }
}

#[test]
fn region_map_get_is_row_major() {
    let data = vec![
        RegionClass::Flat,
        RegionClass::Textured,
        RegionClass::StrongEdge,
        RegionClass::Microtexture,
        RegionClass::RiskyHaloZone,
        RegionClass::Flat,
    ];
    let map = RegionMap::new(3, 2, data.clone()).unwrap();
    assert_eq!(map.get(1, 0), RegionClass::Textured);
    assert_eq!(map.get(0, 1), RegionClass::Microtexture);
    assert_eq!(map.get(2, 1), RegionClass::Flat);
    assert_eq!(map.data(), &data[..]);
}

#[test]
fn region_map_wrong_length_reports_lengths() {
    match RegionMap::new(4, 3, vec![RegionClass::Flat; 10]) {
        Err(CoreError::BufferLengthMismatch { expected_len, got_len }) => {
            assert_eq!(expected_len, 12);
            assert_eq!(got_len, 10);
        }
        other => panic!("unexpected {other:?}"),
    }
}

#[test]
fn kernel_table_default_assignment() {
    let t = KernelTable::default();
    assert_eq!(t.kernel_for(RegionClass::Flat), ResizeKernel::Gaussian);
    assert_eq!(t.kernel_for(RegionClass::Textured), ResizeKernel::Lanczos3);
    assert_eq!(t.kernel_for(RegionClass::StrongEdge), ResizeKernel::Lanczos3);
    assert_eq!(t.kernel_for(RegionClass::Microtexture), ResizeKernel::CatmullRom);
    assert_eq!(t.kernel_for(RegionClass::RiskyHaloZone), ResizeKernel::MitchellNetravali);
}

#[test]
fn resize_kernel_sort_order() {
    assert!(ResizeKernel::Lanczos3 < ResizeKernel::MitchellNetravali);
    assert!(ResizeKernel::MitchellNetravali < ResizeKernel::CatmullRom);
    assert!(ResizeKernel::CatmullRom < ResizeKernel::Gaussian);
    assert_eq!(ResizeKernel::Gaussian.rank(), 3);
}

#[test]
fn defaults_are_zero_and_summary() {
    let t = StageTiming::default();
    assert_eq!(t.total_us, 0);
    assert_eq!(t.classification_us, None);
    assert_eq!(DiagnosticsLevel::default(), DiagnosticsLevel::Summary);
}

#[test]
fn gain_table_v03_default_values() {
    let gt = GainTable::v03_default();
    assert!((f32::from_bits(gt.flat) - 0.75).abs() < 1e-6);
    assert!((f32::from_bits(gt.textured) - 0.95).abs() < 1e-6);
    assert!((f32::from_bits(gt.strong_edge) - 1.00).abs() < 1e-6);
    assert!((f32::from_bits(gt.microtexture) - 1.10).abs() < 1e-6);
    assert!((f32::from_bits(gt.risky_halo_zone) - 0.70).abs() < 1e-6);
}

#[test]
fn gain_table_gain_for_each_class() {
    let gt = GainTable::v03_default();
    let g = |c: RegionClass| f32::from_bits(gt.gain_for(c));
    assert!((g(RegionClass::Flat) - 0.75).abs() < 1e-6);
    assert!((g(RegionClass::Textured) - 0.95).abs() < 1e-6);
    assert!((g(RegionClass::StrongEdge) - 1.00).abs() < 1e-6);
    assert!((g(RegionClass::Microtexture) - 1.10).abs() < 1e-6);
    assert!((g(RegionClass::RiskyHaloZone) - 0.70).abs() < 1e-6);
    assert_eq!(gt.gains(), [gt.flat, gt.textured, gt.strong_edge, gt.microtexture, gt.risky_halo_zone]);
}

#[test]
fn gain_map_matches_table_lookup() {
    let map = RegionMap::new(2, 1, vec![RegionClass::Flat, RegionClass::StrongEdge]).unwrap();
    let gt = GainTable::v03_default();
    let gm = gain_map_from_region_map(&map, &gt);
    assert_eq!(gm.len(), 2);
    assert!((f32::from_bits(gm[0]) - 0.75).abs() < 1e-6);
    assert!((f32::from_bits(gm[1]) - 1.00).abs() < 1e-6);
}
