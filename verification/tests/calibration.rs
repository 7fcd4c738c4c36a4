use velodyne_lidar::config::{
    sorted_elevation_order, CalibrationError, Config16Channel, Config32Channel, StrongestReturn,
    vlp_16_azimuth_offset_micrometers, vlp_16_elevation_millidegrees,
};

#[test]
fn config_16_validates_lengths() {
    let short: Vec<i32> = vec![0; 15];
    let offsets: Vec<i32> = vec![0; 16];
    let r = Config16Channel::<StrongestReturn>::new(short, offsets);
    assert_eq!(r.unwrap_err(), CalibrationError::LengthMismatch { expected: 16, actual: 15 });

    let elevations: Vec<i32> = vec![0; 16];
    let long: Vec<i32> = vec![0; 17];
    let r = Config16Channel::<StrongestReturn>::new(elevations, long);
    assert_eq!(r.unwrap_err(), CalibrationError::LengthMismatch { expected: 16, actual: 17 });

    let elevations: Vec<i32> = vec![0; 16];
    let offsets: Vec<i32> = vec![0; 16];
    assert!(Config16Channel::<StrongestReturn>::new(elevations, offsets).is_ok());
}

#[test]
fn config_32_validates_lengths() {
    let short: Vec<i32> = vec![0; 16];
    let offsets: Vec<i32> = vec![0; 32];
    let r = Config32Channel::<StrongestReturn>::new(short, offsets);
    assert_eq!(r.unwrap_err(), CalibrationError::LengthMismatch { expected: 32, actual: 16 });

    let elevations: Vec<i32> = vec![0; 32];
    let offsets: Vec<i32> = vec![0; 32];
    assert!(Config32Channel::<StrongestReturn>::new(elevations, offsets).is_ok());
}

#[test]
fn config_accepts_out_of_range_angles_as_is() {
    // no semantic validation: wildly out-of-physical-range values load
    let mut elevations: Vec<i32> = vec![0; 16];
    elevations[0] = 999_000;
    elevations[1] = -999_000;
    let offsets: Vec<i32> = vec![0; 16];
    let config = Config16Channel::<StrongestReturn>::new(elevations, offsets).unwrap();
    assert_eq!(config.elevation_millidegrees()[0], 999_000);
    assert_eq!(config.elevation_millidegrees()[1], -999_000);
}

#[test]
fn factory_table_sort_order_matches_declared_index() {
    let elevations = vlp_16_elevation_millidegrees();
    let order = sorted_elevation_order(&elevations);
    // the declared wire-to-sorted index of the 16-channel factory table
    let declared: Vec<usize> = vec![15, 13, 11, 9, 7, 5, 3, 1, 14, 12, 10, 8, 6, 4, 2, 0];
    assert_eq!(order, declared);
    // applying the index to the raw array yields strictly decreasing
    // elevations
    let mut i: usize = 1;
    while i < order.len() {
        assert!(elevations[order[i - 1]] > elevations[order[i]]);
        i += 1;
    }
}

#[test]
fn sort_order_is_a_permutation_with_ties() {
    let elevations: Vec<i32> = vec![5, -3, 5, 0, -3, 12, 0, 7, 1, 1, -8, 2, 2, 2, 30, -30];
    let order = sorted_elevation_order(&elevations);
    assert_eq!(order.len(), 16);
    let mut seen = vec![false; 16];
    for &w in &order {
        assert!(w < 16);
        assert!(!seen[w]);
        seen[w] = true;
    }
    let mut i: usize = 1;
    while i < order.len() {
        assert!(elevations[order[i - 1]] >= elevations[order[i]]);
        i += 1;
    }
}

#[test]
fn sort_order_handles_32_channels() {
    let mut elevations: Vec<i32> = Vec::new();
    let mut i: i32 = 0;
    while i < 32 {
        // interleave positive and negative values
        elevations.push(if i % 2 == 0 { -25_000 + i * 700 } else { 15_000 - i * 400 });
        i += 1;
    }
    let order = sorted_elevation_order(&elevations);
    assert_eq!(order.len(), 32);
    let mut k: usize = 1;
    while k < order.len() {
        assert!(elevations[order[k - 1]] >= elevations[order[k]]);
        k += 1;
    }
}

#[test]
fn factory_offsets_are_zero() {
    let offsets = vlp_16_azimuth_offset_micrometers();
    assert_eq!(offsets.len(), 16);
    for &v in &offsets {
        assert_eq!(v, 0);
    }
}
