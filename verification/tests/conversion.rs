use velodyne_lidar::config::{
    Config16Channel, Config32Channel, DualReturn, DynamicConfig, StrongestReturn,
    vlp_16_azimuth_offset_micrometers, vlp_16_elevation_millidegrees,
};
use velodyne_lidar::packet::{BlockIdentifier, Firing, LaserReturn, Packet, ProductID, ReturnMode};
use velodyne_lidar::pcd_converter::context::{
    DualReturn16ChannelContext, DualReturn32ChannelContext, DynamicContext,
    SingleReturn16ChannelContext, SingleReturn32ChannelContext,
};
use velodyne_lidar::pcd_converter::converter::DynamicPoint;

fn returns_with(base: u16, step: u16) -> Vec<LaserReturn> {
    let mut v: Vec<LaserReturn> = Vec::new();
    let mut c: u16 = 0;
    while c < 16 {
        v.push(LaserReturn { distance: base + step * c, intensity: (10 + c) as u8 });
        c += 1;
    }
    v
}

fn zero_returns() -> Vec<LaserReturn> {
    let mut v: Vec<LaserReturn> = Vec::new();
    let mut c: usize = 0;
    while c < 16 {
        v.push(LaserReturn { distance: 0, intensity: 0 });
        c += 1;
    }
    v
}

fn firing(azimuth_count: u16, former: Vec<LaserReturn>, latter: Vec<LaserReturn>) -> Firing {
    Firing {
        block_identifier: BlockIdentifier::Block0To31,
        azimuth_count,
        sequence_former: former,
        sequence_latter: latter,
    }
}

fn packet_with_firings(firings: Vec<Firing>, return_mode: ReturnMode, product_id: ProductID) -> Packet {
    Packet { firings, timestamp: 1000, return_mode, product_id }
}

fn vlp_16_strongest_config() -> Config16Channel<StrongestReturn> {
    Config16Channel::new(vlp_16_elevation_millidegrees(), vlp_16_azimuth_offset_micrometers())
        .unwrap()
}

fn vlp_16_dual_config() -> Config16Channel<DualReturn> {
    Config16Channel::new(vlp_16_elevation_millidegrees(), vlp_16_azimuth_offset_micrometers())
        .unwrap()
}

fn synthetic_32_elevations() -> Vec<i32> {
    let mut v: Vec<i32> = Vec::new();
    let mut c: i32 = 0;
    while c < 32 {
        v.push(-25_000 + c * 1_500);
        c += 1;
    }
    v
}

fn config_32_strongest() -> Config32Channel<StrongestReturn> {
    Config32Channel::new(synthetic_32_elevations(), vec![1400; 32]).unwrap()
}

fn config_32_dual() -> Config32Channel<DualReturn> {
    Config32Channel::new(synthetic_32_elevations(), vec![1400; 32]).unwrap()
}

/// A 16-channel strongest-return packet, all returns zero except channel 0
/// of the first block's former sequence: distance 500 counts (one meter)
/// and intensity 100.
fn one_return_packet_16() -> Packet {
    let mut firings: Vec<Firing> = Vec::new();
    let mut former0 = zero_returns();
    former0[0] = LaserReturn { distance: 500, intensity: 100 };
    firings.push(firing(0, former0, zero_returns()));
    let mut f: usize = 1;
    while f < 12 {
        firings.push(firing(0, zero_returns(), zero_returns()));
        f += 1;
    }
    packet_with_firings(firings, ReturnMode::Strongest, ProductID::VLP16)
}

#[test]
fn single_16_end_to_end_one_meter_return() {
    let packet = one_return_packet_16();
    let context = SingleReturn16ChannelContext::from_config(vlp_16_strongest_config());
    let points = context.convert_packet(&packet);
    assert_eq!(points.len(), 384);
    let first = points[0];
    assert_eq!(first.laser_id, 0);
    assert_eq!(first.distance_millimeters, 1000);
    assert!((first.distance_millimeters as f64 / 1000.0 - 1.0).abs() < 1e-12);
    assert_eq!(first.intensity, 100);
    assert_eq!(first.azimuth_count, 0);
    // channel 0 elevation is -15 degrees, so the altitude from vertical is
    // 105 degrees
    assert_eq!(first.altitude_millidegrees, 105_000);
    assert_eq!(first.azimuth_offset_micrometers, 0);
    // packet timestamp 1000 microseconds becomes 1000000 nanoseconds
    assert_eq!(first.timestamp_nanos, 1_000_000);
    for p in points.iter().skip(1) {
        assert_eq!(p.distance_millimeters, 0);
    }
}

#[test]
fn single_16_timing_and_order() {
    let packet = one_return_packet_16();
    let context = SingleReturn16ChannelContext::from_config(vlp_16_strongest_config());
    let points = context.convert_packet(&packet);
    // block f, sequence s, channel c sits at index 32 f + 16 s + c and
    // fires at (2 f + s) firing periods plus c laser-return periods
    let idx = |f: usize, s: usize, c: usize| 32 * f + 16 * s + c;
    assert_eq!(points[idx(0, 0, 1)].timestamp_nanos, 1_000_000 + 2_304);
    assert_eq!(points[idx(0, 1, 0)].timestamp_nanos, 1_000_000 + 55_296);
    assert_eq!(points[idx(1, 0, 0)].timestamp_nanos, 1_000_000 + 2 * 55_296);
    assert_eq!(points[idx(11, 1, 15)].timestamp_nanos, 1_000_000 + 23 * 55_296 + 15 * 2_304);
    assert_eq!(points[idx(5, 1, 7)].laser_id, 7);
}

#[test]
fn single_32_covers_both_sequences() {
    let mut firings: Vec<Firing> = Vec::new();
    let mut f: usize = 0;
    while f < 12 {
        firings.push(firing((f * 10) as u16, returns_with(100, 1), returns_with(200, 1)));
        f += 1;
    }
    let packet = packet_with_firings(firings, ReturnMode::Strongest, ProductID::VLP32C);
    let context = SingleReturn32ChannelContext::from_config(config_32_strongest());
    let points = context.convert_packet(&packet);
    assert_eq!(points.len(), 384);
    // channel 0 reads the former sequence, channel 16 the latter
    assert_eq!(points[0].distance_millimeters, 200);
    assert_eq!(points[16].distance_millimeters, 400);
    assert_eq!(points[16].laser_id, 16);
    // adjacent channel pairs fire together
    assert_eq!(points[0].timestamp_nanos, points[1].timestamp_nanos);
    assert_eq!(points[2].timestamp_nanos, points[0].timestamp_nanos + 2_304);
    // synthetic calibration: channel 5 elevation -17.5 degrees
    assert_eq!(points[5].altitude_millidegrees, 90_000 + 17_500);
    assert_eq!(points[5].azimuth_offset_micrometers, 1400);
}

#[test]
fn conversion_is_deterministic_across_contexts() {
    let packet = one_return_packet_16();
    let context_a = SingleReturn16ChannelContext::from_config(vlp_16_strongest_config());
    let context_b = SingleReturn16ChannelContext::from_config(vlp_16_strongest_config());
    let points_a = context_a.convert_packet(&packet);
    let points_b = context_b.convert_packet(&packet);
    assert_eq!(points_a, points_b);
}

#[test]
fn dual_conversion_is_deterministic_across_contexts() {
    let packet = dual_packet_16();
    let mut context_a = DualReturn16ChannelContext::from_config(vlp_16_dual_config());
    let mut context_b = DualReturn16ChannelContext::from_config(vlp_16_dual_config());
    let points_a = context_a.convert_packet(&packet);
    let points_b = context_b.convert_packet(&packet);
    assert_eq!(points_a, points_b);
    assert_eq!(context_a.last_block, context_b.last_block);
}

/// A dual-return packet whose 12 blocks form 6 same-azimuth pairs; the
/// first block of each pair holds the strongest returns, the second the
/// last returns, with distinct distances.
fn dual_packet_16() -> Packet {
    let mut firings: Vec<Firing> = Vec::new();
    let mut pair: usize = 0;
    while pair < 6 {
        let azimuth = (pair * 50) as u16;
        firings.push(firing(azimuth, returns_with(100, 1), returns_with(200, 1)));
        firings.push(firing(azimuth, returns_with(300, 1), returns_with(400, 1)));
        pair += 1;
    }
    packet_with_firings(firings, ReturnMode::DualReturn, ProductID::VLP16)
}

#[test]
fn dual_16_pairs_blocks_and_empties_slot() {
    let packet = dual_packet_16();
    let mut context = DualReturn16ChannelContext::from_config(vlp_16_dual_config());
    assert!(context.last_block.is_none());
    let points = context.convert_packet(&packet);
    // one dual point per channel per sequence per pair
    assert_eq!(points.len(), 6 * 32);
    // the pairing slot is empty again immediately after
    assert!(context.last_block.is_none());
    // pair 0, sequence 0, channel 0: strongest from the first block,
    // last from the second, both measurements carried
    let p = points[0];
    assert_eq!(p.strongest.distance_millimeters, 200);
    assert_eq!(p.last.distance_millimeters, 600);
    assert_eq!(p.strongest.azimuth_count, 0);
    assert_eq!(p.last.azimuth_count, 0);
    assert_eq!(p.strongest.timestamp_nanos, p.last.timestamp_nanos);
    // pair 1 sits 2 firing periods later at azimuth 50
    let q = points[32];
    assert_eq!(q.strongest.azimuth_count, 50);
    assert_eq!(q.strongest.timestamp_nanos, 1_000_000 + 2 * 55_296);
    // sequence 1 channel 3 of pair 0
    let r = points[16 + 3];
    assert_eq!(r.strongest.distance_millimeters, 2 * (200 + 3));
    assert_eq!(r.last.distance_millimeters, 2 * (400 + 3));
    assert_eq!(r.strongest.laser_id, 3);
}

#[test]
fn dual_16_unpaired_block_carries_across_packets() {
    // all 12 azimuths distinct: no pairs form, the last block stays in
    // the slot
    let mut firings: Vec<Firing> = Vec::new();
    let mut f: usize = 0;
    while f < 12 {
        firings.push(firing((f * 7) as u16, returns_with(100, 0), returns_with(200, 0)));
        f += 1;
    }
    let packet = packet_with_firings(firings, ReturnMode::DualReturn, ProductID::VLP16);
    let mut context = DualReturn16ChannelContext::from_config(vlp_16_dual_config());
    let points = context.convert_packet(&packet);
    assert!(points.is_empty());
    let retained = context.last_block.clone().unwrap();
    assert_eq!(retained.azimuth_count, 77);
    // a following packet whose first block shares that azimuth closes the
    // pair across the packet boundary
    let mut firings: Vec<Firing> = Vec::new();
    firings.push(firing(77, returns_with(300, 0), returns_with(400, 0)));
    let mut f: usize = 1;
    while f < 12 {
        firings.push(firing((1000 + f * 7) as u16, returns_with(100, 0), returns_with(200, 0)));
        f += 1;
    }
    let packet = packet_with_firings(firings, ReturnMode::DualReturn, ProductID::VLP16);
    let points = context.convert_packet(&packet);
    assert_eq!(points.len(), 32);
    assert_eq!(points[0].strongest.distance_millimeters, 200);
    assert_eq!(points[0].last.distance_millimeters, 600);
    let retained = context.last_block.clone().unwrap();
    assert_eq!(retained.azimuth_count, 1077);
}

#[test]
fn dual_32_pairs_blocks_per_channel() {
    let mut firings: Vec<Firing> = Vec::new();
    let mut pair: usize = 0;
    while pair < 6 {
        let azimuth = (pair * 60) as u16;
        firings.push(firing(azimuth, returns_with(100, 1), returns_with(200, 1)));
        firings.push(firing(azimuth, returns_with(500, 1), returns_with(600, 1)));
        pair += 1;
    }
    let packet = packet_with_firings(firings, ReturnMode::DualReturn, ProductID::VLP32C);
    let mut context = DualReturn32ChannelContext::from_config(config_32_dual());
    let points = context.convert_packet(&packet);
    // exactly one dual point per channel per pair
    assert_eq!(points.len(), 6 * 32);
    assert!(context.last_block.is_none());
    // channel 20 reads the latter sequences at entry 4
    let p = points[20];
    assert_eq!(p.strongest.laser_id, 20);
    assert_eq!(p.strongest.distance_millimeters, 2 * (200 + 4));
    assert_eq!(p.last.distance_millimeters, 2 * (600 + 4));
}

#[test]
fn dynamic_conversion_matches_static() {
    let packet = one_return_packet_16();
    let config = DynamicConfig::StrongestReturn16Channel(vlp_16_strongest_config());
    let mut dynamic_context = DynamicContext::from_config(config);
    let dynamic_points = dynamic_context.convert_packet(&packet);
    let static_context = SingleReturn16ChannelContext::from_config(vlp_16_strongest_config());
    let static_points = static_context.convert_packet(&packet);
    assert_eq!(dynamic_points.len(), static_points.len());
    for (d, s) in dynamic_points.iter().zip(static_points.iter()) {
        assert_eq!(*d, DynamicPoint::SingleReturn(*s));
    }
}

#[test]
fn dynamic_dual_conversion_advances_slot() {
    let packet = dual_packet_16();
    let config = DynamicConfig::DualReturn16Channel(vlp_16_dual_config());
    let mut dynamic_context = DynamicContext::from_config(config);
    let points = dynamic_context.convert_packet(&packet);
    assert_eq!(points.len(), 192);
    match &points[0] {
        DynamicPoint::DualReturn(p) => {
            assert_eq!(p.strongest.distance_millimeters, 200);
            assert_eq!(p.last.distance_millimeters, 600);
        },
        DynamicPoint::SingleReturn(_) => panic!("expected a dual-return point"),
    }
    match &dynamic_context {
        DynamicContext::DualReturn16Channel(inner) => assert!(inner.last_block.is_none()),
        _ => panic!("variant must be preserved"),
    }
}
