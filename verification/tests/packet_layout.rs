use velodyne_lidar::consts::{DUAL_RETURN_CODE, LAST_RETURN_CODE, PACKET_SIZE, STRONGEST_RETURN_CODE};
use velodyne_lidar::packet::{
    timestamps_strictly_increasing, BlockIdentifier, DecodeError, Firing, LaserReturn, Packet,
    ProductID, ReturnMode,
};

fn pattern_buffer(len: usize) -> Vec<u8> {
    let mut b: Vec<u8> = Vec::new();
    let mut i: usize = 0;
    while i < len {
        b.push(((i * 37 + 11) % 256) as u8);
        i += 1;
    }
    b
}

fn zero_laser_returns() -> Vec<LaserReturn> {
    let mut v: Vec<LaserReturn> = Vec::new();
    let mut i: usize = 0;
    while i < 16 {
        v.push(LaserReturn { distance: 0, intensity: 0 });
        i += 1;
    }
    v
}

fn simple_packet() -> Packet {
    let mut firings: Vec<Firing> = Vec::new();
    let mut f: usize = 0;
    while f < 12 {
        firings.push(Firing {
            block_identifier: BlockIdentifier::Block0To31,
            azimuth_count: (f * 100) as u16,
            sequence_former: zero_laser_returns(),
            sequence_latter: zero_laser_returns(),
        });
        f += 1;
    }
    Packet {
        firings,
        timestamp: 123456789,
        return_mode: ReturnMode::Strongest,
        product_id: ProductID::VLP16,
    }
}

#[test]
fn decode_rejects_wrong_lengths() {
    for len in [0usize, 1, 100, 1205, 1207, 2412] {
        let buffer = pattern_buffer(len);
        let r = Packet::from_slice(&buffer);
        assert_eq!(
            r.unwrap_err(),
            DecodeError::LengthMismatch { expected: PACKET_SIZE, actual: len }
        );
    }
}

#[test]
fn decode_accepts_any_full_size_buffer() {
    let buffer = pattern_buffer(PACKET_SIZE);
    assert!(Packet::from_slice(&buffer).is_ok());
    let zeros = vec![0u8; PACKET_SIZE];
    assert!(Packet::from_slice(&zeros).is_ok());
    let ones = vec![0xffu8; PACKET_SIZE];
    assert!(Packet::from_slice(&ones).is_ok());
}

#[test]
fn decode_then_encode_round_trips_bytes() {
    let buffer = pattern_buffer(PACKET_SIZE);
    let packet = Packet::from_slice(&buffer).unwrap();
    assert_eq!(packet.to_bytes(), buffer);
    let zeros = vec![0u8; PACKET_SIZE];
    let packet = Packet::from_slice(&zeros).unwrap();
    assert_eq!(packet.to_bytes(), zeros);
}

#[test]
fn encode_then_decode_round_trips_packet() {
    let packet = simple_packet();
    let bytes = packet.to_bytes();
    assert_eq!(bytes.len(), PACKET_SIZE);
    let decoded = Packet::from_slice(&bytes).unwrap();
    assert_eq!(decoded, packet);
}

#[test]
fn from_buffer_never_fails_and_matches_from_slice() {
    let buffer = pattern_buffer(PACKET_SIZE);
    let array: [u8; 1206] = buffer.clone().try_into().unwrap();
    let from_array = Packet::from_buffer(array);
    let from_slice = Packet::from_slice(&buffer).unwrap();
    assert_eq!(from_array, from_slice);
}

#[test]
fn decode_reads_fields_at_documented_offsets() {
    let mut buffer = vec![0u8; PACKET_SIZE];
    // block 3: identifier 0xddff, azimuth 36000, former channel 2
    // distance 500 and intensity 100
    let base = 300;
    buffer[base] = 0xff;
    buffer[base + 1] = 0xdd;
    buffer[base + 2] = (36000u16 % 256) as u8;
    buffer[base + 3] = (36000u16 / 256) as u8;
    buffer[base + 4 + 3 * 2] = (500u16 % 256) as u8;
    buffer[base + 4 + 3 * 2 + 1] = (500u16 / 256) as u8;
    buffer[base + 4 + 3 * 2 + 2] = 100;
    // latter channel 15 intensity 7
    buffer[base + 52 + 3 * 15 + 2] = 7;
    // timestamp 0x01020304, dual return, product id 0x28
    buffer[1200] = 0x04;
    buffer[1201] = 0x03;
    buffer[1202] = 0x02;
    buffer[1203] = 0x01;
    buffer[1204] = DUAL_RETURN_CODE;
    buffer[1205] = 0x28;
    let packet = Packet::from_slice(&buffer).unwrap();
    assert_eq!(packet.firings.len(), 12);
    let firing = &packet.firings[3];
    assert_eq!(firing.block_identifier, BlockIdentifier::Block32To63);
    assert_eq!(firing.azimuth_count, 36000);
    assert_eq!(firing.sequence_former[2], LaserReturn { distance: 500, intensity: 100 });
    assert_eq!(firing.sequence_latter[15], LaserReturn { distance: 0, intensity: 7 });
    assert_eq!(packet.firings[0].block_identifier, BlockIdentifier::Unknown(0));
    assert_eq!(packet.timestamp, 0x01020304);
    assert_eq!(packet.return_mode, ReturnMode::DualReturn);
    assert_eq!(packet.product_id, ProductID::VLP32C);
}

#[test]
fn enum_codes_round_trip() {
    assert_eq!(ReturnMode::from_code(STRONGEST_RETURN_CODE), ReturnMode::Strongest);
    assert_eq!(ReturnMode::from_code(LAST_RETURN_CODE), ReturnMode::LastReturn);
    assert_eq!(ReturnMode::from_code(DUAL_RETURN_CODE), ReturnMode::DualReturn);
    assert_eq!(ReturnMode::from_code(0x99), ReturnMode::Unknown(0x99));
    assert_eq!(ReturnMode::Unknown(0x99).code(), 0x99);
    assert_eq!(BlockIdentifier::from_code(0xeeff), BlockIdentifier::Block0To31);
    assert_eq!(BlockIdentifier::from_code(0xddff), BlockIdentifier::Block32To63);
    assert_eq!(BlockIdentifier::from_code(0x1234), BlockIdentifier::Unknown(0x1234));
    assert_eq!(ProductID::from_code(0x21), ProductID::HDL32E);
    assert_eq!(ProductID::from_code(0x22), ProductID::VLP16);
    assert_eq!(ProductID::from_code(0x23), ProductID::PuckLite);
    assert_eq!(ProductID::from_code(0x24), ProductID::PuckHiRes);
    assert_eq!(ProductID::from_code(0x28), ProductID::VLP32C);
    assert_eq!(ProductID::from_code(0x31), ProductID::Velarray);
    assert_eq!(ProductID::from_code(0xa1), ProductID::VLS128);
    assert_eq!(ProductID::from_code(0x55), ProductID::Unknown(0x55));
    assert_eq!(ProductID::Unknown(0x55).code(), 0x55);
}

#[test]
fn distance_scales_agree() {
    for distance in [0u16, 1, 2, 500, 1234, u16::MAX] {
        let lr = LaserReturn { distance, intensity: 0 };
        assert_eq!(lr.mm_distance(), 2 * distance as u32);
        assert_eq!(lr.micrometer_distance(), 1000 * lr.mm_distance());
        // the floating-point reading: meters equal millimeters over one
        // thousand
        let meters = distance as f64 * 0.002;
        let millimeters = distance as f64 * 2.0;
        assert!((meters - millimeters / 1000.0).abs() < 1e-12);
        assert!((lr.mm_distance() as f64 - millimeters).abs() < 1e-12);
    }
}

#[test]
fn azimuth_angle_boundaries() {
    let mut firing = Firing {
        block_identifier: BlockIdentifier::Block0To31,
        azimuth_count: 0,
        sequence_former: zero_laser_returns(),
        sequence_latter: zero_laser_returns(),
    };
    assert_eq!(firing.azimuth_millidegrees(), 0);
    let angle = 2.0 * std::f64::consts::PI * firing.azimuth_count as f64 / 36000.0;
    assert_eq!(angle, 0.0);
    firing.azimuth_count = 36000;
    assert_eq!(firing.azimuth_millidegrees(), 360000);
    let angle = 2.0 * std::f64::consts::PI * firing.azimuth_count as f64 / 36000.0;
    assert!((angle - 2.0 * std::f64::consts::PI).abs() < 1e-12);
    firing.azimuth_count = 9000;
    assert_eq!(firing.azimuth_millidegrees(), 90000);
}

#[test]
fn timestamp_monotonicity_check() {
    assert!(timestamps_strictly_increasing(&vec![]));
    assert!(timestamps_strictly_increasing(&vec![5]));
    assert!(timestamps_strictly_increasing(&vec![1, 2, 10, 999]));
    assert!(!timestamps_strictly_increasing(&vec![1, 2, 2, 3]));
    assert!(!timestamps_strictly_increasing(&vec![5, 4]));
    assert!(!timestamps_strictly_increasing(&vec![1, 10, 9, 20]));
}

#[test]
fn datetime_reads_timestamp_as_epoch_microseconds() {
    let mut packet = simple_packet();
    packet.timestamp = 1_500_000;
    assert_eq!(packet.timestamp_secs(), 1);
    assert_eq!(packet.timestamp_subsec_nanos(), 500_000_000);
    let expected = chrono::DateTime::from_timestamp(1, 500_000_000).unwrap().naive_utc();
    assert_eq!(packet.datetime(), expected);
    packet.timestamp = u32::MAX;
    let expected = chrono::DateTime::from_timestamp(4294, 967_295_000).unwrap().naive_utc();
    assert_eq!(packet.datetime(), expected);
}
