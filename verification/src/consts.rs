//! Protocol timing, geometry and layout constants for the sensor wire format.

use vstd::prelude::*;

verus! {

/// UDP port on which the sensor emits data packets.
pub const DATA_PORT: u16 = 2368;

/// Number of laser returns in each of a firing's two sequences.
pub const CHANNEL_PER_FIRING: usize = 16;

/// Number of firing blocks in one data packet.
pub const FIRING_PER_PACKET: usize = 12;

/// Number of azimuth encoder ticks per revolution; the extra last tick
/// overlaps with the first tick (36000 is the same direction as 0).
pub const AZIMUTH_COUNT_PER_REV: usize = 36001;

/// Time between two consecutive laser returns within one firing sequence,
/// in nanoseconds (2.304 microseconds).
pub const LASER_RETURN_PERIOD_NANOS: u64 = 2304;

/// Time between the starts of two consecutive firing sequences, in
/// nanoseconds (55.296 microseconds).
pub const FIRING_PERIOD_NANOS: u64 = 55296;

/// Raw distance resolution: one distance encoder count is two millimeters.
pub const MM_PER_DISTANCE_COUNT: u32 = 2;

/// Bytes of one laser return on the wire: distance (2) + intensity (1).
pub const LASER_RETURN_SIZE: usize = 3;

/// Bytes of one firing block on the wire: block identifier (2) + azimuth
/// count (2) + 32 laser returns (96).
pub const FIRING_SIZE: usize = 100;

/// Bytes of one whole data packet on the wire: 12 firings (1200) +
/// timestamp (4) + return mode (1) + product id (1).
pub const PACKET_SIZE: usize = 1206;

/// Wire code of the block identifier covering channels 0 to 31.
pub const BLOCK_0_TO_31_CODE: u16 = 0xeeff;

/// Wire code of the block identifier covering channels 32 to 63.
pub const BLOCK_32_TO_63_CODE: u16 = 0xddff;

/// Wire code of the strongest-return mode.
pub const STRONGEST_RETURN_CODE: u8 = 0x37;

/// Wire code of the last-return mode.
pub const LAST_RETURN_CODE: u8 = 0x38;

/// Wire code of the dual-return mode.
pub const DUAL_RETURN_CODE: u8 = 0x39;

} // verus!
