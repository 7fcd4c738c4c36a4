//! The packet-to-point converter: turns one decoded packet plus a mutable
//! per-stream context into a finite sequence of typed point measurements,
//! one per laser return (single-return modes) or one per paired pair of
//! measurements (dual-return mode).
//!
//! Points carry exact integer quantities in polar form: distance in
//! millimeters, azimuth as the raw encoder count (hundredths of a degree),
//! the calibration altitude angle in millidegrees, the calibration origin
//! correction in micrometers, and an absolute fire time in nanoseconds.
//! Zero-distance returns (no echo) are passed through as points with
//! distance zero rather than filtered, so consumers keep the full
//! fixed-size per-firing grid.
//!
//! The per-channel fire time follows the protocol timing model: firing
//! sequences start one firing period apart, and within a sequence each
//! channel fires one laser-return period after the previous one. A
//! 16-channel block holds two sequences of the same 16 lasers; a 32-channel
//! block holds one firing of 32 channels, of which adjacent pairs fire
//! together.

use vstd::prelude::*;

use vstd::arithmetic::div_mod::lemma_fundamental_div_mod_converse;

use crate::consts::{
    CHANNEL_PER_FIRING, FIRING_PERIOD_NANOS, FIRING_PER_PACKET, LASER_RETURN_PERIOD_NANOS,
};
use crate::packet::{Firing, FiringView, LaserReturn, Packet, PacketView};
use crate::pcd_converter::context::{
    ContextView, DualReturn16ChannelContext, DualReturn32ChannelContext, DynamicContext,
    SingleReturn16ChannelContext, SingleReturn32ChannelContext,
};

verus! {

/// One measurement reconstructed from a single-return-mode packet, in
/// exact integer polar form. The caller owns the point; it refers to
/// nothing in the packet or the context.
#[derive(Clone, Copy, Debug, PartialEq, Eq, Structural)]
pub struct SingleReturnPoint {
    /// The physical channel (laser) this measurement came from.
    pub laser_id: u8,
    /// Absolute fire time in nanoseconds: the packet timestamp (read as
    /// microseconds) plus this channel's offset within the packet.
    pub timestamp_nanos: u64,
    /// Raw azimuth encoder count of the firing, in hundredths of a degree.
    pub azimuth_count: u16,
    /// Measured distance in millimeters; zero means no return.
    pub distance_millimeters: u32,
    /// Reflectivity of the return.
    pub intensity: u8,
    /// Calibration altitude angle of the channel in millidegrees, measured
    /// down from the vertical axis.
    pub altitude_millidegrees: i64,
    /// Calibration origin correction of the channel in micrometers.
    pub azimuth_offset_micrometers: i32,
}

/// One paired dual-return measurement: the strongest and the last return
/// of the same physical shot, reconstructed from two consecutive blocks
/// sharing an azimuth.
#[derive(Clone, Copy, Debug, PartialEq, Eq, Structural)]
pub struct DualReturnPoint {
    /// The strongest return of the shot, from the first block of the pair.
    pub strongest: SingleReturnPoint,
    /// The last return of the shot, from the second block of the pair.
    pub last: SingleReturnPoint,
}

/// A point whose shape was selected at run time: single- or dual-return.
#[derive(Clone, Copy, Debug, PartialEq, Eq, Structural)]
pub enum DynamicPoint {
    SingleReturn(SingleReturnPoint),
    DualReturn(DualReturnPoint),
}

/// The fire time of channel `c` in sequence `s` of block `f` of a
/// 16-channel packet, in nanoseconds: each block holds two sequences, so
/// sequence starts are `(2 f + s)` firing periods after the packet
/// timestamp, and channels fire one laser-return period apart.
pub open spec fn spec_fire_time_nanos_16(timestamp: u32, f: int, s: int, c: int) -> u64 {
    (timestamp * 1000 + (2 * f + s) * FIRING_PERIOD_NANOS + c * LASER_RETURN_PERIOD_NANOS) as u64
}

/// The fire time of channel `c` of block `f` of a 32-channel packet, in
/// nanoseconds: one sequence per block, with adjacent channel pairs firing
/// together one laser-return period apart.
pub open spec fn spec_fire_time_nanos_32(timestamp: u32, f: int, c: int) -> u64 {
    (timestamp * 1000 + f * FIRING_PERIOD_NANOS + (c / 2) * LASER_RETURN_PERIOD_NANOS) as u64
}

/// The single-return point for sequence `s`, channel `c` of block `f` of a
/// 16-channel packet.
pub open spec fn spec_single_point_16(
    ctx: ContextView,
    p: PacketView,
    f: int,
    s: int,
    c: int,
) -> SingleReturnPoint {
    let firing = p.firings[f];
    let lr = if s == 0 {
        firing.sequence_former[c]
    } else {
        firing.sequence_latter[c]
    };
    SingleReturnPoint {
        laser_id: c as u8,
        timestamp_nanos: spec_fire_time_nanos_16(p.timestamp, f, s, c),
        azimuth_count: firing.azimuth_count,
        distance_millimeters: lr.spec_mm_distance(),
        intensity: lr.intensity,
        altitude_millidegrees: ctx.altitude_millidegrees[c],
        azimuth_offset_micrometers: ctx.azimuth_offset_micrometers[c],
    }
}

/// The whole point sequence of a 16-channel single-return conversion: 384
/// points in block-major order, the former sequence before the latter,
/// channels in wire order.
pub open spec fn spec_convert_single_16(ctx: ContextView, p: PacketView) -> Seq<SingleReturnPoint> {
    Seq::new(384, |i: int| spec_single_point_16(ctx, p, i / 32, (i % 32) / 16, i % 16))
}

/// The single-return point for channel `c` of block `f` of a 32-channel
/// packet: channels 0 to 15 come from the former sequence and 16 to 31
/// from the latter.
pub open spec fn spec_single_point_32(
    ctx: ContextView,
    p: PacketView,
    f: int,
    c: int,
) -> SingleReturnPoint {
    let firing = p.firings[f];
    let lr = if c < 16 {
        firing.sequence_former[c]
    } else {
        firing.sequence_latter[c - 16]
    };
    SingleReturnPoint {
        laser_id: c as u8,
        timestamp_nanos: spec_fire_time_nanos_32(p.timestamp, f, c),
        azimuth_count: firing.azimuth_count,
        distance_millimeters: lr.spec_mm_distance(),
        intensity: lr.intensity,
        altitude_millidegrees: ctx.altitude_millidegrees[c],
        azimuth_offset_micrometers: ctx.azimuth_offset_micrometers[c],
    }
}

/// The whole point sequence of a 32-channel single-return conversion: 384
/// points in block-major order, channels in wire order.
pub open spec fn spec_convert_single_32(ctx: ContextView, p: PacketView) -> Seq<SingleReturnPoint> {
    Seq::new(384, |i: int| spec_single_point_32(ctx, p, i / 32, i % 32))
}

/// Decomposing the flat index of a 16-channel point back into its block,
/// sequence and channel.
proof fn lemma_point_index_16(f: int, s: int, c: int)
    requires
        0 <= f < FIRING_PER_PACKET,
        0 <= s < 2,
        0 <= c < CHANNEL_PER_FIRING,
    ensures
        0 <= 32 * f + 16 * s + c < 384,
        (32 * f + 16 * s + c) / 32 == f,
        ((32 * f + 16 * s + c) % 32) / 16 == s,
        (32 * f + 16 * s + c) % 16 == c,
{
    let i = 32 * f + 16 * s + c;
    lemma_fundamental_div_mod_converse(i, 32, f, 16 * s + c);
    lemma_fundamental_div_mod_converse(16 * s + c, 16, s, c);
    lemma_fundamental_div_mod_converse(i, 16, 2 * f + s, c);
}

/// Decomposing the flat index of a 32-channel point back into its block
/// and channel.
proof fn lemma_point_index_32(f: int, c: int)
    requires
        0 <= f < FIRING_PER_PACKET,
        0 <= c < 32,
    ensures
        0 <= 32 * f + c < 384,
        (32 * f + c) / 32 == f,
        (32 * f + c) % 32 == c,
{
    lemma_fundamental_div_mod_converse(32 * f + c, 32, f, c);
}

/// Computes the fire time of sequence `s`, channel `c` of block `f`,
/// 16-channel timing.
fn fire_time_nanos_16(timestamp: u32, f: usize, s: usize, c: usize) -> (r: u64)
    requires
        f < FIRING_PER_PACKET,
        s < 2,
        c < CHANNEL_PER_FIRING,
    ensures
        r == spec_fire_time_nanos_16(timestamp, f as int, s as int, c as int),
{
    timestamp as u64 * 1000 + (2 * f + s) as u64 * FIRING_PERIOD_NANOS + c as u64
        * LASER_RETURN_PERIOD_NANOS
}

/// Computes the fire time of channel `c` of block `f`, 32-channel timing.
fn fire_time_nanos_32(timestamp: u32, f: usize, c: usize) -> (r: u64)
    requires
        f < FIRING_PER_PACKET,
        c < 32,
    ensures
        r == spec_fire_time_nanos_32(timestamp, f as int, c as int),
{
    timestamp as u64 * 1000 + f as u64 * FIRING_PERIOD_NANOS + (c / 2) as u64
        * LASER_RETURN_PERIOD_NANOS
}

impl SingleReturn16ChannelContext {
    /// Converts one decoded packet into its 384 single-return points, 32
    /// per block (16 channels, fired twice). The context carries no
    /// cross-packet state, so conversion reads it without changing it; it
    /// cannot fail on a well-formed packet and matching context.
    pub fn convert_packet(&self, packet: &Packet) -> (r: Vec<SingleReturnPoint>)
        requires
            self.wf(),
            packet@.wf(),
        ensures
            r@ == spec_convert_single_16(self@, packet@),
            r@.len() == 384,
    {
        let mut out: Vec<SingleReturnPoint> = Vec::new();
        let mut f: usize = 0;
        while f < FIRING_PER_PACKET
            invariant
                self.wf(),
                packet@.wf(),
                f <= FIRING_PER_PACKET,
                out@.len() == 32 * f,
                forall|j: int|
                    0 <= j < out@.len() ==> out@[j] == spec_single_point_16(
                        self@,
                        packet@,
                        j / 32,
                        (j % 32) / 16,
                        j % 16,
                    ),
            decreases FIRING_PER_PACKET - f,
        {
            let firing = &packet.firings[f];
            let mut s: usize = 0;
            while s < 2
                invariant
                    self.wf(),
                    packet@.wf(),
                    f < FIRING_PER_PACKET,
                    s <= 2,
                    firing@ == packet@.firings[f as int],
                    out@.len() == 32 * f + 16 * s,
                    forall|j: int|
                        0 <= j < out@.len() ==> out@[j] == spec_single_point_16(
                            self@,
                            packet@,
                            j / 32,
                            (j % 32) / 16,
                            j % 16,
                        ),
                decreases 2 - s,
            {
                let mut c: usize = 0;
                while c < CHANNEL_PER_FIRING
                    invariant
                        self.wf(),
                        packet@.wf(),
                        f < FIRING_PER_PACKET,
                        s < 2,
                        c <= CHANNEL_PER_FIRING,
                        firing@ == packet@.firings[f as int],
                        out@.len() == 32 * f + 16 * s + c,
                        forall|j: int|
                            0 <= j < out@.len() ==> out@[j] == spec_single_point_16(
                                self@,
                                packet@,
                                j / 32,
                                (j % 32) / 16,
                                j % 16,
                            ),
                    decreases CHANNEL_PER_FIRING - c,
                {
                    let lr = if s == 0 {
                        firing.sequence_former[c]
                    } else {
                        firing.sequence_latter[c]
                    };
                    let point = SingleReturnPoint {
                        laser_id: c as u8,
                        timestamp_nanos: fire_time_nanos_16(packet.timestamp, f, s, c),
                        azimuth_count: firing.azimuth_count,
                        distance_millimeters: lr.mm_distance(),
                        intensity: lr.intensity,
                        altitude_millidegrees: self.altitude_millidegrees[c],
                        azimuth_offset_micrometers: self.azimuth_offset_micrometers[c],
                    };
                    proof {
                        lemma_point_index_16(f as int, s as int, c as int);
                        assert(point == spec_single_point_16(
                            self@,
                            packet@,
                            f as int,
                            s as int,
                            c as int,
                        ));
                    }
                    out.push(point);
                    c += 1;
                }
                s += 1;
            }
            f += 1;
        }
        proof {
            assert(out@ =~= spec_convert_single_16(self@, packet@));
        }
        out
    }
}

impl SingleReturn32ChannelContext {
    /// Converts one decoded packet into its 384 single-return points, one
    /// per channel per block. The context carries no cross-packet state,
    /// so conversion reads it without changing it; it cannot fail on a
    /// well-formed packet and matching context.
    pub fn convert_packet(&self, packet: &Packet) -> (r: Vec<SingleReturnPoint>)
        requires
            self.wf(),
            packet@.wf(),
        ensures
            r@ == spec_convert_single_32(self@, packet@),
            r@.len() == 384,
    {
        let mut out: Vec<SingleReturnPoint> = Vec::new();
        let mut f: usize = 0;
        while f < FIRING_PER_PACKET
            invariant
                self.wf(),
                packet@.wf(),
                f <= FIRING_PER_PACKET,
                out@.len() == 32 * f,
                forall|j: int|
                    0 <= j < out@.len() ==> out@[j] == spec_single_point_32(
                        self@,
                        packet@,
                        j / 32,
                        j % 32,
                    ),
            decreases FIRING_PER_PACKET - f,
        {
            let firing = &packet.firings[f];
            let mut c: usize = 0;
            while c < 32
                invariant
                    self.wf(),
                    packet@.wf(),
                    f < FIRING_PER_PACKET,
                    c <= 32,
                    firing@ == packet@.firings[f as int],
                    out@.len() == 32 * f + c,
                    forall|j: int|
                        0 <= j < out@.len() ==> out@[j] == spec_single_point_32(
                            self@,
                            packet@,
                            j / 32,
                            j % 32,
                        ),
                decreases 32 - c,
            {
                let lr = if c < 16 {
                    firing.sequence_former[c]
                } else {
                    firing.sequence_latter[c - 16]
                };
                let point = SingleReturnPoint {
                    laser_id: c as u8,
                    timestamp_nanos: fire_time_nanos_32(packet.timestamp, f, c),
                    azimuth_count: firing.azimuth_count,
                    distance_millimeters: lr.mm_distance(),
                    intensity: lr.intensity,
                    altitude_millidegrees: self.altitude_millidegrees[c],
                    azimuth_offset_micrometers: self.azimuth_offset_micrometers[c],
                };
                proof {
                    lemma_point_index_32(f as int, c as int);
                    assert(point == spec_single_point_32(self@, packet@, f as int, c as int));
                }
                out.push(point);
                c += 1;
            }
            f += 1;
        }
        proof {
            assert(out@ =~= spec_convert_single_32(self@, packet@));
        }
        out
    }
}

/// The point one measurement yields: channel, fire time, azimuth, the
/// return's distance and intensity, and the channel's calibration.
pub open spec fn spec_measurement_point(
    c: int,
    t: u64,
    azimuth: u16,
    lr: LaserReturn,
    altitude: i64,
    offset: i32,
) -> SingleReturnPoint {
    SingleReturnPoint {
        laser_id: c as u8,
        timestamp_nanos: t,
        azimuth_count: azimuth,
        distance_millimeters: lr.spec_mm_distance(),
        intensity: lr.intensity,
        altitude_millidegrees: altitude,
        azimuth_offset_micrometers: offset,
    }
}

/// The dual point for sequence `s`, channel `c` of a paired pair of
/// 16-channel blocks: the strongest return from the first block and the
/// last return from the second, sharing the pair's fire time.
pub open spec fn spec_dual_point_16(
    alt: Seq<i64>,
    off: Seq<i32>,
    ts: u32,
    pair_idx: int,
    first: FiringView,
    second: FiringView,
    s: int,
    c: int,
) -> DualReturnPoint {
    let lr1 = if s == 0 {
        first.sequence_former[c]
    } else {
        first.sequence_latter[c]
    };
    let lr2 = if s == 0 {
        second.sequence_former[c]
    } else {
        second.sequence_latter[c]
    };
    let t = spec_fire_time_nanos_16(ts, pair_idx, s, c);
    DualReturnPoint {
        strongest: spec_measurement_point(c, t, first.azimuth_count, lr1, alt[c], off[c]),
        last: spec_measurement_point(c, t, second.azimuth_count, lr2, alt[c], off[c]),
    }
}

/// The 32 dual points one paired pair of 16-channel blocks yields: both
/// sequences, channels in wire order.
pub open spec fn spec_dual_pair_points_16(
    alt: Seq<i64>,
    off: Seq<i32>,
    ts: u32,
    pair_idx: int,
    first: FiringView,
    second: FiringView,
) -> Seq<DualReturnPoint> {
    Seq::new(32, |i: int| spec_dual_point_16(alt, off, ts, pair_idx, first, second, i / 16, i % 16))
}

/// The dual point for channel `c` of a paired pair of 32-channel blocks.
pub open spec fn spec_dual_point_32(
    alt: Seq<i64>,
    off: Seq<i32>,
    ts: u32,
    pair_idx: int,
    first: FiringView,
    second: FiringView,
    c: int,
) -> DualReturnPoint {
    let lr1 = if c < 16 {
        first.sequence_former[c]
    } else {
        first.sequence_latter[c - 16]
    };
    let lr2 = if c < 16 {
        second.sequence_former[c]
    } else {
        second.sequence_latter[c - 16]
    };
    let t = spec_fire_time_nanos_32(ts, pair_idx, c);
    DualReturnPoint {
        strongest: spec_measurement_point(c, t, first.azimuth_count, lr1, alt[c], off[c]),
        last: spec_measurement_point(c, t, second.azimuth_count, lr2, alt[c], off[c]),
    }
}

/// The 32 dual points one paired pair of 32-channel blocks yields,
/// channels in wire order.
pub open spec fn spec_dual_pair_points_32(
    alt: Seq<i64>,
    off: Seq<i32>,
    ts: u32,
    pair_idx: int,
    first: FiringView,
    second: FiringView,
) -> Seq<DualReturnPoint> {
    Seq::new(32, |c: int| spec_dual_point_32(alt, off, ts, pair_idx, first, second, c))
}

/// The pairing slot's mathematical value.
pub open spec fn spec_slot_view(slot: Option<Firing>) -> Option<FiringView> {
    match slot {
        Some(b) => Some(b@),
        None => None,
    }
}

/// The dual-return pairing state machine over a run of blocks, for a
/// 16-channel stream: a block falling on an empty slot is retained; a
/// block whose azimuth equals the retained block's closes the pair,
/// emits its 32 dual points and empties the slot; a block with any other
/// azimuth replaces the retained block, which is dropped unpaired. The
/// result is the emitted points and the final slot.
pub open spec fn spec_convert_dual_16(
    alt: Seq<i64>,
    off: Seq<i32>,
    ts: u32,
    slot: Option<FiringView>,
    firings: Seq<FiringView>,
    pairs_done: int,
) -> (Seq<DualReturnPoint>, Option<FiringView>)
    decreases firings.len(),
{
    if firings.len() == 0 {
        (Seq::<DualReturnPoint>::empty(), slot)
    } else {
        let fir = firings[0];
        let rest = firings.drop_first();
        match slot {
            Some(prev) => {
                if prev.azimuth_count == fir.azimuth_count {
                    let pts = spec_dual_pair_points_16(alt, off, ts, pairs_done, prev, fir);
                    let tail = spec_convert_dual_16(alt, off, ts, None, rest, pairs_done + 1);
                    (pts + tail.0, tail.1)
                } else {
                    spec_convert_dual_16(alt, off, ts, Some(fir), rest, pairs_done)
                }
            },
            None => spec_convert_dual_16(alt, off, ts, Some(fir), rest, pairs_done),
        }
    }
}

/// The dual-return pairing state machine for a 32-channel stream; the
/// same pairing rule as [`spec_convert_dual_16`] with 32-channel points.
pub open spec fn spec_convert_dual_32(
    alt: Seq<i64>,
    off: Seq<i32>,
    ts: u32,
    slot: Option<FiringView>,
    firings: Seq<FiringView>,
    pairs_done: int,
) -> (Seq<DualReturnPoint>, Option<FiringView>)
    decreases firings.len(),
{
    if firings.len() == 0 {
        (Seq::<DualReturnPoint>::empty(), slot)
    } else {
        let fir = firings[0];
        let rest = firings.drop_first();
        match slot {
            Some(prev) => {
                if prev.azimuth_count == fir.azimuth_count {
                    let pts = spec_dual_pair_points_32(alt, off, ts, pairs_done, prev, fir);
                    let tail = spec_convert_dual_32(alt, off, ts, None, rest, pairs_done + 1);
                    (pts + tail.0, tail.1)
                } else {
                    spec_convert_dual_32(alt, off, ts, Some(fir), rest, pairs_done)
                }
            },
            None => spec_convert_dual_32(alt, off, ts, Some(fir), rest, pairs_done),
        }
    }
}

/// Copies a firing field by field.
fn clone_firing(f: &Firing) -> (r: Firing)
    ensures
        r@ == f@,
{
    let mut sequence_former: Vec<LaserReturn> = Vec::new();
    let mut i: usize = 0;
    while i < f.sequence_former.len()
        invariant
            i <= f.sequence_former@.len(),
            sequence_former@ == f.sequence_former@.subrange(0, i as int),
        decreases f.sequence_former@.len() - i,
    {
        sequence_former.push(f.sequence_former[i]);
        proof {
            assert(sequence_former@ =~= f.sequence_former@.subrange(0, i + 1));
        }
        i += 1;
    }
    let mut sequence_latter: Vec<LaserReturn> = Vec::new();
    i = 0;
    while i < f.sequence_latter.len()
        invariant
            i <= f.sequence_latter@.len(),
            sequence_latter@ == f.sequence_latter@.subrange(0, i as int),
        decreases f.sequence_latter@.len() - i,
    {
        sequence_latter.push(f.sequence_latter[i]);
        proof {
            assert(sequence_latter@ =~= f.sequence_latter@.subrange(0, i + 1));
        }
        i += 1;
    }
    let r = Firing {
        block_identifier: f.block_identifier,
        azimuth_count: f.azimuth_count,
        sequence_former,
        sequence_latter,
    };
    proof {
        assert(f.sequence_former@.subrange(0, f.sequence_former@.len() as int)
            =~= f.sequence_former@);
        assert(f.sequence_latter@.subrange(0, f.sequence_latter@.len() as int)
            =~= f.sequence_latter@);
        assert(r@ =~= f@);
    }
    r
}

impl DualReturn16ChannelContext {
    /// Converts one decoded dual-return packet into paired points,
    /// advancing the pairing slot: two consecutive blocks sharing an
    /// azimuth close a pair and yield one dual point per channel per
    /// sequence; an unpaired block is retained in the slot across calls
    /// until its partner arrives. Conversion cannot fail on a well-formed
    /// packet and matching context.
    pub fn convert_packet(&mut self, packet: &Packet) -> (r: Vec<DualReturnPoint>)
        requires
            old(self).wf(),
            packet@.wf(),
        ensures
            final(self).wf(),
            final(self)@.altitude_millidegrees == old(self)@.altitude_millidegrees,
            final(self)@.azimuth_offset_micrometers == old(self)@.azimuth_offset_micrometers,
            ({
                let full = spec_convert_dual_16(
                    old(self)@.altitude_millidegrees,
                    old(self)@.azimuth_offset_micrometers,
                    packet@.timestamp,
                    old(self)@.last_block,
                    packet@.firings,
                    0,
                );
                r@ == full.0 && final(self)@.last_block == full.1
            }),
    {
        let ghost alt = self@.altitude_millidegrees;
        let ghost off = self@.azimuth_offset_micrometers;
        let ghost full = spec_convert_dual_16(
            alt,
            off,
            packet@.timestamp,
            self@.last_block,
            packet@.firings,
            0,
        );
        let mut slot: Option<Firing> = None;
        core::mem::swap(&mut slot, &mut self.last_block);
        let mut out: Vec<DualReturnPoint> = Vec::new();
        let mut pairs_done: usize = 0;
        let mut f: usize = 0;
        proof {
            assert(packet@.firings.subrange(0, FIRING_PER_PACKET as int) =~= packet@.firings);
            assert(Seq::<DualReturnPoint>::empty() + full.0 =~= full.0);
        }
        while f < FIRING_PER_PACKET
            invariant
                f <= FIRING_PER_PACKET,
                packet@.wf(),
                self.altitude_millidegrees@ == alt,
                self.azimuth_offset_micrometers@ == off,
                alt.len() == CHANNEL_PER_FIRING,
                off.len() == CHANNEL_PER_FIRING,
                match slot {
                    Some(b) => b@.wf() && 2 * pairs_done <= f,
                    None => 2 * pairs_done <= f + 1,
                },
                ({
                    let rest = spec_convert_dual_16(
                        alt,
                        off,
                        packet@.timestamp,
                        spec_slot_view(slot),
                        packet@.firings.subrange(f as int, FIRING_PER_PACKET as int),
                        pairs_done as int,
                    );
                    full.0 == out@ + rest.0 && full.1 == rest.1
                }),
            decreases FIRING_PER_PACKET - f,
        {
            let ghost fsub = packet@.firings.subrange(f as int, FIRING_PER_PACKET as int);
            let ghost rest = spec_convert_dual_16(
                alt,
                off,
                packet@.timestamp,
                spec_slot_view(slot),
                fsub,
                pairs_done as int,
            );
            proof {
                assert(fsub[0] == packet@.firings[f as int]);
                assert(fsub.drop_first() =~= packet@.firings.subrange(
                    f as int + 1,
                    FIRING_PER_PACKET as int,
                ));
            }
            let cur_azimuth = packet.firings[f].azimuth_count;
            match slot {
                Some(prev) => {
                    if prev.azimuth_count == cur_azimuth {
                        let firing = &packet.firings[f];
                        let ghost pair_pts = spec_dual_pair_points_16(
                            alt,
                            off,
                            packet@.timestamp,
                            pairs_done as int,
                            prev@,
                            firing@,
                        );
                        let mut pts: Vec<DualReturnPoint> = Vec::new();
                        let mut s: usize = 0;
                        while s < 2
                            invariant
                                s <= 2,
                                packet@.wf(),
                                f < FIRING_PER_PACKET,
                                pairs_done < FIRING_PER_PACKET,
                                self.altitude_millidegrees@ == alt,
                                self.azimuth_offset_micrometers@ == off,
                                alt.len() == CHANNEL_PER_FIRING,
                                off.len() == CHANNEL_PER_FIRING,
                                prev@.wf(),
                                firing@ == packet@.firings[f as int],
                                pair_pts == spec_dual_pair_points_16(
                                    alt,
                                    off,
                                    packet@.timestamp,
                                    pairs_done as int,
                                    prev@,
                                    firing@,
                                ),
                                pts@.len() == 16 * s,
                                forall|j: int| 0 <= j < pts@.len() ==> pts@[j] == pair_pts[j],
                            decreases 2 - s,
                        {
                            let mut c: usize = 0;
                            while c < CHANNEL_PER_FIRING
                                invariant
                                    s < 2,
                                    c <= CHANNEL_PER_FIRING,
                                    packet@.wf(),
                                    f < FIRING_PER_PACKET,
                                    pairs_done < FIRING_PER_PACKET,
                                    self.altitude_millidegrees@ == alt,
                                    self.azimuth_offset_micrometers@ == off,
                                    alt.len() == CHANNEL_PER_FIRING,
                                    off.len() == CHANNEL_PER_FIRING,
                                    prev@.wf(),
                                    firing@ == packet@.firings[f as int],
                                    pair_pts == spec_dual_pair_points_16(
                                        alt,
                                        off,
                                        packet@.timestamp,
                                        pairs_done as int,
                                        prev@,
                                        firing@,
                                    ),
                                    pts@.len() == 16 * s + c,
                                    forall|j: int| 0 <= j < pts@.len() ==> pts@[j] == pair_pts[j],
                                decreases CHANNEL_PER_FIRING - c,
                            {
                                let lr1 = if s == 0 {
                                    prev.sequence_former[c]
                                } else {
                                    prev.sequence_latter[c]
                                };
                                let lr2 = if s == 0 {
                                    firing.sequence_former[c]
                                } else {
                                    firing.sequence_latter[c]
                                };
                                let t = fire_time_nanos_16(packet.timestamp, pairs_done, s, c);
                                let point = DualReturnPoint {
                                    strongest: SingleReturnPoint {
                                        laser_id: c as u8,
                                        timestamp_nanos: t,
                                        azimuth_count: prev.azimuth_count,
                                        distance_millimeters: lr1.mm_distance(),
                                        intensity: lr1.intensity,
                                        altitude_millidegrees: self.altitude_millidegrees[c],
                                        azimuth_offset_micrometers: self.azimuth_offset_micrometers[c],
                                    },
                                    last: SingleReturnPoint {
                                        laser_id: c as u8,
                                        timestamp_nanos: t,
                                        azimuth_count: firing.azimuth_count,
                                        distance_millimeters: lr2.mm_distance(),
                                        intensity: lr2.intensity,
                                        altitude_millidegrees: self.altitude_millidegrees[c],
                                        azimuth_offset_micrometers: self.azimuth_offset_micrometers[c],
                                    },
                                };
                                proof {
                                    lemma_fundamental_div_mod_converse(
                                        16 * (s as int) + c as int,
                                        16,
                                        s as int,
                                        c as int,
                                    );
                                    assert(point == pair_pts[16 * (s as int) + c as int]);
                                }
                                pts.push(point);
                                c += 1;
                            }
                            s += 1;
                        }
                        let ghost out0 = out@;
                        proof {
                            assert(pts@ =~= pair_pts);
                        }
                        out.append(&mut pts);
                        slot = None;
                        pairs_done += 1;
                        proof {
                            let rest2 = spec_convert_dual_16(
                                alt,
                                off,
                                packet@.timestamp,
                                None,
                                packet@.firings.subrange(f as int + 1, FIRING_PER_PACKET as int),
                                pairs_done as int,
                            );
                            assert(rest.0 == pair_pts + rest2.0 && rest.1 == rest2.1);
                            assert(out0 + (pair_pts + rest2.0) =~= (out0 + pair_pts) + rest2.0);
                        }
                    } else {
                        slot = Some(clone_firing(&packet.firings[f]));
                    }
                },
                None => {
                    slot = Some(clone_firing(&packet.firings[f]));
                },
            }
            f += 1;
        }
        proof {
            let rest_end = spec_convert_dual_16(
                alt,
                off,
                packet@.timestamp,
                spec_slot_view(slot),
                packet@.firings.subrange(FIRING_PER_PACKET as int, FIRING_PER_PACKET as int),
                pairs_done as int,
            );
            assert(packet@.firings.subrange(FIRING_PER_PACKET as int, FIRING_PER_PACKET as int)
                =~= Seq::<FiringView>::empty());
            assert(out@ + rest_end.0 =~= out@);
        }
        self.last_block = slot;
        out
    }
}

impl DualReturn32ChannelContext {
    /// Converts one decoded dual-return packet into paired points,
    /// advancing the pairing slot: two consecutive blocks sharing an
    /// azimuth close a pair and yield one dual point per channel; an
    /// unpaired block is retained in the slot across calls until its
    /// partner arrives. Conversion cannot fail on a well-formed packet and
    /// matching context.
    pub fn convert_packet(&mut self, packet: &Packet) -> (r: Vec<DualReturnPoint>)
        requires
            old(self).wf(),
            packet@.wf(),
        ensures
            final(self).wf(),
            final(self)@.altitude_millidegrees == old(self)@.altitude_millidegrees,
            final(self)@.azimuth_offset_micrometers == old(self)@.azimuth_offset_micrometers,
            ({
                let full = spec_convert_dual_32(
                    old(self)@.altitude_millidegrees,
                    old(self)@.azimuth_offset_micrometers,
                    packet@.timestamp,
                    old(self)@.last_block,
                    packet@.firings,
                    0,
                );
                r@ == full.0 && final(self)@.last_block == full.1
            }),
    {
        let ghost alt = self@.altitude_millidegrees;
        let ghost off = self@.azimuth_offset_micrometers;
        let ghost full = spec_convert_dual_32(
            alt,
            off,
            packet@.timestamp,
            self@.last_block,
            packet@.firings,
            0,
        );
        let mut slot: Option<Firing> = None;
        core::mem::swap(&mut slot, &mut self.last_block);
        let mut out: Vec<DualReturnPoint> = Vec::new();
        let mut pairs_done: usize = 0;
        let mut f: usize = 0;
        proof {
            assert(packet@.firings.subrange(0, FIRING_PER_PACKET as int) =~= packet@.firings);
            assert(Seq::<DualReturnPoint>::empty() + full.0 =~= full.0);
        }
        while f < FIRING_PER_PACKET
            invariant
                f <= FIRING_PER_PACKET,
                packet@.wf(),
                self.altitude_millidegrees@ == alt,
                self.azimuth_offset_micrometers@ == off,
                alt.len() == 32,
                off.len() == 32,
                match slot {
                    Some(b) => b@.wf() && 2 * pairs_done <= f,
                    None => 2 * pairs_done <= f + 1,
                },
                ({
                    let rest = spec_convert_dual_32(
                        alt,
                        off,
                        packet@.timestamp,
                        spec_slot_view(slot),
                        packet@.firings.subrange(f as int, FIRING_PER_PACKET as int),
                        pairs_done as int,
                    );
                    full.0 == out@ + rest.0 && full.1 == rest.1
                }),
            decreases FIRING_PER_PACKET - f,
        {
            let ghost fsub = packet@.firings.subrange(f as int, FIRING_PER_PACKET as int);
            let ghost rest = spec_convert_dual_32(
                alt,
                off,
                packet@.timestamp,
                spec_slot_view(slot),
                fsub,
                pairs_done as int,
            );
            proof {
                assert(fsub[0] == packet@.firings[f as int]);
                assert(fsub.drop_first() =~= packet@.firings.subrange(
                    f as int + 1,
                    FIRING_PER_PACKET as int,
                ));
            }
            let cur_azimuth = packet.firings[f].azimuth_count;
            match slot {
                Some(prev) => {
                    if prev.azimuth_count == cur_azimuth {
                        let firing = &packet.firings[f];
                        let ghost pair_pts = spec_dual_pair_points_32(
                            alt,
                            off,
                            packet@.timestamp,
                            pairs_done as int,
                            prev@,
                            firing@,
                        );
                        let mut pts: Vec<DualReturnPoint> = Vec::new();
                        let mut c: usize = 0;
                        while c < 32
                            invariant
                                c <= 32,
                                packet@.wf(),
                                f < FIRING_PER_PACKET,
                                pairs_done < FIRING_PER_PACKET,
                                self.altitude_millidegrees@ == alt,
                                self.azimuth_offset_micrometers@ == off,
                                alt.len() == 32,
                                off.len() == 32,
                                prev@.wf(),
                                firing@ == packet@.firings[f as int],
                                pair_pts == spec_dual_pair_points_32(
                                    alt,
                                    off,
                                    packet@.timestamp,
                                    pairs_done as int,
                                    prev@,
                                    firing@,
                                ),
                                pts@.len() == c,
                                forall|j: int| 0 <= j < pts@.len() ==> pts@[j] == pair_pts[j],
                            decreases 32 - c,
                        {
                            let lr1 = if c < 16 {
                                prev.sequence_former[c]
                            } else {
                                prev.sequence_latter[c - 16]
                            };
                            let lr2 = if c < 16 {
                                firing.sequence_former[c]
                            } else {
                                firing.sequence_latter[c - 16]
                            };
                            let t = fire_time_nanos_32(packet.timestamp, pairs_done, c);
                            let point = DualReturnPoint {
                                strongest: SingleReturnPoint {
                                    laser_id: c as u8,
                                    timestamp_nanos: t,
                                    azimuth_count: prev.azimuth_count,
                                    distance_millimeters: lr1.mm_distance(),
                                    intensity: lr1.intensity,
                                    altitude_millidegrees: self.altitude_millidegrees[c],
                                    azimuth_offset_micrometers: self.azimuth_offset_micrometers[c],
                                },
                                last: SingleReturnPoint {
                                    laser_id: c as u8,
                                    timestamp_nanos: t,
                                    azimuth_count: firing.azimuth_count,
                                    distance_millimeters: lr2.mm_distance(),
                                    intensity: lr2.intensity,
                                    altitude_millidegrees: self.altitude_millidegrees[c],
                                    azimuth_offset_micrometers: self.azimuth_offset_micrometers[c],
                                },
                            };
                            proof {
                                assert(point == pair_pts[c as int]);
                            }
                            pts.push(point);
                            c += 1;
                        }
                        let ghost out0 = out@;
                        proof {
                            assert(pts@ =~= pair_pts);
                        }
                        out.append(&mut pts);
                        slot = None;
                        pairs_done += 1;
                        proof {
                            let rest2 = spec_convert_dual_32(
                                alt,
                                off,
                                packet@.timestamp,
                                None,
                                packet@.firings.subrange(f as int + 1, FIRING_PER_PACKET as int),
                                pairs_done as int,
                            );
                            assert(rest.0 == pair_pts + rest2.0 && rest.1 == rest2.1);
                            assert(out0 + (pair_pts + rest2.0) =~= (out0 + pair_pts) + rest2.0);
                        }
                    } else {
                        slot = Some(clone_firing(&packet.firings[f]));
                    }
                },
                None => {
                    slot = Some(clone_firing(&packet.firings[f]));
                },
            }
            f += 1;
        }
        proof {
            let rest_end = spec_convert_dual_32(
                alt,
                off,
                packet@.timestamp,
                spec_slot_view(slot),
                packet@.firings.subrange(FIRING_PER_PACKET as int, FIRING_PER_PACKET as int),
                pairs_done as int,
            );
            assert(packet@.firings.subrange(FIRING_PER_PACKET as int, FIRING_PER_PACKET as int)
                =~= Seq::<FiringView>::empty());
            assert(out@ + rest_end.0 =~= out@);
        }
        self.last_block = slot;
        out
    }
}

/// Wraps single-return points in the run-time point tag.
fn wrap_single_points(pts: Vec<SingleReturnPoint>) -> (r: Vec<DynamicPoint>)
    ensures
        r@ == pts@.map(|i: int, pt: SingleReturnPoint| DynamicPoint::SingleReturn(pt)),
{
    let mut out: Vec<DynamicPoint> = Vec::new();
    let mut i: usize = 0;
    while i < pts.len()
        invariant
            i <= pts@.len(),
            out@.len() == i,
            forall|j: int| 0 <= j < i ==> out@[j] == DynamicPoint::SingleReturn(pts@[j]),
        decreases pts@.len() - i,
    {
        out.push(DynamicPoint::SingleReturn(pts[i]));
        i += 1;
    }
    proof {
        assert(out@ =~= pts@.map(|i: int, pt: SingleReturnPoint| DynamicPoint::SingleReturn(pt)));
    }
    out
}

/// Wraps dual-return points in the run-time point tag.
fn wrap_dual_points(pts: Vec<DualReturnPoint>) -> (r: Vec<DynamicPoint>)
    ensures
        r@ == pts@.map(|i: int, pt: DualReturnPoint| DynamicPoint::DualReturn(pt)),
{
    let mut out: Vec<DynamicPoint> = Vec::new();
    let mut i: usize = 0;
    while i < pts.len()
        invariant
            i <= pts@.len(),
            out@.len() == i,
            forall|j: int| 0 <= j < i ==> out@[j] == DynamicPoint::DualReturn(pts@[j]),
        decreases pts@.len() - i,
    {
        out.push(DynamicPoint::DualReturn(pts[i]));
        i += 1;
    }
    proof {
        assert(out@ =~= pts@.map(|i: int, pt: DualReturnPoint| DynamicPoint::DualReturn(pt)));
    }
    out
}

/// Whether a dynamic conversion behaved as its variant's static conversion
/// defines: the context variant is preserved, the inner context advances
/// exactly as the static conversion advances it, and the points are the
/// static conversion's points wrapped in the run-time tag.
pub open spec fn spec_dynamic_convert_ok(
    old_ctx: DynamicContext,
    new_ctx: DynamicContext,
    p: PacketView,
    r: Seq<DynamicPoint>,
) -> bool {
    match old_ctx {
        DynamicContext::StrongestReturn16Channel(x) => new_ctx == old_ctx && r
            == spec_convert_single_16(x@, p).map(
            |i: int, pt: SingleReturnPoint| DynamicPoint::SingleReturn(pt),
        ),
        DynamicContext::LastReturn16Channel(x) => new_ctx == old_ctx && r
            == spec_convert_single_16(x@, p).map(
            |i: int, pt: SingleReturnPoint| DynamicPoint::SingleReturn(pt),
        ),
        DynamicContext::DualReturn16Channel(x) => match new_ctx {
            DynamicContext::DualReturn16Channel(y) => {
                let full = spec_convert_dual_16(
                    x@.altitude_millidegrees,
                    x@.azimuth_offset_micrometers,
                    p.timestamp,
                    x@.last_block,
                    p.firings,
                    0,
                );
                &&& y@.altitude_millidegrees == x@.altitude_millidegrees
                &&& y@.azimuth_offset_micrometers == x@.azimuth_offset_micrometers
                &&& y@.last_block == full.1
                &&& r == full.0.map(|i: int, pt: DualReturnPoint| DynamicPoint::DualReturn(pt))
            },
            _ => false,
        },
        DynamicContext::StrongestReturn32Channel(x) => new_ctx == old_ctx && r
            == spec_convert_single_32(x@, p).map(
            |i: int, pt: SingleReturnPoint| DynamicPoint::SingleReturn(pt),
        ),
        DynamicContext::LastReturn32Channel(x) => new_ctx == old_ctx && r
            == spec_convert_single_32(x@, p).map(
            |i: int, pt: SingleReturnPoint| DynamicPoint::SingleReturn(pt),
        ),
        DynamicContext::DualReturn32Channel(x) => match new_ctx {
            DynamicContext::DualReturn32Channel(y) => {
                let full = spec_convert_dual_32(
                    x@.altitude_millidegrees,
                    x@.azimuth_offset_micrometers,
                    p.timestamp,
                    x@.last_block,
                    p.firings,
                    0,
                );
                &&& y@.altitude_millidegrees == x@.altitude_millidegrees
                &&& y@.azimuth_offset_micrometers == x@.azimuth_offset_micrometers
                &&& y@.last_block == full.1
                &&& r == full.0.map(|i: int, pt: DualReturnPoint| DynamicPoint::DualReturn(pt))
            },
            _ => false,
        },
    }
}

impl DynamicContext {
    /// Converts one decoded packet with the conversion its run-time
    /// variant selects, wrapping each point in the run-time tag; dual
    /// variants advance their pairing slot exactly as the static
    /// conversion does.
    pub fn convert_packet(&mut self, packet: &Packet) -> (r: Vec<DynamicPoint>)
        requires
            old(self).wf(),
            packet@.wf(),
        ensures
            final(self).wf(),
            spec_dynamic_convert_ok(*old(self), *final(self), packet@, r@),
    {
        let mut tmp = DynamicContext::StrongestReturn16Channel(
            SingleReturn16ChannelContext {
                altitude_millidegrees: Vec::new(),
                azimuth_offset_micrometers: Vec::new(),
            },
        );
        core::mem::swap(&mut tmp, self);
        match tmp {
            DynamicContext::StrongestReturn16Channel(x) => {
                let pts = x.convert_packet(packet);
                *self = DynamicContext::StrongestReturn16Channel(x);
                wrap_single_points(pts)
            },
            DynamicContext::LastReturn16Channel(x) => {
                let pts = x.convert_packet(packet);
                *self = DynamicContext::LastReturn16Channel(x);
                wrap_single_points(pts)
            },
            DynamicContext::DualReturn16Channel(x) => {
                let mut x = x;
                let pts = x.convert_packet(packet);
                *self = DynamicContext::DualReturn16Channel(x);
                wrap_dual_points(pts)
            },
            DynamicContext::StrongestReturn32Channel(x) => {
                let pts = x.convert_packet(packet);
                *self = DynamicContext::StrongestReturn32Channel(x);
                wrap_single_points(pts)
            },
            DynamicContext::LastReturn32Channel(x) => {
                let pts = x.convert_packet(packet);
                *self = DynamicContext::LastReturn32Channel(x);
                wrap_single_points(pts)
            },
            DynamicContext::DualReturn32Channel(x) => {
                let mut x = x;
                let pts = x.convert_packet(packet);
                *self = DynamicContext::DualReturn32Channel(x);
                wrap_dual_points(pts)
            },
        }
    }
}

/// Conversion is deterministic: the points a packet yields, and the state
/// a context is left in, are functions of the packet value and the prior
/// context state alone, so converting the same packet through two
/// independent but equal context states yields identical output.
pub proof fn lemma_conversion_deterministic(
    ctx1: ContextView,
    ctx2: ContextView,
    p1: PacketView,
    p2: PacketView,
)
    requires
        ctx1 == ctx2,
        p1 == p2,
    ensures
        spec_convert_single_16(ctx1, p1) == spec_convert_single_16(ctx2, p2),
        spec_convert_single_32(ctx1, p1) == spec_convert_single_32(ctx2, p2),
        spec_convert_dual_16(
            ctx1.altitude_millidegrees,
            ctx1.azimuth_offset_micrometers,
            p1.timestamp,
            ctx1.last_block,
            p1.firings,
            0,
        ) == spec_convert_dual_16(
            ctx2.altitude_millidegrees,
            ctx2.azimuth_offset_micrometers,
            p2.timestamp,
            ctx2.last_block,
            p2.firings,
            0,
        ),
        spec_convert_dual_32(
            ctx1.altitude_millidegrees,
            ctx1.azimuth_offset_micrometers,
            p1.timestamp,
            ctx1.last_block,
            p1.firings,
            0,
        ) == spec_convert_dual_32(
            ctx2.altitude_millidegrees,
            ctx2.azimuth_offset_micrometers,
            p2.timestamp,
            ctx2.last_block,
            p2.firings,
            0,
        ),
{
}

/// Dual-return pairing law for one pair: with an empty pairing slot, two
/// consecutive blocks sharing an azimuth produce exactly the pair's dual
/// points — one per channel per firing sequence, each carrying both
/// measurements — and leave the slot empty again.
pub proof fn lemma_dual_pairing_16(
    alt: Seq<i64>,
    off: Seq<i32>,
    ts: u32,
    first: FiringView,
    second: FiringView,
    pairs_done: int,
)
    requires
        first.azimuth_count == second.azimuth_count,
    ensures
        spec_convert_dual_16(alt, off, ts, None, seq![first, second], pairs_done).0
            == spec_dual_pair_points_16(alt, off, ts, pairs_done, first, second),
        spec_convert_dual_16(alt, off, ts, None, seq![first, second], pairs_done).1 is None,
{
    let fs = seq![first, second];
    assert(fs[0] == first && fs[1] == second);
    let rest1 = fs.drop_first();
    assert(rest1 =~= seq![second]);
    assert(rest1[0] == second);
    let step1 = spec_convert_dual_16(alt, off, ts, Some(first), rest1, pairs_done);
    assert(spec_convert_dual_16(alt, off, ts, None, fs, pairs_done) == step1);
    let pts = spec_dual_pair_points_16(alt, off, ts, pairs_done, first, second);
    let tail = spec_convert_dual_16(alt, off, ts, None, rest1.drop_first(), pairs_done + 1);
    assert(rest1.drop_first() =~= Seq::<FiringView>::empty());
    assert(tail == (Seq::<DualReturnPoint>::empty(), Option::<FiringView>::None));
    assert(step1 == (pts + tail.0, tail.1));
    assert(pts + Seq::<DualReturnPoint>::empty() =~= pts);
}

/// Dual-return pairing law for one pair of 32-channel blocks, as
/// [`lemma_dual_pairing_16`] with one dual point per channel.
pub proof fn lemma_dual_pairing_32(
    alt: Seq<i64>,
    off: Seq<i32>,
    ts: u32,
    first: FiringView,
    second: FiringView,
    pairs_done: int,
)
    requires
        first.azimuth_count == second.azimuth_count,
    ensures
        spec_convert_dual_32(alt, off, ts, None, seq![first, second], pairs_done).0
            == spec_dual_pair_points_32(alt, off, ts, pairs_done, first, second),
        spec_convert_dual_32(alt, off, ts, None, seq![first, second], pairs_done).1 is None,
{
    let fs = seq![first, second];
    assert(fs[0] == first && fs[1] == second);
    let rest1 = fs.drop_first();
    assert(rest1 =~= seq![second]);
    assert(rest1[0] == second);
    let step1 = spec_convert_dual_32(alt, off, ts, Some(first), rest1, pairs_done);
    assert(spec_convert_dual_32(alt, off, ts, None, fs, pairs_done) == step1);
    let pts = spec_dual_pair_points_32(alt, off, ts, pairs_done, first, second);
    let tail = spec_convert_dual_32(alt, off, ts, None, rest1.drop_first(), pairs_done + 1);
    assert(rest1.drop_first() =~= Seq::<FiringView>::empty());
    assert(tail == (Seq::<DualReturnPoint>::empty(), Option::<FiringView>::None));
    assert(step1 == (pts + tail.0, tail.1));
    assert(pts + Seq::<DualReturnPoint>::empty() =~= pts);
}

/// Dual-return pairing law for a whole run of blocks that pair up
/// pairwise by azimuth, as the 12 blocks of a well-formed dual-return
/// packet do: conversion from an empty slot emits 32 dual points per pair
/// and leaves the slot empty again.
pub proof fn lemma_dual_run_pairing_16(
    alt: Seq<i64>,
    off: Seq<i32>,
    ts: u32,
    firings: Seq<FiringView>,
    n: int,
    pairs_done: int,
)
    requires
        firings.len() == 2 * n,
        forall|q: int|
            0 <= q < n ==> (#[trigger] firings[2 * q]).azimuth_count == firings[2 * q
                + 1].azimuth_count,
    ensures
        spec_convert_dual_16(alt, off, ts, None, firings, pairs_done).0.len() == 32 * n,
        spec_convert_dual_16(alt, off, ts, None, firings, pairs_done).1 is None,
    decreases n,
{
    if n == 0 {
    } else {
        let f0 = firings[0];
        let f1 = firings[1];
        let rest1 = firings.drop_first();
        let rest2 = firings.subrange(2, firings.len() as int);
        let q0: int = 0;
        assert(firings[2 * q0].azimuth_count == firings[2 * q0 + 1].azimuth_count);
        assert(rest1 =~= firings.subrange(1, firings.len() as int));
        assert(rest1[0] == f1);
        assert(rest1.drop_first() =~= rest2);
        assert(rest2.len() == 2 * (n - 1));
        let step1 = spec_convert_dual_16(alt, off, ts, Some(f0), rest1, pairs_done);
        assert(spec_convert_dual_16(alt, off, ts, None, firings, pairs_done) == step1);
        let pts = spec_dual_pair_points_16(alt, off, ts, pairs_done, f0, f1);
        let tail = spec_convert_dual_16(alt, off, ts, None, rest1.drop_first(), pairs_done + 1);
        assert(step1 == (pts + tail.0, tail.1));
        assert(tail == spec_convert_dual_16(alt, off, ts, None, rest2, pairs_done + 1));
        assert forall|q: int|
            0 <= q < n - 1 implies (#[trigger] rest2[2 * q]).azimuth_count == rest2[2 * q
            + 1].azimuth_count by {
            assert(rest2[2 * q] == firings[2 * q + 2]);
            assert(rest2[2 * q + 1] == firings[2 * q + 3]);
            assert(firings[2 * (q + 1)].azimuth_count == firings[2 * (q + 1) + 1].azimuth_count);
            assert(2 * (q + 1) == 2 * q + 2 && 2 * (q + 1) + 1 == 2 * q + 3);
        }
        lemma_dual_run_pairing_16(alt, off, ts, rest2, n - 1, pairs_done + 1);
        assert(pts.len() == 32);
    }
}

/// Dual-return pairing law for a whole run of 32-channel blocks, as
/// [`lemma_dual_run_pairing_16`].
pub proof fn lemma_dual_run_pairing_32(
    alt: Seq<i64>,
    off: Seq<i32>,
    ts: u32,
    firings: Seq<FiringView>,
    n: int,
    pairs_done: int,
)
    requires
        firings.len() == 2 * n,
        forall|q: int|
            0 <= q < n ==> (#[trigger] firings[2 * q]).azimuth_count == firings[2 * q
                + 1].azimuth_count,
    ensures
        spec_convert_dual_32(alt, off, ts, None, firings, pairs_done).0.len() == 32 * n,
        spec_convert_dual_32(alt, off, ts, None, firings, pairs_done).1 is None,
    decreases n,
{
    if n == 0 {
    } else {
        let f0 = firings[0];
        let f1 = firings[1];
        let rest1 = firings.drop_first();
        let rest2 = firings.subrange(2, firings.len() as int);
        let q0: int = 0;
        assert(firings[2 * q0].azimuth_count == firings[2 * q0 + 1].azimuth_count);
        assert(rest1 =~= firings.subrange(1, firings.len() as int));
        assert(rest1[0] == f1);
        assert(rest1.drop_first() =~= rest2);
        assert(rest2.len() == 2 * (n - 1));
        let step1 = spec_convert_dual_32(alt, off, ts, Some(f0), rest1, pairs_done);
        assert(spec_convert_dual_32(alt, off, ts, None, firings, pairs_done) == step1);
        let pts = spec_dual_pair_points_32(alt, off, ts, pairs_done, f0, f1);
        let tail = spec_convert_dual_32(alt, off, ts, None, rest1.drop_first(), pairs_done + 1);
        assert(step1 == (pts + tail.0, tail.1));
        assert(tail == spec_convert_dual_32(alt, off, ts, None, rest2, pairs_done + 1));
        assert forall|q: int|
            0 <= q < n - 1 implies (#[trigger] rest2[2 * q]).azimuth_count == rest2[2 * q
            + 1].azimuth_count by {
            assert(rest2[2 * q] == firings[2 * q + 2]);
            assert(rest2[2 * q + 1] == firings[2 * q + 3]);
            assert(firings[2 * (q + 1)].azimuth_count == firings[2 * (q + 1) + 1].azimuth_count);
            assert(2 * (q + 1) == 2 * q + 2 && 2 * (q + 1) + 1 == 2 * q + 3);
        }
        lemma_dual_run_pairing_32(alt, off, ts, rest2, n - 1, pairs_done + 1);
        assert(pts.len() == 32);
    }
}

} // verus!
