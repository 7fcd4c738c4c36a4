//! The wire shape of one sensor data packet, and its byte-exact decoder and
//! encoder.
//!
//! A packet is 1206 bytes: 12 firing blocks of 100 bytes each, a 4-byte
//! little-endian microsecond timestamp, a 1-byte return mode and a 1-byte
//! product id. Decoding rejects a buffer of any other length outright and
//! never parses a truncated or padded buffer; within a 1206-byte buffer every
//! byte pattern decodes, with enum codes outside the known set kept as
//! explicit `Unknown` variants so that re-encoding restores the original
//! bytes.

use vstd::prelude::*;

use vstd::arithmetic::div_mod::{
    lemma_div_is_ordered, lemma_fundamental_div_mod, lemma_fundamental_div_mod_converse,
};

use crate::consts::{
    AZIMUTH_COUNT_PER_REV, BLOCK_0_TO_31_CODE, BLOCK_32_TO_63_CODE, CHANNEL_PER_FIRING,
    DUAL_RETURN_CODE, FIRING_PER_PACKET, FIRING_SIZE, LAST_RETURN_CODE, MM_PER_DISTANCE_COUNT,
    PACKET_SIZE, STRONGEST_RETURN_CODE,
};

verus! {

/// Selects which half of the channel range a firing block covers: lasers
/// 0 to 31 or lasers 32 to 63. A code outside the two defined ones is kept
/// as `Unknown` rather than rejected, so a structurally valid packet always
/// decodes and the caller decides how to treat it.
#[derive(Clone, Copy, Debug, PartialEq, Eq, Structural)]
pub enum BlockIdentifier {
    Block0To31,
    Block32To63,
    Unknown(u16),
}

impl BlockIdentifier {
    /// The 16-bit wire code this identifier decodes from.
    pub open spec fn spec_code(self) -> u16 {
        match self {
            BlockIdentifier::Block0To31 => BLOCK_0_TO_31_CODE,
            BlockIdentifier::Block32To63 => BLOCK_32_TO_63_CODE,
            BlockIdentifier::Unknown(code) => code,
        }
    }

    /// The identifier a 16-bit wire code decodes to.
    pub open spec fn spec_from_code(code: u16) -> BlockIdentifier {
        if code == BLOCK_0_TO_31_CODE {
            BlockIdentifier::Block0To31
        } else if code == BLOCK_32_TO_63_CODE {
            BlockIdentifier::Block32To63
        } else {
            BlockIdentifier::Unknown(code)
        }
    }

    /// Returns the 16-bit wire code of this identifier.
    pub fn code(self) -> (r: u16)
        ensures
            r == self.spec_code(),
    {
        match self {
            BlockIdentifier::Block0To31 => BLOCK_0_TO_31_CODE,
            BlockIdentifier::Block32To63 => BLOCK_32_TO_63_CODE,
            BlockIdentifier::Unknown(code) => code,
        }
    }

    /// Decodes a 16-bit wire code into a block identifier; unrecognised
    /// codes are tagged `Unknown`.
    pub fn from_code(code: u16) -> (r: BlockIdentifier)
        ensures
            r == BlockIdentifier::spec_from_code(code),
            r.spec_code() == code,
    {
        if code == BLOCK_0_TO_31_CODE {
            BlockIdentifier::Block0To31
        } else if code == BLOCK_32_TO_63_CODE {
            BlockIdentifier::Block32To63
        } else {
            BlockIdentifier::Unknown(code)
        }
    }
}

/// How the sensor measures the laser signal: report the strongest return,
/// the last return, or both. An unrecognised code is kept as `Unknown`.
#[derive(Clone, Copy, Debug, PartialEq, Eq, Structural)]
pub enum ReturnMode {
    Strongest,
    LastReturn,
    DualReturn,
    Unknown(u8),
}

impl ReturnMode {
    /// The 8-bit wire code this mode decodes from.
    pub open spec fn spec_code(self) -> u8 {
        match self {
            ReturnMode::Strongest => STRONGEST_RETURN_CODE,
            ReturnMode::LastReturn => LAST_RETURN_CODE,
            ReturnMode::DualReturn => DUAL_RETURN_CODE,
            ReturnMode::Unknown(code) => code,
        }
    }

    /// The mode an 8-bit wire code decodes to.
    pub open spec fn spec_from_code(code: u8) -> ReturnMode {
        if code == STRONGEST_RETURN_CODE {
            ReturnMode::Strongest
        } else if code == LAST_RETURN_CODE {
            ReturnMode::LastReturn
        } else if code == DUAL_RETURN_CODE {
            ReturnMode::DualReturn
        } else {
            ReturnMode::Unknown(code)
        }
    }

    /// Returns the 8-bit wire code of this mode.
    pub fn code(self) -> (r: u8)
        ensures
            r == self.spec_code(),
    {
        match self {
            ReturnMode::Strongest => STRONGEST_RETURN_CODE,
            ReturnMode::LastReturn => LAST_RETURN_CODE,
            ReturnMode::DualReturn => DUAL_RETURN_CODE,
            ReturnMode::Unknown(code) => code,
        }
    }

    /// Decodes an 8-bit wire code into a return mode; unrecognised codes
    /// are tagged `Unknown`.
    pub fn from_code(code: u8) -> (r: ReturnMode)
        ensures
            r == ReturnMode::spec_from_code(code),
            r.spec_code() == code,
    {
        if code == STRONGEST_RETURN_CODE {
            ReturnMode::Strongest
        } else if code == LAST_RETURN_CODE {
            ReturnMode::LastReturn
        } else if code == DUAL_RETURN_CODE {
            ReturnMode::DualReturn
        } else {
            ReturnMode::Unknown(code)
        }
    }
}

/// The hardware model that emitted a packet. Only the 16- and 32-channel
/// models are calibrated by this library; the others are identifiers only.
/// An unrecognised code is kept as `Unknown`.
#[derive(Clone, Copy, Debug, PartialEq, Eq, Structural)]
pub enum ProductID {
    HDL32E,
    VLP16,
    PuckLite,
    PuckHiRes,
    VLP32C,
    Velarray,
    VLS128,
    Unknown(u8),
}

impl ProductID {
    /// The 8-bit wire code this product id decodes from.
    pub open spec fn spec_code(self) -> u8 {
        match self {
            ProductID::HDL32E => 0x21,
            ProductID::VLP16 => 0x22,
            ProductID::PuckLite => 0x23,
            ProductID::PuckHiRes => 0x24,
            ProductID::VLP32C => 0x28,
            ProductID::Velarray => 0x31,
            ProductID::VLS128 => 0xa1,
            ProductID::Unknown(code) => code,
        }
    }

    /// The product id an 8-bit wire code decodes to.
    pub open spec fn spec_from_code(code: u8) -> ProductID {
        if code == 0x21 {
            ProductID::HDL32E
        } else if code == 0x22 {
            ProductID::VLP16
        } else if code == 0x23 {
            ProductID::PuckLite
        } else if code == 0x24 {
            ProductID::PuckHiRes
        } else if code == 0x28 {
            ProductID::VLP32C
        } else if code == 0x31 {
            ProductID::Velarray
        } else if code == 0xa1 {
            ProductID::VLS128
        } else {
            ProductID::Unknown(code)
        }
    }

    /// Returns the 8-bit wire code of this product id.
    pub fn code(self) -> (r: u8)
        ensures
            r == self.spec_code(),
    {
        match self {
            ProductID::HDL32E => 0x21,
            ProductID::VLP16 => 0x22,
            ProductID::PuckLite => 0x23,
            ProductID::PuckHiRes => 0x24,
            ProductID::VLP32C => 0x28,
            ProductID::Velarray => 0x31,
            ProductID::VLS128 => 0xa1,
            ProductID::Unknown(code) => code,
        }
    }

    /// Decodes an 8-bit wire code into a product id; unrecognised codes are
    /// tagged `Unknown`.
    pub fn from_code(code: u8) -> (r: ProductID)
        ensures
            r == ProductID::spec_from_code(code),
            r.spec_code() == code,
    {
        if code == 0x21 {
            ProductID::HDL32E
        } else if code == 0x22 {
            ProductID::VLP16
        } else if code == 0x23 {
            ProductID::PuckLite
        } else if code == 0x24 {
            ProductID::PuckHiRes
        } else if code == 0x28 {
            ProductID::VLP32C
        } else if code == 0x31 {
            ProductID::Velarray
        } else if code == 0xa1 {
            ProductID::VLS128
        } else {
            ProductID::Unknown(code)
        }
    }
}

/// One channel's raw measurement: a distance encoder count with two
/// millimeter resolution and an 8-bit reflectivity. Immutable once decoded.
#[derive(Clone, Copy, Debug, PartialEq, Eq, Structural)]
pub struct LaserReturn {
    /// The raw distance of the laser return, in 2 mm encoder counts.
    pub distance: u16,
    /// The intensity of the laser return.
    pub intensity: u8,
}

impl LaserReturn {
    /// The measured distance in millimeters: twice the raw count, exactly.
    pub open spec fn spec_mm_distance(self) -> u32 {
        (self.distance * MM_PER_DISTANCE_COUNT) as u32
    }

    /// Returns the measured distance in millimeters (raw count times two).
    pub fn mm_distance(&self) -> (r: u32)
        ensures
            r == self.spec_mm_distance(),
    {
        self.distance as u32 * MM_PER_DISTANCE_COUNT
    }

    /// Returns the measured distance in micrometers (raw count times 2000),
    /// the exact integer form of the distance in meters.
    pub fn micrometer_distance(&self) -> (r: u32)
        ensures
            r == 1000 * self.spec_mm_distance(),
    {
        let mm: u32 = self.mm_distance();
        mm * 1000
    }
}

/// The distance accessors agree: for every laser return, the distance in
/// micrometers is exactly one thousand times the distance in millimeters,
/// so the same measurement is reported at both scales.
pub proof fn lemma_distance_scales_agree(lr: LaserReturn)
    ensures
        1000 * lr.spec_mm_distance() == 2000 * lr.distance,
        lr.spec_mm_distance() == 2 * lr.distance,
{
}

/// A sequence of measurements taken at one azimuth sample, with its block
/// identifier. For 16-channel sensors, `sequence_former` and
/// `sequence_latter` are two temporally distinct firings of the same 16
/// physical lasers; for 32-channel sensors they jointly cover 32
/// simultaneous channels in one firing.
#[derive(Clone, Debug, PartialEq)]
pub struct Firing {
    /// The block that the firing belongs to.
    pub block_identifier: BlockIdentifier,
    /// Encoder count of the rotation motor, ranging from 0 to 36000
    /// (inclusive) on well-formed input; one count is 0.01 degrees.
    pub azimuth_count: u16,
    /// The first sequence of 16 laser returns.
    pub sequence_former: Vec<LaserReturn>,
    /// The second sequence of 16 laser returns.
    pub sequence_latter: Vec<LaserReturn>,
}

/// The mathematical value of a [`Firing`]: the same fields with the laser
/// return arrays abstracted to sequences.
#[verifier::ext_equal]
pub ghost struct FiringView {
    pub block_identifier: BlockIdentifier,
    pub azimuth_count: u16,
    pub sequence_former: Seq<LaserReturn>,
    pub sequence_latter: Seq<LaserReturn>,
}

impl FiringView {
    /// Both laser return sequences hold exactly 16 entries.
    pub open spec fn wf(self) -> bool {
        &&& self.sequence_former.len() == CHANNEL_PER_FIRING
        &&& self.sequence_latter.len() == CHANNEL_PER_FIRING
    }
}

impl View for Firing {
    type V = FiringView;

    open spec fn view(&self) -> FiringView {
        FiringView {
            block_identifier: self.block_identifier,
            azimuth_count: self.azimuth_count,
            sequence_former: self.sequence_former@,
            sequence_latter: self.sequence_latter@,
        }
    }
}

impl Firing {
    /// The azimuth direction of this firing in millidegrees: the encoder
    /// counts in hundredths of a degree, so ten times the count. Count 0 is
    /// 0 millidegrees and count 36000 is 360000 millidegrees, one full
    /// revolution, the same direction as 0.
    pub open spec fn spec_azimuth_millidegrees(self) -> u32 {
        (10 * self.azimuth_count) as u32
    }

    /// Returns the azimuth direction in millidegrees (ten times the raw
    /// encoder count).
    pub fn azimuth_millidegrees(&self) -> (r: u32)
        ensures
            r == self.spec_azimuth_millidegrees(),
    {
        10 * self.azimuth_count as u32
    }
}

/// Azimuth boundary identity: encoder count 0 is zero millidegrees, and
/// the overlapping last tick 36000 is exactly 360000 millidegrees — one
/// full revolution, the same direction as count 0.
pub proof fn lemma_azimuth_wrap(f0: Firing, f1: Firing)
    requires
        f0.azimuth_count == 0,
        f1.azimuth_count == AZIMUTH_COUNT_PER_REV - 1,
    ensures
        f0.spec_azimuth_millidegrees() == 0,
        f1.spec_azimuth_millidegrees() == 360000,
        f1.spec_azimuth_millidegrees() % 360000 == f0.spec_azimuth_millidegrees(),
{
}

/// One data packet from the sensor: 12 firings in wire order, a 32-bit
/// microsecond timestamp, the return mode and the product id. A packet is a
/// pure value; it owns its firings and refers to nothing else.
#[derive(Clone, Debug, PartialEq)]
pub struct Packet {
    /// Sensor data, in wire order.
    pub firings: Vec<Firing>,
    /// Timestamp in microseconds.
    pub timestamp: u32,
    /// Whether the sensor reports the strongest return, the last return, or
    /// both.
    pub return_mode: ReturnMode,
    /// The sensor model.
    pub product_id: ProductID,
}

/// The mathematical value of a [`Packet`]: the same fields with the firing
/// array abstracted to a sequence of [`FiringView`]s.
#[verifier::ext_equal]
pub ghost struct PacketView {
    pub firings: Seq<FiringView>,
    pub timestamp: u32,
    pub return_mode: ReturnMode,
    pub product_id: ProductID,
}

impl PacketView {
    /// The packet holds exactly 12 firings, each well formed.
    pub open spec fn wf(self) -> bool {
        &&& self.firings.len() == FIRING_PER_PACKET
        &&& forall|f: int| 0 <= f < self.firings.len() ==> self.firings[f].wf()
    }
}

impl View for Packet {
    type V = PacketView;

    open spec fn view(&self) -> PacketView {
        PacketView {
            firings: Seq::new(self.firings@.len(), |f: int| self.firings@[f]@),
            timestamp: self.timestamp,
            return_mode: self.return_mode,
            product_id: self.product_id,
        }
    }
}

/// A structural failure to decode a byte buffer into a packet.
#[derive(Clone, Copy, Debug, PartialEq, Eq, Structural)]
pub enum DecodeError {
    /// The buffer's length is not the fixed packet size; `expected` is the
    /// size the protocol demands and `actual` is the length that was given.
    LengthMismatch { expected: usize, actual: usize },
}

/// The unsigned 16-bit value stored little-endian in two bytes.
pub open spec fn spec_le16(b0: u8, b1: u8) -> u16 {
    (b0 + 256 * b1) as u16
}

/// The unsigned 32-bit value stored little-endian in four bytes.
pub open spec fn spec_le32(b0: u8, b1: u8, b2: u8, b3: u8) -> u32 {
    (b0 + 256 * b1 + 65536 * b2 + 16777216 * b3) as u32
}

/// The low byte of a 16-bit value.
pub open spec fn spec_low8_of_u16(x: u16) -> u8 {
    (x % 256) as u8
}

/// The high byte of a 16-bit value.
pub open spec fn spec_high8_of_u16(x: u16) -> u8 {
    (x / 256) as u8
}

/// Byte `k` (0 to 3, low to high) of a 32-bit value in little-endian order.
pub open spec fn spec_byte_of_u32(x: u32, k: int) -> u8 {
    if k == 0 {
        (x % 256) as u8
    } else if k == 1 {
        ((x / 256) % 256) as u8
    } else if k == 2 {
        ((x / 65536) % 256) as u8
    } else {
        (x / 16777216) as u8
    }
}

/// Storing a 16-bit value little-endian and reading the two bytes back is
/// the identity, in both directions.
pub proof fn lemma_le16_round_trip(b0: u8, b1: u8, x: u16)
    ensures
        spec_low8_of_u16(spec_le16(b0, b1)) == b0,
        spec_high8_of_u16(spec_le16(b0, b1)) == b1,
        spec_le16(spec_low8_of_u16(x), spec_high8_of_u16(x)) == x,
{
    assert((b0 + 256 * b1) % 256 == b0 as int) by (nonlinear_arith)
        requires b0 < 256,
    ;
    assert((b0 + 256 * b1) / 256 == b1 as int) by (nonlinear_arith)
        requires b0 < 256,
    ;
    assert(x % 256 + 256 * (x / 256) == x as int) by (nonlinear_arith);
}

/// Storing a 32-bit value little-endian and reading the four bytes back is
/// the identity, in both directions.
pub proof fn lemma_le32_round_trip(b0: u8, b1: u8, b2: u8, b3: u8, x: u32)
    ensures
        spec_byte_of_u32(spec_le32(b0, b1, b2, b3), 0) == b0,
        spec_byte_of_u32(spec_le32(b0, b1, b2, b3), 1) == b1,
        spec_byte_of_u32(spec_le32(b0, b1, b2, b3), 2) == b2,
        spec_byte_of_u32(spec_le32(b0, b1, b2, b3), 3) == b3,
        spec_le32(
            spec_byte_of_u32(x, 0),
            spec_byte_of_u32(x, 1),
            spec_byte_of_u32(x, 2),
            spec_byte_of_u32(x, 3),
        ) == x,
{
    let q1: int = b1 + 256 * b2 + 65536 * b3;
    let q2: int = b2 + 256 * b3;
    let v: int = b0 + 256 * q1;
    vstd::arithmetic::div_mod::lemma_fundamental_div_mod_converse(v, 256, q1, b0 as int);
    vstd::arithmetic::div_mod::lemma_fundamental_div_mod_converse(q1, 256, q2, b1 as int);
    vstd::arithmetic::div_mod::lemma_fundamental_div_mod_converse(q2, 256, b3 as int, b2 as int);
    vstd::arithmetic::div_mod::lemma_div_denominator(v, 256, 256);
    vstd::arithmetic::div_mod::lemma_div_denominator(v, 65536, 256);
    assert(spec_le32(b0, b1, b2, b3) == v);
    let xi: int = x as int;
    vstd::arithmetic::div_mod::lemma_fundamental_div_mod(xi, 256);
    vstd::arithmetic::div_mod::lemma_fundamental_div_mod(xi / 256, 256);
    vstd::arithmetic::div_mod::lemma_div_denominator(xi, 256, 256);
    vstd::arithmetic::div_mod::lemma_fundamental_div_mod(xi / 65536, 256);
    vstd::arithmetic::div_mod::lemma_div_denominator(xi, 65536, 256);
    assert(xi / 16777216 < 256) by {
        vstd::arithmetic::div_mod::lemma_div_is_ordered(xi, 0xffffffff, 16777216);
    };
    assert(xi % 256 + 256 * ((xi / 256) % 256) + 65536 * ((xi / 65536) % 256) + 16777216 * (xi
        / 16777216) == xi);
}

/// The laser return whose three wire bytes begin at `off` in `b`.
pub open spec fn spec_laser_return_at(b: Seq<u8>, off: int) -> LaserReturn {
    LaserReturn { distance: spec_le16(b[off], b[off + 1]), intensity: b[off + 2] }
}

/// The firing whose 100 wire bytes begin at `off` in `b`.
pub open spec fn spec_firing_at(b: Seq<u8>, off: int) -> FiringView {
    FiringView {
        block_identifier: BlockIdentifier::spec_from_code(spec_le16(b[off], b[off + 1])),
        azimuth_count: spec_le16(b[off + 2], b[off + 3]),
        sequence_former: Seq::new(
            CHANNEL_PER_FIRING as nat,
            |c: int| spec_laser_return_at(b, off + 4 + 3 * c),
        ),
        sequence_latter: Seq::new(
            CHANNEL_PER_FIRING as nat,
            |c: int| spec_laser_return_at(b, off + 52 + 3 * c),
        ),
    }
}

/// The packet that a 1206-byte buffer decodes to: 12 firings at offsets
/// 0, 100, ..., 1100, the little-endian timestamp at 1200, the return mode
/// code at 1204 and the product id code at 1205.
pub open spec fn spec_decode_packet(b: Seq<u8>) -> PacketView {
    PacketView {
        firings: Seq::new(
            FIRING_PER_PACKET as nat,
            |f: int| spec_firing_at(b, FIRING_SIZE * f),
        ),
        timestamp: spec_le32(b[1200], b[1201], b[1202], b[1203]),
        return_mode: ReturnMode::spec_from_code(b[1204]),
        product_id: ProductID::spec_from_code(b[1205]),
    }
}

/// Reads the little-endian 16-bit value at `off`.
fn read_u16_le(buffer: &[u8], off: usize) -> (r: u16)
    requires
        off + 2 <= buffer@.len() <= usize::MAX,
    ensures
        r == spec_le16(buffer@[off as int], buffer@[off + 1]),
{
    buffer[off] as u16 + 256 * buffer[off + 1] as u16
}

/// Reads the little-endian 32-bit value at `off`.
fn read_u32_le(buffer: &[u8], off: usize) -> (r: u32)
    requires
        off + 4 <= buffer@.len() <= usize::MAX,
    ensures
        r == spec_le32(
            buffer@[off as int],
            buffer@[off + 1],
            buffer@[off + 2],
            buffer@[off + 3],
        ),
{
    buffer[off] as u32 + 256 * buffer[off + 1] as u32 + 65536 * buffer[off + 2] as u32
        + 16777216 * buffer[off + 3] as u32
}

/// Reads the laser return whose three bytes begin at `off`.
fn read_laser_return(buffer: &[u8], off: usize) -> (r: LaserReturn)
    requires
        off + 3 <= buffer@.len() <= usize::MAX,
    ensures
        r == spec_laser_return_at(buffer@, off as int),
{
    LaserReturn { distance: read_u16_le(buffer, off), intensity: buffer[off + 2] }
}

/// Reads the firing whose 100 bytes begin at `off`.
fn read_firing(buffer: &[u8], off: usize) -> (r: Firing)
    requires
        off + FIRING_SIZE <= buffer@.len() <= usize::MAX,
    ensures
        r@ == spec_firing_at(buffer@, off as int),
        r@.wf(),
{
    let block_identifier = BlockIdentifier::from_code(read_u16_le(buffer, off));
    let azimuth_count = read_u16_le(buffer, off + 2);
    let mut sequence_former: Vec<LaserReturn> = Vec::new();
    let mut c: usize = 0;
    while c < CHANNEL_PER_FIRING
        invariant
            c <= CHANNEL_PER_FIRING,
            off + FIRING_SIZE <= buffer@.len() <= usize::MAX,
            sequence_former@.len() == c,
            forall|j: int|
                0 <= j < c ==> sequence_former@[j] == spec_laser_return_at(
                    buffer@,
                    off + 4 + 3 * j,
                ),
        decreases CHANNEL_PER_FIRING - c,
    {
        sequence_former.push(read_laser_return(buffer, off + 4 + 3 * c));
        c += 1;
    }
    let mut sequence_latter: Vec<LaserReturn> = Vec::new();
    c = 0;
    while c < CHANNEL_PER_FIRING
        invariant
            c <= CHANNEL_PER_FIRING,
            off + FIRING_SIZE <= buffer@.len() <= usize::MAX,
            sequence_latter@.len() == c,
            forall|j: int|
                0 <= j < c ==> sequence_latter@[j] == spec_laser_return_at(
                    buffer@,
                    off + 52 + 3 * j,
                ),
        decreases CHANNEL_PER_FIRING - c,
    {
        sequence_latter.push(read_laser_return(buffer, off + 52 + 3 * c));
        c += 1;
    }
    let r = Firing { block_identifier, azimuth_count, sequence_former, sequence_latter };
    proof {
        assert(r@ =~= spec_firing_at(buffer@, off as int));
    }
    r
}

impl Packet {
    /// Decodes a packet from a slice of bytes. Fails exactly when the slice
    /// length is not the fixed 1206-byte packet size; every 1206-byte buffer
    /// decodes, with unrecognised enum codes kept as `Unknown` variants.
    pub fn from_slice(buffer: &[u8]) -> (r: Result<Packet, DecodeError>)
        ensures
            r is Ok <==> buffer@.len() == PACKET_SIZE,
            r matches Ok(p) ==> p@ == spec_decode_packet(buffer@) && p@.wf(),
            r matches Err(e) ==> e == (DecodeError::LengthMismatch {
                expected: PACKET_SIZE,
                actual: buffer@.len() as usize,
            }),
    {
        if buffer.len() != PACKET_SIZE {
            return Err(DecodeError::LengthMismatch { expected: PACKET_SIZE, actual: buffer.len() });
        }
        let mut firings: Vec<Firing> = Vec::new();
        let mut f: usize = 0;
        while f < FIRING_PER_PACKET
            invariant
                f <= FIRING_PER_PACKET,
                buffer@.len() == PACKET_SIZE,
                firings@.len() == f,
                forall|j: int| 0 <= j < f ==> #[trigger] firings@[j]@ == spec_firing_at(
                    buffer@,
                    FIRING_SIZE * j,
                ) && firings@[j]@.wf(),
            decreases FIRING_PER_PACKET - f,
        {
            firings.push(read_firing(buffer, FIRING_SIZE * f));
            f += 1;
        }
        let timestamp = read_u32_le(buffer, 1200);
        let return_mode = ReturnMode::from_code(buffer[1204]);
        let product_id = ProductID::from_code(buffer[1205]);
        let p = Packet { firings, timestamp, return_mode, product_id };
        proof {
            assert(p@ =~~= spec_decode_packet(buffer@));
        }
        Ok(p)
    }
}

impl Packet {
    /// Decodes a packet from a fixed-size binary buffer: with the length
    /// statically right, decoding cannot fail.
    pub fn from_buffer(buffer: [u8; PACKET_SIZE]) -> (r: Packet)
        ensures
            r@ == spec_decode_packet(buffer@),
            r@.wf(),
    {
        match Packet::from_slice(buffer.as_slice()) {
            Ok(p) => p,
            Err(_) => vstd::pervasive::unreached(),
        }
    }
}

/// Byte `k` (0 to 2) of one laser return's wire image: distance low byte,
/// distance high byte, intensity.
pub open spec fn spec_return_byte(lr: LaserReturn, k: int) -> u8 {
    if k == 0 {
        spec_low8_of_u16(lr.distance)
    } else if k == 1 {
        spec_high8_of_u16(lr.distance)
    } else {
        lr.intensity
    }
}

/// Byte `o` (0 to 99) of one firing's wire image: block identifier code,
/// azimuth count, then the two laser return sequences, all little-endian.
pub open spec fn spec_firing_byte(fv: FiringView, o: int) -> u8 {
    if o == 0 {
        spec_low8_of_u16(fv.block_identifier.spec_code())
    } else if o == 1 {
        spec_high8_of_u16(fv.block_identifier.spec_code())
    } else if o == 2 {
        spec_low8_of_u16(fv.azimuth_count)
    } else if o == 3 {
        spec_high8_of_u16(fv.azimuth_count)
    } else if o < 52 {
        spec_return_byte(fv.sequence_former[(o - 4) / 3], (o - 4) % 3)
    } else {
        spec_return_byte(fv.sequence_latter[(o - 52) / 3], (o - 52) % 3)
    }
}

/// Byte `i` (0 to 1205) of a packet's wire image.
pub open spec fn spec_packet_byte(p: PacketView, i: int) -> u8 {
    if i < 1200 {
        spec_firing_byte(p.firings[i / 100], i % 100)
    } else if i < 1204 {
        spec_byte_of_u32(p.timestamp, i - 1200)
    } else if i == 1204 {
        p.return_mode.spec_code()
    } else {
        p.product_id.spec_code()
    }
}

/// The 1206-byte wire image of a packet.
pub open spec fn spec_encode_packet(p: PacketView) -> Seq<u8> {
    Seq::new(PACKET_SIZE as nat, |i: int| spec_packet_byte(p, i))
}

/// Byte `100 f + o` of a packet's wire image is byte `o` of the wire image
/// of firing `f`.
pub proof fn lemma_packet_byte_is_firing_byte(p: PacketView, f: int, o: int)
    requires
        0 <= f < FIRING_PER_PACKET,
        0 <= o < FIRING_SIZE,
    ensures
        spec_packet_byte(p, 100 * f + o) == spec_firing_byte(p.firings[f], o),
{
    lemma_fundamental_div_mod_converse(100 * f + o, 100, f, o);
}

/// Bytes `4 + 3 c` onward of a firing's wire image are the image of
/// `sequence_former[c]`, and bytes `52 + 3 c` onward the image of
/// `sequence_latter[c]`.
pub proof fn lemma_firing_byte_is_return_byte(fv: FiringView, c: int, k: int)
    requires
        0 <= c < CHANNEL_PER_FIRING,
        0 <= k < 3,
    ensures
        spec_firing_byte(fv, 4 + 3 * c + k) == spec_return_byte(fv.sequence_former[c], k),
        spec_firing_byte(fv, 52 + 3 * c + k) == spec_return_byte(fv.sequence_latter[c], k),
{
    lemma_fundamental_div_mod_converse(3 * c + k, 3, c, k);
}

/// Returns the low byte of a 16-bit value.
fn low8(x: u16) -> (r: u8)
    ensures
        r == spec_low8_of_u16(x),
{
    (x % 256) as u8
}

/// Returns the high byte of a 16-bit value.
fn high8(x: u16) -> (r: u8)
    ensures
        r == spec_high8_of_u16(x),
{
    (x / 256) as u8
}

impl Packet {
    /// Encodes this packet back into its exact 1206-byte wire image: the
    /// inverse of [`Packet::from_slice`].
    pub fn to_bytes(&self) -> (r: Vec<u8>)
        requires
            self@.wf(),
        ensures
            r@ == spec_encode_packet(self@),
            r@.len() == PACKET_SIZE,
    {
        let mut out: Vec<u8> = Vec::new();
        let mut f: usize = 0;
        while f < FIRING_PER_PACKET
            invariant
                self@.wf(),
                f <= FIRING_PER_PACKET,
                out@.len() == 100 * f,
                forall|j: int| 0 <= j < out@.len() ==> out@[j] == spec_packet_byte(self@, j),
            decreases FIRING_PER_PACKET - f,
        {
            let ghost fv = self@.firings[f as int];
            let firing = &self.firings[f];
            proof {
                assert(firing@ == fv);
                lemma_packet_byte_is_firing_byte(self@, f as int, 0);
                lemma_packet_byte_is_firing_byte(self@, f as int, 1);
                lemma_packet_byte_is_firing_byte(self@, f as int, 2);
                lemma_packet_byte_is_firing_byte(self@, f as int, 3);
            }
            let code = firing.block_identifier.code();
            out.push(low8(code));
            out.push(high8(code));
            out.push(low8(firing.azimuth_count));
            out.push(high8(firing.azimuth_count));
            let mut c: usize = 0;
            while c < CHANNEL_PER_FIRING
                invariant
                    self@.wf(),
                    f < FIRING_PER_PACKET,
                    c <= CHANNEL_PER_FIRING,
                    fv == self@.firings[f as int],
                    firing@ == fv,
                    out@.len() == 100 * f + 4 + 3 * c,
                    forall|j: int| 0 <= j < out@.len() ==> out@[j] == spec_packet_byte(self@, j),
                decreases CHANNEL_PER_FIRING - c,
            {
                let lr = firing.sequence_former[c];
                proof {
                    lemma_packet_byte_is_firing_byte(self@, f as int, 4 + 3 * c);
                    lemma_packet_byte_is_firing_byte(self@, f as int, 4 + 3 * c + 1);
                    lemma_packet_byte_is_firing_byte(self@, f as int, 4 + 3 * c + 2);
                    lemma_firing_byte_is_return_byte(fv, c as int, 0);
                    lemma_firing_byte_is_return_byte(fv, c as int, 1);
                    lemma_firing_byte_is_return_byte(fv, c as int, 2);
                }
                out.push(low8(lr.distance));
                out.push(high8(lr.distance));
                out.push(lr.intensity);
                c += 1;
            }
            c = 0;
            while c < CHANNEL_PER_FIRING
                invariant
                    self@.wf(),
                    f < FIRING_PER_PACKET,
                    c <= CHANNEL_PER_FIRING,
                    fv == self@.firings[f as int],
                    firing@ == fv,
                    out@.len() == 100 * f + 52 + 3 * c,
                    forall|j: int| 0 <= j < out@.len() ==> out@[j] == spec_packet_byte(self@, j),
                decreases CHANNEL_PER_FIRING - c,
            {
                let lr = firing.sequence_latter[c];
                proof {
                    lemma_packet_byte_is_firing_byte(self@, f as int, 52 + 3 * c);
                    lemma_packet_byte_is_firing_byte(self@, f as int, 52 + 3 * c + 1);
                    lemma_packet_byte_is_firing_byte(self@, f as int, 52 + 3 * c + 2);
                    lemma_firing_byte_is_return_byte(fv, c as int, 0);
                    lemma_firing_byte_is_return_byte(fv, c as int, 1);
                    lemma_firing_byte_is_return_byte(fv, c as int, 2);
                }
                out.push(low8(lr.distance));
                out.push(high8(lr.distance));
                out.push(lr.intensity);
                c += 1;
            }
            f += 1;
        }
        let ts = self.timestamp;
        out.push((ts % 256) as u8);
        out.push(((ts / 256) % 256) as u8);
        out.push(((ts / 65536) % 256) as u8);
        proof {
            lemma_div_is_ordered(ts as int, 0xffffffff, 16777216);
        }
        out.push((ts / 16777216) as u8);
        out.push(self.return_mode.code());
        out.push(self.product_id.code());
        proof {
            assert(out@ =~= spec_encode_packet(self@));
        }
        out
    }
}

/// The chrono calendar date-time type, used opaquely: this library only
/// constructs it from a verified seconds/nanoseconds split and hands it to
/// the caller.
#[verifier::external_type_specification]
#[verifier::external_body]
pub struct ExNaiveDateTime(chrono::NaiveDateTime);

/// The calendar date-time that a seconds/nanoseconds split since the Unix
/// epoch constructs, named so that contracts can speak of it: the value is
/// opaque, but it is a function of the two arguments alone.
pub uninterp spec fn naive_dt_of(secs: i64, nsecs: u32) -> chrono::NaiveDateTime;

/// Relies on `chrono::DateTime::<Utc>::from_timestamp`, whose documentation
/// and source promise `Some` whenever the seconds lie within the supported
/// calendar range (on the order of 262,000 years around the epoch) and the
/// nanosecond part is below one second, and on `DateTime::naive_utc`, which
/// only drops the time-zone marker. Both are pure functions of the two
/// arguments alone, so the returned value is the one [`naive_dt_of`] names.
#[verifier::external_body]
fn naive_datetime_from_timestamp(secs: i64, nsecs: u32) -> (r: Option<chrono::NaiveDateTime>)
    ensures
        0 <= secs <= 0xffffffff && nsecs < 1_000_000_000 ==> r is Some,
        r matches Some(dt) ==> dt == naive_dt_of(secs, nsecs),
{
    match chrono::DateTime::<chrono::Utc>::from_timestamp(secs, nsecs) {
        Some(dt) => Some(dt.naive_utc()),
        None => None,
    }
}

impl Packet {
    /// The whole seconds of the packet timestamp, read as microseconds
    /// since the Unix epoch.
    pub fn timestamp_secs(&self) -> (r: u32)
        ensures
            r == self.timestamp / 1_000_000,
    {
        self.timestamp / 1_000_000
    }

    /// The nanoseconds of the packet timestamp past its whole seconds.
    pub fn timestamp_subsec_nanos(&self) -> (r: u32)
        ensures
            r == (self.timestamp % 1_000_000) * 1000,
            r < 1_000_000_000,
    {
        (self.timestamp % 1_000_000) * 1000
    }

    /// Returns the packet timestamp as a calendar date-time, treating the
    /// raw 32-bit microsecond count directly as an offset from the Unix
    /// epoch. The sensor vendor documents the field as microseconds since
    /// the top of the current hour; forming an absolute date-time under
    /// that reading would need wall-clock context that the packet does not
    /// carry, so this accessor reproduces the epoch-offset reading and
    /// leaves the other to the caller. The result is the date-time that
    /// the verified seconds/nanoseconds split of the timestamp constructs:
    /// a pure function of the raw field.
    pub fn datetime(&self) -> (r: chrono::NaiveDateTime)
        ensures
            r == naive_dt_of(
                (self.timestamp / 1_000_000) as i64,
                ((self.timestamp % 1_000_000) * 1000) as u32,
            ),
    {
        let secs = self.timestamp_secs();
        let nsecs = self.timestamp_subsec_nanos();
        proof {
            assert(self.timestamp as int / 1_000_000 <= 0xffffffff) by (nonlinear_arith)
                requires self.timestamp <= 0xffffffffu32,
            ;
        }
        match naive_datetime_from_timestamp(secs as i64, nsecs) {
            Some(dt) => dt,
            None => vstd::pervasive::unreached(),
        }
    }
}

/// Whether a sequence of packet timestamps is strictly increasing: every
/// earlier entry is smaller than every later one.
pub open spec fn spec_timestamps_strictly_increasing(ts: Seq<u32>) -> bool {
    forall|i: int, j: int| 0 <= i < j < ts.len() ==> ts[i] < ts[j]
}

/// Checks the ingestion-level sanity condition that the packet timestamps
/// of one captured stream strictly increase across the sequence.
pub fn timestamps_strictly_increasing(ts: &Vec<u32>) -> (r: bool)
    ensures
        r == spec_timestamps_strictly_increasing(ts@),
{
    let mut k: usize = 1;
    while k < ts.len()
        invariant
            1 <= k,
            k <= ts@.len() || ts@.len() == 0,
            forall|i: int, j: int| 0 <= i < j < k && j < ts@.len() ==> ts@[i] < ts@[j],
        decreases ts@.len() - k,
    {
        if ts[k - 1] >= ts[k] {
            return false;
        }
        k += 1;
    }
    true
}

/// Decoding any 1206-byte buffer and re-encoding the decoded packet
/// restores the original bytes exactly: nothing in a structurally valid
/// buffer is lost or normalised by decoding.
pub proof fn lemma_decode_encode_round_trip(b: Seq<u8>)
    requires
        b.len() == PACKET_SIZE,
    ensures
        spec_encode_packet(spec_decode_packet(b)) == b,
{
    let p = spec_decode_packet(b);
    assert forall|i: int| 0 <= i < 1206 implies spec_packet_byte(p, i) == b[i] by {
        if i < 1200 {
            let f = i / 100;
            let o = i % 100;
            lemma_fundamental_div_mod(i, 100);
            assert(0 <= f < 12 && 0 <= o < 100) by (nonlinear_arith)
                requires f == i / 100 && o == i % 100 && 0 <= i < 1200,
            ;
            let off = 100 * f;
            let fv = spec_firing_at(b, off);
            assert(p.firings[f] == fv);
            if o == 0 || o == 1 {
                lemma_le16_round_trip(b[off], b[off + 1], 0);
            } else if o == 2 || o == 3 {
                lemma_le16_round_trip(b[off + 2], b[off + 3], 0);
            } else if o < 52 {
                let k = o - 4;
                let c = k / 3;
                let j = k % 3;
                lemma_fundamental_div_mod(k, 3);
                assert(0 <= c < 16 && 0 <= j < 3) by (nonlinear_arith)
                    requires c == k / 3 && j == k % 3 && 0 <= k < 48,
                ;
                assert(fv.sequence_former[c] == spec_laser_return_at(b, off + 4 + 3 * c));
                lemma_le16_round_trip(b[off + 4 + 3 * c], b[off + 4 + 3 * c + 1], 0);
            } else {
                let k = o - 52;
                let c = k / 3;
                let j = k % 3;
                lemma_fundamental_div_mod(k, 3);
                assert(0 <= c < 16 && 0 <= j < 3) by (nonlinear_arith)
                    requires c == k / 3 && j == k % 3 && 0 <= k < 48,
                ;
                assert(fv.sequence_latter[c] == spec_laser_return_at(b, off + 52 + 3 * c));
                lemma_le16_round_trip(b[off + 52 + 3 * c], b[off + 52 + 3 * c + 1], 0);
            }
        } else if i < 1204 {
            lemma_le32_round_trip(b[1200], b[1201], b[1202], b[1203], 0);
        }
    }
    assert(spec_encode_packet(p) =~= b);
}

} // verus!
