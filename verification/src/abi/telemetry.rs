//! Structured telemetry payloads and their CDR little-endian wire format.
//!
//! All angles and rates are fixed-point integers; the layouts carry no
//! padding.  A telemetry packet is a one-byte type discriminant followed by
//! the CDR payload of its variant.
use vstd::prelude::*;

use crate::abi::cdr::CdrSerializer;
use crate::abi::cmd;
use crate::wire::{
    bytes_to_vec, copy_into, i16_bits, i16_from_bits, i16_of_bits, i32_bits, i32_from_bits, i32_of_bits,
    lemma_i16_bits_roundtrip, lemma_i32_bits_roundtrip, lemma_u16_le_roundtrip,
    lemma_u32_le_roundtrip, lemma_u64_le_roundtrip, read_u16_le, read_u32_le, read_u64_le,
    u16_from_le, u16_le, u32_from_le, u32_le, u64_from_le, u64_le,
};

verus! {

// ── IMU telemetry ────────────────────────────────────────────────────────────

/// Structured IMU telemetry (after ROS 2 `sensor_msgs/Imu`).
#[derive(Debug, Clone, Copy, PartialEq, Eq, Structural)]
pub struct ImuTelemetry {
    /// Packet sequence number (wrapping).
    pub sequence: u32,
    /// Timestamp in microseconds since firmware boot.
    pub timestamp_us: u64,
    /// Core 1 loop execution time in microseconds.
    pub loop_time_us: u32,
    /// Pitch angle in millidegrees.
    pub pitch_millideg: i32,
    /// Roll angle in millidegrees.
    pub roll_millideg: i32,
    /// Yaw rate in millidegrees per second.
    pub yaw_rate_millideg_s: i32,
    /// Linear acceleration X in mm/s².
    pub linear_accel_x_mm_s2: i32,
    /// Linear acceleration Y in mm/s².
    pub linear_accel_y_mm_s2: i32,
}

impl Default for ImuTelemetry {
    fn default() -> (r: Self)
        ensures
            r == imu_zero(),
    {
        ImuTelemetry {
            sequence: 0,
            timestamp_us: 0,
            loop_time_us: 0,
            pitch_millideg: 0,
            roll_millideg: 0,
            yaw_rate_millideg_s: 0,
            linear_accel_x_mm_s2: 0,
            linear_accel_y_mm_s2: 0,
        }
    }
}

/// The all-zero IMU telemetry record.
pub open spec fn imu_zero() -> ImuTelemetry {
    ImuTelemetry {
        sequence: 0,
        timestamp_us: 0,
        loop_time_us: 0,
        pitch_millideg: 0,
        roll_millideg: 0,
        yaw_rate_millideg_s: 0,
        linear_accel_x_mm_s2: 0,
        linear_accel_y_mm_s2: 0,
    }
}

/// The 36 CDR bytes of an IMU record: sequence, timestamp, loop time, then
/// the five signed fields, each little-endian.
pub open spec fn imu_cdr(t: ImuTelemetry) -> Seq<u8> {
    u32_le(t.sequence) + u64_le(t.timestamp_us) + u32_le(t.loop_time_us) + u32_le(
        i32_bits(t.pitch_millideg),
    ) + u32_le(i32_bits(t.roll_millideg)) + u32_le(i32_bits(t.yaw_rate_millideg_s)) + u32_le(
        i32_bits(t.linear_accel_x_mm_s2),
    ) + u32_le(i32_bits(t.linear_accel_y_mm_s2))
}

/// The IMU record stored in the first 36 bytes of `b`.
pub open spec fn imu_from_cdr(b: Seq<u8>) -> ImuTelemetry {
    ImuTelemetry {
        sequence: u32_from_le(b.subrange(0, 4)),
        timestamp_us: u64_from_le(b.subrange(4, 12)),
        loop_time_us: u32_from_le(b.subrange(12, 16)),
        pitch_millideg: i32_from_bits(u32_from_le(b.subrange(16, 20))),
        roll_millideg: i32_from_bits(u32_from_le(b.subrange(20, 24))),
        yaw_rate_millideg_s: i32_from_bits(u32_from_le(b.subrange(24, 28))),
        linear_accel_x_mm_s2: i32_from_bits(u32_from_le(b.subrange(28, 32))),
        linear_accel_y_mm_s2: i32_from_bits(u32_from_le(b.subrange(32, 36))),
    }
}

/// What `ImuTelemetry::from_cdr` gives for the bytes `b`.
pub open spec fn imu_decode(b: Seq<u8>) -> Option<ImuTelemetry> {
    if b.len() < 36 {
        None
    } else {
        Some(imu_from_cdr(b))
    }
}

impl ImuTelemetry {
    /// Serialized size in bytes.
    pub const SERIALIZED_SIZE: usize = 36;

    /// The CDR bytes, produced with a serializer of exactly that capacity.
    fn cdr_bytes(&self) -> (v: Vec<u8>)
        ensures
            v@ == imu_cdr(*self),
    {
        let mut s = CdrSerializer::<36>::new();
        let _ = s.write_u32(self.sequence);
        let _ = s.write_u64(self.timestamp_us);
        let _ = s.write_u32(self.loop_time_us);
        let _ = s.write_i32(self.pitch_millideg);
        let _ = s.write_i32(self.roll_millideg);
        let _ = s.write_i32(self.yaw_rate_millideg_s);
        let _ = s.write_i32(self.linear_accel_x_mm_s2);
        let _ = s.write_i32(self.linear_accel_y_mm_s2);
        assert(s@ =~= imu_cdr(*self));
        bytes_to_vec(s.as_bytes())
    }

    /// Serialize into the front of `buf`.
    ///
    /// Writes exactly 36 bytes and returns 36, or returns 0 and leaves `buf`
    /// untouched when it is shorter than that.
    pub fn to_cdr(&self, buf: &mut [u8]) -> (n: usize)
        ensures
            old(buf)@.len() < 36 ==> n == 0 && final(buf)@ == old(buf)@,
            old(buf)@.len() >= 36 ==> n == 36 && final(buf)@ == imu_cdr(*self) + old(buf)@.subrange(36, old(buf)@.len() as int),
    {
        if buf.len() < Self::SERIALIZED_SIZE {
            return 0;
        }
        let bytes = self.cdr_bytes();
        copy_into(buf, 0, bytes.as_slice());
        assert(old(buf)@.subrange(0, 0) + bytes@ =~= bytes@);
        bytes.len()
    }

    /// Decode the record stored at `buf[off..off + 36]`.
    fn read_at(buf: &[u8], off: usize) -> (t: Self)
        requires
            off + 36 <= buf@.len(),
        ensures
            t == imu_from_cdr(buf@.subrange(off as int, buf@.len() as int)),
    {
        let _n = buf.len();
        let ghost b = buf@.subrange(off as int, buf@.len() as int);
        assert(b.subrange(0, 4) =~= buf@.subrange(off as int, off + 4));
        assert(b.subrange(4, 12) =~= buf@.subrange(off + 4, off + 12));
        assert(b.subrange(12, 16) =~= buf@.subrange(off + 12, off + 16));
        assert(b.subrange(16, 20) =~= buf@.subrange(off + 16, off + 20));
        assert(b.subrange(20, 24) =~= buf@.subrange(off + 20, off + 24));
        assert(b.subrange(24, 28) =~= buf@.subrange(off + 24, off + 28));
        assert(b.subrange(28, 32) =~= buf@.subrange(off + 28, off + 32));
        assert(b.subrange(32, 36) =~= buf@.subrange(off + 32, off + 36));
        ImuTelemetry {
            sequence: read_u32_le(buf, off),
            timestamp_us: read_u64_le(buf, off + 4),
            loop_time_us: read_u32_le(buf, off + 12),
            pitch_millideg: i32_of_bits(read_u32_le(buf, off + 16)),
            roll_millideg: i32_of_bits(read_u32_le(buf, off + 20)),
            yaw_rate_millideg_s: i32_of_bits(read_u32_le(buf, off + 24)),
            linear_accel_x_mm_s2: i32_of_bits(read_u32_le(buf, off + 28)),
            linear_accel_y_mm_s2: i32_of_bits(read_u32_le(buf, off + 32)),
        }
    }

    /// Deserialize from CDR bytes; `None` when `buf` is shorter than 36.
    pub fn from_cdr(buf: &[u8]) -> (r: Option<Self>)
        ensures
            r == imu_decode(buf@),
    {
        if buf.len() < Self::SERIALIZED_SIZE {
            return None;
        }
        assert(buf@.subrange(0, buf@.len() as int) =~= buf@);
        Some(Self::read_at(buf, 0))
    }
}

/// Decoding the CDR bytes of an IMU record, whatever follows them, gives the
/// record back.
pub proof fn lemma_imu_cdr_roundtrip(t: ImuTelemetry, rest: Seq<u8>)
    ensures
        imu_cdr(t).len() == 36,
        imu_decode(imu_cdr(t) + rest) == Some(t),
{
    let b = imu_cdr(t) + rest;
    lemma_u32_le_roundtrip(t.sequence);
    lemma_u64_le_roundtrip(t.timestamp_us);
    lemma_u32_le_roundtrip(t.loop_time_us);
    lemma_u32_le_roundtrip(i32_bits(t.pitch_millideg));
    lemma_u32_le_roundtrip(i32_bits(t.roll_millideg));
    lemma_u32_le_roundtrip(i32_bits(t.yaw_rate_millideg_s));
    lemma_u32_le_roundtrip(i32_bits(t.linear_accel_x_mm_s2));
    lemma_u32_le_roundtrip(i32_bits(t.linear_accel_y_mm_s2));
    lemma_i32_bits_roundtrip(t.pitch_millideg);
    lemma_i32_bits_roundtrip(t.roll_millideg);
    lemma_i32_bits_roundtrip(t.yaw_rate_millideg_s);
    lemma_i32_bits_roundtrip(t.linear_accel_x_mm_s2);
    lemma_i32_bits_roundtrip(t.linear_accel_y_mm_s2);
    assert(b.subrange(0, 4) =~= u32_le(t.sequence));
    assert(b.subrange(4, 12) =~= u64_le(t.timestamp_us));
    assert(b.subrange(12, 16) =~= u32_le(t.loop_time_us));
    assert(b.subrange(16, 20) =~= u32_le(i32_bits(t.pitch_millideg)));
    assert(b.subrange(20, 24) =~= u32_le(i32_bits(t.roll_millideg)));
    assert(b.subrange(24, 28) =~= u32_le(i32_bits(t.yaw_rate_millideg_s)));
    assert(b.subrange(28, 32) =~= u32_le(i32_bits(t.linear_accel_x_mm_s2)));
    assert(b.subrange(32, 36) =~= u32_le(i32_bits(t.linear_accel_y_mm_s2)));
}

// ── Odometry telemetry ───────────────────────────────────────────────────────

/// Structured odometry telemetry (after ROS 2 `nav_msgs/Odometry`).
#[derive(Debug, Clone, Copy, PartialEq, Eq, Structural)]
pub struct OdometryTelemetry {
    /// Packet sequence number (wrapping).
    pub sequence: u32,
    /// Timestamp in microseconds since firmware boot.
    pub timestamp_us: u64,
    /// Core 1 loop execution time in microseconds.
    pub loop_time_us: u32,
    /// Left motor speed (−255 … +255).
    pub left_speed: i16,
    /// Right motor speed (−255 … +255).
    pub right_speed: i16,
}

impl Default for OdometryTelemetry {
    fn default() -> (r: Self)
        ensures
            r == odom_zero(),
    {
        OdometryTelemetry {
            sequence: 0,
            timestamp_us: 0,
            loop_time_us: 0,
            left_speed: 0,
            right_speed: 0,
        }
    }
}

/// The all-zero odometry record.
pub open spec fn odom_zero() -> OdometryTelemetry {
    OdometryTelemetry { sequence: 0, timestamp_us: 0, loop_time_us: 0, left_speed: 0, right_speed: 0 }
}

/// The 20 CDR bytes of an odometry record.
pub open spec fn odom_cdr(t: OdometryTelemetry) -> Seq<u8> {
    u32_le(t.sequence) + u64_le(t.timestamp_us) + u32_le(t.loop_time_us) + u16_le(
        i16_bits(t.left_speed),
    ) + u16_le(i16_bits(t.right_speed))
}

/// The odometry record stored in the first 20 bytes of `b`.
pub open spec fn odom_from_cdr(b: Seq<u8>) -> OdometryTelemetry {
    OdometryTelemetry {
        sequence: u32_from_le(b.subrange(0, 4)),
        timestamp_us: u64_from_le(b.subrange(4, 12)),
        loop_time_us: u32_from_le(b.subrange(12, 16)),
        left_speed: i16_from_bits(u16_from_le(b.subrange(16, 18))),
        right_speed: i16_from_bits(u16_from_le(b.subrange(18, 20))),
    }
}

/// What `OdometryTelemetry::from_cdr` gives for the bytes `b`.
pub open spec fn odom_decode(b: Seq<u8>) -> Option<OdometryTelemetry> {
    if b.len() < 20 {
        None
    } else {
        Some(odom_from_cdr(b))
    }
}

impl OdometryTelemetry {
    /// Serialized size in bytes.
    pub const SERIALIZED_SIZE: usize = 20;

    /// The CDR bytes, produced with a serializer of exactly that capacity.
    fn cdr_bytes(&self) -> (v: Vec<u8>)
        ensures
            v@ == odom_cdr(*self),
    {
        let mut s = CdrSerializer::<20>::new();
        let _ = s.write_u32(self.sequence);
        let _ = s.write_u64(self.timestamp_us);
        let _ = s.write_u32(self.loop_time_us);
        let _ = s.write_i16(self.left_speed);
        let _ = s.write_i16(self.right_speed);
        assert(s@ =~= odom_cdr(*self));
        bytes_to_vec(s.as_bytes())
    }

    /// Serialize into the front of `buf`.
    ///
    /// Writes exactly 20 bytes and returns 20, or returns 0 and leaves `buf`
    /// untouched when it is shorter than that.
    pub fn to_cdr(&self, buf: &mut [u8]) -> (n: usize)
        ensures
            old(buf)@.len() < 20 ==> n == 0 && final(buf)@ == old(buf)@,
            old(buf)@.len() >= 20 ==> n == 20 && final(buf)@ == odom_cdr(*self) + old(buf)@.subrange(20, old(buf)@.len() as int),
    {
        if buf.len() < Self::SERIALIZED_SIZE {
            return 0;
        }
        let bytes = self.cdr_bytes();
        copy_into(buf, 0, bytes.as_slice());
        assert(old(buf)@.subrange(0, 0) + bytes@ =~= bytes@);
        bytes.len()
    }

    /// Decode the record stored at `buf[off..off + 20]`.
    fn read_at(buf: &[u8], off: usize) -> (t: Self)
        requires
            off + 20 <= buf@.len(),
        ensures
            t == odom_from_cdr(buf@.subrange(off as int, buf@.len() as int)),
    {
        let _n = buf.len();
        let ghost b = buf@.subrange(off as int, buf@.len() as int);
        assert(b.subrange(0, 4) =~= buf@.subrange(off as int, off + 4));
        assert(b.subrange(4, 12) =~= buf@.subrange(off + 4, off + 12));
        assert(b.subrange(12, 16) =~= buf@.subrange(off + 12, off + 16));
        assert(b.subrange(16, 18) =~= buf@.subrange(off + 16, off + 18));
        assert(b.subrange(18, 20) =~= buf@.subrange(off + 18, off + 20));
        OdometryTelemetry {
            sequence: read_u32_le(buf, off),
            timestamp_us: read_u64_le(buf, off + 4),
            loop_time_us: read_u32_le(buf, off + 12),
            left_speed: i16_of_bits(read_u16_le(buf, off + 16)),
            right_speed: i16_of_bits(read_u16_le(buf, off + 18)),
        }
    }

    /// Deserialize from CDR bytes; `None` when `buf` is shorter than 20.
    pub fn from_cdr(buf: &[u8]) -> (r: Option<Self>)
        ensures
            r == odom_decode(buf@),
    {
        if buf.len() < Self::SERIALIZED_SIZE {
            return None;
        }
        assert(buf@.subrange(0, buf@.len() as int) =~= buf@);
        Some(Self::read_at(buf, 0))
    }
}

/// Decoding the CDR bytes of an odometry record, whatever follows them,
/// gives the record back.
pub proof fn lemma_odom_cdr_roundtrip(t: OdometryTelemetry, rest: Seq<u8>)
    ensures
        odom_cdr(t).len() == 20,
        odom_decode(odom_cdr(t) + rest) == Some(t),
{
    let b = odom_cdr(t) + rest;
    lemma_u32_le_roundtrip(t.sequence);
    lemma_u64_le_roundtrip(t.timestamp_us);
    lemma_u32_le_roundtrip(t.loop_time_us);
    lemma_u16_le_roundtrip(i16_bits(t.left_speed));
    lemma_u16_le_roundtrip(i16_bits(t.right_speed));
    lemma_i16_bits_roundtrip(t.left_speed);
    lemma_i16_bits_roundtrip(t.right_speed);
    assert(b.subrange(0, 4) =~= u32_le(t.sequence));
    assert(b.subrange(4, 12) =~= u64_le(t.timestamp_us));
    assert(b.subrange(12, 16) =~= u32_le(t.loop_time_us));
    assert(b.subrange(16, 18) =~= u16_le(i16_bits(t.left_speed)));
    assert(b.subrange(18, 20) =~= u16_le(i16_bits(t.right_speed)));
}

// ── Telemetry packets ────────────────────────────────────────────────────────

/// A telemetry packet queued for radio transmission.
#[derive(Debug, Clone, Copy)]
pub enum TelemetryPacket {
    /// Structured IMU data.
    Imu(ImuTelemetry),
    /// Structured odometry data.
    Odometry(OdometryTelemetry),
}

/// The wire bytes of a packet: its type byte, then the CDR payload.
pub open spec fn packet_bytes(p: TelemetryPacket) -> Seq<u8> {
    match p {
        TelemetryPacket::Imu(t) => seq![cmd::EMIT_IMU_TELEMETRY] + imu_cdr(t),
        TelemetryPacket::Odometry(t) => seq![cmd::EMIT_ODOM_TELEMETRY] + odom_cdr(t),
    }
}

/// What `TelemetryPacket::deserialize` gives for the bytes `b`.
pub open spec fn packet_decode(b: Seq<u8>) -> Option<TelemetryPacket> {
    if b.len() == 0 {
        None
    } else if b[0] == cmd::EMIT_IMU_TELEMETRY {
        match imu_decode(b.subrange(1, b.len() as int)) {
            Some(t) => Some(TelemetryPacket::Imu(t)),
            None => None,
        }
    } else if b[0] == cmd::EMIT_ODOM_TELEMETRY {
        match odom_decode(b.subrange(1, b.len() as int)) {
            Some(t) => Some(TelemetryPacket::Odometry(t)),
            None => None,
        }
    } else {
        None
    }
}

impl TelemetryPacket {
    /// Type byte of `Imu` packets.
    pub const TYPE_IMU: u8 = cmd::EMIT_IMU_TELEMETRY;

    /// Type byte of `Odometry` packets.
    pub const TYPE_ODOMETRY: u8 = cmd::EMIT_ODOM_TELEMETRY;

    /// Largest serialized packet (type byte + IMU payload).
    pub const MAX_SERIALIZED_SIZE: usize = 37;

    /// Serialize into the front of `buf`: the type byte, then the payload.
    ///
    /// Returns the number of bytes written, or 0 (leaving `buf` untouched)
    /// when `buf` is too short for this packet.
    pub fn serialize(&self, buf: &mut [u8]) -> (n: usize)
        ensures
            old(buf)@.len() < packet_bytes(*self).len() ==> n == 0 && final(buf)@ == old(buf)@,
            old(buf)@.len() >= packet_bytes(*self).len() ==> n == packet_bytes(*self).len()
                && final(buf)@ == packet_bytes(*self) + old(buf)@.subrange(
                n as int,
                old(buf)@.len() as int,
            ),
    {
        let (tag, payload) = match self {
            TelemetryPacket::Imu(imu) => (Self::TYPE_IMU, imu.cdr_bytes()),
            TelemetryPacket::Odometry(odom) => (Self::TYPE_ODOMETRY, odom.cdr_bytes()),
        };
        assert(packet_bytes(*self) =~= seq![tag] + payload@);
        if buf.len() < 1 + payload.len() {
            return 0;
        }
        buf[0] = tag;
        copy_into(buf, 1, payload.as_slice());
        assert(final(buf)@ =~= packet_bytes(*self) + old(buf)@.subrange(
            1 + payload@.len() as int,
            old(buf)@.len() as int,
        ));
        1 + payload.len()
    }

    /// Deserialize a packet; `None` for an empty buffer, an unknown type
    /// byte, or a truncated payload.
    pub fn deserialize(buf: &[u8]) -> (r: Option<Self>)
        ensures
            r == packet_decode(buf@),
    {
        if buf.len() == 0 {
            return None;
        }
        let ghost tail = buf@.subrange(1, buf@.len() as int);
        if buf[0] == Self::TYPE_IMU {
            if buf.len() - 1 < ImuTelemetry::SERIALIZED_SIZE {
                return None;
            }
            Some(TelemetryPacket::Imu(ImuTelemetry::read_at(buf, 1)))
        } else if buf[0] == Self::TYPE_ODOMETRY {
            if buf.len() - 1 < OdometryTelemetry::SERIALIZED_SIZE {
                return None;
            }
            Some(TelemetryPacket::Odometry(OdometryTelemetry::read_at(buf, 1)))
        } else {
            None
        }
    }
}

/// Deserializing the bytes of a packet, whatever follows them, gives the
/// packet back.
#[verifier::spinoff_prover]
#[verifier::rlimit(40)]
pub proof fn lemma_packet_roundtrip(p: TelemetryPacket, rest: Seq<u8>)
    ensures
        packet_decode(packet_bytes(p) + rest) == Some(p),
{
    let b = packet_bytes(p) + rest;
    match p {
        TelemetryPacket::Imu(t) => {
            lemma_imu_cdr_roundtrip(t, rest);
            assert(b.subrange(1, b.len() as int) =~= imu_cdr(t) + rest);
        },
        TelemetryPacket::Odometry(t) => {
            lemma_odom_cdr_roundtrip(t, rest);
            assert(b.subrange(1, b.len() as int) =~= odom_cdr(t) + rest);
        },
    }
}

} // verus!
