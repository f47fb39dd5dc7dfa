//! The Brain → Worker radio frame: `[MAGIC0, MAGIC1, cmd_id, payload_len,
//! payload …]`.
use vstd::prelude::*;

use crate::abi::worker_cmd;
use crate::wire::{
    i16_bits, i16_from_bits, i16_of_bits, i16_to_bits, lemma_i16_bits_roundtrip,
    lemma_u16_le_roundtrip, push_u16_le, read_u16_le, u16_from_le, u16_le,
};

verus! {

/// First magic byte of every SandOS frame.
pub const FRAME_MAGIC_0: u8 = 0x5A;

/// Second magic byte of every SandOS frame.
pub const FRAME_MAGIC_1: u8 = 0x4E;

/// Codec of the Brain → Worker frames.
pub struct WorkerPacket;

/// What `WorkerPacket::decode` gives for `b`: the command id and payload of
/// a frame with a valid magic header whose declared payload is present.
pub open spec fn worker_decode(b: Seq<u8>) -> Option<(u8, Seq<u8>)> {
    if b.len() < 4 || b[0] != FRAME_MAGIC_0 || b[1] != FRAME_MAGIC_1 || 4 + b[3] > b.len() {
        None
    } else {
        Some((b[2], b.subrange(4, 4 + b[3])))
    }
}

/// What `WorkerPacket::parse_motor_speed` gives for a payload.
pub open spec fn motor_speed_decode(p: Seq<u8>) -> Option<(i16, i16)> {
    if p.len() < 4 {
        None
    } else {
        Some(
            (
                i16_from_bits(u16_from_le(p.subrange(0, 2))),
                i16_from_bits(u16_from_le(p.subrange(2, 4))),
            ),
        )
    }
}

/// The frame carrying a motor-speed command.
pub open spec fn motor_speed_frame(left: i16, right: i16) -> Seq<u8> {
    seq![FRAME_MAGIC_0, FRAME_MAGIC_1, worker_cmd::MOTOR_SPEED, 4u8] + u16_le(i16_bits(left))
        + u16_le(i16_bits(right))
}

impl WorkerPacket {
    /// Split a frame into its command id and payload; `None` for a bad magic
    /// header or a truncated frame.
    pub fn decode(data: &[u8]) -> (r: Option<(u8, &[u8])>)
        ensures
            match r {
                Some((c, p)) => worker_decode(data@) == Some((c, p@)),
                None => worker_decode(data@) is None,
            },
    {
        if data.len() < 4 || data[0] != FRAME_MAGIC_0 || data[1] != FRAME_MAGIC_1 {
            return None;
        }
        let plen = data[3] as usize;
        if data.len() - 4 < plen {
            return None;
        }
        Some((data[2], &data[4..4 + plen]))
    }

    /// The left and right speeds of a motor-speed payload (little-endian
    /// `i16` each); `None` when the payload is shorter than 4 bytes.
    pub fn parse_motor_speed(payload: &[u8]) -> (r: Option<(i16, i16)>)
        ensures
            r == motor_speed_decode(payload@),
    {
        if payload.len() < 4 {
            return None;
        }
        let left = i16_of_bits(read_u16_le(payload, 0));
        let right = i16_of_bits(read_u16_le(payload, 2));
        Some((left, right))
    }

    /// Build the frame carrying a motor-speed command.
    pub fn motor_speed(left: i16, right: i16) -> (v: Vec<u8>)
        ensures
            v@ == motor_speed_frame(left, right),
    {
        let mut v = Vec::new();
        v.push(FRAME_MAGIC_0);
        v.push(FRAME_MAGIC_1);
        v.push(worker_cmd::MOTOR_SPEED);
        v.push(4u8);
        push_u16_le(&mut v, i16_to_bits(left));
        push_u16_le(&mut v, i16_to_bits(right));
        assert(v@ =~= motor_speed_frame(left, right));
        v
    }
}

/// A motor-speed frame decodes to the motor-speed command and its speeds.
pub proof fn lemma_motor_speed_frame_roundtrip(left: i16, right: i16)
    ensures
        worker_decode(motor_speed_frame(left, right)) matches Some((c, p)) && c
            == worker_cmd::MOTOR_SPEED && motor_speed_decode(p) == Some((left, right)),
{
    let f = motor_speed_frame(left, right);
    lemma_u16_le_roundtrip(i16_bits(left));
    lemma_u16_le_roundtrip(i16_bits(right));
    lemma_i16_bits_roundtrip(left);
    lemma_i16_bits_roundtrip(right);
    let p = f.subrange(4, 8);
    assert(p.subrange(0, 2) =~= u16_le(i16_bits(left)));
    assert(p.subrange(2, 4) =~= u16_le(i16_bits(right)));
}

} // verus!
