//! Fixed-layout records the host copies into guest memory: the local
//! inference result and the OTA status snapshot.
use vstd::prelude::*;

use crate::wire::{copy_into, lemma_u32_le_roundtrip, push_u32_le, read_u32_le, u32_from_le, u32_le};

verus! {

// ── Inference result ─────────────────────────────────────────────────────────

/// The latest result of the local inference engine.
#[derive(Debug, Clone, Copy, PartialEq, Eq, Structural)]
pub struct InferenceResult {
    /// `true` once an inference pass has produced this result.
    pub active: bool,
    /// Index of the highest-confidence class.
    pub top_class: u8,
    /// Confidence in percent (0 – 100).
    pub confidence_pct: u8,
}

impl Default for InferenceResult {
    fn default() -> (r: Self)
        ensures
            r == inference_inactive(),
    {
        InferenceResult { active: false, top_class: 0, confidence_pct: 0 }
    }
}

/// The inactive, all-zero result.
pub open spec fn inference_inactive() -> InferenceResult {
    InferenceResult { active: false, top_class: 0, confidence_pct: 0 }
}

/// The packed word of a result: bit 16 = active, bits 15..8 = class,
/// bits 7..0 = confidence.
pub open spec fn inference_packed(r: InferenceResult) -> u32 {
    ((if r.active { 0x1_0000int } else { 0int }) + 256 * r.top_class + r.confidence_pct) as u32
}

/// The result whose packed word is `raw` (bits above 16 are ignored).
pub open spec fn inference_unpacked(raw: u32) -> InferenceResult {
    InferenceResult {
        active: (raw / 0x1_0000) % 2 == 1,
        top_class: ((raw / 256) % 256) as u8,
        confidence_pct: (raw % 256) as u8,
    }
}

/// The 12 bytes of a result: `active` (0 or 1), `top_class` and
/// `confidence_pct`, each as a little-endian 32-bit word.
pub open spec fn inference_bytes(r: InferenceResult) -> Seq<u8> {
    u32_le(if r.active { 1u32 } else { 0u32 }) + u32_le(r.top_class as u32) + u32_le(
        r.confidence_pct as u32,
    )
}

/// What `InferenceResult::from_bytes` gives for `b`: a result when `b` holds
/// at least 12 bytes whose three words are in range (`active` 0 or 1, the
/// other two below 256), `None` otherwise.
pub open spec fn inference_decode(b: Seq<u8>) -> Option<InferenceResult> {
    if b.len() < 12 {
        None
    } else {
        let w0 = u32_from_le(b.subrange(0, 4));
        let w1 = u32_from_le(b.subrange(4, 8));
        let w2 = u32_from_le(b.subrange(8, 12));
        if w0 <= 1 && w1 <= 255 && w2 <= 255 {
            Some(InferenceResult { active: w0 == 1, top_class: w1 as u8, confidence_pct: w2 as u8 })
        } else {
            None
        }
    }
}

impl InferenceResult {
    /// Pack into one `u32` for atomic storage.
    pub fn pack(self) -> (raw: u32)
        ensures
            raw == inference_packed(self),
    {
        (if self.active { 0x1_0000u32 } else { 0u32 }) + 256 * (self.top_class as u32) + (
        self.confidence_pct as u32)
    }

    /// Unpack a word produced by [`InferenceResult::pack`].
    pub fn unpack(raw: u32) -> (r: Self)
        ensures
            r == inference_unpacked(raw),
    {
        InferenceResult {
            active: (raw / 0x1_0000) % 2 == 1,
            top_class: ((raw / 256) % 256) as u8,
            confidence_pct: (raw % 256) as u8,
        }
    }

    /// Write the 12-byte form into the front of `out`.
    pub fn to_bytes(&self, out: &mut [u8])
        requires
            old(out)@.len() >= 12,
        ensures
            final(out)@ == inference_bytes(*self) + old(out)@.subrange(12, old(out)@.len() as int),
    {
        let mut v = Vec::new();
        push_u32_le(&mut v, if self.active { 1 } else { 0 });
        push_u32_le(&mut v, self.top_class as u32);
        push_u32_le(&mut v, self.confidence_pct as u32);
        assert(v@ =~= inference_bytes(*self));
        copy_into(out, 0, v.as_slice());
        assert(old(out)@.subrange(0, 0) + v@ =~= v@);
    }

    /// Read the 12-byte form; `None` when `bytes` is short or a word is out
    /// of range.
    pub fn from_bytes(bytes: &[u8]) -> (r: Option<Self>)
        ensures
            r == inference_decode(bytes@),
    {
        if bytes.len() < 12 {
            return None;
        }
        let w0 = read_u32_le(bytes, 0);
        let w1 = read_u32_le(bytes, 4);
        let w2 = read_u32_le(bytes, 8);
        if w0 <= 1 && w1 <= 255 && w2 <= 255 {
            Some(InferenceResult { active: w0 == 1, top_class: w1 as u8, confidence_pct: w2 as u8 })
        } else {
            None
        }
    }
}

/// Unpacking a packed result gives the result back.
pub proof fn lemma_inference_pack_roundtrip(r: InferenceResult)
    ensures
        inference_unpacked(inference_packed(r)) == r,
{
    let a: int = if r.active { 1 } else { 0 };
    let t = r.top_class as int;
    let c = r.confidence_pct as int;
    let raw = 0x1_0000 * a + 256 * t + c;
    assert(raw / 0x1_0000 == a && (raw / 256) % 256 == t && raw % 256 == c) by (nonlinear_arith)
        requires
            0 <= a <= 1,
            0 <= t < 256,
            0 <= c < 256,
            raw == 0x1_0000 * a + 256 * t + c,
    ;
}

/// Reading back the bytes of a result, whatever follows them, gives the
/// result back.
pub proof fn lemma_inference_bytes_roundtrip(r: InferenceResult, rest: Seq<u8>)
    ensures
        inference_bytes(r).len() == 12,
        inference_decode(inference_bytes(r) + rest) == Some(r),
{
    let b = inference_bytes(r) + rest;
    lemma_u32_le_roundtrip(if r.active { 1u32 } else { 0u32 });
    lemma_u32_le_roundtrip(r.top_class as u32);
    lemma_u32_le_roundtrip(r.confidence_pct as u32);
    assert(b.subrange(0, 4) =~= u32_le(if r.active { 1u32 } else { 0u32 }));
    assert(b.subrange(4, 8) =~= u32_le(r.top_class as u32));
    assert(b.subrange(8, 12) =~= u32_le(r.confidence_pct as u32));
}

// ── OTA state & status ───────────────────────────────────────────────────────

/// State of the OTA receive / hot-swap state machine.
#[derive(Debug, Clone, Copy, PartialEq, Eq, Structural)]
pub enum OtaState {
    /// No session (code 0).
    Idle,
    /// Chunks are being received (code 1).
    Receiving,
    /// The staged binary passed its CRC-32 check (code 2).
    Ready,
    /// A hot-swap is in progress (code 3).
    Swapping,
    /// The session failed; a new `OTA_BEGIN` is needed (code 4).
    Failed,
}

/// The wire code of a state.
pub open spec fn ota_state_code(s: OtaState) -> u32 {
    match s {
        OtaState::Idle => 0,
        OtaState::Receiving => 1,
        OtaState::Ready => 2,
        OtaState::Swapping => 3,
        OtaState::Failed => 4,
    }
}

/// The state with wire code `c`, if any.
pub open spec fn ota_state_of_code(c: u32) -> Option<OtaState> {
    if c == 0 {
        Some(OtaState::Idle)
    } else if c == 1 {
        Some(OtaState::Receiving)
    } else if c == 2 {
        Some(OtaState::Ready)
    } else if c == 3 {
        Some(OtaState::Swapping)
    } else if c == 4 {
        Some(OtaState::Failed)
    } else {
        None
    }
}

impl OtaState {
    /// The wire code of this state.
    fn code(self) -> (c: u32)
        ensures
            c == ota_state_code(self),
    {
        match self {
            OtaState::Idle => 0,
            OtaState::Receiving => 1,
            OtaState::Ready => 2,
            OtaState::Swapping => 3,
            OtaState::Failed => 4,
        }
    }

    /// The state with wire code `c`, if any.
    fn of_code(c: u32) -> (r: Option<OtaState>)
        ensures
            r == ota_state_of_code(c),
    {
        if c == 0 {
            Some(OtaState::Idle)
        } else if c == 1 {
            Some(OtaState::Receiving)
        } else if c == 2 {
            Some(OtaState::Ready)
        } else if c == 3 {
            Some(OtaState::Swapping)
        } else if c == 4 {
            Some(OtaState::Failed)
        } else {
            None
        }
    }
}

/// A snapshot of the OTA engine, as reported to the guest.
#[derive(Debug, Clone, Copy, PartialEq, Eq, Structural)]
pub struct OtaStatus {
    /// Current state.
    pub state: OtaState,
    /// Payload bytes received in the current session.
    pub bytes_received: u32,
    /// Total size declared by `OTA_BEGIN`.
    pub total_size: u32,
    /// Hot-swaps completed since boot.
    pub swap_count: u32,
}

/// The 16 bytes of a status: state code, bytes received, total size, swap
/// count, each a little-endian 32-bit word.
pub open spec fn ota_status_bytes(s: OtaStatus) -> Seq<u8> {
    u32_le(ota_state_code(s.state)) + u32_le(s.bytes_received) + u32_le(s.total_size) + u32_le(
        s.swap_count,
    )
}

/// What `OtaStatus::from_bytes` gives for `b`: a status when `b` holds at
/// least 16 bytes and a known state code, `None` otherwise.
pub open spec fn ota_status_decode(b: Seq<u8>) -> Option<OtaStatus> {
    if b.len() < 16 {
        None
    } else {
        match ota_state_of_code(u32_from_le(b.subrange(0, 4))) {
            Some(state) => Some(
                OtaStatus {
                    state,
                    bytes_received: u32_from_le(b.subrange(4, 8)),
                    total_size: u32_from_le(b.subrange(8, 12)),
                    swap_count: u32_from_le(b.subrange(12, 16)),
                },
            ),
            None => None,
        }
    }
}

impl OtaStatus {
    /// Write the 16-byte form into the front of `out`.
    pub fn to_bytes(&self, out: &mut [u8])
        requires
            old(out)@.len() >= 16,
        ensures
            final(out)@ == ota_status_bytes(*self) + old(out)@.subrange(16, old(out)@.len() as int),
    {
        let mut v = Vec::new();
        push_u32_le(&mut v, self.state.code());
        push_u32_le(&mut v, self.bytes_received);
        push_u32_le(&mut v, self.total_size);
        push_u32_le(&mut v, self.swap_count);
        assert(v@ =~= ota_status_bytes(*self));
        copy_into(out, 0, v.as_slice());
        assert(old(out)@.subrange(0, 0) + v@ =~= v@);
    }

    /// Read the 16-byte form; `None` when `bytes` is short or the state code
    /// is unknown.
    pub fn from_bytes(bytes: &[u8]) -> (r: Option<Self>)
        ensures
            r == ota_status_decode(bytes@),
    {
        if bytes.len() < 16 {
            return None;
        }
        match OtaState::of_code(read_u32_le(bytes, 0)) {
            Some(state) => Some(
                OtaStatus {
                    state,
                    bytes_received: read_u32_le(bytes, 4),
                    total_size: read_u32_le(bytes, 8),
                    swap_count: read_u32_le(bytes, 12),
                },
            ),
            None => None,
        }
    }
}

/// Reading back the bytes of a status, whatever follows them, gives the
/// status back.
pub proof fn lemma_ota_status_roundtrip(s: OtaStatus, rest: Seq<u8>)
    ensures
        ota_status_bytes(s).len() == 16,
        ota_status_decode(ota_status_bytes(s) + rest) == Some(s),
{
    let b = ota_status_bytes(s) + rest;
    lemma_u32_le_roundtrip(ota_state_code(s.state));
    lemma_u32_le_roundtrip(s.bytes_received);
    lemma_u32_le_roundtrip(s.total_size);
    lemma_u32_le_roundtrip(s.swap_count);
    assert(b.subrange(0, 4) =~= u32_le(ota_state_code(s.state)));
    assert(b.subrange(4, 8) =~= u32_le(s.bytes_received));
    assert(b.subrange(8, 12) =~= u32_le(s.total_size));
    assert(b.subrange(12, 16) =~= u32_le(s.swap_count));
}

} // verus!
