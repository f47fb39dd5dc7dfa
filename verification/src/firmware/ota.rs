//! The OTA receiver: stages a Wasm binary sent over the radio in chunks,
//! verifies its CRC-32 and hands it over for a hot-swap of the Wasm VM.
//!
//! Protocol: `OTA_BEGIN` declares the total size, `OTA_CHUNK`s write data at
//! byte offsets, `OTA_FINALIZE` checks the CRC-32 of the whole staging
//! buffer.  The receiver never touches motor state.
use vstd::prelude::*;

use crate::abi::cmd;
use crate::abi::crc::crc32_of;
use crate::abi::{crc32, OtaState, OTA_MAX_BINARY_SIZE};
use crate::abi::crc::lemma_crc32_detects_single_byte_corruption;
use crate::wire::{lemma_u32_le_roundtrip, read_u32_le, u32_from_le, u32_le};

verus! {

/// The abstract state of an [`OtaReceiver`].
pub struct OtaModel {
    pub state: OtaState,
    /// The staging buffer.
    pub staged: Seq<u8>,
    pub total_size: u32,
    pub bytes_received: u32,
    pub swap_count: u32,
}

/// A staging buffer of `n` zero bytes.
pub open spec fn zeros(n: nat) -> Seq<u8> {
    Seq::new(n, |i: int| 0u8)
}

/// The state after an `OTA_BEGIN` payload.
pub open spec fn begin_model(m: OtaModel, payload: Seq<u8>) -> OtaModel {
    let total = u32_from_le(payload.subrange(0, 4));
    if payload.len() < 4 || total == 0 || total > OTA_MAX_BINARY_SIZE {
        OtaModel { state: OtaState::Failed, ..m }
    } else if m.state == OtaState::Swapping {
        m
    } else {
        OtaModel {
            state: OtaState::Receiving,
            staged: zeros(total as nat),
            total_size: total,
            bytes_received: 0,
            swap_count: m.swap_count,
        }
    }
}

/// Whether an `OTA_BEGIN` payload is accepted.
pub open spec fn begin_accepted(m: OtaModel, payload: Seq<u8>) -> bool {
    let total = u32_from_le(payload.subrange(0, 4));
    payload.len() >= 4 && total != 0 && total <= OTA_MAX_BINARY_SIZE && m.state != OtaState::Swapping
}

/// `staged` with `data` written at `offset`.
pub open spec fn write_at(staged: Seq<u8>, offset: int, data: Seq<u8>) -> Seq<u8> {
    staged.subrange(0, offset) + data + staged.subrange(offset + data.len(), staged.len() as int)
}

/// Whether an `OTA_CHUNK` payload is accepted: a session is receiving, the
/// payload holds an offset and at least one data byte, and the data fits.
pub open spec fn chunk_accepted(m: OtaModel, payload: Seq<u8>) -> bool {
    m.state == OtaState::Receiving && payload.len() >= 5 && u32_from_le(payload.subrange(0, 4))
        + (payload.len() - 4) <= m.total_size
}

/// The state after an `OTA_CHUNK` payload.
pub open spec fn chunk_model(m: OtaModel, payload: Seq<u8>) -> OtaModel {
    let offset = u32_from_le(payload.subrange(0, 4));
    let data = payload.subrange(4, payload.len() as int);
    if m.state != OtaState::Receiving || payload.len() < 5 {
        m
    } else if offset + data.len() > m.total_size {
        OtaModel { state: OtaState::Failed, ..m }
    } else {
        OtaModel {
            staged: write_at(m.staged, offset as int, data),
            bytes_received: ((m.bytes_received + data.len()) % 0x1_0000_0000) as u32,
            ..m
        }
    }
}

/// Whether an `OTA_FINALIZE` payload is accepted: a session is receiving and
/// the CRC-32 of the staged binary equals the expected one.
pub open spec fn finalize_accepted(m: OtaModel, payload: Seq<u8>) -> bool {
    m.state == OtaState::Receiving && payload.len() >= 4 && crc32_of(m.staged) == u32_from_le(
        payload.subrange(0, 4),
    )
}

/// The state after an `OTA_FINALIZE` payload.
pub open spec fn finalize_model(m: OtaModel, payload: Seq<u8>) -> OtaModel {
    if m.state != OtaState::Receiving {
        m
    } else if finalize_accepted(m, payload) {
        OtaModel { state: OtaState::Ready, ..m }
    } else {
        OtaModel { state: OtaState::Failed, ..m }
    }
}

/// The state after a successful hand-over of the verified binary.
pub open spec fn taken_model(m: OtaModel) -> OtaModel {
    OtaModel {
        state: OtaState::Idle,
        staged: Seq::empty(),
        total_size: 0,
        bytes_received: 0,
        swap_count: ((m.swap_count + 1) % 0x1_0000_0000) as u32,
    }
}

/// The PSRAM-backed OTA receiver and binary staging area.
pub struct OtaReceiver {
    state: OtaState,
    buffer: Vec<u8>,
    total_size: u32,
    bytes_received: u32,
    swap_count: u32,
}

impl View for OtaReceiver {
    type V = OtaModel;

    closed spec fn view(&self) -> OtaModel {
        OtaModel {
            state: self.state,
            staged: self.buffer@,
            total_size: self.total_size,
            bytes_received: self.bytes_received,
            swap_count: self.swap_count,
        }
    }
}

/// While a session is receiving or verified, the staging buffer holds
/// exactly the declared number of bytes.
pub open spec fn ota_well_formed(m: OtaModel) -> bool {
    (m.state == OtaState::Receiving || m.state == OtaState::Ready) ==> m.staged.len()
        == m.total_size
}

impl OtaReceiver {
    #[verifier::type_invariant]
    closed spec fn staged_matches_size(self) -> bool {
        ota_well_formed(self@)
    }

    /// Create a new, idle receiver.
    pub fn new() -> (r: Self)
        ensures
            ota_well_formed(r@),
            r@ == (OtaModel {
                state: OtaState::Idle,
                staged: Seq::empty(),
                total_size: 0,
                bytes_received: 0,
                swap_count: 0,
            }),
    {
        OtaReceiver {
            state: OtaState::Idle,
            buffer: Vec::new(),
            total_size: 0,
            bytes_received: 0,
            swap_count: 0,
        }
    }

    /// Current protocol state.
    pub fn state(&self) -> (s: OtaState)
        ensures
            ota_well_formed(self@),
            s == self@.state,
    {
        proof {
            use_type_invariant(self);
        }
        self.state
    }

    /// Payload bytes written in the current session (wrapping).
    pub fn bytes_received(&self) -> (n: u32)
        ensures
            ota_well_formed(self@),
            n == self@.bytes_received,
    {
        proof {
            use_type_invariant(self);
        }
        self.bytes_received
    }

    /// Total size declared by `OTA_BEGIN`.
    pub fn total_size(&self) -> (n: u32)
        ensures
            ota_well_formed(self@),
            n == self@.total_size,
    {
        proof {
            use_type_invariant(self);
        }
        self.total_size
    }

    /// Number of completed hot-swaps (wrapping).
    pub fn swap_count(&self) -> (n: u32)
        ensures
            ota_well_formed(self@),
            n == self@.swap_count,
    {
        proof {
            use_type_invariant(self);
        }
        self.swap_count
    }

    /// The verified binary when the state is `Ready`, `None` otherwise.
    pub fn ready_binary(&self) -> (r: Option<&[u8]>)
        ensures
            ota_well_formed(self@),
            self@.state == OtaState::Ready ==> (r matches Some(b) && b@ == self@.staged),
            self@.state != OtaState::Ready ==> r is None,
    {
        proof {
            use_type_invariant(self);
        }
        if self.state == OtaState::Ready {
            Some(self.buffer.as_slice())
        } else {
            None
        }
    }

    /// Handle an `OTA_BEGIN` payload (`[total_size: u32 LE]`).
    ///
    /// A short payload or a size of 0 or above `OTA_MAX_BINARY_SIZE` fails
    /// the session.  During a hot-swap the command is refused.  Otherwise any
    /// session in progress is discarded, the staging buffer is reset to
    /// `total_size` zero bytes and the state becomes `Receiving`.
    pub fn handle_begin(&mut self, payload: &[u8]) -> (ok: bool)
        ensures
            ota_well_formed(old(self)@),
            ota_well_formed(final(self)@),
            ok == begin_accepted(old(self)@, payload@),
            final(self)@ == begin_model(old(self)@, payload@),
    {
        proof {
            use_type_invariant(&*self);
        }
        if payload.len() < 4 {
            self.state = OtaState::Failed;
            return false;
        }
        let total = read_u32_le(payload, 0);
        if total == 0 || total as usize > OTA_MAX_BINARY_SIZE {
            self.state = OtaState::Failed;
            return false;
        }
        if self.state == OtaState::Swapping {
            return false;
        }
        let mut fresh: Vec<u8> = Vec::new();
        let mut i: u32 = 0;
        while i < total
            invariant
                i <= total,
                fresh@ == zeros(i as nat),
            decreases total - i,
        {
            fresh.push(0u8);
            i += 1;
            assert(fresh@ =~= zeros(i as nat));
        }
        *self = OtaReceiver {
            state: OtaState::Receiving,
            buffer: fresh,
            total_size: total,
            bytes_received: 0,
            swap_count: self.swap_count,
        };
        true
    }

    /// Handle an `OTA_CHUNK` payload (`[offset: u32 LE][data …]`).
    ///
    /// Refused (state unchanged) unless a session is receiving and the
    /// payload carries at least one data byte.  Data that would run past the
    /// declared size fails the session.  Otherwise the data is written at the
    /// offset and counted in `bytes_received` (which wraps on overflow).
    pub fn handle_chunk(&mut self, payload: &[u8]) -> (ok: bool)
        ensures
            ota_well_formed(old(self)@),
            ota_well_formed(final(self)@),
            ok == chunk_accepted(old(self)@, payload@),
            final(self)@ == chunk_model(old(self)@, payload@),
    {
        proof {
            use_type_invariant(&*self);
        }
        if self.state != OtaState::Receiving {
            return false;
        }
        if payload.len() < 5 {
            return false;
        }
        let offset = read_u32_le(payload, 0);
        let dlen = payload.len() - 4;
        let ghost data = payload@.subrange(4, payload@.len() as int);
        if (self.total_size as usize) < dlen || (offset as usize) > (self.total_size as usize)
            - dlen {
            self.state = OtaState::Failed;
            return false;
        }
        let off = offset as usize;
        let plen = payload.len();
        let mut taken = OtaReceiver::new();
        std::mem::swap(self, &mut taken);
        let OtaReceiver { state, buffer: mut buf, total_size, bytes_received, swap_count } = taken;
        let ghost before = buf@;
        let blen = buf.len();
        let mut i: usize = 0;
        while i < dlen
            invariant
                plen == payload@.len(),
                dlen == plen - 4,
                off + dlen <= blen,
                blen == buf@.len(),
                buf@.len() == before.len(),
                i <= dlen,
                forall|k: int| 0 <= k < off ==> buf@[k] == before[k],
                forall|k: int| off <= k < off + i ==> buf@[k] == payload@[k - off + 4],
                forall|k: int| off + i <= k < buf@.len() ==> buf@[k] == before[k],
            decreases dlen - i,
        {
            buf.set(off + i, payload[4 + i]);
            i += 1;
        }
        assert(buf@ =~= write_at(before, off as int, data));
        *self = OtaReceiver {
            state,
            buffer: buf,
            total_size,
            bytes_received: bytes_received.wrapping_add(dlen as u32),
            swap_count,
        };
        true
    }

    /// Handle an `OTA_FINALIZE` payload (`[expected_crc32: u32 LE]`).
    ///
    /// Refused unless a session is receiving.  The state becomes `Ready`
    /// when the CRC-32 of the whole staging buffer equals the expected value
    /// and `Failed` otherwise (also for a short payload).
    pub fn handle_finalize(&mut self, payload: &[u8]) -> (ok: bool)
        ensures
            ota_well_formed(old(self)@),
            ota_well_formed(final(self)@),
            ok == finalize_accepted(old(self)@, payload@),
            final(self)@ == finalize_model(old(self)@, payload@),
    {
        proof {
            use_type_invariant(&*self);
        }
        if self.state != OtaState::Receiving {
            return false;
        }
        if payload.len() < 4 {
            self.state = OtaState::Failed;
            return false;
        }
        let expected = read_u32_le(payload, 0);
        let actual = crc32(self.buffer.as_slice());
        if actual != expected {
            self.state = OtaState::Failed;
            return false;
        }
        self.state = OtaState::Ready;
        true
    }

    /// Dispatch an OTA command to its handler.
    ///
    /// `true` when `cmd_id` is an OTA command (whatever the handler's
    /// outcome), `false` and no change otherwise.
    pub fn handle_command(&mut self, cmd_id: u8, payload: &[u8]) -> (handled: bool)
        ensures
            ota_well_formed(old(self)@),
            ota_well_formed(final(self)@),
            handled == (cmd_id == cmd::OTA_BEGIN || cmd_id == cmd::OTA_CHUNK || cmd_id
                == cmd::OTA_FINALIZE),
            cmd_id == cmd::OTA_BEGIN ==> final(self)@ == begin_model(old(self)@, payload@),
            cmd_id == cmd::OTA_CHUNK ==> final(self)@ == chunk_model(old(self)@, payload@),
            cmd_id == cmd::OTA_FINALIZE ==> final(self)@ == finalize_model(old(self)@, payload@),
            !handled ==> final(self)@ == old(self)@,
    {
        proof {
            use_type_invariant(&*self);
        }
        if cmd_id == cmd::OTA_BEGIN {
            self.handle_begin(payload);
            true
        } else if cmd_id == cmd::OTA_CHUNK {
            self.handle_chunk(payload);
            true
        } else if cmd_id == cmd::OTA_FINALIZE {
            self.handle_finalize(payload);
            true
        } else {
            false
        }
    }

    /// Hand the verified binary over for the hot-swap.
    ///
    /// `None` and no change unless the state is `Ready`.  Otherwise returns
    /// the staged bytes, counts the swap (wrapping) and resets the receiver
    /// to an idle, empty session.
    pub fn take_verified_binary(&mut self) -> (r: Option<Vec<u8>>)
        ensures
            ota_well_formed(old(self)@),
            ota_well_formed(final(self)@),
            old(self)@.state == OtaState::Ready ==> (r matches Some(b) && b@ == old(self)@.staged
                && final(self)@ == taken_model(old(self)@)),
            old(self)@.state != OtaState::Ready ==> r is None && final(self)@ == old(self)@,
    {
        proof {
            use_type_invariant(&*self);
        }
        if self.state != OtaState::Ready {
            return None;
        }
        self.state = OtaState::Swapping;
        let mut binary: Vec<u8> = Vec::new();
        std::mem::swap(&mut binary, &mut self.buffer);
        self.swap_count = self.swap_count.wrapping_add(1);
        self.state = OtaState::Idle;
        self.total_size = 0;
        self.bytes_received = 0;
        Some(binary)
    }

    /// Reset a `Failed` session so that a new `OTA_BEGIN` can be accepted;
    /// no change in any other state.
    pub fn reset_failed(&mut self)
        ensures
            ota_well_formed(old(self)@),
            ota_well_formed(final(self)@),
            old(self)@.state == OtaState::Failed ==> final(self)@ == (OtaModel {
                state: OtaState::Idle,
                staged: Seq::empty(),
                total_size: 0,
                bytes_received: 0,
                swap_count: old(self)@.swap_count,
            }),
            old(self)@.state != OtaState::Failed ==> final(self)@ == old(self)@,
    {
        proof {
            use_type_invariant(&*self);
        }
        if self.state == OtaState::Failed {
            self.buffer = Vec::new();
            self.total_size = 0;
            self.bytes_received = 0;
            self.state = OtaState::Idle;
        }
    }
}

// ── Laws of a transfer ───────────────────────────────────────────────────────

/// The `OTA_BEGIN` payload declaring `total` bytes.
pub open spec fn begin_payload(total: u32) -> Seq<u8> {
    u32_le(total)
}

/// The `OTA_CHUNK` payload carrying `data` at `offset`.
pub open spec fn chunk_payload(offset: u32, data: Seq<u8>) -> Seq<u8> {
    u32_le(offset) + data
}

/// The `OTA_FINALIZE` payload expecting the checksum `crc`.
pub open spec fn finalize_payload(crc: u32) -> Seq<u8> {
    u32_le(crc)
}

/// The receiver after `data[pos..]` was sent to it in order, in chunks of
/// `step` bytes (the last one possibly shorter).
pub open spec fn send_in_chunks(m: OtaModel, data: Seq<u8>, pos: nat, step: nat) -> OtaModel
    decreases data.len() - pos,
{
    if pos >= data.len() || step == 0 {
        m
    } else {
        let end: nat = if pos + step < data.len() { pos + step } else { data.len() };
        send_in_chunks(
            chunk_model(m, chunk_payload(pos as u32, data.subrange(pos as int, end as int))),
            data,
            end,
            step,
        )
    }
}

proof fn lemma_chunk_payload_fields(offset: u32, data: Seq<u8>)
    ensures
        chunk_payload(offset, data).len() == data.len() + 4,
        u32_from_le(chunk_payload(offset, data).subrange(0, 4)) == offset,
        chunk_payload(offset, data).subrange(4, data.len() + 4int) == data,
{
    lemma_u32_le_roundtrip(offset);
    assert(chunk_payload(offset, data).subrange(0, 4) =~= u32_le(offset));
    assert(chunk_payload(offset, data).subrange(4, data.len() + 4int) =~= data);
}

/// Sending the rest of `data` in order, to a session that already holds
/// `data[..pos]` at the front, stages all of `data`.
proof fn lemma_send_in_chunks(m: OtaModel, data: Seq<u8>, pos: nat, step: nat)
    requires
        step > 0,
        pos <= data.len(),
        data.len() <= OTA_MAX_BINARY_SIZE,
        m.state == OtaState::Receiving,
        m.total_size == data.len(),
        m.staged.len() == data.len(),
        m.staged.subrange(0, pos as int) == data.subrange(0, pos as int),
        m.bytes_received == pos,
    ensures
        send_in_chunks(m, data, pos, step).state == OtaState::Receiving,
        send_in_chunks(m, data, pos, step).staged == data,
        send_in_chunks(m, data, pos, step).total_size == m.total_size,
        send_in_chunks(m, data, pos, step).bytes_received == data.len(),
        send_in_chunks(m, data, pos, step).swap_count == m.swap_count,
    decreases data.len() - pos,
{
    if pos >= data.len() {
        assert(m.staged =~= m.staged.subrange(0, pos as int));
        assert(data =~= data.subrange(0, pos as int));
    } else {
        let end: nat = if pos + step < data.len() { pos + step } else { data.len() };
        let piece = data.subrange(pos as int, end as int);
        lemma_chunk_payload_fields(pos as u32, piece);
        let p = chunk_payload(pos as u32, piece);
        assert(p.subrange(4, p.len() as int) =~= piece);
        let m1 = chunk_model(m, p);
        assert(m1.staged == write_at(m.staged, pos as int, piece));
        assert(m1.staged.subrange(0, end as int) =~= data.subrange(0, end as int));
        lemma_send_in_chunks(m1, data, end, step);
    }
}

/// A complete transfer installs the binary: after `OTA_BEGIN` with the size
/// of `data`, the chunks of `data` in order (of any chunk size) and
/// `OTA_FINALIZE` with its CRC-32, the receiver is `Ready` with exactly
/// `data` staged, and the hand-over gives `data` back.
pub proof fn lemma_ota_transfer_installs_binary(m: OtaModel, data: Seq<u8>, step: nat)
    requires
        m.state != OtaState::Swapping,
        1 <= data.len() <= OTA_MAX_BINARY_SIZE,
        step >= 1,
    ensures
        ({
            let begun = begin_model(m, begin_payload(data.len() as u32));
            let sent = send_in_chunks(begun, data, 0, step);
            let done = finalize_model(sent, finalize_payload(crc32_of(data)));
            &&& begin_accepted(m, begin_payload(data.len() as u32))
            &&& finalize_accepted(sent, finalize_payload(crc32_of(data)))
            &&& done.state == OtaState::Ready
            &&& done.staged == data
            &&& done.total_size == data.len()
            &&& done.bytes_received == data.len()
            &&& done.swap_count == m.swap_count
            &&& taken_model(done).state == OtaState::Idle
        }),
{
    let n = data.len() as u32;
    lemma_u32_le_roundtrip(n);
    assert(begin_payload(n).subrange(0, 4) =~= begin_payload(n));
    let begun = begin_model(m, begin_payload(n));
    assert(begun.staged.subrange(0, 0) =~= data.subrange(0, 0));
    lemma_send_in_chunks(begun, data, 0, step);
    let crc = crc32_of(data);
    lemma_u32_le_roundtrip(crc);
    assert(finalize_payload(crc).subrange(0, 4) =~= finalize_payload(crc));
}

/// A binary corrupted in a single byte is refused: when the staged bytes
/// differ from the intended binary in exactly one position, `OTA_FINALIZE`
/// with the intended binary's CRC-32 fails the session.
pub proof fn lemma_ota_rejects_single_byte_corruption(m: OtaModel, data: Seq<u8>, k: int)
    requires
        m.state == OtaState::Receiving,
        m.staged.len() == data.len(),
        0 <= k < data.len(),
        m.staged[k] != data[k],
        forall|i: int| 0 <= i < data.len() && i != k ==> m.staged[i] == data[i],
    ensures
        !finalize_accepted(m, finalize_payload(crc32_of(data))),
        finalize_model(m, finalize_payload(crc32_of(data))).state == OtaState::Failed,
        finalize_model(m, finalize_payload(crc32_of(data))).staged == m.staged,
{
    lemma_crc32_detects_single_byte_corruption(m.staged, data, k);
    let crc = crc32_of(data);
    lemma_u32_le_roundtrip(crc);
    assert(finalize_payload(crc).subrange(0, 4) =~= finalize_payload(crc));
}

} // verus!
