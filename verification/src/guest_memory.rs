//! The guest-memory half of the ABI host calls: every pointer a guest hands
//! the host is checked against the guest's linear memory before a byte is
//! read from or written to it, and a call whose region does not fit answers
//! `ERR_BOUNDS` and leaves the memory as it was.
use vstd::prelude::*;

use crate::abi::records::{inference_bytes, ota_status_bytes};
use crate::abi::{status, ImuReading, OtaStatus, INFERENCE_RESULT_SIZE, MAX_AUDIO_READ, OTA_STATUS_SIZE};
use crate::mock_host::{same_motion, same_ota, MockHost};
use crate::wire::{copy_into, i32_bits, i32_to_bits, u32_le};

verus! {

/// The region `[ptr, ptr + len)` lies inside a memory of `size` bytes.
pub open spec fn region_fits(size: nat, ptr: u32, len: int) -> bool {
    ptr + len <= size
}

/// `mem` with `bytes` written from offset `at` on.
pub open spec fn overwrite(mem: Seq<u8>, at: int, bytes: Seq<u8>) -> Seq<u8> {
    mem.subrange(0, at) + bytes + mem.subrange(at + bytes.len(), mem.len() as int)
}

/// Whether `[ptr, ptr + len)` fits in `mem` (no overflow in the sum).
fn fits(mem_len: usize, ptr: u32, len: u32) -> (b: bool)
    ensures
        b == region_fits(mem_len as nat, ptr, len as int),
{
    (ptr as u64) + (len as u64) <= mem_len as u64
}

/// Write the little-endian bytes of `v` at `at`.
fn put_u32_le(mem: &mut [u8], at: usize, v: u32)
    requires
        at + 4 <= old(mem)@.len(),
    ensures
        final(mem)@ == overwrite(old(mem)@, at as int, u32_le(v)),
{
    let b: [u8; 4] = [(v % 256) as u8, ((v / 256) % 256) as u8, ((v / 0x1_0000) % 256) as u8, (v / 0x100_0000) as u8];
    assert(b@ =~= u32_le(v));
    copy_into(mem, at, &b);
}

/// The guest bytes `[ptr, ptr + len)`, or `None` when the region does not
/// lie inside the guest's memory.
pub fn guest_region(mem: &[u8], ptr: u32, len: u32) -> (r: Option<Vec<u8>>)
    ensures
        r is Some <==> region_fits(mem@.len(), ptr, len as int),
        r matches Some(v) ==> v@ == mem@.subrange(ptr as int, ptr + len),
{
    if !fits(mem.len(), ptr, len) {
        return None;
    }
    let start = ptr as usize;
    let end = start + len as usize;
    let mut v: Vec<u8> = Vec::new();
    let mut i = start;
    while i < end
        invariant
            start <= i <= end,
            end <= mem@.len(),
            start == ptr,
            end == ptr + len,
            v@ == mem@.subrange(start as int, i as int),
        decreases end - i,
    {
        v.push(mem[i]);
        i += 1;
        assert(v@ =~= mem@.subrange(start as int, i as int));
    }
    Some(v)
}

/// Store `record` in the guest at `ptr`: `OK` when `[ptr, ptr +
/// record.len())` fits, `ERR_BOUNDS` and no change otherwise.
pub fn put_guest_record(mem: &mut [u8], ptr: u32, record: &[u8]) -> (r: i32)
    requires
        record@.len() <= u32::MAX,
    ensures
        region_fits(old(mem)@.len(), ptr, record@.len() as int) ==> r == status::OK
            && final(mem)@ == overwrite(old(mem)@, ptr as int, record@),
        !region_fits(old(mem)@.len(), ptr, record@.len() as int) ==> r == status::ERR_BOUNDS
            && final(mem)@ == old(mem)@,
{
    if !fits(mem.len(), ptr, record.len() as u32) {
        return status::ERR_BOUNDS;
    }
    copy_into(mem, ptr as usize, record);
    status::OK
}

/// `host_get_pitch_roll` on the guest side: both the pitch and the roll
/// slot (4 bytes each) are checked, pitch first; when both fit, the
/// reading's pitch and then its roll are stored there as little-endian
/// `i32`s and `OK` is returned; otherwise `ERR_BOUNDS` and no change.
pub fn abi_get_pitch_roll(mem: &mut [u8], pitch_ptr: u32, roll_ptr: u32, reading: ImuReading) -> (r: i32)
    ensures
        region_fits(old(mem)@.len(), pitch_ptr, 4) && region_fits(old(mem)@.len(), roll_ptr, 4) ==> {
            &&& r == status::OK
            &&& final(mem)@ == overwrite(
                overwrite(old(mem)@, pitch_ptr as int, u32_le(i32_bits(reading.pitch_millideg))),
                roll_ptr as int,
                u32_le(i32_bits(reading.roll_millideg)),
            )
        },
        !(region_fits(old(mem)@.len(), pitch_ptr, 4) && region_fits(old(mem)@.len(), roll_ptr, 4)) ==> r
            == status::ERR_BOUNDS && final(mem)@ == old(mem)@,
{
    if !fits(mem.len(), pitch_ptr, 4) {
        return status::ERR_BOUNDS;
    }
    if !fits(mem.len(), roll_ptr, 4) {
        return status::ERR_BOUNDS;
    }
    put_u32_le(mem, pitch_ptr as usize, i32_to_bits(reading.pitch_millideg));
    put_u32_le(mem, roll_ptr as usize, i32_to_bits(reading.roll_millideg));
    status::OK
}

/// `host_get_rgb_led` on the guest side: the red, green and blue slots
/// (4 bytes each) are checked in that order; when all fit, the colour's
/// components are stored there as little-endian `i32`s, red first, and
/// `OK` is returned; otherwise `ERR_BOUNDS` and no change.
pub fn abi_get_rgb_led(
    mem: &mut [u8],
    red_ptr: u32,
    green_ptr: u32,
    blue_ptr: u32,
    color: (i32, i32, i32),
) -> (r: i32)
    ensures
        ({
            let n = old(mem)@.len();
            region_fits(n, red_ptr, 4) && region_fits(n, green_ptr, 4) && region_fits(n, blue_ptr, 4)
        }) ==> {
            &&& r == status::OK
            &&& final(mem)@ == overwrite(
                overwrite(
                    overwrite(old(mem)@, red_ptr as int, u32_le(i32_bits(color.0))),
                    green_ptr as int,
                    u32_le(i32_bits(color.1)),
                ),
                blue_ptr as int,
                u32_le(i32_bits(color.2)),
            )
        },
        !({
            let n = old(mem)@.len();
            region_fits(n, red_ptr, 4) && region_fits(n, green_ptr, 4) && region_fits(n, blue_ptr, 4)
        }) ==> r == status::ERR_BOUNDS && final(mem)@ == old(mem)@,
{
    if !fits(mem.len(), red_ptr, 4) || !fits(mem.len(), green_ptr, 4) || !fits(mem.len(), blue_ptr, 4) {
        return status::ERR_BOUNDS;
    }
    put_u32_le(mem, red_ptr as usize, i32_to_bits(color.0));
    put_u32_le(mem, green_ptr as usize, i32_to_bits(color.1));
    put_u32_le(mem, blue_ptr as usize, i32_to_bits(color.2));
    status::OK
}

/// `host_read_audio` on the guest side for the mock host: `ERR_BOUNDS` and
/// no change to the host or the memory when `[ptr, ptr + max_len)` does not
/// fit or `max_len` exceeds `MAX_AUDIO_READ`; otherwise up to `max_len`
/// buffered bytes, oldest first, leave the host's audio buffer and are
/// stored at `ptr`, and their count is returned.
pub fn abi_read_audio(host: &mut MockHost, mem: &mut [u8], ptr: u32, max_len: u32) -> (r: i32)
    ensures
        !region_fits(old(mem)@.len(), ptr, max_len as int) || max_len > MAX_AUDIO_READ ==> {
            &&& r == status::ERR_BOUNDS
            &&& *final(host) == *old(host)
            &&& final(mem)@ == old(mem)@
        },
        region_fits(old(mem)@.len(), ptr, max_len as int) && max_len <= MAX_AUDIO_READ ==> {
            let n = if max_len < old(host).audio_buf@.len() {
                max_len as int
            } else {
                old(host).audio_buf@.len() as int
            };
            &&& r == n
            &&& final(mem)@ == overwrite(old(mem)@, ptr as int, old(host).audio_buf@.subrange(0, n))
            &&& final(host).audio_buf@ == old(host).audio_buf@.subrange(n, old(host).audio_buf@.len() as int)
            &&& final(host).audio_active == old(host).audio_active
            &&& final(host).audio_tx_buf == old(host).audio_tx_buf
            &&& same_motion(old(host), final(host))
            &&& same_ota(old(host), final(host))
        },
{
    if !fits(mem.len(), ptr, max_len) || max_len > MAX_AUDIO_READ {
        return status::ERR_BOUNDS;
    }
    let mut tmp: Vec<u8> = vec![0u8; max_len as usize];
    let copied = host.read_audio(tmp.as_mut_slice());
    tmp.truncate(copied as usize);
    copy_into(mem, ptr as usize, tmp.as_slice());
    copied
}

/// `host_get_local_inference` on the guest side for the mock host: the
/// 12-byte inference record is stored at `ptr` and `OK` returned when it
/// fits; `ERR_BOUNDS` and no change otherwise.
pub fn abi_get_local_inference(host: &MockHost, mem: &mut [u8], ptr: u32) -> (r: i32)
    ensures
        region_fits(old(mem)@.len(), ptr, INFERENCE_RESULT_SIZE as int) ==> r == status::OK
            && final(mem)@ == overwrite(old(mem)@, ptr as int, inference_bytes(host.inference_result)),
        !region_fits(old(mem)@.len(), ptr, INFERENCE_RESULT_SIZE as int) ==> r == status::ERR_BOUNDS
            && final(mem)@ == old(mem)@,
{
    if !fits(mem.len(), ptr, INFERENCE_RESULT_SIZE) {
        return status::ERR_BOUNDS;
    }
    let mut tmp: Vec<u8> = vec![0u8; INFERENCE_RESULT_SIZE as usize];
    let _ = host.get_local_inference(tmp.as_mut_slice());
    assert(tmp@ =~= inference_bytes(host.inference_result));
    put_guest_record(mem, ptr, tmp.as_slice())
}

/// `host_get_ota_status` on the guest side for the mock host: the 16-byte
/// OTA status record is stored at `ptr` and `OK` returned when it fits;
/// `ERR_BOUNDS` and no change otherwise.
pub fn abi_get_ota_status(host: &MockHost, mem: &mut [u8], ptr: u32) -> (r: i32)
    ensures
        region_fits(old(mem)@.len(), ptr, OTA_STATUS_SIZE as int) ==> r == status::OK
            && final(mem)@ == overwrite(
            old(mem)@,
            ptr as int,
            ota_status_bytes(
                OtaStatus {
                    state: host.ota_state,
                    bytes_received: host.ota_bytes_received,
                    total_size: host.ota_expected_size,
                    swap_count: host.hot_swap_count,
                },
            ),
        ),
        !region_fits(old(mem)@.len(), ptr, OTA_STATUS_SIZE as int) ==> r == status::ERR_BOUNDS
            && final(mem)@ == old(mem)@,
{
    if !fits(mem.len(), ptr, OTA_STATUS_SIZE) {
        return status::ERR_BOUNDS;
    }
    let mut tmp: Vec<u8> = vec![0u8; OTA_STATUS_SIZE as usize];
    let _ = host.get_ota_status(tmp.as_mut_slice());
    assert(tmp@ =~= ota_status_bytes(
        OtaStatus {
            state: host.ota_state,
            bytes_received: host.ota_bytes_received,
            total_size: host.ota_expected_size,
            swap_count: host.hot_swap_count,
        },
    ));
    put_guest_record(mem, ptr, tmp.as_slice())
}

} // verus!
