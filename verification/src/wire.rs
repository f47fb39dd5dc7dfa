//! Little-endian integer encodings shared by every wire format of the ABI.
//!
//! The byte sequences are stated arithmetically (quotient and remainder by
//! powers of 256); the two's-complement reinterpretations between signed and
//! unsigned integers are stated by adding or subtracting the modulus.
use vstd::prelude::*;

verus! {

// ── Signed / unsigned reinterpretation ───────────────────────────────────────

/// The `u16` with the same bit pattern as `v`.
pub open spec fn i16_bits(v: i16) -> u16 {
    if v >= 0 { v as u16 } else { (v + 0x1_0000) as u16 }
}

/// The `i16` with the same bit pattern as `u`.
pub open spec fn i16_from_bits(u: u16) -> i16 {
    if u < 0x8000 { u as i16 } else { (u - 0x1_0000) as i16 }
}

/// The `u32` with the same bit pattern as `v`.
pub open spec fn i32_bits(v: i32) -> u32 {
    if v >= 0 { v as u32 } else { (v + 0x1_0000_0000) as u32 }
}

/// The `i32` with the same bit pattern as `u`.
pub open spec fn i32_from_bits(u: u32) -> i32 {
    if u < 0x8000_0000 { u as i32 } else { (u - 0x1_0000_0000) as i32 }
}

/// `i16_bits` in executable form.
pub fn i16_to_bits(v: i16) -> (u: u16)
    ensures
        u == i16_bits(v),
{
    if v >= 0 {
        v as u16
    } else {
        (v as i32 + 0x1_0000) as u16
    }
}

/// `i16_from_bits` in executable form.
pub fn i16_of_bits(u: u16) -> (v: i16)
    ensures
        v == i16_from_bits(u),
{
    if u < 0x8000 {
        u as i16
    } else {
        (u as i32 - 0x1_0000) as i16
    }
}

/// `i32_bits` in executable form.
pub fn i32_to_bits(v: i32) -> (u: u32)
    ensures
        u == i32_bits(v),
{
    if v >= 0 {
        v as u32
    } else {
        (v as i64 + 0x1_0000_0000) as u32
    }
}

/// `i32_from_bits` in executable form.
pub fn i32_of_bits(u: u32) -> (v: i32)
    ensures
        v == i32_from_bits(u),
{
    if u < 0x8000_0000 {
        u as i32
    } else {
        (u as i64 - 0x1_0000_0000) as i32
    }
}

/// Reinterpreting a signed value as unsigned and back gives the value.
pub proof fn lemma_i16_bits_roundtrip(v: i16)
    ensures
        i16_from_bits(i16_bits(v)) == v,
{
}

/// Reinterpreting a signed value as unsigned and back gives the value.
pub proof fn lemma_i32_bits_roundtrip(v: i32)
    ensures
        i32_from_bits(i32_bits(v)) == v,
{
}

// ── Byte sequences ───────────────────────────────────────────────────────────

/// The two little-endian bytes of `v`.
pub open spec fn u16_le(v: u16) -> Seq<u8> {
    seq![(v % 256) as u8, (v / 256) as u8]
}

/// The four little-endian bytes of `v`.
pub open spec fn u32_le(v: u32) -> Seq<u8> {
    seq![
        (v % 256) as u8,
        ((v / 256) % 256) as u8,
        ((v / 0x1_0000) % 256) as u8,
        (v / 0x100_0000) as u8,
    ]
}

/// The eight little-endian bytes of `v`: its low word, then its high word.
pub open spec fn u64_le(v: u64) -> Seq<u8> {
    u32_le((v % 0x1_0000_0000) as u32) + u32_le((v / 0x1_0000_0000) as u32)
}

/// The `u16` whose little-endian bytes are `b[0..2]`.
pub open spec fn u16_from_le(b: Seq<u8>) -> u16 {
    (b[0] + 256 * b[1]) as u16
}

/// The `u32` whose little-endian bytes are `b[0..4]`.
pub open spec fn u32_from_le(b: Seq<u8>) -> u32 {
    (b[0] + 256 * b[1] + 0x1_0000 * b[2] + 0x100_0000 * b[3]) as u32
}

/// The `u64` whose little-endian bytes are `b[0..8]`.
pub open spec fn u64_from_le(b: Seq<u8>) -> u64 {
    (u32_from_le(b) + 0x1_0000_0000 * u32_from_le(b.subrange(4, 8))) as u64
}

/// Decoding the bytes of a `u16` gives it back.
pub proof fn lemma_u16_le_roundtrip(v: u16)
    ensures
        u16_le(v).len() == 2,
        u16_from_le(u16_le(v)) == v,
{
}

/// Decoding the bytes of a `u32` gives it back.
pub proof fn lemma_u32_le_roundtrip(v: u32)
    ensures
        u32_le(v).len() == 4,
        u32_from_le(u32_le(v)) == v,
{
}

/// Decoding the bytes of a `u64` gives it back.
pub proof fn lemma_u64_le_roundtrip(v: u64)
    ensures
        u64_le(v).len() == 8,
        u64_from_le(u64_le(v)) == v,
{
    let lo = (v % 0x1_0000_0000) as u32;
    let hi = (v / 0x1_0000_0000) as u32;
    lemma_u32_le_roundtrip(lo);
    lemma_u32_le_roundtrip(hi);
    assert(u64_le(v).subrange(4, 8) =~= u32_le(hi));
    assert(u64_le(v).subrange(0, 4) =~= u32_le(lo));
}

/// Decoding looks only at the leading bytes.
pub proof fn lemma_u32_from_le_prefix(a: Seq<u8>, b: Seq<u8>)
    requires
        a.len() >= 4,
    ensures
        u32_from_le(a + b) == u32_from_le(a),
{
}

} // verus!

verus! {

// ── Executable encoders and decoders ─────────────────────────────────────────

/// Append the two little-endian bytes of `v`.
pub fn push_u16_le(out: &mut Vec<u8>, v: u16)
    ensures
        final(out)@ == old(out)@ + u16_le(v),
{
    out.push((v % 256) as u8);
    out.push((v / 256) as u8);
    assert(final(out)@ =~= old(out)@ + u16_le(v));
}

/// Append the four little-endian bytes of `v`.
pub fn push_u32_le(out: &mut Vec<u8>, v: u32)
    ensures
        final(out)@ == old(out)@ + u32_le(v),
{
    out.push((v % 256) as u8);
    out.push(((v / 256) % 256) as u8);
    out.push(((v / 0x1_0000) % 256) as u8);
    out.push((v / 0x100_0000) as u8);
    assert(final(out)@ =~= old(out)@ + u32_le(v));
}

/// Append the eight little-endian bytes of `v`.
pub fn push_u64_le(out: &mut Vec<u8>, v: u64)
    ensures
        final(out)@ == old(out)@ + u64_le(v),
{
    push_u32_le(out, (v % 0x1_0000_0000) as u32);
    push_u32_le(out, (v / 0x1_0000_0000) as u32);
    assert(final(out)@ =~= old(out)@ + u64_le(v));
}

/// The `u16` stored little-endian at `b[off..off + 2]`.
pub fn read_u16_le(b: &[u8], off: usize) -> (r: u16)
    requires
        off + 2 <= b@.len(),
    ensures
        r == u16_from_le(b@.subrange(off as int, off + 2)),
{
    b[off] as u16 + 256 * (b[off + 1] as u16)
}

/// The `u32` stored little-endian at `b[off..off + 4]`.
pub fn read_u32_le(b: &[u8], off: usize) -> (r: u32)
    requires
        off + 4 <= b@.len(),
    ensures
        r == u32_from_le(b@.subrange(off as int, off + 4)),
{
    b[off] as u32 + 256 * (b[off + 1] as u32) + 0x1_0000 * (b[off + 2] as u32) + 0x100_0000 * (
    b[off + 3] as u32)
}

/// The `u64` stored little-endian at `b[off..off + 8]`.
pub fn read_u64_le(b: &[u8], off: usize) -> (r: u64)
    requires
        off + 8 <= b@.len(),
    ensures
        r == u64_from_le(b@.subrange(off as int, off + 8)),
{
    let _n = b.len();
    let lo = read_u32_le(b, off);
    let hi = read_u32_le(b, off + 4);
    assert(b@.subrange(off as int, off + 8).subrange(4, 8) =~= b@.subrange(off + 4, off + 8));
    lo as u64 + 0x1_0000_0000 * (hi as u64)
}

/// Copy `src` into `dst` starting at `off`, leaving the rest of `dst` as it was.
pub fn copy_into(dst: &mut [u8], off: usize, src: &[u8])
    requires
        off + src@.len() <= old(dst)@.len(),
    ensures
        final(dst)@ == old(dst)@.subrange(0, off as int) + src@ + old(dst)@.subrange(
            off + src@.len(),
            old(dst)@.len() as int,
        ),
{
    let n = src.len();
    let m = dst.len();
    let mut i: usize = 0;
    while i < n
        invariant
            n == src@.len(),
            i <= n,
            off + n <= m,
            m == dst@.len(),
            dst@.len() == old(dst)@.len(),
            forall|k: int| 0 <= k < off ==> dst@[k] == old(dst)@[k],
            forall|k: int| off <= k < off + i ==> dst@[k] == src@[k - off],
            forall|k: int| off + i <= k < dst@.len() ==> dst@[k] == old(dst)@[k],
        decreases n - i,
    {
        dst[off + i] = src[i];
        i += 1;
    }
    assert(dst@ =~= old(dst)@.subrange(0, off as int) + src@ + old(dst)@.subrange(
        off + src@.len(),
        old(dst)@.len() as int,
    ));
}

} // verus!

verus! {

/// An owned copy of `s`.
pub fn bytes_to_vec(s: &[u8]) -> (v: Vec<u8>)
    ensures
        v@ == s@,
{
    let mut v = Vec::new();
    let n = s.len();
    let mut i: usize = 0;
    while i < n
        invariant
            n == s@.len(),
            i <= n,
            v@ == s@.subrange(0, i as int),
        decreases n - i,
    {
        v.push(s[i]);
        i += 1;
        assert(v@ =~= s@.subrange(0, i as int));
    }
    assert(s@.subrange(0, n as int) =~= s@);
    v
}

} // verus!
