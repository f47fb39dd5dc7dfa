//! CRC-32 (ISO-HDLC: reflected polynomial 0xEDB88320, initial register
//! 0xFFFFFFFF, final complement), used to verify OTA binaries.
use vstd::prelude::*;

verus! {

/// The reflected CRC-32 polynomial.
pub const CRC32_POLY: u32 = 0xEDB8_8320;

/// One bit step of the CRC register.
pub open spec fn crc_bit_step(c: u32) -> u32 {
    if c & 1 == 1 {
        (c >> 1) ^ CRC32_POLY
    } else {
        c >> 1
    }
}

/// `n` bit steps of the CRC register.
pub open spec fn crc_bits(c: u32, n: nat) -> u32
    decreases n,
{
    if n == 0 {
        c
    } else {
        crc_bit_step(crc_bits(c, (n - 1) as nat))
    }
}

/// The register after feeding one byte.
pub open spec fn crc_byte_step(c: u32, b: u8) -> u32 {
    crc_bits(c ^ (b as u32), 8)
}

/// The register after feeding all of `data`, starting from 0xFFFFFFFF.
pub open spec fn crc_register(data: Seq<u8>) -> u32
    decreases data.len(),
{
    if data.len() == 0 {
        0xFFFF_FFFF
    } else {
        crc_byte_step(crc_register(data.drop_last()), data.last())
    }
}

/// The CRC-32 of `data`: the final register, complemented.
pub open spec fn crc32_of(data: Seq<u8>) -> u32 {
    crc_register(data) ^ 0xFFFF_FFFF
}

/// Compute the CRC-32 checksum of `data`.
pub fn crc32(data: &[u8]) -> (r: u32)
    ensures
        r == crc32_of(data@),
{
    let n = data.len();
    let mut crc: u32 = 0xFFFF_FFFF;
    let mut i: usize = 0;
    assert(data@.subrange(0, 0) =~= Seq::<u8>::empty());
    while i < n
        invariant
            n == data@.len(),
            i <= n,
            crc == crc_register(data@.subrange(0, i as int)),
        decreases n - i,
    {
        let start = crc ^ (data[i] as u32);
        crc = start;
        let mut k: usize = 0;
        while k < 8
            invariant
                k <= 8,
                crc == crc_bits(start, k as nat),
            decreases 8 - k,
        {
            if crc & 1 == 1 {
                crc = (crc >> 1) ^ CRC32_POLY;
            } else {
                crc = crc >> 1;
            }
            k += 1;
        }
        assert(data@.subrange(0, i + 1).drop_last() =~= data@.subrange(0, i as int));
        i += 1;
    }
    assert(data@.subrange(0, n as int) =~= data@);
    crc ^ 0xFFFF_FFFF
}

// ── Error detection ──────────────────────────────────────────────────────────

/// A bit step distributes over xor.
proof fn lemma_bit_step_xor(x: u32, y: u32)
    ensures
        crc_bit_step(x) ^ crc_bit_step(y) == crc_bit_step(x ^ y),
{
    assert(((if x & 1 == 1 { (x >> 1) ^ 0xEDB8_8320u32 } else { x >> 1 }) ^ (if y & 1 == 1 {
        (y >> 1) ^ 0xEDB8_8320u32
    } else {
        y >> 1
    })) == (if (x ^ y) & 1 == 1 { ((x ^ y) >> 1) ^ 0xEDB8_8320u32 } else { (x ^ y) >> 1 }))
        by (bit_vector);
}

/// A bit step maps only zero to zero.
proof fn lemma_bit_step_nonzero(d: u32)
    requires
        d != 0,
    ensures
        crc_bit_step(d) != 0,
{
    assert(d != 0 ==> (if d & 1 == 1 { (d >> 1) ^ 0xEDB8_8320u32 } else { d >> 1 }) != 0)
        by (bit_vector);
}

/// `n` bit steps distribute over xor and map only zero to zero.
proof fn lemma_bits_xor(x: u32, y: u32, n: nat)
    ensures
        crc_bits(x, n) ^ crc_bits(y, n) == crc_bits(x ^ y, n),
        x != y ==> crc_bits(x, n) != crc_bits(y, n),
    decreases n,
{
    if n == 0 {
        assert(x != y ==> x ^ y != 0) by (bit_vector);
    } else {
        let m = (n - 1) as nat;
        lemma_bits_xor(x, y, m);
        lemma_bit_step_xor(crc_bits(x, m), crc_bits(y, m));
        let a = crc_bits(x, m);
        let b = crc_bits(y, m);
        if a != b {
            assert(a != b ==> a ^ b != 0) by (bit_vector);
            lemma_bit_step_nonzero(a ^ b);
            let sa = crc_bit_step(a);
            let sb = crc_bit_step(b);
            assert(sa ^ sb != 0 ==> sa != sb) by (bit_vector);
        }
    }
}

/// Registers fed with data that differ in exactly one byte end up different.
proof fn lemma_register_single_byte(a: Seq<u8>, b: Seq<u8>, k: int)
    requires
        a.len() == b.len(),
        0 <= k < a.len(),
        a[k] != b[k],
        forall|i: int| 0 <= i < a.len() && i != k ==> a[i] == b[i],
    ensures
        crc_register(a) != crc_register(b),
    decreases a.len(),
{
    let n = a.len() as int;
    let ra = crc_register(a.drop_last());
    let rb = crc_register(b.drop_last());
    if k == n - 1 {
        assert(a.drop_last() =~= b.drop_last());
        let p = a.last();
        let q = b.last();
        assert(p != q ==> ra ^ (p as u32) != ra ^ (q as u32)) by (bit_vector);
        lemma_bits_xor(ra ^ (p as u32), ra ^ (q as u32), 8);
    } else {
        lemma_register_single_byte(a.drop_last(), b.drop_last(), k);
        let c = a.last();
        assert(c == b.last());
        assert(ra != rb ==> ra ^ (c as u32) != rb ^ (c as u32)) by (bit_vector);
        lemma_bits_xor(ra ^ (c as u32), rb ^ (c as u32), 8);
    }
}

/// CRC-32 detects every corruption confined to a single byte: two inputs of
/// equal length that differ in exactly one position have different
/// checksums.
pub proof fn lemma_crc32_detects_single_byte_corruption(a: Seq<u8>, b: Seq<u8>, k: int)
    requires
        a.len() == b.len(),
        0 <= k < a.len(),
        a[k] != b[k],
        forall|i: int| 0 <= i < a.len() && i != k ==> a[i] == b[i],
    ensures
        crc32_of(a) != crc32_of(b),
{
    lemma_register_single_byte(a, b, k);
    let x = crc_register(a);
    let y = crc_register(b);
    assert(x != y ==> x ^ 0xFFFF_FFFFu32 != y ^ 0xFFFF_FFFFu32) by (bit_vector);
}

} // verus!
