//! The embedded inference engine (a deterministic stand-in for a TinyML
//! model) and the shared cell that carries its latest result.
use vstd::prelude::*;

use crate::abi::records::{inference_inactive, inference_packed, inference_unpacked, lemma_inference_pack_roundtrip};
use crate::abi::{InferenceResult, INFERENCE_TENSOR_SIZE};

verus! {

// ── Specification of one inference pass ──────────────────────────────────────

/// The raw byte of a signed sample (two's complement).
pub open spec fn sample_byte(x: i8) -> u8 {
    if x >= 0 { x as u8 } else { (x + 256) as u8 }
}

/// The magnitude of a sample (0 – 128).
pub open spec fn sample_abs(x: i8) -> nat {
    if x >= 0 { x as nat } else { (-x) as nat }
}

/// How many samples of `s` have the raw byte `v`.
pub open spec fn byte_count(s: Seq<i8>, v: u8) -> nat
    decreases s.len(),
{
    if s.len() == 0 {
        0
    } else {
        byte_count(s.drop_last(), v) + (if sample_byte(s.last()) == v { 1nat } else { 0nat })
    }
}

/// The sum of the magnitudes of the samples of `s`.
pub open spec fn abs_sum(s: Seq<i8>) -> nat
    decreases s.len(),
{
    if s.len() == 0 {
        0
    } else {
        abs_sum(s.drop_last()) + sample_abs(s.last())
    }
}

/// `t` is the most frequent raw byte of `s`, the largest one among ties.
pub open spec fn is_top_byte(s: Seq<i8>, t: u8) -> bool {
    &&& forall|w: u8| byte_count(s, w) <= byte_count(s, t)
    &&& forall|w: u8| w > t ==> byte_count(s, w) < byte_count(s, t)
}

/// The most frequent raw byte of `s` (the largest among ties).
pub open spec fn top_byte(s: Seq<i8>) -> u8 {
    choose|t: u8| is_top_byte(s, t)
}

/// The samples one pass looks at: at most `INFERENCE_TENSOR_SIZE` of them.
pub open spec fn window(s: Seq<i8>) -> Seq<i8> {
    if s.len() <= INFERENCE_TENSOR_SIZE {
        s
    } else {
        s.take(INFERENCE_TENSOR_SIZE as int)
    }
}

/// Confidence: the mean magnitude scaled to percent of 127, capped at 100.
pub open spec fn confidence_of(s: Seq<i8>) -> int {
    let pct: int = (abs_sum(s) / s.len()) as int * 100 / 127;
    if pct > 100 { 100 } else { pct }
}

/// The result of one inference pass over `tensor`: inactive for no samples,
/// otherwise the top byte modulo 8 as class and the confidence of the window.
pub open spec fn inference_of(tensor: Seq<i8>) -> InferenceResult {
    if tensor.len() == 0 {
        inference_inactive()
    } else {
        InferenceResult {
            active: true,
            top_class: (top_byte(window(tensor)) % 8) as u8,
            confidence_pct: confidence_of(window(tensor)) as u8,
        }
    }
}

/// At most one byte is the top byte.
pub proof fn lemma_top_byte_unique(s: Seq<i8>, a: u8, b: u8)
    requires
        is_top_byte(s, a),
        is_top_byte(s, b),
    ensures
        a == b,
{
    if a < b {
        assert(byte_count(s, b) < byte_count(s, a));
        assert(byte_count(s, a) <= byte_count(s, b));
    } else if b < a {
        assert(byte_count(s, a) < byte_count(s, b));
        assert(byte_count(s, b) <= byte_count(s, a));
    }
}

proof fn lemma_abs_sum_bound(s: Seq<i8>)
    ensures
        abs_sum(s) <= 128 * s.len(),
    decreases s.len(),
{
    if s.len() > 0 {
        lemma_abs_sum_bound(s.drop_last());
    }
}

// ── The engine ───────────────────────────────────────────────────────────────

/// The raw byte of a sample, computed.
fn byte_of_sample(x: i8) -> (b: u8)
    ensures
        b == sample_byte(x),
{
    if x >= 0 {
        x as u8
    } else {
        (x as i16 + 256) as u8
    }
}

/// The magnitude of a sample, computed.
fn abs_of_sample(x: i8) -> (a: u32)
    ensures
        a == sample_abs(x),
{
    if x >= 0 {
        x as u32
    } else {
        (-(x as i16)) as u32
    }
}

/// A lightweight inference engine: a deterministic calculation over the
/// input samples that stands in for a trained model.
pub struct TinyMlEngine;

impl TinyMlEngine {
    /// Construct a new engine instance.
    pub fn new() -> (e: Self) {
        TinyMlEngine
    }

    /// Run one inference pass on signed 8-bit samples.
    ///
    /// Inactive (all zero) for no samples.  Otherwise, over the first
    /// `INFERENCE_TENSOR_SIZE` samples: the class is the most frequent raw
    /// byte (the largest among ties) modulo 8, and the confidence is the mean
    /// magnitude times 100 / 127, capped at 100.
    pub fn run(&self, tensor: &[i8]) -> (r: InferenceResult)
        ensures
            r == inference_of(tensor@),
    {
        if tensor.len() == 0 {
            return InferenceResult::default();
        }
        let n: usize = if tensor.len() < INFERENCE_TENSOR_SIZE {
            tensor.len()
        } else {
            INFERENCE_TENSOR_SIZE
        };
        let ghost w = window(tensor@);
        assert(w =~= tensor@.take(n as int));
        // Byte histogram of the window.
        let mut freq: Vec<u32> = Vec::new();
        let mut v: usize = 0;
        while v < 256
            invariant
                v <= 256,
                freq@.len() == v,
                forall|k: int| 0 <= k < v ==> freq@[k] == 0,
            decreases 256 - v,
        {
            freq.push(0);
            v += 1;
        }
        let mut sum: u32 = 0;
        let mut i: usize = 0;
        while i < n
            invariant
                n <= tensor@.len(),
                n <= 256,
                i <= n,
                w =~= tensor@.take(n as int),
                freq@.len() == 256,
                forall|k: u8| freq@[k as int] == byte_count(tensor@.take(i as int), k),
                sum == abs_sum(tensor@.take(i as int)),
                sum <= 128 * i,
            decreases n - i,
        {
            let x = tensor[i];
            let b = byte_of_sample(x);
            assert(tensor@.take(i + 1).drop_last() =~= tensor@.take(i as int));
            assert(byte_count(tensor@.take(i as int), b) <= i) by {
                lemma_count_bound(tensor@.take(i as int), b);
            }
            let old_count = freq[b as usize];
            freq.set(b as usize, old_count + 1);
            sum = sum + abs_of_sample(x);
            i += 1;
        }
        // The most frequent byte, the last one among ties.
        let mut best: usize = 0;
        let mut u: usize = 1;
        while u < 256
            invariant
                1 <= u <= 256,
                best < u,
                freq@.len() == 256,
                forall|k: int| 0 <= k < u ==> freq@[k] <= freq@[best as int],
                forall|k: int| best < k < u ==> freq@[k] < freq@[best as int],
            decreases 256 - u,
        {
            if freq[u] >= freq[best] {
                best = u;
            }
            u += 1;
        }
        let top = best as u8;
        proof {
            assert forall|k: u8| byte_count(w, k) <= byte_count(w, top) by {
                assert(freq@[k as int] <= freq@[best as int]);
            }
            assert forall|k: u8| k > top implies byte_count(w, k) < byte_count(w, top) by {
                assert(freq@[k as int] < freq@[best as int]);
            }
            assert(is_top_byte(w, top));
            lemma_top_byte_unique(w, top, top_byte(w));
        }
        let mean = sum / (n as u32);
        let scaled = mean * 100 / 127;
        let confidence_pct = if scaled > 100 { 100u8 } else { scaled as u8 };
        InferenceResult { active: true, top_class: top % 8, confidence_pct }
    }
}

/// No byte occurs more often than there are samples.
proof fn lemma_count_bound(s: Seq<i8>, v: u8)
    ensures
        byte_count(s, v) <= s.len(),
    decreases s.len(),
{
    if s.len() > 0 {
        lemma_count_bound(s.drop_last(), v);
    }
}

// ── Shared result cell ───────────────────────────────────────────────────────

/// The word through which the inference task publishes its latest result
/// to the ABI host (the packed form of an [`InferenceResult`]).
pub struct InferenceCell {
    /// The packed result.
    pub raw: u32,
}

impl InferenceCell {
    /// A cell holding the inactive result.
    pub fn new() -> (c: Self)
        ensures
            c.raw == 0,
    {
        InferenceCell { raw: 0 }
    }
}

/// Store a fresh inference result so that the Wasm guest can query it.
pub fn store_inference_result(cell: &mut InferenceCell, result: InferenceResult)
    ensures
        final(cell).raw == inference_packed(result),
{
    cell.raw = result.pack();
}

/// Retrieve the most recent inference result.
pub fn load_inference_result(cell: &InferenceCell) -> (r: InferenceResult)
    ensures
        r == inference_unpacked(cell.raw),
{
    InferenceResult::unpack(cell.raw)
}

/// Loading after a store gives back the stored result.
pub proof fn lemma_inference_cell_store_load(result: InferenceResult)
    ensures
        inference_unpacked(inference_packed(result)) == result,
{
    lemma_inference_pack_roundtrip(result);
}

} // verus!
