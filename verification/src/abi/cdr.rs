//! A bounded little-endian CDR (Common Data Representation) serializer.
//!
//! CDR is the wire format of DDS / ROS 2.  Writes that would exceed the
//! capacity `N` are refused with `Err(())` and leave the output untouched.
use vstd::prelude::*;

use crate::wire::{
    i16_bits, i16_to_bits, i32_bits, i32_to_bits, push_u16_le, push_u32_le, push_u64_le, u16_le,
    u32_le, u64_le,
};

verus! {

/// The length of a serializer of capacity `n` holding `len` bytes after a
/// write of `w` bytes: the write succeeds when it fits, and is refused
/// otherwise.
pub open spec fn cdr_step(len: nat, w: nat, n: nat) -> nat {
    if len + w <= n {
        len + w
    } else {
        len
    }
}

/// The length after writes of the widths `ws`, in order, starting from
/// `len` bytes.
pub open spec fn cdr_fill(len: nat, ws: Seq<nat>, n: nat) -> nat
    decreases ws.len(),
{
    if ws.len() == 0 {
        len
    } else {
        cdr_fill(cdr_step(len, ws[0], n), ws.drop_first(), n)
    }
}

/// The total width of the writes among `ws` that succeed, starting from
/// `len` bytes.
pub open spec fn cdr_accepted_width(len: nat, ws: Seq<nat>, n: nat) -> nat
    decreases ws.len(),
{
    if ws.len() == 0 {
        0
    } else {
        (if len + ws[0] <= n {
            ws[0]
        } else {
            0
        }) + cdr_accepted_width(cdr_step(len, ws[0], n), ws.drop_first(), n)
    }
}

/// Whatever writes are made, in whatever order, to a serializer that holds
/// `len <= n` bytes, its length stays within the capacity `n` and grows by
/// exactly the total width of the writes that succeed; from a new
/// serializer (`len == 0`) the length is that total.
pub proof fn lemma_cdr_length(len: nat, ws: Seq<nat>, n: nat)
    requires
        len <= n,
    ensures
        cdr_fill(len, ws, n) <= n,
        cdr_fill(len, ws, n) == len + cdr_accepted_width(len, ws, n),
    decreases ws.len(),
{
    if ws.len() > 0 {
        lemma_cdr_length(cdr_step(len, ws[0], n), ws.drop_first(), n);
    }
}

/// A serializer with room for at most `N` bytes.
pub struct CdrSerializer<const N: usize> {
    buf: Vec<u8>,
}

impl<const N: usize> View for CdrSerializer<N> {
    type V = Seq<u8>;

    /// The bytes written so far.
    closed spec fn view(&self) -> Seq<u8> {
        self.buf@
    }
}

impl<const N: usize> CdrSerializer<N> {
    #[verifier::type_invariant]
    closed spec fn within_capacity(self) -> bool {
        self.buf@.len() <= N
    }

    /// Create a serializer with nothing written.
    pub fn new() -> (s: Self)
        ensures
            s@ == Seq::<u8>::empty(),
    {
        CdrSerializer { buf: Vec::new() }
    }

    /// Append `bytes` if they fit in the remaining capacity.
    fn append(&mut self, bytes: Vec<u8>) -> (r: Result<(), ()>)
        ensures
            old(self)@.len() + bytes@.len() <= N ==> r is Ok && final(self)@ == old(self)@
                + bytes@,
            old(self)@.len() + bytes@.len() > N ==> r is Err && final(self)@ == old(self)@,
            final(self)@.len() <= N,
    {
        proof {
            use_type_invariant(&*self);
        }
        if N - self.buf.len() < bytes.len() {
            return Err(());
        }
        let mut bytes = bytes;
        let mut buf = Vec::new();
        std::mem::swap(&mut buf, &mut self.buf);
        buf.append(&mut bytes);
        self.buf = buf;
        Ok(())
    }

    /// Write a single byte.
    pub fn write_u8(&mut self, v: u8) -> (r: Result<(), ()>)
        ensures
            old(self)@.len() + 1 <= N ==> r is Ok && final(self)@ == old(self)@.push(v),
            old(self)@.len() + 1 > N ==> r is Err && final(self)@ == old(self)@,
            final(self)@.len() <= N,
            final(self)@.len() == cdr_step(old(self)@.len(), 1, N as nat),
    {
        let mut b = Vec::new();
        b.push(v);
        assert(old(self)@ + b@ =~= old(self)@.push(v));
        self.append(b)
    }

    /// Write a `u16` as two little-endian bytes.
    pub fn write_u16(&mut self, v: u16) -> (r: Result<(), ()>)
        ensures
            old(self)@.len() + 2 <= N ==> r is Ok && final(self)@ == old(self)@ + u16_le(v),
            old(self)@.len() + 2 > N ==> r is Err && final(self)@ == old(self)@,
            final(self)@.len() <= N,
            final(self)@.len() == cdr_step(old(self)@.len(), 2, N as nat),
    {
        let mut b = Vec::new();
        push_u16_le(&mut b, v);
        assert(b@ =~= u16_le(v));
        self.append(b)
    }

    /// Write an `i16` as the two little-endian bytes of its bit pattern.
    pub fn write_i16(&mut self, v: i16) -> (r: Result<(), ()>)
        ensures
            old(self)@.len() + 2 <= N ==> r is Ok && final(self)@ == old(self)@ + u16_le(
                i16_bits(v),
            ),
            old(self)@.len() + 2 > N ==> r is Err && final(self)@ == old(self)@,
            final(self)@.len() <= N,
            final(self)@.len() == cdr_step(old(self)@.len(), 2, N as nat),
    {
        self.write_u16(i16_to_bits(v))
    }

    /// Write a `u32` as four little-endian bytes.
    pub fn write_u32(&mut self, v: u32) -> (r: Result<(), ()>)
        ensures
            old(self)@.len() + 4 <= N ==> r is Ok && final(self)@ == old(self)@ + u32_le(v),
            old(self)@.len() + 4 > N ==> r is Err && final(self)@ == old(self)@,
            final(self)@.len() <= N,
            final(self)@.len() == cdr_step(old(self)@.len(), 4, N as nat),
    {
        let mut b = Vec::new();
        push_u32_le(&mut b, v);
        assert(b@ =~= u32_le(v));
        self.append(b)
    }

    /// Write an `i32` as the four little-endian bytes of its bit pattern.
    pub fn write_i32(&mut self, v: i32) -> (r: Result<(), ()>)
        ensures
            old(self)@.len() + 4 <= N ==> r is Ok && final(self)@ == old(self)@ + u32_le(
                i32_bits(v),
            ),
            old(self)@.len() + 4 > N ==> r is Err && final(self)@ == old(self)@,
            final(self)@.len() <= N,
            final(self)@.len() == cdr_step(old(self)@.len(), 4, N as nat),
    {
        self.write_u32(i32_to_bits(v))
    }

    /// Write a `u64` as eight little-endian bytes.
    pub fn write_u64(&mut self, v: u64) -> (r: Result<(), ()>)
        ensures
            old(self)@.len() + 8 <= N ==> r is Ok && final(self)@ == old(self)@ + u64_le(v),
            old(self)@.len() + 8 > N ==> r is Err && final(self)@ == old(self)@,
            final(self)@.len() <= N,
            final(self)@.len() == cdr_step(old(self)@.len(), 8, N as nat),
    {
        let mut b = Vec::new();
        push_u64_le(&mut b, v);
        assert(b@ =~= u64_le(v));
        self.append(b)
    }

    /// The bytes written so far.
    pub fn as_bytes(&self) -> (r: &[u8])
        ensures
            r@ == self@,
    {
        self.buf.as_slice()
    }

    /// The number of bytes written so far.
    pub fn len(&self) -> (n: usize)
        ensures
            n == self@.len(),
            n <= N,
    {
        proof {
            use_type_invariant(self);
        }
        self.buf.len()
    }

    /// `true` if nothing has been written yet.
    pub fn is_empty(&self) -> (b: bool)
        ensures
            b <==> self@.len() == 0,
    {
        self.buf.len() == 0
    }
}

} // verus!
