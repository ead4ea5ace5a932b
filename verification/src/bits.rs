//! A big-endian bitstream over bytes that each carry one bit of payload
//! in their least-significant bit.

use vstd::prelude::*;
use vstd::arithmetic::power2::{pow2, lemma_pow2_unfold, lemma_pow2_strictly_increases, lemma2_to64};

verus! {

/// The payload bit carried by one byte: its least-significant bit.
pub open spec fn bit_of(b: u8) -> nat {
    (b & 1) as nat
}

/// The value of a bit sequence read most-significant bit first, where
/// each byte of `s` carries one bit.
pub open spec fn bits_value(s: Seq<u8>) -> nat
    decreases s.len(),
{
    if s.len() == 0 {
        0
    } else {
        2 * bits_value(s.drop_last()) + bit_of(s.last())
    }
}

pub proof fn lemma_bits_value_bound(s: Seq<u8>)
    ensures
        bits_value(s) < pow2(s.len()),
    decreases s.len(),
{
    if s.len() == 0 {
        lemma2_to64();
    } else {
        lemma_bits_value_bound(s.drop_last());
        lemma_pow2_unfold(s.len());
        assert(bit_of(s.last()) <= 1) by {
            let b = s.last();
            assert(b & 1 <= 1) by (bit_vector);
        }
    }
}

pub proof fn lemma_bits_value_concat(s: Seq<u8>, t: Seq<u8>)
    ensures
        bits_value(s + t) == bits_value(s) * pow2(t.len()) + bits_value(t),
    decreases t.len(),
{
    if t.len() == 0 {
        assert(s + t =~= s);
        lemma2_to64();
        assert(bits_value(t) == 0);
        assert(bits_value(s) * pow2(0) == bits_value(s));
    } else {
        lemma_bits_value_concat(s, t.drop_last());
        assert((s + t).drop_last() =~= s + t.drop_last());
        assert((s + t).last() == t.last());
        lemma_pow2_unfold(t.len());
        let a = bits_value(s);
        let p = pow2((t.len() - 1) as nat);
        let d = bits_value(t.drop_last());
        let b = bit_of(t.last());
        assert(bits_value(s + t) == 2 * bits_value(s + t.drop_last()) + b);
        assert(bits_value(t) == 2 * d + b);
        assert(2 * (a * p + d) + b == a * (2 * p) + (2 * d + b)) by (nonlinear_arith);
        assert(bits_value(s + t) == a * pow2(t.len()) + bits_value(t));
    }
}

/// The byte composed of the 8 payload bits at `start`, most-significant
/// bit first.
pub open spec fn byte_at(data: Seq<u8>, start: int) -> nat {
    bits_value(data.subrange(start, start + 8))
}

/// The `n` bytes whose payload bits begin at `start`.
pub open spec fn bytes_at(data: Seq<u8>, start: int, n: nat) -> Seq<u8> {
    Seq::new(n, |k: int| byte_at(data, start + 8 * k) as u8)
}

/// The big-endian signed 32-bit integer whose payload bits begin at
/// `start`.
pub open spec fn int32_at(data: Seq<u8>, start: int) -> int {
    let v = bits_value(data.subrange(start, start + 32));
    if v < 0x8000_0000 {
        v as int
    } else {
        v - 0x1_0000_0000
    }
}

/// Reads a sequence of single-bit-carrying bytes as a big-endian
/// bitstream, advancing a cursor; strictly forward-only.
pub struct DataReader {
    data: Vec<u8>,
    index: usize,
}

impl DataReader {
    /// The underlying byte sequence.
    pub closed spec fn spec_data(&self) -> Seq<u8> {
        self.data@
    }

    /// The cursor: how many bits have been consumed.
    pub closed spec fn spec_index(&self) -> nat {
        self.index as nat
    }

    pub open spec fn wf(&self) -> bool {
        self.spec_index() <= self.spec_data().len()
    }

    /// How many bits remain before the stream is exhausted.
    pub open spec fn spec_remaining(&self) -> nat {
        (self.spec_data().len() - self.spec_index()) as nat
    }

    /// How many bits remain before the stream is exhausted.
    pub fn remaining(&self) -> (r: usize)
        requires
            self.wf(),
        ensures
            r == self.spec_remaining(),
    {
        self.data.len() - self.index
    }

    pub fn new(data: Vec<u8>) -> (r: DataReader)
        ensures
            r.wf(),
            r.spec_data() == data@,
            r.spec_index() == 0,
    {
        DataReader { data, index: 0 }
    }

    /// Returns the payload bit at the cursor and advances the cursor.
    /// The stream must not be exhausted.
    pub fn read_bit(&mut self) -> (r: u8)
        requires
            old(self).wf(),
            old(self).spec_index() < old(self).spec_data().len(),
        ensures
            final(self).wf(),
            final(self).spec_data() == old(self).spec_data(),
            final(self).spec_index() == old(self).spec_index() + 1,
            r as nat == bit_of(old(self).spec_data()[old(self).spec_index() as int]),
            r == 0 || r == 1,
    {
        let b = self.data[self.index];
        let bit = b & 1;
        assert(b & 1 <= 1) by (bit_vector);
        assert(self.index < self.data.len());
        self.index = self.index + 1;
        bit
    }

    /// Composes 8 sequential payload bits, most-significant bit first,
    /// into one byte.
    pub fn read_byte(&mut self) -> (r: u8)
        requires
            old(self).wf(),
            old(self).spec_index() + 8 <= old(self).spec_data().len(),
        ensures
            final(self).wf(),
            final(self).spec_data() == old(self).spec_data(),
            final(self).spec_index() == old(self).spec_index() + 8,
            r as nat == byte_at(old(self).spec_data(), old(self).spec_index() as int),
    {
        let ghost data = self.data@;
        let ghost start = self.index as int;
        let mut byte: u8 = 0;
        for i in 0..8usize
            invariant
                0 <= start,
                self.spec_data() == data,
                self.spec_index() == start + i,
                start + 8 <= data.len(),
                byte as nat == bits_value(data.subrange(start, start + i)),
        {
            let bit = self.read_bit();
            proof {
                let sub_i = data.subrange(start, start + i);
                lemma_bits_value_bound(sub_i);
                if i < 7 {
                    lemma_pow2_strictly_increases(i as nat, 7);
                }
                lemma2_to64();
                assert(byte < 128);
                let sub_n = data.subrange(start, start + i + 1);
                assert(sub_n.drop_last() =~= sub_i);
                assert(sub_n.last() == data[start + i]);
            }
            byte = byte * 2 + bit;
        }
        byte
    }

    /// Returns `n` bytes by repeated `read_byte`.
    pub fn read_bytes(&mut self, n: usize) -> (r: Vec<u8>)
        requires
            old(self).wf(),
            old(self).spec_index() + 8 * n <= old(self).spec_data().len(),
        ensures
            final(self).wf(),
            final(self).spec_data() == old(self).spec_data(),
            final(self).spec_index() == old(self).spec_index() + 8 * n,
            r@ == bytes_at(old(self).spec_data(), old(self).spec_index() as int, n as nat),
    {
        let ghost data = self.data@;
        let ghost start = self.index as int;
        let mut out: Vec<u8> = Vec::new();
        for k in 0..n
            invariant
                0 <= start,
                self.spec_data() == data,
                self.spec_index() == start + 8 * k,
                start + 8 * n <= data.len(),
                out@.len() == k,
                forall|j: int| 0 <= j < k ==> out@[j] == bytes_at(data, start, n as nat)[j],
        {
            let b = self.read_byte();
            out.push(b);
        }
        assert(out@ =~= bytes_at(data, start, n as nat));
        out
    }

    /// Reads 4 bytes and interprets them as a big-endian signed 32-bit
    /// integer.
    pub fn read_int32(&mut self) -> (r: i32)
        requires
            old(self).wf(),
            old(self).spec_index() + 32 <= old(self).spec_data().len(),
        ensures
            final(self).wf(),
            final(self).spec_data() == old(self).spec_data(),
            final(self).spec_index() == old(self).spec_index() + 32,
            r as int == int32_at(old(self).spec_data(), old(self).spec_index() as int),
    {
        let ghost data = self.data@;
        let ghost start = self.index as int;
        let bytes = self.read_bytes(4);
        let b0 = bytes[0] as u32;
        let b1 = bytes[1] as u32;
        let b2 = bytes[2] as u32;
        let b3 = bytes[3] as u32;
        let v: u32 = b0 * 0x100_0000 + b1 * 0x1_0000 + b2 * 0x100 + b3;
        proof {
            let s0 = data.subrange(start, start + 8);
            let s1 = data.subrange(start + 8, start + 16);
            let s2 = data.subrange(start + 16, start + 24);
            let s3 = data.subrange(start + 24, start + 32);
            let p16 = data.subrange(start, start + 16);
            let p24 = data.subrange(start, start + 24);
            let p32 = data.subrange(start, start + 32);
            assert(p16 =~= s0 + s1);
            assert(p24 =~= p16 + s2);
            assert(p32 =~= p24 + s3);
            lemma_bits_value_concat(s0, s1);
            lemma_bits_value_concat(p16, s2);
            lemma_bits_value_concat(p24, s3);
            lemma_bits_value_bound(s0);
            lemma_bits_value_bound(s1);
            lemma_bits_value_bound(s2);
            lemma_bits_value_bound(s3);
            lemma_bits_value_bound(p32);
            lemma2_to64();
            assert(b0 as nat == bits_value(s0));
            assert(b1 as nat == bits_value(s1));
            assert(b2 as nat == bits_value(s2));
            assert(b3 as nat == bits_value(s3));
            assert(bits_value(p32) == bits_value(s0) * 0x100_0000 + bits_value(s1) * 0x1_0000
                + bits_value(s2) * 0x100 + bits_value(s3)) by (nonlinear_arith)
                requires
                    bits_value(p16) == bits_value(s0) * 256 + bits_value(s1),
                    bits_value(p24) == bits_value(p16) * 256 + bits_value(s2),
                    bits_value(p32) == bits_value(p24) * 256 + bits_value(s3),
            ;
        }
        if v < 0x8000_0000 {
            v as i32
        } else {
            ((v - 0x8000_0000) as i32) + i32::MIN
        }
    }
}

/// True exactly when the two byte vectors hold the same bytes.
pub fn bytes_eq(a: &Vec<u8>, b: &Vec<u8>) -> (r: bool)
    ensures
        r == (a@ == b@),
{
    if a.len() != b.len() {
        return false;
    }
    for i in 0..a.len()
        invariant
            a@.len() == b@.len(),
            forall|j: int| 0 <= j < i ==> a@[j] == b@[j],
    {
        if a[i] != b[i] {
            return false;
        }
    }
    assert(a@ =~= b@);
    true
}

} // verus!
