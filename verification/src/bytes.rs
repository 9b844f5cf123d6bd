//! Little-endian field access over raw byte buffers.
//!
//! Every on-disk record in this crate is decoded field by field through the
//! helpers here, so the byte-order and offset arithmetic is stated once and
//! proved once.

use vstd::prelude::*;

verus! {

/// The 16-bit little-endian value stored at byte offset `i` of `s`.
pub open spec fn le16_at(s: Seq<u8>, i: int) -> int
    recommends
        0 <= i,
        i + 2 <= s.len(),
{
    s[i] + 0x100 * s[i + 1]
}

/// The 32-bit little-endian value stored at byte offset `i` of `s`.
pub open spec fn le32_at(s: Seq<u8>, i: int) -> int
    recommends
        0 <= i,
        i + 4 <= s.len(),
{
    s[i] + 0x100 * s[i + 1] + 0x1_0000 * s[i + 2] + 0x100_0000 * s[i + 3]
}

pub fn read_u8(b: &Vec<u8>, i: usize) -> (r: u8)
    requires
        i < b@.len(),
    ensures
        r == b@[i as int],
{
    b[i]
}

pub fn read_le16(b: &Vec<u8>, i: usize) -> (r: u16)
    requires
        i + 2 <= b@.len(),
    ensures
        r == le16_at(b@, i as int),
{
    proof {
        assert(i + 2 <= b.len());
    }
    let lo = b[i];
    let hi = b[i + 1];
    lo as u16 + 0x100 * hi as u16
}

pub fn read_le32(b: &Vec<u8>, i: usize) -> (r: u32)
    requires
        i + 4 <= b@.len(),
    ensures
        r == le32_at(b@, i as int),
{
    proof {
        assert(i + 4 <= b.len());
    }
    let b0 = b[i];
    let b1 = b[i + 1];
    let b2 = b[i + 2];
    let b3 = b[i + 3];
    b0 as u32 + 0x100 * b1 as u32 + 0x1_0000 * b2 as u32 + 0x100_0000 * b3 as u32
}

proof fn lemma_u16_le_parts(x: u16)
    ensures
        (x & 0xff) < 0x100,
        ((x >> 8) & 0xff) < 0x100,
        (x & 0xff) + 0x100 * ((x >> 8) & 0xff) == x,
{
    assert((x & 0xff) < 0x100 && ((x >> 8) & 0xff) < 0x100 && (x & 0xff) + 0x100 * ((x >> 8)
        & 0xff) == x) by (bit_vector);
}

proof fn lemma_u32_le_parts(x: u32)
    ensures
        (x & 0xff) < 0x100,
        ((x >> 8) & 0xff) < 0x100,
        ((x >> 16) & 0xff) < 0x100,
        ((x >> 24) & 0xff) < 0x100,
        (x & 0xff) + 0x100 * ((x >> 8) & 0xff) + 0x1_0000 * ((x >> 16) & 0xff) + 0x100_0000 * ((x
            >> 24) & 0xff) == x,
{
    assert((x & 0xff) < 0x100 && ((x >> 8) & 0xff) < 0x100 && ((x >> 16) & 0xff) < 0x100 && ((x
        >> 24) & 0xff) < 0x100 && (x & 0xff) + 0x100 * ((x >> 8) & 0xff) + 0x1_0000 * ((x >> 16)
        & 0xff) + 0x100_0000 * ((x >> 24) & 0xff) == x) by (bit_vector);
}

/// Stores `v` at byte offset `i` of `buf` in little-endian order; every
/// other byte is left unchanged.
pub fn write_le16(buf: &mut Vec<u8>, i: usize, v: u16)
    requires
        i + 2 <= old(buf)@.len(),
    ensures
        final(buf)@.len() == old(buf)@.len(),
        le16_at(final(buf)@, i as int) == v,
        forall|j: int|
            0 <= j < final(buf)@.len() && !(i <= j < i + 2) ==> final(buf)@[j] == old(buf)@[j],
{
    proof {
        lemma_u16_le_parts(v);
        assert(i + 2 <= buf.len());
    }
    let b0 = (v & 0xff) as u8;
    let b1 = ((v >> 8) & 0xff) as u8;
    buf.set(i, b0);
    buf.set(i + 1, b1);
}

/// Stores `v` at byte offset `i` of `buf` in little-endian order; every
/// other byte is left unchanged.
pub fn write_le32(buf: &mut Vec<u8>, i: usize, v: u32)
    requires
        i + 4 <= old(buf)@.len(),
    ensures
        final(buf)@.len() == old(buf)@.len(),
        le32_at(final(buf)@, i as int) == v,
        forall|j: int|
            0 <= j < final(buf)@.len() && !(i <= j < i + 4) ==> final(buf)@[j] == old(buf)@[j],
{
    proof {
        lemma_u32_le_parts(v);
        assert(i + 4 <= buf.len());
    }
    let b0 = (v & 0xff) as u8;
    let b1 = ((v >> 8) & 0xff) as u8;
    let b2 = ((v >> 16) & 0xff) as u8;
    let b3 = ((v >> 24) & 0xff) as u8;
    buf.set(i, b0);
    buf.set(i + 1, b1);
    buf.set(i + 2, b2);
    buf.set(i + 3, b3);
}

/// Copies `count` bytes starting at byte offset `start` of `b` into an
/// owned vector.
pub fn copy_bytes(b: &Vec<u8>, start: usize, count: usize) -> (r: Vec<u8>)
    requires
        start + count <= b@.len(),
    ensures
        r@ == b@.subrange(start as int, start as int + count),
{
    proof {
        assert(start + count <= b.len());
    }
    let mut v: Vec<u8> = Vec::new();
    let mut k: usize = 0;
    while k < count
        invariant
            k <= count,
            start + count <= b@.len() <= usize::MAX,
            v@.len() == k,
            forall|j: int| 0 <= j < k ==> v@[j] == b@[start + j],
        decreases count - k,
    {
        let c = b[start + k];
        v.push(c);
        k = k + 1;
    }
    proof {
        assert(v@ =~= b@.subrange(start as int, start as int + count));
    }
    v
}

/// Returns a vector of `n` zero bytes.
pub fn zero_buffer(n: usize) -> (r: Vec<u8>)
    ensures
        r@.len() == n,
        forall|j: int| 0 <= j < n ==> r@[j] == 0u8,
{
    let mut v: Vec<u8> = Vec::new();
    let mut k: usize = 0;
    while k < n
        invariant
            k <= n,
            v@.len() == k,
            forall|j: int| 0 <= j < k ==> v@[j] == 0u8,
        decreases n - k,
    {
        v.push(0u8);
        k = k + 1;
    }
    v
}

} // verus!
