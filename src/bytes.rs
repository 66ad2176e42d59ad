//! Little-endian integer fields over byte sequences.
use vstd::prelude::*;

verus! {

/// The 32-bit value whose little-endian bytes are `b0..b3`.
pub open spec fn u32_from_le(b0: u8, b1: u8, b2: u8, b3: u8) -> u32 {
    (b0 as u32) | ((b1 as u32) << 8u32) | ((b2 as u32) << 16u32) | ((b3 as u32) << 24u32)
}

/// The unsigned little-endian 32-bit field that starts at `off`.
pub open spec fn u32_at(s: Seq<u8>, off: int) -> u32 {
    u32_from_le(s[off], s[off + 1], s[off + 2], s[off + 3])
}

/// The signed little-endian 32-bit field that starts at `off`.
pub open spec fn i32_at(s: Seq<u8>, off: int) -> i32 {
    #[verifier::truncate]
    (u32_at(s, off) as i32)
}

/// The signed little-endian 64-bit field that starts at `off`.
pub open spec fn i64_at(s: Seq<u8>, off: int) -> i64 {
    #[verifier::truncate]
    (((u32_at(s, off) as u64) | ((u32_at(s, off + 4) as u64) << 32u64)) as i64)
}

/// The four little-endian bytes of `v`.
pub open spec fn le32(v: u32) -> Seq<u8> {
    seq![
        (v & 0xff) as u8,
        ((v >> 8u32) & 0xff) as u8,
        ((v >> 16u32) & 0xff) as u8,
        ((v >> 24u32) & 0xff) as u8,
    ]
}

/// The two little-endian bytes of `v`.
pub open spec fn le16(v: u16) -> Seq<u8> {
    seq![(v & 0xff) as u8, ((v >> 8u16) & 0xff) as u8]
}

/// `n` zero bytes.
pub open spec fn zeros(n: nat) -> Seq<u8> {
    Seq::new(n, |i: int| 0u8)
}

/// Reading back the four bytes written for `v` gives `v`.
pub proof fn lemma_le32_read(v: u32)
    ensures
        u32_from_le(le32(v)[0], le32(v)[1], le32(v)[2], le32(v)[3]) == v,
{
    let b0 = (v & 0xff) as u8;
    let b1 = ((v >> 8u32) & 0xff) as u8;
    let b2 = ((v >> 16u32) & 0xff) as u8;
    let b3 = ((v >> 24u32) & 0xff) as u8;
    assert((b0 as u32) | ((b1 as u32) << 8u32) | ((b2 as u32) << 16u32) | ((b3 as u32) << 24u32)
        == v) by (bit_vector)
        requires
            b0 == (v & 0xff) as u8,
            b1 == ((v >> 8u32) & 0xff) as u8,
            b2 == ((v >> 16u32) & 0xff) as u8,
            b3 == ((v >> 24u32) & 0xff) as u8,
    ;
}

/// A signed 32-bit value survives the trip through its unsigned bit pattern.
pub proof fn lemma_i32_bits(x: i32)
    ensures
        (x as u32) as i32 == x,
{
    assert((x as u32) as i32 == x) by (bit_vector);
}

/// Reads the unsigned little-endian 32-bit field at `off`.
pub fn read_u32(data: &[u8], off: usize) -> (r: u32)
    requires
        off + 4 <= data@.len(),
    ensures
        r == u32_at(data@, off as int),
{
    (data[off] as u32) | ((data[off + 1] as u32) << 8u32) | ((data[off + 2] as u32) << 16u32) | ((
    data[off + 3] as u32) << 24u32)
}

/// Reads the signed little-endian 32-bit field at `off`.
pub fn read_i32(data: &[u8], off: usize) -> (r: i32)
    requires
        off + 4 <= data@.len(),
    ensures
        r == i32_at(data@, off as int),
{
    #[verifier::truncate]
    (read_u32(data, off) as i32)
}

/// Reads the signed little-endian 64-bit field at `off`.
pub fn read_i64(data: &[u8], off: usize) -> (r: i64)
    requires
        off + 8 <= data@.len(),
    ensures
        r == i64_at(data@, off as int),
{
    let len = data.len();
    assert(off + 8 <= len);
    let lo = read_u32(data, off);
    let hi = read_u32(data, off + 4);
    #[verifier::truncate]
    (((lo as u64) | ((hi as u64) << 32u64)) as i64)
}

/// Appends the four little-endian bytes of `v`.
pub fn push_u32(out: &mut Vec<u8>, v: u32)
    ensures
        final(out)@ == old(out)@ + le32(v),
{
    out.push((v & 0xff) as u8);
    out.push(((v >> 8u32) & 0xff) as u8);
    out.push(((v >> 16u32) & 0xff) as u8);
    out.push(((v >> 24u32) & 0xff) as u8);
    assert(final(out)@ =~= old(out)@ + le32(v));
}

/// Appends the two little-endian bytes of `v`.
pub fn push_u16(out: &mut Vec<u8>, v: u16)
    ensures
        final(out)@ == old(out)@ + le16(v),
{
    out.push((v & 0xff) as u8);
    out.push(((v >> 8u16) & 0xff) as u8);
    assert(final(out)@ =~= old(out)@ + le16(v));
}

/// Appends `n` zero bytes.
pub fn push_zeros(out: &mut Vec<u8>, n: usize)
    ensures
        final(out)@ == old(out)@ + zeros(n as nat),
{
    let ghost start = out@;
    let mut i: usize = 0;
    while i < n
        invariant
            i <= n,
            out@ == start + zeros(i as nat),
        decreases n - i,
    {
        out.push(0u8);
        i = i + 1;
        assert(out@ =~= start + zeros(i as nat));
    }
}

/// Appends every byte of `src`.
pub fn push_all(out: &mut Vec<u8>, src: &[u8])
    ensures
        final(out)@ == old(out)@ + src@,
{
    let ghost start = out@;
    let mut i: usize = 0;
    while i < src.len()
        invariant
            i <= src@.len(),
            out@ == start + src@.subrange(0, i as int),
        decreases src@.len() - i,
    {
        out.push(src[i]);
        i = i + 1;
        assert(out@ =~= start + src@.subrange(0, i as int));
    }
    assert(src@.subrange(0, src@.len() as int) =~= src@);
}

} // verus!

verus! {

/// The bytes of `s` from `off` to the end; nothing when `off` is negative or past the end.
pub open spec fn tail_from(s: Seq<u8>, off: int) -> Seq<u8> {
    if 0 <= off && off < s.len() {
        s.subrange(off, s.len() as int)
    } else {
        Seq::empty()
    }
}

/// Appends the bytes of `data` from `off` to the end.
pub fn push_tail(out: &mut Vec<u8>, data: &[u8], off: usize)
    ensures
        final(out)@ == old(out)@ + tail_from(data@, off as int),
{
    let ghost start = out@;
    if off < data.len() {
        let mut i: usize = off;
        while i < data.len()
            invariant
                off <= i <= data@.len(),
                out@ == start + data@.subrange(off as int, i as int),
            decreases data@.len() - i,
        {
            out.push(data[i]);
            i = i + 1;
            assert(out@ =~= start + data@.subrange(off as int, i as int));
        }
    } else {
        assert(out@ =~= start + Seq::<u8>::empty());
    }
}

} // verus!
