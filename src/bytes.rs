//! Little-endian reading and writing over byte buffers.
use vstd::prelude::*;

verus! {

/// The unsigned 16-bit little-endian value at `at`.
pub open spec fn le16_at(b: Seq<u8>, at: int) -> int {
    b[at] as int + 256 * (b[at + 1] as int)
}

/// The unsigned 32-bit little-endian value at `at`.
pub open spec fn le32_at(b: Seq<u8>, at: int) -> int {
    b[at] as int + 256 * (b[at + 1] as int) + 65536 * (b[at + 2] as int) + 16777216 * (
    b[at + 3] as int)
}

/// The four little-endian bytes of `v`.
pub open spec fn le32_bytes(v: u32) -> Seq<u8> {
    seq![
        (v % 256) as u8,
        ((v / 256) % 256) as u8,
        ((v / 65536) % 256) as u8,
        ((v / 16777216) % 256) as u8,
    ]
}

/// Writing out the value read at `at` gives back the four bytes there.
pub proof fn lemma_le32_bytes_of_read(b: Seq<u8>, at: int)
    requires
        0 <= at,
        at + 4 <= b.len(),
    ensures
        0 <= le32_at(b, at) <= u32::MAX,
        le32_bytes(le32_at(b, at) as u32) =~= b.subrange(at, at + 4),
{
    let v = le32_at(b, at);
    let b0 = b[at] as int;
    let b1 = b[at + 1] as int;
    let b2 = b[at + 2] as int;
    let b3 = b[at + 3] as int;
    assert(v % 256 == b0 && (v / 256) % 256 == b1 && (v / 65536) % 256 == b2 && (v / 16777216)
        % 256 == b3) by (nonlinear_arith)
        requires
            v == b0 + 256 * b1 + 65536 * b2 + 16777216 * b3,
            0 <= b0 < 256,
            0 <= b1 < 256,
            0 <= b2 < 256,
            0 <= b3 < 256,
    ;
}

pub fn read_u16_le(b: &[u8], at: usize) -> (r: Option<u16>)
    ensures
        r matches Some(v) ==> at + 2 <= b@.len() && v == le16_at(b@, at as int),
        r is None <==> at + 2 > b@.len(),
{
    if at >= b.len() || b.len() - at < 2 {
        return None;
    }
    Some(b[at] as u16 + 256 * (b[at + 1] as u16))
}

pub fn read_u32_le(b: &[u8], at: usize) -> (r: Option<u32>)
    ensures
        r matches Some(v) ==> at + 4 <= b@.len() && v == le32_at(b@, at as int),
        r is None <==> at + 4 > b@.len(),
{
    if at >= b.len() || b.len() - at < 4 {
        return None;
    }
    Some(
        b[at] as u32 + 256 * (b[at + 1] as u32) + 65536 * (b[at + 2] as u32) + 16777216 * (b[at
            + 3] as u32),
    )
}

pub fn push_u32_le(out: &mut Vec<u8>, v: u32)
    ensures
        final(out)@ == old(out)@ + le32_bytes(v),
{
    out.push((v % 256) as u8);
    out.push(((v / 256) % 256) as u8);
    out.push(((v / 65536) % 256) as u8);
    out.push(((v / 16777216) % 256) as u8);
    assert(final(out)@ =~= old(out)@ + le32_bytes(v));
}

/// A copy of `b[start..end]`.
pub fn copy_range(b: &[u8], start: usize, end: usize) -> (r: Vec<u8>)
    requires
        start <= end <= b@.len(),
    ensures
        r@ == b@.subrange(start as int, end as int),
{
    let mut r: Vec<u8> = Vec::new();
    let mut i: usize = start;
    while i < end
        invariant
            start <= i <= end <= b@.len(),
            r@ == b@.subrange(start as int, i as int),
        decreases end - i,
    {
        r.push(b[i]);
        i = i + 1;
        assert(r@ =~= b@.subrange(start as int, i as int));
    }
    r
}

/// Appends all of `src` to `out`.
pub fn append_bytes(out: &mut Vec<u8>, src: &[u8])
    ensures
        final(out)@ == old(out)@ + src@,
{
    let mut i: usize = 0;
    while i < src.len()
        invariant
            i <= src@.len(),
            out@ == old(out)@ + src@.subrange(0, i as int),
        decreases src@.len() - i,
    {
        out.push(src[i]);
        i = i + 1;
        assert(out@ =~= old(out)@ + src@.subrange(0, i as int));
    }
    assert(src@.subrange(0, src@.len() as int) =~= src@);
}

} // verus!
