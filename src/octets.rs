//! Little-endian integer codings and byte-buffer copies.

use vstd::prelude::*;

verus! {

/// Two bytes of `v`, least significant first.
pub open spec fn le16(v: u16) -> Seq<u8> {
    seq![(v & 0xff) as u8, (v >> 8u16) as u8]
}

/// Four bytes of `v`, least significant first.
pub open spec fn le32(v: u32) -> Seq<u8> {
    seq![
        (v & 0xff) as u8,
        ((v >> 8u32) & 0xff) as u8,
        ((v >> 16u32) & 0xff) as u8,
        (v >> 24u32) as u8,
    ]
}

pub fn le16_bytes(v: u16) -> (r: Vec<u8>)
    ensures
        r@ == le16(v),
{
    let mut r: Vec<u8> = Vec::new();
    r.push((v & 0xff) as u8);
    r.push((v >> 8u16) as u8);
    assert(r@ =~= le16(v));
    r
}

pub fn le32_bytes(v: u32) -> (r: Vec<u8>)
    ensures
        r@ == le32(v),
{
    let mut r: Vec<u8> = Vec::new();
    r.push((v & 0xff) as u8);
    r.push(((v >> 8u32) & 0xff) as u8);
    r.push(((v >> 16u32) & 0xff) as u8);
    r.push((v >> 24u32) as u8);
    assert(r@ =~= le32(v));
    r
}

/// The integer whose little-endian coding is `b`.
pub fn read_le16(b: &[u8]) -> (r: u16)
    requires
        b@.len() == 2,
    ensures
        le16(r) == b@,
        r == b@[0] + 256 * b@[1],
{
    let b0 = b[0];
    let b1 = b[1];
    let r: u16 = (b0 as u16) | ((b1 as u16) << 8u16);
    assert((r & 0xff) as u8 == b0 && (r >> 8u16) as u8 == b1 && r == b0 + 256 * b1) by (bit_vector)
        requires
            r == (b0 as u16) | ((b1 as u16) << 8u16),
    ;
    assert(le16(r) =~= b@);
    r
}

/// The integer whose little-endian coding is `b`.
pub fn read_le32(b: &[u8]) -> (r: u32)
    requires
        b@.len() == 4,
    ensures
        le32(r) == b@,
{
    let b0 = b[0];
    let b1 = b[1];
    let b2 = b[2];
    let b3 = b[3];
    let r: u32 = (b0 as u32) | ((b1 as u32) << 8u32) | ((b2 as u32) << 16u32) | ((b3 as u32)
        << 24u32);
    assert((r & 0xff) as u8 == b0 && ((r >> 8u32) & 0xff) as u8 == b1 && ((r >> 16u32) & 0xff) as u8
        == b2 && (r >> 24u32) as u8 == b3) by (bit_vector)
        requires
            r == (b0 as u32) | ((b1 as u32) << 8u32) | ((b2 as u32) << 16u32) | ((b3 as u32)
                << 24u32),
    ;
    assert(le32(r) =~= b@);
    r
}

/// A new vector holding the bytes of `s`.
pub fn copy_bytes(s: &[u8]) -> (r: Vec<u8>)
    ensures
        r@ == s@,
{
    let mut r: Vec<u8> = Vec::new();
    let mut i: usize = 0;
    while i < s.len()
        invariant
            i <= s@.len(),
            r@ == s@.subrange(0, i as int),
        decreases s@.len() - i,
    {
        r.push(s[i]);
        i = i + 1;
        assert(r@ =~= s@.subrange(0, i as int));
    }
    assert(r@ =~= s@);
    r
}

/// Append the bytes `s[start..end]` to `v`.
pub fn append_range(v: &mut Vec<u8>, s: &[u8], start: usize, end: usize)
    requires
        start <= end <= s@.len(),
    ensures
        final(v)@ == old(v)@ + s@.subrange(start as int, end as int),
{
    let mut i: usize = start;
    while i < end
        invariant
            start <= i <= end <= s@.len(),
            v@ == old(v)@ + s@.subrange(start as int, i as int),
        decreases end - i,
    {
        v.push(s[i]);
        i = i + 1;
        assert(v@ =~= old(v)@ + s@.subrange(start as int, i as int));
    }
}

/// Append the bytes of `s` to `v`.
pub fn append_bytes(v: &mut Vec<u8>, s: &[u8])
    ensures
        final(v)@ == old(v)@ + s@,
{
    append_range(v, s, 0, s.len());
    assert(s@.subrange(0, s@.len() as int) =~= s@);
}

/// The array holding the bytes of `s`.
pub fn array_from_slice<const N: usize>(s: &[u8]) -> (r: [u8; N])
    requires
        s@.len() == N,
    ensures
        r@ == s@,
{
    let mut r: [u8; N] = [0u8; N];
    let mut i: usize = 0;
    while i < N
        invariant
            i <= N,
            s@.len() == N,
            r@.len() == N,
            forall|k: int| 0 <= k < i ==> r@[k] == s@[k],
        decreases N - i,
    {
        r[i] = s[i];
        i = i + 1;
    }
    assert(r@ =~= s@);
    r
}

/// A new vector holding the bytes of `a`.
pub fn array_to_vec<const N: usize>(a: &[u8; N]) -> (r: Vec<u8>)
    ensures
        r@ == a@,
{
    copy_bytes(a.as_slice())
}

/// Whether `a` and `b` hold the same bytes.
pub fn bytes_eq(a: &[u8], b: &[u8]) -> (r: bool)
    ensures
        r == (a@ == b@),
{
    if a.len() != b.len() {
        return false;
    }
    let mut i: usize = 0;
    while i < a.len()
        invariant
            i <= a@.len() == b@.len(),
            forall|k: int| 0 <= k < i ==> a@[k] == b@[k],
        decreases a@.len() - i,
    {
        if a[i] != b[i] {
            return false;
        }
        i = i + 1;
    }
    assert(a@ =~= b@);
    true
}

} // verus!
