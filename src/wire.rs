use vstd::prelude::*;
use bytes::BufMut;
use bytes::BytesMut;

verus! {

#[verifier::external_type_specification]
#[verifier::external_body]
pub struct ExBytesMut(bytes::BytesMut);

/// The octets that a buffer holds, first to last.
pub uninterp spec fn buffer_contents(b: bytes::BytesMut) -> Seq<u8>;

/// Largest number of octets a buffer is asked to hold: growing it then never overflows
/// its capacity, on any target.
pub const MAX_BUFFER_LEN: usize = 0x7fff_ffff;

/// Relies on `BufMut::put_u8` for `BytesMut`: appends one octet, growing the buffer as needed.
#[verifier::external_body]
pub fn put_u8(buf: &mut BytesMut, n: u8)
    requires
        buffer_contents(*old(buf)).len() + 1 <= MAX_BUFFER_LEN,
    ensures
        buffer_contents(*final(buf)) == buffer_contents(*old(buf)).push(n),
{
    buf.put_u8(n)
}

/// Relies on `BufMut::put_u16` for `BytesMut`: appends the two octets of `n`, most significant first.
#[verifier::external_body]
pub fn put_u16(buf: &mut BytesMut, n: u16)
    requires
        buffer_contents(*old(buf)).len() + 2 <= MAX_BUFFER_LEN,
    ensures
        buffer_contents(*final(buf)) == buffer_contents(*old(buf)) + be_u16(n),
{
    buf.put_u16(n)
}

/// Relies on `BufMut::put_u32` for `BytesMut`: appends the four octets of `n`, most significant first.
#[verifier::external_body]
pub fn put_u32(buf: &mut BytesMut, n: u32)
    requires
        buffer_contents(*old(buf)).len() + 4 <= MAX_BUFFER_LEN,
    ensures
        buffer_contents(*final(buf)) == buffer_contents(*old(buf)) + be_u32(n),
{
    buf.put_u32(n)
}

/// Relies on `BufMut::put_slice` for `BytesMut`: appends the octets of `src` in order.
#[verifier::external_body]
pub fn put_slice(buf: &mut BytesMut, src: &[u8])
    requires
        buffer_contents(*old(buf)).len() + src@.len() <= MAX_BUFFER_LEN,
    ensures
        buffer_contents(*final(buf)) == buffer_contents(*old(buf)) + src@,
{
    buf.put_slice(src)
}

/// Relies on `BufMut::put_u64` for `BytesMut`: appends the eight octets of `n`, most significant first.
#[verifier::external_body]
pub fn put_u64(buf: &mut BytesMut, n: u64)
    requires
        buffer_contents(*old(buf)).len() + 8 <= MAX_BUFFER_LEN,
    ensures
        buffer_contents(*final(buf)) == buffer_contents(*old(buf)) + be_u64(n),
{
    buf.put_u64(n)
}

/// Network byte order of a 64-bit value.
pub open spec fn be_u64(v: u64) -> Seq<u8> {
    be_u32((v >> 32u64) as u32) + be_u32(v as u32)
}

/// The 64-bit value whose network byte order starts at `pos`.
pub open spec fn u64_at(s: Seq<u8>, pos: int) -> u64 {
    ((u32_at(s, pos) as u64) << 32u64) | (u32_at(s, pos + 4) as u64)
}

/// A 64-bit value written at `pos` reads back unchanged.
pub proof fn lemma_u64_at_be(s: Seq<u8>, pos: int, v: u64)
    requires
        0 <= pos,
        pos + 8 <= s.len(),
        s.subrange(pos, pos + 8) == be_u64(v),
    ensures
        u64_at(s, pos) == v,
{
    assert(s.subrange(pos, pos + 4) =~= s.subrange(pos, pos + 8).subrange(0, 4));
    assert(s.subrange(pos + 4, pos + 8) =~= s.subrange(pos, pos + 8).subrange(4, 8));
    assert(be_u64(v).subrange(0, 4) =~= be_u32((v >> 32u64) as u32));
    assert(be_u64(v).subrange(4, 8) =~= be_u32(v as u32));
    lemma_u32_at_be(s, pos, (v >> 32u64) as u32);
    lemma_u32_at_be(s, pos + 4, v as u32);
    assert((((((v >> 32u64) as u32) as u64) << 32u64) | ((v as u32) as u64)) == v) by (bit_vector);
}

/// Reads the 64-bit value in network byte order at `pos`.
pub fn read_u64(s: &[u8], pos: usize) -> (r: u64)
    requires
        pos + 8 <= s@.len(),
    ensures
        r == u64_at(s@, pos as int),
{
    let len = s.len();
    assert(pos + 8 <= len);
    ((read_u32(s, pos) as u64) << 32u64) | (read_u32(s, pos + 4) as u64)
}

/// Network byte order of a 16-bit value.
pub open spec fn be_u16(v: u16) -> Seq<u8> {
    seq![(v >> 8u16) as u8, v as u8]
}

/// Network byte order of a 32-bit value.
pub open spec fn be_u32(v: u32) -> Seq<u8> {
    seq![(v >> 24u32) as u8, (v >> 16u32) as u8, (v >> 8u32) as u8, v as u8]
}

/// The 16-bit value whose network byte order starts at `pos`.
pub open spec fn u16_at(s: Seq<u8>, pos: int) -> u16 {
    ((s[pos] as u16) << 8u16) | (s[pos + 1] as u16)
}

/// The 32-bit value whose network byte order starts at `pos`.
pub open spec fn u32_at(s: Seq<u8>, pos: int) -> u32 {
    ((s[pos] as u32) << 24u32) | ((s[pos + 1] as u32) << 16u32) | ((s[pos + 2] as u32) << 8u32) | (
    s[pos + 3] as u32)
}

pub proof fn lemma_be_u16_inverse(v: u16)
    ensures
        u16_at(be_u16(v), 0) == v,
{
    assert((((((v >> 8u16) as u8) as u16) << 8u16) | ((v as u8) as u16)) == v) by (bit_vector);
}

pub proof fn lemma_be_u32_inverse(v: u32)
    ensures
        u32_at(be_u32(v), 0) == v,
{
    assert((((((v >> 24u32) as u8) as u32) << 24u32) | ((((v >> 16u32) as u8) as u32) << 16u32) | ((
    ((v >> 8u32) as u8) as u32) << 8u32) | ((v as u8) as u32)) == v) by (bit_vector);
}

/// A 16-bit value written at `pos` reads back unchanged.
pub proof fn lemma_u16_at_be(s: Seq<u8>, pos: int, v: u16)
    requires
        0 <= pos,
        pos + 2 <= s.len(),
        s.subrange(pos, pos + 2) == be_u16(v),
    ensures
        u16_at(s, pos) == v,
{
    lemma_be_u16_inverse(v);
    assert(s[pos] == s.subrange(pos, pos + 2)[0]);
    assert(s[pos + 1] == s.subrange(pos, pos + 2)[1]);
}

/// A 32-bit value written at `pos` reads back unchanged.
pub proof fn lemma_u32_at_be(s: Seq<u8>, pos: int, v: u32)
    requires
        0 <= pos,
        pos + 4 <= s.len(),
        s.subrange(pos, pos + 4) == be_u32(v),
    ensures
        u32_at(s, pos) == v,
{
    lemma_be_u32_inverse(v);
    assert(s[pos] == s.subrange(pos, pos + 4)[0]);
    assert(s[pos + 1] == s.subrange(pos, pos + 4)[1]);
    assert(s[pos + 2] == s.subrange(pos, pos + 4)[2]);
    assert(s[pos + 3] == s.subrange(pos, pos + 4)[3]);
}

/// Reads the 16-bit value in network byte order at `pos`.
pub fn read_u16(s: &[u8], pos: usize) -> (r: u16)
    requires
        pos + 2 <= s@.len(),
    ensures
        r == u16_at(s@, pos as int),
{
    let len = s.len();
    assert(pos + 2 <= len);
    ((s[pos] as u16) << 8u16) | (s[pos + 1] as u16)
}

/// Reads the 32-bit value in network byte order at `pos`.
pub fn read_u32(s: &[u8], pos: usize) -> (r: u32)
    requires
        pos + 4 <= s@.len(),
    ensures
        r == u32_at(s@, pos as int),
{
    let len = s.len();
    assert(pos + 4 <= len);
    ((s[pos] as u32) << 24u32) | ((s[pos + 1] as u32) << 16u32) | ((s[pos + 2] as u32) << 8u32) | (
    s[pos + 3] as u32)
}

/// Writing the 16-bit value read at `pos` gives back the same two octets.
pub proof fn lemma_u16_at_bytes(s: Seq<u8>, pos: int)
    requires
        0 <= pos,
        pos + 2 <= s.len(),
    ensures
        be_u16(u16_at(s, pos)) == s.subrange(pos, pos + 2),
{
    let b0 = s[pos];
    let b1 = s[pos + 1];
    let v = ((b0 as u16) << 8u16) | (b1 as u16);
    assert((v >> 8u16) as u8 == b0 && v as u8 == b1) by (bit_vector)
        requires
            v == ((b0 as u16) << 8u16) | (b1 as u16),
    ;
    assert(be_u16(u16_at(s, pos)) =~= s.subrange(pos, pos + 2));
}

/// Writing the 32-bit value read at `pos` gives back the same four octets.
pub proof fn lemma_u32_at_bytes(s: Seq<u8>, pos: int)
    requires
        0 <= pos,
        pos + 4 <= s.len(),
    ensures
        be_u32(u32_at(s, pos)) == s.subrange(pos, pos + 4),
{
    let b0 = s[pos];
    let b1 = s[pos + 1];
    let b2 = s[pos + 2];
    let b3 = s[pos + 3];
    let v = ((b0 as u32) << 24u32) | ((b1 as u32) << 16u32) | ((b2 as u32) << 8u32) | (b3 as u32);
    assert((v >> 24u32) as u8 == b0 && (v >> 16u32) as u8 == b1 && (v >> 8u32) as u8 == b2 && v as u8
        == b3) by (bit_vector)
        requires
            v == ((b0 as u32) << 24u32) | ((b1 as u32) << 16u32) | ((b2 as u32) << 8u32) | (b3 as u32),
    ;
    assert(be_u32(u32_at(s, pos)) =~= s.subrange(pos, pos + 4));
}

/// Writing the 64-bit value read at `pos` gives back the same eight octets.
pub proof fn lemma_u64_at_bytes(s: Seq<u8>, pos: int)
    requires
        0 <= pos,
        pos + 8 <= s.len(),
    ensures
        be_u64(u64_at(s, pos)) == s.subrange(pos, pos + 8),
{
    let hi = u32_at(s, pos);
    let lo = u32_at(s, pos + 4);
    let v = ((hi as u64) << 32u64) | (lo as u64);
    assert((v >> 32u64) as u32 == hi && v as u32 == lo) by (bit_vector)
        requires
            v == ((hi as u64) << 32u64) | (lo as u64),
    ;
    lemma_u32_at_bytes(s, pos);
    lemma_u32_at_bytes(s, pos + 4);
    assert(be_u64(u64_at(s, pos)) =~= s.subrange(pos, pos + 8));
}

} // verus!
