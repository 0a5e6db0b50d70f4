use vstd::prelude::*;

use endian_codec::{DecodeBE, EncodeBE};

verus! {

/// `x` as four little-endian bytes.
pub open spec fn le_bytes_u32(x: u32) -> Seq<u8> {
    seq![(x & 0xff) as u8, ((x >> 8) & 0xff) as u8, ((x >> 16) & 0xff) as u8, ((x >> 24) & 0xff) as u8]
}

/// `x` as eight little-endian bytes.
pub open spec fn le_bytes_u64(x: u64) -> Seq<u8> {
    le_bytes_u32((x & 0xffff_ffff) as u32) + le_bytes_u32(((x >> 32) & 0xffff_ffff) as u32)
}

/// The little-endian 16-bit value of the two bytes at `i`.
pub open spec fn le_u16_at(s: Seq<u8>, i: int) -> u16 {
    ((s[i] as u16) | ((s[i + 1] as u16) << 8u16)) as u16
}

/// The little-endian 32-bit value of the four bytes at `i`.
pub open spec fn le_u32_at(s: Seq<u8>, i: int) -> u32 {
    ((s[i] as u32) | ((s[i + 1] as u32) << 8u32) | ((s[i + 2] as u32) << 16u32) | ((s[i + 3] as u32)
        << 24u32)) as u32
}

/// The little-endian 64-bit value of the eight bytes at `i`.
pub open spec fn le_u64_at(s: Seq<u8>, i: int) -> u64 {
    ((le_u32_at(s, i) as u64) | ((le_u32_at(s, i + 4) as u64) << 32u64)) as u64
}

/// `x` as two big-endian bytes.
pub open spec fn be_bytes_u16(x: u16) -> Seq<u8> {
    seq![((x >> 8) & 0xff) as u8, (x & 0xff) as u8]
}

/// `x` as four big-endian bytes.
pub open spec fn be_bytes_u32(x: u32) -> Seq<u8> {
    seq![((x >> 24) & 0xff) as u8, ((x >> 16) & 0xff) as u8, ((x >> 8) & 0xff) as u8, (x & 0xff) as u8]
}

/// `x` as eight big-endian bytes.
pub open spec fn be_bytes_u64(x: u64) -> Seq<u8> {
    be_bytes_u32(((x >> 32) & 0xffff_ffff) as u32) + be_bytes_u32((x & 0xffff_ffff) as u32)
}

/// The big-endian 16-bit value of the two bytes at `i`.
pub open spec fn be_u16_at(s: Seq<u8>, i: int) -> u16 {
    (((s[i] as u16) << 8u16) | (s[i + 1] as u16)) as u16
}

/// The big-endian 32-bit value of the four bytes at `i`.
pub open spec fn be_u32_at(s: Seq<u8>, i: int) -> u32 {
    (((s[i] as u32) << 24u32) | ((s[i + 1] as u32) << 16u32) | ((s[i + 2] as u32) << 8u32) | (s[i
        + 3] as u32)) as u32
}

/// The big-endian 64-bit value of the eight bytes at `i`.
pub open spec fn be_u64_at(s: Seq<u8>, i: int) -> u64 {
    (((be_u32_at(s, i) as u64) << 32u64) | (be_u32_at(s, i + 4) as u64)) as u64
}

/// Reading back the two big-endian bytes of `x` gives `x`.
pub proof fn lemma_be_u16_round_trip(x: u16)
    ensures
        be_u16_at(be_bytes_u16(x), 0) == x,
{
    assert((((((x >> 8) & 0xff) as u8) as u16) << 8u16 | ((((x & 0xff) as u8) as u16))) == x)
        by (bit_vector);
}

/// Reading back the four big-endian bytes of `x` gives `x`.
pub proof fn lemma_be_u32_round_trip(x: u32)
    ensures
        be_u32_at(be_bytes_u32(x), 0) == x,
{
    assert(((((((x >> 24) & 0xff) as u8) as u32) << 24u32) | (((((x >> 16) & 0xff) as u8) as u32)
        << 16u32) | (((((x >> 8) & 0xff) as u8) as u32) << 8u32) | (((x & 0xff) as u8) as u32))
        == x) by (bit_vector);
}

/// Reading back the eight big-endian bytes of `x` gives `x`.
pub proof fn lemma_be_u64_round_trip(x: u64)
    ensures
        be_u64_at(be_bytes_u64(x), 0) == x,
{
    let hi = ((x >> 32) & 0xffff_ffff) as u32;
    let lo = (x & 0xffff_ffff) as u32;
    lemma_be_u32_round_trip(lo);
    lemma_be_u32_round_trip(hi);
    let s = be_bytes_u64(x);
    assert(s.subrange(0, 4) =~= be_bytes_u32(hi));
    assert(s.subrange(4, 8) =~= be_bytes_u32(lo));
    assert(be_u32_at(s, 0) == be_u32_at(be_bytes_u32(hi), 0));
    assert(be_u32_at(s, 4) == be_u32_at(be_bytes_u32(lo), 0));
    assert((((hi as u64) << 32u64) | (lo as u64)) == x) by (bit_vector)
        requires
            lo == (x & 0xffff_ffff) as u32,
            hi == ((x >> 32) & 0xffff_ffff) as u32,
    ;
}

/// Appends `x` in little-endian order.
pub fn push_le_u32(v: &mut Vec<u8>, x: u32)
    ensures
        final(v)@ == old(v)@ + le_bytes_u32(x),
{
    v.push((x & 0xff) as u8);
    v.push(((x >> 8) & 0xff) as u8);
    v.push(((x >> 16) & 0xff) as u8);
    v.push(((x >> 24) & 0xff) as u8);
    assert(final(v)@ =~= old(v)@ + le_bytes_u32(x));
}

/// Appends `x` in little-endian order.
pub fn push_le_u64(v: &mut Vec<u8>, x: u64)
    ensures
        final(v)@ == old(v)@ + le_bytes_u64(x),
{
    push_le_u32(v, (x & 0xffff_ffff) as u32);
    push_le_u32(v, ((x >> 32) & 0xffff_ffff) as u32);
    assert(final(v)@ =~= old(v)@ + le_bytes_u64(x));
}

/// Reads the little-endian 16-bit value at `off`.
pub fn read_le_u16(b: &[u8], off: usize) -> (r: u16)
    requires
        off + 2 <= b@.len(),
    ensures
        r == le_u16_at(b@, off as int),
{
    (b[off] as u16) | ((b[off + 1] as u16) << 8u16)
}

/// Reads the little-endian 32-bit value at `off`.
pub fn read_le_u32(b: &[u8], off: usize) -> (r: u32)
    requires
        off + 4 <= b@.len(),
    ensures
        r == le_u32_at(b@, off as int),
{
    (b[off] as u32) | ((b[off + 1] as u32) << 8u32) | ((b[off + 2] as u32) << 16u32) | ((b[off
        + 3] as u32) << 24u32)
}

/// Reads the little-endian 64-bit value at `off`.
pub fn read_le_u64(b: &[u8], off: usize) -> (r: u64)
    requires
        off + 8 <= b@.len(),
    ensures
        r == le_u64_at(b@, off as int),
{
    let _n = b.len();
    let lo = read_le_u32(b, off);
    let hi = read_le_u32(b, off + 4);
    (lo as u64) | ((hi as u64) << 32u64)
}

/// `n` zero bytes.
pub fn zeroed(n: usize) -> (r: Vec<u8>)
    ensures
        r@ == Seq::new(n as nat, |_i: int| 0u8),
{
    let mut v: Vec<u8> = Vec::new();
    let mut i: usize = 0;
    while i < n
        invariant
            i <= n,
            v@ == Seq::new(i as nat, |_i: int| 0u8),
        decreases n - i,
    {
        v.push(0u8);
        i = i + 1;
        assert(v@ =~= Seq::new(i as nat, |_i: int| 0u8));
    }
    v
}

/// Copies `b[from..to]` into a new vector.
pub fn copy_range(b: &[u8], from: usize, to: usize) -> (r: Vec<u8>)
    requires
        from <= to <= b@.len(),
    ensures
        r@ == b@.subrange(from as int, to as int),
{
    let mut r: Vec<u8> = Vec::new();
    let mut i = from;
    while i < to
        invariant
            from <= i <= to <= b@.len(),
            r@ == b@.subrange(from as int, i as int),
        decreases to - i,
    {
        r.push(b[i]);
        i = i + 1;
        assert(r@ =~= b@.subrange(from as int, i as int));
    }
    r
}

/// Relies on endian_codec's `EncodeBE` for `u16`: the two big-endian bytes of `x`.
#[verifier::external_body]
pub(crate) fn encode_be_u16(x: u16) -> (r: Vec<u8>)
    ensures
        r@ == be_bytes_u16(x),
{
    let mut b = vec![0u8; 2];
    x.encode_as_be_bytes(&mut b);
    b
}

/// Relies on endian_codec's `EncodeBE` for `u32`: the four big-endian bytes of `x`.
#[verifier::external_body]
pub(crate) fn encode_be_u32(x: u32) -> (r: Vec<u8>)
    ensures
        r@ == be_bytes_u32(x),
{
    let mut b = vec![0u8; 4];
    x.encode_as_be_bytes(&mut b);
    b
}

/// Relies on endian_codec's `EncodeBE` for `u64`: the eight big-endian bytes of `x`.
#[verifier::external_body]
pub(crate) fn encode_be_u64(x: u64) -> (r: Vec<u8>)
    ensures
        r@ == be_bytes_u64(x),
{
    let mut b = vec![0u8; 8];
    x.encode_as_be_bytes(&mut b);
    b
}

/// Relies on endian_codec's `DecodeBE` for `u16`: the value of two big-endian bytes.
#[verifier::external_body]
pub(crate) fn decode_be_u16(b: &[u8]) -> (r: u16)
    requires
        b@.len() == 2,
    ensures
        r == be_u16_at(b@, 0),
{
    u16::decode_from_be_bytes(b)
}

/// Relies on endian_codec's `DecodeBE` for `u32`: the value of four big-endian bytes.
#[verifier::external_body]
pub(crate) fn decode_be_u32(b: &[u8]) -> (r: u32)
    requires
        b@.len() == 4,
    ensures
        r == be_u32_at(b@, 0),
{
    u32::decode_from_be_bytes(b)
}

/// Relies on endian_codec's `DecodeBE` for `u64`: the value of eight big-endian bytes.
#[verifier::external_body]
pub(crate) fn decode_be_u64(b: &[u8]) -> (r: u64)
    requires
        b@.len() == 8,
    ensures
        r == be_u64_at(b@, 0),
{
    u64::decode_from_be_bytes(b)
}

} // verus!
