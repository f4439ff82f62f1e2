//! Little-endian integer encodings, the building blocks of the account and
//! instruction formats.
use vstd::prelude::*;

verus! {

/// The unsigned integer whose little-endian bytes are `b[0..8]`.
pub open spec fn u64_from_le(b: Seq<u8>) -> u64 {
    (b[0] as u64) | ((b[1] as u64) << 8u64) | ((b[2] as u64) << 16u64) | ((b[3] as u64) << 24u64)
        | ((b[4] as u64) << 32u64) | ((b[5] as u64) << 40u64) | ((b[6] as u64) << 48u64) | ((
    b[7] as u64) << 56u64)
}

/// The eight little-endian bytes of `v`.
pub open spec fn u64_to_le(v: u64) -> Seq<u8> {
    seq![
        (v & 0xff) as u8,
        ((v >> 8u64) & 0xff) as u8,
        ((v >> 16u64) & 0xff) as u8,
        ((v >> 24u64) & 0xff) as u8,
        ((v >> 32u64) & 0xff) as u8,
        ((v >> 40u64) & 0xff) as u8,
        ((v >> 48u64) & 0xff) as u8,
        ((v >> 56u64) & 0xff) as u8,
    ]
}

/// The unsigned integer whose little-endian bytes are `b[0..4]`.
pub open spec fn u32_from_le(b: Seq<u8>) -> u32 {
    (b[0] as u32) | ((b[1] as u32) << 8u32) | ((b[2] as u32) << 16u32) | ((b[3] as u32) << 24u32)
}

/// The four little-endian bytes of `v`.
pub open spec fn u32_to_le(v: u32) -> Seq<u8> {
    seq![
        (v & 0xff) as u8,
        ((v >> 8u32) & 0xff) as u8,
        ((v >> 16u32) & 0xff) as u8,
        ((v >> 24u32) & 0xff) as u8,
    ]
}

/// The two's-complement signed integer whose little-endian bytes are `b[0..8]`.
pub open spec fn i64_from_le(b: Seq<u8>) -> i64 {
    u64_from_le(b) as i64
}

/// The eight little-endian two's-complement bytes of `v`.
pub open spec fn i64_to_le(v: i64) -> Seq<u8> {
    u64_to_le(v as u64)
}

/// Reading back the bytes of `v` gives `v`.
pub proof fn lemma_u64_encode_decode(v: u64)
    ensures
        u64_from_le(u64_to_le(v)) == v,
        u64_to_le(v).len() == 8,
{
    let b = u64_to_le(v);
    let (b0, b1, b2, b3, b4, b5, b6, b7) = (b[0], b[1], b[2], b[3], b[4], b[5], b[6], b[7]);
    assert((b0 as u64) | ((b1 as u64) << 8u64) | ((b2 as u64) << 16u64) | ((b3 as u64) << 24u64)
        | ((b4 as u64) << 32u64) | ((b5 as u64) << 40u64) | ((b6 as u64) << 48u64) | ((
    b7 as u64) << 56u64) == v) by (bit_vector)
        requires
            b0 == (v & 0xff) as u8,
            b1 == ((v >> 8u64) & 0xff) as u8,
            b2 == ((v >> 16u64) & 0xff) as u8,
            b3 == ((v >> 24u64) & 0xff) as u8,
            b4 == ((v >> 32u64) & 0xff) as u8,
            b5 == ((v >> 40u64) & 0xff) as u8,
            b6 == ((v >> 48u64) & 0xff) as u8,
            b7 == ((v >> 56u64) & 0xff) as u8,
    ;
}

/// Encoding the value read from eight bytes gives those bytes back.
pub proof fn lemma_u64_decode_encode(b: Seq<u8>)
    requires
        b.len() == 8,
    ensures
        u64_to_le(u64_from_le(b)) == b,
{
    let (b0, b1, b2, b3, b4, b5, b6, b7) = (b[0], b[1], b[2], b[3], b[4], b[5], b[6], b[7]);
    let v = u64_from_le(b);
    assert({
        &&& b0 == (v & 0xff) as u8
        &&& b1 == ((v >> 8u64) & 0xff) as u8
        &&& b2 == ((v >> 16u64) & 0xff) as u8
        &&& b3 == ((v >> 24u64) & 0xff) as u8
        &&& b4 == ((v >> 32u64) & 0xff) as u8
        &&& b5 == ((v >> 40u64) & 0xff) as u8
        &&& b6 == ((v >> 48u64) & 0xff) as u8
        &&& b7 == ((v >> 56u64) & 0xff) as u8
    }) by (bit_vector)
        requires
            v == (b0 as u64) | ((b1 as u64) << 8u64) | ((b2 as u64) << 16u64) | ((b3 as u64)
                << 24u64) | ((b4 as u64) << 32u64) | ((b5 as u64) << 40u64) | ((b6 as u64)
                << 48u64) | ((b7 as u64) << 56u64),
    ;
    assert(u64_to_le(v) =~= b);
}

/// Reading back the bytes of `v` gives `v`.
pub proof fn lemma_u32_encode_decode(v: u32)
    ensures
        u32_from_le(u32_to_le(v)) == v,
        u32_to_le(v).len() == 4,
{
    let b = u32_to_le(v);
    let (b0, b1, b2, b3) = (b[0], b[1], b[2], b[3]);
    assert((b0 as u32) | ((b1 as u32) << 8u32) | ((b2 as u32) << 16u32) | ((b3 as u32) << 24u32)
        == v) by (bit_vector)
        requires
            b0 == (v & 0xff) as u8,
            b1 == ((v >> 8u32) & 0xff) as u8,
            b2 == ((v >> 16u32) & 0xff) as u8,
            b3 == ((v >> 24u32) & 0xff) as u8,
    ;
}

/// Encoding the value read from four bytes gives those bytes back.
pub proof fn lemma_u32_decode_encode(b: Seq<u8>)
    requires
        b.len() == 4,
    ensures
        u32_to_le(u32_from_le(b)) == b,
{
    let (b0, b1, b2, b3) = (b[0], b[1], b[2], b[3]);
    let v = u32_from_le(b);
    assert({
        &&& b0 == (v & 0xff) as u8
        &&& b1 == ((v >> 8u32) & 0xff) as u8
        &&& b2 == ((v >> 16u32) & 0xff) as u8
        &&& b3 == ((v >> 24u32) & 0xff) as u8
    }) by (bit_vector)
        requires
            v == (b0 as u32) | ((b1 as u32) << 8u32) | ((b2 as u32) << 16u32) | ((b3 as u32)
                << 24u32),
    ;
    assert(u32_to_le(v) =~= b);
}

/// Reading back the bytes of `v` gives `v`.
pub proof fn lemma_i64_encode_decode(v: i64)
    ensures
        i64_from_le(i64_to_le(v)) == v,
        i64_to_le(v).len() == 8,
{
    lemma_u64_encode_decode(v as u64);
    assert(((v as u64) as i64) == v) by (bit_vector);
}

/// Encoding the value read from eight bytes gives those bytes back.
pub proof fn lemma_i64_decode_encode(b: Seq<u8>)
    requires
        b.len() == 8,
    ensures
        i64_to_le(i64_from_le(b)) == b,
{
    let u = u64_from_le(b);
    assert(((u as i64) as u64) == u) by (bit_vector);
    lemma_u64_decode_encode(b);
}

/// The signed integer stored little-endian at `b[off..off + 8]`.
pub fn read_i64(b: &[u8], off: usize) -> (r: i64)
    requires
        off + 8 <= b.len(),
    ensures
        r == i64_from_le(b@.subrange(off as int, off + 8)),
{
    let u: u64 = (b[off] as u64) | ((b[off + 1] as u64) << 8u64) | ((b[off + 2] as u64) << 16u64)
        | ((b[off + 3] as u64) << 24u64) | ((b[off + 4] as u64) << 32u64) | ((b[off + 5] as u64)
        << 40u64) | ((b[off + 6] as u64) << 48u64) | ((b[off + 7] as u64) << 56u64);
    u as i64
}

/// The unsigned integer stored little-endian at `b[off..off + 4]`.
pub fn read_u32(b: &[u8], off: usize) -> (r: u32)
    requires
        off + 4 <= b.len(),
    ensures
        r == u32_from_le(b@.subrange(off as int, off + 4)),
{
    (b[off] as u32) | ((b[off + 1] as u32) << 8u32) | ((b[off + 2] as u32) << 16u32) | ((b[off
        + 3] as u32) << 24u32)
}

/// Appends the little-endian bytes of `v`.
pub fn push_i64(out: &mut Vec<u8>, v: i64)
    ensures
        final(out)@ == old(out)@ + i64_to_le(v),
{
    let u = v as u64;
    out.push((u & 0xff) as u8);
    out.push(((u >> 8u64) & 0xff) as u8);
    out.push(((u >> 16u64) & 0xff) as u8);
    out.push(((u >> 24u64) & 0xff) as u8);
    out.push(((u >> 32u64) & 0xff) as u8);
    out.push(((u >> 40u64) & 0xff) as u8);
    out.push(((u >> 48u64) & 0xff) as u8);
    out.push(((u >> 56u64) & 0xff) as u8);
    assert(out@ =~= old(out)@ + i64_to_le(v));
}

/// Appends the little-endian bytes of `v`.
pub fn push_u32(out: &mut Vec<u8>, v: u32)
    ensures
        final(out)@ == old(out)@ + u32_to_le(v),
{
    out.push((v & 0xff) as u8);
    out.push(((v >> 8u32) & 0xff) as u8);
    out.push(((v >> 16u32) & 0xff) as u8);
    out.push(((v >> 24u32) & 0xff) as u8);
    assert(out@ =~= old(out)@ + u32_to_le(v));
}

} // verus!

verus! {

/// Trusted: `std::str::from_utf8(bytes)` returns `Ok` exactly when `bytes` is
/// well-formed UTF-8, which vstd states as `vstd::utf8::valid_utf8`.
#[verifier::external_body]
pub(crate) fn check_utf8(bytes: &[u8]) -> (r: bool)
    ensures
        r == vstd::utf8::valid_utf8(bytes@),
{
    std::str::from_utf8(bytes).is_ok()
}

/// The one-byte encoding of a boolean.
pub open spec fn bool_to_byte(b: bool) -> u8 {
    if b {
        1
    } else {
        0
    }
}

} // verus!

verus! {

/// The signed integer held by exactly eight bytes.
pub open spec fn decode_i64_exact(b: Seq<u8>) -> Option<i64> {
    if b.len() == 8 {
        Some(i64_from_le(b))
    } else {
        None
    }
}

/// Reads the signed integer held by exactly eight bytes.
pub fn read_i64_exact(b: &[u8]) -> (r: Option<i64>)
    ensures
        r == decode_i64_exact(b@),
{
    if b.len() == 8 {
        assert(b@.subrange(0, 8) =~= b@);
        Some(read_i64(b, 0))
    } else {
        None
    }
}

/// Writing a signed integer and reading it back gives it.
pub proof fn lemma_i64_exact_roundtrip(v: i64, b: Seq<u8>)
    ensures
        decode_i64_exact(i64_to_le(v)) == Some(v),
        decode_i64_exact(b) matches Some(x) ==> i64_to_le(x) == b,
{
    lemma_i64_encode_decode(v);
    if b.len() == 8 {
        lemma_i64_decode_encode(b);
    }
}

/// Encodes a signed integer as eight little-endian bytes.
pub fn i64_to_vec(v: i64) -> (r: Vec<u8>)
    ensures
        r@ == i64_to_le(v),
{
    let mut out: Vec<u8> = Vec::new();
    push_i64(&mut out, v);
    assert(out@ =~= i64_to_le(v));
    out
}

} // verus!

verus! {

/// The number whose base-256 digits, least significant first, are `b[0..8]`.
pub open spec fn le_digits8(b: Seq<u8>) -> int {
    b[0] + 256 * b[1] + 0x1_0000 * b[2] + 0x100_0000 * b[3] + 0x1_0000_0000 * b[4]
        + 0x100_0000_0000 * b[5] + 0x1_0000_0000_0000 * b[6] + 0x100_0000_0000_0000 * b[7]
}

/// The number whose base-256 digits, least significant first, are `b[0..4]`.
pub open spec fn le_digits4(b: Seq<u8>) -> int {
    b[0] + 256 * b[1] + 0x1_0000 * b[2] + 0x100_0000 * b[3]
}

proof fn lemma_u64_from_le_digits(b: Seq<u8>)
    requires
        b.len() == 8,
    ensures
        u64_from_le(b) as int == le_digits8(b),
{
    let (b0, b1, b2, b3, b4, b5, b6, b7) = (b[0], b[1], b[2], b[3], b[4], b[5], b[6], b[7]);
    assert(((b0 as u64) | ((b1 as u64) << 8u64) | ((b2 as u64) << 16u64) | ((b3 as u64) << 24u64)
        | ((b4 as u64) << 32u64) | ((b5 as u64) << 40u64) | ((b6 as u64) << 48u64) | ((
    b7 as u64) << 56u64)) as int == b0 + 256 * b1 + 0x1_0000 * b2 + 0x100_0000 * b3
        + 0x1_0000_0000 * b4 + 0x100_0000_0000 * b5 + 0x1_0000_0000_0000 * b6
        + 0x100_0000_0000_0000 * b7) by (bit_vector);
}

/// A signed integer is stored as eight bytes, least significant first, in two's
/// complement: their base-256 value is `v`, or `v + 2^64` when `v` is negative.
pub proof fn law_i64_bytes_little_endian(v: i64)
    ensures
        i64_to_le(v).len() == 8,
        le_digits8(i64_to_le(v)) == (if v >= 0 {
            v as int
        } else {
            v + 0x1_0000_0000_0000_0000
        }),
{
    lemma_i64_encode_decode(v);
    lemma_u64_encode_decode(v as u64);
    lemma_u64_from_le_digits(i64_to_le(v));
    assert((v as u64) as int == (if v >= 0 {
        v as int
    } else {
        v + 0x1_0000_0000_0000_0000
    })) by (bit_vector);
}

/// Eight bytes read as a signed integer give their base-256 value, least
/// significant byte first, taken in two's complement.
pub proof fn law_i64_read_little_endian(b: Seq<u8>)
    requires
        b.len() == 8,
    ensures
        i64_from_le(b) as int == (if le_digits8(b) < 0x8000_0000_0000_0000 {
            le_digits8(b)
        } else {
            le_digits8(b) - 0x1_0000_0000_0000_0000
        }),
{
    lemma_u64_from_le_digits(b);
    let u = u64_from_le(b);
    assert((u as i64) as int == (if u < 0x8000_0000_0000_0000 {
        u as int
    } else {
        u - 0x1_0000_0000_0000_0000
    })) by (bit_vector);
}

/// A length is stored as four bytes, least significant first.
pub proof fn law_u32_bytes_little_endian(v: u32)
    ensures
        u32_to_le(v).len() == 4,
        le_digits4(u32_to_le(v)) == v,
{
    lemma_u32_encode_decode(v);
    let b = u32_to_le(v);
    let (b0, b1, b2, b3) = (b[0], b[1], b[2], b[3]);
    assert(((b0 as u32) | ((b1 as u32) << 8u32) | ((b2 as u32) << 16u32) | ((b3 as u32) << 24u32))
        as int == b0 + 256 * b1 + 0x1_0000 * b2 + 0x100_0000 * b3) by (bit_vector);
}

/// Four bytes read as a length give their base-256 value, least significant first.
pub proof fn law_u32_read_little_endian(b: Seq<u8>)
    requires
        b.len() == 4,
    ensures
        u32_from_le(b) as int == le_digits4(b),
{
    let (b0, b1, b2, b3) = (b[0], b[1], b[2], b[3]);
    assert(((b0 as u32) | ((b1 as u32) << 8u32) | ((b2 as u32) << 16u32) | ((b3 as u32) << 24u32))
        as int == b0 + 256 * b1 + 0x1_0000 * b2 + 0x100_0000 * b3) by (bit_vector);
}

} // verus!
