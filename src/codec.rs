use vstd::prelude::*;

verus! {

/// Byte `i` (least significant first) of a 64-bit word.
pub open spec fn byte_of(v: u64, i: int) -> u8 {
    ((v >> (8 * i) as u64) & 0xff) as u8
}

/// The eight little-endian bytes of `v`.
pub open spec fn le_bytes_u64(v: u64) -> Seq<u8> {
    seq![
        byte_of(v, 0), byte_of(v, 1), byte_of(v, 2), byte_of(v, 3),
        byte_of(v, 4), byte_of(v, 5), byte_of(v, 6), byte_of(v, 7),
    ]
}

/// The four little-endian bytes of `v`.
pub open spec fn le_bytes_i32(v: i32) -> Seq<u8> {
    let w = (v as u32) as u64;
    seq![byte_of(w, 0), byte_of(w, 1), byte_of(w, 2), byte_of(w, 3)]
}

/// The word whose little-endian bytes are `b[0..8]`.
pub open spec fn u64_from_le(b: Seq<u8>) -> u64
    recommends
        b.len() >= 8,
{
    (b[0] as u64) | ((b[1] as u64) << 8) | ((b[2] as u64) << 16) | ((b[3] as u64) << 24)
        | ((b[4] as u64) << 32) | ((b[5] as u64) << 40) | ((b[6] as u64) << 48)
        | ((b[7] as u64) << 56)
}

/// Reading back the bytes of a word gives the word.
pub proof fn lemma_u64_le_round_trip(v: u64)
    ensures
        u64_from_le(le_bytes_u64(v)) == v,
{
    let b = le_bytes_u64(v);
    let (b0, b1, b2, b3) = (b[0], b[1], b[2], b[3]);
    let (b4, b5, b6, b7) = (b[4], b[5], b[6], b[7]);
    assert(b0 == ((v >> 0u64) & 0xff) as u8);
    assert(b1 == ((v >> 8u64) & 0xff) as u8);
    assert(b2 == ((v >> 16u64) & 0xff) as u8);
    assert(b3 == ((v >> 24u64) & 0xff) as u8);
    assert(b4 == ((v >> 32u64) & 0xff) as u8);
    assert(b5 == ((v >> 40u64) & 0xff) as u8);
    assert(b6 == ((v >> 48u64) & 0xff) as u8);
    assert(b7 == ((v >> 56u64) & 0xff) as u8);
    assert((b0 as u64) | ((b1 as u64) << 8) | ((b2 as u64) << 16) | ((b3 as u64) << 24)
        | ((b4 as u64) << 32) | ((b5 as u64) << 40) | ((b6 as u64) << 48)
        | ((b7 as u64) << 56) == v) by (bit_vector)
        requires
            b0 == ((v >> 0u64) & 0xff) as u8,
            b1 == ((v >> 8u64) & 0xff) as u8,
            b2 == ((v >> 16u64) & 0xff) as u8,
            b3 == ((v >> 24u64) & 0xff) as u8,
            b4 == ((v >> 32u64) & 0xff) as u8,
            b5 == ((v >> 40u64) & 0xff) as u8,
            b6 == ((v >> 48u64) & 0xff) as u8,
            b7 == ((v >> 56u64) & 0xff) as u8,
    ;
}

/// Little-endian bytes of a 64-bit word.
pub fn u64_to_le(v: u64) -> (r: [u8; 8])
    ensures
        r@ == le_bytes_u64(v),
{
    let r: [u8; 8] = [
        (v & 0xff) as u8,
        ((v >> 8u64) & 0xff) as u8,
        ((v >> 16u64) & 0xff) as u8,
        ((v >> 24u64) & 0xff) as u8,
        ((v >> 32u64) & 0xff) as u8,
        ((v >> 40u64) & 0xff) as u8,
        ((v >> 48u64) & 0xff) as u8,
        ((v >> 56u64) & 0xff) as u8,
    ];
    assert(v == v >> 0u64) by (bit_vector);
    assert(r@ =~= le_bytes_u64(v));
    r
}

/// Little-endian bytes of a 32-bit signed integer (two's complement).
pub fn i32_to_le(v: i32) -> (r: [u8; 4])
    ensures
        r@ == le_bytes_i32(v),
{
    let w: u64 = (v as u32) as u64;
    let r: [u8; 4] = [
        (w & 0xff) as u8,
        ((w >> 8u64) & 0xff) as u8,
        ((w >> 16u64) & 0xff) as u8,
        ((w >> 24u64) & 0xff) as u8,
    ];
    assert(w == w >> 0u64) by (bit_vector);
    assert(r@ =~= le_bytes_i32(v));
    r
}

/// The word stored little-endian in `b[start..start + 8]`.
pub fn u64_from_le_at(b: &[u8; 64], start: usize) -> (r: u64)
    requires
        start + 8 <= 64,
    ensures
        r == u64_from_le(b@.subrange(start as int, start + 8)),
{
    let s = start;
    (b[s] as u64) | ((b[s + 1] as u64) << 8u64) | ((b[s + 2] as u64) << 16u64) | ((b[s + 3] as u64)
        << 24u64) | ((b[s + 4] as u64) << 32u64) | ((b[s + 5] as u64) << 40u64) | ((b[s
        + 6] as u64) << 48u64) | ((b[s + 7] as u64) << 56u64)
}

/// The eight big-endian bytes of `v`.
pub open spec fn be_bytes_u64(v: u64) -> Seq<u8> {
    seq![
        byte_of(v, 7), byte_of(v, 6), byte_of(v, 5), byte_of(v, 4),
        byte_of(v, 3), byte_of(v, 2), byte_of(v, 1), byte_of(v, 0),
    ]
}

/// Big-endian bytes of a 64-bit word.
pub fn u64_to_be(v: u64) -> (r: [u8; 8])
    ensures
        r@ == be_bytes_u64(v),
{
    let r: [u8; 8] = [
        ((v >> 56u64) & 0xff) as u8,
        ((v >> 48u64) & 0xff) as u8,
        ((v >> 40u64) & 0xff) as u8,
        ((v >> 32u64) & 0xff) as u8,
        ((v >> 24u64) & 0xff) as u8,
        ((v >> 16u64) & 0xff) as u8,
        ((v >> 8u64) & 0xff) as u8,
        (v & 0xff) as u8,
    ];
    assert(v == v >> 0u64) by (bit_vector);
    assert(r@ =~= be_bytes_u64(v));
    r
}

} // verus!