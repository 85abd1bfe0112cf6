//! Operations on single 32- and 64-bit words that the vector types apply in
//! every lane: right rotation and byte-order reversal.
use vstd::prelude::*;

verus! {

/// Rotation of a 32-bit word right by `n` bits, `0 < n < 32`:
/// `(a >> n) | (a << (32 - n))`.
pub open spec fn rotr32(a: u32, n: u32) -> u32 {
    (a >> n) | (a << ((32 - n) as u32))
}

/// Rotation of a 64-bit word right by `n` bits, `0 < n < 64`.
pub open spec fn rotr64(a: u64, n: u64) -> u64 {
    (a >> n) | (a << ((64 - n) as u64))
}

/// The 32-bit word whose little-endian bytes are `b0, b1, b2, b3`.
pub open spec fn u32_from_le(b0: u8, b1: u8, b2: u8, b3: u8) -> u32 {
    (b0 as u32) | ((b1 as u32) << 8u32) | ((b2 as u32) << 16u32) | ((b3 as u32) << 24u32)
}

/// Byte `k` (0 = least significant) of a 32-bit word.
pub open spec fn byte32(a: u32, k: u32) -> u8 {
    (a >> (8 * k) as u32) as u8
}

/// The 32-bit word with the bytes of `a` in reverse order.
pub open spec fn bswap32(a: u32) -> u32 {
    u32_from_le(byte32(a, 3), byte32(a, 2), byte32(a, 1), byte32(a, 0))
}

/// The 64-bit word whose little-endian bytes are `b[0..8]`.
pub open spec fn u64_from_le(
    b0: u8,
    b1: u8,
    b2: u8,
    b3: u8,
    b4: u8,
    b5: u8,
    b6: u8,
    b7: u8,
) -> u64 {
    (b0 as u64) | ((b1 as u64) << 8u64) | ((b2 as u64) << 16u64) | ((b3 as u64) << 24u64) | ((
    b4 as u64) << 32u64) | ((b5 as u64) << 40u64) | ((b6 as u64) << 48u64) | ((b7 as u64)
        << 56u64)
}

/// Byte `k` (0 = least significant) of a 64-bit word.
pub open spec fn byte64(a: u64, k: u64) -> u8 {
    (a >> (8 * k) as u64) as u8
}

/// The 64-bit word with the bytes of `a` in reverse order.
pub open spec fn bswap64(a: u64) -> u64 {
    u64_from_le(
        byte64(a, 7),
        byte64(a, 6),
        byte64(a, 5),
        byte64(a, 4),
        byte64(a, 3),
        byte64(a, 2),
        byte64(a, 1),
        byte64(a, 0),
    )
}

/// Rotating by a whole number of bytes moves whole bytes.
pub proof fn lemma_rotr32_bytes(a: u32)
    by (bit_vector)
    ensures
        rotr32(a, 8) == u32_from_le(byte32(a, 1), byte32(a, 2), byte32(a, 3), byte32(a, 0)),
        rotr32(a, 16) == u32_from_le(byte32(a, 2), byte32(a, 3), byte32(a, 0), byte32(a, 1)),
        rotr32(a, 24) == u32_from_le(byte32(a, 3), byte32(a, 0), byte32(a, 1), byte32(a, 2)),
{
}

/// Rotating by a whole number of bytes moves whole bytes.
pub proof fn lemma_rotr64_bytes(a: u64)
    by (bit_vector)
    ensures
        rotr64(a, 8) == u64_from_le(
            byte64(a, 1),
            byte64(a, 2),
            byte64(a, 3),
            byte64(a, 4),
            byte64(a, 5),
            byte64(a, 6),
            byte64(a, 7),
            byte64(a, 0),
        ),
        rotr64(a, 16) == u64_from_le(
            byte64(a, 2),
            byte64(a, 3),
            byte64(a, 4),
            byte64(a, 5),
            byte64(a, 6),
            byte64(a, 7),
            byte64(a, 0),
            byte64(a, 1),
        ),
        rotr64(a, 24) == u64_from_le(
            byte64(a, 3),
            byte64(a, 4),
            byte64(a, 5),
            byte64(a, 6),
            byte64(a, 7),
            byte64(a, 0),
            byte64(a, 1),
            byte64(a, 2),
        ),
{
}

/// The two 32-bit halves of the 64-bit word assembled from them.
pub proof fn lemma_u64_halves(a: u32, b: u32)
    by (bit_vector)
    ensures
        ((a as u64) | ((b as u64) << 32u64)) as u32 == a,
        (((a as u64) | ((b as u64) << 32u64)) >> 32u64) as u32 == b,
{
}

} // verus!
