//! The 128-bit register that every vector type of this crate holds, seen as
//! one `u128` with lane 0 in the low bits, and its lane and byte views.
use vstd::prelude::*;
use crate::word::{byte32, byte64, u32_from_le, u64_from_le};

verus! {

/// The eight 16-bit lanes of a register, lane 0 in the low bits.
pub open spec fn lanes16(x: u128) -> Seq<u16> {
    seq![
        x as u16,
        (x >> 16u128) as u16,
        (x >> 32u128) as u16,
        (x >> 48u128) as u16,
        (x >> 64u128) as u16,
        (x >> 80u128) as u16,
        (x >> 96u128) as u16,
        (x >> 112u128) as u16,
    ]
}

/// The four 32-bit lanes of a register, lane 0 in the low bits.
pub open spec fn lanes32(x: u128) -> Seq<u32> {
    seq![x as u32, (x >> 32u128) as u32, (x >> 64u128) as u32, (x >> 96u128) as u32]
}

/// The two 64-bit lanes of a register, lane 0 in the low bits.
pub open spec fn lanes64(x: u128) -> Seq<u64> {
    seq![x as u64, (x >> 64u128) as u64]
}

/// The register whose 32-bit lanes are `l[0..4]`.
pub open spec fn from_lanes32(l: Seq<u32>) -> u128 {
    (l[0] as u128) | ((l[1] as u128) << 32u128) | ((l[2] as u128) << 64u128) | ((l[3] as u128)
        << 96u128)
}

/// The register whose 64-bit lanes are `l[0..2]`.
pub open spec fn from_lanes64(l: Seq<u64>) -> u128 {
    (l[0] as u128) | ((l[1] as u128) << 64u128)
}

/// Four lanes in the order 2, 3, 0, 1.
pub open spec fn order2301<T>(s: Seq<T>) -> Seq<T> {
    seq![s[2], s[3], s[0], s[1]]
}

/// Four lanes in the order 3, 0, 1, 2.
pub open spec fn order1230<T>(s: Seq<T>) -> Seq<T> {
    seq![s[3], s[0], s[1], s[2]]
}

/// Four lanes in the order 1, 2, 3, 0.
pub open spec fn order3012<T>(s: Seq<T>) -> Seq<T> {
    seq![s[1], s[2], s[3], s[0]]
}

/// The sixteen bytes of a register in memory order (little endian).
pub open spec fn bytes16(x: u128) -> Seq<u8> {
    Seq::new(16, |k: int| (x >> ((8 * k) as u128)) as u8)
}

/// The register whose little-endian bytes are `s[0..16]`.
pub open spec fn le_u128(s: Seq<u8>) -> u128 {
    (s[0] as u128) | ((s[1] as u128) << 8u128) | ((s[2] as u128) << 16u128) | ((s[3] as u128)
        << 24u128) | ((s[4] as u128) << 32u128) | ((s[5] as u128) << 40u128) | ((s[6] as u128)
        << 48u128) | ((s[7] as u128) << 56u128) | ((s[8] as u128) << 64u128) | ((s[9] as u128)
        << 72u128) | ((s[10] as u128) << 80u128) | ((s[11] as u128) << 88u128) | ((s[12] as u128)
        << 96u128) | ((s[13] as u128) << 104u128) | ((s[14] as u128) << 112u128) | ((s[15] as u128)
        << 120u128)
}

proof fn lemma_join32(a: u32, b: u32, c: u32, d: u32, r: u128)
    by (bit_vector)
    requires
        r == (a as u128) | ((b as u128) << 32u128) | ((c as u128) << 64u128) | ((d as u128)
            << 96u128),
    ensures
        r as u32 == a,
        (r >> 32u128) as u32 == b,
        (r >> 64u128) as u32 == c,
        (r >> 96u128) as u32 == d,
{
}

proof fn lemma_join64(a: u64, b: u64, r: u128)
    by (bit_vector)
    requires
        r == (a as u128) | ((b as u128) << 64u128),
    ensures
        r as u64 == a,
        (r >> 64u128) as u64 == b,
{
}

proof fn lemma_words_determine(x: u128, y: u128)
    by (bit_vector)
    requires
        x as u32 == y as u32,
        (x >> 32u128) as u32 == (y >> 32u128) as u32,
        (x >> 64u128) as u32 == (y >> 64u128) as u32,
        (x >> 96u128) as u32 == (y >> 96u128) as u32,
    ensures
        x == y,
{
}

proof fn lemma_qwords_determine(x: u128, y: u128)
    by (bit_vector)
    requires
        x as u64 == y as u64,
        (x >> 64u128) as u64 == (y >> 64u128) as u64,
    ensures
        x == y,
{
}

/// The register built from four 32-bit lanes has those lanes.
pub proof fn lemma_lanes32_of_from_lanes32(l: Seq<u32>)
    requires
        l.len() == 4,
    ensures
        lanes32(from_lanes32(l)) == l,
{
    lemma_join32(l[0], l[1], l[2], l[3], from_lanes32(l));
    assert(lanes32(from_lanes32(l)) =~= l);
}

/// The register built from two 64-bit lanes has those lanes.
pub proof fn lemma_lanes64_of_from_lanes64(l: Seq<u64>)
    requires
        l.len() == 2,
    ensures
        lanes64(from_lanes64(l)) == l,
{
    lemma_join64(l[0], l[1], from_lanes64(l));
    assert(lanes64(from_lanes64(l)) =~= l);
}

/// A register is determined by its 32-bit lanes.
pub proof fn lemma_lanes32_injective(x: u128, y: u128)
    requires
        lanes32(x) == lanes32(y),
    ensures
        x == y,
{
    assert(lanes32(x)[0] == lanes32(y)[0]);
    assert(lanes32(x)[1] == lanes32(y)[1]);
    assert(lanes32(x)[2] == lanes32(y)[2]);
    assert(lanes32(x)[3] == lanes32(y)[3]);
    lemma_words_determine(x, y);
}

/// A register is determined by its 64-bit lanes.
pub proof fn lemma_lanes64_injective(x: u128, y: u128)
    requires
        lanes64(x) == lanes64(y),
    ensures
        x == y,
{
    assert(lanes64(x)[0] == lanes64(y)[0]);
    assert(lanes64(x)[1] == lanes64(y)[1]);
    lemma_qwords_determine(x, y);
}

proof fn lemma_le_bytes(
    b0: u8,
    b1: u8,
    b2: u8,
    b3: u8,
    b4: u8,
    b5: u8,
    b6: u8,
    b7: u8,
    b8: u8,
    b9: u8,
    b10: u8,
    b11: u8,
    b12: u8,
    b13: u8,
    b14: u8,
    b15: u8,
    r: u128,
)
    by (bit_vector)
    requires
        r == (b0 as u128) | ((b1 as u128) << 8u128) | ((b2 as u128) << 16u128) | ((b3 as u128)
            << 24u128) | ((b4 as u128) << 32u128) | ((b5 as u128) << 40u128) | ((b6 as u128)
            << 48u128) | ((b7 as u128) << 56u128) | ((b8 as u128) << 64u128) | ((b9 as u128)
            << 72u128) | ((b10 as u128) << 80u128) | ((b11 as u128) << 88u128) | ((b12 as u128)
            << 96u128) | ((b13 as u128) << 104u128) | ((b14 as u128) << 112u128) | ((
        b15 as u128) << 120u128),
    ensures
        (r >> 0u128) as u8 == b0,
        (r >> 8u128) as u8 == b1,
        (r >> 16u128) as u8 == b2,
        (r >> 24u128) as u8 == b3,
        (r >> 32u128) as u8 == b4,
        (r >> 40u128) as u8 == b5,
        (r >> 48u128) as u8 == b6,
        (r >> 56u128) as u8 == b7,
        (r >> 64u128) as u8 == b8,
        (r >> 72u128) as u8 == b9,
        (r >> 80u128) as u8 == b10,
        (r >> 88u128) as u8 == b11,
        (r >> 96u128) as u8 == b12,
        (r >> 104u128) as u8 == b13,
        (r >> 112u128) as u8 == b14,
        (r >> 120u128) as u8 == b15,
{
}

proof fn lemma_le_reassemble(x: u128)
    by (bit_vector)
    ensures
        x == ((x >> 0u128) as u8 as u128) | (((x >> 8u128) as u8 as u128) << 8u128) | (((x
            >> 16u128) as u8 as u128) << 16u128) | (((x >> 24u128) as u8 as u128) << 24u128) | (((
        x >> 32u128) as u8 as u128) << 32u128) | (((x >> 40u128) as u8 as u128) << 40u128) | (((
        x >> 48u128) as u8 as u128) << 48u128) | (((x >> 56u128) as u8 as u128) << 56u128) | (((
        x >> 64u128) as u8 as u128) << 64u128) | (((x >> 72u128) as u8 as u128) << 72u128) | (((
        x >> 80u128) as u8 as u128) << 80u128) | (((x >> 88u128) as u8 as u128) << 88u128) | (((
        x >> 96u128) as u8 as u128) << 96u128) | (((x >> 104u128) as u8 as u128) << 104u128) | (((
        x >> 112u128) as u8 as u128) << 112u128) | (((x >> 120u128) as u8 as u128) << 120u128),
{
}

/// Each byte of a register, by position.
pub proof fn lemma_bytes16_values(x: u128)
    ensures
        bytes16(x)[0] == (x >> 0u128) as u8,
        bytes16(x)[1] == (x >> 8u128) as u8,
        bytes16(x)[2] == (x >> 16u128) as u8,
        bytes16(x)[3] == (x >> 24u128) as u8,
        bytes16(x)[4] == (x >> 32u128) as u8,
        bytes16(x)[5] == (x >> 40u128) as u8,
        bytes16(x)[6] == (x >> 48u128) as u8,
        bytes16(x)[7] == (x >> 56u128) as u8,
        bytes16(x)[8] == (x >> 64u128) as u8,
        bytes16(x)[9] == (x >> 72u128) as u8,
        bytes16(x)[10] == (x >> 80u128) as u8,
        bytes16(x)[11] == (x >> 88u128) as u8,
        bytes16(x)[12] == (x >> 96u128) as u8,
        bytes16(x)[13] == (x >> 104u128) as u8,
        bytes16(x)[14] == (x >> 112u128) as u8,
        bytes16(x)[15] == (x >> 120u128) as u8,
{
}

/// Reading back the bytes of a register in memory order gives the register.
pub proof fn lemma_le_u128_of_bytes(x: u128)
    ensures
        le_u128(bytes16(x)) == x,
{
    lemma_le_reassemble(x);
    lemma_bytes16_values(x);
}

/// The bytes of the register built from sixteen bytes are those bytes.
pub proof fn lemma_bytes_of_le_u128(s: Seq<u8>)
    requires
        s.len() == 16,
    ensures
        bytes16(le_u128(s)) == s,
{
    let r = le_u128(s);
    lemma_le_bytes(
        s[0],
        s[1],
        s[2],
        s[3],
        s[4],
        s[5],
        s[6],
        s[7],
        s[8],
        s[9],
        s[10],
        s[11],
        s[12],
        s[13],
        s[14],
        s[15],
        r,
    );
    let b = bytes16(r);
    assert forall|k: int| 0 <= k < 16 implies b[k] == s[k] by {
        if k == 0 {
        } else if k == 1 {
        } else if k == 2 {
        } else if k == 3 {
        } else if k == 4 {
        } else if k == 5 {
        } else if k == 6 {
        } else if k == 7 {
        } else if k == 8 {
        } else if k == 9 {
        } else if k == 10 {
        } else if k == 11 {
        } else if k == 12 {
        } else if k == 13 {
        } else if k == 14 {
        } else {
        }
    }
    assert(b =~= s);
}

/// Flipping every bit is exclusive-or with all ones.
pub proof fn lemma_xor_ones(x: u128)
    by (bit_vector)
    ensures
        x ^ 0xffff_ffff_ffff_ffff_ffff_ffff_ffff_ffffu128 == !x,
{
}

proof fn lemma_lane_bytes32_bv(x: u128)
    by (bit_vector)
    ensures
        x as u32 == u32_from_le((x >> 0u128) as u8, (x >> 8u128) as u8, (x >> 16u128) as u8, (x >> 24u128) as u8),
        byte32(x as u32, 0) == (x >> 0u128) as u8,
        byte32(x as u32, 1) == (x >> 8u128) as u8,
        byte32(x as u32, 2) == (x >> 16u128) as u8,
        byte32(x as u32, 3) == (x >> 24u128) as u8,
        (x >> 32u128) as u32 == u32_from_le((x >> 32u128) as u8, (x >> 40u128) as u8, (x >> 48u128) as u8, (x >> 56u128) as u8),
        byte32((x >> 32u128) as u32, 0) == (x >> 32u128) as u8,
        byte32((x >> 32u128) as u32, 1) == (x >> 40u128) as u8,
        byte32((x >> 32u128) as u32, 2) == (x >> 48u128) as u8,
        byte32((x >> 32u128) as u32, 3) == (x >> 56u128) as u8,
        (x >> 64u128) as u32 == u32_from_le((x >> 64u128) as u8, (x >> 72u128) as u8, (x >> 80u128) as u8, (x >> 88u128) as u8),
        byte32((x >> 64u128) as u32, 0) == (x >> 64u128) as u8,
        byte32((x >> 64u128) as u32, 1) == (x >> 72u128) as u8,
        byte32((x >> 64u128) as u32, 2) == (x >> 80u128) as u8,
        byte32((x >> 64u128) as u32, 3) == (x >> 88u128) as u8,
        (x >> 96u128) as u32 == u32_from_le((x >> 96u128) as u8, (x >> 104u128) as u8, (x >> 112u128) as u8, (x >> 120u128) as u8),
        byte32((x >> 96u128) as u32, 0) == (x >> 96u128) as u8,
        byte32((x >> 96u128) as u32, 1) == (x >> 104u128) as u8,
        byte32((x >> 96u128) as u32, 2) == (x >> 112u128) as u8,
        byte32((x >> 96u128) as u32, 3) == (x >> 120u128) as u8,
{
}

proof fn lemma_lane_bytes64_bv(x: u128)
    by (bit_vector)
    ensures
        x as u64 == u64_from_le((x >> 0u128) as u8, (x >> 8u128) as u8, (x >> 16u128) as u8, (x >> 24u128) as u8, (x >> 32u128) as u8, (x >> 40u128) as u8, (x >> 48u128) as u8, (x >> 56u128) as u8),
        byte64(x as u64, 0) == (x >> 0u128) as u8,
        byte64(x as u64, 1) == (x >> 8u128) as u8,
        byte64(x as u64, 2) == (x >> 16u128) as u8,
        byte64(x as u64, 3) == (x >> 24u128) as u8,
        byte64(x as u64, 4) == (x >> 32u128) as u8,
        byte64(x as u64, 5) == (x >> 40u128) as u8,
        byte64(x as u64, 6) == (x >> 48u128) as u8,
        byte64(x as u64, 7) == (x >> 56u128) as u8,
        (x >> 64u128) as u64 == u64_from_le((x >> 64u128) as u8, (x >> 72u128) as u8, (x >> 80u128) as u8, (x >> 88u128) as u8, (x >> 96u128) as u8, (x >> 104u128) as u8, (x >> 112u128) as u8, (x >> 120u128) as u8),
        byte64((x >> 64u128) as u64, 0) == (x >> 64u128) as u8,
        byte64((x >> 64u128) as u64, 1) == (x >> 72u128) as u8,
        byte64((x >> 64u128) as u64, 2) == (x >> 80u128) as u8,
        byte64((x >> 64u128) as u64, 3) == (x >> 88u128) as u8,
        byte64((x >> 64u128) as u64, 4) == (x >> 96u128) as u8,
        byte64((x >> 64u128) as u64, 5) == (x >> 104u128) as u8,
        byte64((x >> 64u128) as u64, 6) == (x >> 112u128) as u8,
        byte64((x >> 64u128) as u64, 7) == (x >> 120u128) as u8,
{
}

/// Each 32-bit lane is made of the four bytes it occupies in memory order.
pub proof fn lemma_lanes32_bytes(x: u128)
    ensures
        forall|j: int|
            0 <= j < 4 ==> #[trigger] lanes32(x)[j] == u32_from_le(
                bytes16(x)[4 * j],
                bytes16(x)[4 * j + 1],
                bytes16(x)[4 * j + 2],
                bytes16(x)[4 * j + 3],
            ),
        forall|j: int| 0 <= j < 4 ==> #[trigger] byte32(lanes32(x)[j], 0) == bytes16(x)[4 * j + 0],
        forall|j: int| 0 <= j < 4 ==> #[trigger] byte32(lanes32(x)[j], 1) == bytes16(x)[4 * j + 1],
        forall|j: int| 0 <= j < 4 ==> #[trigger] byte32(lanes32(x)[j], 2) == bytes16(x)[4 * j + 2],
        forall|j: int| 0 <= j < 4 ==> #[trigger] byte32(lanes32(x)[j], 3) == bytes16(x)[4 * j + 3],
{
    lemma_lane_bytes32_bv(x);
    lemma_bytes16_values(x);
}

/// Each 64-bit lane is made of the eight bytes it occupies in memory order.
pub proof fn lemma_lanes64_bytes(x: u128)
    ensures
        forall|j: int|
            0 <= j < 2 ==> #[trigger] lanes64(x)[j] == u64_from_le(
                bytes16(x)[8 * j],
                bytes16(x)[8 * j + 1],
                bytes16(x)[8 * j + 2],
                bytes16(x)[8 * j + 3],
                bytes16(x)[8 * j + 4],
                bytes16(x)[8 * j + 5],
                bytes16(x)[8 * j + 6],
                bytes16(x)[8 * j + 7],
            ),
        forall|j: int| 0 <= j < 2 ==> #[trigger] byte64(lanes64(x)[j], 0) == bytes16(x)[8 * j + 0],
        forall|j: int| 0 <= j < 2 ==> #[trigger] byte64(lanes64(x)[j], 1) == bytes16(x)[8 * j + 1],
        forall|j: int| 0 <= j < 2 ==> #[trigger] byte64(lanes64(x)[j], 2) == bytes16(x)[8 * j + 2],
        forall|j: int| 0 <= j < 2 ==> #[trigger] byte64(lanes64(x)[j], 3) == bytes16(x)[8 * j + 3],
        forall|j: int| 0 <= j < 2 ==> #[trigger] byte64(lanes64(x)[j], 4) == bytes16(x)[8 * j + 4],
        forall|j: int| 0 <= j < 2 ==> #[trigger] byte64(lanes64(x)[j], 5) == bytes16(x)[8 * j + 5],
        forall|j: int| 0 <= j < 2 ==> #[trigger] byte64(lanes64(x)[j], 6) == bytes16(x)[8 * j + 6],
        forall|j: int| 0 <= j < 2 ==> #[trigger] byte64(lanes64(x)[j], 7) == bytes16(x)[8 * j + 7],
{
    lemma_lane_bytes64_bv(x);
    lemma_bytes16_values(x);
}

/// Two registers with the same bytes are equal.
pub proof fn lemma_bytes16_injective(x: u128, y: u128)
    requires
        bytes16(x) == bytes16(y),
    ensures
        x == y,
{
    lemma_le_u128_of_bytes(x);
    lemma_le_u128_of_bytes(y);
}

/// Splits a register into its sixteen bytes in memory order.
pub fn to_bytes16(x: u128) -> (r: [u8; 16])
    ensures
        r@ == bytes16(x),
{
    let mut r = [0u8; 16];
    let mut k: usize = 0;
    while k < 16
        invariant
            0 <= k <= 16,
            forall|j: int| 0 <= j < k ==> r@[j] == bytes16(x)[j],
        decreases 16 - k,
    {
        r[k] = (x >> ((8 * k) as u128)) as u8;
        k = k + 1;
    }
    assert(r@ =~= bytes16(x));
    r
}

proof fn lemma_join16(a0: u16, a1: u16, a2: u16, a3: u16, a4: u16, a5: u16, a6: u16, a7: u16, r: u128)
    by (bit_vector)
    requires
        r == (a0 as u128) | ((a1 as u128) << 16u128) | ((a2 as u128) << 32u128) | ((a3 as u128) << 48u128) | ((a4 as u128) << 64u128) | ((a5 as u128) << 80u128) | ((a6 as u128) << 96u128) | ((a7 as u128) << 112u128),
    ensures
        r as u16 == a0,
        (r >> 16u128) as u16 == a1,
        (r >> 32u128) as u16 == a2,
        (r >> 48u128) as u16 == a3,
        (r >> 64u128) as u16 == a4,
        (r >> 80u128) as u16 == a5,
        (r >> 96u128) as u16 == a6,
        (r >> 112u128) as u16 == a7,
{
}

proof fn lemma_halfwords_determine(x: u128, y: u128)
    by (bit_vector)
    requires
        x as u16 == y as u16,
        (x >> 16u128) as u16 == (y >> 16u128) as u16,
        (x >> 32u128) as u16 == (y >> 32u128) as u16,
        (x >> 48u128) as u16 == (y >> 48u128) as u16,
        (x >> 64u128) as u16 == (y >> 64u128) as u16,
        (x >> 80u128) as u16 == (y >> 80u128) as u16,
        (x >> 96u128) as u16 == (y >> 96u128) as u16,
        (x >> 112u128) as u16 == (y >> 112u128) as u16,
    ensures
        x == y,
{
}

/// A register is determined by its 16-bit lanes.
pub proof fn lemma_lanes16_injective(x: u128, y: u128)
    requires
        lanes16(x) == lanes16(y),
    ensures
        x == y,
{
    assert(lanes16(x)[0] == lanes16(y)[0]);
    assert(lanes16(x)[1] == lanes16(y)[1]);
    assert(lanes16(x)[2] == lanes16(y)[2]);
    assert(lanes16(x)[3] == lanes16(y)[3]);
    assert(lanes16(x)[4] == lanes16(y)[4]);
    assert(lanes16(x)[5] == lanes16(y)[5]);
    assert(lanes16(x)[6] == lanes16(y)[6]);
    assert(lanes16(x)[7] == lanes16(y)[7]);
    lemma_halfwords_determine(x, y);
}

proof fn lemma_lane_bitops_bv(a: u128, b: u128)
    by (bit_vector)
    ensures
        (a | b) as u16 == (a) as u16 | (b) as u16,
        (a & b) as u16 == (a) as u16 & (b) as u16,
        ((a | b) >> 16u128) as u16 == (a >> 16u128) as u16 | (b >> 16u128) as u16,
        ((a & b) >> 16u128) as u16 == (a >> 16u128) as u16 & (b >> 16u128) as u16,
        ((a | b) >> 32u128) as u16 == (a >> 32u128) as u16 | (b >> 32u128) as u16,
        ((a & b) >> 32u128) as u16 == (a >> 32u128) as u16 & (b >> 32u128) as u16,
        ((a | b) >> 48u128) as u16 == (a >> 48u128) as u16 | (b >> 48u128) as u16,
        ((a & b) >> 48u128) as u16 == (a >> 48u128) as u16 & (b >> 48u128) as u16,
        ((a | b) >> 64u128) as u16 == (a >> 64u128) as u16 | (b >> 64u128) as u16,
        ((a & b) >> 64u128) as u16 == (a >> 64u128) as u16 & (b >> 64u128) as u16,
        ((a | b) >> 80u128) as u16 == (a >> 80u128) as u16 | (b >> 80u128) as u16,
        ((a & b) >> 80u128) as u16 == (a >> 80u128) as u16 & (b >> 80u128) as u16,
        ((a | b) >> 96u128) as u16 == (a >> 96u128) as u16 | (b >> 96u128) as u16,
        ((a & b) >> 96u128) as u16 == (a >> 96u128) as u16 & (b >> 96u128) as u16,
        ((a | b) >> 112u128) as u16 == (a >> 112u128) as u16 | (b >> 112u128) as u16,
        ((a & b) >> 112u128) as u16 == (a >> 112u128) as u16 & (b >> 112u128) as u16,
        ((a | b)) as u32 == ((a) as u32) | ((b) as u32),
        ((a | b) >> 32u128) as u32 == ((a >> 32u128) as u32) | ((b >> 32u128) as u32),
        ((a | b) >> 64u128) as u32 == ((a >> 64u128) as u32) | ((b >> 64u128) as u32),
        ((a | b) >> 96u128) as u32 == ((a >> 96u128) as u32) | ((b >> 96u128) as u32),
        ((a | b)) as u64 == ((a) as u64) | ((b) as u64),
        ((a | b) >> 64u128) as u64 == ((a >> 64u128) as u64) | ((b >> 64u128) as u64),
{
}

/// Bitwise or and and of registers act lane by lane.
pub proof fn lemma_lane_bitops(a: u128, b: u128)
    ensures
        forall|j: int| 0 <= j < 8 ==> #[trigger] lanes16(a | b)[j] == lanes16(a)[j] | lanes16(b)[j],
        forall|j: int| 0 <= j < 8 ==> #[trigger] lanes16(a & b)[j] == lanes16(a)[j] & lanes16(b)[j],
        forall|j: int| 0 <= j < 4 ==> #[trigger] lanes32(a | b)[j] == lanes32(a)[j] | lanes32(b)[j],
        forall|j: int| 0 <= j < 2 ==> #[trigger] lanes64(a | b)[j] == lanes64(a)[j] | lanes64(b)[j],
{
    lemma_lane_bitops_bv(a, b);
    assert forall|j: int| 0 <= j < 8 implies #[trigger] lanes16(a | b)[j] == lanes16(a)[j]
        | lanes16(b)[j] && lanes16(a & b)[j] == lanes16(a)[j] & lanes16(b)[j] by {
        if j == 0 {
        } else if j == 1 {
        } else if j == 2 {
        } else if j == 3 {
        } else if j == 4 {
        } else if j == 5 {
        } else if j == 6 {
        } else {
        }
    }
    assert forall|j: int| 0 <= j < 4 implies #[trigger] lanes32(a | b)[j] == lanes32(a)[j]
        | lanes32(b)[j] by {
        if j == 0 {
        } else if j == 1 {
        } else if j == 2 {
        } else {
        }
    }
    assert forall|j: int| 0 <= j < 2 implies #[trigger] lanes64(a | b)[j] == lanes64(a)[j]
        | lanes64(b)[j] by {
        if j == 0 {
        } else {
        }
    }
}

proof fn lemma_lanes32_halves_bv(x: u128)
    by (bit_vector)
    ensures
        x as u32 == (x as u16 as u32) | (((x >> 16u128) as u16 as u32) << 16u32),
        (x >> 32u128) as u32 == ((x >> 32u128) as u16 as u32) | (((x >> 48u128) as u16 as u32) << 16u32),
        (x >> 64u128) as u32 == ((x >> 64u128) as u16 as u32) | (((x >> 80u128) as u16 as u32) << 16u32),
        (x >> 96u128) as u32 == ((x >> 96u128) as u16 as u32) | (((x >> 112u128) as u16 as u32) << 16u32),
{
}

/// Each 32-bit lane is made of the two 16-bit lanes it covers.
pub proof fn lemma_lanes32_halves(x: u128)
    ensures
        forall|j: int|
            0 <= j < 4 ==> #[trigger] lanes32(x)[j] == (lanes16(x)[2 * j] as u32) | ((lanes16(x)[2
                * j + 1] as u32) << 16u32),
{
    lemma_lanes32_halves_bv(x);
    assert forall|j: int| 0 <= j < 4 implies #[trigger] lanes32(x)[j] == (lanes16(x)[2 * j] as u32)
        | ((lanes16(x)[2 * j + 1] as u32) << 16u32) by {
        if j == 0 {
        } else if j == 1 {
        } else if j == 2 {
        } else {
        }
    }
}

/// Splits a register into its eight 16-bit lanes.
pub fn split16(x: u128) -> (r: [u16; 8])
    ensures
        r@ == lanes16(x),
{
    let r = [
        x as u16,
        (x >> 16u128) as u16,
        (x >> 32u128) as u16,
        (x >> 48u128) as u16,
        (x >> 64u128) as u16,
        (x >> 80u128) as u16,
        (x >> 96u128) as u16,
        (x >> 112u128) as u16,
    ];
    assert(r@ =~= lanes16(x));
    r
}

/// Builds the register whose 16-bit lanes are `l`.
pub fn join16(l: [u16; 8]) -> (r: u128)
    ensures
        lanes16(r) == l@,
{
    let r = (l[0] as u128) | ((l[1] as u128) << 16u128) | ((l[2] as u128) << 32u128) | ((l[3] as u128) << 48u128) | ((l[4] as u128) << 64u128) | ((l[5] as u128) << 80u128) | ((l[6] as u128) << 96u128) | ((l[7] as u128) << 112u128);
    proof {
        lemma_join16(l[0], l[1], l[2], l[3], l[4], l[5], l[6], l[7], r);
        assert(lanes16(r) =~= l@);
    }
    r
}

/// Splits a register into its four 32-bit lanes.
pub fn split32(x: u128) -> (r: [u32; 4])
    ensures
        r@ == lanes32(x),
{
    let r = [x as u32, (x >> 32u128) as u32, (x >> 64u128) as u32, (x >> 96u128) as u32];
    assert(r@ =~= lanes32(x));
    r
}

/// Builds the register whose 32-bit lanes are `l`.
pub fn join32(l: [u32; 4]) -> (r: u128)
    ensures
        lanes32(r) == l@,
        r == from_lanes32(l@),
{
    let r = (l[0] as u128) | ((l[1] as u128) << 32u128) | ((l[2] as u128) << 64u128) | ((
    l[3] as u128) << 96u128);
    proof {
        lemma_join32(l[0], l[1], l[2], l[3], r);
        assert(lanes32(r) =~= l@);
    }
    r
}

/// Splits a register into its two 64-bit lanes.
pub fn split64(x: u128) -> (r: [u64; 2])
    ensures
        r@ == lanes64(x),
{
    let r = [x as u64, (x >> 64u128) as u64];
    assert(r@ =~= lanes64(x));
    r
}

/// Builds the register whose 64-bit lanes are `l`.
pub fn join64(l: [u64; 2]) -> (r: u128)
    ensures
        lanes64(r) == l@,
        r == from_lanes64(l@),
{
    let r = (l[0] as u128) | ((l[1] as u128) << 64u128);
    proof {
        lemma_join64(l[0], l[1], r);
        assert(lanes64(r) =~= l@);
    }
    r
}

/// Loads a register from sixteen bytes in memory order.
pub fn load16(input: &[u8]) -> (r: u128)
    requires
        input@.len() == 16,
    ensures
        r == le_u128(input@),
        bytes16(r) == input@,
{
    let r = (input[0] as u128) | ((input[1] as u128) << 8u128) | ((input[2] as u128) << 16u128)
        | ((input[3] as u128) << 24u128) | ((input[4] as u128) << 32u128) | ((input[5] as u128)
        << 40u128) | ((input[6] as u128) << 48u128) | ((input[7] as u128) << 56u128) | ((
    input[8] as u128) << 64u128) | ((input[9] as u128) << 72u128) | ((input[10] as u128)
        << 80u128) | ((input[11] as u128) << 88u128) | ((input[12] as u128) << 96u128) | ((
    input[13] as u128) << 104u128) | ((input[14] as u128) << 112u128) | ((input[15] as u128)
        << 120u128);
    proof {
        lemma_bytes_of_le_u128(input@);
    }
    r
}

/// Stores a register into sixteen bytes in memory order.
pub fn store16(x: u128, out: &mut [u8])
    requires
        old(out)@.len() == 16,
    ensures
        final(out)@ == bytes16(x),
{
    let mut k: usize = 0;
    while k < 16
        invariant
            0 <= k <= 16,
            out@.len() == 16,
            forall|j: int| 0 <= j < k ==> out@[j] == bytes16(x)[j],
        decreases 16 - k,
    {
        out[k] = (x >> ((8 * k) as u128)) as u8;
        k = k + 1;
    }
    assert(out@ =~= bytes16(x));
}

} // verus!
