//! Properties that relate the operations of the vector types to each other.
use vstd::prelude::*;
use vstd::std_specs::cmp::PartialEqSpec;
use crate::reg::{bytes16, lanes32, lanes64, le_u128, order1230, order2301, order3012};
use crate::soft::x2;
use crate::swar::{bit128, swaps_groups};
use crate::u32x4::u32x4_sse2;
use crate::u64x2::u64x2_sse2;
use crate::u32x4::add_lanes32;
use crate::u64x2::add_lanes64;
use crate::wide::G1;
use crate::word::{bswap32, bswap64, rotr32, rotr64};

verus! {

/// Rotating a 32-bit word right by `n` bits and then by `32 - n` bits gives
/// the word back.
pub proof fn law_rotr32_inverse(a: u32, n: u32)
    requires
        0 < n < 32,
    ensures
        rotr32(rotr32(a, n), (32 - n) as u32) == a,
{
    assert(rotr32(rotr32(a, n), (32 - n) as u32) == a) by (bit_vector)
        requires
            0 < n < 32,
    ;
}

/// Rotating a 64-bit word right by `n` bits and then by `64 - n` bits gives
/// the word back.
pub proof fn law_rotr64_inverse(a: u64, n: u64)
    requires
        0 < n < 64,
    ensures
        rotr64(rotr64(a, n), (64 - n) as u64) == a,
{
    assert(rotr64(rotr64(a, n), (64 - n) as u64) == a) by (bit_vector)
        requires
            0 < n < 64,
    ;
}

/// Reversing the bytes of a 32-bit word twice gives the word back.
pub proof fn law_bswap32_involution(a: u32)
    ensures
        bswap32(bswap32(a)) == a,
{
    assert(bswap32(bswap32(a)) == a) by (bit_vector);
}

/// Reversing the bytes of a 64-bit word twice gives the word back.
pub proof fn law_bswap64_involution(a: u64)
    ensures
        bswap64(bswap64(a)) == a,
{
    assert(bswap64(bswap64(a)) == a) by (bit_vector);
}

proof fn lemma_xor_twice(j: u128, k: u128)
    by (bit_vector)
    requires
        j < 128,
        k < 128,
    ensures
        j ^ k < 128,
        (j ^ k) ^ k == j,
{
}

/// Exchanging the same groups of bits twice gives the register back.
pub proof fn law_swap_involution(x: u128, r: u128, s: u128, k: u128)
    requires
        k < 128,
        swaps_groups(r, x, k),
        swaps_groups(s, r, k),
    ensures
        s == x,
{
    assert forall|j: u128| j < 128 implies #[trigger] bit128(s, j) == bit128(x, j) by {
        lemma_xor_twice(j, k);
        assert(bit128(s, j) == bit128(r, j ^ k));
        assert(bit128(r, j ^ k) == bit128(x, (j ^ k) ^ k));
    }
    crate::swar::lemma_bits_determine(s, x);
}

proof fn lemma_xor_chain(j: u128)
    by (bit_vector)
    requires
        j < 128,
    ensures
        j ^ 64u128 < 128,
        (j ^ 64u128) ^ 32u128 < 128,
        ((j ^ 64u128) ^ 32u128) ^ 16u128 < 128,
        (((j ^ 64u128) ^ 32u128) ^ 16u128) ^ 8u128 < 128,
        ((((j ^ 64u128) ^ 32u128) ^ 16u128) ^ 8u128) ^ 4u128 < 128,
        (((((j ^ 64u128) ^ 32u128) ^ 16u128) ^ 8u128) ^ 4u128) ^ 2u128 < 128,
        ((((((j ^ 64u128) ^ 32u128) ^ 16u128) ^ 8u128) ^ 4u128) ^ 2u128) ^ 1u128 == 127 - j,
{
}

/// Exchanging adjacent groups of 1, 2, 4, 8, 16, 32 and 64 bits in turn
/// reverses the order of the register's 128 bits.
pub proof fn law_swaps_reverse_bits(
    x: u128,
    r1: u128,
    r2: u128,
    r4: u128,
    r8: u128,
    r16: u128,
    r32: u128,
    r64: u128,
)
    requires
        swaps_groups(r1, x, 1),
        swaps_groups(r2, r1, 2),
        swaps_groups(r4, r2, 4),
        swaps_groups(r8, r4, 8),
        swaps_groups(r16, r8, 16),
        swaps_groups(r32, r16, 32),
        swaps_groups(r64, r32, 64),
    ensures
        forall|j: u128| j < 128 ==> #[trigger] bit128(r64, j) == bit128(x, (127 - j) as u128),
{
    assert forall|j: u128| j < 128 implies #[trigger] bit128(r64, j) == bit128(
        x,
        (127 - j) as u128,
    ) by {
        lemma_xor_chain(j);
        let j1 = j ^ 64u128;
        let j2 = j1 ^ 32u128;
        let j3 = j2 ^ 16u128;
        let j4 = j3 ^ 8u128;
        let j5 = j4 ^ 4u128;
        let j6 = j5 ^ 2u128;
        let j7 = j6 ^ 1u128;
        assert(bit128(r64, j) == bit128(r32, j1));
        assert(bit128(r32, j1) == bit128(r16, j2));
        assert(bit128(r16, j2) == bit128(r8, j3));
        assert(bit128(r8, j3) == bit128(r4, j4));
        assert(bit128(r4, j4) == bit128(r2, j5));
        assert(bit128(r2, j5) == bit128(r1, j6));
        assert(bit128(r1, j6) == bit128(x, j7));
    }
}

/// The lane orders 3, 0, 1, 2 and 1, 2, 3, 0 undo each other, and the lane
/// order 2, 3, 0, 1 undoes itself.
pub proof fn law_lane_orders<T>(s: Seq<T>)
    requires
        s.len() == 4,
    ensures
        order1230(order3012(s)) == s,
        order3012(order1230(s)) == s,
        order2301(order2301(s)) == s,
{
    assert(order1230(order3012(s)) =~= s);
    assert(order3012(order1230(s)) =~= s);
    assert(order2301(order2301(s)) =~= s);
}

/// Storing a register to memory and loading it back gives the register back;
/// loading sixteen bytes and storing them back gives the bytes back.
pub proof fn law_bytes_roundtrip(x: u128, s: Seq<u8>)
    requires
        s.len() == 16,
    ensures
        le_u128(bytes16(x)) == x,
        bytes16(le_u128(s)) == s,
{
    crate::reg::lemma_le_u128_of_bytes(x);
    crate::reg::lemma_bytes_of_le_u128(s);
}

/// Reading back big-endian what was written big-endian gives the 32-bit lanes
/// back.
pub proof fn law_be_roundtrip32(v: Seq<u32>, out: Seq<u8>)
    requires
        v.len() == 4,
        out.len() == 16,
        lanes32(le_u128(out)) == v.map_values(|a: u32| bswap32(a)),
    ensures
        lanes32(le_u128(out)).map_values(|a: u32| bswap32(a)) == v,
{
    assert forall|i: int| 0 <= i < 4 implies bswap32(#[trigger] lanes32(le_u128(out))[i]) == v[i] by {
        law_bswap32_involution(v[i]);
    }
    assert(lanes32(le_u128(out)).map_values(|a: u32| bswap32(a)) =~= v);
}

/// Reading back big-endian what was written big-endian gives the 64-bit lanes
/// back.
pub proof fn law_be_roundtrip64(v: Seq<u64>, out: Seq<u8>)
    requires
        v.len() == 2,
        out.len() == 16,
        lanes64(le_u128(out)) == v.map_values(|a: u64| bswap64(a)),
    ensures
        lanes64(le_u128(out)).map_values(|a: u64| bswap64(a)) == v,
{
    assert forall|i: int| 0 <= i < 2 implies bswap64(#[trigger] lanes64(le_u128(out))[i]) == v[i] by {
        law_bswap64_involution(v[i]);
    }
    assert(lanes64(le_u128(out)).map_values(|a: u64| bswap64(a)) =~= v);
}

/// A four-lane 32-bit vector is determined by its lanes, so rebuilding it
/// from its lanes gives it back.
pub proof fn law_u32x4_lanes_determine<S3, S4, NI>(
    a: u32x4_sse2<S3, S4, NI>,
    b: u32x4_sse2<S3, S4, NI>,
)
    requires
        a@ == b@,
    ensures
        a == b,
{
    crate::reg::lemma_lanes32_injective(a.bits(), b.bits());
    u32x4_sse2::<S3, S4, NI>::lemma_from_bits_of_bits(a);
    u32x4_sse2::<S3, S4, NI>::lemma_from_bits_of_bits(b);
}

/// A two-lane 64-bit vector is determined by its lanes, so rebuilding it from
/// its lanes gives it back.
pub proof fn law_u64x2_lanes_determine<S3, S4, NI>(
    a: u64x2_sse2<S3, S4, NI>,
    b: u64x2_sse2<S3, S4, NI>,
)
    requires
        a@ == b@,
    ensures
        a == b,
{
    crate::reg::lemma_lanes64_injective(a.bits(), b.bits());
    u64x2_sse2::<S3, S4, NI>::lemma_from_bits_of_bits(a);
    u64x2_sse2::<S3, S4, NI>::lemma_from_bits_of_bits(b);
}

/// A four-lane 64-bit vector is determined by its lanes, so rebuilding it
/// from its lanes gives it back.
pub proof fn law_u64x4_lanes_determine<S3: Copy, S4: Copy, NI: Copy>(
    a: x2<u64x2_sse2<S3, S4, NI>, G1>,
    b: x2<u64x2_sse2<S3, S4, NI>, G1>,
)
    requires
        a.lanes4() == b.lanes4(),
    ensures
        a == b,
{
    assert(a.0[0]@ =~= a.lanes4().subrange(0, 2));
    assert(b.0[0]@ =~= b.lanes4().subrange(0, 2));
    assert(a.0[1]@ =~= a.lanes4().subrange(2, 4));
    assert(b.0[1]@ =~= b.lanes4().subrange(2, 4));
    law_u64x2_lanes_determine(a.0[0], b.0[0]);
    law_u64x2_lanes_determine(a.0[1], b.0[1]);
    assert(a.0 =~= b.0);
}

/// Two four-lane 32-bit vectors compare equal exactly when their lanes are
/// equal.
pub proof fn law_u32x4_eq_is_lane_equality<S3, S4, NI>(
    a: u32x4_sse2<S3, S4, NI>,
    b: u32x4_sse2<S3, S4, NI>,
)
    ensures
        a.eq_spec(&b) == (a@ == b@),
{
    if a@ == b@ {
        crate::reg::lemma_lanes32_injective(a.bits(), b.bits());
    }
}

/// Two two-lane 64-bit vectors compare equal exactly when their lanes are
/// equal.
pub proof fn law_u64x2_eq_is_lane_equality<S3, S4, NI>(
    a: u64x2_sse2<S3, S4, NI>,
    b: u64x2_sse2<S3, S4, NI>,
)
    ensures
        a.eq_spec(&b) == (a@ == b@),
{
    if a@ == b@ {
        crate::reg::lemma_lanes64_injective(a.bits(), b.bits());
    }
}

/// Lane `i` of the lane-wise sum of two four-lane 32-bit vectors is the
/// wrapping sum of their lanes `i`, and of nothing else.
pub proof fn law_add_lanes32_is_lanewise(a: Seq<u32>, b: Seq<u32>, i: int)
    requires
        a.len() == 4,
        b.len() == 4,
        0 <= i < 4,
    ensures
        add_lanes32(a, b).len() == 4,
        add_lanes32(a, b)[i] == a[i].wrapping_add(b[i]),
        add_lanes32(a, b)[i] as int == (a[i] as int + b[i] as int) % 0x1_0000_0000,
{
}

/// Lane `i` of the lane-wise sum of two two-lane 64-bit vectors is the
/// wrapping sum of their lanes `i`, and of nothing else.
pub proof fn law_add_lanes64_is_lanewise(a: Seq<u64>, b: Seq<u64>, i: int)
    requires
        a.len() == 2,
        b.len() == 2,
        0 <= i < 2,
    ensures
        add_lanes64(a, b).len() == 2,
        add_lanes64(a, b)[i] == a[i].wrapping_add(b[i]),
        add_lanes64(a, b)[i] as int == (a[i] as int + b[i] as int) % 0x1_0000_0000_0000_0000,
{
}

/// Two pairs of two-lane 64-bit vectors compare equal exactly when both of
/// their halves have the same lanes.
pub proof fn law_x2_eq_is_halfwise<S3, S4, NI, G>(
    a: x2<u64x2_sse2<S3, S4, NI>, G>,
    b: x2<u64x2_sse2<S3, S4, NI>, G>,
)
    ensures
        <x2<u64x2_sse2<S3, S4, NI>, G> as PartialEqSpec>::obeys_eq_spec(),
        a.eq_spec(&b) == (a.0[0]@ == b.0[0]@ && a.0[1]@ == b.0[1]@),
{
    law_u64x2_eq_is_lane_equality(a.0[0], b.0[0]);
    law_u64x2_eq_is_lane_equality(a.0[1], b.0[1]);
}

/// The four lanes of a four-lane 64-bit vector are the two lanes of its first
/// register followed by the two lanes of its second.
pub proof fn law_u64x4_lane_layout<S3: Copy, S4: Copy, NI: Copy>(v: x2<u64x2_sse2<S3, S4, NI>, G1>)
    ensures
        v.lanes4().len() == 4,
        v.lanes4()[0] == v.0[0]@[0],
        v.lanes4()[1] == v.0[0]@[1],
        v.lanes4()[2] == v.0[1]@[0],
        v.lanes4()[3] == v.0[1]@[1],
{
}

/// Two four-lane 64-bit vectors compare equal exactly when their four lanes
/// are equal.
pub proof fn law_u64x4_eq_is_lane_equality<S3: Copy, S4: Copy, NI: Copy>(
    a: x2<u64x2_sse2<S3, S4, NI>, G1>,
    b: x2<u64x2_sse2<S3, S4, NI>, G1>,
)
    ensures
        a.eq_spec(&b) == (a.lanes4() == b.lanes4()),
{
    law_x2_eq_is_halfwise(a, b);
    if a.lanes4() == b.lanes4() {
        law_u64x4_lanes_determine(a, b);
    }
    if a.0[0]@ == b.0[0]@ && a.0[1]@ == b.0[1]@ {
        assert(a.lanes4() =~= b.lanes4());
    }
}

} // verus!
