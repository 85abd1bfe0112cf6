//! Register-wide bit manipulations that act on every lane at once, each
//! written with shifts and lane masks over the whole 128-bit register.
use vstd::prelude::*;
use crate::reg::{bytes16, lanes16, lanes32, lanes64, split32, join32, split64, join64, load16, to_bytes16};
use crate::lane16::{
    interleave_hi_bytes,
    interleave_lo_bytes,
    pack_saturate16,
    shuffle_hi16,
    shuffle_lo16,
    shl16,
    shr16,
    u16_from_bytes,
};
use crate::word::{bswap32, bswap64, rotr32, rotr64, u32_from_le, u64_from_le};

verus! {

/// Bit `j` (0 = least significant) of a register.
pub open spec fn bit128(x: u128, j: u128) -> bool {
    (x >> j) & 1u128 == 1u128
}

/// Every bit `j` of `r` is bit `j ^ k` of `x`: the register with each pair of
/// adjacent `k`-bit groups exchanged (`k` a power of two below 128).
pub open spec fn swaps_groups(r: u128, x: u128, k: u128) -> bool {
    forall|j: u128| j < 128 ==> #[trigger] bit128(r, j) == bit128(x, j ^ k)
}

proof fn lemma_bits_determine_bv(x: u128, y: u128)
    by (bit_vector)
    requires
        (((x >> 0u128) & 1u128) == 1u128) == (((y >> 0u128) & 1u128) == 1u128),
        (((x >> 1u128) & 1u128) == 1u128) == (((y >> 1u128) & 1u128) == 1u128),
        (((x >> 2u128) & 1u128) == 1u128) == (((y >> 2u128) & 1u128) == 1u128),
        (((x >> 3u128) & 1u128) == 1u128) == (((y >> 3u128) & 1u128) == 1u128),
        (((x >> 4u128) & 1u128) == 1u128) == (((y >> 4u128) & 1u128) == 1u128),
        (((x >> 5u128) & 1u128) == 1u128) == (((y >> 5u128) & 1u128) == 1u128),
        (((x >> 6u128) & 1u128) == 1u128) == (((y >> 6u128) & 1u128) == 1u128),
        (((x >> 7u128) & 1u128) == 1u128) == (((y >> 7u128) & 1u128) == 1u128),
        (((x >> 8u128) & 1u128) == 1u128) == (((y >> 8u128) & 1u128) == 1u128),
        (((x >> 9u128) & 1u128) == 1u128) == (((y >> 9u128) & 1u128) == 1u128),
        (((x >> 10u128) & 1u128) == 1u128) == (((y >> 10u128) & 1u128) == 1u128),
        (((x >> 11u128) & 1u128) == 1u128) == (((y >> 11u128) & 1u128) == 1u128),
        (((x >> 12u128) & 1u128) == 1u128) == (((y >> 12u128) & 1u128) == 1u128),
        (((x >> 13u128) & 1u128) == 1u128) == (((y >> 13u128) & 1u128) == 1u128),
        (((x >> 14u128) & 1u128) == 1u128) == (((y >> 14u128) & 1u128) == 1u128),
        (((x >> 15u128) & 1u128) == 1u128) == (((y >> 15u128) & 1u128) == 1u128),
        (((x >> 16u128) & 1u128) == 1u128) == (((y >> 16u128) & 1u128) == 1u128),
        (((x >> 17u128) & 1u128) == 1u128) == (((y >> 17u128) & 1u128) == 1u128),
        (((x >> 18u128) & 1u128) == 1u128) == (((y >> 18u128) & 1u128) == 1u128),
        (((x >> 19u128) & 1u128) == 1u128) == (((y >> 19u128) & 1u128) == 1u128),
        (((x >> 20u128) & 1u128) == 1u128) == (((y >> 20u128) & 1u128) == 1u128),
        (((x >> 21u128) & 1u128) == 1u128) == (((y >> 21u128) & 1u128) == 1u128),
        (((x >> 22u128) & 1u128) == 1u128) == (((y >> 22u128) & 1u128) == 1u128),
        (((x >> 23u128) & 1u128) == 1u128) == (((y >> 23u128) & 1u128) == 1u128),
        (((x >> 24u128) & 1u128) == 1u128) == (((y >> 24u128) & 1u128) == 1u128),
        (((x >> 25u128) & 1u128) == 1u128) == (((y >> 25u128) & 1u128) == 1u128),
        (((x >> 26u128) & 1u128) == 1u128) == (((y >> 26u128) & 1u128) == 1u128),
        (((x >> 27u128) & 1u128) == 1u128) == (((y >> 27u128) & 1u128) == 1u128),
        (((x >> 28u128) & 1u128) == 1u128) == (((y >> 28u128) & 1u128) == 1u128),
        (((x >> 29u128) & 1u128) == 1u128) == (((y >> 29u128) & 1u128) == 1u128),
        (((x >> 30u128) & 1u128) == 1u128) == (((y >> 30u128) & 1u128) == 1u128),
        (((x >> 31u128) & 1u128) == 1u128) == (((y >> 31u128) & 1u128) == 1u128),
        (((x >> 32u128) & 1u128) == 1u128) == (((y >> 32u128) & 1u128) == 1u128),
        (((x >> 33u128) & 1u128) == 1u128) == (((y >> 33u128) & 1u128) == 1u128),
        (((x >> 34u128) & 1u128) == 1u128) == (((y >> 34u128) & 1u128) == 1u128),
        (((x >> 35u128) & 1u128) == 1u128) == (((y >> 35u128) & 1u128) == 1u128),
        (((x >> 36u128) & 1u128) == 1u128) == (((y >> 36u128) & 1u128) == 1u128),
        (((x >> 37u128) & 1u128) == 1u128) == (((y >> 37u128) & 1u128) == 1u128),
        (((x >> 38u128) & 1u128) == 1u128) == (((y >> 38u128) & 1u128) == 1u128),
        (((x >> 39u128) & 1u128) == 1u128) == (((y >> 39u128) & 1u128) == 1u128),
        (((x >> 40u128) & 1u128) == 1u128) == (((y >> 40u128) & 1u128) == 1u128),
        (((x >> 41u128) & 1u128) == 1u128) == (((y >> 41u128) & 1u128) == 1u128),
        (((x >> 42u128) & 1u128) == 1u128) == (((y >> 42u128) & 1u128) == 1u128),
        (((x >> 43u128) & 1u128) == 1u128) == (((y >> 43u128) & 1u128) == 1u128),
        (((x >> 44u128) & 1u128) == 1u128) == (((y >> 44u128) & 1u128) == 1u128),
        (((x >> 45u128) & 1u128) == 1u128) == (((y >> 45u128) & 1u128) == 1u128),
        (((x >> 46u128) & 1u128) == 1u128) == (((y >> 46u128) & 1u128) == 1u128),
        (((x >> 47u128) & 1u128) == 1u128) == (((y >> 47u128) & 1u128) == 1u128),
        (((x >> 48u128) & 1u128) == 1u128) == (((y >> 48u128) & 1u128) == 1u128),
        (((x >> 49u128) & 1u128) == 1u128) == (((y >> 49u128) & 1u128) == 1u128),
        (((x >> 50u128) & 1u128) == 1u128) == (((y >> 50u128) & 1u128) == 1u128),
        (((x >> 51u128) & 1u128) == 1u128) == (((y >> 51u128) & 1u128) == 1u128),
        (((x >> 52u128) & 1u128) == 1u128) == (((y >> 52u128) & 1u128) == 1u128),
        (((x >> 53u128) & 1u128) == 1u128) == (((y >> 53u128) & 1u128) == 1u128),
        (((x >> 54u128) & 1u128) == 1u128) == (((y >> 54u128) & 1u128) == 1u128),
        (((x >> 55u128) & 1u128) == 1u128) == (((y >> 55u128) & 1u128) == 1u128),
        (((x >> 56u128) & 1u128) == 1u128) == (((y >> 56u128) & 1u128) == 1u128),
        (((x >> 57u128) & 1u128) == 1u128) == (((y >> 57u128) & 1u128) == 1u128),
        (((x >> 58u128) & 1u128) == 1u128) == (((y >> 58u128) & 1u128) == 1u128),
        (((x >> 59u128) & 1u128) == 1u128) == (((y >> 59u128) & 1u128) == 1u128),
        (((x >> 60u128) & 1u128) == 1u128) == (((y >> 60u128) & 1u128) == 1u128),
        (((x >> 61u128) & 1u128) == 1u128) == (((y >> 61u128) & 1u128) == 1u128),
        (((x >> 62u128) & 1u128) == 1u128) == (((y >> 62u128) & 1u128) == 1u128),
        (((x >> 63u128) & 1u128) == 1u128) == (((y >> 63u128) & 1u128) == 1u128),
        (((x >> 64u128) & 1u128) == 1u128) == (((y >> 64u128) & 1u128) == 1u128),
        (((x >> 65u128) & 1u128) == 1u128) == (((y >> 65u128) & 1u128) == 1u128),
        (((x >> 66u128) & 1u128) == 1u128) == (((y >> 66u128) & 1u128) == 1u128),
        (((x >> 67u128) & 1u128) == 1u128) == (((y >> 67u128) & 1u128) == 1u128),
        (((x >> 68u128) & 1u128) == 1u128) == (((y >> 68u128) & 1u128) == 1u128),
        (((x >> 69u128) & 1u128) == 1u128) == (((y >> 69u128) & 1u128) == 1u128),
        (((x >> 70u128) & 1u128) == 1u128) == (((y >> 70u128) & 1u128) == 1u128),
        (((x >> 71u128) & 1u128) == 1u128) == (((y >> 71u128) & 1u128) == 1u128),
        (((x >> 72u128) & 1u128) == 1u128) == (((y >> 72u128) & 1u128) == 1u128),
        (((x >> 73u128) & 1u128) == 1u128) == (((y >> 73u128) & 1u128) == 1u128),
        (((x >> 74u128) & 1u128) == 1u128) == (((y >> 74u128) & 1u128) == 1u128),
        (((x >> 75u128) & 1u128) == 1u128) == (((y >> 75u128) & 1u128) == 1u128),
        (((x >> 76u128) & 1u128) == 1u128) == (((y >> 76u128) & 1u128) == 1u128),
        (((x >> 77u128) & 1u128) == 1u128) == (((y >> 77u128) & 1u128) == 1u128),
        (((x >> 78u128) & 1u128) == 1u128) == (((y >> 78u128) & 1u128) == 1u128),
        (((x >> 79u128) & 1u128) == 1u128) == (((y >> 79u128) & 1u128) == 1u128),
        (((x >> 80u128) & 1u128) == 1u128) == (((y >> 80u128) & 1u128) == 1u128),
        (((x >> 81u128) & 1u128) == 1u128) == (((y >> 81u128) & 1u128) == 1u128),
        (((x >> 82u128) & 1u128) == 1u128) == (((y >> 82u128) & 1u128) == 1u128),
        (((x >> 83u128) & 1u128) == 1u128) == (((y >> 83u128) & 1u128) == 1u128),
        (((x >> 84u128) & 1u128) == 1u128) == (((y >> 84u128) & 1u128) == 1u128),
        (((x >> 85u128) & 1u128) == 1u128) == (((y >> 85u128) & 1u128) == 1u128),
        (((x >> 86u128) & 1u128) == 1u128) == (((y >> 86u128) & 1u128) == 1u128),
        (((x >> 87u128) & 1u128) == 1u128) == (((y >> 87u128) & 1u128) == 1u128),
        (((x >> 88u128) & 1u128) == 1u128) == (((y >> 88u128) & 1u128) == 1u128),
        (((x >> 89u128) & 1u128) == 1u128) == (((y >> 89u128) & 1u128) == 1u128),
        (((x >> 90u128) & 1u128) == 1u128) == (((y >> 90u128) & 1u128) == 1u128),
        (((x >> 91u128) & 1u128) == 1u128) == (((y >> 91u128) & 1u128) == 1u128),
        (((x >> 92u128) & 1u128) == 1u128) == (((y >> 92u128) & 1u128) == 1u128),
        (((x >> 93u128) & 1u128) == 1u128) == (((y >> 93u128) & 1u128) == 1u128),
        (((x >> 94u128) & 1u128) == 1u128) == (((y >> 94u128) & 1u128) == 1u128),
        (((x >> 95u128) & 1u128) == 1u128) == (((y >> 95u128) & 1u128) == 1u128),
        (((x >> 96u128) & 1u128) == 1u128) == (((y >> 96u128) & 1u128) == 1u128),
        (((x >> 97u128) & 1u128) == 1u128) == (((y >> 97u128) & 1u128) == 1u128),
        (((x >> 98u128) & 1u128) == 1u128) == (((y >> 98u128) & 1u128) == 1u128),
        (((x >> 99u128) & 1u128) == 1u128) == (((y >> 99u128) & 1u128) == 1u128),
        (((x >> 100u128) & 1u128) == 1u128) == (((y >> 100u128) & 1u128) == 1u128),
        (((x >> 101u128) & 1u128) == 1u128) == (((y >> 101u128) & 1u128) == 1u128),
        (((x >> 102u128) & 1u128) == 1u128) == (((y >> 102u128) & 1u128) == 1u128),
        (((x >> 103u128) & 1u128) == 1u128) == (((y >> 103u128) & 1u128) == 1u128),
        (((x >> 104u128) & 1u128) == 1u128) == (((y >> 104u128) & 1u128) == 1u128),
        (((x >> 105u128) & 1u128) == 1u128) == (((y >> 105u128) & 1u128) == 1u128),
        (((x >> 106u128) & 1u128) == 1u128) == (((y >> 106u128) & 1u128) == 1u128),
        (((x >> 107u128) & 1u128) == 1u128) == (((y >> 107u128) & 1u128) == 1u128),
        (((x >> 108u128) & 1u128) == 1u128) == (((y >> 108u128) & 1u128) == 1u128),
        (((x >> 109u128) & 1u128) == 1u128) == (((y >> 109u128) & 1u128) == 1u128),
        (((x >> 110u128) & 1u128) == 1u128) == (((y >> 110u128) & 1u128) == 1u128),
        (((x >> 111u128) & 1u128) == 1u128) == (((y >> 111u128) & 1u128) == 1u128),
        (((x >> 112u128) & 1u128) == 1u128) == (((y >> 112u128) & 1u128) == 1u128),
        (((x >> 113u128) & 1u128) == 1u128) == (((y >> 113u128) & 1u128) == 1u128),
        (((x >> 114u128) & 1u128) == 1u128) == (((y >> 114u128) & 1u128) == 1u128),
        (((x >> 115u128) & 1u128) == 1u128) == (((y >> 115u128) & 1u128) == 1u128),
        (((x >> 116u128) & 1u128) == 1u128) == (((y >> 116u128) & 1u128) == 1u128),
        (((x >> 117u128) & 1u128) == 1u128) == (((y >> 117u128) & 1u128) == 1u128),
        (((x >> 118u128) & 1u128) == 1u128) == (((y >> 118u128) & 1u128) == 1u128),
        (((x >> 119u128) & 1u128) == 1u128) == (((y >> 119u128) & 1u128) == 1u128),
        (((x >> 120u128) & 1u128) == 1u128) == (((y >> 120u128) & 1u128) == 1u128),
        (((x >> 121u128) & 1u128) == 1u128) == (((y >> 121u128) & 1u128) == 1u128),
        (((x >> 122u128) & 1u128) == 1u128) == (((y >> 122u128) & 1u128) == 1u128),
        (((x >> 123u128) & 1u128) == 1u128) == (((y >> 123u128) & 1u128) == 1u128),
        (((x >> 124u128) & 1u128) == 1u128) == (((y >> 124u128) & 1u128) == 1u128),
        (((x >> 125u128) & 1u128) == 1u128) == (((y >> 125u128) & 1u128) == 1u128),
        (((x >> 126u128) & 1u128) == 1u128) == (((y >> 126u128) & 1u128) == 1u128),
        (((x >> 127u128) & 1u128) == 1u128) == (((y >> 127u128) & 1u128) == 1u128),
    ensures
        x == y,
{
}

/// Two registers with the same 128 bits are equal.
pub proof fn lemma_bits_determine(x: u128, y: u128)
    requires
        forall|j: u128| j < 128 ==> #[trigger] bit128(x, j) == bit128(y, j),
    ensures
        x == y,
{
    assert(bit128(x, 0) == bit128(y, 0));
    assert(bit128(x, 1) == bit128(y, 1));
    assert(bit128(x, 2) == bit128(y, 2));
    assert(bit128(x, 3) == bit128(y, 3));
    assert(bit128(x, 4) == bit128(y, 4));
    assert(bit128(x, 5) == bit128(y, 5));
    assert(bit128(x, 6) == bit128(y, 6));
    assert(bit128(x, 7) == bit128(y, 7));
    assert(bit128(x, 8) == bit128(y, 8));
    assert(bit128(x, 9) == bit128(y, 9));
    assert(bit128(x, 10) == bit128(y, 10));
    assert(bit128(x, 11) == bit128(y, 11));
    assert(bit128(x, 12) == bit128(y, 12));
    assert(bit128(x, 13) == bit128(y, 13));
    assert(bit128(x, 14) == bit128(y, 14));
    assert(bit128(x, 15) == bit128(y, 15));
    assert(bit128(x, 16) == bit128(y, 16));
    assert(bit128(x, 17) == bit128(y, 17));
    assert(bit128(x, 18) == bit128(y, 18));
    assert(bit128(x, 19) == bit128(y, 19));
    assert(bit128(x, 20) == bit128(y, 20));
    assert(bit128(x, 21) == bit128(y, 21));
    assert(bit128(x, 22) == bit128(y, 22));
    assert(bit128(x, 23) == bit128(y, 23));
    assert(bit128(x, 24) == bit128(y, 24));
    assert(bit128(x, 25) == bit128(y, 25));
    assert(bit128(x, 26) == bit128(y, 26));
    assert(bit128(x, 27) == bit128(y, 27));
    assert(bit128(x, 28) == bit128(y, 28));
    assert(bit128(x, 29) == bit128(y, 29));
    assert(bit128(x, 30) == bit128(y, 30));
    assert(bit128(x, 31) == bit128(y, 31));
    assert(bit128(x, 32) == bit128(y, 32));
    assert(bit128(x, 33) == bit128(y, 33));
    assert(bit128(x, 34) == bit128(y, 34));
    assert(bit128(x, 35) == bit128(y, 35));
    assert(bit128(x, 36) == bit128(y, 36));
    assert(bit128(x, 37) == bit128(y, 37));
    assert(bit128(x, 38) == bit128(y, 38));
    assert(bit128(x, 39) == bit128(y, 39));
    assert(bit128(x, 40) == bit128(y, 40));
    assert(bit128(x, 41) == bit128(y, 41));
    assert(bit128(x, 42) == bit128(y, 42));
    assert(bit128(x, 43) == bit128(y, 43));
    assert(bit128(x, 44) == bit128(y, 44));
    assert(bit128(x, 45) == bit128(y, 45));
    assert(bit128(x, 46) == bit128(y, 46));
    assert(bit128(x, 47) == bit128(y, 47));
    assert(bit128(x, 48) == bit128(y, 48));
    assert(bit128(x, 49) == bit128(y, 49));
    assert(bit128(x, 50) == bit128(y, 50));
    assert(bit128(x, 51) == bit128(y, 51));
    assert(bit128(x, 52) == bit128(y, 52));
    assert(bit128(x, 53) == bit128(y, 53));
    assert(bit128(x, 54) == bit128(y, 54));
    assert(bit128(x, 55) == bit128(y, 55));
    assert(bit128(x, 56) == bit128(y, 56));
    assert(bit128(x, 57) == bit128(y, 57));
    assert(bit128(x, 58) == bit128(y, 58));
    assert(bit128(x, 59) == bit128(y, 59));
    assert(bit128(x, 60) == bit128(y, 60));
    assert(bit128(x, 61) == bit128(y, 61));
    assert(bit128(x, 62) == bit128(y, 62));
    assert(bit128(x, 63) == bit128(y, 63));
    assert(bit128(x, 64) == bit128(y, 64));
    assert(bit128(x, 65) == bit128(y, 65));
    assert(bit128(x, 66) == bit128(y, 66));
    assert(bit128(x, 67) == bit128(y, 67));
    assert(bit128(x, 68) == bit128(y, 68));
    assert(bit128(x, 69) == bit128(y, 69));
    assert(bit128(x, 70) == bit128(y, 70));
    assert(bit128(x, 71) == bit128(y, 71));
    assert(bit128(x, 72) == bit128(y, 72));
    assert(bit128(x, 73) == bit128(y, 73));
    assert(bit128(x, 74) == bit128(y, 74));
    assert(bit128(x, 75) == bit128(y, 75));
    assert(bit128(x, 76) == bit128(y, 76));
    assert(bit128(x, 77) == bit128(y, 77));
    assert(bit128(x, 78) == bit128(y, 78));
    assert(bit128(x, 79) == bit128(y, 79));
    assert(bit128(x, 80) == bit128(y, 80));
    assert(bit128(x, 81) == bit128(y, 81));
    assert(bit128(x, 82) == bit128(y, 82));
    assert(bit128(x, 83) == bit128(y, 83));
    assert(bit128(x, 84) == bit128(y, 84));
    assert(bit128(x, 85) == bit128(y, 85));
    assert(bit128(x, 86) == bit128(y, 86));
    assert(bit128(x, 87) == bit128(y, 87));
    assert(bit128(x, 88) == bit128(y, 88));
    assert(bit128(x, 89) == bit128(y, 89));
    assert(bit128(x, 90) == bit128(y, 90));
    assert(bit128(x, 91) == bit128(y, 91));
    assert(bit128(x, 92) == bit128(y, 92));
    assert(bit128(x, 93) == bit128(y, 93));
    assert(bit128(x, 94) == bit128(y, 94));
    assert(bit128(x, 95) == bit128(y, 95));
    assert(bit128(x, 96) == bit128(y, 96));
    assert(bit128(x, 97) == bit128(y, 97));
    assert(bit128(x, 98) == bit128(y, 98));
    assert(bit128(x, 99) == bit128(y, 99));
    assert(bit128(x, 100) == bit128(y, 100));
    assert(bit128(x, 101) == bit128(y, 101));
    assert(bit128(x, 102) == bit128(y, 102));
    assert(bit128(x, 103) == bit128(y, 103));
    assert(bit128(x, 104) == bit128(y, 104));
    assert(bit128(x, 105) == bit128(y, 105));
    assert(bit128(x, 106) == bit128(y, 106));
    assert(bit128(x, 107) == bit128(y, 107));
    assert(bit128(x, 108) == bit128(y, 108));
    assert(bit128(x, 109) == bit128(y, 109));
    assert(bit128(x, 110) == bit128(y, 110));
    assert(bit128(x, 111) == bit128(y, 111));
    assert(bit128(x, 112) == bit128(y, 112));
    assert(bit128(x, 113) == bit128(y, 113));
    assert(bit128(x, 114) == bit128(y, 114));
    assert(bit128(x, 115) == bit128(y, 115));
    assert(bit128(x, 116) == bit128(y, 116));
    assert(bit128(x, 117) == bit128(y, 117));
    assert(bit128(x, 118) == bit128(y, 118));
    assert(bit128(x, 119) == bit128(y, 119));
    assert(bit128(x, 120) == bit128(y, 120));
    assert(bit128(x, 121) == bit128(y, 121));
    assert(bit128(x, 122) == bit128(y, 122));
    assert(bit128(x, 123) == bit128(y, 123));
    assert(bit128(x, 124) == bit128(y, 124));
    assert(bit128(x, 125) == bit128(y, 125));
    assert(bit128(x, 126) == bit128(y, 126));
    assert(bit128(x, 127) == bit128(y, 127));
    lemma_bits_determine_bv(x, y);
}

proof fn lemma_bswap32_lanes(x: u128, r: u128)
    by (bit_vector)
    requires
        r == ((x & 0x000000ff_000000ff_000000ff_000000ffu128) << 24u128) | ((x
            & 0x0000ff00_0000ff00_0000ff00_0000ff00u128) << 8u128) | ((x >> 8u128)
            & 0x0000ff00_0000ff00_0000ff00_0000ff00u128) | ((x >> 24u128)
            & 0x000000ff_000000ff_000000ff_000000ffu128),
    ensures
        r as u32 == bswap32(x as u32),
        (r >> 32u128) as u32 == bswap32((x >> 32u128) as u32),
        (r >> 64u128) as u32 == bswap32((x >> 64u128) as u32),
        (r >> 96u128) as u32 == bswap32((x >> 96u128) as u32),
{
}

proof fn lemma_zero_bytes_bv(c: u128)
    by (bit_vector)
    ensures
        (0u128 >> c) as u8 == 0u8,
{
}

proof fn lemma_byte_widens(b: u8)
    by (bit_vector)
    ensures
        u16_from_bytes(b, 0) == b as u16,
{
}

/// Reverses the byte order of each 32-bit lane: widens the bytes of each
/// half of the register to 16-bit lanes, reverses each group of four 16-bit
/// lanes, and packs the lanes back to bytes.
pub fn bswap32_s2(x: u128) -> (r: u128)
    ensures
        lanes32(r) == lanes32(x).map_values(|a: u32| bswap32(a)),
{
    let zero: u128 = 0;
    let mut y = interleave_lo_bytes(x, zero);
    y = shuffle_hi16(y, 0b0001_1011);
    y = shuffle_lo16(y, 0b0001_1011);
    let mut z = interleave_hi_bytes(x, zero);
    z = shuffle_hi16(z, 0b0001_1011);
    z = shuffle_lo16(z, 0b0001_1011);
    let r = pack_saturate16(y, z);
    proof {
        let bx = bytes16(x);
        assert forall|i: int| 0 <= i < 16 implies #[trigger] bytes16(zero)[i] == 0u8 by {
            lemma_zero_bytes_bv((8 * i) as u128);
        }
        assert forall|i: int| 0 <= i < 16 implies u16_from_bytes(#[trigger] bx[i], 0) == bx[i] as u16 by {
            lemma_byte_widens(bx[i]);
        }
        assert forall|i: int| 0 <= i < 16 implies #[trigger] bytes16(r)[i] == bx[4 * (i / 4) + 3 - i
            % 4] by {
            if i == 0 {
            } else if i == 1 {
            } else if i == 2 {
            } else if i == 3 {
            } else if i == 4 {
            } else if i == 5 {
            } else if i == 6 {
            } else if i == 7 {
            } else if i == 8 {
            } else if i == 9 {
            } else if i == 10 {
            } else if i == 11 {
            } else if i == 12 {
            } else if i == 13 {
            } else if i == 14 {
            } else {
            }
        }
        crate::reg::lemma_lanes32_bytes(r);
        crate::reg::lemma_lanes32_bytes(x);
        assert forall|j: int| 0 <= j < 4 implies #[trigger] lanes32(r)[j] == bswap32(lanes32(x)[j]) by {
            if j == 0 {
            } else if j == 1 {
            } else if j == 2 {
            } else {
            }
        }
        assert(lanes32(r) =~= lanes32(x).map_values(|a: u32| bswap32(a)));
    }
    r
}

/// What exchanging the 16-bit halves of each 32-bit lane does to the lanes
/// and to the bits.
pub proof fn lemma_swap16_lanes(x: u128, r: u128)
    by (bit_vector)
    requires
        r == ((x << 16u128) & 0xffff0000_ffff0000_ffff0000_ffff0000u128) | ((x >> 16u128)
            & 0x0000ffff_0000ffff_0000ffff_0000ffffu128),
    ensures
        r as u32 == rotr32(x as u32, 16),
        (r >> 32u128) as u32 == rotr32((x >> 32u128) as u32, 16),
        (r >> 64u128) as u32 == rotr32((x >> 64u128) as u32, 16),
        (r >> 96u128) as u32 == rotr32((x >> 96u128) as u32, 16),
        forall|j: u128| j < 128 ==> #[trigger] ((r >> j) & 1u128) == ((x >> (j ^ 16u128)) & 1u128),
{
}

proof fn lemma_halves_rotate(a: u16, b: u16)
    by (bit_vector)
    ensures
        rotr32((a as u32) | ((b as u32) << 16u32), 16) == (b as u32) | ((a as u32) << 16u32),
{
}

/// Exchanges the two 16-bit halves of each 32-bit lane: swaps adjacent
/// 16-bit lanes in the low half of the register, then in the high half.
pub fn swap16_s2(x: u128) -> (r: u128)
    ensures
        lanes32(r) == lanes32(x).map_values(|a: u32| rotr32(a, 16)),
        swaps_groups(r, x, 16),
{
    let r = shuffle_hi16(shuffle_lo16(x, 0b1011_0001), 0b1011_0001);
    proof {
        let f = ((x << 16u128) & 0xffff0000_ffff0000_ffff0000_ffff0000u128) | ((x >> 16u128)
            & 0x0000ffff_0000ffff_0000ffff_0000ffffu128);
        lemma_swap16_lanes(x, f);
        crate::reg::lemma_lanes32_halves(r);
        crate::reg::lemma_lanes32_halves(x);
        assert forall|j: int| 0 <= j < 4 implies #[trigger] lanes32(r)[j] == rotr32(
            lanes32(x)[j],
            16,
        ) by {
            lemma_halves_rotate(lanes16(x)[2 * j], lanes16(x)[2 * j + 1]);
            if j == 0 {
            } else if j == 1 {
            } else if j == 2 {
            } else {
            }
        }
        assert(lanes32(r) =~= lanes32(f));
        crate::reg::lemma_lanes32_injective(r, f);
    }
    r
}

proof fn lemma_swap32_lanes(x: u128, r: u128)
    by (bit_vector)
    requires
        r == ((x << 32u128) & 0xffffffff_00000000_ffffffff_00000000u128) | ((x >> 32u128)
            & 0x00000000_ffffffff_00000000_ffffffffu128),
    ensures
        r as u32 == (x >> 32u128) as u32,
        (r >> 32u128) as u32 == x as u32,
        (r >> 64u128) as u32 == (x >> 96u128) as u32,
        (r >> 96u128) as u32 == (x >> 64u128) as u32,
        r as u64 == rotr64(x as u64, 32),
        (r >> 64u128) as u64 == rotr64((x >> 64u128) as u64, 32),
        forall|j: u128| j < 128 ==> #[trigger] ((r >> j) & 1u128) == ((x >> (j ^ 32u128)) & 1u128),
{
}

/// Exchanges the two 32-bit lanes of each 64-bit lane (a 32-bit lane shuffle
/// with selectors 1, 0, 3, 2).
pub fn swap32_s2(x: u128) -> (r: u128)
    ensures
        lanes32(r) == seq![lanes32(x)[1], lanes32(x)[0], lanes32(x)[3], lanes32(x)[2]],
        lanes64(r) == lanes64(x).map_values(|a: u64| rotr64(a, 32)),
        swaps_groups(r, x, 32),
{
    let r = shuffle_words(x, 0b1011_0001);
    proof {
        let r1 = ((x << 32u128) & 0xffffffff_00000000_ffffffff_00000000u128) | ((x >> 32u128)
            & 0x00000000_ffffffff_00000000_ffffffffu128);
        lemma_swap32_lanes(x, r1);
        assert(lanes32(r) =~= lanes32(r1));
        crate::reg::lemma_lanes32_injective(r, r1);
        assert(lanes64(r) =~= lanes64(x).map_values(|a: u64| rotr64(a, 32)));
    }
    r
}

proof fn lemma_bswap64_lanes(x: u128, y: u128, r: u128)
    by (bit_vector)
    requires
        y == ((x << 32u128) & 0xffffffff_00000000_ffffffff_00000000u128) | ((x >> 32u128)
            & 0x00000000_ffffffff_00000000_ffffffffu128),
        r == ((y & 0x000000ff_000000ff_000000ff_000000ffu128) << 24u128) | ((y
            & 0x0000ff00_0000ff00_0000ff00_0000ff00u128) << 8u128) | ((y >> 8u128)
            & 0x0000ff00_0000ff00_0000ff00_0000ff00u128) | ((y >> 24u128)
            & 0x000000ff_000000ff_000000ff_000000ffu128),
    ensures
        r as u64 == bswap64(x as u64),
        (r >> 64u128) as u64 == bswap64((x >> 64u128) as u64),
{
}

/// Reverses the byte order of each 64-bit lane: exchanges the 32-bit halves
/// of each 64-bit lane, then reverses the bytes of each 32-bit lane.
pub fn bswap64_s2(x: u128) -> (r: u128)
    ensures
        lanes64(r) == lanes64(x).map_values(|a: u64| bswap64(a)),
{
    let y = shuffle_words(x, 0b1011_0001);
    let r = bswap32_s2(y);
    proof {
        let y1 = ((x << 32u128) & 0xffffffff_00000000_ffffffff_00000000u128) | ((x >> 32u128)
            & 0x00000000_ffffffff_00000000_ffffffffu128);
        let r1 = ((y1 & 0x000000ff_000000ff_000000ff_000000ffu128) << 24u128) | ((y1
            & 0x0000ff00_0000ff00_0000ff00_0000ff00u128) << 8u128) | ((y1 >> 8u128)
            & 0x0000ff00_0000ff00_0000ff00_0000ff00u128) | ((y1 >> 24u128)
            & 0x000000ff_000000ff_000000ff_000000ffu128);
        lemma_swap32_lanes(x, y1);
        assert(lanes32(y) =~= lanes32(y1));
        crate::reg::lemma_lanes32_injective(y, y1);
        lemma_bswap32_lanes(y1, r1);
        crate::reg::lemma_lanes32_injective(r, r1);
        lemma_bswap64_lanes(x, y1, r1);
        assert(lanes64(r) =~= lanes64(x).map_values(|a: u64| bswap64(a)));
    }
    r
}

/// Whether two registers are equal, compared lane by lane in 32-bit lanes.
pub fn eq128_s2(x: u128, y: u128) -> (r: bool)
    ensures
        r == (x == y),
{
    let a = split32(x);
    let b = split32(y);
    let r = a[0] == b[0] && a[1] == b[1] && a[2] == b[2] && a[3] == b[3];
    proof {
        if r {
            assert(lanes32(x) =~= lanes32(y));
            crate::reg::lemma_lanes32_injective(x, y);
        }
    }
    r
}

proof fn lemma_swap1_bits(x: u128, r: u128)
    by (bit_vector)
    requires
        r == ((x & 0xaaaa_aaaa_aaaa_aaaa_aaaa_aaaa_aaaa_aaaau128) >> 1u128) | ((x << 1u128) & 0xaaaa_aaaa_aaaa_aaaa_aaaa_aaaa_aaaa_aaaau128),
    ensures
        forall|j: u128| j < 128 ==> #[trigger] ((r >> j) & 1u128) == ((x >> (j ^ 1u128)) & 1u128),
{
}

proof fn lemma_swap2_bits(x: u128, r: u128)
    by (bit_vector)
    requires
        r == ((x & 0xcccc_cccc_cccc_cccc_cccc_cccc_cccc_ccccu128) >> 2u128) | ((x << 2u128) & 0xcccc_cccc_cccc_cccc_cccc_cccc_cccc_ccccu128),
    ensures
        forall|j: u128| j < 128 ==> #[trigger] ((r >> j) & 1u128) == ((x >> (j ^ 2u128)) & 1u128),
{
}

proof fn lemma_swap4_bits(x: u128, r: u128)
    by (bit_vector)
    requires
        r == ((x & 0xf0f0_f0f0_f0f0_f0f0_f0f0_f0f0_f0f0_f0f0u128) >> 4u128) | ((x << 4u128) & 0xf0f0_f0f0_f0f0_f0f0_f0f0_f0f0_f0f0_f0f0u128),
    ensures
        forall|j: u128| j < 128 ==> #[trigger] ((r >> j) & 1u128) == ((x >> (j ^ 4u128)) & 1u128),
{
}

/// Exchanging the two bytes of each 16-bit group moves bit `j ^ 8` to bit
/// `j`.
pub proof fn lemma_swap8_bits(x: u128, r: u128)
    by (bit_vector)
    requires
        r == ((x << 8u128) & 0xff00_ff00_ff00_ff00_ff00_ff00_ff00_ff00u128) | ((x >> 8u128)
            & 0x00ff_00ff_00ff_00ff_00ff_00ff_00ff_00ffu128),
    ensures
        forall|j: u128| j < 128 ==> #[trigger] ((r >> j) & 1u128) == ((x >> (j ^ 8u128)) & 1u128),
{
}

/// Exchanging the two bytes of each 16-bit group, seen in the 32-bit lanes.
pub proof fn lemma_swap8_words(x: u128, f: u128)
    by (bit_vector)
    requires
        f == ((x << 8u128) & 0xff00_ff00_ff00_ff00_ff00_ff00_ff00_ff00u128) | ((x >> 8u128)
            & 0x00ff_00ff_00ff_00ff_00ff_00ff_00ff_00ffu128),
    ensures
        f as u32 == u32_from_le((x >> 8u128) as u8, (x >> 0u128) as u8, (x >> 24u128) as u8, (x >> 16u128) as u8),
        (f >> 32u128) as u32 == u32_from_le((x >> 40u128) as u8, (x >> 32u128) as u8, (x >> 56u128) as u8, (x >> 48u128) as u8),
        (f >> 64u128) as u32 == u32_from_le((x >> 72u128) as u8, (x >> 64u128) as u8, (x >> 88u128) as u8, (x >> 80u128) as u8),
        (f >> 96u128) as u32 == u32_from_le((x >> 104u128) as u8, (x >> 96u128) as u8, (x >> 120u128) as u8, (x >> 112u128) as u8),
{
}

proof fn lemma_swap64_words(x: u128, r: u128)
    by (bit_vector)
    requires
        r == (x << 64u128) | (x >> 64u128),
    ensures
        r as u32 == (x >> 64u128) as u32,
        (r >> 32u128) as u32 == (x >> 96u128) as u32,
        (r >> 64u128) as u32 == x as u32,
        (r >> 96u128) as u32 == (x >> 32u128) as u32,
{
}

proof fn lemma_swap64_bits(x: u128, r: u128)
    by (bit_vector)
    requires
        r == (x << 64u128) | (x >> 64u128),
    ensures
        forall|j: u128| j < 128 ==> #[trigger] ((r >> j) & 1u128) == ((x >> (j ^ 64u128)) & 1u128),
        r as u64 == (x >> 64u128) as u64,
        (r >> 64u128) as u64 == x as u64,
{
}

proof fn lemma_swap1_halfwords_bv(x: u128, f: u128)
    by (bit_vector)
    requires
        f == ((x & 0xaaaa_aaaa_aaaa_aaaa_aaaa_aaaa_aaaa_aaaau128) >> 1u128) | ((x << 1u128) & 0xaaaa_aaaa_aaaa_aaaa_aaaa_aaaa_aaaa_aaaau128),
    ensures
        (f as u16) == (((x as u16) & 0xaaaau16) >> 1u16) | (((x as u16) << 1u16) & 0xaaaau16),
        (0xaaaa_aaaa_aaaa_aaaa_aaaa_aaaa_aaaa_aaaau128 as u16) == 0xaaaau16,
        ((f >> 16u128) as u16) == ((((x >> 16u128) as u16) & 0xaaaau16) >> 1u16) | ((((x >> 16u128) as u16) << 1u16) & 0xaaaau16),
        ((0xaaaa_aaaa_aaaa_aaaa_aaaa_aaaa_aaaa_aaaau128 >> 16u128) as u16) == 0xaaaau16,
        ((f >> 32u128) as u16) == ((((x >> 32u128) as u16) & 0xaaaau16) >> 1u16) | ((((x >> 32u128) as u16) << 1u16) & 0xaaaau16),
        ((0xaaaa_aaaa_aaaa_aaaa_aaaa_aaaa_aaaa_aaaau128 >> 32u128) as u16) == 0xaaaau16,
        ((f >> 48u128) as u16) == ((((x >> 48u128) as u16) & 0xaaaau16) >> 1u16) | ((((x >> 48u128) as u16) << 1u16) & 0xaaaau16),
        ((0xaaaa_aaaa_aaaa_aaaa_aaaa_aaaa_aaaa_aaaau128 >> 48u128) as u16) == 0xaaaau16,
        ((f >> 64u128) as u16) == ((((x >> 64u128) as u16) & 0xaaaau16) >> 1u16) | ((((x >> 64u128) as u16) << 1u16) & 0xaaaau16),
        ((0xaaaa_aaaa_aaaa_aaaa_aaaa_aaaa_aaaa_aaaau128 >> 64u128) as u16) == 0xaaaau16,
        ((f >> 80u128) as u16) == ((((x >> 80u128) as u16) & 0xaaaau16) >> 1u16) | ((((x >> 80u128) as u16) << 1u16) & 0xaaaau16),
        ((0xaaaa_aaaa_aaaa_aaaa_aaaa_aaaa_aaaa_aaaau128 >> 80u128) as u16) == 0xaaaau16,
        ((f >> 96u128) as u16) == ((((x >> 96u128) as u16) & 0xaaaau16) >> 1u16) | ((((x >> 96u128) as u16) << 1u16) & 0xaaaau16),
        ((0xaaaa_aaaa_aaaa_aaaa_aaaa_aaaa_aaaa_aaaau128 >> 96u128) as u16) == 0xaaaau16,
        ((f >> 112u128) as u16) == ((((x >> 112u128) as u16) & 0xaaaau16) >> 1u16) | ((((x >> 112u128) as u16) << 1u16) & 0xaaaau16),
        ((0xaaaa_aaaa_aaaa_aaaa_aaaa_aaaa_aaaa_aaaau128 >> 112u128) as u16) == 0xaaaau16,
{
}

/// Exchanges each pair of adjacent bits: within each 16-bit lane, the masked bits move down by
/// 1 and the bits below them move up by 1.
pub fn swap1_s2(x: u128) -> (r: u128)
    ensures
        swaps_groups(r, x, 1),
{
    let k: u128 = 0xaaaa_aaaa_aaaa_aaaa_aaaa_aaaa_aaaa_aaaau128;
    let a = x & k;
    let b = shr16(a, 1);
    let c = shl16(x, 1);
    let d = c & k;
    let r = b | d;
    proof {
        let f = ((x & 0xaaaa_aaaa_aaaa_aaaa_aaaa_aaaa_aaaa_aaaau128) >> 1u128) | ((x << 1u128) & 0xaaaa_aaaa_aaaa_aaaa_aaaa_aaaa_aaaa_aaaau128);
        lemma_swap1_bits(x, f);
        lemma_swap1_halfwords_bv(x, f);
        crate::reg::lemma_lane_bitops(x, k);
        crate::reg::lemma_lane_bitops(c, k);
        crate::reg::lemma_lane_bitops(b, d);
        assert forall|j: int| 0 <= j < 8 implies #[trigger] lanes16(r)[j] == lanes16(f)[j] by {
            if j == 0 {
            } else if j == 1 {
            } else if j == 2 {
            } else if j == 3 {
            } else if j == 4 {
            } else if j == 5 {
            } else if j == 6 {
            } else {
            }
        }
        assert(lanes16(r) =~= lanes16(f));
        crate::reg::lemma_lanes16_injective(r, f);
    }
    r
}

proof fn lemma_swap2_halfwords_bv(x: u128, f: u128)
    by (bit_vector)
    requires
        f == ((x & 0xcccc_cccc_cccc_cccc_cccc_cccc_cccc_ccccu128) >> 2u128) | ((x << 2u128) & 0xcccc_cccc_cccc_cccc_cccc_cccc_cccc_ccccu128),
    ensures
        (f as u16) == (((x as u16) & 0xccccu16) >> 2u16) | (((x as u16) << 2u16) & 0xccccu16),
        (0xcccc_cccc_cccc_cccc_cccc_cccc_cccc_ccccu128 as u16) == 0xccccu16,
        ((f >> 16u128) as u16) == ((((x >> 16u128) as u16) & 0xccccu16) >> 2u16) | ((((x >> 16u128) as u16) << 2u16) & 0xccccu16),
        ((0xcccc_cccc_cccc_cccc_cccc_cccc_cccc_ccccu128 >> 16u128) as u16) == 0xccccu16,
        ((f >> 32u128) as u16) == ((((x >> 32u128) as u16) & 0xccccu16) >> 2u16) | ((((x >> 32u128) as u16) << 2u16) & 0xccccu16),
        ((0xcccc_cccc_cccc_cccc_cccc_cccc_cccc_ccccu128 >> 32u128) as u16) == 0xccccu16,
        ((f >> 48u128) as u16) == ((((x >> 48u128) as u16) & 0xccccu16) >> 2u16) | ((((x >> 48u128) as u16) << 2u16) & 0xccccu16),
        ((0xcccc_cccc_cccc_cccc_cccc_cccc_cccc_ccccu128 >> 48u128) as u16) == 0xccccu16,
        ((f >> 64u128) as u16) == ((((x >> 64u128) as u16) & 0xccccu16) >> 2u16) | ((((x >> 64u128) as u16) << 2u16) & 0xccccu16),
        ((0xcccc_cccc_cccc_cccc_cccc_cccc_cccc_ccccu128 >> 64u128) as u16) == 0xccccu16,
        ((f >> 80u128) as u16) == ((((x >> 80u128) as u16) & 0xccccu16) >> 2u16) | ((((x >> 80u128) as u16) << 2u16) & 0xccccu16),
        ((0xcccc_cccc_cccc_cccc_cccc_cccc_cccc_ccccu128 >> 80u128) as u16) == 0xccccu16,
        ((f >> 96u128) as u16) == ((((x >> 96u128) as u16) & 0xccccu16) >> 2u16) | ((((x >> 96u128) as u16) << 2u16) & 0xccccu16),
        ((0xcccc_cccc_cccc_cccc_cccc_cccc_cccc_ccccu128 >> 96u128) as u16) == 0xccccu16,
        ((f >> 112u128) as u16) == ((((x >> 112u128) as u16) & 0xccccu16) >> 2u16) | ((((x >> 112u128) as u16) << 2u16) & 0xccccu16),
        ((0xcccc_cccc_cccc_cccc_cccc_cccc_cccc_ccccu128 >> 112u128) as u16) == 0xccccu16,
{
}

/// Exchanges each pair of adjacent 2-bit groups: within each 16-bit lane, the masked bits move down by
/// 2 and the bits below them move up by 2.
pub fn swap2_s2(x: u128) -> (r: u128)
    ensures
        swaps_groups(r, x, 2),
{
    let k: u128 = 0xcccc_cccc_cccc_cccc_cccc_cccc_cccc_ccccu128;
    let a = x & k;
    let b = shr16(a, 2);
    let c = shl16(x, 2);
    let d = c & k;
    let r = b | d;
    proof {
        let f = ((x & 0xcccc_cccc_cccc_cccc_cccc_cccc_cccc_ccccu128) >> 2u128) | ((x << 2u128) & 0xcccc_cccc_cccc_cccc_cccc_cccc_cccc_ccccu128);
        lemma_swap2_bits(x, f);
        lemma_swap2_halfwords_bv(x, f);
        crate::reg::lemma_lane_bitops(x, k);
        crate::reg::lemma_lane_bitops(c, k);
        crate::reg::lemma_lane_bitops(b, d);
        assert forall|j: int| 0 <= j < 8 implies #[trigger] lanes16(r)[j] == lanes16(f)[j] by {
            if j == 0 {
            } else if j == 1 {
            } else if j == 2 {
            } else if j == 3 {
            } else if j == 4 {
            } else if j == 5 {
            } else if j == 6 {
            } else {
            }
        }
        assert(lanes16(r) =~= lanes16(f));
        crate::reg::lemma_lanes16_injective(r, f);
    }
    r
}

proof fn lemma_swap4_halfwords_bv(x: u128, f: u128)
    by (bit_vector)
    requires
        f == ((x & 0xf0f0_f0f0_f0f0_f0f0_f0f0_f0f0_f0f0_f0f0u128) >> 4u128) | ((x << 4u128) & 0xf0f0_f0f0_f0f0_f0f0_f0f0_f0f0_f0f0_f0f0u128),
    ensures
        (f as u16) == (((x as u16) & 0xf0f0u16) >> 4u16) | (((x as u16) << 4u16) & 0xf0f0u16),
        (0xf0f0_f0f0_f0f0_f0f0_f0f0_f0f0_f0f0_f0f0u128 as u16) == 0xf0f0u16,
        ((f >> 16u128) as u16) == ((((x >> 16u128) as u16) & 0xf0f0u16) >> 4u16) | ((((x >> 16u128) as u16) << 4u16) & 0xf0f0u16),
        ((0xf0f0_f0f0_f0f0_f0f0_f0f0_f0f0_f0f0_f0f0u128 >> 16u128) as u16) == 0xf0f0u16,
        ((f >> 32u128) as u16) == ((((x >> 32u128) as u16) & 0xf0f0u16) >> 4u16) | ((((x >> 32u128) as u16) << 4u16) & 0xf0f0u16),
        ((0xf0f0_f0f0_f0f0_f0f0_f0f0_f0f0_f0f0_f0f0u128 >> 32u128) as u16) == 0xf0f0u16,
        ((f >> 48u128) as u16) == ((((x >> 48u128) as u16) & 0xf0f0u16) >> 4u16) | ((((x >> 48u128) as u16) << 4u16) & 0xf0f0u16),
        ((0xf0f0_f0f0_f0f0_f0f0_f0f0_f0f0_f0f0_f0f0u128 >> 48u128) as u16) == 0xf0f0u16,
        ((f >> 64u128) as u16) == ((((x >> 64u128) as u16) & 0xf0f0u16) >> 4u16) | ((((x >> 64u128) as u16) << 4u16) & 0xf0f0u16),
        ((0xf0f0_f0f0_f0f0_f0f0_f0f0_f0f0_f0f0_f0f0u128 >> 64u128) as u16) == 0xf0f0u16,
        ((f >> 80u128) as u16) == ((((x >> 80u128) as u16) & 0xf0f0u16) >> 4u16) | ((((x >> 80u128) as u16) << 4u16) & 0xf0f0u16),
        ((0xf0f0_f0f0_f0f0_f0f0_f0f0_f0f0_f0f0_f0f0u128 >> 80u128) as u16) == 0xf0f0u16,
        ((f >> 96u128) as u16) == ((((x >> 96u128) as u16) & 0xf0f0u16) >> 4u16) | ((((x >> 96u128) as u16) << 4u16) & 0xf0f0u16),
        ((0xf0f0_f0f0_f0f0_f0f0_f0f0_f0f0_f0f0_f0f0u128 >> 96u128) as u16) == 0xf0f0u16,
        ((f >> 112u128) as u16) == ((((x >> 112u128) as u16) & 0xf0f0u16) >> 4u16) | ((((x >> 112u128) as u16) << 4u16) & 0xf0f0u16),
        ((0xf0f0_f0f0_f0f0_f0f0_f0f0_f0f0_f0f0_f0f0u128 >> 112u128) as u16) == 0xf0f0u16,
{
}

/// Exchanges the two nibbles of each byte: within each 16-bit lane, the masked bits move down by
/// 4 and the bits below them move up by 4.
pub fn swap4_s2(x: u128) -> (r: u128)
    ensures
        swaps_groups(r, x, 4),
{
    let k: u128 = 0xf0f0_f0f0_f0f0_f0f0_f0f0_f0f0_f0f0_f0f0u128;
    let a = x & k;
    let b = shr16(a, 4);
    let c = shl16(x, 4);
    let d = c & k;
    let r = b | d;
    proof {
        let f = ((x & 0xf0f0_f0f0_f0f0_f0f0_f0f0_f0f0_f0f0_f0f0u128) >> 4u128) | ((x << 4u128) & 0xf0f0_f0f0_f0f0_f0f0_f0f0_f0f0_f0f0_f0f0u128);
        lemma_swap4_bits(x, f);
        lemma_swap4_halfwords_bv(x, f);
        crate::reg::lemma_lane_bitops(x, k);
        crate::reg::lemma_lane_bitops(c, k);
        crate::reg::lemma_lane_bitops(b, d);
        assert forall|j: int| 0 <= j < 8 implies #[trigger] lanes16(r)[j] == lanes16(f)[j] by {
            if j == 0 {
            } else if j == 1 {
            } else if j == 2 {
            } else if j == 3 {
            } else if j == 4 {
            } else if j == 5 {
            } else if j == 6 {
            } else {
            }
        }
        assert(lanes16(r) =~= lanes16(f));
        crate::reg::lemma_lanes16_injective(r, f);
    }
    r
}

proof fn lemma_swap8_halfwords_bv(x: u128, f: u128)
    by (bit_vector)
    requires
        f == ((x << 8u128) & 0xff00_ff00_ff00_ff00_ff00_ff00_ff00_ff00u128) | ((x >> 8u128) & 0x00ff_00ff_00ff_00ff_00ff_00ff_00ff_00ffu128),
    ensures
        (f as u16) == ((x as u16) << 8u16) | ((x as u16) >> 8u16),
        ((f >> 16u128) as u16) == (((x >> 16u128) as u16) << 8u16) | (((x >> 16u128) as u16) >> 8u16),
        ((f >> 32u128) as u16) == (((x >> 32u128) as u16) << 8u16) | (((x >> 32u128) as u16) >> 8u16),
        ((f >> 48u128) as u16) == (((x >> 48u128) as u16) << 8u16) | (((x >> 48u128) as u16) >> 8u16),
        ((f >> 64u128) as u16) == (((x >> 64u128) as u16) << 8u16) | (((x >> 64u128) as u16) >> 8u16),
        ((f >> 80u128) as u16) == (((x >> 80u128) as u16) << 8u16) | (((x >> 80u128) as u16) >> 8u16),
        ((f >> 96u128) as u16) == (((x >> 96u128) as u16) << 8u16) | (((x >> 96u128) as u16) >> 8u16),
        ((f >> 112u128) as u16) == (((x >> 112u128) as u16) << 8u16) | (((x >> 112u128) as u16) >> 8u16),
{
}

/// Exchanges the two bytes of each 16-bit lane: each lane shifted left by 8
/// or'd with each lane shifted right by 8.
pub fn swap8_s2(x: u128) -> (r: u128)
    ensures
        swaps_groups(r, x, 8),
{
    let a = shl16(x, 8);
    let b = shr16(x, 8);
    let r = a | b;
    proof {
        let f = ((x << 8u128) & 0xff00_ff00_ff00_ff00_ff00_ff00_ff00_ff00u128) | ((x >> 8u128) & 0x00ff_00ff_00ff_00ff_00ff_00ff_00ff_00ffu128);
        lemma_swap8_bits(x, f);
        lemma_swap8_halfwords_bv(x, f);
        crate::reg::lemma_lane_bitops(a, b);
        assert forall|j: int| 0 <= j < 8 implies #[trigger] lanes16(r)[j] == lanes16(f)[j] by {
            if j == 0 {
            } else if j == 1 {
            } else if j == 2 {
            } else if j == 3 {
            } else if j == 4 {
            } else if j == 5 {
            } else if j == 6 {
            } else {
            }
        }
        assert(lanes16(r) =~= lanes16(f));
        crate::reg::lemma_lanes16_injective(r, f);
    }
    r
}

/// Exchanges the two 64-bit halves of the register (a 32-bit lane shuffle
/// with selectors 2, 3, 0, 1).
pub fn swap64_s2(x: u128) -> (r: u128)
    ensures
        swaps_groups(r, x, 64),
        lanes64(r) == seq![lanes64(x)[1], lanes64(x)[0]],
{
    let r = shuffle_words(x, 0b0100_1110);
    proof {
        let r1 = (x << 64u128) | (x >> 64u128);
        lemma_swap64_bits(x, r1);
        lemma_swap64_words(x, r1);
        assert(lanes32(r) =~= lanes32(r1));
        crate::reg::lemma_lanes32_injective(r, r1);
        assert(lanes64(r) =~= seq![lanes64(x)[1], lanes64(x)[0]]);
    }
    r
}

/// The byte that control byte `c` selects from `x` in a byte shuffle: zero
/// when the top bit of `c` is set, else byte `c % 16` of `x`.
pub open spec fn pick_byte(x: u128, c: u8) -> u8 {
    if c >= 0x80 {
        0
    } else {
        bytes16(x)[(c % 16) as int]
    }
}

/// Byte shuffle: byte `i` of the result is the byte of `x` that `k[i]` selects.
pub fn shuffle_bytes(x: u128, k: [u8; 16]) -> (r: u128)
    ensures
        forall|i: int| 0 <= i < 16 ==> #[trigger] bytes16(r)[i] == pick_byte(x, k@[i]),
{
    let xb = to_bytes16(x);
    let mut rb = [0u8; 16];
    let mut i: usize = 0;
    while i < 16
        invariant
            0 <= i <= 16,
            xb@ == bytes16(x),
            forall|j: int| 0 <= j < i ==> rb@[j] == pick_byte(x, k@[j]),
        decreases 16 - i,
    {
        let c = k[i];
        rb[i] = if c >= 0x80 {
            0
        } else {
            xb[(c % 16) as usize]
        };
        i = i + 1;
    }
    load16(&rb)
}

/// 32-bit lane shuffle: lane `i` of the result is lane `(imm >> 2i) % 4` of
/// `x`.
pub fn shuffle_words(x: u128, imm: u8) -> (r: u128)
    ensures
        lanes32(r) == seq![
            lanes32(x)[(imm % 4) as int],
            lanes32(x)[((imm / 4) % 4) as int],
            lanes32(x)[((imm / 16) % 4) as int],
            lanes32(x)[((imm / 64) % 4) as int],
        ],
{
    let l = split32(x);
    join32(
        [
            l[(imm % 4) as usize],
            l[((imm / 4) % 4) as usize],
            l[((imm / 16) % 4) as usize],
            l[((imm / 64) % 4) as usize],
        ],
    )
}

proof fn lemma_lane_moves(x: u128, y: u128, v: u32)
    by (bit_vector)
    ensures
        (x << 32u128) as u32 == 0,
        ((x << 32u128) >> 32u128) as u32 == x as u32,
        ((x << 32u128) >> 64u128) as u32 == (x >> 32u128) as u32,
        ((x << 32u128) >> 96u128) as u32 == (x >> 64u128) as u32,
        y as u32 == 0 ==> (y | (v as u128)) as u32 == v,
        ((y | (v as u128)) >> 32u128) as u32 == (y >> 32u128) as u32,
        ((y | (v as u128)) >> 64u128) as u32 == (y >> 64u128) as u32,
        ((y | (v as u128)) >> 96u128) as u32 == (y >> 96u128) as u32,
        (!0xffff_ffffu128 & x) as u32 == 0,
        ((!0xffff_ffffu128 & x) >> 32u128) as u32 == (x >> 32u128) as u32,
        ((!0xffff_ffffu128 & x) >> 64u128) as u32 == (x >> 64u128) as u32,
        ((!0xffff_ffffu128 & x) >> 96u128) as u32 == (x >> 96u128) as u32,
{
}

/// Moves every 32-bit lane up by one; lane 0 becomes zero and the top lane
/// is dropped.
pub fn shift_lanes_up(x: u128) -> (r: u128)
    ensures
        lanes32(r) == seq![0u32, lanes32(x)[0], lanes32(x)[1], lanes32(x)[2]],
{
    let r = x << 32u128;
    proof {
        lemma_lane_moves(x, 0, 0);
        assert(lanes32(r) =~= seq![0u32, lanes32(x)[0], lanes32(x)[1], lanes32(x)[2]]);
    }
    r
}

/// Sets 32-bit lane 0 of a register whose lane 0 is zero to `v`.
pub fn or_low_lane(y: u128, v: u32) -> (r: u128)
    requires
        lanes32(y)[0] == 0,
    ensures
        lanes32(r) == lanes32(y).update(0, v),
{
    let r = y | (v as u128);
    proof {
        lemma_lane_moves(0, y, v);
        assert(lanes32(r) =~= lanes32(y).update(0, v));
    }
    r
}

/// Clears 32-bit lane 0.
pub fn clear_low_lane(x: u128) -> (r: u128)
    ensures
        lanes32(r) == lanes32(x).update(0, 0u32),
{
    let r = !0xffff_ffffu128 & x;
    proof {
        lemma_lane_moves(x, 0, 0);
        assert(lanes32(r) =~= lanes32(x).update(0, 0u32));
    }
    r
}

proof fn lemma_qword_moves(x: u128, a: u128, b: u128, v: u64, s: u128)
    by (bit_vector)
    ensures
        ((!0xffff_ffff_ffff_ffffu128 & x) | (v as u128)) as u64 == v,
        (((!0xffff_ffff_ffff_ffffu128 & x) | (v as u128)) >> 64u128) as u64 == (x >> 64u128) as u64,
        ((x & 0xffff_ffff_ffff_ffffu128) | ((v as u128) << 64u128)) as u64 == x as u64,
        (((x & 0xffff_ffff_ffff_ffffu128) | ((v as u128) << 64u128)) >> 64u128) as u64 == v,
        ((a >> 64u128) | (b << 64u128)) as u64 == (a >> 64u128) as u64,
        (((a >> 64u128) | (b << 64u128)) >> 64u128) as u64 == b as u64,
        ((b << 64u128) | (a >> 64u128)) as u64 == (a >> 64u128) as u64,
        (((b << 64u128) | (a >> 64u128)) >> 64u128) as u64 == b as u64,
        (x as u64) as u32 == x as u32,
        ((x as u64) >> 32u64) as u32 == (x >> 32u128) as u32,
        ((x >> 64u128) as u64) as u32 == (x >> 64u128) as u32,
        (((x >> 64u128) as u64) >> 32u64) as u32 == (x >> 96u128) as u32,
        (s as u32 == (x >> 64u128) as u32 && (s >> 32u128) as u32 == (x >> 96u128) as u32) ==> s as u64
            == (x >> 64u128) as u64,
{
}

/// Replaces 64-bit lane 0 with `v`.
pub fn set_low_qword(x: u128, v: u64) -> (r: u128)
    ensures
        lanes64(r) == lanes64(x).update(0, v),
{
    let r = (!0xffff_ffff_ffff_ffffu128 & x) | (v as u128);
    proof {
        lemma_qword_moves(x, 0, 0, v, 0);
        assert(lanes64(r) =~= lanes64(x).update(0, v));
    }
    r
}

/// Replaces 64-bit lane 1 with `v`.
pub fn set_high_qword(x: u128, v: u64) -> (r: u128)
    ensures
        lanes64(r) == lanes64(x).update(1, v),
{
    let r = (x & 0xffff_ffff_ffff_ffffu128) | ((v as u128) << 64u128);
    proof {
        lemma_qword_moves(x, 0, 0, v, 0);
        assert(lanes64(r) =~= lanes64(x).update(1, v));
    }
    r
}

/// The middle 128 bits of the 256-bit concatenation `hi:lo`: the high
/// 64-bit lane of `lo` followed by the low 64-bit lane of `hi`.
pub fn align_qwords(hi: u128, lo: u128) -> (r: u128)
    ensures
        lanes64(r) == seq![lanes64(lo)[1], lanes64(hi)[0]],
{
    let r = (lo >> 64u128) | (hi << 64u128);
    proof {
        lemma_qword_moves(0, lo, hi, 0, 0);
        assert(lanes64(r) =~= seq![lanes64(lo)[1], lanes64(hi)[0]]);
    }
    r
}

/// The same 128 bits as `align_qwords`, computed without SSSE3: `hi`
/// shifted left by eight bytes, or'd with `lo` shifted right by eight bytes.
pub fn shift_or_qwords(hi: u128, lo: u128) -> (r: u128)
    ensures
        lanes64(r) == seq![lanes64(lo)[1], lanes64(hi)[0]],
{
    let d = hi << 64u128;
    let a = lo >> 64u128;
    let r = d | a;
    proof {
        lemma_qword_moves(0, lo, hi, 0, 0);
        assert(lanes64(r) =~= seq![lanes64(lo)[1], lanes64(hi)[0]]);
    }
    r
}

/// The high 64-bit lane, read through a 32-bit lane shuffle that copies
/// lanes 2 and 3 down.
pub fn high_qword_by_shuffle(x: u128) -> (r: u64)
    ensures
        r == lanes64(x)[1],
{
    let s = shuffle_words(x, 0b1110_1110);
    proof {
        lemma_qword_moves(x, 0, 0, 0, s);
    }
    s as u64
}

/// The 32-bit halves of the 64-bit lanes are the 32-bit lanes.
pub proof fn lemma_qword_halves(x: u128)
    ensures
        (lanes64(x)[0] as u32) == lanes32(x)[0],
        ((lanes64(x)[0] >> 32u64) as u32) == lanes32(x)[1],
        (lanes64(x)[1] as u32) == lanes32(x)[2],
        ((lanes64(x)[1] >> 32u64) as u32) == lanes32(x)[3],
{
    lemma_qword_moves(x, 0, 0, 0, 0);
}

/// Lane `j` of a byte shuffle's result, in terms of the selected bytes.
proof fn lemma_shuffled_lane32(r: u128, x: u128, k: [u8; 16], j: int)
    requires
        0 <= j < 4,
        forall|i: int| 0 <= i < 16 ==> #[trigger] bytes16(r)[i] == pick_byte(x, k@[i]),
    ensures
        lanes32(r)[j] == u32_from_le(
            pick_byte(x, k@[4 * j]),
            pick_byte(x, k@[4 * j + 1]),
            pick_byte(x, k@[4 * j + 2]),
            pick_byte(x, k@[4 * j + 3]),
        ),
{
    crate::reg::lemma_lanes32_bytes(r);
    assert(bytes16(r)[4 * j] == pick_byte(x, k@[4 * j]));
    assert(bytes16(r)[4 * j + 1] == pick_byte(x, k@[4 * j + 1]));
    assert(bytes16(r)[4 * j + 2] == pick_byte(x, k@[4 * j + 2]));
    assert(bytes16(r)[4 * j + 3] == pick_byte(x, k@[4 * j + 3]));
}

/// Lane `j` of a byte shuffle's result, in terms of the selected bytes.
proof fn lemma_shuffled_lane64(r: u128, x: u128, k: [u8; 16], j: int)
    requires
        0 <= j < 2,
        forall|i: int| 0 <= i < 16 ==> #[trigger] bytes16(r)[i] == pick_byte(x, k@[i]),
    ensures
        lanes64(r)[j] == u64_from_le(
            pick_byte(x, k@[8 * j]),
            pick_byte(x, k@[8 * j + 1]),
            pick_byte(x, k@[8 * j + 2]),
            pick_byte(x, k@[8 * j + 3]),
            pick_byte(x, k@[8 * j + 4]),
            pick_byte(x, k@[8 * j + 5]),
            pick_byte(x, k@[8 * j + 6]),
            pick_byte(x, k@[8 * j + 7]),
        ),
{
    crate::reg::lemma_lanes64_bytes(r);
    assert(bytes16(r)[8 * j] == pick_byte(x, k@[8 * j]));
    assert(bytes16(r)[8 * j + 1] == pick_byte(x, k@[8 * j + 1]));
    assert(bytes16(r)[8 * j + 2] == pick_byte(x, k@[8 * j + 2]));
    assert(bytes16(r)[8 * j + 3] == pick_byte(x, k@[8 * j + 3]));
    assert(bytes16(r)[8 * j + 4] == pick_byte(x, k@[8 * j + 4]));
    assert(bytes16(r)[8 * j + 5] == pick_byte(x, k@[8 * j + 5]));
    assert(bytes16(r)[8 * j + 6] == pick_byte(x, k@[8 * j + 6]));
    assert(bytes16(r)[8 * j + 7] == pick_byte(x, k@[8 * j + 7]));
}

/// Shifts each 32-bit lane right by `n` bits.
pub fn shr32(x: u128, n: u32) -> (r: u128)
    requires
        n < 32,
    ensures
        forall|j: int| 0 <= j < 4 ==> #[trigger] lanes32(r)[j] == lanes32(x)[j] >> n,
{
    let l = split32(x);
    join32([l[0] >> n, l[1] >> n, l[2] >> n, l[3] >> n])
}

/// Shifts each 32-bit lane left by `n` bits; bits shifted out of a lane are
/// lost.
pub fn shl32(x: u128, n: u32) -> (r: u128)
    requires
        n < 32,
    ensures
        forall|j: int| 0 <= j < 4 ==> #[trigger] lanes32(r)[j] == lanes32(x)[j] << n,
{
    let l = split32(x);
    join32([l[0] << n, l[1] << n, l[2] << n, l[3] << n])
}

/// Shifts each 64-bit lane right by `n` bits.
pub fn shr64(x: u128, n: u64) -> (r: u128)
    requires
        n < 64,
    ensures
        forall|j: int| 0 <= j < 2 ==> #[trigger] lanes64(r)[j] == lanes64(x)[j] >> n,
{
    let l = split64(x);
    join64([l[0] >> n, l[1] >> n])
}

/// Shifts each 64-bit lane left by `n` bits; bits shifted out of a lane are
/// lost.
pub fn shl64(x: u128, n: u64) -> (r: u128)
    requires
        n < 64,
    ensures
        forall|j: int| 0 <= j < 2 ==> #[trigger] lanes64(r)[j] == lanes64(x)[j] << n,
{
    let l = split64(x);
    join64([l[0] << n, l[1] << n])
}

/// A byte shuffle whose control moves bytes within each 32-bit lane, by the
/// same pattern `p0, p1, p2, p3` in every lane, leaves in each lane the word
/// built from that lane's bytes `p0, p1, p2, p3`.
pub proof fn lemma_lane_permutation32(
    r: u128,
    x: u128,
    k: [u8; 16],
    p0: u8,
    p1: u8,
    p2: u8,
    p3: u8,
)
    requires
        p0 < 4,
        p1 < 4,
        p2 < 4,
        p3 < 4,
        forall|i: int| 0 <= i < 16 ==> #[trigger] bytes16(r)[i] == pick_byte(x, k@[i]),
        k@[0] == p0,
        k@[1] == p1,
        k@[2] == p2,
        k@[3] == p3,
        k@[4] == (p0 + 4) as u8,
        k@[5] == (p1 + 4) as u8,
        k@[6] == (p2 + 4) as u8,
        k@[7] == (p3 + 4) as u8,
        k@[8] == (p0 + 8) as u8,
        k@[9] == (p1 + 8) as u8,
        k@[10] == (p2 + 8) as u8,
        k@[11] == (p3 + 8) as u8,
        k@[12] == (p0 + 12) as u8,
        k@[13] == (p1 + 12) as u8,
        k@[14] == (p2 + 12) as u8,
        k@[15] == (p3 + 12) as u8,
    ensures
        forall|j: int|
            0 <= j < 4 ==> #[trigger] lanes32(r)[j] == u32_from_le(
                bytes16(x)[4 * j + p0],
                bytes16(x)[4 * j + p1],
                bytes16(x)[4 * j + p2],
                bytes16(x)[4 * j + p3],
            ),
{
    assert forall|j: int| 0 <= j < 4 implies #[trigger] lanes32(r)[j] == u32_from_le(
        bytes16(x)[4 * j + p0],
        bytes16(x)[4 * j + p1],
        bytes16(x)[4 * j + p2],
        bytes16(x)[4 * j + p3],
    ) by {
        lemma_shuffled_lane32(r, x, k, j);
        if j == 0 {
        } else if j == 1 {
        } else if j == 2 {
        } else {
        }
    }
}

/// A byte shuffle whose control moves bytes within each 64-bit lane, by the
/// same pattern `p0, ..., p7` in both lanes, leaves in each lane the word
/// built from that lane's bytes `p0, ..., p7`.
pub proof fn lemma_lane_permutation64(
    r: u128,
    x: u128,
    k: [u8; 16],
    p0: u8,
    p1: u8,
    p2: u8,
    p3: u8,
    p4: u8,
    p5: u8,
    p6: u8,
    p7: u8,
)
    requires
        p0 < 8,
        p1 < 8,
        p2 < 8,
        p3 < 8,
        p4 < 8,
        p5 < 8,
        p6 < 8,
        p7 < 8,
        forall|i: int| 0 <= i < 16 ==> #[trigger] bytes16(r)[i] == pick_byte(x, k@[i]),
        k@[0] == p0,
        k@[1] == p1,
        k@[2] == p2,
        k@[3] == p3,
        k@[4] == p4,
        k@[5] == p5,
        k@[6] == p6,
        k@[7] == p7,
        k@[8] == (p0 + 8) as u8,
        k@[9] == (p1 + 8) as u8,
        k@[10] == (p2 + 8) as u8,
        k@[11] == (p3 + 8) as u8,
        k@[12] == (p4 + 8) as u8,
        k@[13] == (p5 + 8) as u8,
        k@[14] == (p6 + 8) as u8,
        k@[15] == (p7 + 8) as u8,
    ensures
        forall|j: int|
            0 <= j < 2 ==> #[trigger] lanes64(r)[j] == u64_from_le(
                bytes16(x)[8 * j + p0],
                bytes16(x)[8 * j + p1],
                bytes16(x)[8 * j + p2],
                bytes16(x)[8 * j + p3],
                bytes16(x)[8 * j + p4],
                bytes16(x)[8 * j + p5],
                bytes16(x)[8 * j + p6],
                bytes16(x)[8 * j + p7],
            ),
{
    assert forall|j: int| 0 <= j < 2 implies #[trigger] lanes64(r)[j] == u64_from_le(
        bytes16(x)[8 * j + p0],
        bytes16(x)[8 * j + p1],
        bytes16(x)[8 * j + p2],
        bytes16(x)[8 * j + p3],
        bytes16(x)[8 * j + p4],
        bytes16(x)[8 * j + p5],
        bytes16(x)[8 * j + p6],
        bytes16(x)[8 * j + p7],
    ) by {
        lemma_shuffled_lane64(r, x, k, j);
        if j == 0 {
            assert(pick_byte(x, k@[0]) == bytes16(x)[p0 as int]);
            assert(pick_byte(x, k@[1]) == bytes16(x)[p1 as int]);
            assert(pick_byte(x, k@[2]) == bytes16(x)[p2 as int]);
            assert(pick_byte(x, k@[3]) == bytes16(x)[p3 as int]);
            assert(pick_byte(x, k@[4]) == bytes16(x)[p4 as int]);
            assert(pick_byte(x, k@[5]) == bytes16(x)[p5 as int]);
            assert(pick_byte(x, k@[6]) == bytes16(x)[p6 as int]);
            assert(pick_byte(x, k@[7]) == bytes16(x)[p7 as int]);
        } else {
            assert(pick_byte(x, k@[8]) == bytes16(x)[8 + p0]);
            assert(pick_byte(x, k@[9]) == bytes16(x)[8 + p1]);
            assert(pick_byte(x, k@[10]) == bytes16(x)[8 + p2]);
            assert(pick_byte(x, k@[11]) == bytes16(x)[8 + p3]);
            assert(pick_byte(x, k@[12]) == bytes16(x)[8 + p4]);
            assert(pick_byte(x, k@[13]) == bytes16(x)[8 + p5]);
            assert(pick_byte(x, k@[14]) == bytes16(x)[8 + p6]);
            assert(pick_byte(x, k@[15]) == bytes16(x)[8 + p7]);
        }
    }
}

} // verus!
