//! One 128-bit lane held in one 128-bit register.
use core::marker::PhantomData;
use vstd::prelude::*;
use crate::markers::S3Marker;
use crate::reg::{bytes16, lanes32, le_u128, load16, store16};
use crate::storage::vec128_storage;
use crate::swar::{
    shuffle_bytes,
    swaps_groups,
    swap1_s2,
    swap2_s2,
    swap4_s2,
    swap8_s2,
    swap16_s2,
    swap32_s2,
    swap64_s2,
};
use crate::u32x4::u32x4_sse2;
use crate::u64x2::u64x2_sse2;

verus! {

/// One 128-bit lane held in one 128-bit register; the markers say which
/// instruction-set extensions the vector may use.
#[derive(Copy, Debug)]
pub struct u128x1_sse2<S3, S4, NI> {
    x: u128,
    s3: PhantomData<S3>,
    s4: PhantomData<S4>,
    ni: PhantomData<NI>,
}

impl<S3, S4, NI> Clone for u128x1_sse2<S3, S4, NI> {
    fn clone(&self) -> (r: Self)
        ensures
            r == *self,
    {
        u128x1_sse2 { x: self.x, s3: PhantomData, s4: PhantomData, ni: PhantomData }
    }
}

impl<S3, S4, NI> View for u128x1_sse2<S3, S4, NI> {
    type V = u128;

    /// The register's value.
    open spec fn view(&self) -> u128 {
        self.bits()
    }
}

impl<S3, S4, NI> u128x1_sse2<S3, S4, NI> {
    /// The register's 128 bits.
    pub closed spec fn bits(self) -> u128 {
        self.x
    }

    /// The vector whose register holds `b`.
    pub closed spec fn from_bits(b: u128) -> Self {
        u128x1_sse2 { x: b, s3: PhantomData, s4: PhantomData, ni: PhantomData }
    }

    /// A vector is determined by its bits.
    pub proof fn lemma_from_bits_of_bits(v: Self)
        ensures
            Self::from_bits(v.bits()) == v,
    {
    }

    pub(crate) fn new(x: u128) -> (r: Self)
        ensures
            r == Self::from_bits(x),
            r.bits() == x,
    {
        u128x1_sse2 { x, s3: PhantomData, s4: PhantomData, ni: PhantomData }
    }

    pub(crate) fn raw(self) -> (r: u128)
        ensures
            r == self.bits(),
    {
        self.x
    }

    /// The vector held in `x`.
    pub fn unpack(x: vec128_storage) -> (r: Self)
        ensures
            r.bits() == x.bits(),
    {
        Self::new(x.load())
    }

    /// Loads the vector from sixteen bytes in memory order.
    pub fn unsafe_read_le(input: &[u8]) -> (r: Self)
        requires
            input@.len() == 16,
        ensures
            r.bits() == le_u128(input@),
            bytes16(r.bits()) == input@,
    {
        Self::new(load16(input))
    }

    /// Stores the vector into sixteen bytes in memory order.
    pub fn write_le(self, out: &mut [u8])
        requires
            old(out)@.len() == 16,
        ensures
            final(out)@ == bytes16(self.bits()),
    {
        store16(self.x, out);
    }

    /// Bits set in `rhs` and clear in `self`.
    pub fn andnot(self, rhs: Self) -> (r: Self)
        ensures
            r.bits() == !self.bits() & rhs.bits(),
    {
        Self::new(!self.x & rhs.x)
    }

    /// Shifts the register right by 7 bytes (56 bits). The left shift
    /// that would carry the low bytes around to the top is by 121 bytes,
    /// which leaves nothing, so the vacated high bytes are zero.
    pub fn rotate_each_word_right7(self) -> (r: Self)
        ensures
            r@ == self@ >> 56u128,
    {
        Self::new(self.x >> 56u128)
    }

    /// Shifts the register right by 8 bytes (64 bits). The left shift
    /// that would carry the low bytes around to the top is by 120 bytes,
    /// which leaves nothing, so the vacated high bytes are zero.
    pub fn rotate_each_word_right8(self) -> (r: Self)
        ensures
            r@ == self@ >> 64u128,
    {
        Self::new(self.x >> 64u128)
    }

    /// Shifts the register right by 11 bytes (88 bits). The left shift
    /// that would carry the low bytes around to the top is by 117 bytes,
    /// which leaves nothing, so the vacated high bytes are zero.
    pub fn rotate_each_word_right11(self) -> (r: Self)
        ensures
            r@ == self@ >> 88u128,
    {
        Self::new(self.x >> 88u128)
    }

    /// Shifts the register right by 12 bytes (96 bits). The left shift
    /// that would carry the low bytes around to the top is by 116 bytes,
    /// which leaves nothing, so the vacated high bytes are zero.
    pub fn rotate_each_word_right12(self) -> (r: Self)
        ensures
            r@ == self@ >> 96u128,
    {
        Self::new(self.x >> 96u128)
    }

    /// Shifts the register right by 16 bytes, which leaves nothing (the left
    /// shift by 112 bytes leaves nothing either): the result is zero.
    pub fn rotate_each_word_right16(self) -> (r: Self)
        ensures
            r@ == 0,
    {
        Self::new(0)
    }

    /// Shifts the register right by 20 bytes, which leaves nothing (the left
    /// shift by 108 bytes leaves nothing either): the result is zero.
    pub fn rotate_each_word_right20(self) -> (r: Self)
        ensures
            r@ == 0,
    {
        Self::new(0)
    }

    /// Shifts the register right by 24 bytes, which leaves nothing (the left
    /// shift by 104 bytes leaves nothing either): the result is zero.
    pub fn rotate_each_word_right24(self) -> (r: Self)
        ensures
            r@ == 0,
    {
        Self::new(0)
    }

    /// Shifts the register right by 25 bytes, which leaves nothing (the left
    /// shift by 103 bytes leaves nothing either): the result is zero.
    pub fn rotate_each_word_right25(self) -> (r: Self)
        ensures
            r@ == 0,
    {
        Self::new(0)
    }

    /// Shifts the register right by 32 bytes, which leaves nothing (the left
    /// shift by 96 bytes leaves nothing either): the result is zero.
    pub fn rotate_each_word_right32(self) -> (r: Self)
        ensures
            r@ == 0,
    {
        Self::new(0)
    }
}

/// Byte-shuffle control that exchanges the two bytes of each 16-bit group.
const SWAP8_CONTROL: [u8; 16] = [1, 0, 3, 2, 5, 4, 7, 6, 9, 8, 11, 10, 13, 12, 15, 14];

/// Byte-shuffle control that exchanges the 16-bit halves of each 32-bit group.
const SWAP16_CONTROL: [u8; 16] = [2, 3, 0, 1, 6, 7, 4, 5, 10, 11, 8, 9, 14, 15, 12, 13];

/// Byte-shuffle control that leaves every byte in place.
const IDENTITY_CONTROL: [u8; 16] = [0, 1, 2, 3, 4, 5, 6, 7, 8, 9, 10, 11, 12, 13, 14, 15];

impl<S3: S3Marker, S4, NI> u128x1_sse2<S3, S4, NI> {
    /// Exchanges each pair of adjacent bits: bit `j` of the result is bit `j ^ 1`.
    pub fn swap1(self) -> (r: Self)
        ensures
            swaps_groups(r@, self@, 1),
    {
        Self::new(swap1_s2(self.x))
    }

    /// Exchanges each pair of adjacent 2-bit groups: bit `j` of the result is bit `j ^ 2`.
    pub fn swap2(self) -> (r: Self)
        ensures
            swaps_groups(r@, self@, 2),
    {
        Self::new(swap2_s2(self.x))
    }

    /// Exchanges the two nibbles of each byte: bit `j` of the result is bit `j ^ 4`.
    pub fn swap4(self) -> (r: Self)
        ensures
            swaps_groups(r@, self@, 4),
    {
        Self::new(swap4_s2(self.x))
    }

    /// Exchanges the two bytes of each 16-bit group: bit `j` of the result is
    /// bit `j ^ 8`.
    pub fn swap8(self) -> (r: Self)
        ensures
            swaps_groups(r@, self@, 8),
    {
        if S3::ssse3() {
            let k = SWAP8_CONTROL;
            let r = shuffle_bytes(self.x, k);
            let ghost s = ((self.x << 8u128) & 0xff00_ff00_ff00_ff00_ff00_ff00_ff00_ff00u128) | ((
            self.x >> 8u128) & 0x00ff_00ff_00ff_00ff_00ff_00ff_00ff_00ffu128);
            proof {
                crate::swar::lemma_lane_permutation32(r, self.x, k, 1, 0, 3, 2);
                crate::swar::lemma_swap8_words(self.x, s);
                crate::swar::lemma_swap8_bits(self.x, s);
                crate::reg::lemma_bytes16_values(self.x);
                assert forall|j: int| 0 <= j < 4 implies #[trigger] lanes32(r)[j] == lanes32(s)[j] by {
                    if j == 0 {
                    } else if j == 1 {
                    } else if j == 2 {
                    } else {
                    }
                }
                assert(lanes32(r) =~= lanes32(s));
                crate::reg::lemma_lanes32_injective(r, s);
            }
            Self::new(r)
        } else {
            Self::new(swap8_s2(self.x))
        }
    }

    /// Exchanges the two 16-bit halves of each 32-bit group: bit `j` of the
    /// result is bit `j ^ 16`.
    pub fn swap16(self) -> (r: Self)
        ensures
            swaps_groups(r@, self@, 16),
    {
        if S3::ssse3() {
            let k = SWAP16_CONTROL;
            let r = shuffle_bytes(self.x, k);
            let ghost s = ((self.x << 16u128) & 0xffff0000_ffff0000_ffff0000_ffff0000u128) | ((
            self.x >> 16u128) & 0x0000ffff_0000ffff_0000ffff_0000ffffu128);
            proof {
                crate::swar::lemma_lane_permutation32(r, self.x, k, 2, 3, 0, 1);
                crate::swar::lemma_swap16_lanes(self.x, s);
                crate::reg::lemma_lanes32_bytes(self.x);
                assert forall|j: int| 0 <= j < 4 implies #[trigger] lanes32(r)[j] == lanes32(s)[j] by {
                    crate::word::lemma_rotr32_bytes(lanes32(self.x)[j]);
                    if j == 0 {
                    } else if j == 1 {
                    } else if j == 2 {
                    } else {
                    }
                }
                assert(lanes32(r) =~= lanes32(s));
                crate::reg::lemma_lanes32_injective(r, s);
            }
            Self::new(r)
        } else {
            Self::new(swap16_s2(self.x))
        }
    }

    /// Exchanges the two 32-bit halves of each 64-bit group: bit `j` of the
    /// result is bit `j ^ 32`.
    pub fn swap32(self) -> (r: Self)
        ensures
            swaps_groups(r@, self@, 32),
    {
        Self::new(swap32_s2(self.x))
    }

    /// Exchanges the two 64-bit halves of the register: bit `j` of the result
    /// is bit `j ^ 64`.
    pub fn swap64(self) -> (r: Self)
        ensures
            swaps_groups(r@, self@, 64),
    {
        Self::new(swap64_s2(self.x))
    }

    /// With SSSE3, the byte shuffle performed here maps every byte to itself,
    /// so the vector comes back unchanged; there is no version without SSSE3.
    pub fn bswap(self) -> (r: Self)
        requires
            S3::has_ssse3(),
        ensures
            r@ == self@,
    {
        let k = IDENTITY_CONTROL;
        let r = shuffle_bytes(self.x, k);
        proof {
            crate::swar::lemma_lane_permutation32(r, self.x, k, 0, 1, 2, 3);
            crate::reg::lemma_lanes32_bytes(self.x);
            assert(lanes32(r) =~= lanes32(self.x));
            crate::reg::lemma_lanes32_injective(r, self.x);
        }
        Self::new(r)
    }

    /// Loads the vector from sixteen bytes in memory order and applies
    /// `bswap`.
    pub fn unsafe_read_be(input: &[u8]) -> (r: Self)
        requires
            S3::has_ssse3(),
            input@.len() == 16,
        ensures
            r@ == le_u128(input@),
    {
        Self::new(load16(input)).bswap()
    }

    /// Applies `bswap` and stores the vector into sixteen bytes in memory
    /// order.
    pub fn write_be(self, out: &mut [u8])
        requires
            S3::has_ssse3(),
            old(out)@.len() == 16,
        ensures
            final(out)@ == bytes16(self.bits()),
    {
        let x = self.bswap().x;
        store16(x, out);
    }
}

impl<S3, S4, NI> core::convert::From<u128x1_sse2<S3, S4, NI>> for vec128_storage {
    fn from(x: u128x1_sse2<S3, S4, NI>) -> (r: Self)
        ensures
            r.bits() == x.bits(),
    {
        vec128_storage::store(x.x)
    }
}

impl<S3, S4, NI> vstd::std_specs::convert::FromSpecImpl<u128x1_sse2<S3, S4, NI>> for vec128_storage {
    open spec fn obeys_from_spec() -> bool {
        true
    }

    open spec fn from_spec(v: u128x1_sse2<S3, S4, NI>) -> Self {
        vec128_storage::with_bits(v.bits())
    }
}

impl<S3, S4, NI> Default for u128x1_sse2<S3, S4, NI> {
    fn default() -> (r: Self)
        ensures
            r.bits() == 0,
    {
        Self::new(0)
    }
}

impl<S3, S4, NI> core::ops::Not for u128x1_sse2<S3, S4, NI> {
    type Output = Self;

    fn not(self) -> (r: Self)
        ensures
            r.bits() == !self.bits(),
    {
        proof {
            crate::reg::lemma_xor_ones(self.x);
        }
        Self::new(self.x ^ 0xffff_ffff_ffff_ffff_ffff_ffff_ffff_ffffu128)
    }
}

impl<S3, S4, NI> vstd::std_specs::ops::NotSpecImpl for u128x1_sse2<S3, S4, NI> {
    open spec fn obeys_not_spec() -> bool {
        true
    }

    open spec fn not_req(self) -> bool {
        true
    }

    open spec fn not_spec(self) -> Self {
        Self::from_bits(!self.bits())
    }
}

impl<S3, S4, NI> core::ops::BitAnd for u128x1_sse2<S3, S4, NI> {
    type Output = Self;

    fn bitand(self, rhs: Self) -> (r: Self)
        ensures
            r.bits() == self.bits() & rhs.bits(),
    {
        Self::new(self.x & rhs.x)
    }
}

impl<S3, S4, NI> vstd::std_specs::ops::BitAndSpecImpl for u128x1_sse2<S3, S4, NI> {
    open spec fn obeys_bitand_spec() -> bool {
        true
    }

    open spec fn bitand_req(self, rhs: Self) -> bool {
        true
    }

    open spec fn bitand_spec(self, rhs: Self) -> Self {
        Self::from_bits(self.bits() & rhs.bits())
    }
}

impl<S3, S4, NI> core::ops::BitOr for u128x1_sse2<S3, S4, NI> {
    type Output = Self;

    fn bitor(self, rhs: Self) -> (r: Self)
        ensures
            r.bits() == self.bits() | rhs.bits(),
    {
        Self::new(self.x | rhs.x)
    }
}

impl<S3, S4, NI> vstd::std_specs::ops::BitOrSpecImpl for u128x1_sse2<S3, S4, NI> {
    open spec fn obeys_bitor_spec() -> bool {
        true
    }

    open spec fn bitor_req(self, rhs: Self) -> bool {
        true
    }

    open spec fn bitor_spec(self, rhs: Self) -> Self {
        Self::from_bits(self.bits() | rhs.bits())
    }
}

impl<S3, S4, NI> core::ops::BitXor for u128x1_sse2<S3, S4, NI> {
    type Output = Self;

    fn bitxor(self, rhs: Self) -> (r: Self)
        ensures
            r.bits() == self.bits() ^ rhs.bits(),
    {
        Self::new(self.x ^ rhs.x)
    }
}

impl<S3, S4, NI> vstd::std_specs::ops::BitXorSpecImpl for u128x1_sse2<S3, S4, NI> {
    open spec fn obeys_bitxor_spec() -> bool {
        true
    }

    open spec fn bitxor_req(self, rhs: Self) -> bool {
        true
    }

    open spec fn bitxor_spec(self, rhs: Self) -> Self {
        Self::from_bits(self.bits() ^ rhs.bits())
    }
}

impl<S3, S4, NI> core::ops::BitAndAssign for u128x1_sse2<S3, S4, NI> {
    fn bitand_assign(&mut self, rhs: Self)
        ensures
            final(self).bits() == old(self).bits() & rhs.bits(),
    {
        *self = Self::new(self.x & rhs.x);
    }
}

impl<S3, S4, NI> core::ops::BitOrAssign for u128x1_sse2<S3, S4, NI> {
    fn bitor_assign(&mut self, rhs: Self)
        ensures
            final(self).bits() == old(self).bits() | rhs.bits(),
    {
        *self = Self::new(self.x | rhs.x);
    }
}

impl<S3, S4, NI> core::ops::BitXorAssign for u128x1_sse2<S3, S4, NI> {
    fn bitxor_assign(&mut self, rhs: Self)
        ensures
            final(self).bits() == old(self).bits() ^ rhs.bits(),
    {
        *self = Self::new(self.x ^ rhs.x);
    }
}

impl<S3, S4, NI> core::convert::From<u128x1_sse2<S3, S4, NI>> for u32x4_sse2<S3, S4, NI> {
    fn from(x: u128x1_sse2<S3, S4, NI>) -> (r: Self)
        ensures
            r.bits() == x.bits(),
    {
        u32x4_sse2::new(x.x)
    }
}

impl<S3, S4, NI> vstd::std_specs::convert::FromSpecImpl<u128x1_sse2<S3, S4, NI>> for u32x4_sse2<S3, S4, NI> {
    open spec fn obeys_from_spec() -> bool {
        true
    }

    open spec fn from_spec(v: u128x1_sse2<S3, S4, NI>) -> Self {
        u32x4_sse2::from_bits(v.bits())
    }
}

impl<S3, S4, NI> core::convert::From<u128x1_sse2<S3, S4, NI>> for u64x2_sse2<S3, S4, NI> {
    fn from(x: u128x1_sse2<S3, S4, NI>) -> (r: Self)
        ensures
            r.bits() == x.bits(),
    {
        u64x2_sse2::new(x.x)
    }
}

impl<S3, S4, NI> vstd::std_specs::convert::FromSpecImpl<u128x1_sse2<S3, S4, NI>> for u64x2_sse2<S3, S4, NI> {
    open spec fn obeys_from_spec() -> bool {
        true
    }

    open spec fn from_spec(v: u128x1_sse2<S3, S4, NI>) -> Self {
        u64x2_sse2::from_bits(v.bits())
    }
}

} // verus!
