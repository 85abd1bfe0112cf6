//! Four 32-bit lanes held in one 128-bit register.
use core::marker::PhantomData;
use vstd::prelude::*;
use crate::markers::{S3Marker, S4Marker};
use crate::reg::{order1230, order2301, order3012, bytes16, from_lanes32, lanes32, lanes64, le_u128, split32, join32, join64, load16, store16};
use crate::storage::vec128_storage;
use crate::swar::{
    bswap32_s2,
    clear_low_lane,
    eq128_s2,
    high_qword_by_shuffle,
    or_low_lane,
    set_high_qword,
    shift_lanes_up,
    shl32,
    shr32,
    shuffle_bytes,
    shuffle_words,
    swap16_s2,
};
use crate::text::{hex_list, hex_list_string};
use crate::word::{bswap32, rotr32};

verus! {

/// Four 32-bit lanes held in one 128-bit register; the markers say which
/// instruction-set extensions the vector may use.
#[derive(Copy, Debug)]
pub struct u32x4_sse2<S3, S4, NI> {
    x: u128,
    s3: PhantomData<S3>,
    s4: PhantomData<S4>,
    ni: PhantomData<NI>,
}

impl<S3, S4, NI> Clone for u32x4_sse2<S3, S4, NI> {
    fn clone(&self) -> (r: Self)
        ensures
            r == *self,
    {
        u32x4_sse2 { x: self.x, s3: PhantomData, s4: PhantomData, ni: PhantomData }
    }
}

impl<S3, S4, NI> View for u32x4_sse2<S3, S4, NI> {
    type V = Seq<u32>;

    /// The four lanes, lane 0 first.
    open spec fn view(&self) -> Seq<u32> {
        lanes32(self.bits())
    }
}

/// Lane-wise wrapping sum of two four-lane sequences.
pub open spec fn add_lanes32(a: Seq<u32>, b: Seq<u32>) -> Seq<u32> {
    Seq::new(4, |i: int| ((a[i] + b[i]) % 0x1_0000_0000) as u32)
}

impl<S3, S4, NI> u32x4_sse2<S3, S4, NI> {
    /// The register's 128 bits.
    pub closed spec fn bits(self) -> u128 {
        self.x
    }

    /// The vector whose register holds `b`.
    pub closed spec fn from_bits(b: u128) -> Self {
        u32x4_sse2 { x: b, s3: PhantomData, s4: PhantomData, ni: PhantomData }
    }

    /// A vector is determined by its bits.
    pub proof fn lemma_from_bits_of_bits(v: Self)
        ensures
            Self::from_bits(v.bits()) == v,
    {
    }

    pub(crate) fn new(x: u128) -> (r: Self)
        ensures
            r == Self::from_bits(x),
            r.bits() == x,
    {
        u32x4_sse2 { x, s3: PhantomData, s4: PhantomData, ni: PhantomData }
    }

    pub(crate) fn raw(self) -> (r: u128)
        ensures
            r == self.bits(),
    {
        self.x
    }

    /// The vector held in `x`.
    pub fn unpack(x: vec128_storage) -> (r: Self)
        ensures
            r.bits() == x.bits(),
    {
        Self::new(x.load())
    }

    /// Loads the vector from sixteen bytes in memory order.
    pub fn unsafe_read_le(input: &[u8]) -> (r: Self)
        requires
            input@.len() == 16,
        ensures
            r.bits() == le_u128(input@),
            bytes16(r.bits()) == input@,
    {
        Self::new(load16(input))
    }

    /// Stores the vector into sixteen bytes in memory order.
    pub fn write_le(self, out: &mut [u8])
        requires
            old(out)@.len() == 16,
        ensures
            final(out)@ == bytes16(self.bits()),
    {
        store16(self.x, out);
    }

    /// Bits set in `rhs` and clear in `self`.
    pub fn andnot(self, rhs: Self) -> (r: Self)
        ensures
            r.bits() == !self.bits() & rhs.bits(),
    {
        Self::new(!self.x & rhs.x)
    }

    /// The vector with lanes `xs`, lane 0 first.
    pub fn unsafe_from(xs: [u32; 4]) -> (r: Self)
        ensures
            r@ == xs@,
    {
        Self::new(join32(xs))
    }

    /// Lanes in the order 2, 3, 0, 1.
    pub fn shuffle2301(self) -> (r: Self)
        ensures
            r@ == order2301(self@),
    {
        Self::new(shuffle_words(self.x, 0b0100_1110))
    }

    /// Lanes in the order 3, 0, 1, 2.
    pub fn shuffle1230(self) -> (r: Self)
        ensures
            r@ == order1230(self@),
    {
        Self::new(shuffle_words(self.x, 0b1001_0011))
    }

    /// Lanes in the order 1, 2, 3, 0.
    pub fn shuffle3012(self) -> (r: Self)
        ensures
            r@ == order3012(self@),
    {
        Self::new(shuffle_words(self.x, 0b0011_1001))
    }

    /// Lanes in the order 2, 3, 0, 1.
    pub fn shuffle_lane_words2301(self) -> (r: Self)
        ensures
            r@ == order2301(self@),
    {
        self.shuffle2301()
    }

    /// Lanes in the order 3, 0, 1, 2.
    pub fn shuffle_lane_words1230(self) -> (r: Self)
        ensures
            r@ == order1230(self@),
    {
        self.shuffle1230()
    }

    /// Lanes in the order 1, 2, 3, 0.
    pub fn shuffle_lane_words3012(self) -> (r: Self)
        ensures
            r@ == order3012(self@),
    {
        self.shuffle3012()
    }
}

/// Byte-shuffle control that rotates every 32-bit lane right by 8 bits.
const ROTR8_CONTROL: [u8; 16] = [1, 2, 3, 0, 5, 6, 7, 4, 9, 10, 11, 8, 13, 14, 15, 12];

/// Byte-shuffle control that rotates every 32-bit lane right by 16 bits.
const ROTR16_CONTROL: [u8; 16] = [2, 3, 0, 1, 6, 7, 4, 5, 10, 11, 8, 9, 14, 15, 12, 13];

/// Byte-shuffle control that rotates every 32-bit lane right by 24 bits.
const ROTR24_CONTROL: [u8; 16] = [3, 0, 1, 2, 7, 4, 5, 6, 11, 8, 9, 10, 15, 12, 13, 14];

/// Byte-shuffle control that reverses the bytes of every 32-bit lane.
const BSWAP_CONTROL: [u8; 16] = [3, 2, 1, 0, 7, 6, 5, 4, 11, 10, 9, 8, 15, 14, 13, 12];

impl<S3: S3Marker, S4, NI> u32x4_sse2<S3, S4, NI> {
    fn rotate_lanes(self, n: u32) -> (r: Self)
        requires
            0 < n < 32,
        ensures
            r@ == self@.map_values(|a: u32| rotr32(a, n)),
    {
        let a = shr32(self.x, n);
        let b = shl32(self.x, 32 - n);
        let r = a | b;
        proof {
            crate::reg::lemma_lane_bitops(a, b);
            assert(lanes32(r) =~= self@.map_values(|a: u32| rotr32(a, n)));
        }
        Self::new(r)
    }

    /// Rotates each lane right by 7 bits.
    pub fn rotate_each_word_right7(self) -> (r: Self)
        ensures
            r@ == self@.map_values(|a: u32| rotr32(a, 7)),
    {
        self.rotate_lanes(7)
    }

    /// Rotates each lane right by 8 bits.
    pub fn rotate_each_word_right8(self) -> (r: Self)
        ensures
            r@ == self@.map_values(|a: u32| rotr32(a, 8)),
    {
        if S3::ssse3() {
            let k = ROTR8_CONTROL;
            let r = shuffle_bytes(self.x, k);
            proof {
                crate::swar::lemma_lane_permutation32(r, self.x, k, 1, 2, 3, 0);
                crate::reg::lemma_lanes32_bytes(self.x);
                assert forall|j: int| 0 <= j < 4 implies #[trigger] lanes32(r)[j] == rotr32(
                    self@[j],
                    8,
                ) by {
                    crate::word::lemma_rotr32_bytes(self@[j]);
                }
                assert(lanes32(r) =~= self@.map_values(|a: u32| rotr32(a, 8)));
            }
            Self::new(r)
        } else {
            self.rotate_lanes(8)
        }
    }

    /// Rotates each lane right by 11 bits.
    pub fn rotate_each_word_right11(self) -> (r: Self)
        ensures
            r@ == self@.map_values(|a: u32| rotr32(a, 11)),
    {
        self.rotate_lanes(11)
    }

    /// Rotates each lane right by 12 bits.
    pub fn rotate_each_word_right12(self) -> (r: Self)
        ensures
            r@ == self@.map_values(|a: u32| rotr32(a, 12)),
    {
        self.rotate_lanes(12)
    }

    /// Rotates each lane right by 16 bits, exchanging its two halves.
    pub fn rotate_each_word_right16(self) -> (r: Self)
        ensures
            r@ == self@.map_values(|a: u32| rotr32(a, 16)),
    {
        if S3::ssse3() {
            let k = ROTR16_CONTROL;
            let r = shuffle_bytes(self.x, k);
            proof {
                crate::swar::lemma_lane_permutation32(r, self.x, k, 2, 3, 0, 1);
                crate::reg::lemma_lanes32_bytes(self.x);
                assert forall|j: int| 0 <= j < 4 implies #[trigger] lanes32(r)[j] == rotr32(
                    self@[j],
                    16,
                ) by {
                    crate::word::lemma_rotr32_bytes(self@[j]);
                }
                assert(lanes32(r) =~= self@.map_values(|a: u32| rotr32(a, 16)));
            }
            Self::new(r)
        } else {
            Self::new(swap16_s2(self.x))
        }
    }

    /// Rotates each lane right by 20 bits.
    pub fn rotate_each_word_right20(self) -> (r: Self)
        ensures
            r@ == self@.map_values(|a: u32| rotr32(a, 20)),
    {
        self.rotate_lanes(20)
    }

    /// Rotates each lane right by 24 bits.
    pub fn rotate_each_word_right24(self) -> (r: Self)
        ensures
            r@ == self@.map_values(|a: u32| rotr32(a, 24)),
    {
        if S3::ssse3() {
            let k = ROTR24_CONTROL;
            let r = shuffle_bytes(self.x, k);
            proof {
                crate::swar::lemma_lane_permutation32(r, self.x, k, 3, 0, 1, 2);
                crate::reg::lemma_lanes32_bytes(self.x);
                assert forall|j: int| 0 <= j < 4 implies #[trigger] lanes32(r)[j] == rotr32(
                    self@[j],
                    24,
                ) by {
                    crate::word::lemma_rotr32_bytes(self@[j]);
                }
                assert(lanes32(r) =~= self@.map_values(|a: u32| rotr32(a, 24)));
            }
            Self::new(r)
        } else {
            self.rotate_lanes(24)
        }
    }

    /// Rotates each lane right by 25 bits.
    pub fn rotate_each_word_right25(self) -> (r: Self)
        ensures
            r@ == self@.map_values(|a: u32| rotr32(a, 25)),
    {
        self.rotate_lanes(25)
    }

    /// Reverses the byte order of each lane.
    pub fn bswap(self) -> (r: Self)
        ensures
            r@ == self@.map_values(|a: u32| bswap32(a)),
    {
        if S3::ssse3() {
            let k = BSWAP_CONTROL;
            let r = shuffle_bytes(self.x, k);
            proof {
                crate::swar::lemma_lane_permutation32(r, self.x, k, 3, 2, 1, 0);
                crate::reg::lemma_lanes32_bytes(self.x);
                assert(lanes32(r) =~= self@.map_values(|a: u32| bswap32(a)));
            }
            Self::new(r)
        } else {
            Self::new(bswap32_s2(self.x))
        }
    }

    /// Loads the vector from sixteen bytes that hold each lane big-endian.
    pub fn unsafe_read_be(input: &[u8]) -> (r: Self)
        requires
            input@.len() == 16,
        ensures
            r@ == lanes32(le_u128(input@)).map_values(|a: u32| bswap32(a)),
    {
        Self::new(load16(input)).bswap()
    }

    /// Stores the vector into sixteen bytes, each lane big-endian.
    pub fn write_be(self, out: &mut [u8])
        requires
            old(out)@.len() == 16,
        ensures
            final(out)@.len() == 16,
            lanes32(le_u128(final(out)@)) == self@.map_values(|a: u32| bswap32(a)),
    {
        let x = self.bswap().x;
        store16(x, out);
        proof {
            crate::reg::lemma_le_u128_of_bytes(x);
        }
    }
}

impl<S3, S4: S4Marker, NI> u32x4_sse2<S3, S4, NI> {
    /// The four lanes, lane 0 first.
    pub fn to_lanes(self) -> (r: [u32; 4])
        ensures
            r@ == self@,
    {
        let x = self.x as u64;
        let y = if S4::sse41() {
            (self.x >> 64u128) as u64
        } else {
            high_qword_by_shuffle(self.x)
        };
        let r = [x as u32, (x >> 32u64) as u32, y as u32, (y >> 32u64) as u32];
        proof {
            crate::swar::lemma_qword_halves(self.x);
            assert(r@ =~= self@);
        }
        r
    }

    /// The vector with lanes `xs`, lane 0 first.
    pub fn from_lanes(xs: [u32; 4]) -> (r: Self)
        ensures
            r@ == xs@,
    {
        let x = (xs[0] as u64) | ((xs[1] as u64) << 32u64);
        let y = (xs[2] as u64) | ((xs[3] as u64) << 32u64);
        let r = if S4::sse41() {
            set_high_qword(x as u128, y)
        } else {
            join64([x, y])
        };
        proof {
            crate::word::lemma_u64_halves(xs[0], xs[1]);
            crate::word::lemma_u64_halves(xs[2], xs[3]);
            assert(lanes64(r) =~= seq![x, y]);
            crate::swar::lemma_qword_halves(r);
            assert(lanes32(r) =~= xs@);
        }
        Self::new(r)
    }

    /// The lanes as text, lane 0 first: `[` , each lane as eight lower-case
    /// hexadecimal digits, separated by `, `, then `]`.
    pub fn debug_string(&self) -> (r: String)
        ensures
            r@ == hex_list(self@.map_values(|a: u32| a as u64), 8),
    {
        let l = self.clone().to_lanes();
        let vs = [l[0] as u64, l[1] as u64, l[2] as u64, l[3] as u64];
        assert(vs@ =~= self@.map_values(|a: u32| a as u64));
        hex_list_string(&vs, 8)
    }

    /// Lane `i`.
    pub fn extract(self, i: u32) -> (r: u32)
        requires
            i < 4,
        ensures
            r == self@[i as int],
    {
        self.to_lanes()[i as usize]
    }

    /// The vector with lane `i` replaced by `v`.
    pub fn insert(self, v: u32, i: u32) -> (r: Self)
        requires
            i < 4,
        ensures
            r@ == self@.update(i as int, v),
    {
        let r = if S4::sse41() {
            let mut l = split32(self.x);
            l[i as usize] = v;
            join32(l)
        } else {
            match i {
                0 => {
                    let x = clear_low_lane(self.x);
                    or_low_lane(x, v)
                },
                1 => {
                    let mut x = shuffle_words(self.x, 0b0111_1000);
                    x = shift_lanes_up(x);
                    x = or_low_lane(x, v);
                    shuffle_words(x, 0b1110_0001)
                },
                2 => {
                    let mut x = shuffle_words(self.x, 0b1011_0100);
                    x = shift_lanes_up(x);
                    x = or_low_lane(x, v);
                    shuffle_words(x, 0b1100_1001)
                },
                _ => {
                    let mut x = shift_lanes_up(self.x);
                    x = or_low_lane(x, v);
                    shuffle_words(x, 0b0011_1001)
                },
            }
        };
        assert(lanes32(r) =~= self@.update(i as int, v));
        Self::new(r)
    }
}

impl<S3, S4, NI> core::convert::From<u32x4_sse2<S3, S4, NI>> for vec128_storage {
    fn from(x: u32x4_sse2<S3, S4, NI>) -> (r: Self)
        ensures
            r.bits() == x.bits(),
    {
        vec128_storage::store(x.x)
    }
}

impl<S3, S4, NI> vstd::std_specs::convert::FromSpecImpl<u32x4_sse2<S3, S4, NI>> for vec128_storage {
    open spec fn obeys_from_spec() -> bool {
        true
    }

    open spec fn from_spec(v: u32x4_sse2<S3, S4, NI>) -> Self {
        vec128_storage::with_bits(v.bits())
    }
}

impl<S3, S4, NI> Default for u32x4_sse2<S3, S4, NI> {
    fn default() -> (r: Self)
        ensures
            r.bits() == 0,
    {
        Self::new(0)
    }
}

impl<S3, S4, NI> core::ops::Not for u32x4_sse2<S3, S4, NI> {
    type Output = Self;

    fn not(self) -> (r: Self)
        ensures
            r.bits() == !self.bits(),
    {
        proof {
            crate::reg::lemma_xor_ones(self.x);
        }
        Self::new(self.x ^ 0xffff_ffff_ffff_ffff_ffff_ffff_ffff_ffffu128)
    }
}

impl<S3, S4, NI> vstd::std_specs::ops::NotSpecImpl for u32x4_sse2<S3, S4, NI> {
    open spec fn obeys_not_spec() -> bool {
        true
    }

    open spec fn not_req(self) -> bool {
        true
    }

    open spec fn not_spec(self) -> Self {
        Self::from_bits(!self.bits())
    }
}

impl<S3, S4, NI> core::ops::BitAnd for u32x4_sse2<S3, S4, NI> {
    type Output = Self;

    fn bitand(self, rhs: Self) -> (r: Self)
        ensures
            r.bits() == self.bits() & rhs.bits(),
    {
        Self::new(self.x & rhs.x)
    }
}

impl<S3, S4, NI> vstd::std_specs::ops::BitAndSpecImpl for u32x4_sse2<S3, S4, NI> {
    open spec fn obeys_bitand_spec() -> bool {
        true
    }

    open spec fn bitand_req(self, rhs: Self) -> bool {
        true
    }

    open spec fn bitand_spec(self, rhs: Self) -> Self {
        Self::from_bits(self.bits() & rhs.bits())
    }
}

impl<S3, S4, NI> core::ops::BitOr for u32x4_sse2<S3, S4, NI> {
    type Output = Self;

    fn bitor(self, rhs: Self) -> (r: Self)
        ensures
            r.bits() == self.bits() | rhs.bits(),
    {
        Self::new(self.x | rhs.x)
    }
}

impl<S3, S4, NI> vstd::std_specs::ops::BitOrSpecImpl for u32x4_sse2<S3, S4, NI> {
    open spec fn obeys_bitor_spec() -> bool {
        true
    }

    open spec fn bitor_req(self, rhs: Self) -> bool {
        true
    }

    open spec fn bitor_spec(self, rhs: Self) -> Self {
        Self::from_bits(self.bits() | rhs.bits())
    }
}

impl<S3, S4, NI> core::ops::BitXor for u32x4_sse2<S3, S4, NI> {
    type Output = Self;

    fn bitxor(self, rhs: Self) -> (r: Self)
        ensures
            r.bits() == self.bits() ^ rhs.bits(),
    {
        Self::new(self.x ^ rhs.x)
    }
}

impl<S3, S4, NI> vstd::std_specs::ops::BitXorSpecImpl for u32x4_sse2<S3, S4, NI> {
    open spec fn obeys_bitxor_spec() -> bool {
        true
    }

    open spec fn bitxor_req(self, rhs: Self) -> bool {
        true
    }

    open spec fn bitxor_spec(self, rhs: Self) -> Self {
        Self::from_bits(self.bits() ^ rhs.bits())
    }
}

impl<S3, S4, NI> core::ops::BitAndAssign for u32x4_sse2<S3, S4, NI> {
    fn bitand_assign(&mut self, rhs: Self)
        ensures
            final(self).bits() == old(self).bits() & rhs.bits(),
    {
        *self = Self::new(self.x & rhs.x);
    }
}

impl<S3, S4, NI> core::ops::BitOrAssign for u32x4_sse2<S3, S4, NI> {
    fn bitor_assign(&mut self, rhs: Self)
        ensures
            final(self).bits() == old(self).bits() | rhs.bits(),
    {
        *self = Self::new(self.x | rhs.x);
    }
}

impl<S3, S4, NI> core::ops::BitXorAssign for u32x4_sse2<S3, S4, NI> {
    fn bitxor_assign(&mut self, rhs: Self)
        ensures
            final(self).bits() == old(self).bits() ^ rhs.bits(),
    {
        *self = Self::new(self.x ^ rhs.x);
    }
}

impl<S3, S4, NI> core::ops::Add for u32x4_sse2<S3, S4, NI> {
    type Output = Self;

    fn add(self, rhs: Self) -> (r: Self)
        ensures
            r@ == add_lanes32(self@, rhs@),
            forall|i: int| 0 <= i < 4 ==> #[trigger] r@[i] == self@[i].wrapping_add(rhs@[i]),
    {
        let a = split32(self.x);
        let b = split32(rhs.x);
        let r = join32(
            [
                a[0].wrapping_add(b[0]),
                a[1].wrapping_add(b[1]),
                a[2].wrapping_add(b[2]),
                a[3].wrapping_add(b[3]),
            ],
        );
        assert(lanes32(r) =~= add_lanes32(self@, rhs@));
        proof {
            crate::reg::lemma_lanes32_of_from_lanes32(add_lanes32(self@, rhs@));
            crate::reg::lemma_lanes32_injective(r, from_lanes32(add_lanes32(self@, rhs@)));
        }
        Self::new(r)
    }
}

impl<S3, S4, NI> vstd::std_specs::ops::AddSpecImpl for u32x4_sse2<S3, S4, NI> {
    open spec fn obeys_add_spec() -> bool {
        true
    }

    open spec fn add_req(self, rhs: Self) -> bool {
        true
    }

    open spec fn add_spec(self, rhs: Self) -> Self {
        Self::from_bits(from_lanes32(add_lanes32(self@, rhs@)))
    }
}

impl<S3, S4, NI> core::ops::AddAssign for u32x4_sse2<S3, S4, NI> {
    fn add_assign(&mut self, rhs: Self)
        ensures
            final(self)@ == add_lanes32(old(self)@, rhs@),
            forall|i: int| 0 <= i < 4 ==> #[trigger] final(self)@[i] == old(self)@[i].wrapping_add(
                rhs@[i],
            ),
    {
        let cur = Self::new(self.x);
        *self = cur + rhs;
    }
}

impl<S3, S4, NI> PartialEq for u32x4_sse2<S3, S4, NI> {
    fn eq(&self, rhs: &Self) -> (r: bool) {
        eq128_s2(self.x, rhs.x)
    }
}

impl<S3, S4, NI> vstd::std_specs::cmp::PartialEqSpecImpl for u32x4_sse2<S3, S4, NI> {
    open spec fn obeys_eq_spec() -> bool {
        true
    }

    open spec fn eq_spec(&self, other: &Self) -> bool {
        self.bits() == other.bits()
    }
}

} // verus!
