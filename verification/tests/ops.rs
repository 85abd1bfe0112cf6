use ppv_lite86::markers::{NoNI, NoS3, NoS4, YesS3, YesS4};
use ppv_lite86::soft::{x2, x4};
use ppv_lite86::storage::vec128_storage;
use ppv_lite86::u128x1::u128x1_sse2;
use ppv_lite86::u32x4::u32x4_sse2;
use ppv_lite86::u64x2::u64x2_sse2;
use ppv_lite86::wide::{u64x4_sse2, G0};

type Sse2U32x4 = u32x4_sse2<NoS3, NoS4, NoNI>;
type Ssse3U32x4 = u32x4_sse2<YesS3, NoS4, NoNI>;
type Sse41U32x4 = u32x4_sse2<YesS3, YesS4, NoNI>;
type Sse2U64x2 = u64x2_sse2<NoS3, NoS4, NoNI>;
type Ssse3U64x2 = u64x2_sse2<YesS3, NoS4, NoNI>;
type Sse41U64x2 = u64x2_sse2<YesS3, YesS4, NoNI>;
type Sse2U128 = u128x1_sse2<NoS3, NoS4, NoNI>;
type Ssse3U128 = u128x1_sse2<YesS3, NoS4, NoNI>;
type Sse41U64x4 = u64x4_sse2<YesS3, YesS4, NoNI>;

const WORDS32: [u32; 4] = [0x1234_5678, 0x9abc_def0, 0x0f1e_2d3c, 0x8000_0001];
const WORDS64: [u64; 2] = [0x0123_4567_89ab_cdef, 0xf0e1_d2c3_b4a5_9687];
const VALUE128: u128 = 0x0123_4567_89ab_cdef_f0e1_d2c3_b4a5_9687;

fn rotated32(n: u32) -> [u32; 4] {
    [
        WORDS32[0].rotate_right(n),
        WORDS32[1].rotate_right(n),
        WORDS32[2].rotate_right(n),
        WORDS32[3].rotate_right(n),
    ]
}

fn rotated64(n: u32) -> [u64; 2] {
    [WORDS64[0].rotate_right(n), WORDS64[1].rotate_right(n)]
}

fn u128_value_s2(x: Sse2U128) -> u128 {
    let mut out = [0u8; 16];
    x.write_le(&mut out);
    u128::from_le_bytes(out)
}

fn u128_value_s3(x: Ssse3U128) -> u128 {
    let mut out = [0u8; 16];
    x.write_le(&mut out);
    u128::from_le_bytes(out)
}

#[test]
fn rotations_u32x4_match_rotate_right_on_every_machine() {
    let s2 = Sse2U32x4::from_lanes(WORDS32);
    let s3 = Ssse3U32x4::from_lanes(WORDS32);
    let s4 = Sse41U32x4::from_lanes(WORDS32);
    assert_eq!(s2.rotate_each_word_right7().to_lanes(), rotated32(7));
    assert_eq!(s3.rotate_each_word_right7().to_lanes(), rotated32(7));
    assert_eq!(s2.rotate_each_word_right8().to_lanes(), rotated32(8));
    assert_eq!(s3.rotate_each_word_right8().to_lanes(), rotated32(8));
    assert_eq!(s4.rotate_each_word_right8().to_lanes(), rotated32(8));
    assert_eq!(s2.rotate_each_word_right11().to_lanes(), rotated32(11));
    assert_eq!(s3.rotate_each_word_right11().to_lanes(), rotated32(11));
    assert_eq!(s2.rotate_each_word_right12().to_lanes(), rotated32(12));
    assert_eq!(s3.rotate_each_word_right12().to_lanes(), rotated32(12));
    assert_eq!(s2.rotate_each_word_right16().to_lanes(), rotated32(16));
    assert_eq!(s3.rotate_each_word_right16().to_lanes(), rotated32(16));
    assert_eq!(s2.rotate_each_word_right20().to_lanes(), rotated32(20));
    assert_eq!(s3.rotate_each_word_right20().to_lanes(), rotated32(20));
    assert_eq!(s2.rotate_each_word_right24().to_lanes(), rotated32(24));
    assert_eq!(s3.rotate_each_word_right24().to_lanes(), rotated32(24));
    assert_eq!(s2.rotate_each_word_right25().to_lanes(), rotated32(25));
    assert_eq!(s3.rotate_each_word_right25().to_lanes(), rotated32(25));
}

#[test]
fn rotation_of_one_known_word() {
    let x = Sse2U32x4::from_lanes([0x1234_5678, 0, 0, 0]);
    assert_eq!(x.rotate_each_word_right8().extract(0), 0x7812_3456);
    let y = Ssse3U32x4::from_lanes([0x1234_5678, 0, 0, 0]);
    assert_eq!(y.rotate_each_word_right24().extract(0), 0x3456_7812);
}

#[test]
fn rotations_u64x2_match_rotate_right() {
    let s2 = Sse2U64x2::from_lanes(WORDS64);
    let s3 = Ssse3U64x2::from_lanes(WORDS64);
    assert_eq!(s2.rotate_each_word_right7().to_lanes(), rotated64(7));
    assert_eq!(s3.rotate_each_word_right7().to_lanes(), rotated64(7));
    assert_eq!(s2.rotate_each_word_right8().to_lanes(), rotated64(8));
    assert_eq!(s3.rotate_each_word_right8().to_lanes(), rotated64(8));
    assert_eq!(s2.rotate_each_word_right11().to_lanes(), rotated64(11));
    assert_eq!(s2.rotate_each_word_right12().to_lanes(), rotated64(12));
    assert_eq!(s3.rotate_each_word_right16().to_lanes(), rotated64(16));
    assert_eq!(s2.rotate_each_word_right20().to_lanes(), rotated64(20));
    assert_eq!(s2.rotate_each_word_right24().to_lanes(), rotated64(24));
    assert_eq!(s3.rotate_each_word_right24().to_lanes(), rotated64(24));
    assert_eq!(s2.rotate_each_word_right25().to_lanes(), rotated64(25));
    assert_eq!(s2.rotate_each_word_right32().to_lanes(), rotated64(32));
    assert_eq!(s3.rotate_each_word_right32().to_lanes(), rotated64(32));
}

#[test]
fn rotate16_u64x2_without_ssse3_rotates_each_half() {
    let s2 = Sse2U64x2::from_lanes([0x0123_4567_89ab_cdef, 0]);
    assert_eq!(s2.rotate_each_word_right16().to_lanes(), [0x4567_0123_cdef_89ab, 0]);
    let s3 = Ssse3U64x2::from_lanes([0x0123_4567_89ab_cdef, 0]);
    assert_eq!(s3.rotate_each_word_right16().to_lanes(), [0xcdef_0123_4567_89ab, 0]);
}

#[test]
fn rotations_undo_each_other() {
    let x = Ssse3U32x4::from_lanes(WORDS32);
    assert_eq!(x.rotate_each_word_right8().rotate_each_word_right24(), x);
    assert_eq!(x.rotate_each_word_right7().rotate_each_word_right25(), x);
    assert_eq!(x.rotate_each_word_right12().rotate_each_word_right20(), x);
    assert_eq!(x.rotate_each_word_right16().rotate_each_word_right16(), x);
    let y = Sse2U64x2::from_lanes(WORDS64);
    assert_eq!(y.rotate_each_word_right32().rotate_each_word_right32(), y);
}

#[test]
fn bswap_matches_swap_bytes() {
    let expected32 = [
        WORDS32[0].swap_bytes(),
        WORDS32[1].swap_bytes(),
        WORDS32[2].swap_bytes(),
        WORDS32[3].swap_bytes(),
    ];
    assert_eq!(Sse2U32x4::from_lanes(WORDS32).bswap().to_lanes(), expected32);
    assert_eq!(Ssse3U32x4::from_lanes(WORDS32).bswap().to_lanes(), expected32);
    let expected64 = [WORDS64[0].swap_bytes(), WORDS64[1].swap_bytes()];
    assert_eq!(Sse2U64x2::from_lanes(WORDS64).bswap().to_lanes(), expected64);
    assert_eq!(Ssse3U64x2::from_lanes(WORDS64).bswap().to_lanes(), expected64);
}

#[test]
fn bswap_twice_is_identity() {
    let x = Sse2U32x4::from_lanes(WORDS32);
    assert_eq!(x.bswap().bswap(), x);
    let y = Ssse3U64x2::from_lanes(WORDS64);
    assert_eq!(y.bswap().bswap(), y);
}

#[test]
fn bswap_u128_with_ssse3_leaves_the_value() {
    let x = Ssse3U128::unsafe_read_le(&VALUE128.to_le_bytes());
    assert_eq!(u128_value_s3(x.bswap()), VALUE128);
}

fn swapped(x: u128, k: u32) -> u128 {
    let mut r = 0u128;
    for j in 0..128u32 {
        if (x >> (j ^ k)) & 1 == 1 {
            r |= 1u128 << j;
        }
    }
    r
}

#[test]
fn swaps_exchange_bit_groups() {
    let s2 = Sse2U128::unsafe_read_le(&VALUE128.to_le_bytes());
    let s3 = Ssse3U128::unsafe_read_le(&VALUE128.to_le_bytes());
    assert_eq!(u128_value_s2(s2.swap1()), swapped(VALUE128, 1));
    assert_eq!(u128_value_s2(s2.swap2()), swapped(VALUE128, 2));
    assert_eq!(u128_value_s2(s2.swap4()), swapped(VALUE128, 4));
    assert_eq!(u128_value_s2(s2.swap8()), swapped(VALUE128, 8));
    assert_eq!(u128_value_s3(s3.swap8()), swapped(VALUE128, 8));
    assert_eq!(u128_value_s2(s2.swap16()), swapped(VALUE128, 16));
    assert_eq!(u128_value_s3(s3.swap16()), swapped(VALUE128, 16));
    assert_eq!(u128_value_s2(s2.swap32()), swapped(VALUE128, 32));
    assert_eq!(u128_value_s2(s2.swap64()), swapped(VALUE128, 64));
    assert_eq!(u128_value_s3(s3.swap1()), 0x0213_8a9b_4657_cedf_f0d2_e1c3_785a_694b);
}

#[test]
fn swaps_twice_and_all_swaps_reverse() {
    let s2 = Sse2U128::unsafe_read_le(&VALUE128.to_le_bytes());
    assert_eq!(u128_value_s2(s2.swap4().swap4()), VALUE128);
    assert_eq!(u128_value_s2(s2.swap64().swap64()), VALUE128);
    let all = s2.swap1().swap2().swap4().swap8().swap16().swap32().swap64();
    assert_eq!(u128_value_s2(all), VALUE128.reverse_bits());
}

#[test]
fn u128_rotations_shift_by_bytes() {
    let x = Sse2U128::unsafe_read_le(&VALUE128.to_le_bytes());
    assert_eq!(u128_value_s2(x.rotate_each_word_right7()), VALUE128 >> 56);
    assert_eq!(u128_value_s2(x.rotate_each_word_right8()), VALUE128 >> 64);
    assert_eq!(u128_value_s2(x.rotate_each_word_right11()), VALUE128 >> 88);
    assert_eq!(u128_value_s2(x.rotate_each_word_right12()), VALUE128 >> 96);
    assert_eq!(u128_value_s2(x.rotate_each_word_right16()), 0);
    assert_eq!(u128_value_s2(x.rotate_each_word_right20()), 0);
    assert_eq!(u128_value_s2(x.rotate_each_word_right24()), 0);
    assert_eq!(u128_value_s2(x.rotate_each_word_right25()), 0);
    assert_eq!(u128_value_s2(x.rotate_each_word_right32()), 0);
}

#[test]
fn read_write_le_roundtrip() {
    let bytes: [u8; 16] = [0, 1, 2, 3, 4, 5, 6, 7, 8, 9, 10, 11, 12, 13, 14, 15];
    let x = Sse2U32x4::unsafe_read_le(&bytes);
    assert_eq!(x.to_lanes(), [0x0302_0100, 0x0706_0504, 0x0b0a_0908, 0x0f0e_0d0c]);
    let mut out = [0u8; 16];
    x.write_le(&mut out);
    assert_eq!(out, bytes);
    let y = Sse41U64x2::unsafe_read_le(&bytes);
    assert_eq!(y.to_lanes(), [0x0706_0504_0302_0100, 0x0f0e_0d0c_0b0a_0908]);
    let z = Sse2U128::unsafe_read_le(&bytes);
    assert_eq!(u128_value_s2(z), u128::from_le_bytes(bytes));
}

#[test]
fn read_write_be() {
    let bytes: [u8; 16] = [0, 1, 2, 3, 4, 5, 6, 7, 8, 9, 10, 11, 12, 13, 14, 15];
    let x = Sse2U32x4::unsafe_read_be(&bytes);
    assert_eq!(x.to_lanes(), [0x0001_0203, 0x0405_0607, 0x0809_0a0b, 0x0c0d_0e0f]);
    let mut out = [0u8; 16];
    x.write_be(&mut out);
    assert_eq!(out, bytes);
    let y = Ssse3U64x2::unsafe_read_be(&bytes);
    assert_eq!(y.to_lanes(), [0x0001_0203_0405_0607, 0x0809_0a0b_0c0d_0e0f]);
    let mut out = [0u8; 16];
    y.write_be(&mut out);
    assert_eq!(out, bytes);
    let z = Ssse3U128::unsafe_read_be(&bytes);
    let mut out = [0u8; 16];
    z.write_be(&mut out);
    assert_eq!(out, bytes);
}

#[test]
fn wrapping_lane_addition() {
    let a = Sse2U32x4::from_lanes([u32::MAX, 1, 2, 0x8000_0000]);
    let b = Sse2U32x4::from_lanes([1, 1, 1, 0x8000_0000]);
    assert_eq!((a + b).to_lanes(), [0, 2, 3, 0]);
    let mut c = a;
    c += b;
    assert_eq!(c.to_lanes(), [0, 2, 3, 0]);
    let d = Sse2U64x2::from_lanes([u64::MAX, 5]);
    let e = Sse2U64x2::from_lanes([2, 6]);
    assert_eq!((d + e).to_lanes(), [1, 11]);
}

#[test]
fn bitwise_operations() {
    let a = Sse2U32x4::from_lanes([0xff00_ff00, 0, u32::MAX, 0x1234_5678]);
    let b = Sse2U32x4::from_lanes([0x0ff0_0ff0, u32::MAX, 0, 0xffff_0000]);
    assert_eq!((a & b).to_lanes(), [0x0f00_0f00, 0, 0, 0x1234_0000]);
    assert_eq!((a | b).to_lanes(), [0xfff0_fff0, u32::MAX, u32::MAX, 0xffff_5678]);
    assert_eq!((a ^ b).to_lanes(), [0xf0f0_f0f0, u32::MAX, u32::MAX, 0xedcb_5678]);
    assert_eq!((!a).to_lanes(), [0x00ff_00ff, u32::MAX, 0, 0xedcb_a987]);
    assert_eq!(a.andnot(b).to_lanes(), [0x00f0_00f0, u32::MAX, 0, 0xedcb_0000]);
    let mut c = a;
    c &= b;
    assert_eq!(c, a & b);
    let mut c = a;
    c |= b;
    assert_eq!(c, a | b);
    let mut c = a;
    c ^= b;
    assert_eq!(c, a ^ b);
    assert_eq!(Sse2U32x4::default().to_lanes(), [0, 0, 0, 0]);
    assert_eq!(Sse2U64x2::default().to_lanes(), [0, 0]);
    assert_eq!(u128_value_s2(!Sse2U128::default()), u128::MAX);
}

#[test]
fn equality_compares_every_lane() {
    let a = Sse2U32x4::from_lanes([1, 2, 3, 4]);
    assert_ne!(a, Sse2U32x4::from_lanes([1, 2, 3, 5]));
    assert_ne!(a, Sse2U32x4::from_lanes([0, 2, 3, 4]));
    let b = Sse2U64x2::from_lanes([1, 2]);
    assert_ne!(b, Sse2U64x2::from_lanes([1, 3]));
}

#[test]
fn lane_access_and_shuffles() {
    let x = Sse41U32x4::unsafe_from([10, 20, 30, 40]);
    assert_eq!(x.shuffle_lane_words2301().to_lanes(), [30, 40, 10, 20]);
    assert_eq!(x.shuffle_lane_words1230().to_lanes(), [40, 10, 20, 30]);
    assert_eq!(x.shuffle_lane_words3012().to_lanes(), [20, 30, 40, 10]);
    assert_eq!(x.shuffle2301().shuffle2301(), x);
    assert_eq!(x.shuffle3012().shuffle1230(), x);
    let y = Sse2U64x2::unsafe_from([7, 8]);
    assert_eq!(y.to_lanes(), [7, 8]);
}

#[test]
fn storage_roundtrip() {
    let x = Sse2U32x4::from_lanes(WORDS32);
    assert_eq!(Sse2U32x4::unpack(vec128_storage::from(x)), x);
    let y = Sse2U64x2::from_lanes(WORDS64);
    assert_eq!(Sse2U64x2::unpack(vec128_storage::from(y)), y);
    let z = Sse2U128::unsafe_read_le(&VALUE128.to_le_bytes());
    assert_eq!(u128_value_s2(Sse2U128::unpack(vec128_storage::from(z))), VALUE128);
}

#[test]
fn conversions_from_u128x1() {
    let z = Sse2U128::unsafe_read_le(&VALUE128.to_le_bytes());
    let w = Sse2U32x4::from(z);
    assert_eq!(w.to_lanes(), [0xb4a5_9687, 0xf0e1_d2c3, 0x89ab_cdef, 0x0123_4567]);
    let q = Sse2U64x2::from(z);
    assert_eq!(q.to_lanes(), [0xf0e1_d2c3_b4a5_9687, 0x0123_4567_89ab_cdef]);
    let pair: x2<Sse2U128, G0> = x2::new([z, z.swap64()]);
    let pair64: x2<Sse2U64x2, G0> = x2::from(pair);
    assert_eq!(pair64.0[1].to_lanes(), [0x0123_4567_89ab_cdef, 0xf0e1_d2c3_b4a5_9687]);
    let pair32: x2<Sse2U32x4, G0> = x2::from(pair);
    assert_eq!(pair32.0[0], w);
    let quad = x4::new([z, z, z.swap64(), z]);
    let quad64: x4<Sse2U64x2> = x4::from(quad);
    assert_eq!(quad64.0[2].to_lanes(), [0x0123_4567_89ab_cdef, 0xf0e1_d2c3_b4a5_9687]);
    let quad32: x4<Sse2U32x4> = x4::from(quad);
    assert_eq!(quad32.0[3], w);
}

#[test]
fn u64x4_lanes() {
    let x = Sse41U64x4::from_lanes([1, 2, 3, 4]);
    assert_eq!(x.to_lanes(), [1, 2, 3, 4]);
    assert_eq!(x.extract(0), 1);
    assert_eq!(x.extract(3), 4);
    assert_eq!(x.insert(9, 0).to_lanes(), [9, 2, 3, 4]);
    assert_eq!(x.insert(9, 1).to_lanes(), [1, 9, 3, 4]);
    assert_eq!(x.insert(9, 2).to_lanes(), [1, 2, 9, 4]);
    assert_eq!(x.insert(9, 3).to_lanes(), [1, 2, 3, 9]);
    assert_eq!(x.shuffle2301().to_lanes(), [3, 4, 1, 2]);
    assert_eq!(x.shuffle3012().to_lanes(), [2, 3, 4, 1]);
    assert_eq!(x.shuffle1230().to_lanes(), [4, 1, 2, 3]);
    assert_eq!(x.shuffle3012().shuffle1230(), x);
}

#[test]
fn insert_on_sse2_keeps_other_lanes() {
    let x = Sse2U32x4::from_lanes(WORDS32);
    for i in 0..4u32 {
        let y = x.insert(0xdead_beef, i);
        for j in 0..4u32 {
            let expected = if i == j { 0xdead_beef } else { WORDS32[j as usize] };
            assert_eq!(y.extract(j), expected);
        }
    }
    let z = Sse2U64x2::from_lanes(WORDS64);
    assert_eq!(z.insert(5, 0).to_lanes(), [5, WORDS64[1]]);
    assert_eq!(z.insert(5, 1).to_lanes(), [WORDS64[0], 5]);
}

#[test]
fn debug_text_lists_lanes_in_hex() {
    let x = Sse2U32x4::from_lanes([1, 0xabcd, 0xffff_ffff, 0x1234_5678]);
    assert_eq!(x.debug_string(), "[00000001, 0000abcd, ffffffff, 12345678]");
    assert_eq!(x.debug_string(), format!("{:08x?}", x.to_lanes()));
    let y = Sse41U64x2::from_lanes(WORDS64);
    assert_eq!(y.debug_string(), "[0123456789abcdef, f0e1d2c3b4a59687]");
    assert_eq!(y.debug_string(), format!("{:016x?}", y.to_lanes()));
    let z = Sse41U64x4::from_lanes([1, 2, 0xff, u64::MAX]);
    assert_eq!(
        z.debug_string(),
        "[0000000000000001, 0000000000000002, 00000000000000ff, ffffffffffffffff]"
    );
    assert_eq!(z.debug_string(), format!("{:016x?}", z.to_lanes()));
}
