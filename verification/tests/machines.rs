use ppv_lite86::markers::{NoNI, NoS3, NoS4, YesS3, YesS4};
use ppv_lite86::storage::vec128_storage;
use ppv_lite86::u32x4::u32x4_sse2;
use ppv_lite86::u64x2::u64x2_sse2;
use ppv_lite86::wide::u64x4_sse2;

type Sse2U32x4 = u32x4_sse2<NoS3, NoS4, NoNI>;
type Ssse3U32x4 = u32x4_sse2<YesS3, NoS4, NoNI>;
type Sse41U32x4 = u32x4_sse2<YesS3, YesS4, NoNI>;
type Sse2U64x2 = u64x2_sse2<NoS3, NoS4, NoNI>;
type Ssse3U64x2 = u64x2_sse2<YesS3, NoS4, NoNI>;
type Sse41U64x2 = u64x2_sse2<YesS3, YesS4, NoNI>;
type Sse2U64x4 = u64x4_sse2<NoS3, NoS4, NoNI>;
type Ssse3U64x4 = u64x4_sse2<YesS3, NoS4, NoNI>;

#[test]
fn test_bswap32_s2_vs_s3() {
    let xs = [0x0f0e_0d0c, 0x0b0a_0908, 0x0706_0504, 0x0302_0100];
    let ys = [0x0c0d_0e0f, 0x0809_0a0b, 0x0405_0607, 0x0001_0203];

    let x_s2 = {
        let x_s2 = Sse2U32x4::from_lanes(xs);
        x_s2.bswap()
    };

    let x_s3 = {
        let x_s3 = Ssse3U32x4::from_lanes(xs);
        x_s3.bswap()
    };

    assert_eq!(x_s2, Sse2U32x4::unpack(vec128_storage::from(x_s3)));
    assert_eq!(x_s2, Sse2U32x4::from_lanes(ys));
}

#[test]
fn test_bswap64_s2_vs_s3() {
    let xs = [0x0f0e_0d0c_0b0a_0908, 0x0706_0504_0302_0100];
    let ys = [0x0809_0a0b_0c0d_0e0f, 0x0001_0203_0405_0607];

    let x_s2 = {
        let x_s2 = Sse2U64x2::from_lanes(xs);
        x_s2.bswap()
    };

    let x_s3 = {
        let x_s3 = Ssse3U64x2::from_lanes(xs);
        x_s3.bswap()
    };

    assert_eq!(x_s2, Sse2U64x2::from_lanes(ys));
    assert_eq!(x_s3, Ssse3U64x2::unpack(vec128_storage::from(x_s3)));
}

#[test]
fn test_shuffle32_s2_vs_s3() {
    let xs = [0x0, 0x1, 0x2, 0x3];
    let ys = [0x2, 0x3, 0x0, 0x1];
    let zs = [0x1, 0x2, 0x3, 0x0];

    let x_s2 = {
        let x_s2 = Sse2U32x4::from_lanes(xs);
        x_s2.shuffle2301()
    };
    let x_s3 = {
        let x_s3 = Ssse3U32x4::from_lanes(xs);
        x_s3.shuffle2301()
    };
    assert_eq!(x_s2, Sse2U32x4::from_lanes(ys));
    assert_eq!(x_s3, Ssse3U32x4::unpack(vec128_storage::from(x_s3)));

    let x_s2 = {
        let x_s2 = Sse2U32x4::from_lanes(xs);
        x_s2.shuffle3012()
    };
    let x_s3 = {
        let x_s3 = Ssse3U32x4::from_lanes(xs);
        x_s3.shuffle3012()
    };
    assert_eq!(x_s2, Sse2U32x4::from_lanes(zs));
    assert_eq!(x_s3, Ssse3U32x4::unpack(vec128_storage::from(x_s3)));

    let x_s2 = x_s2.shuffle1230();
    let x_s3 = x_s3.shuffle1230();
    assert_eq!(x_s2, Sse2U32x4::from_lanes(xs));
    assert_eq!(x_s3, Ssse3U32x4::unpack(vec128_storage::from(x_s3)));
}

#[test]
fn test_shuffle64_s2_vs_s3() {
    let xs = [0x0, 0x1, 0x2, 0x3];
    let ys = [0x2, 0x3, 0x0, 0x1];
    let zs = [0x1, 0x2, 0x3, 0x0];

    let x_s2 = {
        let x_s2 = Sse2U64x4::from_lanes(xs);
        x_s2.shuffle2301()
    };
    let x_s3 = {
        let x_s3 = Ssse3U64x4::from_lanes(xs);
        x_s3.shuffle2301()
    };
    assert_eq!(x_s2, Sse2U64x4::from_lanes(ys));
    let same_s3 = x_s3;
    assert_eq!(x_s3, same_s3);

    let x_s2 = {
        let x_s2 = Sse2U64x4::from_lanes(xs);
        x_s2.shuffle3012()
    };
    let x_s3 = {
        let x_s3 = Ssse3U64x4::from_lanes(xs);
        x_s3.shuffle3012()
    };
    assert_eq!(x_s2, Sse2U64x4::from_lanes(zs));
    let same_s3 = x_s3;
    assert_eq!(x_s3, same_s3);

    let x_s2 = x_s2.shuffle1230();
    let x_s3 = x_s3.shuffle1230();
    assert_eq!(x_s2, Sse2U64x4::from_lanes(xs));
    let same_s3 = x_s3;
    assert_eq!(x_s3, same_s3);
}

#[test]
fn test_lanes_u32x4() {
    let xs = [0x1, 0x2, 0x3, 0x4];

    {
        let x_s2 = Sse2U32x4::from_lanes(xs);
        let y_s2 = Sse2U32x4::from_lanes(xs);
        assert_eq!(x_s2, y_s2);
        assert_eq!(xs, y_s2.to_lanes());
    }

    {
        let x_s3 = Ssse3U32x4::from_lanes(xs);
        let y_s3 = Ssse3U32x4::from_lanes(xs);
        assert_eq!(x_s3, y_s3);
        assert_eq!(xs, y_s3.to_lanes());
    }

    {
        let x_s4 = Sse41U32x4::from_lanes(xs);
        let y_s4 = Sse41U32x4::from_lanes(xs);
        assert_eq!(x_s4, y_s4);
        assert_eq!(xs, y_s4.to_lanes());
    }
}

#[test]
fn test_lanes_u64x2() {
    let xs = [0x1, 0x2];

    {
        let x_s2 = Sse2U64x2::from_lanes(xs);
        let y_s2 = Sse2U64x2::from_lanes(xs);
        assert_eq!(x_s2, y_s2);
        assert_eq!(xs, y_s2.to_lanes());
    }

    {
        let x_s3 = Ssse3U64x2::from_lanes(xs);
        let y_s3 = Ssse3U64x2::from_lanes(xs);
        assert_eq!(x_s3, y_s3);
        assert_eq!(xs, y_s3.to_lanes());
    }

    {
        let x_s4 = Sse41U64x2::from_lanes(xs);
        let y_s4 = Sse41U64x2::from_lanes(xs);
        assert_eq!(x_s4, y_s4);
        assert_eq!(xs, y_s4.to_lanes());
    }
}

#[test]
fn test_vec4_u32x4_s2() {
    let xs = [1, 2, 3, 4];
    let x_s2 = Sse2U32x4::from_lanes(xs);
    assert_eq!(x_s2.extract(0), 1);
    assert_eq!(x_s2.extract(1), 2);
    assert_eq!(x_s2.extract(2), 3);
    assert_eq!(x_s2.extract(3), 4);
    assert_eq!(x_s2.insert(0xf, 0), Sse2U32x4::from_lanes([0xf, 2, 3, 4]));
    assert_eq!(x_s2.insert(0xf, 1), Sse2U32x4::from_lanes([1, 0xf, 3, 4]));
    assert_eq!(x_s2.insert(0xf, 2), Sse2U32x4::from_lanes([1, 2, 0xf, 4]));
    assert_eq!(x_s2.insert(0xf, 3), Sse2U32x4::from_lanes([1, 2, 3, 0xf]));
}

#[test]
fn test_vec4_u32x4_s4() {
    let xs = [1, 2, 3, 4];
    let x_s4 = Sse41U32x4::from_lanes(xs);
    assert_eq!(x_s4.extract(0), 1);
    assert_eq!(x_s4.extract(1), 2);
    assert_eq!(x_s4.extract(2), 3);
    assert_eq!(x_s4.extract(3), 4);
    assert_eq!(x_s4.insert(0xf, 0), Sse41U32x4::from_lanes([0xf, 2, 3, 4]));
    assert_eq!(x_s4.insert(0xf, 1), Sse41U32x4::from_lanes([1, 0xf, 3, 4]));
    assert_eq!(x_s4.insert(0xf, 2), Sse41U32x4::from_lanes([1, 2, 0xf, 4]));
    assert_eq!(x_s4.insert(0xf, 3), Sse41U32x4::from_lanes([1, 2, 3, 0xf]));
}

#[test]
fn test_vec2_u64x2_s2() {
    let xs = [0x1, 0x2];
    let x_s2 = Sse2U64x2::from_lanes(xs);
    assert_eq!(x_s2.extract(0), 1);
    assert_eq!(x_s2.extract(1), 2);
    assert_eq!(x_s2.insert(0xf, 0), Sse2U64x2::from_lanes([0xf, 2]));
    assert_eq!(x_s2.insert(0xf, 1), Sse2U64x2::from_lanes([1, 0xf]));
}

#[test]
fn test_vec4_u64x2_s4() {
    let xs = [0x1, 0x2];
    let x_s4 = Sse41U64x2::from_lanes(xs);
    assert_eq!(x_s4.extract(0), 1);
    assert_eq!(x_s4.extract(1), 2);
    assert_eq!(x_s4.insert(0xf, 0), Sse41U64x2::from_lanes([0xf, 2]));
    assert_eq!(x_s4.insert(0xf, 1), Sse41U64x2::from_lanes([1, 0xf]));
}
