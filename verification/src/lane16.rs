//! Operations that work on the eight 16-bit lanes of a register: byte
//! interleaving, 16-bit lane shuffles within each half, saturating packing
//! back to bytes, and lane-wise shifts.
use vstd::prelude::*;
use crate::reg::{bytes16, lanes16, load16, split16, join16, to_bytes16};

verus! {

/// The 16-bit word whose low byte is `lo` and whose high byte is `hi`.
pub open spec fn u16_from_bytes(lo: u8, hi: u8) -> u16 {
    (lo as u16) | ((hi as u16) << 8u16)
}

/// A signed 16-bit value (held in the bits of `v`) saturated to an unsigned
/// byte: negative values give 0, values above 255 give 255.
pub open spec fn saturate_u8(v: u16) -> u8 {
    if v >= 0x8000 {
        0
    } else if v > 255 {
        255
    } else {
        v as u8
    }
}

/// Interleaves the low eight bytes of `a` and `b`: 16-bit lane `i` of the
/// result has byte `i` of `a` as its low byte and byte `i` of `b` as its high
/// byte.
pub fn interleave_lo_bytes(a: u128, b: u128) -> (r: u128)
    ensures
        forall|i: int|
            0 <= i < 8 ==> #[trigger] lanes16(r)[i] == u16_from_bytes(bytes16(a)[i], bytes16(b)[i]),
{
    let x = to_bytes16(a);
    let y = to_bytes16(b);
    join16(
        [
            (x[0] as u16) | ((y[0] as u16) << 8u16),
            (x[1] as u16) | ((y[1] as u16) << 8u16),
            (x[2] as u16) | ((y[2] as u16) << 8u16),
            (x[3] as u16) | ((y[3] as u16) << 8u16),
            (x[4] as u16) | ((y[4] as u16) << 8u16),
            (x[5] as u16) | ((y[5] as u16) << 8u16),
            (x[6] as u16) | ((y[6] as u16) << 8u16),
            (x[7] as u16) | ((y[7] as u16) << 8u16),
        ],
    )
}

/// Interleaves the high eight bytes of `a` and `b`: 16-bit lane `i` of the
/// result has byte `8 + i` of `a` as its low byte and byte `8 + i` of `b` as
/// its high byte.
pub fn interleave_hi_bytes(a: u128, b: u128) -> (r: u128)
    ensures
        forall|i: int|
            0 <= i < 8 ==> #[trigger] lanes16(r)[i] == u16_from_bytes(
                bytes16(a)[8 + i],
                bytes16(b)[8 + i],
            ),
{
    let x = to_bytes16(a);
    let y = to_bytes16(b);
    join16(
        [
            (x[8] as u16) | ((y[8] as u16) << 8u16),
            (x[9] as u16) | ((y[9] as u16) << 8u16),
            (x[10] as u16) | ((y[10] as u16) << 8u16),
            (x[11] as u16) | ((y[11] as u16) << 8u16),
            (x[12] as u16) | ((y[12] as u16) << 8u16),
            (x[13] as u16) | ((y[13] as u16) << 8u16),
            (x[14] as u16) | ((y[14] as u16) << 8u16),
            (x[15] as u16) | ((y[15] as u16) << 8u16),
        ],
    )
}

/// Shuffles the low four 16-bit lanes: lane `i < 4` of the result is lane
/// `(imm >> 2i) % 4` of `x`; the high four lanes stay.
pub fn shuffle_lo16(x: u128, imm: u8) -> (r: u128)
    ensures
        lanes16(r) == seq![
            lanes16(x)[(imm % 4) as int],
            lanes16(x)[((imm / 4) % 4) as int],
            lanes16(x)[((imm / 16) % 4) as int],
            lanes16(x)[((imm / 64) % 4) as int],
            lanes16(x)[4],
            lanes16(x)[5],
            lanes16(x)[6],
            lanes16(x)[7],
        ],
{
    let l = split16(x);
    let r = join16(
        [
            l[(imm % 4) as usize],
            l[((imm / 4) % 4) as usize],
            l[((imm / 16) % 4) as usize],
            l[((imm / 64) % 4) as usize],
            l[4],
            l[5],
            l[6],
            l[7],
        ],
    );
    assert(lanes16(r) =~= seq![
        lanes16(x)[(imm % 4) as int],
        lanes16(x)[((imm / 4) % 4) as int],
        lanes16(x)[((imm / 16) % 4) as int],
        lanes16(x)[((imm / 64) % 4) as int],
        lanes16(x)[4],
        lanes16(x)[5],
        lanes16(x)[6],
        lanes16(x)[7],
    ]);
    r
}

/// Shuffles the high four 16-bit lanes: lane `4 + i` of the result is lane
/// `4 + (imm >> 2i) % 4` of `x`; the low four lanes stay.
pub fn shuffle_hi16(x: u128, imm: u8) -> (r: u128)
    ensures
        lanes16(r) == seq![
            lanes16(x)[0],
            lanes16(x)[1],
            lanes16(x)[2],
            lanes16(x)[3],
            lanes16(x)[4 + (imm % 4) as int],
            lanes16(x)[4 + ((imm / 4) % 4) as int],
            lanes16(x)[4 + ((imm / 16) % 4) as int],
            lanes16(x)[4 + ((imm / 64) % 4) as int],
        ],
{
    let l = split16(x);
    let r = join16(
        [
            l[0],
            l[1],
            l[2],
            l[3],
            l[4 + (imm % 4) as usize],
            l[4 + ((imm / 4) % 4) as usize],
            l[4 + ((imm / 16) % 4) as usize],
            l[4 + ((imm / 64) % 4) as usize],
        ],
    );
    assert(lanes16(r) =~= seq![
        lanes16(x)[0],
        lanes16(x)[1],
        lanes16(x)[2],
        lanes16(x)[3],
        lanes16(x)[4 + (imm % 4) as int],
        lanes16(x)[4 + ((imm / 4) % 4) as int],
        lanes16(x)[4 + ((imm / 16) % 4) as int],
        lanes16(x)[4 + ((imm / 64) % 4) as int],
    ]);
    r
}

fn saturate(v: u16) -> (r: u8)
    ensures
        r == saturate_u8(v),
{
    if v >= 0x8000 {
        0
    } else if v > 255 {
        255
    } else {
        v as u8
    }
}

/// Packs the 16-bit lanes of `a` and then of `b`, each read as a signed value
/// and saturated, into the sixteen bytes of the result.
pub fn pack_saturate16(a: u128, b: u128) -> (r: u128)
    ensures
        forall|i: int| 0 <= i < 8 ==> #[trigger] bytes16(r)[i] == saturate_u8(lanes16(a)[i]),
        forall|i: int| 0 <= i < 8 ==> #[trigger] bytes16(r)[8 + i] == saturate_u8(lanes16(b)[i]),
{
    let x = split16(a);
    let y = split16(b);
    let bytes = [
        saturate(x[0]),
        saturate(x[1]),
        saturate(x[2]),
        saturate(x[3]),
        saturate(x[4]),
        saturate(x[5]),
        saturate(x[6]),
        saturate(x[7]),
        saturate(y[0]),
        saturate(y[1]),
        saturate(y[2]),
        saturate(y[3]),
        saturate(y[4]),
        saturate(y[5]),
        saturate(y[6]),
        saturate(y[7]),
    ];
    load16(&bytes)
}

/// Shifts each 16-bit lane right by `n` bits.
pub fn shr16(x: u128, n: u16) -> (r: u128)
    requires
        n < 16,
    ensures
        forall|j: int| 0 <= j < 8 ==> #[trigger] lanes16(r)[j] == lanes16(x)[j] >> n,
{
    let l = split16(x);
    join16([l[0] >> n, l[1] >> n, l[2] >> n, l[3] >> n, l[4] >> n, l[5] >> n, l[6] >> n, l[7] >> n])
}

/// Shifts each 16-bit lane left by `n` bits; bits shifted out of a lane are
/// lost.
pub fn shl16(x: u128, n: u16) -> (r: u128)
    requires
        n < 16,
    ensures
        forall|j: int| 0 <= j < 8 ==> #[trigger] lanes16(r)[j] == lanes16(x)[j] << n,
{
    let l = split16(x);
    join16([l[0] << n, l[1] << n, l[2] << n, l[3] << n, l[4] << n, l[5] << n, l[6] << n, l[7] << n])
}

} // verus!
