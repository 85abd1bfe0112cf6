//! The wide vector types assembled from the 128-bit ones: pairs and
//! quadruples of registers, and the four-lane 64-bit vector `u64x4_sse2`.
use core::marker::PhantomData;
use vstd::prelude::*;
use crate::markers::{S3Marker, S4Marker};
use crate::reg::{order1230, order2301, order3012};
use crate::soft::{x2, x4};
use crate::swar::{align_qwords, shift_or_qwords};
use crate::text::{hex_list, hex_list_string};
use crate::u128x1::u128x1_sse2;
use crate::u32x4::u32x4_sse2;
use crate::u64x2::u64x2_sse2;

verus! {

/// Tag of the pair types that hold two independent vectors.
#[derive(Clone, Copy, Debug)]
pub struct G0;

/// Tag of the pair type that forms one four-lane 64-bit vector.
#[derive(Clone, Copy, Debug)]
pub struct G1;

/// Two four-lane 32-bit vectors.
pub type u32x4x2_sse2<S3, S4, NI> = x2<u32x4_sse2<S3, S4, NI>, G0>;

/// Two two-lane 64-bit vectors.
pub type u64x2x2_sse2<S3, S4, NI> = x2<u64x2_sse2<S3, S4, NI>, G0>;

/// One four-lane 64-bit vector held in two registers.
pub type u64x4_sse2<S3, S4, NI> = x2<u64x2_sse2<S3, S4, NI>, G1>;

/// Two 128-bit vectors.
pub type u128x2_sse2<S3, S4, NI> = x2<u128x1_sse2<S3, S4, NI>, G0>;

/// Four four-lane 32-bit vectors.
pub type u32x4x4_sse2<S3, S4, NI> = x4<u32x4_sse2<S3, S4, NI>>;

/// Four two-lane 64-bit vectors.
pub type u64x2x4_sse2<S3, S4, NI> = x4<u64x2_sse2<S3, S4, NI>>;

/// Four 128-bit vectors.
pub type u128x4_sse2<S3, S4, NI> = x4<u128x1_sse2<S3, S4, NI>>;

impl<S3: Copy, S4: Copy, NI: Copy> x2<u64x2_sse2<S3, S4, NI>, G1> {
    /// The four lanes: both lanes of the first register, then both of the
    /// second.
    pub open spec fn lanes4(self) -> Seq<u64> {
        self.0[0]@ + self.0[1]@
    }
}

impl<S3: Copy, S4: Copy + S4Marker, NI: Copy> x2<u64x2_sse2<S3, S4, NI>, G1> {
    /// The four lanes, lane 0 first.
    pub fn to_lanes(self) -> (r: [u64; 4])
        ensures
            r@ == self.lanes4(),
            r@[0] == self.0[0]@[0],
            r@[1] == self.0[0]@[1],
            r@[2] == self.0[1]@[0],
            r@[3] == self.0[1]@[1],
    {
        let (a, b) = (self.0[0].to_lanes(), self.0[1].to_lanes());
        let r = [a[0], a[1], b[0], b[1]];
        assert(r@ =~= self.lanes4());
        r
    }

    /// The vector with lanes `xs`, lane 0 first.
    pub fn from_lanes(xs: [u64; 4]) -> (r: Self)
        ensures
            r.lanes4() == xs@,
            r.0[0]@ == seq![xs[0], xs[1]],
            r.0[1]@ == seq![xs[2], xs[3]],
    {
        let (a, b) = (
            u64x2_sse2::from_lanes([xs[0], xs[1]]),
            u64x2_sse2::from_lanes([xs[2], xs[3]]),
        );
        let r = x2::new([a, b]);
        assert(r.lanes4() =~= xs@);
        r
    }

    /// The four lanes as text, lane 0 first: `[` , each lane as sixteen
    /// lower-case hexadecimal digits, separated by `, `, then `]`.
    pub fn debug_string(&self) -> (r: String)
        ensures
            r@ == hex_list(self.lanes4(), 16),
            r@ == hex_list(seq![self.0[0]@[0], self.0[0]@[1], self.0[1]@[0], self.0[1]@[1]], 16),
    {
        let (a, b) = (self.0[0].to_lanes(), self.0[1].to_lanes());
        let vs = [a[0], a[1], b[0], b[1]];
        assert(vs@ =~= self.lanes4());
        hex_list_string(&vs, 16)
    }

    /// Lane `i`.
    pub fn extract(self, i: u32) -> (r: u64)
        requires
            i < 4,
        ensures
            r == self.lanes4()[i as int],
            r == (if i < 2 {
                self.0[0]@[i as int]
            } else {
                self.0[1]@[i - 2]
            }),
    {
        match i {
            0 => self.0[0].extract(0),
            1 => self.0[0].extract(1),
            2 => self.0[1].extract(0),
            _ => self.0[1].extract(1),
        }
    }

    /// The vector with lane `i` replaced by `w`.
    pub fn insert(self, w: u64, i: u32) -> (r: Self)
        requires
            i < 4,
        ensures
            r.lanes4() == self.lanes4().update(i as int, w),
            i < 2 ==> r.0[0]@ == self.0[0]@.update(i as int, w) && r.0[1] == self.0[1],
            i >= 2 ==> r.0[1]@ == self.0[1]@.update(i - 2, w) && r.0[0] == self.0[0],
    {
        let (a, b) = (self.0[0], self.0[1]);
        let r = match i {
            0 => x2::new([a.insert(w, 0), b]),
            1 => x2::new([a.insert(w, 1), b]),
            2 => x2::new([a, b.insert(w, 0)]),
            _ => x2::new([a, b.insert(w, 1)]),
        };
        assert(r.lanes4() =~= self.lanes4().update(i as int, w));
        r
    }
}

impl<S3: Copy + S3Marker, S4: Copy, NI: Copy> x2<u64x2_sse2<S3, S4, NI>, G1> {
    /// Lanes in the order 2, 3, 0, 1: the two registers exchanged.
    pub fn shuffle2301(self) -> (r: Self)
        ensures
            r.lanes4() == order2301(self.lanes4()),
    {
        let r = x2::new([u64x2_sse2::new(self.0[1].raw()), u64x2_sse2::new(self.0[0].raw())]);
        assert(r.lanes4() =~= order2301(self.lanes4()));
        r
    }

    /// Lanes in the order 1, 2, 3, 0.
    pub fn shuffle3012(self) -> (r: Self)
        ensures
            r.lanes4() == order3012(self.lanes4()),
    {
        let (a, b) = (self.0[0].raw(), self.0[1].raw());
        let r = if S3::ssse3() {
            x2::new([u64x2_sse2::new(align_qwords(b, a)), u64x2_sse2::new(align_qwords(a, b))])
        } else {
            let da = shift_or_qwords(b, a);
            let bc = shift_or_qwords(a, b);
            x2::new([u64x2_sse2::new(da), u64x2_sse2::new(bc)])
        };
        assert(r.lanes4() =~= order3012(self.lanes4()));
        r
    }

    /// Lanes in the order 3, 0, 1, 2.
    pub fn shuffle1230(self) -> (r: Self)
        ensures
            r.lanes4() == order1230(self.lanes4()),
    {
        let (a, b) = (self.0[0].raw(), self.0[1].raw());
        let r = if S3::ssse3() {
            x2::new([u64x2_sse2::new(align_qwords(a, b)), u64x2_sse2::new(align_qwords(b, a))])
        } else {
            let da = shift_or_qwords(b, a);
            let bc = shift_or_qwords(a, b);
            x2::new([u64x2_sse2::new(bc), u64x2_sse2::new(da)])
        };
        assert(r.lanes4() =~= order1230(self.lanes4()));
        r
    }
}

impl<S3: Copy, S4: Copy, NI: Copy, Gf, Gt> From<x2<u128x1_sse2<S3, S4, NI>, Gf>> for x2<u64x2_sse2<S3, S4, NI>, Gt> {
    fn from(x: x2<u128x1_sse2<S3, S4, NI>, Gf>) -> (r: Self)
        ensures
            r.0[0].bits() == x.0[0].bits(),
            r.0[1].bits() == x.0[1].bits(),
    {
        x2::new([u64x2_sse2::from(x.0[0]), u64x2_sse2::from(x.0[1])])
    }
}

impl<S3: Copy, S4: Copy, NI: Copy, Gf, Gt> vstd::std_specs::convert::FromSpecImpl<x2<u128x1_sse2<S3, S4, NI>, Gf>> for x2<u64x2_sse2<S3, S4, NI>, Gt> {
    open spec fn obeys_from_spec() -> bool {
        true
    }

    open spec fn from_spec(v: x2<u128x1_sse2<S3, S4, NI>, Gf>) -> Self {
        x2(
            [u64x2_sse2::from_bits(v.0[0].bits()), u64x2_sse2::from_bits(v.0[1].bits())],
            PhantomData,
        )
    }
}

impl<S3: Copy, S4: Copy, NI: Copy, Gf, Gt> From<x2<u128x1_sse2<S3, S4, NI>, Gf>> for x2<u32x4_sse2<S3, S4, NI>, Gt> {
    fn from(x: x2<u128x1_sse2<S3, S4, NI>, Gf>) -> (r: Self)
        ensures
            r.0[0].bits() == x.0[0].bits(),
            r.0[1].bits() == x.0[1].bits(),
    {
        x2::new([u32x4_sse2::from(x.0[0]), u32x4_sse2::from(x.0[1])])
    }
}

impl<S3: Copy, S4: Copy, NI: Copy, Gf, Gt> vstd::std_specs::convert::FromSpecImpl<x2<u128x1_sse2<S3, S4, NI>, Gf>> for x2<u32x4_sse2<S3, S4, NI>, Gt> {
    open spec fn obeys_from_spec() -> bool {
        true
    }

    open spec fn from_spec(v: x2<u128x1_sse2<S3, S4, NI>, Gf>) -> Self {
        x2(
            [u32x4_sse2::from_bits(v.0[0].bits()), u32x4_sse2::from_bits(v.0[1].bits())],
            PhantomData,
        )
    }
}

impl<S3: Copy, S4: Copy, NI: Copy> From<x4<u128x1_sse2<S3, S4, NI>>> for x4<u64x2_sse2<S3, S4, NI>> {
    fn from(x: x4<u128x1_sse2<S3, S4, NI>>) -> (r: Self)
        ensures
            forall|i: int| 0 <= i < 4 ==> #[trigger] r.0[i].bits() == x.0[i].bits(),
    {
        x4::new(
            [
                u64x2_sse2::from(x.0[0]),
                u64x2_sse2::from(x.0[1]),
                u64x2_sse2::from(x.0[2]),
                u64x2_sse2::from(x.0[3]),
            ],
        )
    }
}

impl<S3: Copy, S4: Copy, NI: Copy> vstd::std_specs::convert::FromSpecImpl<x4<u128x1_sse2<S3, S4, NI>>> for x4<u64x2_sse2<S3, S4, NI>> {
    open spec fn obeys_from_spec() -> bool {
        true
    }

    open spec fn from_spec(v: x4<u128x1_sse2<S3, S4, NI>>) -> Self {
        x4(
            [
                u64x2_sse2::from_bits(v.0[0].bits()),
                u64x2_sse2::from_bits(v.0[1].bits()),
                u64x2_sse2::from_bits(v.0[2].bits()),
                u64x2_sse2::from_bits(v.0[3].bits()),
            ],
        )
    }
}

impl<S3: Copy, S4: Copy, NI: Copy> From<x4<u128x1_sse2<S3, S4, NI>>> for x4<u32x4_sse2<S3, S4, NI>> {
    fn from(x: x4<u128x1_sse2<S3, S4, NI>>) -> (r: Self)
        ensures
            forall|i: int| 0 <= i < 4 ==> #[trigger] r.0[i].bits() == x.0[i].bits(),
    {
        x4::new(
            [
                u32x4_sse2::from(x.0[0]),
                u32x4_sse2::from(x.0[1]),
                u32x4_sse2::from(x.0[2]),
                u32x4_sse2::from(x.0[3]),
            ],
        )
    }
}

impl<S3: Copy, S4: Copy, NI: Copy> vstd::std_specs::convert::FromSpecImpl<x4<u128x1_sse2<S3, S4, NI>>> for x4<u32x4_sse2<S3, S4, NI>> {
    open spec fn obeys_from_spec() -> bool {
        true
    }

    open spec fn from_spec(v: x4<u128x1_sse2<S3, S4, NI>>) -> Self {
        x4(
            [
                u32x4_sse2::from_bits(v.0[0].bits()),
                u32x4_sse2::from_bits(v.0[1].bits()),
                u32x4_sse2::from_bits(v.0[2].bits()),
                u32x4_sse2::from_bits(v.0[3].bits()),
            ],
        )
    }
}

} // verus!
