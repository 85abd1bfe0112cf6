//! Wider vectors built from several 128-bit vectors side by side.
use core::marker::PhantomData;
use vstd::prelude::*;
use vstd::std_specs::cmp::{PartialEqSpec, PartialEqSpecImpl};

verus! {

/// Two vectors side by side; `G` tells apart wide types built from the same
/// halves.
#[derive(Copy, Debug)]
pub struct x2<W, G>(pub [W; 2], pub PhantomData<G>);

impl<W: Copy, G> Clone for x2<W, G> {
    fn clone(&self) -> (r: Self)
        ensures
            r == *self,
    {
        x2(self.0, PhantomData)
    }
}

impl<W, G> x2<W, G> {
    /// The pair with halves `xs`.
    pub fn new(xs: [W; 2]) -> (r: Self)
        ensures
            r == x2::<W, G>(xs, PhantomData),
    {
        x2(xs, PhantomData)
    }
}

impl<W: PartialEq, G> PartialEq for x2<W, G> {
    fn eq(&self, rhs: &Self) -> (r: bool)
        ensures
            W::obeys_eq_spec() ==> r == (self.0[0].eq_spec(&rhs.0[0]) && self.0[1].eq_spec(
                &rhs.0[1],
            )),
    {
        self.0[0] == rhs.0[0] && self.0[1] == rhs.0[1]
    }
}

impl<W: PartialEq, G> PartialEqSpecImpl for x2<W, G> {
    open spec fn obeys_eq_spec() -> bool {
        W::obeys_eq_spec()
    }

    open spec fn eq_spec(&self, other: &Self) -> bool {
        self.0[0].eq_spec(&other.0[0]) && self.0[1].eq_spec(&other.0[1])
    }
}

/// Four vectors side by side.
#[derive(Copy, Debug)]
pub struct x4<W>(pub [W; 4]);

impl<W: Copy> Clone for x4<W> {
    fn clone(&self) -> (r: Self)
        ensures
            r == *self,
    {
        x4(self.0)
    }
}

impl<W> x4<W> {
    /// The quadruple with parts `xs`.
    pub fn new(xs: [W; 4]) -> (r: Self)
        ensures
            r.0 == xs,
    {
        x4(xs)
    }
}

} // verus!
