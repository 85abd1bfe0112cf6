//! Type-level markers that say which x86 instruction-set extensions a vector
//! type may rely on: SSSE3 (`S3`), SSE4.1 (`S4`) and AES-NI (`NI`).
use vstd::prelude::*;

verus! {

/// SSSE3 is available.
#[derive(Clone, Copy, Debug)]
pub struct YesS3;

/// SSSE3 is not available.
#[derive(Clone, Copy, Debug)]
pub struct NoS3;

/// SSE4.1 is available.
#[derive(Clone, Copy, Debug)]
pub struct YesS4;

/// SSE4.1 is not available.
#[derive(Clone, Copy, Debug)]
pub struct NoS4;

/// AES-NI is available.
#[derive(Clone, Copy, Debug)]
pub struct YesNI;

/// AES-NI is not available.
#[derive(Clone, Copy, Debug)]
pub struct NoNI;

/// A marker that says whether SSSE3 may be used.
pub trait S3Marker {
    /// Whether SSSE3 may be used.
    spec fn has_ssse3() -> bool;

    /// Whether SSSE3 may be used.
    fn ssse3() -> (b: bool)
        ensures
            b == Self::has_ssse3(),
    ;
}

/// A marker that says whether SSE4.1 may be used.
pub trait S4Marker {
    /// Whether SSE4.1 may be used.
    spec fn has_sse41() -> bool;

    /// Whether SSE4.1 may be used.
    fn sse41() -> (b: bool)
        ensures
            b == Self::has_sse41(),
    ;
}

impl S3Marker for YesS3 {
    open spec fn has_ssse3() -> bool {
        true
    }

    fn ssse3() -> (b: bool) {
        true
    }
}

impl S3Marker for NoS3 {
    open spec fn has_ssse3() -> bool {
        false
    }

    fn ssse3() -> (b: bool) {
        false
    }
}

impl S4Marker for YesS4 {
    open spec fn has_sse41() -> bool {
        true
    }

    fn sse41() -> (b: bool) {
        true
    }
}

impl S4Marker for NoS4 {
    open spec fn has_sse41() -> bool {
        false
    }

    fn sse41() -> (b: bool) {
        false
    }
}

} // verus!
