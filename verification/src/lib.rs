#![allow(non_camel_case_types)]

pub mod lane16;
pub mod laws;
pub mod markers;
pub mod reg;
pub mod soft;
pub mod storage;
pub mod swar;
pub mod text;
pub mod u128x1;
pub mod u32x4;
pub mod u64x2;
pub mod wide;
pub mod word;
