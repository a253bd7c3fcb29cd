//! What code that works with vectors usually needs: the names of the vector
//! types and the traits whose methods it calls.

pub use crate::iterators::Vectorizable;
pub use crate::mask::{m16, m32, m64, m8, msize, Mask};
pub use crate::types::{
    bx2, bx4, bx8, bx16, bx32, m8x2, m8x4, m8x8, m8x16, m8x32, m16x2, m16x4, m16x8, m16x16,
    m32x2, m32x4, m32x8, m32x16, m64x2, m64x4, m64x8, m64x16, u8x2, u8x4, u8x8, u8x16, u8x32,
    u16x2, u16x4, u16x8, u16x16, u32x2, u32x4, u32x8, u32x16, u64x2, u64x4, u64x8, u64x16, i8x2,
    i8x4, i8x8, i8x16, i8x32, i16x2, i16x4, i16x8, i16x16, i32x2, i32x4, i32x8, i32x16, i64x2,
    i64x4, i64x8, i64x16, wu8x2, wu8x4, wu8x8, wu8x16, wu8x32, wu16x2, wu16x4, wu16x8, wu16x16,
    wu32x2, wu32x4, wu32x8, wu32x16, wu64x2, wu64x4, wu64x8, wu64x16, wi8x2, wi8x4, wi8x8,
    wi8x16, wi8x32, wi16x2, wi16x4, wi16x8, wi16x16, wi32x2, wi32x4, wi32x8, wi32x16, wi64x2,
    wi64x4, wi64x8, wi64x16, msizex2, msizex4, msizex8, msizex16, usizex2, usizex4, usizex8,
    usizex16, isizex2, isizex4, isizex8, isizex16, wusizex2, wusizex4, wusizex8, wusizex16,
    wisizex2, wisizex4, wisizex8, wisizex16,
};
pub use crate::vector::Masked;
