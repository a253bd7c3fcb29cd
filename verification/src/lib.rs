//! Fixed-size vectors of numeric lanes, with lane-wise arithmetic, comparison
//! and masking, and the iteration over slices as such vectors.

use vstd::prelude::*;

pub mod align;
pub mod arrays;
pub mod iterators;
pub mod laws;
pub mod mask;
pub mod ops;
pub mod prelude;
pub mod repr;
mod sealed;
pub mod tuples;
pub mod types;
pub mod vector;

pub use crate::iterators::{MutProxy, Vectorizable, VectorizedIter};
pub use crate::mask::Mask;
pub use crate::types::{
    bx2, bx4, bx8, bx16, bx32, m8x2, m8x4, m8x8, m8x16, m8x32, m16x2, m16x4, m16x8, m16x16,
    m32x2, m32x4, m32x8, m32x16, m64x2, m64x4, m64x8, m64x16, u8x2, u8x4, u8x8, u8x16, u8x32,
    u16x2, u16x4, u16x8, u16x16, u32x2, u32x4, u32x8, u32x16, u64x2, u64x4, u64x8, u64x16, i8x2,
    i8x4, i8x8, i8x16, i8x32, i16x2, i16x4, i16x8, i16x16, i32x2, i32x4, i32x8, i32x16, i64x2,
    i64x4, i64x8, i64x16, wu8x2, wu8x4, wu8x8, wu8x16, wu8x32, wu16x2, wu16x4, wu16x8, wu16x16,
    wu32x2, wu32x4, wu32x8, wu32x16, wu64x2, wu64x4, wu64x8, wu64x16, wi8x2, wi8x4, wi8x8,
    wi8x16, wi8x32, wi16x2, wi16x4, wi16x8, wi16x16, wi32x2, wi32x4, wi32x8, wi32x16, wi64x2,
    wi64x4, wi64x8, wi64x16, msizex2, msizex4, msizex8, msizex16, usizex2, usizex4, usizex8,
    usizex16, isizex2, isizex4, isizex8, isizex16, wusizex2, wusizex4, wusizex8, wusizex16,
    wisizex2, wisizex4, wisizex8, wisizex16,
};
pub use crate::vector::Vector;

verus! {

/// Iterates over the windows of an input that they divide without rest. The
/// same as `a.vectorize()`, with the vector type as the first type argument.
pub fn vectorize<V, A: Vectorizable<V>>(a: A) -> (r: VectorizedIter<A::Vectorizer, (), V>)
    requires
        a.splits(false),
    ensures
        r.wf(),
        r.cursor() == (iterators::Cursor { front: 0, back: a.full_windows(), tail: false }),
        a.created(None, r.source(), None),
{
    a.vectorize()
}

/// Iterates over the windows of an input and the padded tail that follows
/// them. The same as `a.vectorize_pad(pad)`.
pub fn vectorize_pad<V, A: Vectorizable<V>>(a: A, pad: A::Padding) -> (r: VectorizedIter<
    A::Vectorizer,
    Option<V>,
    V,
>)
    requires
        a.splits(true),
    ensures
        r.wf(),
        r.cursor() == (iterators::Cursor { front: 0, back: a.full_windows(), tail: a.has_rest() }),
        a.created(Some(pad), r.source(), r.pending()),
{
    a.vectorize_pad(pad)
}

} // verus!
