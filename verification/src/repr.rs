//! The closed set of types that can be the base of a vector.

use vstd::prelude::*;
use core::num::Wrapping;
use crate::mask::{Bits, Mask, MaskWrapper};
use crate::sealed::Sealed;

verus! {

/// std's `core::num::Wrapping`, an integer whose arithmetic wraps around.
/// Declared with its one public field, the integer that it wraps, so that
/// values of it can stand in the lanes of a vector.
#[verifier::external_type_specification]
#[verifier::reject_recursive_types(T)]
pub struct ExWrapping<T>(Wrapping<T>);

/// A type that can be the base of a vector. The set of such types is closed:
/// the integers, the mask types and `bool`.
pub trait Repr: Copy + Sized + Sealed {
    /// The mask type that lane-wise comparisons of this base produce.
    type Mask: Mask;

    /// The multiplicative identity of the base.
    spec fn spec_one() -> Self;

    /// Gives the multiplicative identity.
    fn one() -> (r: Self)
        ensures
            r == Self::spec_one(),
    ;
}

impl Repr for u8 {
    type Mask = MaskWrapper<u8>;

    open spec fn spec_one() -> u8 {
        1u8
    }

    fn one() -> (r: u8) {
        1u8
    }
}

impl Repr for u16 {
    type Mask = MaskWrapper<u16>;

    open spec fn spec_one() -> u16 {
        1u16
    }

    fn one() -> (r: u16) {
        1u16
    }
}

impl Repr for u32 {
    type Mask = MaskWrapper<u32>;

    open spec fn spec_one() -> u32 {
        1u32
    }

    fn one() -> (r: u32) {
        1u32
    }
}

impl Repr for u64 {
    type Mask = MaskWrapper<u64>;

    open spec fn spec_one() -> u64 {
        1u64
    }

    fn one() -> (r: u64) {
        1u64
    }
}

impl Repr for u128 {
    type Mask = MaskWrapper<u128>;

    open spec fn spec_one() -> u128 {
        1u128
    }

    fn one() -> (r: u128) {
        1u128
    }
}

impl Repr for usize {
    type Mask = MaskWrapper<usize>;

    open spec fn spec_one() -> usize {
        1usize
    }

    fn one() -> (r: usize) {
        1usize
    }
}

impl Repr for i8 {
    type Mask = MaskWrapper<u8>;

    open spec fn spec_one() -> i8 {
        1i8
    }

    fn one() -> (r: i8) {
        1i8
    }
}

impl Repr for i16 {
    type Mask = MaskWrapper<u16>;

    open spec fn spec_one() -> i16 {
        1i16
    }

    fn one() -> (r: i16) {
        1i16
    }
}

impl Repr for i32 {
    type Mask = MaskWrapper<u32>;

    open spec fn spec_one() -> i32 {
        1i32
    }

    fn one() -> (r: i32) {
        1i32
    }
}

impl Repr for i64 {
    type Mask = MaskWrapper<u64>;

    open spec fn spec_one() -> i64 {
        1i64
    }

    fn one() -> (r: i64) {
        1i64
    }
}

impl Repr for i128 {
    type Mask = MaskWrapper<u128>;

    open spec fn spec_one() -> i128 {
        1i128
    }

    fn one() -> (r: i128) {
        1i128
    }
}

impl Repr for isize {
    type Mask = MaskWrapper<usize>;

    open spec fn spec_one() -> isize {
        1isize
    }

    fn one() -> (r: isize) {
        1isize
    }
}

impl Repr for Wrapping<u8> {
    type Mask = MaskWrapper<u8>;

    open spec fn spec_one() -> Wrapping<u8> {
        Wrapping(1u8)
    }

    fn one() -> (r: Wrapping<u8>) {
        Wrapping(1u8)
    }
}

impl Repr for Wrapping<u16> {
    type Mask = MaskWrapper<u16>;

    open spec fn spec_one() -> Wrapping<u16> {
        Wrapping(1u16)
    }

    fn one() -> (r: Wrapping<u16>) {
        Wrapping(1u16)
    }
}

impl Repr for Wrapping<u32> {
    type Mask = MaskWrapper<u32>;

    open spec fn spec_one() -> Wrapping<u32> {
        Wrapping(1u32)
    }

    fn one() -> (r: Wrapping<u32>) {
        Wrapping(1u32)
    }
}

impl Repr for Wrapping<u64> {
    type Mask = MaskWrapper<u64>;

    open spec fn spec_one() -> Wrapping<u64> {
        Wrapping(1u64)
    }

    fn one() -> (r: Wrapping<u64>) {
        Wrapping(1u64)
    }
}

impl Repr for Wrapping<u128> {
    type Mask = MaskWrapper<u128>;

    open spec fn spec_one() -> Wrapping<u128> {
        Wrapping(1u128)
    }

    fn one() -> (r: Wrapping<u128>) {
        Wrapping(1u128)
    }
}

impl Repr for Wrapping<usize> {
    type Mask = MaskWrapper<usize>;

    open spec fn spec_one() -> Wrapping<usize> {
        Wrapping(1usize)
    }

    fn one() -> (r: Wrapping<usize>) {
        Wrapping(1usize)
    }
}

impl Repr for Wrapping<i8> {
    type Mask = MaskWrapper<u8>;

    open spec fn spec_one() -> Wrapping<i8> {
        Wrapping(1i8)
    }

    fn one() -> (r: Wrapping<i8>) {
        Wrapping(1i8)
    }
}

impl Repr for Wrapping<i16> {
    type Mask = MaskWrapper<u16>;

    open spec fn spec_one() -> Wrapping<i16> {
        Wrapping(1i16)
    }

    fn one() -> (r: Wrapping<i16>) {
        Wrapping(1i16)
    }
}

impl Repr for Wrapping<i32> {
    type Mask = MaskWrapper<u32>;

    open spec fn spec_one() -> Wrapping<i32> {
        Wrapping(1i32)
    }

    fn one() -> (r: Wrapping<i32>) {
        Wrapping(1i32)
    }
}

impl Repr for Wrapping<i64> {
    type Mask = MaskWrapper<u64>;

    open spec fn spec_one() -> Wrapping<i64> {
        Wrapping(1i64)
    }

    fn one() -> (r: Wrapping<i64>) {
        Wrapping(1i64)
    }
}

impl Repr for Wrapping<i128> {
    type Mask = MaskWrapper<u128>;

    open spec fn spec_one() -> Wrapping<i128> {
        Wrapping(1i128)
    }

    fn one() -> (r: Wrapping<i128>) {
        Wrapping(1i128)
    }
}

impl Repr for Wrapping<isize> {
    type Mask = MaskWrapper<usize>;

    open spec fn spec_one() -> Wrapping<isize> {
        Wrapping(1isize)
    }

    fn one() -> (r: Wrapping<isize>) {
        Wrapping(1isize)
    }
}

impl<I: Bits> Repr for MaskWrapper<I> {
    type Mask = Self;

    open spec fn spec_one() -> Self {
        Self::spec_from_bool(true)
    }

    fn one() -> (r: Self) {
        Self::true_value()
    }
}

impl Repr for bool {
    type Mask = bool;

    open spec fn spec_one() -> bool {
        true
    }

    fn one() -> (r: bool) {
        true
    }
}

} // verus!
