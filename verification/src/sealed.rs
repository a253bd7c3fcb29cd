//! The seal on the closed sets of base types and mask types.

use vstd::prelude::*;
use core::num::Wrapping;
use crate::mask::{Bits, MaskWrapper};

verus! {

/// Keeps the sets of base types and of mask types closed: only this crate
/// can name the trait, so only this crate can add a type to them.
pub trait Sealed {

}

impl Sealed for u8 {

}

impl Sealed for Wrapping<u8> {

}

impl Sealed for u16 {

}

impl Sealed for Wrapping<u16> {

}

impl Sealed for u32 {

}

impl Sealed for Wrapping<u32> {

}

impl Sealed for u64 {

}

impl Sealed for Wrapping<u64> {

}

impl Sealed for u128 {

}

impl Sealed for Wrapping<u128> {

}

impl Sealed for usize {

}

impl Sealed for Wrapping<usize> {

}

impl Sealed for i8 {

}

impl Sealed for Wrapping<i8> {

}

impl Sealed for i16 {

}

impl Sealed for Wrapping<i16> {

}

impl Sealed for i32 {

}

impl Sealed for Wrapping<i32> {

}

impl Sealed for i64 {

}

impl Sealed for Wrapping<i64> {

}

impl Sealed for i128 {

}

impl Sealed for Wrapping<i128> {

}

impl Sealed for isize {

}

impl Sealed for Wrapping<isize> {

}

impl Sealed for bool {

}

impl<I: Bits> Sealed for MaskWrapper<I> {

}

} // verus!
