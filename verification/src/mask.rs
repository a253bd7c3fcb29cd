//! Boolean-shaped lane values: integers of which every bit is set or none is.

use vstd::prelude::*;
use vstd::std_specs::ops::{BitAndSpecImpl, BitOrSpecImpl, BitXorSpecImpl, NotSpecImpl};
use crate::sealed::Sealed;

verus! {

/// An unsigned integer that can carry a mask: all of its bits are set or none is.
pub trait Bits: Copy + Sized + Sealed {
    /// The value with every bit set.
    spec fn ones() -> Self;

    /// The value with no bit set.
    spec fn zero() -> Self;

    /// The two carrier values differ.
    proof fn ones_is_not_zero()
        ensures
            Self::ones() != Self::zero(),
    ;

    /// Gives the value with every bit set.
    fn all_ones() -> (r: Self)
        ensures
            r == Self::ones(),
    ;

    /// Gives the value with no bit set.
    fn all_zeros() -> (r: Self)
        ensures
            r == Self::zero(),
    ;

    /// Tells whether every bit is set.
    fn is_ones(self) -> (r: bool)
        ensures
            r == (self == Self::ones()),
    ;

    /// Bitwise complement, which swaps the two carrier values.
    fn flip(self) -> (r: Self)
        ensures
            self == Self::ones() ==> r == Self::zero(),
            self == Self::zero() ==> r == Self::ones(),
    ;

    /// Bitwise and, which on the two carrier values is conjunction.
    fn both(self, rhs: Self) -> (r: Self)
        ensures
            self == Self::ones() && rhs == Self::ones() ==> r == Self::ones(),
            self == Self::zero() && rhs == Self::ones() ==> r == Self::zero(),
            self == Self::ones() && rhs == Self::zero() ==> r == Self::zero(),
            self == Self::zero() && rhs == Self::zero() ==> r == Self::zero(),
    ;

    /// Bitwise or, which on the two carrier values is disjunction.
    fn either(self, rhs: Self) -> (r: Self)
        ensures
            self == Self::ones() && rhs == Self::ones() ==> r == Self::ones(),
            self == Self::zero() && rhs == Self::ones() ==> r == Self::ones(),
            self == Self::ones() && rhs == Self::zero() ==> r == Self::ones(),
            self == Self::zero() && rhs == Self::zero() ==> r == Self::zero(),
    ;

    /// Bitwise exclusive or, which on the two carrier values is inequality.
    fn differ(self, rhs: Self) -> (r: Self)
        ensures
            self == Self::ones() && rhs == Self::ones() ==> r == Self::zero(),
            self == Self::zero() && rhs == Self::ones() ==> r == Self::ones(),
            self == Self::ones() && rhs == Self::zero() ==> r == Self::ones(),
            self == Self::zero() && rhs == Self::zero() ==> r == Self::zero(),
    ;
}

impl Bits for u8 {
    open spec fn ones() -> u8 {
        0xffu8
    }

    open spec fn zero() -> u8 {
        0u8
    }

    proof fn ones_is_not_zero() {
    }

    fn all_ones() -> (r: u8) {
        0xffu8
    }

    fn all_zeros() -> (r: u8) {
        0u8
    }

    /// Tells whether every bit is set.
    fn is_ones(self) -> (r: bool) {
        self == 0xffu8
    }

    fn flip(self) -> (r: u8) {
        assert(!0xffu8 == 0u8 && !0u8 == 0xffu8) by (bit_vector);
        !self
    }

    fn both(self, rhs: u8) -> (r: u8) {
        assert(0xffu8 & 0xffu8 == 0xffu8 && 0u8 & 0xffu8 == 0u8 && 0xffu8 & 0u8 == 0u8 && 0u8 & 0u8
            == 0u8) by (bit_vector);
        self & rhs
    }

    fn either(self, rhs: u8) -> (r: u8) {
        assert(0xffu8 | 0xffu8 == 0xffu8 && 0u8 | 0xffu8 == 0xffu8 && 0xffu8 | 0u8 == 0xffu8 && 0u8
            | 0u8 == 0u8) by (bit_vector);
        self | rhs
    }

    fn differ(self, rhs: u8) -> (r: u8) {
        assert(0xffu8 ^ 0xffu8 == 0u8 && 0u8 ^ 0xffu8 == 0xffu8 && 0xffu8 ^ 0u8 == 0xffu8 && 0u8 ^ 0u8
            == 0u8) by (bit_vector);
        self ^ rhs
    }
}

impl Bits for u16 {
    open spec fn ones() -> u16 {
        0xffffu16
    }

    open spec fn zero() -> u16 {
        0u16
    }

    proof fn ones_is_not_zero() {
    }

    fn all_ones() -> (r: u16) {
        0xffffu16
    }

    fn all_zeros() -> (r: u16) {
        0u16
    }

    /// Tells whether every bit is set.
    fn is_ones(self) -> (r: bool) {
        self == 0xffffu16
    }

    fn flip(self) -> (r: u16) {
        assert(!0xffffu16 == 0u16 && !0u16 == 0xffffu16) by (bit_vector);
        !self
    }

    fn both(self, rhs: u16) -> (r: u16) {
        assert(0xffffu16 & 0xffffu16 == 0xffffu16 && 0u16 & 0xffffu16 == 0u16 && 0xffffu16 & 0u16 == 0u16 && 0u16 & 0u16
            == 0u16) by (bit_vector);
        self & rhs
    }

    fn either(self, rhs: u16) -> (r: u16) {
        assert(0xffffu16 | 0xffffu16 == 0xffffu16 && 0u16 | 0xffffu16 == 0xffffu16 && 0xffffu16 | 0u16 == 0xffffu16 && 0u16
            | 0u16 == 0u16) by (bit_vector);
        self | rhs
    }

    fn differ(self, rhs: u16) -> (r: u16) {
        assert(0xffffu16 ^ 0xffffu16 == 0u16 && 0u16 ^ 0xffffu16 == 0xffffu16 && 0xffffu16 ^ 0u16 == 0xffffu16 && 0u16 ^ 0u16
            == 0u16) by (bit_vector);
        self ^ rhs
    }
}

impl Bits for u32 {
    open spec fn ones() -> u32 {
        0xffff_ffffu32
    }

    open spec fn zero() -> u32 {
        0u32
    }

    proof fn ones_is_not_zero() {
    }

    fn all_ones() -> (r: u32) {
        0xffff_ffffu32
    }

    fn all_zeros() -> (r: u32) {
        0u32
    }

    /// Tells whether every bit is set.
    fn is_ones(self) -> (r: bool) {
        self == 0xffff_ffffu32
    }

    fn flip(self) -> (r: u32) {
        assert(!0xffff_ffffu32 == 0u32 && !0u32 == 0xffff_ffffu32) by (bit_vector);
        !self
    }

    fn both(self, rhs: u32) -> (r: u32) {
        assert(0xffff_ffffu32 & 0xffff_ffffu32 == 0xffff_ffffu32 && 0u32 & 0xffff_ffffu32 == 0u32 && 0xffff_ffffu32 & 0u32 == 0u32 && 0u32 & 0u32
            == 0u32) by (bit_vector);
        self & rhs
    }

    fn either(self, rhs: u32) -> (r: u32) {
        assert(0xffff_ffffu32 | 0xffff_ffffu32 == 0xffff_ffffu32 && 0u32 | 0xffff_ffffu32 == 0xffff_ffffu32 && 0xffff_ffffu32 | 0u32 == 0xffff_ffffu32 && 0u32
            | 0u32 == 0u32) by (bit_vector);
        self | rhs
    }

    fn differ(self, rhs: u32) -> (r: u32) {
        assert(0xffff_ffffu32 ^ 0xffff_ffffu32 == 0u32 && 0u32 ^ 0xffff_ffffu32 == 0xffff_ffffu32 && 0xffff_ffffu32 ^ 0u32 == 0xffff_ffffu32 && 0u32 ^ 0u32
            == 0u32) by (bit_vector);
        self ^ rhs
    }
}

impl Bits for u64 {
    open spec fn ones() -> u64 {
        0xffff_ffff_ffff_ffffu64
    }

    open spec fn zero() -> u64 {
        0u64
    }

    proof fn ones_is_not_zero() {
    }

    fn all_ones() -> (r: u64) {
        0xffff_ffff_ffff_ffffu64
    }

    fn all_zeros() -> (r: u64) {
        0u64
    }

    /// Tells whether every bit is set.
    fn is_ones(self) -> (r: bool) {
        self == 0xffff_ffff_ffff_ffffu64
    }

    fn flip(self) -> (r: u64) {
        assert(!0xffff_ffff_ffff_ffffu64 == 0u64 && !0u64 == 0xffff_ffff_ffff_ffffu64) by (bit_vector);
        !self
    }

    fn both(self, rhs: u64) -> (r: u64) {
        assert(0xffff_ffff_ffff_ffffu64 & 0xffff_ffff_ffff_ffffu64 == 0xffff_ffff_ffff_ffffu64 && 0u64 & 0xffff_ffff_ffff_ffffu64 == 0u64 && 0xffff_ffff_ffff_ffffu64 & 0u64 == 0u64 && 0u64 & 0u64
            == 0u64) by (bit_vector);
        self & rhs
    }

    fn either(self, rhs: u64) -> (r: u64) {
        assert(0xffff_ffff_ffff_ffffu64 | 0xffff_ffff_ffff_ffffu64 == 0xffff_ffff_ffff_ffffu64 && 0u64 | 0xffff_ffff_ffff_ffffu64 == 0xffff_ffff_ffff_ffffu64 && 0xffff_ffff_ffff_ffffu64 | 0u64 == 0xffff_ffff_ffff_ffffu64 && 0u64
            | 0u64 == 0u64) by (bit_vector);
        self | rhs
    }

    fn differ(self, rhs: u64) -> (r: u64) {
        assert(0xffff_ffff_ffff_ffffu64 ^ 0xffff_ffff_ffff_ffffu64 == 0u64 && 0u64 ^ 0xffff_ffff_ffff_ffffu64 == 0xffff_ffff_ffff_ffffu64 && 0xffff_ffff_ffff_ffffu64 ^ 0u64 == 0xffff_ffff_ffff_ffffu64 && 0u64 ^ 0u64
            == 0u64) by (bit_vector);
        self ^ rhs
    }
}

impl Bits for u128 {
    open spec fn ones() -> u128 {
        0xffff_ffff_ffff_ffff_ffff_ffff_ffff_ffffu128
    }

    open spec fn zero() -> u128 {
        0u128
    }

    proof fn ones_is_not_zero() {
    }

    fn all_ones() -> (r: u128) {
        0xffff_ffff_ffff_ffff_ffff_ffff_ffff_ffffu128
    }

    fn all_zeros() -> (r: u128) {
        0u128
    }

    /// Tells whether every bit is set.
    fn is_ones(self) -> (r: bool) {
        self == 0xffff_ffff_ffff_ffff_ffff_ffff_ffff_ffffu128
    }

    fn flip(self) -> (r: u128) {
        assert(!0xffff_ffff_ffff_ffff_ffff_ffff_ffff_ffffu128 == 0u128 && !0u128 == 0xffff_ffff_ffff_ffff_ffff_ffff_ffff_ffffu128) by (bit_vector);
        !self
    }

    fn both(self, rhs: u128) -> (r: u128) {
        assert(0xffff_ffff_ffff_ffff_ffff_ffff_ffff_ffffu128 & 0xffff_ffff_ffff_ffff_ffff_ffff_ffff_ffffu128 == 0xffff_ffff_ffff_ffff_ffff_ffff_ffff_ffffu128 && 0u128 & 0xffff_ffff_ffff_ffff_ffff_ffff_ffff_ffffu128 == 0u128 && 0xffff_ffff_ffff_ffff_ffff_ffff_ffff_ffffu128 & 0u128 == 0u128 && 0u128 & 0u128
            == 0u128) by (bit_vector);
        self & rhs
    }

    fn either(self, rhs: u128) -> (r: u128) {
        assert(0xffff_ffff_ffff_ffff_ffff_ffff_ffff_ffffu128 | 0xffff_ffff_ffff_ffff_ffff_ffff_ffff_ffffu128 == 0xffff_ffff_ffff_ffff_ffff_ffff_ffff_ffffu128 && 0u128 | 0xffff_ffff_ffff_ffff_ffff_ffff_ffff_ffffu128 == 0xffff_ffff_ffff_ffff_ffff_ffff_ffff_ffffu128 && 0xffff_ffff_ffff_ffff_ffff_ffff_ffff_ffffu128 | 0u128 == 0xffff_ffff_ffff_ffff_ffff_ffff_ffff_ffffu128 && 0u128
            | 0u128 == 0u128) by (bit_vector);
        self | rhs
    }

    fn differ(self, rhs: u128) -> (r: u128) {
        assert(0xffff_ffff_ffff_ffff_ffff_ffff_ffff_ffffu128 ^ 0xffff_ffff_ffff_ffff_ffff_ffff_ffff_ffffu128 == 0u128 && 0u128 ^ 0xffff_ffff_ffff_ffff_ffff_ffff_ffff_ffffu128 == 0xffff_ffff_ffff_ffff_ffff_ffff_ffff_ffffu128 && 0xffff_ffff_ffff_ffff_ffff_ffff_ffff_ffffu128 ^ 0u128 == 0xffff_ffff_ffff_ffff_ffff_ffff_ffff_ffffu128 && 0u128 ^ 0u128
            == 0u128) by (bit_vector);
        self ^ rhs
    }
}

impl Bits for usize {
    open spec fn ones() -> usize {
        usize::MAX
    }

    open spec fn zero() -> usize {
        0usize
    }

    proof fn ones_is_not_zero() {
    }

    fn all_ones() -> (r: usize) {
        usize::MAX
    }

    fn all_zeros() -> (r: usize) {
        0usize
    }

    /// Tells whether every bit is set.
    fn is_ones(self) -> (r: bool) {
        self == usize::MAX
    }

    fn flip(self) -> (r: usize) {
        let top: usize = usize::MAX;
        assert(top <= !0usize) by (bit_vector);
        assert(!(!0usize) == 0usize) by (bit_vector);
        !self
    }

    fn both(self, rhs: usize) -> (r: usize) {
        assert(self & self == self && 0usize & rhs == 0usize && self & 0usize == 0usize)
            by (bit_vector);
        self & rhs
    }

    fn either(self, rhs: usize) -> (r: usize) {
        assert(self | self == self && 0usize | rhs == rhs && self | 0usize == self) by (bit_vector);
        self | rhs
    }

    fn differ(self, rhs: usize) -> (r: usize) {
        assert(self ^ self == 0usize && 0usize ^ rhs == rhs && self ^ 0usize == self)
            by (bit_vector);
        self ^ rhs
    }
}

/// A mask value carried by an integer of a given width: every bit of it is set
/// (true) or none is (false).
#[derive(Debug, PartialEq, Eq, PartialOrd, Ord)]
pub struct MaskWrapper<I: Bits>(I);

impl<I: Bits> Clone for MaskWrapper<I> {
    fn clone(&self) -> (r: Self)
        ensures
            r == *self,
    {
        *self
    }
}

impl<I: Bits> Copy for MaskWrapper<I> {

}

impl<I: Bits> MaskWrapper<I> {
    #[verifier::type_invariant]
    spec fn legal(self) -> bool {
        self.0 == I::ones() || self.0 == I::zero()
    }

    /// The boolean that the carried bit pattern stands for.
    pub closed spec fn lit(self) -> bool {
        self.0 == I::ones()
    }

    /// The mask value that stands for a boolean.
    pub closed spec fn of(b: bool) -> Self {
        if b {
            MaskWrapper(I::ones())
        } else {
            MaskWrapper(I::zero())
        }
    }

    /// `of` is a right inverse of `lit`.
    pub proof fn lit_of(b: bool)
        ensures
            Self::of(b).lit() == b,
    {
        I::ones_is_not_zero();
    }
}

/// A boolean-shaped lane value.
pub trait Mask: Copy + Sized + Sealed {
    /// The boolean that this mask value stands for.
    spec fn truth(self) -> bool;

    /// The mask value that stands for a boolean.
    spec fn spec_from_bool(v: bool) -> Self;

    /// Converting a boolean to a mask and back gives the boolean.
    proof fn truth_of_from_bool(v: bool)
        ensures
            Self::spec_from_bool(v).truth() == v,
    ;

    /// The true value of the type.
    fn true_value() -> (r: Self)
        ensures
            r == Self::spec_from_bool(true),
    ;

    /// The false value of the type.
    fn false_value() -> (r: Self)
        ensures
            r == Self::spec_from_bool(false),
    ;

    /// Converts the mask to a `bool`.
    fn bool(self) -> (r: bool)
        ensures
            r == self.truth(),
            self == Self::spec_from_bool(r),
    ;

    /// Converts a `bool` to the mask.
    fn from_bool(v: bool) -> (r: Self)
        ensures
            r == Self::spec_from_bool(v),
    ;
}

impl Mask for bool {
    open spec fn truth(self) -> bool {
        self
    }

    open spec fn spec_from_bool(v: bool) -> bool {
        v
    }

    proof fn truth_of_from_bool(v: bool) {
    }

    fn true_value() -> (r: bool) {
        true
    }

    fn false_value() -> (r: bool) {
        false
    }

    fn bool(self) -> (r: bool) {
        self
    }

    fn from_bool(v: bool) -> (r: Self) {
        v
    }
}

impl<I: Bits> Mask for MaskWrapper<I> {
    open spec fn truth(self) -> bool {
        self.lit()
    }

    open spec fn spec_from_bool(v: bool) -> Self {
        Self::of(v)
    }

    proof fn truth_of_from_bool(v: bool) {
        Self::lit_of(v);
    }

    fn true_value() -> (r: Self) {
        MaskWrapper(I::all_ones())
    }

    fn false_value() -> (r: Self) {
        MaskWrapper(I::all_zeros())
    }

    fn bool(self) -> (r: bool) {
        proof {
            use_type_invariant(&self);
        }
        self.0.is_ones()
    }

    fn from_bool(v: bool) -> (r: Self) {
        if v {
            Self::true_value()
        } else {
            Self::false_value()
        }
    }
}

impl<I: Bits> Default for MaskWrapper<I> {
    /// The false value.
    fn default() -> (r: Self)
        ensures
            r == Self::of(false),
    {
        Self::false_value()
    }
}

impl<I: Bits> core::ops::Not for MaskWrapper<I> {
    type Output = Self;

    fn not(self) -> (r: Self) {
        proof {
            use_type_invariant(&self);
            I::ones_is_not_zero();
        }
        MaskWrapper(self.0.flip())
    }
}

impl<I: Bits> NotSpecImpl for MaskWrapper<I> {
    open spec fn obeys_not_spec() -> bool {
        true
    }

    open spec fn not_req(self) -> bool {
        true
    }

    open spec fn not_spec(self) -> Self {
        Self::of(!self.lit())
    }
}

impl<I: Bits> core::ops::BitAnd for MaskWrapper<I> {
    type Output = Self;

    fn bitand(self, rhs: Self) -> (r: Self) {
        proof {
            use_type_invariant(&self);
            use_type_invariant(&rhs);
            I::ones_is_not_zero();
        }
        MaskWrapper(self.0.both(rhs.0))
    }
}

impl<I: Bits> core::ops::BitAndAssign for MaskWrapper<I> {
    fn bitand_assign(&mut self, rhs: Self)
        ensures
            *final(self) == Self::of(old(self).lit() && rhs.lit()),
    {
        *self = *self & rhs;
    }
}

impl<I: Bits> BitAndSpecImpl for MaskWrapper<I> {
    open spec fn obeys_bitand_spec() -> bool {
        true
    }

    open spec fn bitand_req(self, rhs: Self) -> bool {
        true
    }

    open spec fn bitand_spec(self, rhs: Self) -> Self {
        Self::of(self.lit() && rhs.lit())
    }
}

impl<I: Bits> core::ops::BitOr for MaskWrapper<I> {
    type Output = Self;

    fn bitor(self, rhs: Self) -> (r: Self) {
        proof {
            use_type_invariant(&self);
            use_type_invariant(&rhs);
            I::ones_is_not_zero();
        }
        MaskWrapper(self.0.either(rhs.0))
    }
}

impl<I: Bits> core::ops::BitOrAssign for MaskWrapper<I> {
    fn bitor_assign(&mut self, rhs: Self)
        ensures
            *final(self) == Self::of(old(self).lit() || rhs.lit()),
    {
        *self = *self | rhs;
    }
}

impl<I: Bits> BitOrSpecImpl for MaskWrapper<I> {
    open spec fn obeys_bitor_spec() -> bool {
        true
    }

    open spec fn bitor_req(self, rhs: Self) -> bool {
        true
    }

    open spec fn bitor_spec(self, rhs: Self) -> Self {
        Self::of(self.lit() || rhs.lit())
    }
}

impl<I: Bits> core::ops::BitXor for MaskWrapper<I> {
    type Output = Self;

    fn bitxor(self, rhs: Self) -> (r: Self) {
        proof {
            use_type_invariant(&self);
            use_type_invariant(&rhs);
            I::ones_is_not_zero();
        }
        MaskWrapper(self.0.differ(rhs.0))
    }
}

impl<I: Bits> core::ops::BitXorAssign for MaskWrapper<I> {
    fn bitxor_assign(&mut self, rhs: Self)
        ensures
            *final(self) == Self::of(old(self).lit() != rhs.lit()),
    {
        *self = *self ^ rhs;
    }
}

impl<I: Bits> BitXorSpecImpl for MaskWrapper<I> {
    open spec fn obeys_bitxor_spec() -> bool {
        true
    }

    open spec fn bitxor_req(self, rhs: Self) -> bool {
        true
    }

    open spec fn bitxor_spec(self, rhs: Self) -> Self {
        Self::of(self.lit() != rhs.lit())
    }
}

/// A mask of 8 bits.
#[allow(non_camel_case_types)]
pub type m8 = MaskWrapper<u8>;

/// A mask of 16 bits.
#[allow(non_camel_case_types)]
pub type m16 = MaskWrapper<u16>;

/// A mask of 32 bits.
#[allow(non_camel_case_types)]
pub type m32 = MaskWrapper<u32>;

/// A mask of 64 bits.
#[allow(non_camel_case_types)]
pub type m64 = MaskWrapper<u64>;

/// A mask of 128 bits.
#[allow(non_camel_case_types)]
pub type m128 = MaskWrapper<u128>;

/// A mask as wide as a pointer.
#[allow(non_camel_case_types)]
pub type msize = MaskWrapper<usize>;

} // verus!
