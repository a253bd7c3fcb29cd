//! The operators of the base type, lane by lane.

use vstd::prelude::*;
use vstd::std_specs::ops::{
    AddSpec, AddSpecImpl, BitAndSpec, BitAndSpecImpl, BitOrSpec, BitOrSpecImpl, BitXorSpec,
    BitXorSpecImpl, DivSpec, DivSpecImpl, MulSpec, MulSpecImpl, NegSpec, NegSpecImpl, NotSpec,
    NotSpecImpl, RemSpec, RemSpecImpl, ShlSpec, ShlSpecImpl, ShrSpec, ShrSpecImpl, SubSpec,
    SubSpecImpl,
};
use core::ops::{
    Add, AddAssign, BitAnd, BitAndAssign, BitOr, BitOrAssign, BitXor, BitXorAssign, Div, DivAssign,
    Mul, MulAssign, Neg, Not, Rem, RemAssign, Shl, ShlAssign, Shr, ShrAssign, Sub, SubAssign,
};
use crate::repr::Repr;
use crate::vector::{repeated, Align, Vector};

verus! {

/// Lane `i` is the sum of the two lanes `i`, as the base type forms it.
pub open spec fn lanes_add<B: Add<Output = B>>(a: Seq<B>, b: Seq<B>) -> Seq<B> {
    Seq::new(a.len(), |i: int| a[i].add_spec(b[i]))
}

/// Every lane of `a` may be added to its lane of `b`.
pub open spec fn lanes_add_req<B: Add<Output = B>>(a: Seq<B>, b: Seq<B>) -> bool {
    forall|i: int| 0 <= i < a.len() ==> (#[trigger] a[i]).add_req(b[i])
}

impl<A: Align, B: Repr + Add<Output = B>, const S: usize> Add for Vector<A, B, S> {
    type Output = Self;

    /// Lane-wise `add`.
    fn add(self, rhs: Self) -> (r: Self)
        ensures
            B::obeys_add_spec() ==> r@ == lanes_add(self@, rhs@),
    {
        proof {
            use_type_invariant(&self);
            self.lanes_len();
            rhs.lanes_len();
        }
        let a = self.into_array();
        let b = rhs.into_array();
        let mut data = a;
        let mut i: usize = 0;
        while i < S
            invariant
                i <= S,
                a@ == self@,
                b@ == rhs@,
                lanes_add_req(self@, rhs@),
                forall|j: int| 0 <= j < i && B::obeys_add_spec() ==> data@[j] == self@[j].add_spec(rhs@[j]),
            decreases S - i,
        {
            data[i] = a[i].add(b[i]);
            i += 1;
        }
        let r = Vector::from(data);
        proof {
            if B::obeys_add_spec() {
                assert(r@ =~= lanes_add(self@, rhs@));
                r.of_own_lanes();
            }
        }
        r
    }
}

impl<A: Align, B: Repr + Add<Output = B>, const S: usize> AddSpecImpl for Vector<A, B, S> {
    open spec fn obeys_add_spec() -> bool {
        B::obeys_add_spec()
    }

    open spec fn add_req(self, rhs: Self) -> bool {
        lanes_add_req(self@, rhs@)
    }

    open spec fn add_spec(self, rhs: Self) -> Self {
        Self::of_lanes(lanes_add(self@, rhs@))
    }
}

impl<A: Align, B: Repr + Add<Output = B>, const S: usize> Add<B> for Vector<A, B, S> {
    type Output = Self;

    /// Lane-wise `add` with the same right-hand side in every lane.
    fn add(self, rhs: B) -> (r: Self)
        ensures
            B::obeys_add_spec() ==> r@ == lanes_add(self@, repeated(rhs, S as nat)),
    {
        proof {
            use_type_invariant(&self);
            self.lanes_len();
        }
        let a = self.into_array();
        let mut data = a;
        let mut i: usize = 0;
        while i < S
            invariant
                i <= S,
                a@ == self@,
                lanes_add_req(self@, repeated(rhs, S as nat)),
                forall|j: int| 0 <= j < i && B::obeys_add_spec() ==> data@[j] == self@[j].add_spec(rhs),
            decreases S - i,
        {
            assert(repeated(rhs, S as nat)[i as int] == rhs);
            data[i] = a[i].add(rhs);
            i += 1;
        }
        let r = Vector::from(data);
        proof {
            if B::obeys_add_spec() {
                assert(r@ =~= lanes_add(self@, repeated(rhs, S as nat)));
                r.of_own_lanes();
            }
        }
        r
    }
}

impl<A: Align, B: Repr + Add<Output = B>, const S: usize> AddSpecImpl<B> for Vector<A, B, S> {
    open spec fn obeys_add_spec() -> bool {
        B::obeys_add_spec()
    }

    open spec fn add_req(self, rhs: B) -> bool {
        lanes_add_req(self@, repeated(rhs, S as nat))
    }

    open spec fn add_spec(self, rhs: B) -> Self {
        Self::of_lanes(lanes_add(self@, repeated(rhs, S as nat)))
    }
}

/// Lane `i` is the difference of the two lanes `i`, as the base type forms it.
pub open spec fn lanes_sub<B: Sub<Output = B>>(a: Seq<B>, b: Seq<B>) -> Seq<B> {
    Seq::new(a.len(), |i: int| a[i].sub_spec(b[i]))
}

/// Every lane of `a` may be subtracted from its lane of `b`.
pub open spec fn lanes_sub_req<B: Sub<Output = B>>(a: Seq<B>, b: Seq<B>) -> bool {
    forall|i: int| 0 <= i < a.len() ==> (#[trigger] a[i]).sub_req(b[i])
}

impl<A: Align, B: Repr + Sub<Output = B>, const S: usize> Sub for Vector<A, B, S> {
    type Output = Self;

    /// Lane-wise `sub`.
    fn sub(self, rhs: Self) -> (r: Self)
        ensures
            B::obeys_sub_spec() ==> r@ == lanes_sub(self@, rhs@),
    {
        proof {
            use_type_invariant(&self);
            self.lanes_len();
            rhs.lanes_len();
        }
        let a = self.into_array();
        let b = rhs.into_array();
        let mut data = a;
        let mut i: usize = 0;
        while i < S
            invariant
                i <= S,
                a@ == self@,
                b@ == rhs@,
                lanes_sub_req(self@, rhs@),
                forall|j: int| 0 <= j < i && B::obeys_sub_spec() ==> data@[j] == self@[j].sub_spec(rhs@[j]),
            decreases S - i,
        {
            data[i] = a[i].sub(b[i]);
            i += 1;
        }
        let r = Vector::from(data);
        proof {
            if B::obeys_sub_spec() {
                assert(r@ =~= lanes_sub(self@, rhs@));
                r.of_own_lanes();
            }
        }
        r
    }
}

impl<A: Align, B: Repr + Sub<Output = B>, const S: usize> SubSpecImpl for Vector<A, B, S> {
    open spec fn obeys_sub_spec() -> bool {
        B::obeys_sub_spec()
    }

    open spec fn sub_req(self, rhs: Self) -> bool {
        lanes_sub_req(self@, rhs@)
    }

    open spec fn sub_spec(self, rhs: Self) -> Self {
        Self::of_lanes(lanes_sub(self@, rhs@))
    }
}

impl<A: Align, B: Repr + Sub<Output = B>, const S: usize> Sub<B> for Vector<A, B, S> {
    type Output = Self;

    /// Lane-wise `sub` with the same right-hand side in every lane.
    fn sub(self, rhs: B) -> (r: Self)
        ensures
            B::obeys_sub_spec() ==> r@ == lanes_sub(self@, repeated(rhs, S as nat)),
    {
        proof {
            use_type_invariant(&self);
            self.lanes_len();
        }
        let a = self.into_array();
        let mut data = a;
        let mut i: usize = 0;
        while i < S
            invariant
                i <= S,
                a@ == self@,
                lanes_sub_req(self@, repeated(rhs, S as nat)),
                forall|j: int| 0 <= j < i && B::obeys_sub_spec() ==> data@[j] == self@[j].sub_spec(rhs),
            decreases S - i,
        {
            assert(repeated(rhs, S as nat)[i as int] == rhs);
            data[i] = a[i].sub(rhs);
            i += 1;
        }
        let r = Vector::from(data);
        proof {
            if B::obeys_sub_spec() {
                assert(r@ =~= lanes_sub(self@, repeated(rhs, S as nat)));
                r.of_own_lanes();
            }
        }
        r
    }
}

impl<A: Align, B: Repr + Sub<Output = B>, const S: usize> SubSpecImpl<B> for Vector<A, B, S> {
    open spec fn obeys_sub_spec() -> bool {
        B::obeys_sub_spec()
    }

    open spec fn sub_req(self, rhs: B) -> bool {
        lanes_sub_req(self@, repeated(rhs, S as nat))
    }

    open spec fn sub_spec(self, rhs: B) -> Self {
        Self::of_lanes(lanes_sub(self@, repeated(rhs, S as nat)))
    }
}

/// Lane `i` is the product of the two lanes `i`, as the base type forms it.
pub open spec fn lanes_mul<B: Mul<Output = B>>(a: Seq<B>, b: Seq<B>) -> Seq<B> {
    Seq::new(a.len(), |i: int| a[i].mul_spec(b[i]))
}

/// Every lane of `a` may be multiplied with its lane of `b`.
pub open spec fn lanes_mul_req<B: Mul<Output = B>>(a: Seq<B>, b: Seq<B>) -> bool {
    forall|i: int| 0 <= i < a.len() ==> (#[trigger] a[i]).mul_req(b[i])
}

impl<A: Align, B: Repr + Mul<Output = B>, const S: usize> Mul for Vector<A, B, S> {
    type Output = Self;

    /// Lane-wise `mul`.
    fn mul(self, rhs: Self) -> (r: Self)
        ensures
            B::obeys_mul_spec() ==> r@ == lanes_mul(self@, rhs@),
    {
        proof {
            use_type_invariant(&self);
            self.lanes_len();
            rhs.lanes_len();
        }
        let a = self.into_array();
        let b = rhs.into_array();
        let mut data = a;
        let mut i: usize = 0;
        while i < S
            invariant
                i <= S,
                a@ == self@,
                b@ == rhs@,
                lanes_mul_req(self@, rhs@),
                forall|j: int| 0 <= j < i && B::obeys_mul_spec() ==> data@[j] == self@[j].mul_spec(rhs@[j]),
            decreases S - i,
        {
            data[i] = a[i].mul(b[i]);
            i += 1;
        }
        let r = Vector::from(data);
        proof {
            if B::obeys_mul_spec() {
                assert(r@ =~= lanes_mul(self@, rhs@));
                r.of_own_lanes();
            }
        }
        r
    }
}

impl<A: Align, B: Repr + Mul<Output = B>, const S: usize> MulSpecImpl for Vector<A, B, S> {
    open spec fn obeys_mul_spec() -> bool {
        B::obeys_mul_spec()
    }

    open spec fn mul_req(self, rhs: Self) -> bool {
        lanes_mul_req(self@, rhs@)
    }

    open spec fn mul_spec(self, rhs: Self) -> Self {
        Self::of_lanes(lanes_mul(self@, rhs@))
    }
}

impl<A: Align, B: Repr + Mul<Output = B>, const S: usize> Mul<B> for Vector<A, B, S> {
    type Output = Self;

    /// Lane-wise `mul` with the same right-hand side in every lane.
    fn mul(self, rhs: B) -> (r: Self)
        ensures
            B::obeys_mul_spec() ==> r@ == lanes_mul(self@, repeated(rhs, S as nat)),
    {
        proof {
            use_type_invariant(&self);
            self.lanes_len();
        }
        let a = self.into_array();
        let mut data = a;
        let mut i: usize = 0;
        while i < S
            invariant
                i <= S,
                a@ == self@,
                lanes_mul_req(self@, repeated(rhs, S as nat)),
                forall|j: int| 0 <= j < i && B::obeys_mul_spec() ==> data@[j] == self@[j].mul_spec(rhs),
            decreases S - i,
        {
            assert(repeated(rhs, S as nat)[i as int] == rhs);
            data[i] = a[i].mul(rhs);
            i += 1;
        }
        let r = Vector::from(data);
        proof {
            if B::obeys_mul_spec() {
                assert(r@ =~= lanes_mul(self@, repeated(rhs, S as nat)));
                r.of_own_lanes();
            }
        }
        r
    }
}

impl<A: Align, B: Repr + Mul<Output = B>, const S: usize> MulSpecImpl<B> for Vector<A, B, S> {
    open spec fn obeys_mul_spec() -> bool {
        B::obeys_mul_spec()
    }

    open spec fn mul_req(self, rhs: B) -> bool {
        lanes_mul_req(self@, repeated(rhs, S as nat))
    }

    open spec fn mul_spec(self, rhs: B) -> Self {
        Self::of_lanes(lanes_mul(self@, repeated(rhs, S as nat)))
    }
}

/// Lane `i` is the quotient of the two lanes `i`, as the base type forms it.
pub open spec fn lanes_div<B: Div<Output = B>>(a: Seq<B>, b: Seq<B>) -> Seq<B> {
    Seq::new(a.len(), |i: int| a[i].div_spec(b[i]))
}

/// Every lane of `a` may be divided by its lane of `b`.
pub open spec fn lanes_div_req<B: Div<Output = B>>(a: Seq<B>, b: Seq<B>) -> bool {
    forall|i: int| 0 <= i < a.len() ==> (#[trigger] a[i]).div_req(b[i])
}

impl<A: Align, B: Repr + Div<Output = B>, const S: usize> Div for Vector<A, B, S> {
    type Output = Self;

    /// Lane-wise `div`.
    fn div(self, rhs: Self) -> (r: Self)
        ensures
            B::obeys_div_spec() ==> r@ == lanes_div(self@, rhs@),
    {
        proof {
            use_type_invariant(&self);
            self.lanes_len();
            rhs.lanes_len();
        }
        let a = self.into_array();
        let b = rhs.into_array();
        let mut data = a;
        let mut i: usize = 0;
        while i < S
            invariant
                i <= S,
                a@ == self@,
                b@ == rhs@,
                lanes_div_req(self@, rhs@),
                forall|j: int| 0 <= j < i && B::obeys_div_spec() ==> data@[j] == self@[j].div_spec(rhs@[j]),
            decreases S - i,
        {
            data[i] = a[i].div(b[i]);
            i += 1;
        }
        let r = Vector::from(data);
        proof {
            if B::obeys_div_spec() {
                assert(r@ =~= lanes_div(self@, rhs@));
                r.of_own_lanes();
            }
        }
        r
    }
}

impl<A: Align, B: Repr + Div<Output = B>, const S: usize> DivSpecImpl for Vector<A, B, S> {
    open spec fn obeys_div_spec() -> bool {
        B::obeys_div_spec()
    }

    open spec fn div_req(self, rhs: Self) -> bool {
        lanes_div_req(self@, rhs@)
    }

    open spec fn div_spec(self, rhs: Self) -> Self {
        Self::of_lanes(lanes_div(self@, rhs@))
    }
}

impl<A: Align, B: Repr + Div<Output = B>, const S: usize> Div<B> for Vector<A, B, S> {
    type Output = Self;

    /// Lane-wise `div` with the same right-hand side in every lane.
    fn div(self, rhs: B) -> (r: Self)
        ensures
            B::obeys_div_spec() ==> r@ == lanes_div(self@, repeated(rhs, S as nat)),
    {
        proof {
            use_type_invariant(&self);
            self.lanes_len();
        }
        let a = self.into_array();
        let mut data = a;
        let mut i: usize = 0;
        while i < S
            invariant
                i <= S,
                a@ == self@,
                lanes_div_req(self@, repeated(rhs, S as nat)),
                forall|j: int| 0 <= j < i && B::obeys_div_spec() ==> data@[j] == self@[j].div_spec(rhs),
            decreases S - i,
        {
            assert(repeated(rhs, S as nat)[i as int] == rhs);
            data[i] = a[i].div(rhs);
            i += 1;
        }
        let r = Vector::from(data);
        proof {
            if B::obeys_div_spec() {
                assert(r@ =~= lanes_div(self@, repeated(rhs, S as nat)));
                r.of_own_lanes();
            }
        }
        r
    }
}

impl<A: Align, B: Repr + Div<Output = B>, const S: usize> DivSpecImpl<B> for Vector<A, B, S> {
    open spec fn obeys_div_spec() -> bool {
        B::obeys_div_spec()
    }

    open spec fn div_req(self, rhs: B) -> bool {
        lanes_div_req(self@, repeated(rhs, S as nat))
    }

    open spec fn div_spec(self, rhs: B) -> Self {
        Self::of_lanes(lanes_div(self@, repeated(rhs, S as nat)))
    }
}

/// Lane `i` is the remainder of the two lanes `i`, as the base type forms it.
pub open spec fn lanes_rem<B: Rem<Output = B>>(a: Seq<B>, b: Seq<B>) -> Seq<B> {
    Seq::new(a.len(), |i: int| a[i].rem_spec(b[i]))
}

/// Every lane of `a` may be reduced by its lane of `b`.
pub open spec fn lanes_rem_req<B: Rem<Output = B>>(a: Seq<B>, b: Seq<B>) -> bool {
    forall|i: int| 0 <= i < a.len() ==> (#[trigger] a[i]).rem_req(b[i])
}

impl<A: Align, B: Repr + Rem<Output = B>, const S: usize> Rem for Vector<A, B, S> {
    type Output = Self;

    /// Lane-wise `rem`.
    fn rem(self, rhs: Self) -> (r: Self)
        ensures
            B::obeys_rem_spec() ==> r@ == lanes_rem(self@, rhs@),
    {
        proof {
            use_type_invariant(&self);
            self.lanes_len();
            rhs.lanes_len();
        }
        let a = self.into_array();
        let b = rhs.into_array();
        let mut data = a;
        let mut i: usize = 0;
        while i < S
            invariant
                i <= S,
                a@ == self@,
                b@ == rhs@,
                lanes_rem_req(self@, rhs@),
                forall|j: int| 0 <= j < i && B::obeys_rem_spec() ==> data@[j] == self@[j].rem_spec(rhs@[j]),
            decreases S - i,
        {
            data[i] = a[i].rem(b[i]);
            i += 1;
        }
        let r = Vector::from(data);
        proof {
            if B::obeys_rem_spec() {
                assert(r@ =~= lanes_rem(self@, rhs@));
                r.of_own_lanes();
            }
        }
        r
    }
}

impl<A: Align, B: Repr + Rem<Output = B>, const S: usize> RemSpecImpl for Vector<A, B, S> {
    open spec fn obeys_rem_spec() -> bool {
        B::obeys_rem_spec()
    }

    open spec fn rem_req(self, rhs: Self) -> bool {
        lanes_rem_req(self@, rhs@)
    }

    open spec fn rem_spec(self, rhs: Self) -> Self {
        Self::of_lanes(lanes_rem(self@, rhs@))
    }
}

impl<A: Align, B: Repr + Rem<Output = B>, const S: usize> Rem<B> for Vector<A, B, S> {
    type Output = Self;

    /// Lane-wise `rem` with the same right-hand side in every lane.
    fn rem(self, rhs: B) -> (r: Self)
        ensures
            B::obeys_rem_spec() ==> r@ == lanes_rem(self@, repeated(rhs, S as nat)),
    {
        proof {
            use_type_invariant(&self);
            self.lanes_len();
        }
        let a = self.into_array();
        let mut data = a;
        let mut i: usize = 0;
        while i < S
            invariant
                i <= S,
                a@ == self@,
                lanes_rem_req(self@, repeated(rhs, S as nat)),
                forall|j: int| 0 <= j < i && B::obeys_rem_spec() ==> data@[j] == self@[j].rem_spec(rhs),
            decreases S - i,
        {
            assert(repeated(rhs, S as nat)[i as int] == rhs);
            data[i] = a[i].rem(rhs);
            i += 1;
        }
        let r = Vector::from(data);
        proof {
            if B::obeys_rem_spec() {
                assert(r@ =~= lanes_rem(self@, repeated(rhs, S as nat)));
                r.of_own_lanes();
            }
        }
        r
    }
}

impl<A: Align, B: Repr + Rem<Output = B>, const S: usize> RemSpecImpl<B> for Vector<A, B, S> {
    open spec fn obeys_rem_spec() -> bool {
        B::obeys_rem_spec()
    }

    open spec fn rem_req(self, rhs: B) -> bool {
        lanes_rem_req(self@, repeated(rhs, S as nat))
    }

    open spec fn rem_spec(self, rhs: B) -> Self {
        Self::of_lanes(lanes_rem(self@, repeated(rhs, S as nat)))
    }
}

/// Lane `i` is the bitwise and of the two lanes `i`, as the base type forms it.
pub open spec fn lanes_bitand<B: BitAnd<Output = B>>(a: Seq<B>, b: Seq<B>) -> Seq<B> {
    Seq::new(a.len(), |i: int| a[i].bitand_spec(b[i]))
}

/// Every lane of `a` may be combined by `&` with its lane of `b`.
pub open spec fn lanes_bitand_req<B: BitAnd<Output = B>>(a: Seq<B>, b: Seq<B>) -> bool {
    forall|i: int| 0 <= i < a.len() ==> (#[trigger] a[i]).bitand_req(b[i])
}

impl<A: Align, B: Repr + BitAnd<Output = B>, const S: usize> BitAnd for Vector<A, B, S> {
    type Output = Self;

    /// Lane-wise `bitand`.
    fn bitand(self, rhs: Self) -> (r: Self)
        ensures
            B::obeys_bitand_spec() ==> r@ == lanes_bitand(self@, rhs@),
    {
        proof {
            use_type_invariant(&self);
            self.lanes_len();
            rhs.lanes_len();
        }
        let a = self.into_array();
        let b = rhs.into_array();
        let mut data = a;
        let mut i: usize = 0;
        while i < S
            invariant
                i <= S,
                a@ == self@,
                b@ == rhs@,
                lanes_bitand_req(self@, rhs@),
                forall|j: int| 0 <= j < i && B::obeys_bitand_spec() ==> data@[j] == self@[j].bitand_spec(rhs@[j]),
            decreases S - i,
        {
            data[i] = a[i].bitand(b[i]);
            i += 1;
        }
        let r = Vector::from(data);
        proof {
            if B::obeys_bitand_spec() {
                assert(r@ =~= lanes_bitand(self@, rhs@));
                r.of_own_lanes();
            }
        }
        r
    }
}

impl<A: Align, B: Repr + BitAnd<Output = B>, const S: usize> BitAndSpecImpl for Vector<A, B, S> {
    open spec fn obeys_bitand_spec() -> bool {
        B::obeys_bitand_spec()
    }

    open spec fn bitand_req(self, rhs: Self) -> bool {
        lanes_bitand_req(self@, rhs@)
    }

    open spec fn bitand_spec(self, rhs: Self) -> Self {
        Self::of_lanes(lanes_bitand(self@, rhs@))
    }
}

impl<A: Align, B: Repr + BitAnd<Output = B>, const S: usize> BitAnd<B> for Vector<A, B, S> {
    type Output = Self;

    /// Lane-wise `bitand` with the same right-hand side in every lane.
    fn bitand(self, rhs: B) -> (r: Self)
        ensures
            B::obeys_bitand_spec() ==> r@ == lanes_bitand(self@, repeated(rhs, S as nat)),
    {
        proof {
            use_type_invariant(&self);
            self.lanes_len();
        }
        let a = self.into_array();
        let mut data = a;
        let mut i: usize = 0;
        while i < S
            invariant
                i <= S,
                a@ == self@,
                lanes_bitand_req(self@, repeated(rhs, S as nat)),
                forall|j: int| 0 <= j < i && B::obeys_bitand_spec() ==> data@[j] == self@[j].bitand_spec(rhs),
            decreases S - i,
        {
            assert(repeated(rhs, S as nat)[i as int] == rhs);
            data[i] = a[i].bitand(rhs);
            i += 1;
        }
        let r = Vector::from(data);
        proof {
            if B::obeys_bitand_spec() {
                assert(r@ =~= lanes_bitand(self@, repeated(rhs, S as nat)));
                r.of_own_lanes();
            }
        }
        r
    }
}

impl<A: Align, B: Repr + BitAnd<Output = B>, const S: usize> BitAndSpecImpl<B> for Vector<A, B, S> {
    open spec fn obeys_bitand_spec() -> bool {
        B::obeys_bitand_spec()
    }

    open spec fn bitand_req(self, rhs: B) -> bool {
        lanes_bitand_req(self@, repeated(rhs, S as nat))
    }

    open spec fn bitand_spec(self, rhs: B) -> Self {
        Self::of_lanes(lanes_bitand(self@, repeated(rhs, S as nat)))
    }
}

/// Lane `i` is the bitwise or of the two lanes `i`, as the base type forms it.
pub open spec fn lanes_bitor<B: BitOr<Output = B>>(a: Seq<B>, b: Seq<B>) -> Seq<B> {
    Seq::new(a.len(), |i: int| a[i].bitor_spec(b[i]))
}

/// Every lane of `a` may be combined by `|` with its lane of `b`.
pub open spec fn lanes_bitor_req<B: BitOr<Output = B>>(a: Seq<B>, b: Seq<B>) -> bool {
    forall|i: int| 0 <= i < a.len() ==> (#[trigger] a[i]).bitor_req(b[i])
}

impl<A: Align, B: Repr + BitOr<Output = B>, const S: usize> BitOr for Vector<A, B, S> {
    type Output = Self;

    /// Lane-wise `bitor`.
    fn bitor(self, rhs: Self) -> (r: Self)
        ensures
            B::obeys_bitor_spec() ==> r@ == lanes_bitor(self@, rhs@),
    {
        proof {
            use_type_invariant(&self);
            self.lanes_len();
            rhs.lanes_len();
        }
        let a = self.into_array();
        let b = rhs.into_array();
        let mut data = a;
        let mut i: usize = 0;
        while i < S
            invariant
                i <= S,
                a@ == self@,
                b@ == rhs@,
                lanes_bitor_req(self@, rhs@),
                forall|j: int| 0 <= j < i && B::obeys_bitor_spec() ==> data@[j] == self@[j].bitor_spec(rhs@[j]),
            decreases S - i,
        {
            data[i] = a[i].bitor(b[i]);
            i += 1;
        }
        let r = Vector::from(data);
        proof {
            if B::obeys_bitor_spec() {
                assert(r@ =~= lanes_bitor(self@, rhs@));
                r.of_own_lanes();
            }
        }
        r
    }
}

impl<A: Align, B: Repr + BitOr<Output = B>, const S: usize> BitOrSpecImpl for Vector<A, B, S> {
    open spec fn obeys_bitor_spec() -> bool {
        B::obeys_bitor_spec()
    }

    open spec fn bitor_req(self, rhs: Self) -> bool {
        lanes_bitor_req(self@, rhs@)
    }

    open spec fn bitor_spec(self, rhs: Self) -> Self {
        Self::of_lanes(lanes_bitor(self@, rhs@))
    }
}

impl<A: Align, B: Repr + BitOr<Output = B>, const S: usize> BitOr<B> for Vector<A, B, S> {
    type Output = Self;

    /// Lane-wise `bitor` with the same right-hand side in every lane.
    fn bitor(self, rhs: B) -> (r: Self)
        ensures
            B::obeys_bitor_spec() ==> r@ == lanes_bitor(self@, repeated(rhs, S as nat)),
    {
        proof {
            use_type_invariant(&self);
            self.lanes_len();
        }
        let a = self.into_array();
        let mut data = a;
        let mut i: usize = 0;
        while i < S
            invariant
                i <= S,
                a@ == self@,
                lanes_bitor_req(self@, repeated(rhs, S as nat)),
                forall|j: int| 0 <= j < i && B::obeys_bitor_spec() ==> data@[j] == self@[j].bitor_spec(rhs),
            decreases S - i,
        {
            assert(repeated(rhs, S as nat)[i as int] == rhs);
            data[i] = a[i].bitor(rhs);
            i += 1;
        }
        let r = Vector::from(data);
        proof {
            if B::obeys_bitor_spec() {
                assert(r@ =~= lanes_bitor(self@, repeated(rhs, S as nat)));
                r.of_own_lanes();
            }
        }
        r
    }
}

impl<A: Align, B: Repr + BitOr<Output = B>, const S: usize> BitOrSpecImpl<B> for Vector<A, B, S> {
    open spec fn obeys_bitor_spec() -> bool {
        B::obeys_bitor_spec()
    }

    open spec fn bitor_req(self, rhs: B) -> bool {
        lanes_bitor_req(self@, repeated(rhs, S as nat))
    }

    open spec fn bitor_spec(self, rhs: B) -> Self {
        Self::of_lanes(lanes_bitor(self@, repeated(rhs, S as nat)))
    }
}

/// Lane `i` is the bitwise exclusive or of the two lanes `i`, as the base type forms it.
pub open spec fn lanes_bitxor<B: BitXor<Output = B>>(a: Seq<B>, b: Seq<B>) -> Seq<B> {
    Seq::new(a.len(), |i: int| a[i].bitxor_spec(b[i]))
}

/// Every lane of `a` may be combined by `^` with its lane of `b`.
pub open spec fn lanes_bitxor_req<B: BitXor<Output = B>>(a: Seq<B>, b: Seq<B>) -> bool {
    forall|i: int| 0 <= i < a.len() ==> (#[trigger] a[i]).bitxor_req(b[i])
}

impl<A: Align, B: Repr + BitXor<Output = B>, const S: usize> BitXor for Vector<A, B, S> {
    type Output = Self;

    /// Lane-wise `bitxor`.
    fn bitxor(self, rhs: Self) -> (r: Self)
        ensures
            B::obeys_bitxor_spec() ==> r@ == lanes_bitxor(self@, rhs@),
    {
        proof {
            use_type_invariant(&self);
            self.lanes_len();
            rhs.lanes_len();
        }
        let a = self.into_array();
        let b = rhs.into_array();
        let mut data = a;
        let mut i: usize = 0;
        while i < S
            invariant
                i <= S,
                a@ == self@,
                b@ == rhs@,
                lanes_bitxor_req(self@, rhs@),
                forall|j: int| 0 <= j < i && B::obeys_bitxor_spec() ==> data@[j] == self@[j].bitxor_spec(rhs@[j]),
            decreases S - i,
        {
            data[i] = a[i].bitxor(b[i]);
            i += 1;
        }
        let r = Vector::from(data);
        proof {
            if B::obeys_bitxor_spec() {
                assert(r@ =~= lanes_bitxor(self@, rhs@));
                r.of_own_lanes();
            }
        }
        r
    }
}

impl<A: Align, B: Repr + BitXor<Output = B>, const S: usize> BitXorSpecImpl for Vector<A, B, S> {
    open spec fn obeys_bitxor_spec() -> bool {
        B::obeys_bitxor_spec()
    }

    open spec fn bitxor_req(self, rhs: Self) -> bool {
        lanes_bitxor_req(self@, rhs@)
    }

    open spec fn bitxor_spec(self, rhs: Self) -> Self {
        Self::of_lanes(lanes_bitxor(self@, rhs@))
    }
}

impl<A: Align, B: Repr + BitXor<Output = B>, const S: usize> BitXor<B> for Vector<A, B, S> {
    type Output = Self;

    /// Lane-wise `bitxor` with the same right-hand side in every lane.
    fn bitxor(self, rhs: B) -> (r: Self)
        ensures
            B::obeys_bitxor_spec() ==> r@ == lanes_bitxor(self@, repeated(rhs, S as nat)),
    {
        proof {
            use_type_invariant(&self);
            self.lanes_len();
        }
        let a = self.into_array();
        let mut data = a;
        let mut i: usize = 0;
        while i < S
            invariant
                i <= S,
                a@ == self@,
                lanes_bitxor_req(self@, repeated(rhs, S as nat)),
                forall|j: int| 0 <= j < i && B::obeys_bitxor_spec() ==> data@[j] == self@[j].bitxor_spec(rhs),
            decreases S - i,
        {
            assert(repeated(rhs, S as nat)[i as int] == rhs);
            data[i] = a[i].bitxor(rhs);
            i += 1;
        }
        let r = Vector::from(data);
        proof {
            if B::obeys_bitxor_spec() {
                assert(r@ =~= lanes_bitxor(self@, repeated(rhs, S as nat)));
                r.of_own_lanes();
            }
        }
        r
    }
}

impl<A: Align, B: Repr + BitXor<Output = B>, const S: usize> BitXorSpecImpl<B> for Vector<A, B, S> {
    open spec fn obeys_bitxor_spec() -> bool {
        B::obeys_bitxor_spec()
    }

    open spec fn bitxor_req(self, rhs: B) -> bool {
        lanes_bitxor_req(self@, repeated(rhs, S as nat))
    }

    open spec fn bitxor_spec(self, rhs: B) -> Self {
        Self::of_lanes(lanes_bitxor(self@, repeated(rhs, S as nat)))
    }
}

/// Lane `i` is the left shift of the two lanes `i`, as the base type forms it.
pub open spec fn lanes_shl<B: Shl<Output = B>>(a: Seq<B>, b: Seq<B>) -> Seq<B> {
    Seq::new(a.len(), |i: int| a[i].shl_spec(b[i]))
}

/// Every lane of `a` may be shifted left by its lane of `b`.
pub open spec fn lanes_shl_req<B: Shl<Output = B>>(a: Seq<B>, b: Seq<B>) -> bool {
    forall|i: int| 0 <= i < a.len() ==> (#[trigger] a[i]).shl_req(b[i])
}

impl<A: Align, B: Repr + Shl<Output = B>, const S: usize> Shl for Vector<A, B, S> {
    type Output = Self;

    /// Lane-wise `shl`.
    fn shl(self, rhs: Self) -> (r: Self)
        ensures
            B::obeys_shl_spec() ==> r@ == lanes_shl(self@, rhs@),
    {
        proof {
            use_type_invariant(&self);
            self.lanes_len();
            rhs.lanes_len();
        }
        let a = self.into_array();
        let b = rhs.into_array();
        let mut data = a;
        let mut i: usize = 0;
        while i < S
            invariant
                i <= S,
                a@ == self@,
                b@ == rhs@,
                lanes_shl_req(self@, rhs@),
                forall|j: int| 0 <= j < i && B::obeys_shl_spec() ==> data@[j] == self@[j].shl_spec(rhs@[j]),
            decreases S - i,
        {
            data[i] = a[i].shl(b[i]);
            i += 1;
        }
        let r = Vector::from(data);
        proof {
            if B::obeys_shl_spec() {
                assert(r@ =~= lanes_shl(self@, rhs@));
                r.of_own_lanes();
            }
        }
        r
    }
}

impl<A: Align, B: Repr + Shl<Output = B>, const S: usize> ShlSpecImpl for Vector<A, B, S> {
    open spec fn obeys_shl_spec() -> bool {
        B::obeys_shl_spec()
    }

    open spec fn shl_req(self, rhs: Self) -> bool {
        lanes_shl_req(self@, rhs@)
    }

    open spec fn shl_spec(self, rhs: Self) -> Self {
        Self::of_lanes(lanes_shl(self@, rhs@))
    }
}

impl<A: Align, B: Repr + Shl<Output = B>, const S: usize> Shl<B> for Vector<A, B, S> {
    type Output = Self;

    /// Lane-wise `shl` with the same right-hand side in every lane.
    fn shl(self, rhs: B) -> (r: Self)
        ensures
            B::obeys_shl_spec() ==> r@ == lanes_shl(self@, repeated(rhs, S as nat)),
    {
        proof {
            use_type_invariant(&self);
            self.lanes_len();
        }
        let a = self.into_array();
        let mut data = a;
        let mut i: usize = 0;
        while i < S
            invariant
                i <= S,
                a@ == self@,
                lanes_shl_req(self@, repeated(rhs, S as nat)),
                forall|j: int| 0 <= j < i && B::obeys_shl_spec() ==> data@[j] == self@[j].shl_spec(rhs),
            decreases S - i,
        {
            assert(repeated(rhs, S as nat)[i as int] == rhs);
            data[i] = a[i].shl(rhs);
            i += 1;
        }
        let r = Vector::from(data);
        proof {
            if B::obeys_shl_spec() {
                assert(r@ =~= lanes_shl(self@, repeated(rhs, S as nat)));
                r.of_own_lanes();
            }
        }
        r
    }
}

impl<A: Align, B: Repr + Shl<Output = B>, const S: usize> ShlSpecImpl<B> for Vector<A, B, S> {
    open spec fn obeys_shl_spec() -> bool {
        B::obeys_shl_spec()
    }

    open spec fn shl_req(self, rhs: B) -> bool {
        lanes_shl_req(self@, repeated(rhs, S as nat))
    }

    open spec fn shl_spec(self, rhs: B) -> Self {
        Self::of_lanes(lanes_shl(self@, repeated(rhs, S as nat)))
    }
}

/// Lane `i` is the right shift of the two lanes `i`, as the base type forms it.
pub open spec fn lanes_shr<B: Shr<Output = B>>(a: Seq<B>, b: Seq<B>) -> Seq<B> {
    Seq::new(a.len(), |i: int| a[i].shr_spec(b[i]))
}

/// Every lane of `a` may be shifted right by its lane of `b`.
pub open spec fn lanes_shr_req<B: Shr<Output = B>>(a: Seq<B>, b: Seq<B>) -> bool {
    forall|i: int| 0 <= i < a.len() ==> (#[trigger] a[i]).shr_req(b[i])
}

impl<A: Align, B: Repr + Shr<Output = B>, const S: usize> Shr for Vector<A, B, S> {
    type Output = Self;

    /// Lane-wise `shr`.
    fn shr(self, rhs: Self) -> (r: Self)
        ensures
            B::obeys_shr_spec() ==> r@ == lanes_shr(self@, rhs@),
    {
        proof {
            use_type_invariant(&self);
            self.lanes_len();
            rhs.lanes_len();
        }
        let a = self.into_array();
        let b = rhs.into_array();
        let mut data = a;
        let mut i: usize = 0;
        while i < S
            invariant
                i <= S,
                a@ == self@,
                b@ == rhs@,
                lanes_shr_req(self@, rhs@),
                forall|j: int| 0 <= j < i && B::obeys_shr_spec() ==> data@[j] == self@[j].shr_spec(rhs@[j]),
            decreases S - i,
        {
            data[i] = a[i].shr(b[i]);
            i += 1;
        }
        let r = Vector::from(data);
        proof {
            if B::obeys_shr_spec() {
                assert(r@ =~= lanes_shr(self@, rhs@));
                r.of_own_lanes();
            }
        }
        r
    }
}

impl<A: Align, B: Repr + Shr<Output = B>, const S: usize> ShrSpecImpl for Vector<A, B, S> {
    open spec fn obeys_shr_spec() -> bool {
        B::obeys_shr_spec()
    }

    open spec fn shr_req(self, rhs: Self) -> bool {
        lanes_shr_req(self@, rhs@)
    }

    open spec fn shr_spec(self, rhs: Self) -> Self {
        Self::of_lanes(lanes_shr(self@, rhs@))
    }
}

impl<A: Align, B: Repr + Shr<Output = B>, const S: usize> Shr<B> for Vector<A, B, S> {
    type Output = Self;

    /// Lane-wise `shr` with the same right-hand side in every lane.
    fn shr(self, rhs: B) -> (r: Self)
        ensures
            B::obeys_shr_spec() ==> r@ == lanes_shr(self@, repeated(rhs, S as nat)),
    {
        proof {
            use_type_invariant(&self);
            self.lanes_len();
        }
        let a = self.into_array();
        let mut data = a;
        let mut i: usize = 0;
        while i < S
            invariant
                i <= S,
                a@ == self@,
                lanes_shr_req(self@, repeated(rhs, S as nat)),
                forall|j: int| 0 <= j < i && B::obeys_shr_spec() ==> data@[j] == self@[j].shr_spec(rhs),
            decreases S - i,
        {
            assert(repeated(rhs, S as nat)[i as int] == rhs);
            data[i] = a[i].shr(rhs);
            i += 1;
        }
        let r = Vector::from(data);
        proof {
            if B::obeys_shr_spec() {
                assert(r@ =~= lanes_shr(self@, repeated(rhs, S as nat)));
                r.of_own_lanes();
            }
        }
        r
    }
}

impl<A: Align, B: Repr + Shr<Output = B>, const S: usize> ShrSpecImpl<B> for Vector<A, B, S> {
    open spec fn obeys_shr_spec() -> bool {
        B::obeys_shr_spec()
    }

    open spec fn shr_req(self, rhs: B) -> bool {
        lanes_shr_req(self@, repeated(rhs, S as nat))
    }

    open spec fn shr_spec(self, rhs: B) -> Self {
        Self::of_lanes(lanes_shr(self@, repeated(rhs, S as nat)))
    }
}

impl<A: Align, B: Repr + Add<Output = B>, const S: usize> AddAssign for Vector<A, B, S> {
    /// Lane-wise `add` in place.
    fn add_assign(&mut self, rhs: Self)
        requires
            lanes_add_req(old(self)@, rhs@),
        ensures
            B::obeys_add_spec() ==> final(self)@ == lanes_add(old(self)@, rhs@),
    {
        *self = (*self).add(rhs);
    }
}

impl<A: Align, B: Repr + Add<Output = B>, const S: usize> AddAssign<B> for Vector<A, B, S> {
    /// Lane-wise `add` in place, with the same right-hand side in every lane.
    fn add_assign(&mut self, rhs: B)
        requires
            lanes_add_req(old(self)@, repeated(rhs, S as nat)),
        ensures
            B::obeys_add_spec() ==> final(self)@ == lanes_add(old(self)@, repeated(rhs, S as nat)),
    {
        *self = (*self).add(rhs);
    }
}

impl<A: Align, B: Repr + Sub<Output = B>, const S: usize> SubAssign for Vector<A, B, S> {
    /// Lane-wise `sub` in place.
    fn sub_assign(&mut self, rhs: Self)
        requires
            lanes_sub_req(old(self)@, rhs@),
        ensures
            B::obeys_sub_spec() ==> final(self)@ == lanes_sub(old(self)@, rhs@),
    {
        *self = (*self).sub(rhs);
    }
}

impl<A: Align, B: Repr + Sub<Output = B>, const S: usize> SubAssign<B> for Vector<A, B, S> {
    /// Lane-wise `sub` in place, with the same right-hand side in every lane.
    fn sub_assign(&mut self, rhs: B)
        requires
            lanes_sub_req(old(self)@, repeated(rhs, S as nat)),
        ensures
            B::obeys_sub_spec() ==> final(self)@ == lanes_sub(old(self)@, repeated(rhs, S as nat)),
    {
        *self = (*self).sub(rhs);
    }
}

impl<A: Align, B: Repr + Mul<Output = B>, const S: usize> MulAssign for Vector<A, B, S> {
    /// Lane-wise `mul` in place.
    fn mul_assign(&mut self, rhs: Self)
        requires
            lanes_mul_req(old(self)@, rhs@),
        ensures
            B::obeys_mul_spec() ==> final(self)@ == lanes_mul(old(self)@, rhs@),
    {
        *self = (*self).mul(rhs);
    }
}

impl<A: Align, B: Repr + Mul<Output = B>, const S: usize> MulAssign<B> for Vector<A, B, S> {
    /// Lane-wise `mul` in place, with the same right-hand side in every lane.
    fn mul_assign(&mut self, rhs: B)
        requires
            lanes_mul_req(old(self)@, repeated(rhs, S as nat)),
        ensures
            B::obeys_mul_spec() ==> final(self)@ == lanes_mul(old(self)@, repeated(rhs, S as nat)),
    {
        *self = (*self).mul(rhs);
    }
}

impl<A: Align, B: Repr + Div<Output = B>, const S: usize> DivAssign for Vector<A, B, S> {
    /// Lane-wise `div` in place.
    fn div_assign(&mut self, rhs: Self)
        requires
            lanes_div_req(old(self)@, rhs@),
        ensures
            B::obeys_div_spec() ==> final(self)@ == lanes_div(old(self)@, rhs@),
    {
        *self = (*self).div(rhs);
    }
}

impl<A: Align, B: Repr + Div<Output = B>, const S: usize> DivAssign<B> for Vector<A, B, S> {
    /// Lane-wise `div` in place, with the same right-hand side in every lane.
    fn div_assign(&mut self, rhs: B)
        requires
            lanes_div_req(old(self)@, repeated(rhs, S as nat)),
        ensures
            B::obeys_div_spec() ==> final(self)@ == lanes_div(old(self)@, repeated(rhs, S as nat)),
    {
        *self = (*self).div(rhs);
    }
}

impl<A: Align, B: Repr + Rem<Output = B>, const S: usize> RemAssign for Vector<A, B, S> {
    /// Lane-wise `rem` in place.
    fn rem_assign(&mut self, rhs: Self)
        requires
            lanes_rem_req(old(self)@, rhs@),
        ensures
            B::obeys_rem_spec() ==> final(self)@ == lanes_rem(old(self)@, rhs@),
    {
        *self = (*self).rem(rhs);
    }
}

impl<A: Align, B: Repr + Rem<Output = B>, const S: usize> RemAssign<B> for Vector<A, B, S> {
    /// Lane-wise `rem` in place, with the same right-hand side in every lane.
    fn rem_assign(&mut self, rhs: B)
        requires
            lanes_rem_req(old(self)@, repeated(rhs, S as nat)),
        ensures
            B::obeys_rem_spec() ==> final(self)@ == lanes_rem(old(self)@, repeated(rhs, S as nat)),
    {
        *self = (*self).rem(rhs);
    }
}

impl<A: Align, B: Repr + BitAnd<Output = B>, const S: usize> BitAndAssign for Vector<A, B, S> {
    /// Lane-wise `bitand` in place.
    fn bitand_assign(&mut self, rhs: Self)
        requires
            lanes_bitand_req(old(self)@, rhs@),
        ensures
            B::obeys_bitand_spec() ==> final(self)@ == lanes_bitand(old(self)@, rhs@),
    {
        *self = (*self).bitand(rhs);
    }
}

impl<A: Align, B: Repr + BitAnd<Output = B>, const S: usize> BitAndAssign<B> for Vector<A, B, S> {
    /// Lane-wise `bitand` in place, with the same right-hand side in every lane.
    fn bitand_assign(&mut self, rhs: B)
        requires
            lanes_bitand_req(old(self)@, repeated(rhs, S as nat)),
        ensures
            B::obeys_bitand_spec() ==> final(self)@ == lanes_bitand(old(self)@, repeated(rhs, S as nat)),
    {
        *self = (*self).bitand(rhs);
    }
}

impl<A: Align, B: Repr + BitOr<Output = B>, const S: usize> BitOrAssign for Vector<A, B, S> {
    /// Lane-wise `bitor` in place.
    fn bitor_assign(&mut self, rhs: Self)
        requires
            lanes_bitor_req(old(self)@, rhs@),
        ensures
            B::obeys_bitor_spec() ==> final(self)@ == lanes_bitor(old(self)@, rhs@),
    {
        *self = (*self).bitor(rhs);
    }
}

impl<A: Align, B: Repr + BitOr<Output = B>, const S: usize> BitOrAssign<B> for Vector<A, B, S> {
    /// Lane-wise `bitor` in place, with the same right-hand side in every lane.
    fn bitor_assign(&mut self, rhs: B)
        requires
            lanes_bitor_req(old(self)@, repeated(rhs, S as nat)),
        ensures
            B::obeys_bitor_spec() ==> final(self)@ == lanes_bitor(old(self)@, repeated(rhs, S as nat)),
    {
        *self = (*self).bitor(rhs);
    }
}

impl<A: Align, B: Repr + BitXor<Output = B>, const S: usize> BitXorAssign for Vector<A, B, S> {
    /// Lane-wise `bitxor` in place.
    fn bitxor_assign(&mut self, rhs: Self)
        requires
            lanes_bitxor_req(old(self)@, rhs@),
        ensures
            B::obeys_bitxor_spec() ==> final(self)@ == lanes_bitxor(old(self)@, rhs@),
    {
        *self = (*self).bitxor(rhs);
    }
}

impl<A: Align, B: Repr + BitXor<Output = B>, const S: usize> BitXorAssign<B> for Vector<A, B, S> {
    /// Lane-wise `bitxor` in place, with the same right-hand side in every lane.
    fn bitxor_assign(&mut self, rhs: B)
        requires
            lanes_bitxor_req(old(self)@, repeated(rhs, S as nat)),
        ensures
            B::obeys_bitxor_spec() ==> final(self)@ == lanes_bitxor(old(self)@, repeated(rhs, S as nat)),
    {
        *self = (*self).bitxor(rhs);
    }
}

impl<A: Align, B: Repr + Shl<Output = B>, const S: usize> ShlAssign for Vector<A, B, S> {
    /// Lane-wise `shl` in place.
    fn shl_assign(&mut self, rhs: Self)
        requires
            lanes_shl_req(old(self)@, rhs@),
        ensures
            B::obeys_shl_spec() ==> final(self)@ == lanes_shl(old(self)@, rhs@),
    {
        *self = (*self).shl(rhs);
    }
}

impl<A: Align, B: Repr + Shl<Output = B>, const S: usize> ShlAssign<B> for Vector<A, B, S> {
    /// Lane-wise `shl` in place, with the same right-hand side in every lane.
    fn shl_assign(&mut self, rhs: B)
        requires
            lanes_shl_req(old(self)@, repeated(rhs, S as nat)),
        ensures
            B::obeys_shl_spec() ==> final(self)@ == lanes_shl(old(self)@, repeated(rhs, S as nat)),
    {
        *self = (*self).shl(rhs);
    }
}

impl<A: Align, B: Repr + Shr<Output = B>, const S: usize> ShrAssign for Vector<A, B, S> {
    /// Lane-wise `shr` in place.
    fn shr_assign(&mut self, rhs: Self)
        requires
            lanes_shr_req(old(self)@, rhs@),
        ensures
            B::obeys_shr_spec() ==> final(self)@ == lanes_shr(old(self)@, rhs@),
    {
        *self = (*self).shr(rhs);
    }
}

impl<A: Align, B: Repr + Shr<Output = B>, const S: usize> ShrAssign<B> for Vector<A, B, S> {
    /// Lane-wise `shr` in place, with the same right-hand side in every lane.
    fn shr_assign(&mut self, rhs: B)
        requires
            lanes_shr_req(old(self)@, repeated(rhs, S as nat)),
        ensures
            B::obeys_shr_spec() ==> final(self)@ == lanes_shr(old(self)@, repeated(rhs, S as nat)),
    {
        *self = (*self).shr(rhs);
    }
}

/// Lane `i` is the negation of lane `i`, as the base type forms it.
pub open spec fn lanes_neg<B: Neg<Output = B>>(a: Seq<B>) -> Seq<B> {
    Seq::new(a.len(), |i: int| a[i].neg_spec())
}

/// The base type can form the negation of every lane.
pub open spec fn lanes_neg_req<B: Neg<Output = B>>(a: Seq<B>) -> bool {
    forall|i: int| 0 <= i < a.len() ==> (#[trigger] a[i]).neg_req()
}

impl<A: Align, B: Repr + Neg<Output = B>, const S: usize> Neg for Vector<A, B, S> {
    type Output = Self;

    /// Lane-wise `neg`.
    fn neg(self) -> (r: Self)
        ensures
            B::obeys_neg_spec() ==> r@ == lanes_neg(self@),
    {
        proof {
            use_type_invariant(&self);
            self.lanes_len();
        }
        let a = self.into_array();
        let mut data = a;
        let mut i: usize = 0;
        while i < S
            invariant
                i <= S,
                a@ == self@,
                lanes_neg_req(self@),
                forall|j: int| 0 <= j < i && B::obeys_neg_spec() ==> data@[j] == self@[j].neg_spec(),
            decreases S - i,
        {
            data[i] = a[i].neg();
            i += 1;
        }
        let r = Vector::from(data);
        proof {
            if B::obeys_neg_spec() {
                assert(r@ =~= lanes_neg(self@));
                r.of_own_lanes();
            }
        }
        r
    }
}

impl<A: Align, B: Repr + Neg<Output = B>, const S: usize> NegSpecImpl for Vector<A, B, S> {
    open spec fn obeys_neg_spec() -> bool {
        B::obeys_neg_spec()
    }

    open spec fn neg_req(self) -> bool {
        lanes_neg_req(self@)
    }

    open spec fn neg_spec(self) -> Self {
        Self::of_lanes(lanes_neg(self@))
    }
}

/// Lane `i` is the complement of lane `i`, as the base type forms it.
pub open spec fn lanes_not<B: Not<Output = B>>(a: Seq<B>) -> Seq<B> {
    Seq::new(a.len(), |i: int| a[i].not_spec())
}

/// The base type can form the complement of every lane.
pub open spec fn lanes_not_req<B: Not<Output = B>>(a: Seq<B>) -> bool {
    forall|i: int| 0 <= i < a.len() ==> (#[trigger] a[i]).not_req()
}

impl<A: Align, B: Repr + Not<Output = B>, const S: usize> Not for Vector<A, B, S> {
    type Output = Self;

    /// Lane-wise `not`.
    fn not(self) -> (r: Self)
        ensures
            B::obeys_not_spec() ==> r@ == lanes_not(self@),
    {
        proof {
            use_type_invariant(&self);
            self.lanes_len();
        }
        let a = self.into_array();
        let mut data = a;
        let mut i: usize = 0;
        while i < S
            invariant
                i <= S,
                a@ == self@,
                lanes_not_req(self@),
                forall|j: int| 0 <= j < i && B::obeys_not_spec() ==> data@[j] == self@[j].not_spec(),
            decreases S - i,
        {
            data[i] = a[i].not();
            i += 1;
        }
        let r = Vector::from(data);
        proof {
            if B::obeys_not_spec() {
                assert(r@ =~= lanes_not(self@));
                r.of_own_lanes();
            }
        }
        r
    }
}

impl<A: Align, B: Repr + Not<Output = B>, const S: usize> NotSpecImpl for Vector<A, B, S> {
    open spec fn obeys_not_spec() -> bool {
        B::obeys_not_spec()
    }

    open spec fn not_req(self) -> bool {
        lanes_not_req(self@)
    }

    open spec fn not_spec(self) -> Self {
        Self::of_lanes(lanes_not(self@))
    }
}

} // verus!
