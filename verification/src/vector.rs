//! The vector type: a fixed number of lanes of one base type, and what can
//! be done with all of them at once.

use vstd::prelude::*;
use vstd::std_specs::cmp::{PartialEqSpec, PartialEqSpecImpl, PartialOrdIs, PartialOrdSpec};
use vstd::std_specs::ops::{AddSpec, MulSpec};
use vstd::std_specs::convert::FromSpecImpl;
use core::ops::{Add, Mul};
use crate::mask::Mask;
use crate::repr::Repr;

verus! {

/// Marker trait for alignment tags.
pub trait Align: Copy {

}

/// Looks up the mask type that belongs to a vector type.
pub trait Masked {
    /// The vector type that lane-wise comparisons produce.
    type Mask;
}

/// The booleans that a sequence of mask values stands for.
pub open spec fn truths<MB: Mask>(mask: Seq<MB>) -> Seq<bool> {
    Seq::new(mask.len(), |i: int| mask[i].truth())
}

/// Every index is a position of a sequence of length `len`.
pub open spec fn in_bounds(idx: Seq<usize>, len: nat) -> bool {
    forall|i: int| 0 <= i < idx.len() ==> idx[i] < len
}

/// Every index of an enabled lane is a position of a sequence of length `len`.
pub open spec fn in_bounds_masked(idx: Seq<usize>, mask: Seq<bool>, len: nat) -> bool {
    forall|i: int| 0 <= i < idx.len() && mask[i] ==> idx[i] < len
}

/// The same value in each of `n` lanes.
pub open spec fn repeated<B>(value: B, n: nat) -> Seq<B> {
    Seq::new(n, |i: int| value)
}

/// The lanes read from `input` at the positions `idx`.
pub open spec fn gathered<B>(input: Seq<B>, idx: Seq<usize>) -> Seq<B> {
    Seq::new(idx.len(), |i: int| input[idx[i] as int])
}

/// The lanes of `cur`, with each enabled lane replaced by what `input` holds at
/// that lane's index.
pub open spec fn gathered_masked<B>(cur: Seq<B>, input: Seq<B>, idx: Seq<usize>, mask: Seq<bool>) -> Seq<B> {
    Seq::new(
        cur.len(),
        |i: int|
            if mask[i] {
                input[idx[i] as int]
            } else {
                cur[i]
            },
    )
}

/// Lane `i` is taken from `b` where the mask is set and from `a` elsewhere.
pub open spec fn blended<B>(a: Seq<B>, b: Seq<B>, mask: Seq<bool>) -> Seq<B> {
    Seq::new(
        a.len(),
        |i: int|
            if mask[i] {
                b[i]
            } else {
                a[i]
            },
    )
}

/// The sequence `out` after the first `n` lanes were written to their indices,
/// lane 0 first. Where several lanes share an index, the last of them stays.
pub open spec fn scattered<B>(out: Seq<B>, idx: Seq<usize>, lanes: Seq<B>, n: nat) -> Seq<B>
    decreases n,
{
    if n == 0 {
        out
    } else {
        scattered(out, idx, lanes, (n - 1) as nat).update(idx[n - 1] as int, lanes[n - 1])
    }
}

/// As `scattered`, writing the enabled lanes only.
pub open spec fn scattered_masked<B>(
    out: Seq<B>,
    idx: Seq<usize>,
    lanes: Seq<B>,
    mask: Seq<bool>,
    n: nat,
) -> Seq<B>
    decreases n,
{
    if n == 0 {
        out
    } else if mask[n - 1] {
        scattered_masked(out, idx, lanes, mask, (n - 1) as nat).update(idx[n - 1] as int, lanes[n - 1])
    } else {
        scattered_masked(out, idx, lanes, mask, (n - 1) as nat)
    }
}

/// A fixed number of lanes of one base type, lane 0 first.
#[verifier::ext_equal]
#[derive(Debug)]
pub struct Vector<A: Align, B: Repr, const S: usize> {
    _align: [A; 0],
    data: [B; S],
}

impl<A: Align, B: Repr, const S: usize> Clone for Vector<A, B, S> {
    fn clone(&self) -> (r: Self)
        ensures
            r == *self,
    {
        *self
    }
}

impl<A: Align, B: Repr, const S: usize> Copy for Vector<A, B, S> {

}

impl<A: Align, B: Repr, const S: usize> View for Vector<A, B, S> {
    type V = Seq<B>;

    closed spec fn view(&self) -> Seq<B> {
        self.data@
    }
}

impl<A: Align, B: Repr, const S: usize> Masked for Vector<A, B, S> where B::Mask: Repr {
    type Mask = Vector<A, B::Mask, S>;
}

impl<A: Align, B: Repr, const S: usize> Vector<A, B, S> {
    /// A vector has at least one lane.
    #[verifier::type_invariant]
    pub open spec fn inv(self) -> bool {
        S > 0
    }

    /// A vector has as many lanes as its type says.
    pub broadcast proof fn lanes_len(self)
        ensures
            #[trigger] self@.len() == S,
    {
    }

    /// Two vectors with the same lanes are the same vector.
    pub proof fn same_lanes(self, other: Self)
        requires
            self@ == other@,
        ensures
            self == other,
    {
        assert(self.data =~= other.data);
        assert(self._align =~= other._align);
        assert(self =~= other);
    }

    /// The vector with the given lanes.
    pub closed spec fn of_lanes(lanes: Seq<B>) -> Self {
        choose|v: Self| v@ == lanes
    }

    /// A vector is the vector with its own lanes.
    pub proof fn of_own_lanes(self)
        ensures
            Self::of_lanes(self@) == self,
    {
        let v = Self::of_lanes(self@);
        assert(v@ == self@);
        v.same_lanes(self);
    }

    /// Whether a vector of this shape can exist: it has at least one lane.
    pub open spec fn valid_shape() -> bool {
        S > 0
    }

    /// Tells whether a vector of this shape can exist.
    pub fn assert_size() -> (ok: bool)
        ensures
            ok == Self::valid_shape(),
    {
        S > 0
    }

    /// Loads the vector from a slice of exactly as many elements as it has lanes.
    pub fn new(input: &[B]) -> (r: Self)
        requires
            Self::valid_shape(),
            input@.len() == S,
        ensures
            r@ == input@,
    {
        let mut data = [input[0];S];
        let mut i: usize = 1;
        while i < S
            invariant
                1 <= i <= S,
                input@.len() == S,
                forall|j: int| 0 <= j < i ==> data@[j] == input@[j],
            decreases S - i,
        {
            data[i] = input[i];
            i += 1;
        }
        let r = Vector { _align: [], data };
        assert(r@ =~= input@);
        r
    }

    /// Produces a vector with every lane set to the same value.
    pub fn splat(value: B) -> (r: Self)
        requires
            Self::valid_shape(),
        ensures
            r@ == repeated(value, S as nat),
    {
        let r = Vector { _align: [], data: [value;S] };
        assert(r@ =~= repeated(value, S as nat));
        r
    }

    /// Loads the vector from a slice by indexing it: lane `i` is `input[idx[i]]`.
    pub fn gather_load(input: &[B], idx: &[usize]) -> (r: Self)
        requires
            Self::valid_shape(),
            idx@.len() == S,
            in_bounds(idx@, input@.len()),
        ensures
            r@ == gathered(input@, idx@),
    {
        let mut data = [input[idx[0]];S];
        let mut i: usize = 1;
        while i < S
            invariant
                1 <= i <= S,
                idx@.len() == S,
                in_bounds(idx@, input@.len()),
                forall|j: int| 0 <= j < i ==> data@[j] == input@[idx@[j] as int],
            decreases S - i,
        {
            data[i] = input[idx[i]];
            i += 1;
        }
        let r = Vector { _align: [], data };
        assert(r@ =~= gathered(input@, idx@));
        r
    }

    /// Loads the enabled lanes from a slice by indexing it, and keeps the others.
    /// Only the indices of enabled lanes have to be in bounds.
    pub fn gather_load_masked<MB: Mask>(self, input: &[B], idx: &[usize], mask: &[MB]) -> (r: Self)
        requires
            idx@.len() == S,
            mask@.len() == S,
            in_bounds_masked(idx@, truths(mask@), input@.len()),
        ensures
            r@ == gathered_masked(self@, input@, idx@, truths(mask@)),
    {
        let mut data = self.data;
        let mut i: usize = 0;
        while i < S
            invariant
                i <= S,
                idx@.len() == S,
                mask@.len() == S,
                in_bounds_masked(idx@, truths(mask@), input@.len()),
                forall|j: int|
                    0 <= j < i ==> data@[j] == if mask@[j].truth() {
                        input@[idx@[j] as int]
                    } else {
                        self@[j]
                    },
                forall|j: int| i <= j < S ==> data@[j] == self@[j],
            decreases S - i,
        {
            if mask[i].bool() {
                assert(truths(mask@)[i as int]);
                data[i] = input[idx[i]];
            }
            i += 1;
        }
        proof {
            use_type_invariant(&self);
        }
        let r = Vector { _align: [], data };
        assert(r@ =~= gathered_masked(self@, input@, idx@, truths(mask@)));
        r
    }

    /// Stores the lanes into a slice of exactly as many elements.
    pub fn store(self, output: &mut [B])
        requires
            old(output)@.len() == S,
        ensures
            final(output)@ == self@,
    {
        let mut i: usize = 0;
        while i < S
            invariant
                i <= S,
                output@.len() == S,
                forall|j: int| 0 <= j < i ==> output@[j] == self@[j],
            decreases S - i,
        {
            output[i] = self.data[i];
            i += 1;
        }
        assert(output@ =~= self@);
    }

    /// Stores lane `i` into `output[idx[i]]`, lane 0 first, so that of several
    /// lanes with one index the last stays.
    pub fn scatter_store(self, output: &mut [B], idx: &[usize])
        requires
            idx@.len() == S,
            in_bounds(idx@, old(output)@.len()),
        ensures
            final(output)@ == scattered(old(output)@, idx@, self@, S as nat),
    {
        let mut i: usize = 0;
        while i < S
            invariant
                i <= S,
                idx@.len() == S,
                output@.len() == old(output)@.len(),
                in_bounds(idx@, old(output)@.len()),
                output@ == scattered(old(output)@, idx@, self@, i as nat),
            decreases S - i,
        {
            output[idx[i]] = self.data[i];
            i += 1;
        }
    }

    /// As `scatter_store`, for the enabled lanes only. Only their indices have to
    /// be in bounds.
    pub fn scatter_store_masked<MB: Mask>(self, output: &mut [B], idx: &[usize], mask: &[MB])
        requires
            idx@.len() == S,
            mask@.len() == S,
            in_bounds_masked(idx@, truths(mask@), old(output)@.len()),
        ensures
            final(output)@ == scattered_masked(old(output)@, idx@, self@, truths(mask@), S as nat),
    {
        let mut i: usize = 0;
        while i < S
            invariant
                i <= S,
                idx@.len() == S,
                mask@.len() == S,
                output@.len() == old(output)@.len(),
                in_bounds_masked(idx@, truths(mask@), old(output)@.len()),
                output@ == scattered_masked(old(output)@, idx@, self@, truths(mask@), i as nat),
            decreases S - i,
        {
            if mask[i].bool() {
                assert(truths(mask@)[i as int]);
                output[idx[i]] = self.data[i];
            } else {
                assert(!truths(mask@)[i as int]);
            }
            i += 1;
        }
    }

    /// Takes the enabled lanes from `other` and the disabled lanes from `self`.
    pub fn blend<MB: Mask>(self, other: Self, mask: &[MB]) -> (r: Self)
        requires
            mask@.len() == S,
        ensures
            r@ == blended(self@, other@, truths(mask@)),
    {
        let mut data = self.data;
        let mut i: usize = 0;
        while i < S
            invariant
                i <= S,
                mask@.len() == S,
                forall|j: int|
                    0 <= j < i ==> data@[j] == if mask@[j].truth() {
                        other@[j]
                    } else {
                        self@[j]
                    },
                forall|j: int| i <= j < S ==> data@[j] == self@[j],
            decreases S - i,
        {
            if mask[i].bool() {
                data[i] = other.data[i];
            }
            i += 1;
        }
        proof {
            use_type_invariant(&self);
        }
        let r = Vector { _align: [], data };
        assert(r@ =~= blended(self@, other@, truths(mask@)));
        r
    }
}

/// The mask lanes of a lane-wise equality test.
pub open spec fn lanes_eq<B: Repr + PartialEq>(a: Seq<B>, b: Seq<B>) -> Seq<B::Mask> {
    Seq::new(a.len(), |i: int| B::Mask::spec_from_bool(a[i].eq_spec(&b[i])))
}

/// The mask lanes of a lane-wise `<`.
pub open spec fn lanes_lt<B: Repr + PartialOrd>(a: Seq<B>, b: Seq<B>) -> Seq<B::Mask> {
    Seq::new(a.len(), |i: int| B::Mask::spec_from_bool(a[i].is_lt(&b[i])))
}

/// The mask lanes of a lane-wise `<=`.
pub open spec fn lanes_le<B: Repr + PartialOrd>(a: Seq<B>, b: Seq<B>) -> Seq<B::Mask> {
    Seq::new(a.len(), |i: int| B::Mask::spec_from_bool(a[i].is_le(&b[i])))
}

/// The mask lanes of a lane-wise `>`.
pub open spec fn lanes_gt<B: Repr + PartialOrd>(a: Seq<B>, b: Seq<B>) -> Seq<B::Mask> {
    Seq::new(a.len(), |i: int| B::Mask::spec_from_bool(a[i].is_gt(&b[i])))
}

/// The mask lanes of a lane-wise `>=`.
pub open spec fn lanes_ge<B: Repr + PartialOrd>(a: Seq<B>, b: Seq<B>) -> Seq<B::Mask> {
    Seq::new(a.len(), |i: int| B::Mask::spec_from_bool(a[i].is_ge(&b[i])))
}

/// The lanes in which `a` is less than `b`.
pub open spec fn where_lt<B: PartialOrd>(a: Seq<B>, b: Seq<B>) -> Seq<bool> {
    Seq::new(a.len(), |i: int| a[i].is_lt(&b[i]))
}

/// The lanes in which `a` is greater than `b`.
pub open spec fn where_gt<B: PartialOrd>(a: Seq<B>, b: Seq<B>) -> Seq<bool> {
    Seq::new(a.len(), |i: int| a[i].is_gt(&b[i]))
}

/// The mask of a lane-wise `<` stands for the lanes in which `a` is less.
pub proof fn truths_of_lt<B: Repr + PartialOrd>(a: Seq<B>, b: Seq<B>)
    ensures
        truths(lanes_lt(a, b)) == where_lt(a, b),
{
    assert forall|i: int| 0 <= i < a.len() implies #[trigger] truths(lanes_lt(a, b))[i] == where_lt(a, b)[i] by {
        B::Mask::truth_of_from_bool(a[i].is_lt(&b[i]));
    }
    assert(truths(lanes_lt(a, b)) =~= where_lt(a, b));
}

/// The mask of a lane-wise `>` stands for the lanes in which `a` is greater.
pub proof fn truths_of_gt<B: Repr + PartialOrd>(a: Seq<B>, b: Seq<B>)
    ensures
        truths(lanes_gt(a, b)) == where_gt(a, b),
{
    assert forall|i: int| 0 <= i < a.len() implies #[trigger] truths(lanes_gt(a, b))[i] == where_gt(a, b)[i] by {
        B::Mask::truth_of_from_bool(a[i].is_gt(&b[i]));
    }
    assert(truths(lanes_gt(a, b)) =~= where_gt(a, b));
}

impl<A: Align, B: Repr, const S: usize> Vector<A, B, S> where B::Mask: Repr {
    /// Lane-wise `==`.
    pub fn eq(self, other: Self) -> (r: Vector<A, B::Mask, S>) where B: PartialEq
        ensures
            B::obeys_eq_spec() ==> r@ == lanes_eq(self@, other@),
    {
        proof {
            use_type_invariant(&self);
        }
        let mut data = [B::Mask::from_bool(false);S];
        let mut i: usize = 0;
        while i < S
            invariant
                i <= S,
                forall|j: int|
                    0 <= j < i && B::obeys_eq_spec() ==> data@[j] == B::Mask::spec_from_bool(
                        self@[j].eq_spec(&other@[j]),
                    ),
            decreases S - i,
        {
            data[i] = B::Mask::from_bool(self.data[i] == other.data[i]);
            i += 1;
        }
        let r = Vector { _align: [], data };
        assert(B::obeys_eq_spec() ==> r@ =~= lanes_eq(self@, other@));
        r
    }

    /// Lane-wise `<`.
    pub fn lt(self, other: Self) -> (r: Vector<A, B::Mask, S>) where B: PartialOrd
        ensures
            B::obeys_partial_cmp_spec() ==> r@ == lanes_lt(self@, other@),
    {
        proof {
            use_type_invariant(&self);
        }
        let mut data = [B::Mask::from_bool(false);S];
        let mut i: usize = 0;
        while i < S
            invariant
                i <= S,
                forall|j: int|
                    0 <= j < i && B::obeys_partial_cmp_spec() ==> data@[j] == B::Mask::spec_from_bool(
                        self@[j].is_lt(&other@[j]),
                    ),
            decreases S - i,
        {
            data[i] = B::Mask::from_bool(self.data[i] < other.data[i]);
            i += 1;
        }
        let r = Vector { _align: [], data };
        assert(B::obeys_partial_cmp_spec() ==> r@ =~= lanes_lt(self@, other@));
        r
    }

    /// Lane-wise `>`.
    pub fn gt(self, other: Self) -> (r: Vector<A, B::Mask, S>) where B: PartialOrd
        ensures
            B::obeys_partial_cmp_spec() ==> r@ == lanes_gt(self@, other@),
    {
        proof {
            use_type_invariant(&self);
        }
        let mut data = [B::Mask::from_bool(false);S];
        let mut i: usize = 0;
        while i < S
            invariant
                i <= S,
                forall|j: int|
                    0 <= j < i && B::obeys_partial_cmp_spec() ==> data@[j] == B::Mask::spec_from_bool(
                        self@[j].is_gt(&other@[j]),
                    ),
            decreases S - i,
        {
            data[i] = B::Mask::from_bool(self.data[i] > other.data[i]);
            i += 1;
        }
        let r = Vector { _align: [], data };
        assert(B::obeys_partial_cmp_spec() ==> r@ =~= lanes_gt(self@, other@));
        r
    }

    /// Lane-wise `<=`.
    pub fn le(self, other: Self) -> (r: Vector<A, B::Mask, S>) where B: PartialOrd
        ensures
            B::obeys_partial_cmp_spec() ==> r@ == lanes_le(self@, other@),
    {
        proof {
            use_type_invariant(&self);
        }
        let mut data = [B::Mask::from_bool(false);S];
        let mut i: usize = 0;
        while i < S
            invariant
                i <= S,
                forall|j: int|
                    0 <= j < i && B::obeys_partial_cmp_spec() ==> data@[j] == B::Mask::spec_from_bool(
                        self@[j].is_le(&other@[j]),
                    ),
            decreases S - i,
        {
            data[i] = B::Mask::from_bool(self.data[i] <= other.data[i]);
            i += 1;
        }
        let r = Vector { _align: [], data };
        assert(B::obeys_partial_cmp_spec() ==> r@ =~= lanes_le(self@, other@));
        r
    }

    /// Lane-wise `>=`.
    pub fn ge(self, other: Self) -> (r: Vector<A, B::Mask, S>) where B: PartialOrd
        ensures
            B::obeys_partial_cmp_spec() ==> r@ == lanes_ge(self@, other@),
    {
        proof {
            use_type_invariant(&self);
        }
        let mut data = [B::Mask::from_bool(false);S];
        let mut i: usize = 0;
        while i < S
            invariant
                i <= S,
                forall|j: int|
                    0 <= j < i && B::obeys_partial_cmp_spec() ==> data@[j] == B::Mask::spec_from_bool(
                        self@[j].is_ge(&other@[j]),
                    ),
            decreases S - i,
        {
            data[i] = B::Mask::from_bool(self.data[i] >= other.data[i]);
            i += 1;
        }
        let r = Vector { _align: [], data };
        assert(B::obeys_partial_cmp_spec() ==> r@ =~= lanes_ge(self@, other@));
        r
    }

    /// A lane-wise maximum: the lane of `other` where `self` is less, else that of `self`.
    pub fn maximum(self, other: Self) -> (r: Self) where B: PartialOrd
        ensures
            B::obeys_partial_cmp_spec() ==> r@ == blended(self@, other@, where_lt(self@, other@)),
    {
        let m = self.lt(other);
        proof {
            if B::obeys_partial_cmp_spec() {
                truths_of_lt(self@, other@);
            }
        }
        self.blend(other, m.as_slice())
    }

    /// A lane-wise minimum: the lane of `other` where `self` is greater, else that of `self`.
    pub fn minimum(self, other: Self) -> (r: Self) where B: PartialOrd
        ensures
            B::obeys_partial_cmp_spec() ==> r@ == blended(self@, other@, where_gt(self@, other@)),
    {
        let m = self.gt(other);
        proof {
            if B::obeys_partial_cmp_spec() {
                truths_of_gt(self@, other@);
            }
        }
        self.blend(other, m.as_slice())
    }
}

impl<A: Align, B: Repr, const S: usize> Vector<A, B, S> {
    /// The lanes as a slice.
    pub fn as_slice(&self) -> (r: &[B])
        ensures
            r@ == self@,
    {
        self.data.as_slice()
    }
}

/// The sum of the lanes, combined as a balanced tree: the sum of the first half
/// plus the sum of the rest, each formed in the same way.
pub open spec fn tree_sum<B: Add<Output = B>>(s: Seq<B>) -> B
    decreases s.len(),
{
    if s.len() <= 1 {
        s[0]
    } else {
        let mid = s.len() / 2;
        tree_sum(s.subrange(0, mid as int)).add_spec(tree_sum(s.subrange(mid as int, s.len() as int)))
    }
}

/// Every addition that `tree_sum` makes is one that the base type allows.
pub open spec fn tree_sum_defined<B: Add<Output = B>>(s: Seq<B>) -> bool
    decreases s.len(),
{
    if s.len() <= 1 {
        true
    } else {
        let mid = s.len() / 2;
        let left = s.subrange(0, mid as int);
        let right = s.subrange(mid as int, s.len() as int);
        &&& tree_sum_defined(left)
        &&& tree_sum_defined(right)
        &&& tree_sum(left).add_req(tree_sum(right))
    }
}

/// The product of the lanes, combined as a balanced tree.
pub open spec fn tree_product<B: Mul<Output = B>>(s: Seq<B>) -> B
    decreases s.len(),
{
    if s.len() <= 1 {
        s[0]
    } else {
        let mid = s.len() / 2;
        tree_product(s.subrange(0, mid as int)).mul_spec(
            tree_product(s.subrange(mid as int, s.len() as int)),
        )
    }
}

/// Every multiplication that `tree_product` makes is one that the base type allows.
pub open spec fn tree_product_defined<B: Mul<Output = B>>(s: Seq<B>) -> bool
    decreases s.len(),
{
    if s.len() <= 1 {
        true
    } else {
        let mid = s.len() / 2;
        let left = s.subrange(0, mid as int);
        let right = s.subrange(mid as int, s.len() as int);
        &&& tree_product_defined(left)
        &&& tree_product_defined(right)
        &&& tree_product(left).mul_req(tree_product(right))
    }
}

fn sum_tree<B: Copy + Add<Output = B>>(d: &[B]) -> (r: B)
    requires
        d@.len() >= 1,
        B::obeys_add_spec(),
        tree_sum_defined(d@),
    ensures
        r == tree_sum(d@),
    decreases d@.len(),
{
    if d.len() == 1 {
        d[0]
    } else {
        let mid = d.len() / 2;
        let left = sum_tree(&d[0..mid]);
        let right = sum_tree(&d[mid..d.len()]);
        left + right
    }
}

fn product_tree<B: Copy + Mul<Output = B>>(d: &[B]) -> (r: B)
    requires
        d@.len() >= 1,
        B::obeys_mul_spec(),
        tree_product_defined(d@),
    ensures
        r == tree_product(d@),
    decreases d@.len(),
{
    if d.len() == 1 {
        d[0]
    } else {
        let mid = d.len() / 2;
        let left = product_tree(&d[0..mid]);
        let right = product_tree(&d[mid..d.len()]);
        left * right
    }
}

impl<A: Align, B: Repr, const S: usize> Vector<A, B, S> {
    /// Sums the lanes, in the order of a balanced tree.
    pub fn horizontal_sum(self) -> (r: B) where B: Add<Output = B>
        requires
            B::obeys_add_spec(),
            tree_sum_defined(self@),
        ensures
            r == tree_sum(self@),
    {
        proof {
            use_type_invariant(&self);
        }
        sum_tree(self.data.as_slice())
    }

    /// Multiplies the lanes, in the order of a balanced tree.
    pub fn horizontal_product(self) -> (r: B) where B: Mul<Output = B>
        requires
            B::obeys_mul_spec(),
            tree_product_defined(self@),
        ensures
            r == tree_product(self@),
    {
        proof {
            use_type_invariant(&self);
        }
        product_tree(self.data.as_slice())
    }

    /// The vector with every lane set to the default of the base type.
    pub fn default() -> (r: Self) where B: Default
        requires
            Self::valid_shape(),
        ensures
            exists|d: B| call_ensures(B::default, (), d) && r@ == repeated(d, S as nat),
    {
        Self::splat(B::default())
    }

    /// Makes a vector of an array, lane for lane.
    pub fn from(data: [B; S]) -> (r: Self)
        requires
            Self::valid_shape(),
        ensures
            r@ == data@,
    {
        Vector { _align: [], data }
    }

    /// The lanes as a mutable slice.
    pub fn as_mut_slice(&mut self) -> (r: &mut [B])
        ensures
            r@ == old(self)@,
            final(self)@ == final(r)@,
    {
        proof {
            use_type_invariant(&*self);
        }
        &mut self.data
    }
}

impl<A: Align, B: Repr, const S: usize> Vector<A, B, S> {
    /// Gives the lanes as an array.
    pub fn into_array(self) -> (r: [B; S])
        ensures
            r@ == self@,
            r == self.lanes(),
    {
        self.data
    }

    /// The lanes as an array.
    pub closed spec fn lanes(self) -> [B; S] {
        self.data
    }

    /// The array of the lanes holds the lanes.
    pub broadcast proof fn lanes_view(self)
        ensures
            #[trigger] self.lanes()@ == self@,
    {
    }
}

impl<A: Align, B: Repr, const S: usize> From<Vector<A, B, S>> for [B; S] {
    /// Gives the lanes of a vector as an array.
    fn from(vector: Vector<A, B, S>) -> (r: [B; S])
        ensures
            r@ == vector@,
    {
        vector.data
    }
}

impl<A: Align, B: Repr, const S: usize> FromSpecImpl<Vector<A, B, S>> for [B; S] {
    open spec fn obeys_from_spec() -> bool {
        true
    }

    open spec fn from_spec(vector: Vector<A, B, S>) -> [B; S] {
        vector.lanes()
    }
}

impl<A: Align, B: Repr, const S: usize> core::ops::Deref for Vector<A, B, S> {
    type Target = [B; S];

    fn deref(&self) -> (r: &[B; S])
        ensures
            r@ == self@,
    {
        &self.data
    }
}

/// Every lane of `a` equals its lane of `b`, as the base type compares.
pub open spec fn all_lanes_eq<B: PartialEq>(a: Seq<B>, b: Seq<B>) -> bool {
    forall|i: int| 0 <= i < a.len() ==> (#[trigger] a[i]).eq_spec(&b[i])
}

fn slices_eq<B: PartialEq>(a: &[B], b: &[B]) -> (r: bool)
    requires
        a@.len() == b@.len(),
    ensures
        B::obeys_eq_spec() ==> r == all_lanes_eq(a@, b@),
{
    let n = a.len();
    let mut i: usize = 0;
    while i < n
        invariant
            i <= n,
            n == a@.len(),
            n == b@.len(),
            forall|j: int| 0 <= j < i && B::obeys_eq_spec() ==> (#[trigger] a@[j]).eq_spec(&b@[j]),
        decreases n - i,
    {
        if a[i] != b[i] {
            return false;
        }
        i += 1;
    }
    true
}

impl<A: Align, B: Repr + PartialEq, const S: usize> PartialEq for Vector<A, B, S> {
    fn eq(&self, other: &Self) -> (r: bool) {
        slices_eq(self.data.as_slice(), other.data.as_slice())
    }
}

impl<A: Align, B: Repr + PartialEq, const S: usize> PartialEqSpecImpl for Vector<A, B, S> {
    open spec fn obeys_eq_spec() -> bool {
        B::obeys_eq_spec()
    }

    open spec fn eq_spec(&self, other: &Self) -> bool {
        all_lanes_eq(self@, other@)
    }
}

impl<A: Align, B: Repr + PartialEq, const S: usize> PartialEq<[B; S]> for Vector<A, B, S> {
    fn eq(&self, other: &[B; S]) -> (r: bool) {
        slices_eq(self.data.as_slice(), other.as_slice())
    }
}

impl<A: Align, B: Repr + PartialEq, const S: usize> PartialEqSpecImpl<[B; S]> for Vector<A, B, S> {
    open spec fn obeys_eq_spec() -> bool {
        B::obeys_eq_spec()
    }

    open spec fn eq_spec(&self, other: &[B; S]) -> bool {
        all_lanes_eq(self@, other@)
    }
}

impl<A: Align, B: Repr + PartialEq, const S: usize> PartialEq<Vector<A, B, S>> for [B; S] {
    fn eq(&self, other: &Vector<A, B, S>) -> (r: bool) {
        slices_eq(self.as_slice(), other.data.as_slice())
    }
}

impl<A: Align, B: Repr + PartialEq, const S: usize> PartialEqSpecImpl<Vector<A, B, S>> for [B; S] {
    open spec fn obeys_eq_spec() -> bool {
        B::obeys_eq_spec()
    }

    open spec fn eq_spec(&self, other: &Vector<A, B, S>) -> bool {
        all_lanes_eq(self@, other@)
    }
}

impl<A: Align, B: Repr + Eq, const S: usize> Eq for Vector<A, B, S> {

}

/// Tells whether every index is a position of a slice of length `len`.
pub fn indices_in_bounds(idx: &[usize], len: usize) -> (ok: bool)
    ensures
        ok == in_bounds(idx@, len as nat),
{
    let n = idx.len();
    let mut i: usize = 0;
    while i < n
        invariant
            i <= n,
            n == idx@.len(),
            forall|j: int| 0 <= j < i ==> idx@[j] < len,
        decreases n - i,
    {
        if idx[i] >= len {
            return false;
        }
        i += 1;
    }
    true
}

/// Tells whether the index of every enabled lane is a position of a slice of
/// length `len`.
pub fn enabled_in_bounds<MB: Mask>(idx: &[usize], mask: &[MB], len: usize) -> (ok: bool)
    requires
        idx@.len() == mask@.len(),
    ensures
        ok == in_bounds_masked(idx@, truths(mask@), len as nat),
{
    let n = idx.len();
    let mut i: usize = 0;
    while i < n
        invariant
            i <= n,
            n == idx@.len(),
            n == mask@.len(),
            forall|j: int| 0 <= j < i && truths(mask@)[j] ==> idx@[j] < len,
        decreases n - i,
    {
        if mask[i].bool() && idx[i] >= len {
            assert(truths(mask@)[i as int]);
            return false;
        }
        i += 1;
    }
    true
}

impl<A: Align, B: Repr, const S: usize> Vector<A, B, S> {
    /// Loads the vector as `gather_load` does where the indices are as many
    /// as the lanes and all in bounds, and else gives nothing.
    pub fn checked_gather_load(input: &[B], idx: &[usize]) -> (r: Option<Self>)
        ensures
            r is Some <==> Self::valid_shape() && idx@.len() == S && in_bounds(idx@, input@.len()),
            r is Some ==> r.unwrap()@ == gathered(input@, idx@),
    {
        if S > 0 && idx.len() == S && indices_in_bounds(idx, input.len()) {
            Some(Self::gather_load(input, idx))
        } else {
            None
        }
    }

    /// Stores the vector as `scatter_store` does where the indices are as many
    /// as the lanes and all in bounds, and else writes nothing.
    pub fn checked_scatter_store(self, output: &mut [B], idx: &[usize]) -> (done: bool)
        ensures
            done == (idx@.len() == S && in_bounds(idx@, old(output)@.len())),
            done ==> final(output)@ == scattered(old(output)@, idx@, self@, S as nat),
            !done ==> final(output)@ == old(output)@,
    {
        if idx.len() == S && indices_in_bounds(idx, output.len()) {
            self.scatter_store(output, idx);
            true
        } else {
            false
        }
    }

    /// Stores the enabled lanes as `scatter_store_masked` does where indices
    /// and mask are as many as the lanes and the indices of the enabled lanes
    /// are in bounds, and else writes nothing.
    pub fn checked_scatter_store_masked<MB: Mask>(self, output: &mut [B], idx: &[usize], mask: &[MB]) -> (done:
        bool)
        ensures
            done == (idx@.len() == S && mask@.len() == S && in_bounds_masked(
                idx@,
                truths(mask@),
                old(output)@.len(),
            )),
            done ==> final(output)@ == scattered_masked(old(output)@, idx@, self@, truths(mask@), S as nat),
            !done ==> final(output)@ == old(output)@,
    {
        if idx.len() == S && mask.len() == S && enabled_in_bounds(idx, mask, output.len()) {
            self.scatter_store_masked(output, idx, mask);
            true
        } else {
            false
        }
    }
}

impl<A: Align, B: Repr, const S: usize> AsRef<[B]> for Vector<A, B, S> {
    fn as_ref(&self) -> (r: &[B])
        ensures
            <[B] as View>::view(r) == self@,
    {
        self.as_slice()
    }
}

impl<A: Align, B: Repr, const S: usize> AsRef<[B; S]> for Vector<A, B, S> {
    fn as_ref(&self) -> (r: &[B; S])
        ensures
            <[B; S] as View>::view(r) == self@,
    {
        &self.data
    }
}

impl<A: Align, B: Repr, const S: usize> AsMut<[B]> for Vector<A, B, S> {
    fn as_mut(&mut self) -> (r: &mut [B])
        ensures
            <[B] as View>::view(r) == old(self)@,
            final(self)@ == <[B] as View>::view(final(r)),
    {
        self.as_mut_slice()
    }
}

impl<A: Align, B: Repr, const S: usize> core::ops::Index<usize> for Vector<A, B, S> {
    type Output = B;

    /// Lane `idx`.
    fn index(&self, idx: usize) -> (r: &B)
        ensures
            *r == self@[idx as int],
    {
        &self.data[idx]
    }
}

impl<A: Align, B: Repr, const S: usize> vstd::std_specs::core::IndexSpecImpl<usize> for Vector<A, B, S> {
    open spec fn index_req(&self, index: &usize) -> bool {
        *index < S
    }
}

} // verus!
