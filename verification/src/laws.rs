//! What holds of the vector operations and of the iteration over slices,
//! whatever the values.

use vstd::prelude::*;
use crate::iterators::{cursor_len, cursor_next, cursor_nth, padded_tail, window, Cursor, Yield};
use vstd::laws_cmp::{obeys_cmp, obeys_cmp_ord, obeys_cmp_partial_ord, obeys_partial_cmp_spec_properties};
use vstd::std_specs::cmp::{OrdSpec, PartialEqSpec, PartialOrdIs, PartialOrdSpec};
use vstd::std_specs::ops::NotSpec;
use crate::mask::{Bits, Mask, MaskWrapper};
use crate::repr::Repr;
use crate::vector::{
    blended, gathered, gathered_masked, in_bounds, lanes_ge, repeated, scattered, scattered_masked,
    where_gt, where_lt, Align, Vector,
};

verus! {

/// The indices `0, 1, ..` up to `n`, each lane its own position.
pub open spec fn identity_indices(n: nat) -> Seq<usize> {
    Seq::new(n, |i: int| i as usize)
}

/// No index occurs in two lanes.
pub open spec fn distinct(idx: Seq<usize>) -> bool {
    forall|i: int, j: int| 0 <= i < idx.len() && 0 <= j < idx.len() && i != j ==> idx[i] != idx[j]
}

/// A scatter changes no length, leaves every position that no lane names as
/// it was, and puts at every other position the lane that named it last.
pub proof fn scattered_positions<B>(out: Seq<B>, idx: Seq<usize>, lanes: Seq<B>, n: nat)
    requires
        n <= idx.len(),
        idx.len() == lanes.len(),
        in_bounds(idx, out.len()),
    ensures
        scattered(out, idx, lanes, n).len() == out.len(),
        forall|k: int|
            0 <= k < out.len() && (forall|j: int| 0 <= j < n ==> idx[j] != k) ==> scattered(
                out,
                idx,
                lanes,
                n,
            )[k] == out[k],
        forall|i: int|
            0 <= i < n && (forall|j: int| i < j < n ==> idx[j] != idx[i]) ==> scattered(
                out,
                idx,
                lanes,
                n,
            )[idx[i] as int] == lanes[i],
    decreases n,
{
    if n > 0 {
        scattered_positions(out, idx, lanes, (n - 1) as nat);
        let before = scattered(out, idx, lanes, (n - 1) as nat);
        let after = scattered(out, idx, lanes, n);
        assert(after == before.update(idx[n - 1] as int, lanes[n - 1]));
        assert forall|i: int|
            0 <= i < n && (forall|j: int| i < j < n ==> idx[j] != idx[i]) implies after[idx[i] as int]
            == lanes[i] by {
            if i < n - 1 {
                assert(idx[n - 1] != idx[i]);
                assert(forall|j: int| i < j < n - 1 ==> idx[j] != idx[i]);
            }
        }
    }
}

/// Gathering at the indices that a vector was scattered to gives the vector
/// back, where no two lanes went to one place.
pub proof fn gather_after_scatter<B>(out: Seq<B>, idx: Seq<usize>, lanes: Seq<B>)
    requires
        idx.len() == lanes.len(),
        in_bounds(idx, out.len()),
        distinct(idx),
    ensures
        gathered(scattered(out, idx, lanes, idx.len()), idx) == lanes,
{
    scattered_positions(out, idx, lanes, idx.len());
    assert(gathered(scattered(out, idx, lanes, idx.len()), idx) =~= lanes);
}

/// Scattering a vector to the places `0, 1, ..` of an output that is long
/// enough, and gathering from the front of the output at the same places,
/// gives the vector back.
pub proof fn gather_after_store<B>(out: Seq<B>, lanes: Seq<B>)
    requires
        lanes.len() <= out.len(),
        out.len() <= usize::MAX,
    ensures
        gathered(
            scattered(out, identity_indices(lanes.len()), lanes, lanes.len()).subrange(
                0,
                lanes.len() as int,
            ),
            identity_indices(lanes.len()),
        ) == lanes,
{
    let idx = identity_indices(lanes.len());
    gather_after_scatter(out, idx, lanes);
    scattered_positions(out, idx, lanes, lanes.len());
    let stored = scattered(out, idx, lanes, lanes.len());
    assert(gathered(stored.subrange(0, lanes.len() as int), idx) =~= gathered(stored, idx));
}

/// The array made of a vector that was made of an array is that array.
pub proof fn round_trip<A: Align, B: Repr, const S: usize>(a: [B; S], v: Vector<A, B, S>, back: [B; S])
    requires
        v@ == a@,
        back@ == v@,
    ensures
        back == a,
{
    assert(back =~= a);
}

/// The first `k` windows of a sequence, one after the other.
pub open spec fn joined<B>(s: Seq<B>, n: nat, k: nat) -> Seq<B>
    decreases k,
{
    if k == 0 {
        Seq::empty()
    } else {
        joined(s, n, (k - 1) as nat) + window(s, (k - 1) as nat, n)
    }
}

/// The first `k` windows of a sequence make up its first `k * n` elements.
pub proof fn joined_is_prefix<B>(s: Seq<B>, n: nat, k: nat)
    requires
        k * n <= s.len(),
    ensures
        joined(s, n, k) == s.subrange(0, (k * n) as int),
    decreases k,
{
    if k == 0 {
        assert(k * n == 0) by (nonlinear_arith)
            requires
                k == 0,
        ;
        assert(joined(s, n, k) =~= s.subrange(0, 0));
    } else {
        assert((k - 1) * n + n == k * n) by (nonlinear_arith);
        joined_is_prefix(s, n, (k - 1) as nat);
        assert(joined(s, n, k) =~= s.subrange(0, (k * n) as int));
    }
}

/// The windows that `vectorize` yields, one after the other, are the input.
pub proof fn vectorize_covers<B>(s: Seq<B>, n: nat)
    requires
        n > 0,
        s.len() % n == 0,
    ensures
        joined(s, n, s.len() / n) == s,
{
    crate::iterators::whole_windows(s.len() as int, n as int);
    joined_is_prefix(s, n, s.len() / n);
    assert(s.subrange(0, s.len() as int) =~= s);
}

/// The windows that `vectorize_pad` yields and the leading lanes of its tail
/// item, as many as the input has left, are the input; the other lanes of the
/// tail item are those of the padding.
pub proof fn vectorize_pad_covers<B>(s: Seq<B>, pad: Seq<B>, n: nat)
    requires
        n > 0,
        pad.len() == n,
    ensures
        joined(s, n, s.len() / n) + padded_tail(s, pad, n).subrange(0, (s.len() % n) as int) == s,
        padded_tail(s, pad, n).subrange((s.len() % n) as int, n as int) == pad.subrange(
            (s.len() % n) as int,
            n as int,
        ),
{
    crate::iterators::whole_windows(s.len() as int, n as int);
    joined_is_prefix(s, n, s.len() / n);
    let rest = s.len() % n;
    let tail = padded_tail(s, pad, n);
    assert(joined(s, n, s.len() / n) + tail.subrange(0, rest as int) =~= s);
    assert(tail.subrange(rest as int, n as int) =~= pad.subrange(rest as int, n as int));
}

/// The position after `n` steps from the front.
pub open spec fn skipped(c: Cursor, n: nat) -> Cursor
    decreases n,
{
    if n == 0 {
        c
    } else {
        skipped(cursor_next(c).0, (n - 1) as nat)
    }
}

/// A step from the front hands out an item exactly when one is left, and
/// leaves one item less.
pub proof fn next_counts_down(c: Cursor)
    ensures
        cursor_next(c).1 is Nothing <==> cursor_len(c) == 0,
        cursor_len(c) > 0 ==> cursor_len(cursor_next(c).0) == cursor_len(c) - 1,
        cursor_len(c) == 0 ==> cursor_next(c).0 == c,
{
}

/// A step from the back hands out an item exactly when one is left, and
/// leaves one item less.
pub proof fn next_back_counts_down(c: Cursor)
    ensures
        crate::iterators::cursor_next_back(c).1 is Nothing <==> cursor_len(c) == 0,
        cursor_len(c) > 0 ==> cursor_len(crate::iterators::cursor_next_back(c).0) == cursor_len(c) - 1,
        cursor_len(c) == 0 ==> crate::iterators::cursor_next_back(c).0 == c,
{
}

/// `nth(n)` hands out what `next` hands out after `n` steps of `next`, and
/// leaves the position that those steps leave.
pub proof fn nth_is_skip_then_next(c: Cursor, n: nat)
    requires
        c.front <= c.back,
    ensures
        cursor_nth(c, n) == cursor_next(skipped(c, n)),
    decreases n,
{
    if n > 0 {
        let d = cursor_next(c).0;
        nth_is_skip_then_next(d, (n - 1) as nat);
        if c.front < c.back {
            assert(cursor_nth(c, n) == cursor_nth(d, (n - 1) as nat));
        } else {
            assert(cursor_nth(c, n) == cursor_nth(d, (n - 1) as nat));
        }
    }
}

/// Where the base type is totally ordered, every lane of the lane-wise maximum
/// of two vectors is at least their lane-wise minimum.
pub proof fn maximum_ge_minimum<B: Repr + Ord>(a: Seq<B>, b: Seq<B>)
    requires
        a.len() == b.len(),
        obeys_cmp::<B>(),
    ensures
        lanes_ge(blended(a, b, where_lt(a, b)), blended(a, b, where_gt(a, b))) == repeated(
            B::Mask::spec_from_bool(true),
            a.len(),
        ),
{
    reveal(obeys_partial_cmp_spec_properties);
    reveal(obeys_cmp_partial_ord);
    reveal(obeys_cmp_ord);
    let top = blended(a, b, where_lt(a, b));
    let bottom = blended(a, b, where_gt(a, b));
    assert forall|i: int| 0 <= i < a.len() implies #[trigger] lanes_ge(top, bottom)[i]
        == B::Mask::spec_from_bool(true) by {
        let x = a[i];
        let y = b[i];
        assert(x.partial_cmp_spec(&y) == Some(x.cmp_spec(&y)));
        assert(y.partial_cmp_spec(&x) == Some(y.cmp_spec(&x)));
        assert(x.partial_cmp_spec(&x) == Some(x.cmp_spec(&x)));
        assert(top[i].is_ge(&bottom[i]));
    }
    assert(lanes_ge(top, bottom) =~= repeated(B::Mask::spec_from_bool(true), a.len()));
}

/// The complement of the complement of a mask value is that mask value.
pub proof fn mask_not_not<I: Bits>(b: bool)
    ensures
        MaskWrapper::<I>::of(b).not_spec().not_spec() == MaskWrapper::<I>::of(b),
{
    MaskWrapper::<I>::lit_of(b);
    MaskWrapper::<I>::lit_of(!b);
}

/// A mask value stands for `true` exactly when it is the true value of its type.
pub proof fn mask_bool_is_true<I: Bits>(b: bool)
    ensures
        MaskWrapper::<I>::of(b).truth() == (MaskWrapper::<I>::of(b) == MaskWrapper::<I>::of(true)),
{
    MaskWrapper::<I>::lit_of(b);
    MaskWrapper::<I>::lit_of(true);
}

/// With every lane enabled, a masked gather is a gather.
pub proof fn gather_with_all_enabled<B>(cur: Seq<B>, input: Seq<B>, idx: Seq<usize>, mask: Seq<bool>)
    requires
        cur.len() == idx.len(),
        forall|i: int| 0 <= i < idx.len() ==> mask[i],
    ensures
        gathered_masked(cur, input, idx, mask) == gathered(input, idx),
{
    assert(gathered_masked(cur, input, idx, mask) =~= gathered(input, idx));
}

/// With no lane enabled, a masked gather leaves the vector as it is.
pub proof fn gather_with_none_enabled<B>(cur: Seq<B>, input: Seq<B>, idx: Seq<usize>, mask: Seq<bool>)
    requires
        forall|i: int| 0 <= i < cur.len() ==> !mask[i],
    ensures
        gathered_masked(cur, input, idx, mask) == cur,
{
    assert(gathered_masked(cur, input, idx, mask) =~= cur);
}

/// With every lane enabled, a masked scatter is a scatter.
pub proof fn scatter_with_all_enabled<B>(out: Seq<B>, idx: Seq<usize>, lanes: Seq<B>, mask: Seq<bool>, n: nat)
    requires
        forall|i: int| 0 <= i < n ==> mask[i],
    ensures
        scattered_masked(out, idx, lanes, mask, n) == scattered(out, idx, lanes, n),
    decreases n,
{
    if n > 0 {
        scatter_with_all_enabled(out, idx, lanes, mask, (n - 1) as nat);
    }
}

/// With no lane enabled, a masked scatter writes nothing.
pub proof fn scatter_with_none_enabled<B>(out: Seq<B>, idx: Seq<usize>, lanes: Seq<B>, mask: Seq<bool>, n: nat)
    requires
        forall|i: int| 0 <= i < n ==> !mask[i],
    ensures
        scattered_masked(out, idx, lanes, mask, n) == out,
    decreases n,
{
    if n > 0 {
        scatter_with_none_enabled(out, idx, lanes, mask, (n - 1) as nat);
    }
}

} // verus!
