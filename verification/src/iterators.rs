//! Iteration over slices as vectors: the windows of a slice one after the
//! other, and after them a tail item filled up from a padding.

use vstd::prelude::*;
use core::marker::PhantomData;
use crate::repr::Repr;
use crate::vector::{Align, Vector};

verus! {

/// The position of a vectorized iteration: the windows from `front` up to
/// `back` are still to come, and after them the padded tail, if `tail` is set.
pub struct Cursor {
    pub front: nat,
    pub back: nat,
    pub tail: bool,
}

/// What one step of a vectorized iteration hands out.
pub enum Yield {
    /// The full window with the given number.
    Window(nat),
    /// The padded tail.
    Tail,
    /// Nothing: the iteration is over.
    Nothing,
}

/// The number of items that are still to come.
pub open spec fn cursor_len(c: Cursor) -> nat {
    let main = if c.front < c.back {
        (c.back - c.front) as nat
    } else {
        0
    };
    if c.tail {
        main + 1
    } else {
        main
    }
}

/// A step from the front: the next window, then the tail, then nothing.
pub open spec fn cursor_next(c: Cursor) -> (Cursor, Yield) {
    if c.front < c.back {
        (Cursor { front: c.front + 1, ..c }, Yield::Window(c.front))
    } else if c.tail {
        (Cursor { tail: false, ..c }, Yield::Tail)
    } else {
        (c, Yield::Nothing)
    }
}

/// A step from the back: the tail first, then the last window, then nothing.
pub open spec fn cursor_next_back(c: Cursor) -> (Cursor, Yield) {
    if c.tail {
        (Cursor { tail: false, ..c }, Yield::Tail)
    } else if c.front < c.back {
        (Cursor { back: (c.back - 1) as nat, ..c }, Yield::Window((c.back - 1) as nat))
    } else {
        (c, Yield::Nothing)
    }
}

/// A jump from the front over `n` items to the one after them.
pub open spec fn cursor_nth(c: Cursor, n: nat) -> (Cursor, Yield) {
    if c.front + n < c.back {
        (Cursor { front: c.front + n + 1, ..c }, Yield::Window(c.front + n))
    } else if c.front + n == c.back && c.tail {
        (Cursor { front: c.back, tail: false, ..c }, Yield::Tail)
    } else if c.front < c.back {
        (Cursor { front: c.back, tail: false, ..c }, Yield::Nothing)
    } else {
        (Cursor { tail: false, ..c }, Yield::Nothing)
    }
}

/// The padded tail of an iteration, or the lack of one.
pub trait Partial<V>: Sized {
    /// The tail item that is still to be handed out.
    spec fn pending(&self) -> Option<V>;

    /// Hands the tail item out, once.
    fn take_partial(&mut self) -> (r: Option<V>)
        ensures
            r == old(self).pending(),
            final(self).pending() is None,
    ;

    /// The number of tail items still to come: one or none.
    fn size(&self) -> (r: usize)
        ensures
            r == if self.pending() is Some {
                1usize
            } else {
                0usize
            },
    ;
}

impl<V> Partial<V> for () {
    open spec fn pending(&self) -> Option<V> {
        None
    }

    fn take_partial(&mut self) -> (r: Option<V>) {
        None
    }

    fn size(&self) -> (r: usize) {
        0
    }
}

impl<V> Partial<V> for Option<V> {
    open spec fn pending(&self) -> Option<V> {
        *self
    }

    fn take_partial(&mut self) -> (r: Option<V>) {
        self.take()
    }

    fn size(&self) -> (r: usize) {
        if self.is_some() {
            1
        } else {
            0
        }
    }
}

/// Something that hands out the windows of its input by number. The windows
/// that it can still hand out are those from `lo()` up to `hi()`; it hands out
/// the last of them from the back, and any other from the front, giving up the
/// windows before it.
pub trait Vectorizer<R>: Sized {
    /// The state is one that `create` or `get` left.
    spec fn wf(&self) -> bool;

    /// The first window that is still to be had.
    spec fn lo(&self) -> nat;

    /// The end of the windows that are still to be had.
    spec fn hi(&self) -> nat;

    /// `item` is window `idx` of the input in state `pre`, and `post` is the
    /// state that handing it out leaves.
    spec fn step(pre: Self, idx: nat, item: R, post: Self) -> bool;

    /// Hands out window `idx`.
    fn get(&mut self, idx: usize) -> (r: R)
        requires
            old(self).wf(),
            old(self).lo() <= idx < old(self).hi(),
        ensures
            final(self).wf(),
            idx + 1 == old(self).hi() ==> final(self).lo() == old(self).lo() && final(self).hi() == idx,
            idx + 1 < old(self).hi() ==> final(self).lo() == idx + 1 && final(self).hi() == old(self).hi(),
            Self::step(*old(self), idx as nat, r, *final(self)),
    ;
}

/// The iterator over the windows of a vectorized input.
#[derive(Debug)]
pub struct VectorizedIter<V, P, R> {
    partial: P,
    vectorizer: V,
    left: usize,
    right: usize,
    _result: PhantomData<R>,
}

impl<V: Vectorizer<R>, P: Partial<R>, R> VectorizedIter<V, P, R> {
    /// The position of the iteration.
    pub closed spec fn cursor(&self) -> Cursor {
        Cursor { front: self.left as nat, back: self.right as nat, tail: self.partial.pending() is Some }
    }

    /// The padded tail that is still to come.
    pub closed spec fn pending(&self) -> Option<R> {
        self.partial.pending()
    }

    /// The state of the underlying vectorizer.
    pub closed spec fn source(&self) -> V {
        self.vectorizer
    }

    /// The iterator is in a state that `vectorize`, `vectorize_pad` or one of
    /// its own methods left.
    pub closed spec fn wf(&self) -> bool {
        &&& self.left <= self.right
        &&& self.vectorizer.wf()
        &&& self.left < self.right ==> self.vectorizer.lo() <= self.left && self.vectorizer.hi()
            == self.right
    }

    /// What a step that yields `y` hands out as `r`, from state `pre` to `post`.
    pub open spec fn handed(pre: Self, y: Yield, r: Option<R>, post: Self) -> bool {
        match y {
            Yield::Window(idx) => r is Some && V::step(pre.source(), idx, r.unwrap(), post.source()),
            Yield::Tail => r is Some && r == pre.pending() && post.source() == pre.source(),
            Yield::Nothing => r is None && post.source() == pre.source(),
        }
    }

    /// Hands out the next item from the front.
    pub fn next(&mut self) -> (r: Option<R>)
        requires
            old(self).wf(),
        ensures
            final(self).wf(),
            final(self).cursor() == cursor_next(old(self).cursor()).0,
            Self::handed(*old(self), cursor_next(old(self).cursor()).1, r, *final(self)),
    {
        if self.left < self.right {
            let idx = self.left;
            self.left += 1;
            Some(self.vectorizer.get(idx))
        } else {
            self.partial.take_partial()
        }
    }

    /// The exact number of items that are still to come, as lower and upper bound.
    pub fn size_hint(&self) -> (r: (usize, Option<usize>))
        requires
            self.wf(),
            cursor_len(self.cursor()) <= usize::MAX,
        ensures
            r.0 == cursor_len(self.cursor()),
            r.1 == Some(r.0),
    {
        let len = self.right - self.left + self.partial.size();
        (len, Some(len))
    }

    /// The number of items that are still to come.
    pub fn count(self) -> (r: usize)
        requires
            self.wf(),
            cursor_len(self.cursor()) <= usize::MAX,
        ensures
            r == cursor_len(self.cursor()),
    {
        self.size_hint().0
    }

    /// Hands out the next item from the back.
    pub fn next_back(&mut self) -> (r: Option<R>)
        requires
            old(self).wf(),
        ensures
            final(self).wf(),
            final(self).cursor() == cursor_next_back(old(self).cursor()).0,
            Self::handed(*old(self), cursor_next_back(old(self).cursor()).1, r, *final(self)),
    {
        let partial = self.partial.take_partial();
        if partial.is_some() {
            partial
        } else if self.left < self.right {
            self.right -= 1;
            Some(self.vectorizer.get(self.right))
        } else {
            None
        }
    }

    /// Hands out the last item: the padded tail if there is one, else the last window.
    pub fn last(self) -> (r: Option<R>)
        requires
            self.wf(),
        ensures
            match cursor_next_back(self.cursor()).1 {
                Yield::Window(idx) => r is Some && exists|post: V|
                    V::step(self.source(), idx, r.unwrap(), post),
                Yield::Tail => r is Some && r == self.pending(),
                Yield::Nothing => r is None,
            },
    {
        let mut me = self;
        me.next_back()
    }

    /// Skips `n` items and hands out the one after them.
    pub fn nth(&mut self, n: usize) -> (r: Option<R>)
        requires
            old(self).wf(),
        ensures
            final(self).wf(),
            final(self).cursor() == cursor_nth(old(self).cursor(), n as nat).0,
            Self::handed(*old(self), cursor_nth(old(self).cursor(), n as nat).1, r, *final(self)),
    {
        let main_len = self.right - self.left;
        if main_len >= n {
            self.left += n;
            self.next()
        } else {
            self.left = self.right;
            let _ = self.partial.take_partial();
            None
        }
    }
}

/// Window `idx` of a sequence cut into windows of `n` elements.
pub open spec fn window<B>(s: Seq<B>, idx: nat, n: nat) -> Seq<B> {
    s.subrange((idx * n) as int, (idx * n + n) as int)
}

/// Taking the rest off a length leaves a whole number of windows.
pub proof fn whole_windows(len: int, n: int)
    requires
        0 <= len,
        0 < n,
    ensures
        0 <= len % n < n,
        len % n <= len,
        (len - len % n) / n == len / n,
        (len / n) * n == len - len % n,
        (len - len % n) % n == 0,
{
    vstd::arithmetic::div_mod::lemma_fundamental_div_mod(len, n);
    vstd::arithmetic::div_mod::lemma_mod_bound(len, n);
    vstd::arithmetic::div_mod::lemma_mod_decreases(len as nat, n as nat);
    vstd::arithmetic::div_mod::lemma_div_multiples_vanish(len / n, n);
    vstd::arithmetic::div_mod::lemma_mod_multiples_basic(len / n, n);
    assert(n * (len / n) == (len / n) * n) by (nonlinear_arith);
}

/// The tail item of a padded iteration: the `rest` elements that follow the
/// full windows of `s`, then the lanes of `pad` from lane `rest` on.
pub open spec fn padded_tail<B>(s: Seq<B>, pad: Seq<B>, n: nat) -> Seq<B> {
    let rest = s.len() % n;
    s.subrange(s.len() - rest, s.len() as int) + pad.subrange(rest as int, n as int)
}

/// A vector read from a mutable slice, together with the part of the slice
/// that it is written back to.
#[derive(Debug)]
pub struct MutProxy<'a, B, V> {
    data: V,
    restore: &'a mut [B],
}

impl<'a, B, V> MutProxy<'a, B, V> {
    /// The vector that the proxy holds.
    pub closed spec fn value(&self) -> V {
        self.data
    }

    /// What the part of the slice behind the proxy holds now.
    pub closed spec fn target(&self) -> Seq<B> {
        self.restore@
    }

    /// The part of the slice behind the proxy.
    pub closed spec fn slot(&self) -> &'a mut [B] {
        self.restore
    }
}

impl<'a, A: Align, B: Repr, const S: usize> MutProxy<'a, B, Vector<A, B, S>> {
    /// The proxy stands before at most as many elements as the vector has lanes.
    pub open spec fn wf(&self) -> bool {
        self.target().len() <= S
    }

    /// Replaces the vector that the proxy holds. The slice is not written yet.
    pub fn set(&mut self, value: Vector<A, B, S>)
        ensures
            final(self).value() == value,
            final(self).target() == old(self).target(),
            final(final(self).slot())@ == final(old(self).slot())@,
    {
        self.data = value;
    }

    /// Writes the leading lanes of the held vector back to the slice, as many
    /// as the proxy stands before.
    pub fn commit(self)
        requires
            self.wf(),
        ensures
            final(self.slot())@ == self.value()@.subrange(0, self.target().len() as int),
    {
        let MutProxy { data, restore } = self;
        let lanes = data.as_slice();
        let n = restore.len();
        proof {
            data.lanes_len();
        }
        let mut i: usize = 0;
        while i < n
            invariant
                i <= n,
                n == restore@.len(),
                n <= S,
                lanes@ == data@,
                lanes@.len() == S,
                forall|j: int| 0 <= j < i ==> restore@[j] == data@[j],
            decreases n - i,
        {
            restore[i] = lanes[i];
            i += 1;
        }
        assert(restore@ =~= data@.subrange(0, n as int));
    }
}

impl<'a, B, V> core::ops::Deref for MutProxy<'a, B, V> {
    type Target = V;

    fn deref(&self) -> (r: &V)
        ensures
            *r == self.value(),
    {
        &self.data
    }
}

/// Hands out the windows of a shared slice as vectors.
pub struct ReadVectorizer<'a, B, V> {
    source: &'a [B],
    lo: Ghost<nat>,
    hi: Ghost<nat>,
    _vector: PhantomData<V>,
}

impl<'a, B, V> Clone for ReadVectorizer<'a, B, V> {
    fn clone(&self) -> (r: Self)
        ensures
            r == *self,
    {
        *self
    }
}

impl<'a, B, V> Copy for ReadVectorizer<'a, B, V> {

}

impl<'a, B, V> ReadVectorizer<'a, B, V> {
    /// The slice that the windows are read from.
    pub closed spec fn input(&self) -> Seq<B> {
        self.source@
    }
}

impl<'a, A: Align, B: Repr, const S: usize> Vectorizer<Vector<A, B, S>> for ReadVectorizer<
    'a,
    B,
    Vector<A, B, S>,
> {
    open spec fn wf(&self) -> bool {
        &&& S > 0
        &&& self.lo() <= self.hi()
        &&& self.hi() * S <= self.input().len()
    }

    closed spec fn lo(&self) -> nat {
        self.lo@
    }

    closed spec fn hi(&self) -> nat {
        self.hi@
    }

    open spec fn step(pre: Self, idx: nat, item: Vector<A, B, S>, post: Self) -> bool {
        &&& item@ == window(pre.input(), idx, S as nat)
        &&& post.input() == pre.input()
    }

    fn get(&mut self, idx: usize) -> (r: Vector<A, B, S>) {
        let len = self.source.len();
        proof {
            assert(0 <= idx * S && idx * S + S <= self.hi@ * S) by (nonlinear_arith)
                requires
                    0 <= idx < self.hi@,
            ;
            assert(idx * S + S <= len);
        }
        let start = idx * S;
        let r = Vector::new(&self.source[start..start + S]);
        let ghost last = idx + 1 == self.hi@;
        self.lo = Ghost(
            if last {
                self.lo@
            } else {
                (idx + 1) as nat
            },
        );
        self.hi = Ghost(
            if last {
                idx as nat
            } else {
                self.hi@
            },
        );
        r
    }
}

/// `vectorizer` holds the full windows of `whole`, and `tail` stands before its
/// rest and holds the rest followed by lanes of `pad`.
pub open spec fn made_of<'a, A: Align, B: Repr, const S: usize>(
    whole: Seq<B>,
    pad: Option<Vector<A, B, S>>,
    vectorizer: WriteVectorizer<'a, B, Vector<A, B, S>>,
    tail: Option<MutProxy<'a, B, Vector<A, B, S>>>,
) -> bool {
    let main = whole.len() - whole.len() % (S as nat);
    &&& vectorizer.remaining() == whole.subrange(0, main)
    &&& tail is Some ==> {
        &&& tail.unwrap().value()@ == padded_tail(whole, pad.unwrap()@, S as nat)
        &&& tail.unwrap().target() == whole.subrange(main, whole.len() as int)
        &&& tail.unwrap().wf()
    }
}

/// Hands out the windows of a mutable slice as proxies, each standing before
/// its own part of the slice.
pub struct WriteVectorizer<'a, B, V> {
    rest: Option<&'a mut [B]>,
    lo: usize,
    hi: usize,
    _vector: PhantomData<V>,
}

impl<'a, B, V> WriteVectorizer<'a, B, V> {
    /// Whether the vectorizer still holds a part of the slice.
    pub closed spec fn holding(&self) -> bool {
        self.rest is Some
    }

    /// What the part of the slice that is still to be handed out holds.
    pub closed spec fn remaining(&self) -> Seq<B> {
        self.rest.unwrap()@
    }

    /// The part of the slice that is still to be handed out.
    pub closed spec fn held(&self) -> &'a mut [B] {
        self.rest.unwrap()
    }

    /// The number of the first window in `remaining`.
    pub closed spec fn first(&self) -> nat {
        self.lo as nat
    }

    /// The number after that of the last window in `remaining`.
    pub closed spec fn end(&self) -> nat {
        self.hi as nat
    }
}

impl<'a, A: Align, B: Repr, const S: usize> Vectorizer<MutProxy<'a, B, Vector<A, B, S>>> for WriteVectorizer<
    'a,
    B,
    Vector<A, B, S>,
> {
    open spec fn wf(&self) -> bool {
        &&& S > 0
        &&& self.holding()
        &&& self.lo() <= self.hi()
        &&& self.remaining().len() == (self.hi() - self.lo()) * S
    }

    open spec fn lo(&self) -> nat {
        self.first()
    }

    open spec fn hi(&self) -> nat {
        self.end()
    }

    open spec fn step(pre: Self, idx: nat, item: MutProxy<'a, B, Vector<A, B, S>>, post: Self) -> bool {
        let skipped = (idx - pre.lo()) * S;
        &&& item.value()@ == window(pre.remaining(), (idx - pre.lo()) as nat, S as nat)
        &&& item.target() == item.value()@
        &&& post.remaining() == if idx + 1 == pre.hi() {
            pre.remaining().subrange(0, skipped)
        } else {
            pre.remaining().subrange(skipped + S, pre.remaining().len() as int)
        }
    }

    fn get(&mut self, idx: usize) -> (r: MutProxy<'a, B, Vector<A, B, S>>) {
        self.take(idx)
    }
}

impl<'a, A: Align, B: Repr, const S: usize> WriteVectorizer<'a, B, Vector<A, B, S>> {
    /// Hands out window `idx` as a proxy: the last window that is left from the
    /// back, any other from the front, giving up the windows before it. What
    /// the slice holds in the end is what is given up, as it stands, what the
    /// proxy writes, and what the rest of the windows will hold.
    pub fn take(&mut self, idx: usize) -> (r: MutProxy<'a, B, Vector<A, B, S>>)
        requires
            old(self).wf(),
            old(self).lo() <= idx < old(self).hi(),
        ensures
            final(self).wf(),
            idx + 1 == old(self).hi() ==> final(self).lo() == old(self).lo() && final(self).hi() == idx,
            idx + 1 < old(self).hi() ==> final(self).lo() == idx + 1 && final(self).hi() == old(self).hi(),
            Self::step(*old(self), idx as nat, r, *final(self)),
            r.wf(),
            idx + 1 == old(self).hi() ==> final(old(self).held())@ == final(final(self).held())@
                + final(r.slot())@,
            idx + 1 < old(self).hi() ==> final(old(self).held())@ == old(self).remaining().subrange(
                0,
                (idx - old(self).lo()) * S,
            ) + final(r.slot())@ + final(final(self).held())@,
    {
        let whole = self.rest.take().unwrap();
        let ghost before = whole@;
        let total = whole.len();
        proof {
            assert(total == (self.hi - self.lo) * S);
            assert(0 <= (idx - self.lo) * S && (idx - self.lo) * S + S <= (self.hi - self.lo) * S)
                by (nonlinear_arith)
                requires
                    self.lo <= idx < self.hi,
            ;
        }
        let skip = (idx - self.lo) * S;
        if idx + 1 == self.hi {
            proof {
                assert((self.hi - self.lo) * S - (idx - self.lo) * S == S) by (nonlinear_arith)
                    requires
                        idx + 1 == self.hi,
                ;
            }
            let (front, last) = whole.split_at_mut(skip);
            assert(last@.len() == S);
            let data = Vector::new(last);
            proof {
                assert(last@ =~= window(before, (idx - self.lo) as nat, S as nat));
                assert(front@ =~= before.subrange(0, skip as int));
            }
            self.rest = Some(front);
            self.hi = idx;
            MutProxy { data, restore: last }
        } else {
            let (skipped, from) = whole.split_at_mut(skip);
            let (head, tail) = from.split_at_mut(S);
            let data = Vector::new(head);
            proof {
                assert(head@ =~= window(before, (idx - self.lo) as nat, S as nat));
                assert(tail@ =~= before.subrange(skip + S, before.len() as int));
                assert((self.hi - (idx + 1)) * S == (self.hi - self.lo) * S - skip - S)
                    by (nonlinear_arith)
                    requires
                        skip == (idx - self.lo) * S,
                ;
            }
            self.rest = Some(tail);
            self.lo = idx + 1;
            MutProxy { data, restore: head }
        }
    }
}

/// An input that can be cut into windows and iterated over as vectors.
pub trait Vectorizable<V>: Sized {
    /// What fills the lanes of the tail item that the input does not reach.
    type Padding;

    /// What hands out the windows of the input.
    type Vectorizer: Vectorizer<V>;

    /// The input can be cut into windows: with a padding at hand, or without
    /// one where no element is left over.
    spec fn splits(&self, padded: bool) -> bool;

    /// The number of full windows of the input.
    spec fn full_windows(&self) -> nat;

    /// Whether elements are left over after the full windows.
    spec fn has_rest(&self) -> bool;

    /// `vectorizer` hands out the windows of this input, and `tail` is its
    /// tail item, made with `pad`.
    spec fn created(self, pad: Option<Self::Padding>, vectorizer: Self::Vectorizer, tail: Option<V>) -> bool;

    /// Tells whether the input can be cut into windows.
    fn can_split(&self, padded: bool) -> (ok: bool)
        ensures
            ok == self.splits(padded),
    ;

    /// Counts the full windows of the input.
    fn count_windows(&self) -> (n: usize)
        requires
            self.splits(true) || self.splits(false),
        ensures
            n == self.full_windows(),
    ;

    /// Tells whether elements are left over after the full windows.
    fn leaves_rest(&self) -> (more: bool)
        requires
            self.splits(true) || self.splits(false),
        ensures
            more == self.has_rest(),
    ;

    /// Prepares the iteration: the vectorizer, the number of full windows and
    /// the tail item.
    fn create(self, pad: Option<Self::Padding>) -> (r: (Self::Vectorizer, usize, Option<V>))
        requires
            self.splits(pad is Some),
        ensures
            r.0.wf(),
            r.0.lo() == 0,
            r.0.hi() == r.1,
            r.1 == self.full_windows(),
            r.2 is Some <==> pad is Some && self.has_rest(),
            self.created(pad, r.0, r.2),
    ;

    /// Iterates over the windows of an input that they divide without rest.
    fn vectorize(self) -> (r: VectorizedIter<Self::Vectorizer, (), V>)
        requires
            self.splits(false),
        ensures
            r.wf(),
            r.cursor() == (Cursor { front: 0, back: self.full_windows(), tail: false }),
            self.created(None, r.source(), None),
    {
        let (vectorizer, len, _partial) = self.create(None);
        VectorizedIter { partial: (), vectorizer, left: 0, right: len, _result: PhantomData }
    }

    /// Iterates as `vectorize` does where the windows divide the input without
    /// rest, and else gives nothing.
    fn try_vectorize(self) -> (r: Option<VectorizedIter<Self::Vectorizer, (), V>>)
        ensures
            r is Some <==> self.splits(false),
            r is Some ==> {
                &&& r.unwrap().wf()
                &&& r.unwrap().cursor() == (Cursor { front: 0, back: self.full_windows(), tail: false })
                &&& self.created(None, r.unwrap().source(), None)
            },
    {
        if self.can_split(false) {
            Some(self.vectorize())
        } else {
            None
        }
    }

    /// Iterates as `vectorize_pad` does where the input can be cut into
    /// windows, and else gives nothing.
    fn try_vectorize_pad(self, pad: Self::Padding) -> (r: Option<
        VectorizedIter<Self::Vectorizer, Option<V>, V>,
    >)
        ensures
            r is Some <==> self.splits(true),
            r is Some ==> {
                &&& r.unwrap().wf()
                &&& r.unwrap().cursor() == (Cursor {
                    front: 0,
                    back: self.full_windows(),
                    tail: self.has_rest(),
                })
                &&& self.created(Some(pad), r.unwrap().source(), r.unwrap().pending())
            },
    {
        if self.can_split(true) {
            Some(self.vectorize_pad(pad))
        } else {
            None
        }
    }

    /// Iterates over the windows of an input, and after them over the tail
    /// item that the rest of the input and the padding make, if there is a rest.
    fn vectorize_pad(self, pad: Self::Padding) -> (r: VectorizedIter<Self::Vectorizer, Option<V>, V>)
        requires
            self.splits(true),
        ensures
            r.wf(),
            r.cursor() == (Cursor { front: 0, back: self.full_windows(), tail: self.has_rest() }),
            self.created(Some(pad), r.source(), r.pending()),
    {
        let (vectorizer, len, partial) = self.create(Some(pad));
        VectorizedIter { partial, vectorizer, left: 0, right: len, _result: PhantomData }
    }
}

impl<'a, A: Align, B: Repr, const S: usize> Vectorizable<Vector<A, B, S>> for &'a [B] {
    type Padding = Vector<A, B, S>;

    type Vectorizer = ReadVectorizer<'a, B, Vector<A, B, S>>;

    open spec fn splits(&self, padded: bool) -> bool {
        S > 0 && (padded || self@.len() % (S as nat) == 0)
    }

    open spec fn full_windows(&self) -> nat {
        self@.len() / (S as nat)
    }

    open spec fn has_rest(&self) -> bool {
        self@.len() % (S as nat) != 0
    }

    fn can_split(&self, padded: bool) -> (ok: bool) {
        S > 0 && (padded || self.len() % S == 0)
    }

    fn count_windows(&self) -> (n: usize) {
        self.len() / S
    }

    fn leaves_rest(&self) -> (more: bool) {
        self.len() % S != 0
    }

    open spec fn created(
        self,
        pad: Option<Vector<A, B, S>>,
        vectorizer: ReadVectorizer<'a, B, Vector<A, B, S>>,
        tail: Option<Vector<A, B, S>>,
    ) -> bool {
        &&& vectorizer.input() == self@
        &&& tail is Some ==> tail.unwrap()@ == padded_tail(self@, pad.unwrap()@, S as nat)
    }

    fn create(self, pad: Option<Vector<A, B, S>>) -> (r: (
        ReadVectorizer<'a, B, Vector<A, B, S>>,
        usize,
        Option<Vector<A, B, S>>,
    )) {
        let len = self.len();
        proof {
            whole_windows(len as int, S as int);
        }
        let rest = len % S;
        let main = len - rest;
        let partial = match pad {
            Some(pad) => {
                if rest == 0 {
                    None
                } else {
                    proof {
                        pad.lanes_len();
                    }
                    let mut lanes = pad.into_array();
                    let mut i: usize = 0;
                    while i < rest
                        invariant
                            i <= rest,
                            rest < S,
                            main + rest == len,
                            len == self@.len(),
                            pad@.len() == S,
                            forall|j: int| 0 <= j < i ==> lanes@[j] == self@[main + j],
                            forall|j: int| i <= j < S ==> lanes@[j] == pad@[j],
                        decreases rest - i,
                    {
                        lanes[i] = self[main + i];
                        i += 1;
                    }
                    let tail = Vector::from(lanes);
                    assert(tail@ =~= padded_tail(self@, pad@, S as nat));
                    Some(tail)
                }
            },
            None => None,
        };
        let me = ReadVectorizer {
            source: self,
            lo: Ghost(0nat),
            hi: Ghost((main / S) as nat),
            _vector: PhantomData,
        };
        assert(me.hi() * S <= me.input().len());
        assert(rest == self@.len() % (S as nat));
        assert(<Self as Vectorizable<Vector<A, B, S>>>::has_rest(&self) == (rest != 0));
        (me, main / S, partial)
    }
}

impl<'a, A: Align, B: Repr, const S: usize> Vectorizable<MutProxy<'a, B, Vector<A, B, S>>> for &'a mut [B] {
    type Padding = Vector<A, B, S>;

    type Vectorizer = WriteVectorizer<'a, B, Vector<A, B, S>>;

    open spec fn splits(&self, padded: bool) -> bool {
        S > 0 && (padded || self@.len() % (S as nat) == 0)
    }

    open spec fn full_windows(&self) -> nat {
        self@.len() / (S as nat)
    }

    open spec fn has_rest(&self) -> bool {
        self@.len() % (S as nat) != 0
    }

    fn can_split(&self, padded: bool) -> (ok: bool) {
        S > 0 && (padded || self.len() % S == 0)
    }

    fn count_windows(&self) -> (n: usize) {
        self.len() / S
    }

    fn leaves_rest(&self) -> (more: bool) {
        self.len() % S != 0
    }

    open spec fn created(
        self,
        pad: Option<Vector<A, B, S>>,
        vectorizer: WriteVectorizer<'a, B, Vector<A, B, S>>,
        tail: Option<MutProxy<'a, B, Vector<A, B, S>>>,
    ) -> bool {
        made_of(self@, pad, vectorizer, tail)
    }

    fn create(self, pad: Option<Vector<A, B, S>>) -> (r: (
        WriteVectorizer<'a, B, Vector<A, B, S>>,
        usize,
        Option<MutProxy<'a, B, Vector<A, B, S>>>,
    )) {
        proof {
            let rest = self@.len() % (S as nat);
            assert(<Self as Vectorizable<MutProxy<'a, B, Vector<A, B, S>>>>::has_rest(&self) == (rest != 0));
        }
        WriteVectorizer::split(self, pad)
    }
}

impl<'a, A: Align, B: Repr, const S: usize> WriteVectorizer<'a, B, Vector<A, B, S>> {
    /// Cuts a mutable slice into its full windows, which the vectorizer hands
    /// out, and its rest, which the tail proxy stands before. What the slice
    /// holds in the end is what the windows and the tail will hold.
    pub fn split(slice: &'a mut [B], pad: Option<Vector<A, B, S>>) -> (r: (
        WriteVectorizer<'a, B, Vector<A, B, S>>,
        usize,
        Option<MutProxy<'a, B, Vector<A, B, S>>>,
    ))
        requires
            S > 0,
            pad is Some || old(slice)@.len() % (S as nat) == 0,
        ensures
            r.0.wf(),
            r.0.lo() == 0,
            r.0.hi() == r.1,
            r.1 == old(slice)@.len() / (S as nat),
            r.2 is Some <==> pad is Some && old(slice)@.len() % (S as nat) != 0,
            made_of(old(slice)@, pad, r.0, r.2),
            r.2 is Some ==> final(slice)@ == final(r.0.held())@ + final(r.2.unwrap().slot())@,
            r.2 is None ==> final(slice)@ == final(r.0.held())@,
    {
        let len = slice.len();
        let ghost whole = slice@;
        proof {
            whole_windows(len as int, S as int);
        }
        let rest = len % S;
        let main = len - rest;
        let (body, tail) = slice.split_at_mut(main);
        assert(body@ =~= whole.subrange(0, main as int));
        let ghost last = tail@;
        let partial = match pad {
            Some(pad) => {
                if rest == 0 {
                    assert(tail@ =~= Seq::<B>::empty());
                    None
                } else {
                    proof {
                        pad.lanes_len();
                    }
                    let mut lanes = pad.into_array();
                    let mut i: usize = 0;
                    while i < rest
                        invariant
                            i <= rest,
                            rest < S,
                            tail@.len() == rest,
                            tail@ == last,
                            pad@.len() == S,
                            forall|j: int| 0 <= j < i ==> lanes@[j] == tail@[j],
                            forall|j: int| i <= j < S ==> lanes@[j] == pad@[j],
                        decreases rest - i,
                    {
                        lanes[i] = tail[i];
                        i += 1;
                    }
                    let data = Vector::from(lanes);
                    assert(data@ =~= padded_tail(whole, pad@, S as nat));
                    Some(MutProxy { data, restore: tail })
                }
            },
            None => {
                assert(tail@ =~= Seq::<B>::empty());
                None
            },
        };
        let me = WriteVectorizer { rest: Some(body), lo: 0, hi: main / S, _vector: PhantomData };
        assert(me.remaining().len() == (me.hi() - me.lo()) * S);
        (me, main / S, partial)
    }
}

/// Window `k` of `after` holds what `f` made of window `k` of `before`.
pub open spec fn rewritten<A: Align, B: Repr, const S: usize, F: Fn(Vector<A, B, S>) -> Vector<A, B, S>>(
    before: Seq<B>,
    after: Seq<B>,
    f: F,
    k: nat,
) -> bool {
    exists|v: Vector<A, B, S>, w: Vector<A, B, S>|
        v@ == window(before, k, S as nat) && #[trigger] f.ensures((v,), w) && window(after, k, S as nat)
            == w@
}

/// Rewrites a mutable slice window by window: each window is read into a
/// vector, `f` is applied to it, and the result is written back through the
/// window's proxy. The slice then holds, window for window, what `f` made of
/// what it held.
pub fn update_windows<'a, A: Align, B: Repr, const S: usize, F: Fn(Vector<A, B, S>) -> Vector<A, B, S>>(
    s: &'a mut [B],
    f: F,
)
    requires
        S > 0,
        old(s)@.len() % (S as nat) == 0,
        forall|v: Vector<A, B, S>| f.requires((v,)),
    ensures
        final(s)@.len() == old(s)@.len(),
        forall|k: nat|
            k < old(s)@.len() / (S as nat) ==> #[trigger] rewritten::<A, B, S, F>(old(s)@, final(s)@, f, k),
{
    let ghost before = s@;
    let ghost after = final(s)@;
    proof {
        whole_windows(before.len() as int, S as int);
    }
    let (mut vectorizer, n, _tail) = WriteVectorizer::<'a, B, Vector<A, B, S>>::split(s, None);
    let ghost done = Seq::<B>::empty();
    let ghost mid: int = 0;
    let mut k: usize = 0;
    assert(vectorizer.remaining() =~= before.subrange(0, before.len() as int));
    while k < n
        invariant
            S > 0,
            k <= n,
            n * S == before.len(),
            vectorizer.wf(),
            k < n ==> vectorizer.lo() == k && vectorizer.hi() == n && mid == k * S,
            k < n ==> vectorizer.remaining() == before.subrange(k * S, before.len() as int),
            k == n ==> vectorizer.remaining().len() == 0,
            0 <= mid <= done.len(),
            after == done.subrange(0, mid) + final(vectorizer.held())@ + done.subrange(mid, done.len() as int),
            done.len() == k * S,
            forall|v: Vector<A, B, S>| f.requires((v,)),
            n == before.len() / (S as nat),
            forall|j: nat| j < k ==> #[trigger] rewritten::<A, B, S, F>(before, done, f, j),
        decreases n - k,
    {
        let ghost left = vectorizer.remaining();
        let ghost promised = final(vectorizer.held())@;
        proof {
            assert(k * S + S == (k + 1) * S) by (nonlinear_arith);
            assert((k + 1) * S <= n * S) by (nonlinear_arith)
                requires
                    k < n,
            ;
            assert((k - k) * S == 0) by (nonlinear_arith);
        }
        let mut proxy = vectorizer.take(k);
        let v = proxy.data;
        assert(v@ =~= window(before, k as nat, S as nat)) by {
            assert(window(left, 0, S as nat) =~= window(before, k as nat, S as nat));
        }
        let w = f(v);
        proxy.set(w);
        let ghost slot_end = final(proxy.slot())@;
        proxy.commit();
        proof {
            w.lanes_len();
            assert(slot_end =~= w@);
            let grown = done + w@;
            if k + 1 == n {
                assert(vectorizer.remaining() =~= left.subrange(0, 0));
                assert(promised == final(vectorizer.held())@ + w@);
                assert(after =~= grown.subrange(0, mid) + final(vectorizer.held())@ + grown.subrange(
                    mid,
                    grown.len() as int,
                ));
            } else {
                assert(vectorizer.remaining() =~= before.subrange((k + 1) * S, before.len() as int));
                assert(left.subrange(0, 0) =~= Seq::<B>::empty());
                assert(promised =~= w@ + final(vectorizer.held())@);
                assert(after =~= grown.subrange(0, mid + S) + final(vectorizer.held())@ + grown.subrange(
                    mid + S,
                    grown.len() as int,
                ));
                mid = mid + S;
            }
            assert forall|j: nat| j < k + 1 implies #[trigger] rewritten::<A, B, S, F>(
                before,
                grown,
                f,
                j,
            ) by {
                if j < k {
                    assert(j * S + S <= k * S) by (nonlinear_arith)
                        requires
                            j < k,
                    ;
                    assert(rewritten::<A, B, S, F>(before, done, f, j));
                    assert(window(grown, j, S as nat) =~= window(done, j, S as nat));
                } else {
                    assert(window(grown, j, S as nat) =~= w@);
                    assert(f.ensures((v,), w));
                }
            }
            done = grown;
        }
        k += 1;
    }
    proof {
        assert(final(vectorizer.held())@ =~= Seq::<B>::empty());
        assert(after =~= done);
    }
}

impl<'a, A: Align, B: Repr, const S: usize> Vectorizer<Vector<A, B, S>> for ReadVectorizer<
    'a,
    Vector<A, B, S>,
    Vector<A, B, S>,
> {
    open spec fn wf(&self) -> bool {
        &&& self.lo() <= self.hi()
        &&& self.hi() <= self.input().len()
    }

    closed spec fn lo(&self) -> nat {
        self.lo@
    }

    closed spec fn hi(&self) -> nat {
        self.hi@
    }

    open spec fn step(pre: Self, idx: nat, item: Vector<A, B, S>, post: Self) -> bool {
        &&& item == pre.input()[idx as int]
        &&& post.input() == pre.input()
    }

    fn get(&mut self, idx: usize) -> (r: Vector<A, B, S>) {
        let r = self.source[idx];
        let ghost last = idx + 1 == self.hi@;
        self.lo = Ghost(
            if last {
                self.lo@
            } else {
                (idx + 1) as nat
            },
        );
        self.hi = Ghost(
            if last {
                idx as nat
            } else {
                self.hi@
            },
        );
        r
    }
}

impl<'a, A: Align, B: Repr, const S: usize> Vectorizable<Vector<A, B, S>> for &'a [Vector<A, B, S>] {
    type Padding = Vector<A, B, S>;

    type Vectorizer = ReadVectorizer<'a, Vector<A, B, S>, Vector<A, B, S>>;

    open spec fn splits(&self, padded: bool) -> bool {
        true
    }

    open spec fn full_windows(&self) -> nat {
        self@.len()
    }

    open spec fn has_rest(&self) -> bool {
        false
    }

    fn can_split(&self, padded: bool) -> (ok: bool) {
        true
    }

    fn count_windows(&self) -> (n: usize) {
        self.len()
    }

    fn leaves_rest(&self) -> (more: bool) {
        false
    }

    open spec fn created(
        self,
        pad: Option<Vector<A, B, S>>,
        vectorizer: ReadVectorizer<'a, Vector<A, B, S>, Vector<A, B, S>>,
        tail: Option<Vector<A, B, S>>,
    ) -> bool {
        vectorizer.input() == self@
    }

    fn create(self, pad: Option<Vector<A, B, S>>) -> (r: (
        ReadVectorizer<'a, Vector<A, B, S>, Vector<A, B, S>>,
        usize,
        Option<Vector<A, B, S>>,
    )) {
        let len = self.len();
        assert(!<Self as Vectorizable<Vector<A, B, S>>>::has_rest(&self));
        let me = ReadVectorizer { source: self, lo: Ghost(0nat), hi: Ghost(len as nat), _vector: PhantomData };
        assert(me.hi() <= me.input().len());
        (me, len, None)
    }
}

impl<'a, A: Align, B: Repr, const S: usize> WriteVectorizer<'a, Vector<A, B, S>, Vector<A, B, S>> {
    /// Hands out vector `idx` of a slice of vectors for writing: the last that
    /// is left from the back, any other from the front, giving up those before
    /// it. What the slice holds in the end is what is given up, as it stands,
    /// what is written to the vector, and what the rest will hold.
    pub fn take_vector(&mut self, idx: usize) -> (r: &'a mut Vector<A, B, S>)
        requires
            old(self).wf(),
            old(self).lo() <= idx < old(self).hi(),
        ensures
            final(self).wf(),
            idx + 1 == old(self).hi() ==> final(self).lo() == old(self).lo() && final(self).hi() == idx,
            idx + 1 < old(self).hi() ==> final(self).lo() == idx + 1 && final(self).hi() == old(self).hi(),
            Self::step(*old(self), idx as nat, r, *final(self)),
            idx + 1 == old(self).hi() ==> final(old(self).held())@ == final(final(self).held())@.push(*final(r)),
            idx + 1 < old(self).hi() ==> final(old(self).held())@ == old(self).remaining().subrange(
                0,
                idx - old(self).lo(),
            ).push(*final(r)) + final(final(self).held())@,
    {
        let whole = self.rest.take().unwrap();
        let ghost before = whole@;
        let skip = idx - self.lo;
        if idx + 1 == self.hi {
            let (front, last) = whole.split_at_mut(skip);
            proof {
                assert(front@ =~= before.subrange(0, skip as int));
                assert(last@.len() == 1);
            }
            self.rest = Some(front);
            self.hi = idx;
            last.first_mut().unwrap()
        } else {
            let (skipped, from) = whole.split_at_mut(skip);
            let (head, tail) = from.split_at_mut(1);
            proof {
                assert(tail@ =~= before.subrange(skip + 1, before.len() as int));
                assert(head@.len() == 1);
            }
            self.rest = Some(tail);
            self.lo = idx + 1;
            head.first_mut().unwrap()
        }
    }
}

impl<'a, A: Align, B: Repr, const S: usize> Vectorizer<&'a mut Vector<A, B, S>> for WriteVectorizer<
    'a,
    Vector<A, B, S>,
    Vector<A, B, S>,
> {
    open spec fn wf(&self) -> bool {
        &&& self.holding()
        &&& self.lo() <= self.hi()
        &&& self.remaining().len() == self.hi() - self.lo()
    }

    open spec fn lo(&self) -> nat {
        self.first()
    }

    open spec fn hi(&self) -> nat {
        self.end()
    }

    open spec fn step(pre: Self, idx: nat, item: &'a mut Vector<A, B, S>, post: Self) -> bool {
        let skipped = idx - pre.lo();
        &&& *item == pre.remaining()[skipped]
        &&& post.remaining() == if idx + 1 == pre.hi() {
            pre.remaining().subrange(0, skipped)
        } else {
            pre.remaining().subrange(skipped + 1, pre.remaining().len() as int)
        }
    }

    fn get(&mut self, idx: usize) -> (r: &'a mut Vector<A, B, S>) {
        self.take_vector(idx)
    }
}

impl<'a, A: Align, B: Repr, const S: usize> Vectorizable<&'a mut Vector<A, B, S>> for &'a mut [Vector<
    A,
    B,
    S,
>] {
    type Padding = Vector<A, B, S>;

    type Vectorizer = WriteVectorizer<'a, Vector<A, B, S>, Vector<A, B, S>>;

    open spec fn splits(&self, padded: bool) -> bool {
        true
    }

    open spec fn full_windows(&self) -> nat {
        self@.len()
    }

    open spec fn has_rest(&self) -> bool {
        false
    }

    fn can_split(&self, padded: bool) -> (ok: bool) {
        true
    }

    fn count_windows(&self) -> (n: usize) {
        self.len()
    }

    fn leaves_rest(&self) -> (more: bool) {
        false
    }

    open spec fn created(
        self,
        pad: Option<Vector<A, B, S>>,
        vectorizer: WriteVectorizer<'a, Vector<A, B, S>, Vector<A, B, S>>,
        tail: Option<&'a mut Vector<A, B, S>>,
    ) -> bool {
        vectorizer.remaining() == self@
    }

    fn create(self, pad: Option<Vector<A, B, S>>) -> (r: (
        WriteVectorizer<'a, Vector<A, B, S>, Vector<A, B, S>>,
        usize,
        Option<&'a mut Vector<A, B, S>>,
    ))
        ensures
            final(self)@ == final(r.0.held())@,
    {
        let len = self.len();
        assert(!<Self as Vectorizable<&'a mut Vector<A, B, S>>>::has_rest(&self));
        let me = WriteVectorizer { rest: Some(self), lo: 0, hi: len, _vector: PhantomData };
        assert(me.remaining().len() == me.hi() - me.lo());
        (me, len, None)
    }
}

} // verus!
