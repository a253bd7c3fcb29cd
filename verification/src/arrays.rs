//! Fixed arrays of inputs that are vectorized side by side.

use vstd::prelude::*;
use crate::iterators::{Vectorizable, Vectorizer};

verus! {

/// Element `i` of an optional array, if there is an array.
pub open spec fn part<T, const N: usize>(whole: Option<[T; N]>, i: int) -> Option<T> {
    match whole {
        Some(a) => Some(a@[i]),
        None => None,
    }
}

impl<T: Vectorizer<TR> + Copy, TR: Copy, const N: usize> Vectorizer<[TR; N]> for [T; N] {
    open spec fn wf(&self) -> bool {
        &&& N > 0
        &&& forall|i: int|
            0 <= i < N ==> {
                &&& (#[trigger] self@[i]).wf()
                &&& self@[i].lo() == self@[0].lo()
                &&& self@[i].hi() == self@[0].hi()
            }
    }

    open spec fn lo(&self) -> nat {
        self@[0].lo()
    }

    open spec fn hi(&self) -> nat {
        self@[0].hi()
    }

    open spec fn step(pre: Self, idx: nat, item: [TR; N], post: Self) -> bool {
        forall|i: int| 0 <= i < N ==> T::step(#[trigger] pre@[i], idx, item@[i], post@[i])
    }

    fn get(&mut self, idx: usize) -> (r: [TR; N]) {
        let ghost pre = *self;
        let mut first = self[0];
        let item = first.get(idx);
        self[0] = first;
        let mut res = [item;N];
        let mut i: usize = 1;
        while i < N
            invariant
                1 <= i <= N,
                pre.wf(),
                pre@[0].lo() <= idx < pre@[0].hi(),
                forall|j: int| i <= j < N ==> self@[j] == pre@[j],
                forall|j: int|
                    0 <= j < i ==> {
                        &&& (#[trigger] self@[j]).wf()
                        &&& self@[j].lo() == self@[0].lo()
                        &&& self@[j].hi() == self@[0].hi()
                        &&& T::step(pre@[j], idx as nat, res@[j], self@[j])
                    },
                idx + 1 == pre@[0].hi() ==> self@[0].lo() == pre@[0].lo() && self@[0].hi() == idx,
                idx + 1 < pre@[0].hi() ==> self@[0].lo() == idx + 1 && self@[0].hi() == pre@[0].hi(),
            decreases N - i,
        {
            assert(pre@[i as int].wf());
            let mut current = self[i];
            let item = current.get(idx);
            self[i] = current;
            res[i] = item;
            i += 1;
        }
        res
    }
}

impl<T: Vectorizable<TR> + Copy, TR: Copy, const N: usize> Vectorizable<[TR; N]> for [T; N] where
    T::Padding: Copy,
    T::Vectorizer: Copy,
 {
    type Padding = [T::Padding; N];

    type Vectorizer = [T::Vectorizer; N];

    open spec fn splits(&self, padded: bool) -> bool {
        &&& N > 0
        &&& forall|i: int|
            0 <= i < N ==> {
                &&& (#[trigger] self@[i]).splits(padded)
                &&& self@[i].full_windows() == self@[0].full_windows()
                &&& self@[i].has_rest() == self@[0].has_rest()
            }
    }

    open spec fn full_windows(&self) -> nat {
        self@[0].full_windows()
    }

    open spec fn has_rest(&self) -> bool {
        self@[0].has_rest()
    }

    fn can_split(&self, padded: bool) -> (ok: bool) {
        if N == 0 || !self[0].can_split(padded) {
            return false;
        }
        let windows = self[0].count_windows();
        let more = self[0].leaves_rest();
        let mut i: usize = 1;
        while i < N
            invariant
                1 <= i <= N,
                self@[0].splits(padded),
                windows == self@[0].full_windows(),
                more == self@[0].has_rest(),
                forall|j: int|
                    0 <= j < i ==> {
                        &&& (#[trigger] self@[j]).splits(padded)
                        &&& self@[j].full_windows() == self@[0].full_windows()
                        &&& self@[j].has_rest() == self@[0].has_rest()
                    },
            decreases N - i,
        {
            if !self[i].can_split(padded) || self[i].count_windows() != windows || self[i].leaves_rest()
                != more {
                return false;
            }
            i += 1;
        }
        true
    }

    fn count_windows(&self) -> (n: usize) {
        self[0].count_windows()
    }

    fn leaves_rest(&self) -> (more: bool) {
        self[0].leaves_rest()
    }

    open spec fn created(
        self,
        pad: Option<[T::Padding; N]>,
        vectorizer: [T::Vectorizer; N],
        tail: Option<[TR; N]>,
    ) -> bool {
        forall|i: int|
            0 <= i < N ==> (#[trigger] self@[i]).created(part(pad, i), vectorizer@[i], part(tail, i))
    }

    fn create(self, pad: Option<[T::Padding; N]>) -> (r: ([T::Vectorizer; N], usize, Option<[TR; N]>)) {
        let first_pad = match pad {
            Some(p) => Some(p[0]),
            None => None,
        };
        assert(self@[0].splits(pad is Some));
        let (first, len, first_tail) = self[0].create(first_pad);
        let mut vectorizers = [first;N];
        let mut tails = match first_tail {
            Some(t) => Some([t;N]),
            None => None,
        };
        let mut i: usize = 1;
        while i < N
            invariant
                1 <= i <= N,
                <Self as Vectorizable<[TR; N]>>::splits(&self, pad is Some),
                len == self@[0].full_windows(),
                tails is Some <==> pad is Some && self@[0].has_rest(),
                forall|j: int|
                    0 <= j < i ==> {
                        &&& (#[trigger] vectorizers@[j]).wf()
                        &&& vectorizers@[j].lo() == 0
                        &&& vectorizers@[j].hi() == len
                        &&& self@[j].created(part(pad, j), vectorizers@[j], part(tails, j))
                    },
            decreases N - i,
        {
            let my_pad = match pad {
                Some(p) => Some(p[i]),
                None => None,
            };
            assert(self@[i as int].splits(pad is Some));
            let (vectorizer, _len, tail) = self[i].create(my_pad);
            vectorizers[i] = vectorizer;
            tails = match (tails, tail) {
                (Some(ts), Some(t)) => {
                    let mut ts = ts;
                    ts[i] = t;
                    Some(ts)
                },
                _ => None,
            };
            i += 1;
        }
        assert(<[T::Vectorizer; N] as Vectorizer<[TR; N]>>::wf(&vectorizers));
        assert(<[T::Vectorizer; N] as Vectorizer<[TR; N]>>::lo(&vectorizers) == 0);
        assert(<[T::Vectorizer; N] as Vectorizer<[TR; N]>>::hi(&vectorizers) == len);
        assert(tails is Some <==> pad is Some && <Self as Vectorizable<[TR; N]>>::has_rest(&self));
        (vectorizers, len, tails)
    }
}

} // verus!
