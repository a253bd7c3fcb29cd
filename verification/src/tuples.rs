//! Tuples of inputs that are vectorized side by side.

use vstd::prelude::*;
use crate::iterators::{Vectorizable, Vectorizer};

verus! {

impl<
    A: Vectorizer<AR>,
    B: Vectorizer<BR>,
    AR,
    BR,
> Vectorizer<(AR, BR)> for (A, B) {
    open spec fn wf(&self) -> bool {
        &&& self.0.wf()
        &&& self.1.wf()
        &&& self.1.lo() == self.0.lo()
        &&& self.1.hi() == self.0.hi()
    }

    open spec fn lo(&self) -> nat {
        self.0.lo()
    }

    open spec fn hi(&self) -> nat {
        self.0.hi()
    }

    open spec fn step(pre: Self, idx: nat, item: (AR, BR), post: Self) -> bool {
        &&& A::step(pre.0, idx, item.0, post.0)
        &&& B::step(pre.1, idx, item.1, post.1)
    }

    fn get(&mut self, idx: usize) -> (r: (AR, BR)) {
        (self.0.get(idx), self.1.get(idx))
    }
}

impl<
    A: Vectorizable<AR>,
    B: Vectorizable<BR>,
    AR,
    BR,
> Vectorizable<(AR, BR)> for (A, B) {
    type Padding = (A::Padding, B::Padding);

    type Vectorizer = (A::Vectorizer, B::Vectorizer);

    open spec fn splits(&self, padded: bool) -> bool {
        &&& self.0.splits(padded)
        &&& self.1.splits(padded)
        &&& self.1.full_windows() == self.0.full_windows()
        &&& self.1.has_rest() == self.0.has_rest()
    }

    open spec fn full_windows(&self) -> nat {
        self.0.full_windows()
    }

    open spec fn has_rest(&self) -> bool {
        self.0.has_rest()
    }

    fn can_split(&self, padded: bool) -> (ok: bool) {
        if !self.0.can_split(padded) {
            return false;
        }
        let windows = self.0.count_windows();
        let more = self.0.leaves_rest();
        if !self.1.can_split(padded) || self.1.count_windows() != windows
            || self.1.leaves_rest() != more {
            return false;
        }
        true
    }

    fn count_windows(&self) -> (n: usize) {
        self.0.count_windows()
    }

    fn leaves_rest(&self) -> (more: bool) {
        self.0.leaves_rest()
    }

    open spec fn created(
        self,
        pad: Option<(A::Padding, B::Padding)>,
        vectorizer: (A::Vectorizer, B::Vectorizer),
        tail: Option<(AR, BR)>,
    ) -> bool {
        &&& self.0.created(
            match pad {
                Some(p) => Some(p.0),
                None => None,
            },
            vectorizer.0,
            match tail {
                Some(t) => Some(t.0),
                None => None,
            },
        )
        &&& self.1.created(
            match pad {
                Some(p) => Some(p.1),
                None => None,
            },
            vectorizer.1,
            match tail {
                Some(t) => Some(t.1),
                None => None,
            },
        )
    }

    fn create(self, pad: Option<(A::Padding, B::Padding)>) -> (r: (
        (A::Vectorizer, B::Vectorizer),
        usize,
        Option<(AR, BR)>,
    )) {
        let (me_a, me_b) = self;
        let (pad_a, pad_b) = match pad {
            Some((pad_a, pad_b)) => (Some(pad_a), Some(pad_b)),
            None => (None, None),
        };
        let (vectorizer_a, len_a, tail_a) = me_a.create(pad_a);
        let (vectorizer_b, len_b, tail_b) = me_b.create(pad_b);
        let tail = match (tail_a, tail_b) {
            (Some(t_a), Some(t_b)) => Some((t_a, t_b)),
            _ => None,
        };
        let vectorizer = (vectorizer_a, vectorizer_b);
        assert(<Self::Vectorizer as Vectorizer<(AR, BR)>>::wf(&vectorizer));
        assert(<Self::Vectorizer as Vectorizer<(AR, BR)>>::lo(&vectorizer) == 0);
        assert(<Self::Vectorizer as Vectorizer<(AR, BR)>>::hi(&vectorizer) == len_a);
        assert(<Self as Vectorizable<(AR, BR)>>::has_rest(&self) == self.0.has_rest());
        (vectorizer, len_a, tail)
    }
}

impl<
    A: Vectorizer<AR>,
    B: Vectorizer<BR>,
    C: Vectorizer<CR>,
    AR,
    BR,
    CR,
> Vectorizer<(AR, BR, CR)> for (A, B, C) {
    open spec fn wf(&self) -> bool {
        &&& self.0.wf()
        &&& self.1.wf()
        &&& self.2.wf()
        &&& self.1.lo() == self.0.lo()
        &&& self.1.hi() == self.0.hi()
        &&& self.2.lo() == self.0.lo()
        &&& self.2.hi() == self.0.hi()
    }

    open spec fn lo(&self) -> nat {
        self.0.lo()
    }

    open spec fn hi(&self) -> nat {
        self.0.hi()
    }

    open spec fn step(pre: Self, idx: nat, item: (AR, BR, CR), post: Self) -> bool {
        &&& A::step(pre.0, idx, item.0, post.0)
        &&& B::step(pre.1, idx, item.1, post.1)
        &&& C::step(pre.2, idx, item.2, post.2)
    }

    fn get(&mut self, idx: usize) -> (r: (AR, BR, CR)) {
        (self.0.get(idx), self.1.get(idx), self.2.get(idx))
    }
}

impl<
    A: Vectorizable<AR>,
    B: Vectorizable<BR>,
    C: Vectorizable<CR>,
    AR,
    BR,
    CR,
> Vectorizable<(AR, BR, CR)> for (A, B, C) {
    type Padding = (A::Padding, B::Padding, C::Padding);

    type Vectorizer = (A::Vectorizer, B::Vectorizer, C::Vectorizer);

    open spec fn splits(&self, padded: bool) -> bool {
        &&& self.0.splits(padded)
        &&& self.1.splits(padded)
        &&& self.2.splits(padded)
        &&& self.1.full_windows() == self.0.full_windows()
        &&& self.1.has_rest() == self.0.has_rest()
        &&& self.2.full_windows() == self.0.full_windows()
        &&& self.2.has_rest() == self.0.has_rest()
    }

    open spec fn full_windows(&self) -> nat {
        self.0.full_windows()
    }

    open spec fn has_rest(&self) -> bool {
        self.0.has_rest()
    }

    fn can_split(&self, padded: bool) -> (ok: bool) {
        if !self.0.can_split(padded) {
            return false;
        }
        let windows = self.0.count_windows();
        let more = self.0.leaves_rest();
        if !self.1.can_split(padded) || self.1.count_windows() != windows
            || self.1.leaves_rest() != more {
            return false;
        }
        if !self.2.can_split(padded) || self.2.count_windows() != windows
            || self.2.leaves_rest() != more {
            return false;
        }
        true
    }

    fn count_windows(&self) -> (n: usize) {
        self.0.count_windows()
    }

    fn leaves_rest(&self) -> (more: bool) {
        self.0.leaves_rest()
    }

    open spec fn created(
        self,
        pad: Option<(A::Padding, B::Padding, C::Padding)>,
        vectorizer: (A::Vectorizer, B::Vectorizer, C::Vectorizer),
        tail: Option<(AR, BR, CR)>,
    ) -> bool {
        &&& self.0.created(
            match pad {
                Some(p) => Some(p.0),
                None => None,
            },
            vectorizer.0,
            match tail {
                Some(t) => Some(t.0),
                None => None,
            },
        )
        &&& self.1.created(
            match pad {
                Some(p) => Some(p.1),
                None => None,
            },
            vectorizer.1,
            match tail {
                Some(t) => Some(t.1),
                None => None,
            },
        )
        &&& self.2.created(
            match pad {
                Some(p) => Some(p.2),
                None => None,
            },
            vectorizer.2,
            match tail {
                Some(t) => Some(t.2),
                None => None,
            },
        )
    }

    fn create(self, pad: Option<(A::Padding, B::Padding, C::Padding)>) -> (r: (
        (A::Vectorizer, B::Vectorizer, C::Vectorizer),
        usize,
        Option<(AR, BR, CR)>,
    )) {
        let (me_a, me_b, me_c) = self;
        let (pad_a, pad_b, pad_c) = match pad {
            Some((pad_a, pad_b, pad_c)) => (Some(pad_a), Some(pad_b), Some(pad_c)),
            None => (None, None, None),
        };
        let (vectorizer_a, len_a, tail_a) = me_a.create(pad_a);
        let (vectorizer_b, len_b, tail_b) = me_b.create(pad_b);
        let (vectorizer_c, len_c, tail_c) = me_c.create(pad_c);
        let tail = match (tail_a, tail_b, tail_c) {
            (Some(t_a), Some(t_b), Some(t_c)) => Some((t_a, t_b, t_c)),
            _ => None,
        };
        let vectorizer = (vectorizer_a, vectorizer_b, vectorizer_c);
        assert(<Self::Vectorizer as Vectorizer<(AR, BR, CR)>>::wf(&vectorizer));
        assert(<Self::Vectorizer as Vectorizer<(AR, BR, CR)>>::lo(&vectorizer) == 0);
        assert(<Self::Vectorizer as Vectorizer<(AR, BR, CR)>>::hi(&vectorizer) == len_a);
        assert(<Self as Vectorizable<(AR, BR, CR)>>::has_rest(&self) == self.0.has_rest());
        (vectorizer, len_a, tail)
    }
}

impl<
    A: Vectorizer<AR>,
    B: Vectorizer<BR>,
    C: Vectorizer<CR>,
    D: Vectorizer<DR>,
    AR,
    BR,
    CR,
    DR,
> Vectorizer<(AR, BR, CR, DR)> for (A, B, C, D) {
    open spec fn wf(&self) -> bool {
        &&& self.0.wf()
        &&& self.1.wf()
        &&& self.2.wf()
        &&& self.3.wf()
        &&& self.1.lo() == self.0.lo()
        &&& self.1.hi() == self.0.hi()
        &&& self.2.lo() == self.0.lo()
        &&& self.2.hi() == self.0.hi()
        &&& self.3.lo() == self.0.lo()
        &&& self.3.hi() == self.0.hi()
    }

    open spec fn lo(&self) -> nat {
        self.0.lo()
    }

    open spec fn hi(&self) -> nat {
        self.0.hi()
    }

    open spec fn step(pre: Self, idx: nat, item: (AR, BR, CR, DR), post: Self) -> bool {
        &&& A::step(pre.0, idx, item.0, post.0)
        &&& B::step(pre.1, idx, item.1, post.1)
        &&& C::step(pre.2, idx, item.2, post.2)
        &&& D::step(pre.3, idx, item.3, post.3)
    }

    fn get(&mut self, idx: usize) -> (r: (AR, BR, CR, DR)) {
        (self.0.get(idx), self.1.get(idx), self.2.get(idx), self.3.get(idx))
    }
}

impl<
    A: Vectorizable<AR>,
    B: Vectorizable<BR>,
    C: Vectorizable<CR>,
    D: Vectorizable<DR>,
    AR,
    BR,
    CR,
    DR,
> Vectorizable<(AR, BR, CR, DR)> for (A, B, C, D) {
    type Padding = (A::Padding, B::Padding, C::Padding, D::Padding);

    type Vectorizer = (A::Vectorizer, B::Vectorizer, C::Vectorizer, D::Vectorizer);

    open spec fn splits(&self, padded: bool) -> bool {
        &&& self.0.splits(padded)
        &&& self.1.splits(padded)
        &&& self.2.splits(padded)
        &&& self.3.splits(padded)
        &&& self.1.full_windows() == self.0.full_windows()
        &&& self.1.has_rest() == self.0.has_rest()
        &&& self.2.full_windows() == self.0.full_windows()
        &&& self.2.has_rest() == self.0.has_rest()
        &&& self.3.full_windows() == self.0.full_windows()
        &&& self.3.has_rest() == self.0.has_rest()
    }

    open spec fn full_windows(&self) -> nat {
        self.0.full_windows()
    }

    open spec fn has_rest(&self) -> bool {
        self.0.has_rest()
    }

    fn can_split(&self, padded: bool) -> (ok: bool) {
        if !self.0.can_split(padded) {
            return false;
        }
        let windows = self.0.count_windows();
        let more = self.0.leaves_rest();
        if !self.1.can_split(padded) || self.1.count_windows() != windows
            || self.1.leaves_rest() != more {
            return false;
        }
        if !self.2.can_split(padded) || self.2.count_windows() != windows
            || self.2.leaves_rest() != more {
            return false;
        }
        if !self.3.can_split(padded) || self.3.count_windows() != windows
            || self.3.leaves_rest() != more {
            return false;
        }
        true
    }

    fn count_windows(&self) -> (n: usize) {
        self.0.count_windows()
    }

    fn leaves_rest(&self) -> (more: bool) {
        self.0.leaves_rest()
    }

    open spec fn created(
        self,
        pad: Option<(A::Padding, B::Padding, C::Padding, D::Padding)>,
        vectorizer: (A::Vectorizer, B::Vectorizer, C::Vectorizer, D::Vectorizer),
        tail: Option<(AR, BR, CR, DR)>,
    ) -> bool {
        &&& self.0.created(
            match pad {
                Some(p) => Some(p.0),
                None => None,
            },
            vectorizer.0,
            match tail {
                Some(t) => Some(t.0),
                None => None,
            },
        )
        &&& self.1.created(
            match pad {
                Some(p) => Some(p.1),
                None => None,
            },
            vectorizer.1,
            match tail {
                Some(t) => Some(t.1),
                None => None,
            },
        )
        &&& self.2.created(
            match pad {
                Some(p) => Some(p.2),
                None => None,
            },
            vectorizer.2,
            match tail {
                Some(t) => Some(t.2),
                None => None,
            },
        )
        &&& self.3.created(
            match pad {
                Some(p) => Some(p.3),
                None => None,
            },
            vectorizer.3,
            match tail {
                Some(t) => Some(t.3),
                None => None,
            },
        )
    }

    fn create(self, pad: Option<(A::Padding, B::Padding, C::Padding, D::Padding)>) -> (r: (
        (A::Vectorizer, B::Vectorizer, C::Vectorizer, D::Vectorizer),
        usize,
        Option<(AR, BR, CR, DR)>,
    )) {
        let (me_a, me_b, me_c, me_d) = self;
        let (pad_a, pad_b, pad_c, pad_d) = match pad {
            Some((pad_a, pad_b, pad_c, pad_d)) => (Some(pad_a), Some(pad_b), Some(pad_c), Some(pad_d)),
            None => (None, None, None, None),
        };
        let (vectorizer_a, len_a, tail_a) = me_a.create(pad_a);
        let (vectorizer_b, len_b, tail_b) = me_b.create(pad_b);
        let (vectorizer_c, len_c, tail_c) = me_c.create(pad_c);
        let (vectorizer_d, len_d, tail_d) = me_d.create(pad_d);
        let tail = match (tail_a, tail_b, tail_c, tail_d) {
            (Some(t_a), Some(t_b), Some(t_c), Some(t_d)) => Some((t_a, t_b, t_c, t_d)),
            _ => None,
        };
        let vectorizer = (vectorizer_a, vectorizer_b, vectorizer_c, vectorizer_d);
        assert(<Self::Vectorizer as Vectorizer<(AR, BR, CR, DR)>>::wf(&vectorizer));
        assert(<Self::Vectorizer as Vectorizer<(AR, BR, CR, DR)>>::lo(&vectorizer) == 0);
        assert(<Self::Vectorizer as Vectorizer<(AR, BR, CR, DR)>>::hi(&vectorizer) == len_a);
        assert(<Self as Vectorizable<(AR, BR, CR, DR)>>::has_rest(&self) == self.0.has_rest());
        (vectorizer, len_a, tail)
    }
}

impl<
    A: Vectorizer<AR>,
    B: Vectorizer<BR>,
    C: Vectorizer<CR>,
    D: Vectorizer<DR>,
    E: Vectorizer<ER>,
    AR,
    BR,
    CR,
    DR,
    ER,
> Vectorizer<(AR, BR, CR, DR, ER)> for (A, B, C, D, E) {
    open spec fn wf(&self) -> bool {
        &&& self.0.wf()
        &&& self.1.wf()
        &&& self.2.wf()
        &&& self.3.wf()
        &&& self.4.wf()
        &&& self.1.lo() == self.0.lo()
        &&& self.1.hi() == self.0.hi()
        &&& self.2.lo() == self.0.lo()
        &&& self.2.hi() == self.0.hi()
        &&& self.3.lo() == self.0.lo()
        &&& self.3.hi() == self.0.hi()
        &&& self.4.lo() == self.0.lo()
        &&& self.4.hi() == self.0.hi()
    }

    open spec fn lo(&self) -> nat {
        self.0.lo()
    }

    open spec fn hi(&self) -> nat {
        self.0.hi()
    }

    open spec fn step(pre: Self, idx: nat, item: (AR, BR, CR, DR, ER), post: Self) -> bool {
        &&& A::step(pre.0, idx, item.0, post.0)
        &&& B::step(pre.1, idx, item.1, post.1)
        &&& C::step(pre.2, idx, item.2, post.2)
        &&& D::step(pre.3, idx, item.3, post.3)
        &&& E::step(pre.4, idx, item.4, post.4)
    }

    fn get(&mut self, idx: usize) -> (r: (AR, BR, CR, DR, ER)) {
        (self.0.get(idx), self.1.get(idx), self.2.get(idx), self.3.get(idx), self.4.get(idx))
    }
}

impl<
    A: Vectorizable<AR>,
    B: Vectorizable<BR>,
    C: Vectorizable<CR>,
    D: Vectorizable<DR>,
    E: Vectorizable<ER>,
    AR,
    BR,
    CR,
    DR,
    ER,
> Vectorizable<(AR, BR, CR, DR, ER)> for (A, B, C, D, E) {
    type Padding = (A::Padding, B::Padding, C::Padding, D::Padding, E::Padding);

    type Vectorizer = (A::Vectorizer, B::Vectorizer, C::Vectorizer, D::Vectorizer, E::Vectorizer);

    open spec fn splits(&self, padded: bool) -> bool {
        &&& self.0.splits(padded)
        &&& self.1.splits(padded)
        &&& self.2.splits(padded)
        &&& self.3.splits(padded)
        &&& self.4.splits(padded)
        &&& self.1.full_windows() == self.0.full_windows()
        &&& self.1.has_rest() == self.0.has_rest()
        &&& self.2.full_windows() == self.0.full_windows()
        &&& self.2.has_rest() == self.0.has_rest()
        &&& self.3.full_windows() == self.0.full_windows()
        &&& self.3.has_rest() == self.0.has_rest()
        &&& self.4.full_windows() == self.0.full_windows()
        &&& self.4.has_rest() == self.0.has_rest()
    }

    open spec fn full_windows(&self) -> nat {
        self.0.full_windows()
    }

    open spec fn has_rest(&self) -> bool {
        self.0.has_rest()
    }

    fn can_split(&self, padded: bool) -> (ok: bool) {
        if !self.0.can_split(padded) {
            return false;
        }
        let windows = self.0.count_windows();
        let more = self.0.leaves_rest();
        if !self.1.can_split(padded) || self.1.count_windows() != windows
            || self.1.leaves_rest() != more {
            return false;
        }
        if !self.2.can_split(padded) || self.2.count_windows() != windows
            || self.2.leaves_rest() != more {
            return false;
        }
        if !self.3.can_split(padded) || self.3.count_windows() != windows
            || self.3.leaves_rest() != more {
            return false;
        }
        if !self.4.can_split(padded) || self.4.count_windows() != windows
            || self.4.leaves_rest() != more {
            return false;
        }
        true
    }

    fn count_windows(&self) -> (n: usize) {
        self.0.count_windows()
    }

    fn leaves_rest(&self) -> (more: bool) {
        self.0.leaves_rest()
    }

    open spec fn created(
        self,
        pad: Option<(A::Padding, B::Padding, C::Padding, D::Padding, E::Padding)>,
        vectorizer: (A::Vectorizer, B::Vectorizer, C::Vectorizer, D::Vectorizer, E::Vectorizer),
        tail: Option<(AR, BR, CR, DR, ER)>,
    ) -> bool {
        &&& self.0.created(
            match pad {
                Some(p) => Some(p.0),
                None => None,
            },
            vectorizer.0,
            match tail {
                Some(t) => Some(t.0),
                None => None,
            },
        )
        &&& self.1.created(
            match pad {
                Some(p) => Some(p.1),
                None => None,
            },
            vectorizer.1,
            match tail {
                Some(t) => Some(t.1),
                None => None,
            },
        )
        &&& self.2.created(
            match pad {
                Some(p) => Some(p.2),
                None => None,
            },
            vectorizer.2,
            match tail {
                Some(t) => Some(t.2),
                None => None,
            },
        )
        &&& self.3.created(
            match pad {
                Some(p) => Some(p.3),
                None => None,
            },
            vectorizer.3,
            match tail {
                Some(t) => Some(t.3),
                None => None,
            },
        )
        &&& self.4.created(
            match pad {
                Some(p) => Some(p.4),
                None => None,
            },
            vectorizer.4,
            match tail {
                Some(t) => Some(t.4),
                None => None,
            },
        )
    }

    fn create(self, pad: Option<(A::Padding, B::Padding, C::Padding, D::Padding, E::Padding)>) -> (r: (
        (A::Vectorizer, B::Vectorizer, C::Vectorizer, D::Vectorizer, E::Vectorizer),
        usize,
        Option<(AR, BR, CR, DR, ER)>,
    )) {
        let (me_a, me_b, me_c, me_d, me_e) = self;
        let (pad_a, pad_b, pad_c, pad_d, pad_e) = match pad {
            Some((pad_a, pad_b, pad_c, pad_d, pad_e)) => (Some(pad_a), Some(pad_b), Some(pad_c), Some(pad_d), Some(pad_e)),
            None => (None, None, None, None, None),
        };
        let (vectorizer_a, len_a, tail_a) = me_a.create(pad_a);
        let (vectorizer_b, len_b, tail_b) = me_b.create(pad_b);
        let (vectorizer_c, len_c, tail_c) = me_c.create(pad_c);
        let (vectorizer_d, len_d, tail_d) = me_d.create(pad_d);
        let (vectorizer_e, len_e, tail_e) = me_e.create(pad_e);
        let tail = match (tail_a, tail_b, tail_c, tail_d, tail_e) {
            (Some(t_a), Some(t_b), Some(t_c), Some(t_d), Some(t_e)) => Some((t_a, t_b, t_c, t_d, t_e)),
            _ => None,
        };
        let vectorizer = (vectorizer_a, vectorizer_b, vectorizer_c, vectorizer_d, vectorizer_e);
        assert(<Self::Vectorizer as Vectorizer<(AR, BR, CR, DR, ER)>>::wf(&vectorizer));
        assert(<Self::Vectorizer as Vectorizer<(AR, BR, CR, DR, ER)>>::lo(&vectorizer) == 0);
        assert(<Self::Vectorizer as Vectorizer<(AR, BR, CR, DR, ER)>>::hi(&vectorizer) == len_a);
        assert(<Self as Vectorizable<(AR, BR, CR, DR, ER)>>::has_rest(&self) == self.0.has_rest());
        (vectorizer, len_a, tail)
    }
}

impl<
    A: Vectorizer<AR>,
    B: Vectorizer<BR>,
    C: Vectorizer<CR>,
    D: Vectorizer<DR>,
    E: Vectorizer<ER>,
    F: Vectorizer<FR>,
    AR,
    BR,
    CR,
    DR,
    ER,
    FR,
> Vectorizer<(AR, BR, CR, DR, ER, FR)> for (A, B, C, D, E, F) {
    open spec fn wf(&self) -> bool {
        &&& self.0.wf()
        &&& self.1.wf()
        &&& self.2.wf()
        &&& self.3.wf()
        &&& self.4.wf()
        &&& self.5.wf()
        &&& self.1.lo() == self.0.lo()
        &&& self.1.hi() == self.0.hi()
        &&& self.2.lo() == self.0.lo()
        &&& self.2.hi() == self.0.hi()
        &&& self.3.lo() == self.0.lo()
        &&& self.3.hi() == self.0.hi()
        &&& self.4.lo() == self.0.lo()
        &&& self.4.hi() == self.0.hi()
        &&& self.5.lo() == self.0.lo()
        &&& self.5.hi() == self.0.hi()
    }

    open spec fn lo(&self) -> nat {
        self.0.lo()
    }

    open spec fn hi(&self) -> nat {
        self.0.hi()
    }

    open spec fn step(pre: Self, idx: nat, item: (AR, BR, CR, DR, ER, FR), post: Self) -> bool {
        &&& A::step(pre.0, idx, item.0, post.0)
        &&& B::step(pre.1, idx, item.1, post.1)
        &&& C::step(pre.2, idx, item.2, post.2)
        &&& D::step(pre.3, idx, item.3, post.3)
        &&& E::step(pre.4, idx, item.4, post.4)
        &&& F::step(pre.5, idx, item.5, post.5)
    }

    fn get(&mut self, idx: usize) -> (r: (AR, BR, CR, DR, ER, FR)) {
        (self.0.get(idx), self.1.get(idx), self.2.get(idx), self.3.get(idx), self.4.get(idx), self.5.get(idx))
    }
}

impl<
    A: Vectorizable<AR>,
    B: Vectorizable<BR>,
    C: Vectorizable<CR>,
    D: Vectorizable<DR>,
    E: Vectorizable<ER>,
    F: Vectorizable<FR>,
    AR,
    BR,
    CR,
    DR,
    ER,
    FR,
> Vectorizable<(AR, BR, CR, DR, ER, FR)> for (A, B, C, D, E, F) {
    type Padding = (A::Padding, B::Padding, C::Padding, D::Padding, E::Padding, F::Padding);

    type Vectorizer = (A::Vectorizer, B::Vectorizer, C::Vectorizer, D::Vectorizer, E::Vectorizer, F::Vectorizer);

    open spec fn splits(&self, padded: bool) -> bool {
        &&& self.0.splits(padded)
        &&& self.1.splits(padded)
        &&& self.2.splits(padded)
        &&& self.3.splits(padded)
        &&& self.4.splits(padded)
        &&& self.5.splits(padded)
        &&& self.1.full_windows() == self.0.full_windows()
        &&& self.1.has_rest() == self.0.has_rest()
        &&& self.2.full_windows() == self.0.full_windows()
        &&& self.2.has_rest() == self.0.has_rest()
        &&& self.3.full_windows() == self.0.full_windows()
        &&& self.3.has_rest() == self.0.has_rest()
        &&& self.4.full_windows() == self.0.full_windows()
        &&& self.4.has_rest() == self.0.has_rest()
        &&& self.5.full_windows() == self.0.full_windows()
        &&& self.5.has_rest() == self.0.has_rest()
    }

    open spec fn full_windows(&self) -> nat {
        self.0.full_windows()
    }

    open spec fn has_rest(&self) -> bool {
        self.0.has_rest()
    }

    fn can_split(&self, padded: bool) -> (ok: bool) {
        if !self.0.can_split(padded) {
            return false;
        }
        let windows = self.0.count_windows();
        let more = self.0.leaves_rest();
        if !self.1.can_split(padded) || self.1.count_windows() != windows
            || self.1.leaves_rest() != more {
            return false;
        }
        if !self.2.can_split(padded) || self.2.count_windows() != windows
            || self.2.leaves_rest() != more {
            return false;
        }
        if !self.3.can_split(padded) || self.3.count_windows() != windows
            || self.3.leaves_rest() != more {
            return false;
        }
        if !self.4.can_split(padded) || self.4.count_windows() != windows
            || self.4.leaves_rest() != more {
            return false;
        }
        if !self.5.can_split(padded) || self.5.count_windows() != windows
            || self.5.leaves_rest() != more {
            return false;
        }
        true
    }

    fn count_windows(&self) -> (n: usize) {
        self.0.count_windows()
    }

    fn leaves_rest(&self) -> (more: bool) {
        self.0.leaves_rest()
    }

    open spec fn created(
        self,
        pad: Option<(A::Padding, B::Padding, C::Padding, D::Padding, E::Padding, F::Padding)>,
        vectorizer: (A::Vectorizer, B::Vectorizer, C::Vectorizer, D::Vectorizer, E::Vectorizer, F::Vectorizer),
        tail: Option<(AR, BR, CR, DR, ER, FR)>,
    ) -> bool {
        &&& self.0.created(
            match pad {
                Some(p) => Some(p.0),
                None => None,
            },
            vectorizer.0,
            match tail {
                Some(t) => Some(t.0),
                None => None,
            },
        )
        &&& self.1.created(
            match pad {
                Some(p) => Some(p.1),
                None => None,
            },
            vectorizer.1,
            match tail {
                Some(t) => Some(t.1),
                None => None,
            },
        )
        &&& self.2.created(
            match pad {
                Some(p) => Some(p.2),
                None => None,
            },
            vectorizer.2,
            match tail {
                Some(t) => Some(t.2),
                None => None,
            },
        )
        &&& self.3.created(
            match pad {
                Some(p) => Some(p.3),
                None => None,
            },
            vectorizer.3,
            match tail {
                Some(t) => Some(t.3),
                None => None,
            },
        )
        &&& self.4.created(
            match pad {
                Some(p) => Some(p.4),
                None => None,
            },
            vectorizer.4,
            match tail {
                Some(t) => Some(t.4),
                None => None,
            },
        )
        &&& self.5.created(
            match pad {
                Some(p) => Some(p.5),
                None => None,
            },
            vectorizer.5,
            match tail {
                Some(t) => Some(t.5),
                None => None,
            },
        )
    }

    fn create(self, pad: Option<(A::Padding, B::Padding, C::Padding, D::Padding, E::Padding, F::Padding)>) -> (r: (
        (A::Vectorizer, B::Vectorizer, C::Vectorizer, D::Vectorizer, E::Vectorizer, F::Vectorizer),
        usize,
        Option<(AR, BR, CR, DR, ER, FR)>,
    )) {
        let (me_a, me_b, me_c, me_d, me_e, me_f) = self;
        let (pad_a, pad_b, pad_c, pad_d, pad_e, pad_f) = match pad {
            Some((pad_a, pad_b, pad_c, pad_d, pad_e, pad_f)) => (Some(pad_a), Some(pad_b), Some(pad_c), Some(pad_d), Some(pad_e), Some(pad_f)),
            None => (None, None, None, None, None, None),
        };
        let (vectorizer_a, len_a, tail_a) = me_a.create(pad_a);
        let (vectorizer_b, len_b, tail_b) = me_b.create(pad_b);
        let (vectorizer_c, len_c, tail_c) = me_c.create(pad_c);
        let (vectorizer_d, len_d, tail_d) = me_d.create(pad_d);
        let (vectorizer_e, len_e, tail_e) = me_e.create(pad_e);
        let (vectorizer_f, len_f, tail_f) = me_f.create(pad_f);
        let tail = match (tail_a, tail_b, tail_c, tail_d, tail_e, tail_f) {
            (Some(t_a), Some(t_b), Some(t_c), Some(t_d), Some(t_e), Some(t_f)) => Some((t_a, t_b, t_c, t_d, t_e, t_f)),
            _ => None,
        };
        let vectorizer = (vectorizer_a, vectorizer_b, vectorizer_c, vectorizer_d, vectorizer_e, vectorizer_f);
        assert(<Self::Vectorizer as Vectorizer<(AR, BR, CR, DR, ER, FR)>>::wf(&vectorizer));
        assert(<Self::Vectorizer as Vectorizer<(AR, BR, CR, DR, ER, FR)>>::lo(&vectorizer) == 0);
        assert(<Self::Vectorizer as Vectorizer<(AR, BR, CR, DR, ER, FR)>>::hi(&vectorizer) == len_a);
        assert(<Self as Vectorizable<(AR, BR, CR, DR, ER, FR)>>::has_rest(&self) == self.0.has_rest());
        (vectorizer, len_a, tail)
    }
}

impl<
    A: Vectorizer<AR>,
    B: Vectorizer<BR>,
    C: Vectorizer<CR>,
    D: Vectorizer<DR>,
    E: Vectorizer<ER>,
    F: Vectorizer<FR>,
    G: Vectorizer<GR>,
    AR,
    BR,
    CR,
    DR,
    ER,
    FR,
    GR,
> Vectorizer<(AR, BR, CR, DR, ER, FR, GR)> for (A, B, C, D, E, F, G) {
    open spec fn wf(&self) -> bool {
        &&& self.0.wf()
        &&& self.1.wf()
        &&& self.2.wf()
        &&& self.3.wf()
        &&& self.4.wf()
        &&& self.5.wf()
        &&& self.6.wf()
        &&& self.1.lo() == self.0.lo()
        &&& self.1.hi() == self.0.hi()
        &&& self.2.lo() == self.0.lo()
        &&& self.2.hi() == self.0.hi()
        &&& self.3.lo() == self.0.lo()
        &&& self.3.hi() == self.0.hi()
        &&& self.4.lo() == self.0.lo()
        &&& self.4.hi() == self.0.hi()
        &&& self.5.lo() == self.0.lo()
        &&& self.5.hi() == self.0.hi()
        &&& self.6.lo() == self.0.lo()
        &&& self.6.hi() == self.0.hi()
    }

    open spec fn lo(&self) -> nat {
        self.0.lo()
    }

    open spec fn hi(&self) -> nat {
        self.0.hi()
    }

    open spec fn step(pre: Self, idx: nat, item: (AR, BR, CR, DR, ER, FR, GR), post: Self) -> bool {
        &&& A::step(pre.0, idx, item.0, post.0)
        &&& B::step(pre.1, idx, item.1, post.1)
        &&& C::step(pre.2, idx, item.2, post.2)
        &&& D::step(pre.3, idx, item.3, post.3)
        &&& E::step(pre.4, idx, item.4, post.4)
        &&& F::step(pre.5, idx, item.5, post.5)
        &&& G::step(pre.6, idx, item.6, post.6)
    }

    fn get(&mut self, idx: usize) -> (r: (AR, BR, CR, DR, ER, FR, GR)) {
        (self.0.get(idx), self.1.get(idx), self.2.get(idx), self.3.get(idx), self.4.get(idx), self.5.get(idx), self.6.get(idx))
    }
}

impl<
    A: Vectorizable<AR>,
    B: Vectorizable<BR>,
    C: Vectorizable<CR>,
    D: Vectorizable<DR>,
    E: Vectorizable<ER>,
    F: Vectorizable<FR>,
    G: Vectorizable<GR>,
    AR,
    BR,
    CR,
    DR,
    ER,
    FR,
    GR,
> Vectorizable<(AR, BR, CR, DR, ER, FR, GR)> for (A, B, C, D, E, F, G) {
    type Padding = (A::Padding, B::Padding, C::Padding, D::Padding, E::Padding, F::Padding, G::Padding);

    type Vectorizer = (A::Vectorizer, B::Vectorizer, C::Vectorizer, D::Vectorizer, E::Vectorizer, F::Vectorizer, G::Vectorizer);

    open spec fn splits(&self, padded: bool) -> bool {
        &&& self.0.splits(padded)
        &&& self.1.splits(padded)
        &&& self.2.splits(padded)
        &&& self.3.splits(padded)
        &&& self.4.splits(padded)
        &&& self.5.splits(padded)
        &&& self.6.splits(padded)
        &&& self.1.full_windows() == self.0.full_windows()
        &&& self.1.has_rest() == self.0.has_rest()
        &&& self.2.full_windows() == self.0.full_windows()
        &&& self.2.has_rest() == self.0.has_rest()
        &&& self.3.full_windows() == self.0.full_windows()
        &&& self.3.has_rest() == self.0.has_rest()
        &&& self.4.full_windows() == self.0.full_windows()
        &&& self.4.has_rest() == self.0.has_rest()
        &&& self.5.full_windows() == self.0.full_windows()
        &&& self.5.has_rest() == self.0.has_rest()
        &&& self.6.full_windows() == self.0.full_windows()
        &&& self.6.has_rest() == self.0.has_rest()
    }

    open spec fn full_windows(&self) -> nat {
        self.0.full_windows()
    }

    open spec fn has_rest(&self) -> bool {
        self.0.has_rest()
    }

    fn can_split(&self, padded: bool) -> (ok: bool) {
        if !self.0.can_split(padded) {
            return false;
        }
        let windows = self.0.count_windows();
        let more = self.0.leaves_rest();
        if !self.1.can_split(padded) || self.1.count_windows() != windows
            || self.1.leaves_rest() != more {
            return false;
        }
        if !self.2.can_split(padded) || self.2.count_windows() != windows
            || self.2.leaves_rest() != more {
            return false;
        }
        if !self.3.can_split(padded) || self.3.count_windows() != windows
            || self.3.leaves_rest() != more {
            return false;
        }
        if !self.4.can_split(padded) || self.4.count_windows() != windows
            || self.4.leaves_rest() != more {
            return false;
        }
        if !self.5.can_split(padded) || self.5.count_windows() != windows
            || self.5.leaves_rest() != more {
            return false;
        }
        if !self.6.can_split(padded) || self.6.count_windows() != windows
            || self.6.leaves_rest() != more {
            return false;
        }
        true
    }

    fn count_windows(&self) -> (n: usize) {
        self.0.count_windows()
    }

    fn leaves_rest(&self) -> (more: bool) {
        self.0.leaves_rest()
    }

    open spec fn created(
        self,
        pad: Option<(A::Padding, B::Padding, C::Padding, D::Padding, E::Padding, F::Padding, G::Padding)>,
        vectorizer: (A::Vectorizer, B::Vectorizer, C::Vectorizer, D::Vectorizer, E::Vectorizer, F::Vectorizer, G::Vectorizer),
        tail: Option<(AR, BR, CR, DR, ER, FR, GR)>,
    ) -> bool {
        &&& self.0.created(
            match pad {
                Some(p) => Some(p.0),
                None => None,
            },
            vectorizer.0,
            match tail {
                Some(t) => Some(t.0),
                None => None,
            },
        )
        &&& self.1.created(
            match pad {
                Some(p) => Some(p.1),
                None => None,
            },
            vectorizer.1,
            match tail {
                Some(t) => Some(t.1),
                None => None,
            },
        )
        &&& self.2.created(
            match pad {
                Some(p) => Some(p.2),
                None => None,
            },
            vectorizer.2,
            match tail {
                Some(t) => Some(t.2),
                None => None,
            },
        )
        &&& self.3.created(
            match pad {
                Some(p) => Some(p.3),
                None => None,
            },
            vectorizer.3,
            match tail {
                Some(t) => Some(t.3),
                None => None,
            },
        )
        &&& self.4.created(
            match pad {
                Some(p) => Some(p.4),
                None => None,
            },
            vectorizer.4,
            match tail {
                Some(t) => Some(t.4),
                None => None,
            },
        )
        &&& self.5.created(
            match pad {
                Some(p) => Some(p.5),
                None => None,
            },
            vectorizer.5,
            match tail {
                Some(t) => Some(t.5),
                None => None,
            },
        )
        &&& self.6.created(
            match pad {
                Some(p) => Some(p.6),
                None => None,
            },
            vectorizer.6,
            match tail {
                Some(t) => Some(t.6),
                None => None,
            },
        )
    }

    fn create(self, pad: Option<(A::Padding, B::Padding, C::Padding, D::Padding, E::Padding, F::Padding, G::Padding)>) -> (r: (
        (A::Vectorizer, B::Vectorizer, C::Vectorizer, D::Vectorizer, E::Vectorizer, F::Vectorizer, G::Vectorizer),
        usize,
        Option<(AR, BR, CR, DR, ER, FR, GR)>,
    )) {
        let (me_a, me_b, me_c, me_d, me_e, me_f, me_g) = self;
        let (pad_a, pad_b, pad_c, pad_d, pad_e, pad_f, pad_g) = match pad {
            Some((pad_a, pad_b, pad_c, pad_d, pad_e, pad_f, pad_g)) => (Some(pad_a), Some(pad_b), Some(pad_c), Some(pad_d), Some(pad_e), Some(pad_f), Some(pad_g)),
            None => (None, None, None, None, None, None, None),
        };
        let (vectorizer_a, len_a, tail_a) = me_a.create(pad_a);
        let (vectorizer_b, len_b, tail_b) = me_b.create(pad_b);
        let (vectorizer_c, len_c, tail_c) = me_c.create(pad_c);
        let (vectorizer_d, len_d, tail_d) = me_d.create(pad_d);
        let (vectorizer_e, len_e, tail_e) = me_e.create(pad_e);
        let (vectorizer_f, len_f, tail_f) = me_f.create(pad_f);
        let (vectorizer_g, len_g, tail_g) = me_g.create(pad_g);
        let tail = match (tail_a, tail_b, tail_c, tail_d, tail_e, tail_f, tail_g) {
            (Some(t_a), Some(t_b), Some(t_c), Some(t_d), Some(t_e), Some(t_f), Some(t_g)) => Some((t_a, t_b, t_c, t_d, t_e, t_f, t_g)),
            _ => None,
        };
        let vectorizer = (vectorizer_a, vectorizer_b, vectorizer_c, vectorizer_d, vectorizer_e, vectorizer_f, vectorizer_g);
        assert(<Self::Vectorizer as Vectorizer<(AR, BR, CR, DR, ER, FR, GR)>>::wf(&vectorizer));
        assert(<Self::Vectorizer as Vectorizer<(AR, BR, CR, DR, ER, FR, GR)>>::lo(&vectorizer) == 0);
        assert(<Self::Vectorizer as Vectorizer<(AR, BR, CR, DR, ER, FR, GR)>>::hi(&vectorizer) == len_a);
        assert(<Self as Vectorizable<(AR, BR, CR, DR, ER, FR, GR)>>::has_rest(&self) == self.0.has_rest());
        (vectorizer, len_a, tail)
    }
}

impl<
    A: Vectorizer<AR>,
    B: Vectorizer<BR>,
    C: Vectorizer<CR>,
    D: Vectorizer<DR>,
    E: Vectorizer<ER>,
    F: Vectorizer<FR>,
    G: Vectorizer<GR>,
    H: Vectorizer<HR>,
    AR,
    BR,
    CR,
    DR,
    ER,
    FR,
    GR,
    HR,
> Vectorizer<(AR, BR, CR, DR, ER, FR, GR, HR)> for (A, B, C, D, E, F, G, H) {
    open spec fn wf(&self) -> bool {
        &&& self.0.wf()
        &&& self.1.wf()
        &&& self.2.wf()
        &&& self.3.wf()
        &&& self.4.wf()
        &&& self.5.wf()
        &&& self.6.wf()
        &&& self.7.wf()
        &&& self.1.lo() == self.0.lo()
        &&& self.1.hi() == self.0.hi()
        &&& self.2.lo() == self.0.lo()
        &&& self.2.hi() == self.0.hi()
        &&& self.3.lo() == self.0.lo()
        &&& self.3.hi() == self.0.hi()
        &&& self.4.lo() == self.0.lo()
        &&& self.4.hi() == self.0.hi()
        &&& self.5.lo() == self.0.lo()
        &&& self.5.hi() == self.0.hi()
        &&& self.6.lo() == self.0.lo()
        &&& self.6.hi() == self.0.hi()
        &&& self.7.lo() == self.0.lo()
        &&& self.7.hi() == self.0.hi()
    }

    open spec fn lo(&self) -> nat {
        self.0.lo()
    }

    open spec fn hi(&self) -> nat {
        self.0.hi()
    }

    open spec fn step(pre: Self, idx: nat, item: (AR, BR, CR, DR, ER, FR, GR, HR), post: Self) -> bool {
        &&& A::step(pre.0, idx, item.0, post.0)
        &&& B::step(pre.1, idx, item.1, post.1)
        &&& C::step(pre.2, idx, item.2, post.2)
        &&& D::step(pre.3, idx, item.3, post.3)
        &&& E::step(pre.4, idx, item.4, post.4)
        &&& F::step(pre.5, idx, item.5, post.5)
        &&& G::step(pre.6, idx, item.6, post.6)
        &&& H::step(pre.7, idx, item.7, post.7)
    }

    fn get(&mut self, idx: usize) -> (r: (AR, BR, CR, DR, ER, FR, GR, HR)) {
        (self.0.get(idx), self.1.get(idx), self.2.get(idx), self.3.get(idx), self.4.get(idx), self.5.get(idx), self.6.get(idx), self.7.get(idx))
    }
}

impl<
    A: Vectorizable<AR>,
    B: Vectorizable<BR>,
    C: Vectorizable<CR>,
    D: Vectorizable<DR>,
    E: Vectorizable<ER>,
    F: Vectorizable<FR>,
    G: Vectorizable<GR>,
    H: Vectorizable<HR>,
    AR,
    BR,
    CR,
    DR,
    ER,
    FR,
    GR,
    HR,
> Vectorizable<(AR, BR, CR, DR, ER, FR, GR, HR)> for (A, B, C, D, E, F, G, H) {
    type Padding = (A::Padding, B::Padding, C::Padding, D::Padding, E::Padding, F::Padding, G::Padding, H::Padding);

    type Vectorizer = (A::Vectorizer, B::Vectorizer, C::Vectorizer, D::Vectorizer, E::Vectorizer, F::Vectorizer, G::Vectorizer, H::Vectorizer);

    open spec fn splits(&self, padded: bool) -> bool {
        &&& self.0.splits(padded)
        &&& self.1.splits(padded)
        &&& self.2.splits(padded)
        &&& self.3.splits(padded)
        &&& self.4.splits(padded)
        &&& self.5.splits(padded)
        &&& self.6.splits(padded)
        &&& self.7.splits(padded)
        &&& self.1.full_windows() == self.0.full_windows()
        &&& self.1.has_rest() == self.0.has_rest()
        &&& self.2.full_windows() == self.0.full_windows()
        &&& self.2.has_rest() == self.0.has_rest()
        &&& self.3.full_windows() == self.0.full_windows()
        &&& self.3.has_rest() == self.0.has_rest()
        &&& self.4.full_windows() == self.0.full_windows()
        &&& self.4.has_rest() == self.0.has_rest()
        &&& self.5.full_windows() == self.0.full_windows()
        &&& self.5.has_rest() == self.0.has_rest()
        &&& self.6.full_windows() == self.0.full_windows()
        &&& self.6.has_rest() == self.0.has_rest()
        &&& self.7.full_windows() == self.0.full_windows()
        &&& self.7.has_rest() == self.0.has_rest()
    }

    open spec fn full_windows(&self) -> nat {
        self.0.full_windows()
    }

    open spec fn has_rest(&self) -> bool {
        self.0.has_rest()
    }

    fn can_split(&self, padded: bool) -> (ok: bool) {
        if !self.0.can_split(padded) {
            return false;
        }
        let windows = self.0.count_windows();
        let more = self.0.leaves_rest();
        if !self.1.can_split(padded) || self.1.count_windows() != windows
            || self.1.leaves_rest() != more {
            return false;
        }
        if !self.2.can_split(padded) || self.2.count_windows() != windows
            || self.2.leaves_rest() != more {
            return false;
        }
        if !self.3.can_split(padded) || self.3.count_windows() != windows
            || self.3.leaves_rest() != more {
            return false;
        }
        if !self.4.can_split(padded) || self.4.count_windows() != windows
            || self.4.leaves_rest() != more {
            return false;
        }
        if !self.5.can_split(padded) || self.5.count_windows() != windows
            || self.5.leaves_rest() != more {
            return false;
        }
        if !self.6.can_split(padded) || self.6.count_windows() != windows
            || self.6.leaves_rest() != more {
            return false;
        }
        if !self.7.can_split(padded) || self.7.count_windows() != windows
            || self.7.leaves_rest() != more {
            return false;
        }
        true
    }

    fn count_windows(&self) -> (n: usize) {
        self.0.count_windows()
    }

    fn leaves_rest(&self) -> (more: bool) {
        self.0.leaves_rest()
    }

    open spec fn created(
        self,
        pad: Option<(A::Padding, B::Padding, C::Padding, D::Padding, E::Padding, F::Padding, G::Padding, H::Padding)>,
        vectorizer: (A::Vectorizer, B::Vectorizer, C::Vectorizer, D::Vectorizer, E::Vectorizer, F::Vectorizer, G::Vectorizer, H::Vectorizer),
        tail: Option<(AR, BR, CR, DR, ER, FR, GR, HR)>,
    ) -> bool {
        &&& self.0.created(
            match pad {
                Some(p) => Some(p.0),
                None => None,
            },
            vectorizer.0,
            match tail {
                Some(t) => Some(t.0),
                None => None,
            },
        )
        &&& self.1.created(
            match pad {
                Some(p) => Some(p.1),
                None => None,
            },
            vectorizer.1,
            match tail {
                Some(t) => Some(t.1),
                None => None,
            },
        )
        &&& self.2.created(
            match pad {
                Some(p) => Some(p.2),
                None => None,
            },
            vectorizer.2,
            match tail {
                Some(t) => Some(t.2),
                None => None,
            },
        )
        &&& self.3.created(
            match pad {
                Some(p) => Some(p.3),
                None => None,
            },
            vectorizer.3,
            match tail {
                Some(t) => Some(t.3),
                None => None,
            },
        )
        &&& self.4.created(
            match pad {
                Some(p) => Some(p.4),
                None => None,
            },
            vectorizer.4,
            match tail {
                Some(t) => Some(t.4),
                None => None,
            },
        )
        &&& self.5.created(
            match pad {
                Some(p) => Some(p.5),
                None => None,
            },
            vectorizer.5,
            match tail {
                Some(t) => Some(t.5),
                None => None,
            },
        )
        &&& self.6.created(
            match pad {
                Some(p) => Some(p.6),
                None => None,
            },
            vectorizer.6,
            match tail {
                Some(t) => Some(t.6),
                None => None,
            },
        )
        &&& self.7.created(
            match pad {
                Some(p) => Some(p.7),
                None => None,
            },
            vectorizer.7,
            match tail {
                Some(t) => Some(t.7),
                None => None,
            },
        )
    }

    fn create(self, pad: Option<(A::Padding, B::Padding, C::Padding, D::Padding, E::Padding, F::Padding, G::Padding, H::Padding)>) -> (r: (
        (A::Vectorizer, B::Vectorizer, C::Vectorizer, D::Vectorizer, E::Vectorizer, F::Vectorizer, G::Vectorizer, H::Vectorizer),
        usize,
        Option<(AR, BR, CR, DR, ER, FR, GR, HR)>,
    )) {
        let (me_a, me_b, me_c, me_d, me_e, me_f, me_g, me_h) = self;
        let (pad_a, pad_b, pad_c, pad_d, pad_e, pad_f, pad_g, pad_h) = match pad {
            Some((pad_a, pad_b, pad_c, pad_d, pad_e, pad_f, pad_g, pad_h)) => (Some(pad_a), Some(pad_b), Some(pad_c), Some(pad_d), Some(pad_e), Some(pad_f), Some(pad_g), Some(pad_h)),
            None => (None, None, None, None, None, None, None, None),
        };
        let (vectorizer_a, len_a, tail_a) = me_a.create(pad_a);
        let (vectorizer_b, len_b, tail_b) = me_b.create(pad_b);
        let (vectorizer_c, len_c, tail_c) = me_c.create(pad_c);
        let (vectorizer_d, len_d, tail_d) = me_d.create(pad_d);
        let (vectorizer_e, len_e, tail_e) = me_e.create(pad_e);
        let (vectorizer_f, len_f, tail_f) = me_f.create(pad_f);
        let (vectorizer_g, len_g, tail_g) = me_g.create(pad_g);
        let (vectorizer_h, len_h, tail_h) = me_h.create(pad_h);
        let tail = match (tail_a, tail_b, tail_c, tail_d, tail_e, tail_f, tail_g, tail_h) {
            (Some(t_a), Some(t_b), Some(t_c), Some(t_d), Some(t_e), Some(t_f), Some(t_g), Some(t_h)) => Some((t_a, t_b, t_c, t_d, t_e, t_f, t_g, t_h)),
            _ => None,
        };
        let vectorizer = (vectorizer_a, vectorizer_b, vectorizer_c, vectorizer_d, vectorizer_e, vectorizer_f, vectorizer_g, vectorizer_h);
        assert(<Self::Vectorizer as Vectorizer<(AR, BR, CR, DR, ER, FR, GR, HR)>>::wf(&vectorizer));
        assert(<Self::Vectorizer as Vectorizer<(AR, BR, CR, DR, ER, FR, GR, HR)>>::lo(&vectorizer) == 0);
        assert(<Self::Vectorizer as Vectorizer<(AR, BR, CR, DR, ER, FR, GR, HR)>>::hi(&vectorizer) == len_a);
        assert(<Self as Vectorizable<(AR, BR, CR, DR, ER, FR, GR, HR)>>::has_rest(&self) == self.0.has_rest());
        (vectorizer, len_a, tail)
    }
}

} // verus!
