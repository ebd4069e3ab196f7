//! Optionally bounded windows over a sequence of work items: skip a prefix,
//! keep a prefix, or both, without copying the items.

use vstd::prelude::*;

verus! {

/// `s` without its first `n` items; empty when `n` reaches past its end.
pub open spec fn drop_n<T>(s: Seq<T>, n: int) -> Seq<T> {
    if n >= s.len() {
        Seq::empty()
    } else {
        s.subrange(n, s.len() as int)
    }
}

/// The first `n` items of `s`; all of `s` when it is shorter.
pub open spec fn take_n<T>(s: Seq<T>, n: int) -> Seq<T> {
    if n >= s.len() {
        s
    } else {
        s.subrange(0, n)
    }
}

/// The window that optional skip and take bounds select from `s`: the skip
/// first, then the take.
pub open spec fn window<T>(s: Seq<T>, skip: Option<usize>, take: Option<usize>) -> Seq<T> {
    let rest = match skip {
        Some(k) => drop_n(s, k as int),
        None => s,
    };
    match take {
        Some(k) => take_n(rest, k as int),
        None => rest,
    }
}

/// The number of items that a window keeps: `max(0, n - skip)`, capped by
/// `take` when a take bound is given.
pub open spec fn window_len(n: int, skip: Option<usize>, take: Option<usize>) -> int {
    let k = match skip {
        Some(k) => k as int,
        None => 0,
    };
    let rest = if n - k > 0 { n - k } else { 0 };
    match take {
        Some(t) => if (t as int) < rest { t as int } else { rest },
        None => rest,
    }
}

/// A window keeps `window_len` items, and they are the items of `s` from
/// the skip bound on, in their order; a bound past the end gives an empty or
/// shorter window, never an error.
pub proof fn lemma_window_shape<T>(s: Seq<T>, skip: Option<usize>, take: Option<usize>)
    ensures
        window(s, skip, take).len() == window_len(s.len() as int, skip, take),
        forall|i: int| 0 <= i < window(s, skip, take).len() ==> #[trigger] window(s, skip, take)[i] == s[i + match skip {
            Some(k) => k as int,
            None => 0int,
        }],
{
}

/// A source of items that hands them out one at a time, front first.
pub trait Cursor: Sized {
    type Item;

    /// The items that are still to come.
    spec fn remaining(&self) -> Seq<Self::Item>;

    /// The cursor is well formed.
    spec fn wf(&self) -> bool;

    /// Hands out the next item, if any.
    fn next(&mut self) -> (r: Option<Self::Item>)
        requires
            old(self).wf(),
        ensures
            final(self).wf(),
            old(self).remaining().len() == 0 ==> r is None && final(self).remaining() == old(self).remaining(),
            old(self).remaining().len() > 0 ==> r == Some(old(self).remaining()[0])
                && final(self).remaining() == old(self).remaining().drop_first(),
    ;

    /// Passes over up to `n` items without handing them out.
    fn advance_by(&mut self, n: usize)
        requires
            old(self).wf(),
        ensures
            final(self).wf(),
            final(self).remaining() == drop_n(old(self).remaining(), n as int),
    ;
}

/// A forward cursor over the items of a vector.
pub struct VecIter<T> {
    items: Vec<T>,
    pos: usize,
}

impl<T> View for VecIter<T> {
    type V = Seq<T>;

    /// The items that are still to come.
    closed spec fn view(&self) -> Seq<T> {
        self.items@.subrange(self.pos as int, self.items@.len() as int)
    }
}

impl<T: Copy> VecIter<T> {
    pub fn new(items: Vec<T>) -> (r: VecIter<T>)
        ensures
            r.wf(),
            r.remaining() == items@,
    {
        let r = VecIter { items, pos: 0 };
        assert(r@ =~= r.items@);
        r
    }
}

impl<T: Copy> Cursor for VecIter<T> {
    type Item = T;

    open spec fn remaining(&self) -> Seq<T> {
        self@
    }

    /// The cursor stands within the vector.
    closed spec fn wf(&self) -> bool {
        self.pos <= self.items@.len()
    }

    fn next(&mut self) -> (r: Option<T>) {
        if self.pos < self.items.len() {
            let x = self.items[self.pos];
            self.pos = self.pos + 1;
            assert(self@ =~= old(self)@.drop_first());
            Some(x)
        } else {
            None
        }
    }

    fn advance_by(&mut self, n: usize) {
        let left = self.items.len() - self.pos;
        if n >= left {
            self.pos = self.items.len();
            assert(self@ =~= Seq::<T>::empty());
        } else {
            self.pos = self.pos + n;
            assert(self@ =~= old(self)@.subrange(n as int, old(self)@.len() as int));
        }
    }
}

/// A cursor with an optional skip bound, an optional take bound, or both.
/// A skip is made lazily, at the first `next`; an exhausted take leaves the
/// cursor alone.
pub enum RangedIterator<I> {
    Unbounded(I),
    Skip(I, usize),
    Take(I, usize),
    Range(I, usize, usize),
}

impl<I: Cursor> Cursor for RangedIterator<I> {
    type Item = I::Item;

    /// The items of the window that are still to come.
    open spec fn remaining(&self) -> Seq<I::Item> {
        match self {
            RangedIterator::Unbounded(it) => it.remaining(),
            RangedIterator::Skip(it, n) => drop_n(it.remaining(), *n as int),
            RangedIterator::Take(it, n) => take_n(it.remaining(), *n as int),
            RangedIterator::Range(it, s, t) => take_n(drop_n(it.remaining(), *s as int), *t as int),
        }
    }

    /// The cursor underneath is well formed.
    open spec fn wf(&self) -> bool {
        match self {
            RangedIterator::Unbounded(it) => it.wf(),
            RangedIterator::Skip(it, _) => it.wf(),
            RangedIterator::Take(it, _) => it.wf(),
            RangedIterator::Range(it, _, _) => it.wf(),
        }
    }

    fn next(&mut self) -> (r: Option<I::Item>) {
        RangedIterator::next(self)
    }

    fn advance_by(&mut self, n: usize) {
        let ghost start = self.remaining();
        let mut i: usize = 0;
        while i < n
            invariant
                i <= n,
                self.wf(),
                self.remaining() == drop_n(start, i as int),
            decreases n - i,
        {
            let ghost before = self.remaining();
            match RangedIterator::next(self) {
                Some(_) => {
                    assert(drop_n(start, i + 1) =~= before.drop_first());
                    i = i + 1;
                },
                None => {
                    assert(before.len() == 0);
                    assert(drop_n(start, n as int) =~= before);
                    i = n;
                },
            }
        }
    }
}

impl<I: Cursor> RangedIterator<I> {
    /// Hands out the next item of the window, if any. The variant stays as it
    /// was; a pending skip is made and drops to zero; a take bound counts down
    /// by one for each item handed out, and once used up leaves everything
    /// unchanged.
    pub fn next(&mut self) -> (r: Option<I::Item>)
        requires
            old(self).wf(),
        ensures
            final(self).wf(),
            old(self).remaining().len() == 0 ==> r is None && final(self).remaining() == old(self).remaining(),
            old(self).remaining().len() > 0 ==> r == Some(old(self).remaining()[0])
                && final(self).remaining() == old(self).remaining().drop_first(),
            *old(self) is Unbounded ==> *final(self) is Unbounded,
            *old(self) is Skip ==> *final(self) is Skip,
            *old(self) is Take ==> *final(self) is Take,
            *old(self) is Range ==> *final(self) is Range,
            *old(self) is Skip ==> (*final(self) matches RangedIterator::Skip(_, k) && k == 0),
            (*old(self) matches RangedIterator::Take(_, n) && n == 0) ==> *final(self) == *old(self),
            *old(self) is Take && (*old(self))->Take_1 > 0 ==> (*final(self))->Take_1 == (*old(self))->Take_1 - 1,
            *old(self) is Range && (*old(self))->Range_2 > 0 ==> (*final(self))->Range_1 == 0
                && (*final(self))->Range_2 == (*old(self))->Range_2 - 1,
            (*old(self) matches RangedIterator::Range(_, _, t) && t == 0) ==> *final(self) == *old(self),
    {
        match self {
            RangedIterator::Unbounded(it) => it.next(),
            RangedIterator::Skip(it, n) => {
                it.advance_by(*n);
                *n = 0;
                let r = it.next();
                proof {
                    assert(drop_n(final(it).remaining(), 0) =~= final(it).remaining());
                }
                r
            },
            RangedIterator::Take(it, n) => {
                if *n == 0 {
                    None
                } else {
                    let r = it.next();
                    *n = *n - 1;
                    r
                }
            },
            RangedIterator::Range(it, s, t) => {
                if *t == 0 {
                    None
                } else {
                    it.advance_by(*s);
                    *s = 0;
                    let r = it.next();
                    *t = *t - 1;
                    proof {
                        assert(drop_n(final(it).remaining(), 0) =~= final(it).remaining());
                    }
                    r
                }
            },
        }
    }
}

/// Bounds a sequence by optional skip and take counts, without a caller
/// having to branch on whether a bound is given.
pub trait MaybeTakeIterator: Cursor {
    /// Skips `bound` items, or none.
    fn maybe_skip(self, bound: Option<usize>) -> (r: RangedIterator<Self>)
        requires
            self.wf(),
        ensures
            r.wf(),
            r.remaining() == window(self.remaining(), bound, None),
            bound is None ==> r == RangedIterator::Unbounded(self),
            bound matches Some(n) ==> r == RangedIterator::Skip(self, n),
    ;

    /// Keeps the first `bound` items, or all.
    fn maybe_take(self, bound: Option<usize>) -> (r: RangedIterator<Self>)
        requires
            self.wf(),
        ensures
            r.wf(),
            r.remaining() == window(self.remaining(), None, bound),
            bound is None ==> r == RangedIterator::Unbounded(self),
            bound matches Some(n) ==> r == RangedIterator::Take(self, n),
    ;

    /// Skips `skip` items, or none, then keeps `take` of the rest, or all.
    fn maybe_skip_take(self, skip: Option<usize>, take: Option<usize>) -> (r: RangedIterator<Self>)
        requires
            self.wf(),
        ensures
            r.wf(),
            r.remaining() == window(self.remaining(), skip, take),
            skip is None && take is None ==> r == RangedIterator::Unbounded(self),
            skip is Some && take is None ==> r == RangedIterator::Skip(self, skip->0),
            skip is None && take is Some ==> r == RangedIterator::Take(self, take->0),
            skip is Some && take is Some ==> r == RangedIterator::Range(self, skip->0, take->0),
    ;
}

impl<I: Cursor> MaybeTakeIterator for I {
    fn maybe_skip(self, bound: Option<usize>) -> (r: RangedIterator<Self>) {
        match bound {
            Some(bound) => RangedIterator::Skip(self, bound),
            None => RangedIterator::Unbounded(self),
        }
    }

    fn maybe_take(self, bound: Option<usize>) -> (r: RangedIterator<Self>) {
        match bound {
            Some(bound) => RangedIterator::Take(self, bound),
            None => RangedIterator::Unbounded(self),
        }
    }

    fn maybe_skip_take(self, skip: Option<usize>, take: Option<usize>) -> (r: RangedIterator<Self>) {
        match (skip, take) {
            (Some(s), Some(t)) => RangedIterator::Range(self, s, t),
            (Some(s), None) => RangedIterator::Skip(self, s),
            (None, Some(t)) => RangedIterator::Take(self, t),
            (None, None) => RangedIterator::Unbounded(self),
        }
    }
}

/// Skipping, then taking from what the skip leaves, in two calls selects the
/// same window as both bounds given to one call.
pub proof fn lemma_chained_window<T>(s: Seq<T>, skip: Option<usize>, take: Option<usize>)
    ensures
        window(window(s, skip, None), None, take) == window(s, skip, take),
{
}

/// Every item that `it` still has, in order.
pub fn collect_all<I: Cursor>(it: RangedIterator<I>) -> (r: Vec<I::Item>)
    requires
        it.wf(),
    ensures
        r@ == it.remaining(),
{
    let mut it = it;
    let mut out: Vec<I::Item> = Vec::new();
    let ghost all = it.remaining();
    loop
        invariant
            it.wf(),
            all == out@ + it.remaining(),
        ensures
            out@ == all,
        decreases it.remaining().len(),
    {
        match it.next() {
            Some(x) => {
                out.push(x);
            },
            None => {
                assert(out@ + it.remaining() =~= out@);
                break;
            },
        }
    }
    out
}

} // verus!
