//! Sequence adapters built on one-element lookahead: an iterator that
//! knows when it is exhausted, one that tags the final element, and one
//! that maps the final element through a different function.

use vstd::prelude::*;

verus! {

/// An iterator over an owned sequence which knows when it has reached
/// its final element.
///
/// Once `next` has returned `None` the iterator stays exhausted: the
/// remaining sequence is empty and every later `done` call keeps
/// returning `true`, every later `next` call `None`.
pub struct FiniteIterator<T> {
    items: Vec<T>,
}

impl<T> FiniteIterator<T> {
    /// The elements that have not been returned yet, in order.
    pub closed spec fn remaining(&self) -> Seq<T> {
        self.items@
    }

    /// Creates a new `FiniteIterator` over the given elements.
    pub fn new(items: Vec<T>) -> (it: Self)
        ensures
            it.remaining() == items@,
    {
        Self { items }
    }

    /// Returns `true` if the iterator is exhausted, `false` otherwise.
    /// Asking has no effect on the elements still to come.
    pub fn done(&self) -> (r: bool)
        ensures
            r == (self.remaining().len() == 0),
    {
        self.items.len() == 0
    }

    /// Returns the next element, or `None` once the sequence is
    /// exhausted; elements come in their original order, each exactly
    /// once.
    pub fn next(&mut self) -> (r: Option<T>)
        ensures
            old(self).remaining().len() == 0 ==> r is None && final(self).remaining() == old(self).remaining(),
            old(self).remaining().len() > 0 ==> r == Some(old(self).remaining()[0]) && final(self).remaining() == old(self).remaining().drop_first(),
    {
        if self.items.len() > 0 {
            let x = self.items.remove(0);
            proof {
                assert(old(self).remaining().remove(0) =~= old(self).remaining().drop_first());
            }
            Some(x)
        } else {
            None
        }
    }
}

/// The tag that [`LastIterationIterator`] attaches to the `k`-th element
/// of an `n`-element sequence: `true` exactly when that element is the
/// final one.
pub open spec fn last_tag(n: nat, k: nat) -> bool {
    k + 1 == n
}

/// Law: over a non-empty sequence of `n` elements the tags are `true`
/// exactly once, at the final position; over an empty sequence no pair
/// is produced at all, so no tag is either.
///
/// The `k`-th pair returned by [`LastIterationIterator::next`] carries
/// the tag `remaining().len() == 1`, which for a run over `n` elements
/// is exactly `last_tag(n, k)`.
pub proof fn lemma_exactly_one_last_tag(n: nat)
    ensures
        n > 0 ==> last_tag(n, (n - 1) as nat),
        forall|k: nat| k < n && #[trigger] last_tag(n, k) ==> k == n - 1,
{
}

/// An adapter which turns a sequence of `T` into a sequence of pairs
/// `(is_last_element, T)`: the tag is `false` for every element before
/// the final one and `true` for the final one.  An empty sequence yields
/// no pairs.
pub struct LastIterationIterator<T> {
    iter: FiniteIterator<T>,
}

impl<T> LastIterationIterator<T> {
    /// The elements that have not been returned yet, in order.
    pub closed spec fn remaining(&self) -> Seq<T> {
        self.iter.remaining()
    }

    /// Creates a new `LastIterationIterator` over the given elements.
    pub fn new(items: Vec<T>) -> (it: Self)
        ensures
            it.remaining() == items@,
    {
        Self { iter: FiniteIterator::new(items) }
    }

    /// Returns the next element paired with its tag, or `None` once the
    /// sequence is exhausted.  The tag is `true` exactly for the final
    /// element.
    pub fn next(&mut self) -> (r: Option<(bool, T)>)
        ensures
            old(self).remaining().len() == 0 ==> r is None && final(self).remaining() == old(self).remaining(),
            old(self).remaining().len() > 0 ==> r == Some(
                ((old(self).remaining().len() == 1), old(self).remaining()[0]),
            ) && final(self).remaining() == old(self).remaining().drop_first(),
    {
        // The order is load-bearing: pull the element first, then ask
        // whether the sequence is now exhausted; asking before pulling
        // would tag the element before the final one.
        let value = self.iter.next();
        let is_last = self.iter.done();
        match value {
            Some(v) => Some((is_last, v)),
            None => None,
        }
    }
}

/// An adapter similar to a map which applies `f` to all but the final
/// element and `g` to the final element.  For an empty input neither
/// function is applied; for a single element only `g` is.
pub struct MapLast<B> {
    iter: FiniteIterator<B>,
}

impl<B> MapLast<B> {
    /// The mapped elements that have not been returned yet, in order.
    pub closed spec fn remaining(&self) -> Seq<B> {
        self.iter.remaining()
    }

    /// Creates a new `MapLast` over the given elements: element `i` of
    /// the result is `f(items[i])` for every `i` before the last and
    /// `g(items[i])` for the last, each function applied exactly once
    /// per element it is responsible for.
    pub fn new<T, F: Fn(T) -> B, G: Fn(T) -> B>(items: Vec<T>, f: F, g: G) -> (it: Self)
        requires
            forall|i: int|
                0 <= i < items@.len() - 1 ==> call_requires(f, (#[trigger] items@[i],)),
            items@.len() > 0 ==> call_requires(g, (items@[items@.len() - 1],)),
        ensures
            it.remaining().len() == items@.len(),
            forall|i: int|
                0 <= i < items@.len() - 1 ==> call_ensures(
                    f,
                    (items@[i],),
                    #[trigger] it.remaining()[i],
                ),
            items@.len() > 0 ==> call_ensures(
                g,
                (items@[items@.len() - 1],),
                it.remaining()[items@.len() - 1],
            ),
    {
        let ghost orig = items@;
        let mut items = items;
        let mut out: Vec<B> = Vec::new();
        while items.len() > 1
            invariant
                items@.len() >= 1 ==> out@.len() + items@.len() == orig.len(),
                items@.len() == 0 ==> out@.len() == 0 && orig.len() == 0,
                items@ == orig.skip(out@.len() as int),
                forall|i: int|
                    0 <= i < orig.len() - 1 ==> call_requires(f, (#[trigger] orig[i],)),
                orig.len() > 0 ==> call_requires(g, (orig[orig.len() - 1],)),
                forall|i: int|
                    0 <= i < out@.len() ==> call_ensures(f, (orig[i],), #[trigger] out@[i]),
            decreases items@.len(),
        {
            let x = items.remove(0);
            proof {
                assert(orig.skip(out@.len() as int).drop_first() =~= orig.skip(
                    out@.len() + 1 as int,
                ));
            }
            out.push(f(x));
        }
        if items.len() == 1 {
            let x = items.remove(0);
            out.push(g(x));
        }
        Self { iter: FiniteIterator::new(out) }
    }

    /// Returns the next mapped element, or `None` once the sequence is
    /// exhausted.
    pub fn next(&mut self) -> (r: Option<B>)
        ensures
            old(self).remaining().len() == 0 ==> r is None && final(self).remaining() == old(self).remaining(),
            old(self).remaining().len() > 0 ==> r == Some(old(self).remaining()[0]) && final(self).remaining() == old(self).remaining().drop_first(),
    {
        self.iter.next()
    }
}

} // verus!
