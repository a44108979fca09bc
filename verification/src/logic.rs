//! Conditional and concatenating renderers: render one of two values,
//! render a value or nothing, or render several values back to back.

use vstd::prelude::*;

use crate::render::all_wf;
use crate::render::texts_of;
use crate::render::Renderable;
use crate::sink::RenderError;
use crate::sink::Sink;
use crate::textspec::cat_sep;
use crate::textspec::lemma_cat_sep_decompose;
use crate::textspec::lemma_cat_sep_take_step;

verus! {

/// The concatenation of the given texts, in order.
pub open spec fn cat_texts(ts: Seq<Seq<char>>) -> Seq<char> {
    cat_sep(ts, Seq::<char>::empty())
}

/// Renders nothing.
#[derive(Copy, Clone)]
pub struct Empty;

impl Empty {
    pub fn new() -> (e: Self)
        ensures
            e.wf(),
            e.text() == Seq::<char>::empty(),
    {
        Self
    }
}

impl Renderable for Empty {
    open spec fn wf(&self) -> bool {
        true
    }

    open spec fn text(&self) -> Seq<char> {
        Seq::<char>::empty()
    }

    proof fn text_bounded(&self) {
    }

    fn render(&self, sink: &mut Sink) -> (r: Result<(), RenderError>) {
        proof {
            assert(sink.content() + Seq::<char>::empty() =~= sink.content());
        }
        Ok(())
    }
}

/// Renders `value` when `cond` held at construction, nothing otherwise.
pub struct Optional<D>(Conditional<D, Empty>);

impl<D: Renderable> Optional<D> {
    /// The text this renderer emits: `value`'s text or nothing.
    pub open spec fn text_spec(cond: bool, value: D) -> Seq<char> {
        if cond {
            value.text()
        } else {
            Seq::<char>::empty()
        }
    }

    /// Wraps `value`, to be rendered only when `cond` holds.
    pub fn new(cond: bool, value: D) -> (o: Self)
        requires
            value.wf(),
        ensures
            o.wf(),
            o.text() == Self::text_spec(cond, value),
    {
        Self(Conditional::new(cond, value, Empty))
    }
}

impl<D: Renderable> Renderable for Optional<D> {
    closed spec fn wf(&self) -> bool {
        self.0.wf()
    }

    closed spec fn text(&self) -> Seq<char> {
        self.0.text()
    }

    proof fn text_bounded(&self) {
        self.0.text_bounded();
    }

    fn render(&self, sink: &mut Sink) -> (r: Result<(), RenderError>) {
        self.0.render(sink)
    }
}

/// Renders `left` when `cond` held at construction, `right` otherwise.
pub struct Conditional<T, F> {
    cond: bool,
    left: T,
    right: F,
}

impl<T: Renderable, F: Renderable> Conditional<T, F> {
    /// The condition chosen at construction.
    pub closed spec fn spec_cond(&self) -> bool {
        self.cond
    }

    /// The renderer for the `true` case.
    pub closed spec fn spec_left(&self) -> T {
        self.left
    }

    /// The renderer for the `false` case.
    pub closed spec fn spec_right(&self) -> F {
        self.right
    }

    /// Wraps the two renderers and the condition choosing between them.
    pub fn new(cond: bool, left: T, right: F) -> (c: Self)
        requires
            left.wf(),
            right.wf(),
        ensures
            c.wf(),
            c.spec_cond() == cond,
            c.spec_left() == left,
            c.spec_right() == right,
    {
        Self { cond, left, right }
    }
}

impl<T: Renderable, F: Renderable> Renderable for Conditional<T, F> {
    open spec fn wf(&self) -> bool {
        self.spec_left().wf() && self.spec_right().wf()
    }

    open spec fn text(&self) -> Seq<char> {
        if self.spec_cond() {
            self.spec_left().text()
        } else {
            self.spec_right().text()
        }
    }

    proof fn text_bounded(&self) {
        if self.spec_cond() {
            self.spec_left().text_bounded();
        } else {
            self.spec_right().text_bounded();
        }
    }

    fn render(&self, sink: &mut Sink) -> (r: Result<(), RenderError>) {
        if self.cond {
            self.left.render(sink)
        } else {
            self.right.render(sink)
        }
    }
}

/// Renders two values back to back.
pub struct Concat<L, R> {
    left: L,
    right: R,
}

impl<L: Renderable, R: Renderable> Concat<L, R> {
    /// The first renderer.
    pub closed spec fn spec_left(&self) -> L {
        self.left
    }

    /// The second renderer.
    pub closed spec fn spec_right(&self) -> R {
        self.right
    }

    /// Wraps the two renderers.
    pub fn new(left: L, right: R) -> (c: Self)
        requires
            left.wf(),
            right.wf(),
            left.text().len() + right.text().len() <= usize::MAX,
        ensures
            c.wf(),
            c.spec_left() == left,
            c.spec_right() == right,
    {
        Self { left, right }
    }
}

impl<L: Renderable, R: Renderable> Renderable for Concat<L, R> {
    open spec fn wf(&self) -> bool {
        &&& self.spec_left().wf()
        &&& self.spec_right().wf()
        &&& self.text().len() <= usize::MAX
    }

    open spec fn text(&self) -> Seq<char> {
        self.spec_left().text() + self.spec_right().text()
    }

    proof fn text_bounded(&self) {
    }

    fn render(&self, sink: &mut Sink) -> (r: Result<(), RenderError>) {
        match self.left.render(sink) {
            Err(e) => {
                return Err(e);
            },
            Ok(_) => {},
        }
        match self.right.render(sink) {
            Err(e) => {
                return Err(e);
            },
            Ok(_) => {},
        }
        proof {
            if old(sink).forwards() {
                assert(old(sink).content() + self.spec_left().text() + self.spec_right().text()
                    =~= old(sink).content() + self.text());
            }
        }
        Ok(())
    }
}

/// Renders three values back to back.
pub struct Concat3<L, M, R> {
    left: L,
    middle: M,
    right: R,
}

impl<L: Renderable, M: Renderable, R: Renderable> Concat3<L, M, R> {
    /// The first renderer.
    pub closed spec fn spec_left(&self) -> L {
        self.left
    }

    /// The second renderer.
    pub closed spec fn spec_middle(&self) -> M {
        self.middle
    }

    /// The third renderer.
    pub closed spec fn spec_right(&self) -> R {
        self.right
    }

    /// Wraps the three renderers.
    pub fn new(left: L, middle: M, right: R) -> (c: Self)
        requires
            left.wf(),
            middle.wf(),
            right.wf(),
            left.text().len() + middle.text().len() + right.text().len() <= usize::MAX,
        ensures
            c.wf(),
            c.spec_left() == left,
            c.spec_middle() == middle,
            c.spec_right() == right,
    {
        Self { left, middle, right }
    }
}

impl<L: Renderable, M: Renderable, R: Renderable> Renderable for Concat3<L, M, R> {
    open spec fn wf(&self) -> bool {
        &&& self.spec_left().wf()
        &&& self.spec_middle().wf()
        &&& self.spec_right().wf()
        &&& self.text().len() <= usize::MAX
    }

    open spec fn text(&self) -> Seq<char> {
        self.spec_left().text() + self.spec_middle().text() + self.spec_right().text()
    }

    proof fn text_bounded(&self) {
    }

    fn render(&self, sink: &mut Sink) -> (r: Result<(), RenderError>) {
        match self.left.render(sink) {
            Err(e) => {
                return Err(e);
            },
            Ok(_) => {},
        }
        match self.middle.render(sink) {
            Err(e) => {
                return Err(e);
            },
            Ok(_) => {},
        }
        match self.right.render(sink) {
            Err(e) => {
                return Err(e);
            },
            Ok(_) => {},
        }
        proof {
            if old(sink).forwards() {
                assert(old(sink).content() + self.spec_left().text() + self.spec_middle().text()
                    + self.spec_right().text() =~= old(sink).content() + self.text());
            }
        }
        Ok(())
    }
}

/// Renders four values back to back.
pub struct Concat4<L, M, R, S> {
    outer_left: L,
    inner_left: M,
    inner_right: R,
    outer_right: S,
}

impl<L: Renderable, M: Renderable, R: Renderable, S: Renderable> Concat4<L, M, R, S> {
    /// The first renderer.
    pub closed spec fn spec_outer_left(&self) -> L {
        self.outer_left
    }

    /// The second renderer.
    pub closed spec fn spec_inner_left(&self) -> M {
        self.inner_left
    }

    /// The third renderer.
    pub closed spec fn spec_inner_right(&self) -> R {
        self.inner_right
    }

    /// The fourth renderer.
    pub closed spec fn spec_outer_right(&self) -> S {
        self.outer_right
    }

    /// Wraps the four renderers.
    pub fn new(outer_left: L, inner_left: M, inner_right: R, outer_right: S) -> (c: Self)
        requires
            outer_left.wf(),
            inner_left.wf(),
            inner_right.wf(),
            outer_right.wf(),
            outer_left.text().len() + inner_left.text().len() + inner_right.text().len()
                + outer_right.text().len() <= usize::MAX,
        ensures
            c.wf(),
            c.spec_outer_left() == outer_left,
            c.spec_inner_left() == inner_left,
            c.spec_inner_right() == inner_right,
            c.spec_outer_right() == outer_right,
    {
        Self { outer_left, inner_left, inner_right, outer_right }
    }
}

impl<L: Renderable, M: Renderable, R: Renderable, S: Renderable> Renderable for Concat4<
    L,
    M,
    R,
    S,
> {
    open spec fn wf(&self) -> bool {
        &&& self.spec_outer_left().wf()
        &&& self.spec_inner_left().wf()
        &&& self.spec_inner_right().wf()
        &&& self.spec_outer_right().wf()
        &&& self.text().len() <= usize::MAX
    }

    open spec fn text(&self) -> Seq<char> {
        self.spec_outer_left().text() + self.spec_inner_left().text()
            + self.spec_inner_right().text() + self.spec_outer_right().text()
    }

    proof fn text_bounded(&self) {
    }

    fn render(&self, sink: &mut Sink) -> (r: Result<(), RenderError>) {
        match self.outer_left.render(sink) {
            Err(e) => {
                return Err(e);
            },
            Ok(_) => {},
        }
        match self.inner_left.render(sink) {
            Err(e) => {
                return Err(e);
            },
            Ok(_) => {},
        }
        match self.inner_right.render(sink) {
            Err(e) => {
                return Err(e);
            },
            Ok(_) => {},
        }
        match self.outer_right.render(sink) {
            Err(e) => {
                return Err(e);
            },
            Ok(_) => {},
        }
        proof {
            if old(sink).forwards() {
                assert(old(sink).content() + self.spec_outer_left().text()
                    + self.spec_inner_left().text() + self.spec_inner_right().text()
                    + self.spec_outer_right().text() =~= old(sink).content() + self.text());
            }
        }
        Ok(())
    }
}

/// Renders `N` values of one type back to back.
pub struct ConcatN<D, const N: usize> {
    inner: [D; N],
}

impl<D: Renderable, const N: usize> ConcatN<D, N> {
    /// The renderers, in order.
    pub closed spec fn spec_inner(&self) -> Seq<D> {
        self.inner@
    }

    /// Wraps the given renderers.
    pub fn new(inner: [D; N]) -> (c: Self)
        requires
            all_wf(inner@),
            cat_texts(texts_of(inner@)).len() <= usize::MAX,
        ensures
            c.wf(),
            c.spec_inner() == inner@,
    {
        Self { inner }
    }
}

impl<D: Renderable, const N: usize> Renderable for ConcatN<D, N> {
    open spec fn wf(&self) -> bool {
        &&& all_wf(self.spec_inner())
        &&& self.text().len() <= usize::MAX
    }

    open spec fn text(&self) -> Seq<char> {
        cat_texts(texts_of(self.spec_inner()))
    }

    proof fn text_bounded(&self) {
    }

    fn render(&self, sink: &mut Sink) -> (r: Result<(), RenderError>) {
        let ghost seq_items = self.inner@;
        let ghost ts = texts_of(seq_items);
        let ghost nosep = Seq::<char>::empty();
        let ghost ct = cat_sep(ts, nosep);
        let mut i: usize = 0;
        while i < N
            invariant
                i <= N,
                N == seq_items.len() && seq_items == self.spec_inner(),
                ts == texts_of(seq_items),
                nosep == Seq::<char>::empty(),
                ct == cat_sep(ts, nosep) && ct == self.text(),
                all_wf(seq_items),
                sink.wf(),
                sink.forwards() == old(sink).forwards(),
                sink.limit() == old(sink).limit(),
                sink.written() == old(sink).written() + cat_sep(ts.take(i as int), nosep).len(),
                sink.content() == old(sink).content() + (if old(sink).forwards() {
                    cat_sep(ts.take(i as int), nosep)
                } else {
                    Seq::<char>::empty()
                }),
            decreases N - i,
        {
            let item = &self.inner[i];
            proof {
                assert(item == seq_items[i as int]);
                assert(texts_of(seq_items.skip(i as int)) =~= ts.skip(i as int));
                lemma_cat_sep_decompose(ts, nosep, i as int);
                assert(cat_sep(ts.skip(i as int), nosep).len() >= ts.skip(i as int)[0].len());
            }
            match item.render(sink) {
                Err(e) => {
                    return Err(e);
                },
                Ok(_) => {},
            }
            proof {
                lemma_cat_sep_take_step(ts, nosep, i as int);
                if old(sink).forwards() {
                    assert(old(sink).content() + cat_sep(ts.take(i as int), nosep) + ts[i as int]
                        =~= old(sink).content() + cat_sep(ts.take(i + 1 as int), nosep));
                }
                assert(cat_sep(ts.take(i + 1 as int), nosep).len() == cat_sep(
                    ts.take(i as int),
                    nosep,
                ).len() + ts[i as int].len());
            }
            i = i + 1;
        }
        proof {
            assert(ts.take(N as int) =~= ts);
            if !old(sink).forwards() {
                assert(old(sink).content() + Seq::<char>::empty() =~= old(sink).content());
            }
        }
        Ok(())
    }
}

} // verus!
