//! Take-once line renderers over an owned sequence of items.
//!
//! [`OnceRefIter`] and [`OnceIter`] behave alike: the first render writes
//! every item followed by a newline and empties the cell, a second
//! render attempt fails with [`RenderError::Reuse`].

use vstd::prelude::*;

use crate::render::all_wf;
use crate::render::lines_text;
use crate::render::render_lines;
use crate::render::Renderable;
use crate::sink::RenderError;
use crate::sink::Sink;

verus! {

/// Renders a sequence of items, each followed by a newline, consuming
/// the sequence on the first render.
pub struct OnceRefIter<T> {
    item: Option<Vec<T>>,
}

impl<T: Renderable> OnceRefIter<T> {
    /// Whether the items have already been rendered away.
    pub closed spec fn consumed(&self) -> bool {
        self.item is None
    }

    /// The items still held, in order.
    pub closed spec fn items(&self) -> Seq<T> {
        self.item->0@
    }

    /// The text a render of the held items produces.
    pub open spec fn lines(&self) -> Seq<char> {
        lines_text(self.items())
    }

    /// The renderer's invariant.
    pub open spec fn wf(&self) -> bool {
        !self.consumed() ==> all_wf(self.items()) && self.lines().len() <= usize::MAX
    }

    /// Wraps the given items.
    pub fn new(item: Vec<T>) -> (it: Self)
        requires
            all_wf(item@),
            lines_text(item@).len() <= usize::MAX,
        ensures
            it.wf(),
            !it.consumed(),
            it.items() == item@,
    {
        Self { item: Some(item) }
    }

    /// Writes every held item followed by a newline, or fails with
    /// [`RenderError::Reuse`] — leaving the sink untouched — if a render
    /// already consumed them.
    pub fn render(&mut self, sink: &mut Sink) -> (r: Result<(), RenderError>)
        requires
            old(self).wf(),
            old(sink).wf(),
        ensures
            final(self).wf(),
            final(self).consumed(),
            final(sink).wf(),
            final(sink).forwards() == old(sink).forwards(),
            final(sink).limit() == old(sink).limit(),
            old(self).consumed() ==> r == Err::<(), RenderError>(RenderError::Reuse)
                && *final(sink) == *old(sink),
            !old(self).consumed() ==> (r is Ok <==> old(sink).fits(old(self).lines().len())),
            !old(self).consumed() && r is Ok ==> final(sink).written() == old(sink).written()
                + old(self).lines().len(),
            !old(self).consumed() && r is Ok ==> final(sink).content() == old(sink).content() + (
            if old(sink).forwards() {
                old(self).lines()
            } else {
                Seq::<char>::empty()
            }),
            !old(self).consumed() && r is Err ==> r == Err::<(), RenderError>(
                RenderError::SinkWrite,
            ),
    {
        let taken = self.item.take();
        match taken {
            None => Err(RenderError::Reuse),
            Some(v) => render_lines(&v, sink),
        }
    }

    /// Renders into a fresh unbounded sink, consuming the items.  Fails
    /// with [`RenderError::Reuse`] if a render already consumed them.
    pub fn to_string(&mut self) -> (r: Result<String, RenderError>)
        requires
            old(self).wf(),
        ensures
            final(self).wf(),
            final(self).consumed(),
            old(self).consumed() ==> r == Err::<String, RenderError>(RenderError::Reuse),
            !old(self).consumed() ==> (r matches Ok(s) && s@ == old(self).lines()),
    {
        let mut sink = Sink::collecting();
        match self.render(&mut sink) {
            Ok(_) => Ok(sink.into_string()),
            Err(e) => Err(e),
        }
    }
}

/// Renders an owned sequence of items, each followed by a newline,
/// consuming the sequence on the first render.
pub struct OnceIter<T> {
    item: Option<Vec<T>>,
}

impl<T: Renderable> OnceIter<T> {
    /// Whether the items have already been rendered away.
    pub closed spec fn consumed(&self) -> bool {
        self.item is None
    }

    /// The items still held, in order.
    pub closed spec fn items(&self) -> Seq<T> {
        self.item->0@
    }

    /// The text a render of the held items produces.
    pub open spec fn lines(&self) -> Seq<char> {
        lines_text(self.items())
    }

    /// The renderer's invariant.
    pub open spec fn wf(&self) -> bool {
        !self.consumed() ==> all_wf(self.items()) && self.lines().len() <= usize::MAX
    }

    /// Wraps the given items.
    pub fn new(item: Vec<T>) -> (it: Self)
        requires
            all_wf(item@),
            lines_text(item@).len() <= usize::MAX,
        ensures
            it.wf(),
            !it.consumed(),
            it.items() == item@,
    {
        Self { item: Some(item) }
    }

    /// Writes every held item followed by a newline, or fails with
    /// [`RenderError::Reuse`] — leaving the sink untouched — if a render
    /// already consumed them.
    pub fn render(&mut self, sink: &mut Sink) -> (r: Result<(), RenderError>)
        requires
            old(self).wf(),
            old(sink).wf(),
        ensures
            final(self).wf(),
            final(self).consumed(),
            final(sink).wf(),
            final(sink).forwards() == old(sink).forwards(),
            final(sink).limit() == old(sink).limit(),
            old(self).consumed() ==> r == Err::<(), RenderError>(RenderError::Reuse)
                && *final(sink) == *old(sink),
            !old(self).consumed() ==> (r is Ok <==> old(sink).fits(old(self).lines().len())),
            !old(self).consumed() && r is Ok ==> final(sink).written() == old(sink).written()
                + old(self).lines().len(),
            !old(self).consumed() && r is Ok ==> final(sink).content() == old(sink).content() + (
            if old(sink).forwards() {
                old(self).lines()
            } else {
                Seq::<char>::empty()
            }),
            !old(self).consumed() && r is Err ==> r == Err::<(), RenderError>(
                RenderError::SinkWrite,
            ),
    {
        let taken = self.item.take();
        match taken {
            None => Err(RenderError::Reuse),
            Some(v) => render_lines(&v, sink),
        }
    }

    /// Renders into a fresh unbounded sink, consuming the items.  Fails
    /// with [`RenderError::Reuse`] if a render already consumed them.
    pub fn to_string(&mut self) -> (r: Result<String, RenderError>)
        requires
            old(self).wf(),
        ensures
            final(self).wf(),
            final(self).consumed(),
            old(self).consumed() ==> r == Err::<String, RenderError>(RenderError::Reuse),
            !old(self).consumed() ==> (r matches Ok(s) && s@ == old(self).lines()),
    {
        let mut sink = Sink::collecting();
        match self.render(&mut sink) {
            Ok(_) => Ok(sink.into_string()),
            Err(e) => Err(e),
        }
    }
}

} // verus!
