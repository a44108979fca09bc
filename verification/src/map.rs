//! A take-once renderer that maps each element through a function and
//! writes each mapped item on its own line.

use vstd::prelude::*;

use crate::render::all_wf;
use crate::render::lines_text;
use crate::render::render_lines;
use crate::render::Renderable;
use crate::sink::RenderError;
use crate::sink::Sink;

verus! {

/// Renders a mapped sequence of items, each followed by a newline,
/// consuming the sequence on the first render; a second render attempt
/// fails with [`RenderError::Reuse`].
pub struct MapIter<B> {
    item: Option<Vec<B>>,
}

impl<B: Renderable> MapIter<B> {
    /// Whether the items have already been rendered away.
    pub closed spec fn consumed(&self) -> bool {
        self.item is None
    }

    /// The mapped items still held, in order.
    pub closed spec fn items(&self) -> Seq<B> {
        self.item->0@
    }

    /// The text a render of the held items produces.
    pub open spec fn lines(&self) -> Seq<char> {
        lines_text(self.items())
    }

    /// The renderer's invariant.
    pub open spec fn wf(&self) -> bool {
        !self.consumed() ==> all_wf(self.items())
    }

    /// Maps every element through `f` — exactly once per element, in
    /// order — and wraps the results.
    pub fn new<T, F: Fn(T) -> B>(item: Vec<T>, f: F) -> (m: Self)
        requires
            forall|i: int| 0 <= i < item@.len() ==> call_requires(f, (#[trigger] item@[i],)),
            forall|i: int, y: B|
                0 <= i < item@.len() && #[trigger] call_ensures(f, (item@[i],), y) ==> y.wf(),
        ensures
            m.wf(),
            !m.consumed(),
            m.items().len() == item@.len(),
            forall|i: int|
                0 <= i < item@.len() ==> call_ensures(f, (item@[i],), #[trigger] m.items()[i]),
    {
        let ghost orig = item@;
        let mut item = item;
        let mut out: Vec<B> = Vec::new();
        while item.len() > 0
            invariant
                out@.len() + item@.len() == orig.len(),
                item@ == orig.skip(out@.len() as int),
                forall|i: int| 0 <= i < orig.len() ==> call_requires(f, (#[trigger] orig[i],)),
                forall|i: int, y: B|
                    0 <= i < orig.len() && #[trigger] call_ensures(f, (orig[i],), y) ==> y.wf(),
                forall|i: int|
                    0 <= i < out@.len() ==> call_ensures(f, (orig[i],), #[trigger] out@[i]),
                all_wf(out@),
            decreases item@.len(),
        {
            let x = item.remove(0);
            proof {
                assert(orig.skip(out@.len() as int).drop_first() =~= orig.skip(
                    out@.len() + 1 as int,
                ));
            }
            out.push(f(x));
        }
        Self { item: Some(out) }
    }

    /// Writes every held item followed by a newline, or fails with
    /// [`RenderError::Reuse`] — leaving the sink untouched — if a render
    /// already consumed them.
    pub fn render(&mut self, sink: &mut Sink) -> (r: Result<(), RenderError>)
        requires
            old(self).wf(),
            old(sink).wf(),
        ensures
            final(self).wf(),
            final(self).consumed(),
            final(sink).wf(),
            final(sink).forwards() == old(sink).forwards(),
            final(sink).limit() == old(sink).limit(),
            old(self).consumed() ==> r == Err::<(), RenderError>(RenderError::Reuse)
                && *final(sink) == *old(sink),
            !old(self).consumed() ==> (r is Ok <==> old(sink).fits(old(self).lines().len())),
            !old(self).consumed() && r is Ok ==> final(sink).written() == old(sink).written()
                + old(self).lines().len(),
            !old(self).consumed() && r is Ok ==> final(sink).content() == old(sink).content() + (
            if old(sink).forwards() {
                old(self).lines()
            } else {
                Seq::<char>::empty()
            }),
            !old(self).consumed() && r is Err ==> r == Err::<(), RenderError>(
                RenderError::SinkWrite,
            ),
    {
        let taken = self.item.take();
        match taken {
            None => Err(RenderError::Reuse),
            Some(v) => render_lines(&v, sink),
        }
    }

    /// Renders into a fresh unbounded sink, consuming the items.  Fails
    /// with [`RenderError::Reuse`] if a render already consumed them,
    /// and with [`RenderError::SinkWrite`] only if the mapped text
    /// cannot fit any sink.
    pub fn to_string(&mut self) -> (r: Result<String, RenderError>)
        requires
            old(self).wf(),
        ensures
            final(self).wf(),
            final(self).consumed(),
            old(self).consumed() ==> r == Err::<String, RenderError>(RenderError::Reuse),
            !old(self).consumed() && old(self).lines().len() <= usize::MAX ==> (r matches Ok(s)
                && s@ == old(self).lines()),
            !old(self).consumed() ==> (r matches Ok(s) ==> s@ == old(self).lines()),
    {
        let mut sink = Sink::collecting();
        match self.render(&mut sink) {
            Ok(_) => Ok(sink.into_string()),
            Err(e) => Err(e),
        }
    }
}

} // verus!
