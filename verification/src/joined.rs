//! Joining a sequence of renderers with a separator, in one pass over a
//! sequence that is consumed on first use.
//!
//! The renderer holds its items behind a take-once cell: the first render
//! takes them out and drives them through a [`LastIterationIterator`],
//! writing the separator after every element but the last; a second
//! render attempt finds the cell empty and fails with
//! [`RenderError::Reuse`] instead of silently producing nothing.

use vstd::prelude::*;

use crate::render::all_wf;
use crate::render::texts_of;
use crate::render::Renderable;
use crate::sink::RenderError;
use crate::sink::Sink;
use crate::textspec::cat_sep;
use crate::textspec::joined_text;
use crate::textspec::lemma_cat_sep_take_step;
use crate::textspec::lemma_joined_decompose;
use crate::utils::LastIterationIterator;

verus! {

/// Renders a sequence of items with `separator` between consecutive
/// items, consuming the sequence on the first render.
pub struct DisplayIteratorJoined<T, S> {
    iter: Option<Vec<T>>,
    separator: S,
}

impl<T: Renderable, S: Renderable> DisplayIteratorJoined<T, S> {
    /// Whether the items have already been rendered away.
    pub closed spec fn consumed(&self) -> bool {
        self.iter is None
    }

    /// The items still held, in order.
    pub closed spec fn items(&self) -> Seq<T> {
        self.iter->0@
    }

    /// The separator.
    pub closed spec fn sep(&self) -> S {
        self.separator
    }

    /// The text a render of the held items produces.
    pub open spec fn joined(&self) -> Seq<char> {
        joined_text(texts_of(self.items()), self.sep().text())
    }

    /// The renderer's invariant: the separator and every held item are
    /// well-formed and the joined text has a machine-representable
    /// length.
    pub open spec fn wf(&self) -> bool {
        &&& self.sep().wf()
        &&& (!self.consumed() ==> all_wf(self.items()) && self.joined().len() <= usize::MAX)
    }

    /// Wraps the given items and separator.
    pub fn new(iter: Vec<T>, separator: S) -> (j: Self)
        requires
            all_wf(iter@),
            separator.wf(),
            joined_text(texts_of(iter@), separator.text()).len() <= usize::MAX,
        ensures
            j.wf(),
            !j.consumed(),
            j.items() == iter@,
            j.sep() == separator,
    {
        Self { iter: Some(iter), separator }
    }

    /// Writes the items joined by the separator, or fails with
    /// [`RenderError::Reuse`] — leaving the sink untouched — if a render
    /// already consumed them.
    pub fn render(&mut self, sink: &mut Sink) -> (r: Result<(), RenderError>)
        requires
            old(self).wf(),
            old(sink).wf(),
        ensures
            final(self).wf(),
            final(self).consumed(),
            final(sink).wf(),
            final(sink).forwards() == old(sink).forwards(),
            final(sink).limit() == old(sink).limit(),
            old(self).consumed() ==> r == Err::<(), RenderError>(RenderError::Reuse)
                && *final(sink) == *old(sink),
            !old(self).consumed() ==> (r is Ok <==> old(sink).fits(old(self).joined().len())),
            !old(self).consumed() && r is Ok ==> final(sink).written() == old(sink).written()
                + old(self).joined().len(),
            !old(self).consumed() && r is Ok ==> final(sink).content() == old(sink).content() + (
            if old(sink).forwards() {
                old(self).joined()
            } else {
                Seq::<char>::empty()
            }),
            !old(self).consumed() && r is Err ==> r == Err::<(), RenderError>(
                RenderError::SinkWrite,
            ),
    {
        let taken = self.iter.take();
        match taken {
            None => Err(RenderError::Reuse),
            Some(v) => {
                let ghost items = v@;
                let ghost n = items.len() as int;
                let ghost ts = texts_of(items);
                let ghost sep = self.separator.text();
                let ghost jt = joined_text(ts, sep);
                let mut tagger = LastIterationIterator::new(v);
                let ghost mut k: int = 0;
                loop
                    invariant_except_break
                        tagger.remaining() =~= items.skip(k),
                        sink.written() == old(sink).written() + cat_sep(ts.take(k), sep).len(),
                        sink.content() == old(sink).content() + (if old(sink).forwards() {
                            cat_sep(ts.take(k), sep)
                        } else {
                            Seq::<char>::empty()
                        }),
                    invariant
                        0 <= k <= n,
                        k < n || n == 0,
                        n == items.len() && ts == texts_of(items) && jt == joined_text(ts, sep),
                        !old(self).consumed(),
                        items == old(self).items(),
                        jt == old(self).joined(),
                        all_wf(items),
                        self.iter is None,
                        self.separator.wf(),
                        sep == self.separator.text(),
                        jt.len() <= usize::MAX,
                        sink.wf(),
                        sink.forwards() == old(sink).forwards(),
                        sink.limit() == old(sink).limit(),
                    ensures
                        sink.wf(),
                        sink.forwards() == old(sink).forwards(),
                        sink.limit() == old(sink).limit(),
                        sink.written() == old(sink).written() + jt.len(),
                        sink.content() == old(sink).content() + (if old(sink).forwards() {
                            jt
                        } else {
                            Seq::<char>::empty()
                        }),
                    decreases n - k,
                {
                    match tagger.next() {
                        None => {
                            proof {
                                assert(n == 0);
                                assert(ts.take(0) =~= Seq::<Seq<char>>::empty());
                                assert(old(sink).content() + Seq::<char>::empty() =~= old(
                                    sink,
                                ).content());
                            }
                            break ;
                        },
                        Some((is_last, item)) => {
                            proof {
                                assert(item == items[k]);
                                assert(texts_of(items.skip(k)) =~= ts.skip(k));
                                lemma_joined_decompose(ts, sep, k);
                            }
                            match item.render(sink) {
                                Err(e) => {
                                    proof {
                                        assert(joined_text(ts.skip(k), sep).len() >= ts.skip(
                                            k,
                                        )[0].len());
                                    }
                                    return Err(e);
                                },
                                Ok(_) => {},
                            }
                            if is_last {
                                proof {
                                    assert(items.skip(k).len() == 1);
                                    assert(joined_text(ts.skip(k), sep) == ts.skip(k)[0]);
                                    assert(ts.skip(k)[0] == ts[k]);
                                    if old(sink).forwards() {
                                        assert(old(sink).content() + cat_sep(ts.take(k), sep)
                                            + ts[k] =~= old(sink).content() + (cat_sep(
                                            ts.take(k),
                                            sep,
                                        ) + ts[k]));
                                    }
                                }
                                break ;
                            }
                            proof {
                                assert(items.skip(k).len() >= 2);
                                assert(joined_text(ts.skip(k), sep).len() >= ts.skip(k)[0].len()
                                    + sep.len());
                            }
                            match self.separator.render(sink) {
                                Err(e) => {
                                    return Err(e);
                                },
                                Ok(_) => {},
                            }
                            proof {
                                lemma_cat_sep_take_step(ts, sep, k);
                                if old(sink).forwards() {
                                    assert(old(sink).content() + cat_sep(ts.take(k), sep) + ts[k]
                                        + sep =~= old(sink).content() + cat_sep(
                                        ts.take(k + 1),
                                        sep,
                                    ));
                                }
                                assert(items.skip(k).drop_first() =~= items.skip(k + 1));
                                k = k + 1;
                            }
                        },
                    }
                }
                Ok(())
            },
        }
    }

    /// Renders into a fresh unbounded sink, consuming the items; the
    /// result is their joined text.  Fails with [`RenderError::Reuse`]
    /// if a render already consumed them.
    pub fn to_string(&mut self) -> (r: Result<String, RenderError>)
        requires
            old(self).wf(),
        ensures
            final(self).wf(),
            final(self).consumed(),
            old(self).consumed() ==> r == Err::<String, RenderError>(RenderError::Reuse),
            !old(self).consumed() ==> (r matches Ok(s) && s@ == old(self).joined()),
    {
        let mut sink = Sink::collecting();
        match self.render(&mut sink) {
            Ok(_) => Ok(sink.into_string()),
            Err(e) => Err(e),
        }
    }
}

} // verus!
