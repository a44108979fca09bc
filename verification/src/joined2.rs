//! Joining a sequence of renderers with a separator and a distinct final
//! separator, over a sequence that stays available for repeated renders.
//!
//! Unlike the take-once variant in [`crate::joined`], this renderer keeps
//! its items, so it implements [`Renderable`] and can itself be padded,
//! wrapped or rendered any number of times.  Every element but the last
//! is followed by `separator`; the last is followed by
//! `final_separator`.

use vstd::prelude::*;

use crate::render::all_wf;
use crate::render::texts_of;
use crate::render::Renderable;
use crate::sink::RenderError;
use crate::sink::Sink;
use crate::textspec::cat_sep;
use crate::textspec::joined_text_fin;
use crate::textspec::lemma_cat_sep_take_step;
use crate::textspec::lemma_joined_fin_decompose;

verus! {

/// Renders a sequence of items with `separator` between consecutive
/// items and `final_separator` after the last one; rendering leaves the
/// items in place.
pub struct DisplayIteratorJoined<T, S, F> {
    iter: Vec<T>,
    separator: S,
    final_separator: F,
}

impl<T: Renderable, S: Renderable, F: Renderable> DisplayIteratorJoined<T, S, F> {
    /// The items, in order.
    pub closed spec fn items(&self) -> Seq<T> {
        self.iter@
    }

    /// The separator written between consecutive items.
    pub closed spec fn sep(&self) -> S {
        self.separator
    }

    /// The separator written after the final item.
    pub closed spec fn fin(&self) -> F {
        self.final_separator
    }

    /// Wraps the given items and separators.
    pub fn new(iter: Vec<T>, separator: S, final_separator: F) -> (j: Self)
        requires
            all_wf(iter@),
            separator.wf(),
            final_separator.wf(),
            joined_text_fin(texts_of(iter@), separator.text(), final_separator.text()).len()
                <= usize::MAX,
        ensures
            j.wf(),
            j.items() == iter@,
            j.sep() == separator,
            j.fin() == final_separator,
    {
        Self { iter, separator, final_separator }
    }

    /// The held items; rendering does not consume them.
    pub fn iter(&self) -> (r: &Vec<T>)
        ensures
            r@ == self.items(),
    {
        &self.iter
    }
}

impl<T: Renderable, S: Renderable, F: Renderable> Renderable for DisplayIteratorJoined<T, S, F> {
    open spec fn wf(&self) -> bool {
        &&& all_wf(self.items())
        &&& self.sep().wf()
        &&& self.fin().wf()
        &&& self.text().len() <= usize::MAX
    }

    open spec fn text(&self) -> Seq<char> {
        joined_text_fin(texts_of(self.items()), self.sep().text(), self.fin().text())
    }

    proof fn text_bounded(&self) {
    }

    #[verifier::rlimit(60)]
    fn render(&self, sink: &mut Sink) -> (r: Result<(), RenderError>) {
        let ghost items = self.iter@;
        let ghost ts = texts_of(items);
        let ghost sep = self.separator.text();
        let ghost fin = self.final_separator.text();
        let ghost jt = joined_text_fin(ts, sep, fin);
        let n = self.iter.len();
        let mut i: usize = 0;
        loop
            invariant_except_break
                sink.written() == old(sink).written() + cat_sep(ts.take(i as int), sep).len(),
                sink.content() == old(sink).content() + (if old(sink).forwards() {
                    cat_sep(ts.take(i as int), sep)
                } else {
                    Seq::<char>::empty()
                }),
            invariant
                0 <= i <= n,
                i < n || n == 0,
                n == items.len() && ts == texts_of(items) && jt == joined_text_fin(ts, sep, fin),
                items == self.items(),
                jt == self.text(),
                self.wf(),
                sep == self.separator.text(),
                fin == self.final_separator.text(),
                sink.wf(),
                sink.forwards() == old(sink).forwards(),
                sink.limit() == old(sink).limit(),
            ensures
                sink.wf(),
                sink.forwards() == old(sink).forwards(),
                sink.limit() == old(sink).limit(),
                sink.written() == old(sink).written() + jt.len(),
                sink.content() == old(sink).content() + (if old(sink).forwards() {
                    jt
                } else {
                    Seq::<char>::empty()
                }),
            decreases n - i,
        {
            if i >= n {
                proof {
                    assert(n == 0);
                    assert(ts.take(0) =~= Seq::<Seq<char>>::empty());
                    assert(old(sink).content() + Seq::<char>::empty() =~= old(sink).content());
                }
                break ;
            }
            let item = &self.iter[i];
            proof {
                assert(item == items[i as int]);
                assert(texts_of(items.skip(i as int)) =~= ts.skip(i as int));
                lemma_joined_fin_decompose(ts, sep, fin, i as int);
            }
            match item.render(sink) {
                Err(e) => {
                    proof {
                        assert(joined_text_fin(ts.skip(i as int), sep, fin).len() >= ts.skip(
                            i as int,
                        )[0].len());
                    }
                    return Err(e);
                },
                Ok(_) => {},
            }
            if i == n - 1 {
                proof {
                    assert(items.skip(i as int).len() == 1);
                    assert(joined_text_fin(ts.skip(i as int), sep, fin) == ts.skip(i as int)[0]
                        + fin);
                    assert(ts.skip(i as int)[0] == ts[i as int]);
                }
                match self.final_separator.render(sink) {
                    Err(e) => {
                        return Err(e);
                    },
                    Ok(_) => {},
                }
                proof {
                    if old(sink).forwards() {
                        assert(old(sink).content() + cat_sep(ts.take(i as int), sep)
                            + ts[i as int] + fin =~= old(sink).content() + (cat_sep(
                            ts.take(i as int),
                            sep,
                        ) + (ts[i as int] + fin)));
                    }
                }
                break ;
            }
            proof {
                assert(items.skip(i as int).len() >= 2);
                assert(joined_text_fin(ts.skip(i as int), sep, fin).len() >= ts.skip(
                    i as int,
                )[0].len() + sep.len());
            }
            match self.separator.render(sink) {
                Err(e) => {
                    return Err(e);
                },
                Ok(_) => {},
            }
            proof {
                lemma_cat_sep_take_step(ts, sep, i as int);
                if old(sink).forwards() {
                    assert(old(sink).content() + cat_sep(ts.take(i as int), sep) + ts[i as int]
                        + sep =~= old(sink).content() + cat_sep(ts.take(i + 1 as int), sep));
                }
            }
            i = i + 1;
        }
        Ok(())
    }
}

} // verus!
