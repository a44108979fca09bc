//! The rendering capability: a value that can write its text form into a
//! [`Sink`].
//!
//! The contract of [`Renderable::render`] pins the behaviour down exactly:
//! rendering succeeds precisely when the renderer's text fits the sink's
//! remaining capacity, and on success the sink has received exactly that
//! text.  Renderers that may be used only once do not implement this trait;
//! they expose their own `render` taking `&mut self` (see the single-use
//! adapters), so the type system keeps them out of multi-pass contexts.

use vstd::prelude::*;

use crate::sink::RenderError;
use crate::sink::Sink;
use crate::textspec::cat_sep;
use crate::textspec::joined_text;
use crate::textspec::lemma_cat_sep_decompose;
use crate::textspec::lemma_cat_sep_take_step;
use crate::textspec::lemma_joined_decompose;

verus! {

/// The texts of the given renderers, in order.
pub open spec fn texts_of<T: Renderable>(items: Seq<T>) -> Seq<Seq<char>> {
    items.map_values(|t: T| t.text())
}

/// Whether every renderer in the sequence is well-formed.
pub open spec fn all_wf<T: Renderable>(items: Seq<T>) -> bool {
    forall|i: int| 0 <= i < items.len() ==> (#[trigger] items[i]).wf()
}

/// A value able to write its text form into a [`Sink`], any number of
/// times.
pub trait Renderable {
    /// The renderer's structural invariant.  It implies, via
    /// [`Renderable::text_bounded`], that the emitted text has a
    /// machine-representable length.
    spec fn wf(&self) -> bool;

    /// The exact character sequence this renderer emits.
    spec fn text(&self) -> Seq<char>;

    /// A well-formed renderer's text fits in a machine-sized count.
    proof fn text_bounded(&self)
        requires
            self.wf(),
        ensures
            self.text().len() <= usize::MAX,
    ;

    /// Writes the renderer's text into the sink.  Succeeds exactly when
    /// the text fits the sink's remaining capacity; on success the sink
    /// has received exactly [`Renderable::text`].
    fn render(&self, sink: &mut Sink) -> (r: Result<(), RenderError>)
        requires
            self.wf(),
            old(sink).wf(),
        ensures
            final(sink).wf(),
            final(sink).forwards() == old(sink).forwards(),
            final(sink).limit() == old(sink).limit(),
            r is Ok <==> old(sink).fits(self.text().len()),
            r is Ok ==> final(sink).written() == old(sink).written() + self.text().len(),
            r is Ok ==> final(sink).content() == old(sink).content() + (
            if old(sink).forwards() {
                self.text()
            } else {
                Seq::<char>::empty()
            }),
            r is Err ==> r == Err::<(), RenderError>(RenderError::SinkWrite),
    ;

    /// Renders into a fresh unbounded sink and returns the result, which
    /// is exactly [`Renderable::text`].
    fn to_string(&self) -> (r: String)
        requires
            self.wf(),
        ensures
            r@ == self.text(),
    {
        let mut sink = Sink::collecting();
        proof {
            self.text_bounded();
        }
        let res = self.render(&mut sink);
        sink.into_string()
    }
}

/// The text of the given renderers, each followed by a newline.
pub open spec fn lines_text<T: Renderable>(items: Seq<T>) -> Seq<char> {
    cat_sep(texts_of(items), seq!['\n'])
}

/// Writes every item in order, each followed by a newline; the shared
/// loop behind the single-use line renderers.
pub(crate) fn render_lines<T: Renderable>(items: &Vec<T>, sink: &mut Sink) -> (r: Result<
    (),
    RenderError,
>)
    requires
        all_wf(items@),
        old(sink).wf(),
    ensures
        final(sink).wf(),
        final(sink).forwards() == old(sink).forwards(),
        final(sink).limit() == old(sink).limit(),
        r is Ok <==> old(sink).fits(lines_text(items@).len()),
        r is Ok ==> final(sink).written() == old(sink).written() + lines_text(items@).len(),
        r is Ok ==> final(sink).content() == old(sink).content() + (if old(sink).forwards() {
            lines_text(items@)
        } else {
            Seq::<char>::empty()
        }),
        r is Err ==> r == Err::<(), RenderError>(RenderError::SinkWrite),
{
    let ghost seq_items = items@;
    let ghost ts = texts_of(seq_items);
    let ghost nl: Seq<char> = seq!['\n'];
    let ghost ct = cat_sep(ts, nl);
    let n = items.len();
    let mut i: usize = 0;
    while i < n
        invariant
            i <= n,
            n == seq_items.len() && items@ == seq_items,
            ts == texts_of(seq_items),
            nl == seq!['\n'],
            ct == cat_sep(ts, nl) && ct == lines_text(seq_items),
            all_wf(seq_items),
            sink.wf(),
            sink.forwards() == old(sink).forwards(),
            sink.limit() == old(sink).limit(),
            sink.written() == old(sink).written() + cat_sep(ts.take(i as int), nl).len(),
            sink.content() == old(sink).content() + (if old(sink).forwards() {
                cat_sep(ts.take(i as int), nl)
            } else {
                Seq::<char>::empty()
            }),
        decreases n - i,
    {
        let item = &items[i];
        proof {
            assert(item == seq_items[i as int]);
            assert(texts_of(seq_items.skip(i as int)) =~= ts.skip(i as int));
            lemma_cat_sep_decompose(ts, nl, i as int);
            assert(cat_sep(ts.skip(i as int), nl).len() >= ts.skip(i as int)[0].len() + 1);
        }
        match item.render(sink) {
            Err(e) => {
                return Err(e);
            },
            Ok(_) => {},
        }
        match sink.write_char('\n') {
            Err(e) => {
                return Err(e);
            },
            Ok(_) => {},
        }
        proof {
            lemma_cat_sep_take_step(ts, nl, i as int);
            if old(sink).forwards() {
                assert(old(sink).content() + cat_sep(ts.take(i as int), nl) + ts[i as int] + nl
                    =~= old(sink).content() + cat_sep(ts.take(i + 1 as int), nl));
            }
            assert(cat_sep(ts.take(i + 1 as int), nl).len() == cat_sep(ts.take(i as int), nl).len()
                + ts[i as int].len() + 1);
        }
        i = i + 1;
    }
    proof {
        assert(ts.take(n as int) =~= ts);
        if !old(sink).forwards() {
            assert(old(sink).content() + Seq::<char>::empty() =~= old(sink).content());
        }
    }
    Ok(())
}

/// Writes the items joined by a literal separator string: the separator
/// stands between consecutive items and nowhere else.
pub(crate) fn render_joined_str<T: Renderable>(items: &Vec<T>, sep: &str, sink: &mut Sink) -> (r:
    Result<(), RenderError>)
    requires
        all_wf(items@),
        old(sink).wf(),
    ensures
        final(sink).wf(),
        final(sink).forwards() == old(sink).forwards(),
        final(sink).limit() == old(sink).limit(),
        r is Ok <==> old(sink).fits(joined_text(texts_of(items@), sep@).len()),
        r is Ok ==> final(sink).written() == old(sink).written() + joined_text(
            texts_of(items@),
            sep@,
        ).len(),
        r is Ok ==> final(sink).content() == old(sink).content() + (if old(sink).forwards() {
            joined_text(texts_of(items@), sep@)
        } else {
            Seq::<char>::empty()
        }),
        r is Err ==> r == Err::<(), RenderError>(RenderError::SinkWrite),
{
    let ghost seq_items = items@;
    let ghost ts = texts_of(seq_items);
    let ghost sp = sep@;
    let ghost jt = joined_text(ts, sp);
    let n = items.len();
    let mut i: usize = 0;
    loop
        invariant_except_break
            sink.written() == old(sink).written() + cat_sep(ts.take(i as int), sp).len(),
            sink.content() == old(sink).content() + (if old(sink).forwards() {
                cat_sep(ts.take(i as int), sp)
            } else {
                Seq::<char>::empty()
            }),
        invariant
            0 <= i <= n,
            i < n || n == 0,
            n == seq_items.len() && items@ == seq_items,
            ts == texts_of(seq_items),
            sp == sep@,
            jt == joined_text(ts, sp),
            all_wf(seq_items),
            sink.wf(),
            sink.forwards() == old(sink).forwards(),
            sink.limit() == old(sink).limit(),
        ensures
            sink.wf(),
            sink.forwards() == old(sink).forwards(),
            sink.limit() == old(sink).limit(),
            sink.written() == old(sink).written() + jt.len(),
            sink.content() == old(sink).content() + (if old(sink).forwards() {
                jt
            } else {
                Seq::<char>::empty()
            }),
        decreases n - i,
    {
        if i >= n {
            proof {
                assert(n == 0);
                assert(ts.take(0) =~= Seq::<Seq<char>>::empty());
                assert(old(sink).content() + Seq::<char>::empty() =~= old(sink).content());
            }
            break ;
        }
        let item = &items[i];
        proof {
            assert(item == seq_items[i as int]);
            assert(texts_of(seq_items.skip(i as int)) =~= ts.skip(i as int));
            lemma_joined_decompose(ts, sp, i as int);
        }
        match item.render(sink) {
            Err(e) => {
                proof {
                    assert(joined_text(ts.skip(i as int), sp).len() >= ts.skip(i as int)[0].len());
                }
                return Err(e);
            },
            Ok(_) => {},
        }
        if i == n - 1 {
            proof {
                assert(seq_items.skip(i as int).len() == 1);
                assert(joined_text(ts.skip(i as int), sp) == ts.skip(i as int)[0]);
                assert(ts.skip(i as int)[0] == ts[i as int]);
                if old(sink).forwards() {
                    assert(old(sink).content() + cat_sep(ts.take(i as int), sp) + ts[i as int]
                        =~= old(sink).content() + (cat_sep(ts.take(i as int), sp) + ts[i as int]));
                }
            }
            break ;
        }
        proof {
            assert(seq_items.skip(i as int).len() >= 2);
            assert(joined_text(ts.skip(i as int), sp).len() >= ts.skip(i as int)[0].len()
                + sp.len());
        }
        match sink.write_str(sep) {
            Err(e) => {
                return Err(e);
            },
            Ok(_) => {},
        }
        proof {
            lemma_cat_sep_take_step(ts, sp, i as int);
            if old(sink).forwards() {
                assert(old(sink).content() + cat_sep(ts.take(i as int), sp) + ts[i as int] + sp
                    =~= old(sink).content() + cat_sep(ts.take(i + 1 as int), sp));
            }
        }
        i = i + 1;
    }
    Ok(())
}

} // verus!
