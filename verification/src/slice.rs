//! Rendering a sequence of items in bracketed list form.

use vstd::prelude::*;

use crate::render::all_wf;
use crate::render::render_joined_str;
use crate::render::texts_of;
use crate::render::Renderable;
use crate::sink::RenderError;
use crate::sink::Sink;
use crate::textspec::joined_text;

verus! {

/// The bracketed list form of the given texts: `[a, b, c]`.
pub open spec fn listed_text(ts: Seq<Seq<char>>) -> Seq<char> {
    seq!['['] + joined_text(ts, ", "@) + seq![']']
}

/// Renders its items between square brackets, separated by a comma and
/// a space; rendering leaves the items in place.
pub struct Slice<T> {
    item: Vec<T>,
}

impl<T: Renderable> Slice<T> {
    /// The items, in order.
    pub closed spec fn items(&self) -> Seq<T> {
        self.item@
    }

    /// Wraps the given items.
    pub fn new(item: Vec<T>) -> (s: Self)
        requires
            all_wf(item@),
            listed_text(texts_of(item@)).len() <= usize::MAX,
        ensures
            s.wf(),
            s.items() == item@,
    {
        Self { item }
    }
}

impl<T: Renderable> Renderable for Slice<T> {
    open spec fn wf(&self) -> bool {
        &&& all_wf(self.items())
        &&& self.text().len() <= usize::MAX
    }

    open spec fn text(&self) -> Seq<char> {
        listed_text(texts_of(self.items()))
    }

    proof fn text_bounded(&self) {
    }

    fn render(&self, sink: &mut Sink) -> (r: Result<(), RenderError>) {
        let ghost jt = joined_text(texts_of(self.items()), ", "@);
        proof {
            reveal_strlit("[");
            reveal_strlit("]");
            reveal_strlit(", ");
        }
        if let Err(e) = sink.write_str("[") {
            return Err(e);
        }
        if let Err(e) = render_joined_str(&self.item, ", ", sink) {
            return Err(e);
        }
        if let Err(e) = sink.write_str("]") {
            return Err(e);
        }
        proof {
            if old(sink).forwards() {
                assert(old(sink).content() + "["@ + jt + "]"@ =~= old(sink).content()
                    + self.text());
            }
            assert(("["@ + jt + "]"@).len() == self.text().len());
        }
        Ok(())
    }
}

} // verus!
