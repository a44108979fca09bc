//! Rendering with search-and-replace: the wrapped value's text with
//! every non-overlapping occurrence of one text replaced, left to
//! right, by another.

use vstd::prelude::*;

use crate::render::Renderable;
use crate::sink::RenderError;
use crate::sink::Sink;
use crate::text::chars_to_string;
use crate::text::str_to_chars;

verus! {

/// `s` with every non-overlapping occurrence of `pat` replaced by
/// `rep`, scanning left to right.  An empty pattern matches before
/// every character and at the end, as string replacement does.
pub open spec fn replace_text(s: Seq<char>, pat: Seq<char>, rep: Seq<char>) -> Seq<char>
    decreases s.len(),
{
    if pat.len() == 0 {
        if s.len() == 0 {
            rep
        } else {
            rep + seq![s[0]] + replace_text(s.drop_first(), pat, rep)
        }
    } else if s.len() < pat.len() {
        s
    } else if s.take(pat.len() as int) == pat {
        rep + replace_text(s.skip(pat.len() as int), pat, rep)
    } else {
        seq![s[0]] + replace_text(s.drop_first(), pat, rep)
    }
}

/// Whether `pat` occurs in `s` at position `i`.
fn match_at(s: &Vec<char>, pat: &Vec<char>, i: usize) -> (r: bool)
    requires
        i + pat@.len() <= s@.len(),
    ensures
        r == (s@.subrange(i as int, i + pat@.len()) == pat@),
{
    let slen = s.len();
    let mut j: usize = 0;
    while j < pat.len()
        invariant
            j <= pat@.len(),
            i + pat@.len() <= s@.len(),
            slen == s@.len(),
            forall|l: int| 0 <= l < j ==> s@[i + l] == pat@[l],
        decreases pat@.len() - j,
    {
        if s[i + j] != pat[j] {
            proof {
                assert(s@.subrange(i as int, i + pat@.len())[j as int] != pat@[j as int]);
            }
            return false;
        }
        j = j + 1;
    }
    proof {
        assert(s@.subrange(i as int, i + pat@.len()) =~= pat@);
    }
    true
}

/// `s` with every occurrence of `pat` replaced by `rep`.
pub fn replace_chars(s: &Vec<char>, pat: &Vec<char>, rep: &Vec<char>) -> (out: Vec<char>)
    ensures
        out@ == replace_text(s@, pat@, rep@),
{
    let mut out: Vec<char> = Vec::new();
    let mut i: usize = 0;
    proof {
        assert(s@.skip(0) =~= s@);
    }
    while i < s.len()
        invariant
            i <= s@.len(),
            replace_text(s@, pat@, rep@) == out@ + replace_text(s@.skip(i as int), pat@, rep@),
        decreases s@.len() - i,
    {
        let ghost rest = s@.skip(i as int);
        if pat.len() > 0 && pat.len() <= s.len() - i && match_at(s, pat, i) {
            proof {
                assert(rest.take(pat@.len() as int) =~= s@.subrange(i as int, i + pat@.len()));
                assert(rest.skip(pat@.len() as int) =~= s@.skip(i + pat@.len()));
                assert(replace_text(rest, pat@, rep@) == rep@ + replace_text(
                    s@.skip(i + pat@.len()),
                    pat@,
                    rep@,
                ));
                assert((out@ + rep@) + replace_text(s@.skip(i + pat@.len()), pat@, rep@) =~= out@
                    + (rep@ + replace_text(s@.skip(i + pat@.len()), pat@, rep@)));
            }
            out.extend_from_slice(rep.as_slice());
            i = i + pat.len();
        } else if pat.len() == 0 {
            proof {
                assert(rest.len() > 0);
                assert(rest[0] == s@[i as int]);
                assert(rest.drop_first() =~= s@.skip(i + 1));
                assert(replace_text(rest, pat@, rep@) == rep@ + seq![s@[i as int]] + replace_text(
                    s@.skip(i + 1),
                    pat@,
                    rep@,
                ));
                assert(((out@ + rep@) + seq![s@[i as int]]) + replace_text(
                    s@.skip(i + 1),
                    pat@,
                    rep@,
                ) =~= out@ + ((rep@ + seq![s@[i as int]]) + replace_text(
                    s@.skip(i + 1),
                    pat@,
                    rep@,
                )));
            }
            out.extend_from_slice(rep.as_slice());
            out.push(s[i]);
            i = i + 1;
        } else {
            proof {
                assert(rest.len() > 0);
                assert(rest[0] == s@[i as int]);
                assert(rest.drop_first() =~= s@.skip(i + 1));
                if rest.len() >= pat@.len() {
                    assert(rest.take(pat@.len() as int) =~= s@.subrange(
                        i as int,
                        i + pat@.len(),
                    ));
                }
                assert(replace_text(rest, pat@, rep@) == seq![s@[i as int]] + replace_text(
                    s@.skip(i + 1),
                    pat@,
                    rep@,
                ));
                assert((out@ + seq![s@[i as int]]) + replace_text(s@.skip(i + 1), pat@, rep@)
                    =~= out@ + (seq![s@[i as int]] + replace_text(s@.skip(i + 1), pat@, rep@)));
            }
            out.push(s[i]);
            i = i + 1;
        }
    }
    proof {
        assert(s@.skip(s@.len() as int) =~= Seq::<char>::empty());
        if pat@.len() == 0 {
            assert(replace_text(Seq::<char>::empty(), pat@, rep@) == rep@);
        } else {
            assert(replace_text(Seq::<char>::empty(), pat@, rep@) =~= Seq::<char>::empty());
            assert(out@ + Seq::<char>::empty() =~= out@);
        }
    }
    if pat.len() == 0 {
        out.extend_from_slice(rep.as_slice());
    }
    out
}

/// Renders a value's text with one text replaced by another
/// throughout.
pub struct Replace<T, R1, R2> {
    item: T,
    replacement1: R1,
    replacement2: R2,
}

impl<T: Renderable, R1: Renderable, R2: Renderable> Replace<T, R1, R2> {
    /// The wrapped value.
    pub closed spec fn spec_item(&self) -> T {
        self.item
    }

    /// The text being searched for.
    pub closed spec fn spec_pat(&self) -> R1 {
        self.replacement1
    }

    /// The text put in its place.
    pub closed spec fn spec_rep(&self) -> R2 {
        self.replacement2
    }

    /// Wraps the value and the two replacement texts.
    pub fn new(item: T, replacement1: R1, replacement2: R2) -> (r: Self)
        requires
            item.wf(),
            replacement1.wf(),
            replacement2.wf(),
            replace_text(item.text(), replacement1.text(), replacement2.text()).len()
                <= usize::MAX,
        ensures
            r.wf(),
            r.spec_item() == item,
            r.spec_pat() == replacement1,
            r.spec_rep() == replacement2,
    {
        Self { item, replacement1, replacement2 }
    }
}

impl<T: Renderable, R1: Renderable, R2: Renderable> Renderable for Replace<T, R1, R2> {
    open spec fn wf(&self) -> bool {
        &&& self.spec_item().wf()
        &&& self.spec_pat().wf()
        &&& self.spec_rep().wf()
        &&& self.text().len() <= usize::MAX
    }

    open spec fn text(&self) -> Seq<char> {
        replace_text(self.spec_item().text(), self.spec_pat().text(), self.spec_rep().text())
    }

    proof fn text_bounded(&self) {
    }

    fn render(&self, sink: &mut Sink) -> (r: Result<(), RenderError>) {
        let item = stringify(&self.item);
        let pat = stringify(&self.replacement1);
        let rep = stringify(&self.replacement2);
        let item = match item {
            Ok(s) => s,
            Err(e) => {
                return Err(e);
            },
        };
        let pat = match pat {
            Ok(s) => s,
            Err(e) => {
                return Err(e);
            },
        };
        let rep = match rep {
            Ok(s) => s,
            Err(e) => {
                return Err(e);
            },
        };
        let item = str_to_chars(item.as_str());
        let pat = str_to_chars(pat.as_str());
        let rep = str_to_chars(rep.as_str());
        let replaced = replace_chars(&item, &pat, &rep);
        let s = chars_to_string(&replaced);
        sink.write_str(s.as_str())
    }
}

/// A renderer's whole text in one string.
pub fn stringify<T: Renderable>(t: &T) -> (r: Result<String, RenderError>)
    requires
        t.wf(),
    ensures
        r matches Ok(s) && s@ == t.text(),
{
    Ok(t.to_string())
}

} // verus!
