//! Plain text as a renderable value, and conversions between strings and
//! character vectors.

use vstd::prelude::*;
use vstd::std_specs::iter::IteratorSpec;
use vstd::string::StrSliceExecFns;
use vstd::string::StringExecFns;

use crate::render::Renderable;
use crate::sink::char_string;
use crate::sink::RenderError;
use crate::sink::Sink;

verus! {

/// A piece of literal text: rendering it writes its characters unchanged.
#[derive(Clone)]
pub struct Text {
    s: String,
    chars: Ghost<nat>,
}

impl Text {
    /// Wraps the given string.
    pub fn new(s: &str) -> (t: Text)
        ensures
            t.wf(),
            t.text() == s@,
    {
        let n = s.unicode_len();
        Text { s: s.to_owned(), chars: Ghost(n as nat) }
    }
}

impl Renderable for Text {
    closed spec fn wf(&self) -> bool {
        self.chars@ == self.s@.len() && self.chars@ <= usize::MAX
    }

    closed spec fn text(&self) -> Seq<char> {
        self.s@
    }

    proof fn text_bounded(&self) {
    }

    fn render(&self, sink: &mut Sink) -> (r: Result<(), RenderError>) {
        sink.write_str(self.s.as_str())
    }
}

/// Collects the characters of a string into a vector.
pub fn str_to_chars(s: &str) -> (v: Vec<char>)
    ensures
        v@ == s@,
{
    broadcast use vstd::string::group_string_axioms;

    let mut v: Vec<char> = Vec::new();
    let mut it = s.chars();
    loop
        invariant
            s@ == v@ + it.remaining(),
            it.decrease() is Some,
        ensures
            v@ == s@,
        decreases it.decrease()->0,
    {
        match it.next() {
            Some(c) => {
                v.push(c);
            },
            None => {
                proof {
                    assert(v@ + it.remaining() =~= v@);
                }
                break ;
            },
        }
    }
    v
}

/// Builds a string out of a vector of characters.
pub fn chars_to_string(v: &Vec<char>) -> (s: String)
    ensures
        s@ == v@,
{
    let mut s = String::new();
    let mut i: usize = 0;
    while i < v.len()
        invariant
            i <= v.len(),
            s@ == v@.take(i as int),
        decreases v.len() - i,
    {
        let cs = char_string(v[i]);
        s.append(cs.as_str());
        proof {
            assert(v@.take(i as int) + seq![v@[i as int]] =~= v@.take(i + 1 as int));
        }
        i = i + 1;
    }
    proof {
        assert(v@.take(v@.len() as int) =~= v@);
    }
    s
}

} // verus!
