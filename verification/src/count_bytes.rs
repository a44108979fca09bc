//! A byte counter: measures how many bytes a renderer's output takes,
//! without keeping the output.

use vstd::prelude::*;

use crate::render::Renderable;
use crate::sink::Sink;
use crate::textspec::byte_len;

verus! {

/// Accumulates the byte length of the text written through it.
pub struct CountBytes {
    counter: usize,
}

impl CountBytes {
    /// The bytes counted so far.
    pub closed spec fn counted(&self) -> nat {
        self.counter as nat
    }

    /// A counter starting at zero.
    pub fn new() -> (c: Self)
        ensures
            c.counted() == 0,
    {
        Self { counter: 0 }
    }

    /// Adds the byte length of one chunk to the count.
    pub fn write_str(&mut self, s: &str)
        requires
            old(self).counted() + byte_len(s@) <= usize::MAX,
        ensures
            final(self).counted() == old(self).counted() + byte_len(s@),
    {
        self.counter = self.counter + s.len();
    }

    /// The byte length of the renderer's whole output.
    pub fn count<R: Renderable>(item: &R) -> (n: usize)
        requires
            item.wf(),
            byte_len(item.text()) <= usize::MAX,
        ensures
            n == byte_len(item.text()),
    {
        let mut sink = Sink::collecting();
        proof {
            item.text_bounded();
        }
        let res = item.render(&mut sink);
        let s = sink.into_string();
        s.as_str().len()
    }
}

} // verus!
