//! A character counter: measures how many characters a renderer's
//! output holds, without keeping the output.

use vstd::prelude::*;
use vstd::string::StrSliceExecFns;

use crate::render::Renderable;
use crate::sink::Sink;

verus! {

/// Accumulates the character count of the text written through it.
pub struct CountChars {
    counter: usize,
}

impl CountChars {
    /// The characters counted so far.
    pub closed spec fn counted(&self) -> nat {
        self.counter as nat
    }

    /// A counter starting at zero.
    pub fn new() -> (c: Self)
        ensures
            c.counted() == 0,
    {
        Self { counter: 0 }
    }

    /// Adds the character count of one chunk to the count.
    pub fn write_str(&mut self, s: &str)
        requires
            old(self).counted() + s@.len() <= usize::MAX,
        ensures
            final(self).counted() == old(self).counted() + s@.len(),
    {
        self.counter = self.counter + s.unicode_len();
    }

    /// The character count of the renderer's whole output.
    pub fn count<R: Renderable>(item: &R) -> (n: usize)
        requires
            item.wf(),
        ensures
            n == item.text().len(),
    {
        let mut sink = Sink::discarding();
        proof {
            item.text_bounded();
        }
        let res = item.render(&mut sink);
        sink.chars_written()
    }
}

} // verus!
