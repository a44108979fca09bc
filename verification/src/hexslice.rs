//! Rendering a sequence of numbers as a bracketed list of lowercase
//! hexadecimal digit strings.

use vstd::prelude::*;

use crate::adapters::LowerHex;
use crate::num::hex_digits;
use crate::render::texts_of;
use crate::render::Renderable;
use crate::sink::RenderError;
use crate::sink::Sink;
use crate::slice::listed_text;
use crate::slice::Slice;

verus! {

/// The hexadecimal texts of the given numbers, in order.
pub open spec fn hex_texts(ns: Seq<u64>) -> Seq<Seq<char>> {
    ns.map_values(|n: u64| hex_digits(n as nat, false))
}

/// Renders its numbers between square brackets as lowercase
/// hexadecimal, separated by a comma and a space.
pub struct HexSlice {
    item: Slice<LowerHex>,
    nums: Ghost<Seq<u64>>,
}

impl HexSlice {
    /// The numbers, in order.
    pub closed spec fn nums(&self) -> Seq<u64> {
        self.nums@
    }

    /// The renderer's invariant: the wrapped list renders exactly the
    /// numbers' hexadecimal texts.
    pub closed spec fn wf(&self) -> bool {
        &&& self.item.wf()
        &&& texts_of(self.item.items()) == hex_texts(self.nums())
    }

    /// The text this renderer emits.
    pub open spec fn text(&self) -> Seq<char> {
        listed_text(hex_texts(self.nums()))
    }

    /// Wraps the given numbers.
    pub fn new(item: Vec<u64>) -> (h: Self)
        requires
            listed_text(hex_texts(item@)).len() <= usize::MAX,
        ensures
            h.wf(),
            h.nums() == item@,
    {
        let ghost nums = item@;
        let mut wrapped: Vec<LowerHex> = Vec::new();
        let mut i: usize = 0;
        while i < item.len()
            invariant
                i <= item@.len(),
                item@ == nums,
                wrapped@.len() == i,
                forall|j: int| 0 <= j < i ==> (#[trigger] wrapped@[j]).wf(),
                forall|j: int|
                    0 <= j < i ==> (#[trigger] wrapped@[j]).text() == hex_digits(
                        nums[j] as nat,
                        false,
                    ),
            decreases item@.len() - i,
        {
            wrapped.push(LowerHex::new(item[i]));
            i = i + 1;
        }
        proof {
            assert(texts_of(wrapped@) =~= hex_texts(nums));
        }
        Self { item: Slice::new(wrapped), nums: Ghost(nums) }
    }

    /// Writes the bracketed hexadecimal list into the sink; succeeds
    /// exactly when it fits the sink's remaining capacity.
    pub fn render(&self, sink: &mut Sink) -> (r: Result<(), RenderError>)
        requires
            self.wf(),
            old(sink).wf(),
        ensures
            final(sink).wf(),
            final(sink).forwards() == old(sink).forwards(),
            final(sink).limit() == old(sink).limit(),
            r is Ok <==> old(sink).fits(self.text().len()),
            r is Ok ==> final(sink).written() == old(sink).written() + self.text().len(),
            r is Ok ==> final(sink).content() == old(sink).content() + (
            if old(sink).forwards() {
                self.text()
            } else {
                Seq::<char>::empty()
            }),
            r is Err ==> r == Err::<(), RenderError>(RenderError::SinkWrite),
    {
        proof {
            assert(texts_of(self.item.items()) =~= hex_texts(self.nums()));
        }
        self.item.render(sink)
    }

    /// Renders into a fresh unbounded sink; the result is the bracketed
    /// hexadecimal list.
    pub fn to_string(&self) -> (r: String)
        requires
            self.wf(),
        ensures
            r@ == self.text(),
    {
        let mut sink = Sink::collecting();
        let res = self.render(&mut sink);
        sink.into_string()
    }
}

} // verus!
