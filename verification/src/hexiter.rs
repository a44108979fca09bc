//! Rendering a sequence of numbers as lowercase hexadecimal digit
//! strings joined by a comma and a space, with constructors for an
//! owned sequence and for a closure that produces one.

use vstd::prelude::*;

use crate::adapters::LowerHex;
use crate::hexslice::hex_texts;
use crate::render::render_joined_str;
use crate::render::texts_of;
use crate::render::Renderable;
use crate::sink::RenderError;
use crate::sink::Sink;
use crate::textspec::joined_text;

verus! {

/// The hexadecimal join of the given numbers: their lowercase digit
/// strings separated by a comma and a space.
pub open spec fn hex_joined(ns: Seq<u64>) -> Seq<char> {
    joined_text(hex_texts(ns), ", "@)
}

/// Renders its numbers as lowercase hexadecimal, separated by a comma
/// and a space.
pub struct HexIter {
    items: Vec<LowerHex>,
    nums: Ghost<Seq<u64>>,
}

impl HexIter {
    /// The numbers, in order.
    pub closed spec fn nums(&self) -> Seq<u64> {
        self.nums@
    }

    /// The renderer's invariant: the held digit renderers match the
    /// numbers and the joined text has a machine-representable length.
    pub closed spec fn wf(&self) -> bool {
        &&& forall|i: int| 0 <= i < self.items@.len() ==> (#[trigger] self.items@[i]).wf()
        &&& texts_of(self.items@) == hex_texts(self.nums())
        &&& self.text().len() <= usize::MAX
    }

    /// The text this renderer emits.
    pub open spec fn text(&self) -> Seq<char> {
        hex_joined(self.nums())
    }

    /// Wraps the given numbers.
    fn from_nums(iter: Vec<u64>) -> (h: Self)
        requires
            hex_joined(iter@).len() <= usize::MAX,
        ensures
            h.wf(),
            h.nums() == iter@,
    {
        let ghost nums = iter@;
        let mut wrapped: Vec<LowerHex> = Vec::new();
        let mut i: usize = 0;
        while i < iter.len()
            invariant
                i <= iter@.len(),
                iter@ == nums,
                wrapped@.len() == i,
                forall|j: int| 0 <= j < i ==> (#[trigger] wrapped@[j]).wf(),
                forall|j: int|
                    0 <= j < i ==> (#[trigger] wrapped@[j]).text()
                        == crate::num::hex_digits(nums[j] as nat, false),
            decreases iter@.len() - i,
        {
            wrapped.push(LowerHex::new(iter[i]));
            i = i + 1;
        }
        proof {
            assert(texts_of(wrapped@) =~= hex_texts(nums));
        }
        Self { items: wrapped, nums: Ghost(nums) }
    }

    /// Wraps numbers produced by the given closure.
    pub fn new_fn<F: Fn() -> Vec<u64>>(closure: F) -> (h: Self)
        requires
            call_requires(closure, ()),
            forall|v: Vec<u64>|
                #[trigger] call_ensures(closure, (), v) ==> hex_joined(v@).len() <= usize::MAX,
        ensures
            h.wf(),
            exists|v: Vec<u64>| #[trigger] call_ensures(closure, (), v) && h.nums() == v@,
    {
        let v = closure();
        Self::from_nums(v)
    }

    /// Wraps a copied sequence of numbers.
    pub fn new_copy(iter: Vec<u64>) -> (h: Self)
        requires
            hex_joined(iter@).len() <= usize::MAX,
        ensures
            h.wf(),
            h.nums() == iter@,
    {
        Self::from_nums(iter)
    }

    /// Wraps a cloned sequence of numbers.
    pub fn new_clone(iter: Vec<u64>) -> (h: Self)
        requires
            hex_joined(iter@).len() <= usize::MAX,
        ensures
            h.wf(),
            h.nums() == iter@,
    {
        Self::from_nums(iter)
    }

    /// Writes the joined hexadecimal texts into the sink; succeeds
    /// exactly when they fit the sink's remaining capacity.
    pub fn render(&self, sink: &mut Sink) -> (r: Result<(), RenderError>)
        requires
            self.wf(),
            old(sink).wf(),
        ensures
            final(sink).wf(),
            final(sink).forwards() == old(sink).forwards(),
            final(sink).limit() == old(sink).limit(),
            r is Ok <==> old(sink).fits(self.text().len()),
            r is Ok ==> final(sink).written() == old(sink).written() + self.text().len(),
            r is Ok ==> final(sink).content() == old(sink).content() + (
            if old(sink).forwards() {
                self.text()
            } else {
                Seq::<char>::empty()
            }),
            r is Err ==> r == Err::<(), RenderError>(RenderError::SinkWrite),
    {
        render_joined_str(&self.items, ", ", sink)
    }

    /// Renders into a fresh unbounded sink; the result is the joined
    /// hexadecimal text.
    pub fn to_string(&self) -> (r: String)
        requires
            self.wf(),
        ensures
            r@ == self.text(),
    {
        let mut sink = Sink::collecting();
        let res = self.render(&mut sink);
        sink.into_string()
    }
}

} // verus!
