//! Deferred rendering of a stored value through a stored formatting
//! function.

use vstd::prelude::*;

use crate::sink::RenderError;
use crate::sink::Sink;

verus! {

/// Renders a stored value with a stored formatting function.
pub struct Disp<T, F> {
    item: T,
    func: F,
}

impl<T, F: Fn(&T) -> String> Disp<T, F> {
    /// The stored value.
    pub closed spec fn spec_item(&self) -> T {
        self.item
    }

    /// The stored formatting function.
    pub closed spec fn spec_func(&self) -> F {
        self.func
    }

    /// The renderer's invariant: the function accepts the value.
    pub open spec fn wf(&self) -> bool {
        call_requires(self.spec_func(), (&self.spec_item(),))
    }

    /// Wraps the given value and formatting function.
    pub fn new(item: T, func: F) -> (d: Self)
        requires
            call_requires(func, (&item,)),
        ensures
            d.wf(),
            d.spec_item() == item,
            d.spec_func() == func,
    {
        Self { item, func }
    }

    /// Applies the function to the value and writes what it produced;
    /// the written text is some output the function admits for the
    /// value.
    pub fn render(&self, sink: &mut Sink) -> (r: Result<(), RenderError>)
        requires
            self.wf(),
            old(sink).wf(),
        ensures
            final(sink).wf(),
            final(sink).forwards() == old(sink).forwards(),
            final(sink).limit() == old(sink).limit(),
            r is Err ==> r == Err::<(), RenderError>(RenderError::SinkWrite),
            exists|out: String|
                {
                    &&& #[trigger] call_ensures(self.spec_func(), (&self.spec_item(),), out)
                    &&& (r is Ok <==> old(sink).fits(out@.len()))
                    &&& (r is Ok ==> final(sink).written() == old(sink).written() + out@.len())
                    &&& (r is Ok ==> final(sink).content() == old(sink).content() + (
                    if old(sink).forwards() {
                        out@
                    } else {
                        Seq::<char>::empty()
                    }))
                },
    {
        let out = (self.func)(&self.item);
        sink.write_str(out.as_str())
    }

    /// Renders into a fresh unbounded sink; the result is some output
    /// the function admits for the value.
    pub fn to_string(&self) -> (r: String)
        requires
            self.wf(),
        ensures
            exists|out: String|
                {
                    &&& #[trigger] call_ensures(self.spec_func(), (&self.spec_item(),), out)
                    &&& (out@.len() <= usize::MAX ==> r@ == out@)
                },
    {
        let mut sink = Sink::collecting();
        let res = self.render(&mut sink);
        sink.into_string()
    }
}

} // verus!
