//! Deferred rendering from a closure: the stored function produces the
//! text when — and only when — the value is rendered.

use vstd::prelude::*;

use crate::sink::RenderError;
use crate::sink::Sink;

verus! {

/// Renders whatever text its stored closure produces.
pub struct Disp<F> {
    f: F,
}

impl<F: Fn() -> String> Disp<F> {
    /// The stored closure.
    pub closed spec fn func(&self) -> F {
        self.f
    }

    /// The renderer's invariant: the closure is callable.
    pub open spec fn wf(&self) -> bool {
        call_requires(self.func(), ())
    }

    /// Wraps the given closure.
    pub fn new(f: F) -> (d: Self)
        requires
            call_requires(f, ()),
        ensures
            d.wf(),
            d.func() == f,
    {
        Self { f }
    }

    /// Calls the closure and writes what it produced; the written text
    /// is some output the closure admits.
    pub fn render(&self, sink: &mut Sink) -> (r: Result<(), RenderError>)
        requires
            self.wf(),
            old(sink).wf(),
        ensures
            final(sink).wf(),
            final(sink).forwards() == old(sink).forwards(),
            final(sink).limit() == old(sink).limit(),
            r is Err ==> r == Err::<(), RenderError>(RenderError::SinkWrite),
            exists|out: String|
                {
                    &&& #[trigger] call_ensures(self.func(), (), out)
                    &&& (r is Ok <==> old(sink).fits(out@.len()))
                    &&& (r is Ok ==> final(sink).written() == old(sink).written() + out@.len())
                    &&& (r is Ok ==> final(sink).content() == old(sink).content() + (
                    if old(sink).forwards() {
                        out@
                    } else {
                        Seq::<char>::empty()
                    }))
                },
    {
        let out = (self.f)();
        sink.write_str(out.as_str())
    }

    /// Renders into a fresh unbounded sink; the result is some output
    /// the closure admits.
    pub fn to_string(&self) -> (r: String)
        requires
            self.wf(),
        ensures
            exists|out: String|
                {
                    &&& #[trigger] call_ensures(self.func(), (), out)
                    &&& (out@.len() <= usize::MAX ==> r@ == out@)
                },
    {
        let mut sink = Sink::collecting();
        let res = self.render(&mut sink);
        sink.into_string()
    }
}

} // verus!
