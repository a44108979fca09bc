//! Thin renderable wrappers: pass a renderer through unchanged, or
//! render a number as hexadecimal digits in a fixed case.

use vstd::prelude::*;

use crate::num::hex_digits;
use crate::num::u64_to_hex;
use crate::render::Renderable;
use crate::sink::RenderError;
use crate::sink::Sink;
use crate::text::Text;

verus! {

/// Passes a renderer's ordinary text form through unchanged.
pub struct Display<T>(T);

impl<T: Renderable> Display<T> {
    /// The wrapped renderer.
    pub closed spec fn item(&self) -> T {
        self.0
    }

    /// Wraps the given renderer.
    pub fn new(t: T) -> (d: Self)
        requires
            t.wf(),
        ensures
            d.wf(),
            d.item() == t,
    {
        Self(t)
    }
}

impl<T: Renderable> Renderable for Display<T> {
    open spec fn wf(&self) -> bool {
        self.item().wf()
    }

    open spec fn text(&self) -> Seq<char> {
        self.item().text()
    }

    proof fn text_bounded(&self) {
        self.item().text_bounded();
    }

    fn render(&self, sink: &mut Sink) -> (r: Result<(), RenderError>) {
        self.0.render(sink)
    }
}

/// Passes a renderer's text form through unchanged, standing where a
/// diagnostic rendering is expected.
pub struct Debug<T>(T);

impl<T: Renderable> Debug<T> {
    /// The wrapped renderer.
    pub closed spec fn item(&self) -> T {
        self.0
    }

    /// Wraps the given renderer.
    pub fn new(t: T) -> (d: Self)
        requires
            t.wf(),
        ensures
            d.wf(),
            d.item() == t,
    {
        Self(t)
    }
}

impl<T: Renderable> Renderable for Debug<T> {
    open spec fn wf(&self) -> bool {
        self.item().wf()
    }

    open spec fn text(&self) -> Seq<char> {
        self.item().text()
    }

    proof fn text_bounded(&self) {
        self.item().text_bounded();
    }

    fn render(&self, sink: &mut Sink) -> (r: Result<(), RenderError>) {
        self.0.render(sink)
    }
}

/// Renders a number as lowercase hexadecimal digits.
pub struct LowerHex {
    item: Text,
}

impl LowerHex {
    /// Wraps the given number.
    pub fn new(item: u64) -> (h: Self)
        ensures
            h.wf(),
            h.text() == hex_digits(item as nat, false),
    {
        let s = u64_to_hex(item, false);
        Self { item: Text::new(s.as_str()) }
    }
}

impl Renderable for LowerHex {
    closed spec fn wf(&self) -> bool {
        self.item.wf()
    }

    closed spec fn text(&self) -> Seq<char> {
        self.item.text()
    }

    proof fn text_bounded(&self) {
        self.item.text_bounded();
    }

    fn render(&self, sink: &mut Sink) -> (r: Result<(), RenderError>) {
        self.item.render(sink)
    }
}

/// Renders a number as uppercase hexadecimal digits.
pub struct UpperHex {
    item: Text,
}

impl UpperHex {
    /// Wraps the given number.
    pub fn new(item: u64) -> (h: Self)
        ensures
            h.wf(),
            h.text() == hex_digits(item as nat, true),
    {
        let s = u64_to_hex(item, true);
        Self { item: Text::new(s.as_str()) }
    }
}

impl Renderable for UpperHex {
    closed spec fn wf(&self) -> bool {
        self.item.wf()
    }

    closed spec fn text(&self) -> Seq<char> {
        self.item.text()
    }

    proof fn text_bounded(&self) {
        self.item.text_bounded();
    }

    fn render(&self, sink: &mut Sink) -> (r: Result<(), RenderError>) {
        self.item.render(sink)
    }
}

} // verus!
