//! Byte-measured padding to the next multiple of five: a renderer is
//! measured in bytes, and the field width is chosen from that measure at
//! construction time.

use vstd::prelude::*;

use crate::count::Counter;
use crate::render::Renderable;
use crate::sink::RenderError;
use crate::sink::Sink;
use crate::textspec::byte_len;
use crate::textspec::lemma_byte_len_ge_len;
use crate::textspec::repeat_char;
use crate::Align;

verus! {

/// How many fill characters a field of `width` bytes adds to content
/// of byte length `b`.
pub open spec fn pad_count(b: nat, width: nat) -> nat {
    if b >= width {
        0
    } else {
        (width - b) as nat
    }
}

/// The text of byte-measured padding around `t`: with `Align::Left` the
/// fill follows the content, with `Align::Right` it precedes it.
pub open spec fn pad_text(t: Seq<char>, fill: char, width: nat, a: Align) -> Seq<char> {
    let d = pad_count(byte_len(t), width);
    match a {
        Align::Left => t + repeat_char(fill, d),
        Align::Right => repeat_char(fill, d) + t,
    }
}

/// Pads a renderer's output with spaces up to the next multiple of five
/// bytes above its measured byte length.
pub struct Pad<T> {
    item: T,
    len: usize,
    fill_char: char,
    align: Align,
}

impl<T: Renderable> Pad<T> {
    /// The wrapped renderer.
    pub closed spec fn spec_item(&self) -> T {
        self.item
    }

    /// The field width, in bytes.
    pub closed spec fn spec_len(&self) -> nat {
        self.len as nat
    }

    /// The fill character.
    pub closed spec fn spec_fill(&self) -> char {
        self.fill_char
    }

    /// The alignment.
    pub closed spec fn spec_align(&self) -> Align {
        self.align
    }

    /// Wraps `item`, measuring it once to fix the field width at the
    /// next multiple of five bytes above its byte length.
    pub fn new(item: T) -> (p: Self)
        requires
            item.wf(),
            byte_len(item.text()) <= usize::MAX,
        ensures
            p.wf(),
            p.spec_item() == item,
            p.spec_fill() == ' ',
            p.spec_align() is Left,
            p.spec_len() == (byte_len(item.text()) % 5 + 1) * 5,
    {
        let len = Counter::count(&item);
        let len = (len % 5 + 1) * 5;
        Self { item, len, fill_char: ' ', align: Align::Left }
    }

    /// Puts the fill after the content.
    pub fn align_left(self) -> (p: Self)
        ensures
            p.spec_item() == self.spec_item(),
            p.spec_len() == self.spec_len(),
            p.spec_fill() == self.spec_fill(),
            p.spec_align() is Left,
    {
        let mut p = self;
        p.align = Align::Left;
        p
    }

    /// Puts the fill before the content.
    pub fn align_right(self) -> (p: Self)
        ensures
            p.spec_item() == self.spec_item(),
            p.spec_len() == self.spec_len(),
            p.spec_fill() == self.spec_fill(),
            p.spec_align() is Right,
    {
        let mut p = self;
        p.align = Align::Right;
        p
    }
}

impl<T: Renderable> Renderable for Pad<T> {
    open spec fn wf(&self) -> bool {
        &&& self.spec_item().wf()
        &&& byte_len(self.spec_item().text()) <= usize::MAX
        &&& self.spec_len() == (byte_len(self.spec_item().text()) % 5 + 1) * 5
    }

    open spec fn text(&self) -> Seq<char> {
        pad_text(self.spec_item().text(), self.spec_fill(), self.spec_len(), self.spec_align())
    }

    proof fn text_bounded(&self) {
        self.spec_item().text_bounded();
        lemma_byte_len_ge_len(self.spec_item().text());
    }

    fn render(&self, sink: &mut Sink) -> (r: Result<(), RenderError>) {
        let ghost t = self.item.text();
        let ghost d = pad_count(byte_len(t), self.spec_len());
        proof {
            self.item.text_bounded();
            lemma_byte_len_ge_len(t);
        }
        let s = self.item.to_string();
        let b = s.as_str().len();
        let pad: usize = if b < self.len {
            self.len - b
        } else {
            0
        };
        match self.align {
            Align::Right => {
                if let Err(e) = sink.write_repeated(self.fill_char, pad) {
                    return Err(e);
                }
                if let Err(e) = sink.write_str(s.as_str()) {
                    return Err(e);
                }
                proof {
                    if old(sink).forwards() {
                        assert(old(sink).content() + repeat_char(self.spec_fill(), d) + t =~= old(
                            sink,
                        ).content() + (repeat_char(self.spec_fill(), d) + t));
                    }
                }
                Ok(())
            },
            Align::Left => {
                if let Err(e) = sink.write_str(s.as_str()) {
                    return Err(e);
                }
                if let Err(e) = sink.write_repeated(self.fill_char, pad) {
                    return Err(e);
                }
                proof {
                    if old(sink).forwards() {
                        assert(old(sink).content() + t + repeat_char(self.spec_fill(), d) =~= old(
                            sink,
                        ).content() + (t + repeat_char(self.spec_fill(), d)));
                    }
                }
                Ok(())
            },
        }
    }
}

} // verus!
