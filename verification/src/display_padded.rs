//! Two-pass padding: measure a renderer's width, then emit fill
//! characters and the content according to an alignment policy.
//!
//! `Left` puts the fill before the content, `Right` after it, and
//! `Center` splits it, with the odd leftover unit going to the trailing
//! side.  The measuring pass writes the content into a discarding sink, so
//! the real sink never sees it twice; for `Right` no measuring pass is
//! needed at all.

use vstd::prelude::*;

use crate::render::Renderable;
use crate::sink::RenderError;
use crate::sink::Sink;
use crate::textspec::repeat_char;

verus! {

/// Where the content stands inside the padded field.
pub enum Alignment {
    Left,
    Right,
    Center,
}

/// How many fill characters a field of `width` adds to content of length
/// `t_len`.
pub open spec fn pad_len(t_len: nat, width: nat) -> nat {
    if t_len >= width {
        0
    } else {
        (width - t_len) as nat
    }
}

/// The text of length-`width` padding around `t` under alignment `a`.
pub open spec fn padded_text(t: Seq<char>, fill: char, width: nat, a: Alignment) -> Seq<char> {
    let d = pad_len(t.len(), width);
    match a {
        Alignment::Left => repeat_char(fill, d) + t,
        Alignment::Right => t + repeat_char(fill, d),
        Alignment::Center => repeat_char(fill, d / 2) + t + repeat_char(
            fill,
            (d - d / 2) as nat,
        ),
    }
}

/// Padding a field no wider than its content changes nothing, whatever
/// the alignment and fill character.
pub proof fn lemma_padded_noop(t: Seq<char>, fill: char, width: nat, a: Alignment)
    requires
        width <= t.len(),
    ensures
        padded_text(t, fill, width, a) == t,
{
    assert(repeat_char(fill, 0) =~= Seq::<char>::empty());
    match a {
        Alignment::Left => {
            assert(repeat_char(fill, 0) + t =~= t);
        },
        Alignment::Right => {
            assert(t + repeat_char(fill, 0) =~= t);
        },
        Alignment::Center => {
            assert(repeat_char(fill, 0) + t + repeat_char(fill, 0) =~= t);
        },
    }
}

/// Centering puts `d / 2` fill characters before the content and the
/// rest after it, so the odd leftover unit always lands on the trailing
/// side.
pub proof fn lemma_center_remainder_trailing(t: Seq<char>, fill: char, width: nat)
    ensures
        padded_text(t, fill, width, Alignment::Center) == repeat_char(
            fill,
            pad_len(t.len(), width) / 2,
        ) + t + repeat_char(
            fill,
            (pad_len(t.len(), width) - pad_len(t.len(), width) / 2) as nat,
        ),
        pad_len(t.len(), width) / 2 <= (pad_len(t.len(), width) - pad_len(t.len(), width)
            / 2) as nat,
        (pad_len(t.len(), width) - pad_len(t.len(), width) / 2) as nat - pad_len(t.len(), width)
            / 2 == pad_len(t.len(), width) % 2,
{
}

/// Pads a renderer's output with fill characters up to a target width.
pub struct DisplayPadded<D> {
    display: D,
    fill_char: char,
    max_length: usize,
    alignment: Alignment,
}

impl<D: Renderable> DisplayPadded<D> {
    /// The wrapped renderer.
    pub closed spec fn item(&self) -> D {
        self.display
    }

    /// The fill character.
    pub closed spec fn fill(&self) -> char {
        self.fill_char
    }

    /// The target width.
    pub closed spec fn width(&self) -> nat {
        self.max_length as nat
    }

    /// The alignment policy.
    pub closed spec fn align(&self) -> Alignment {
        self.alignment
    }

    /// Wraps `display` with no padding: fill is a space, the target width
    /// is zero and the content is left-aligned.
    pub fn new(display: D) -> (p: Self)
        ensures
            p.item() == display,
            p.fill() == ' ',
            p.width() == 0,
            p.align() is Left,
    {
        Self { display, fill_char: ' ', max_length: 0, alignment: Alignment::Left }
    }

    /// Replaces the fill character.
    pub fn fill_char(self, fill_char: char) -> (p: Self)
        ensures
            p.item() == self.item(),
            p.fill() == fill_char,
            p.width() == self.width(),
            p.align() == self.align(),
    {
        Self { fill_char, ..self }
    }

    /// Replaces the target width.
    pub fn padded(self, max_length: usize) -> (p: Self)
        ensures
            p.item() == self.item(),
            p.fill() == self.fill(),
            p.width() == max_length,
            p.align() == self.align(),
    {
        Self { max_length, ..self }
    }

    /// Replaces the alignment policy.
    pub fn aligned(self, alignment: Alignment) -> (p: Self)
        ensures
            p.item() == self.item(),
            p.fill() == self.fill(),
            p.width() == self.width(),
            p.align() == alignment,
    {
        Self { alignment, ..self }
    }

    /// Left-aligns the content.
    pub fn aligned_left(self) -> (p: Self)
        ensures
            p.item() == self.item(),
            p.fill() == self.fill(),
            p.width() == self.width(),
            p.align() is Left,
    {
        let alignment = Alignment::Left;
        Self { alignment, ..self }
    }

    /// Right-aligns the content.
    pub fn aligned_right(self) -> (p: Self)
        ensures
            p.item() == self.item(),
            p.fill() == self.fill(),
            p.width() == self.width(),
            p.align() is Right,
    {
        let alignment = Alignment::Right;
        Self { alignment, ..self }
    }

    /// Centers the content.
    pub fn aligned_center(self) -> (p: Self)
        ensures
            p.item() == self.item(),
            p.fill() == self.fill(),
            p.width() == self.width(),
            p.align() is Center,
    {
        let alignment = Alignment::Center;
        Self { alignment, ..self }
    }
}

impl<D: Renderable> Renderable for DisplayPadded<D> {
    open spec fn wf(&self) -> bool {
        self.item().wf()
    }

    open spec fn text(&self) -> Seq<char> {
        padded_text(self.item().text(), self.fill(), self.width(), self.align())
    }

    proof fn text_bounded(&self) {
        self.item().text_bounded();
    }

    #[verifier::rlimit(60)]
    fn render(&self, sink: &mut Sink) -> (r: Result<(), RenderError>) {
        proof {
            self.display.text_bounded();
        }
        let ghost t = self.display.text();
        let ghost d = pad_len(t.len(), self.width());
        match self.alignment {
            Alignment::Left => {
                let mut measure = Sink::discarding();
                let res = self.display.render(&mut measure);
                let written = measure.chars_written();
                if written < self.max_length {
                    let pad = self.max_length - written;
                    if let Err(e) = sink.write_repeated(self.fill_char, pad) {
                        return Err(e);
                    }
                }
                let res = self.display.render(sink);
                if let Err(e) = res {
                    return Err(e);
                }
                proof {
                    if old(sink).forwards() {
                        assert(old(sink).content() + repeat_char(self.fill(), d) + t =~= old(
                            sink,
                        ).content() + (repeat_char(self.fill(), d) + t));
                    }
                }
                Ok(())
            },
            Alignment::Right => {
                let before = sink.chars_written();
                let res = self.display.render(sink);
                if let Err(e) = res {
                    return Err(e);
                }
                let after = sink.chars_written();
                let written = after - before;
                if written < self.max_length {
                    let pad = self.max_length - written;
                    if let Err(e) = sink.write_repeated(self.fill_char, pad) {
                        return Err(e);
                    }
                }
                proof {
                    if old(sink).forwards() {
                        assert(old(sink).content() + t + repeat_char(self.fill(), d) =~= old(
                            sink,
                        ).content() + (t + repeat_char(self.fill(), d)));
                    }
                    if d == 0 {
                        assert(t + repeat_char(self.fill(), 0) =~= t);
                    }
                }
                Ok(())
            },
            Alignment::Center => {
                let mut measure = Sink::discarding();
                let res = self.display.render(&mut measure);
                let written = measure.chars_written();
                let distance: usize = if written < self.max_length {
                    self.max_length - written
                } else {
                    0
                };
                let midpoint = distance / 2;
                if let Err(e) = sink.write_repeated(self.fill_char, midpoint) {
                    return Err(e);
                }
                let res = self.display.render(sink);
                if let Err(e) = res {
                    return Err(e);
                }
                if let Err(e) = sink.write_repeated(self.fill_char, distance - midpoint) {
                    return Err(e);
                }
                proof {
                    if old(sink).forwards() {
                        assert(old(sink).content() + repeat_char(self.fill(), d / 2) + t
                            + repeat_char(self.fill(), (d - d / 2) as nat) =~= old(sink).content()
                            + (repeat_char(self.fill(), d / 2) + t + repeat_char(
                            self.fill(),
                            (d - d / 2) as nat,
                        )));
                    }
                }
                Ok(())
            },
        }
    }
}

} // verus!
