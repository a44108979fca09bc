//! Colour wrappers: render a value between an ANSI foreground escape
//! code and the reset code.  The escape strings themselves come from
//! the `ansi_term` crate, behind trusted wrappers whose contracts state
//! the exact character sequences.

use vstd::prelude::*;

use crate::render::Renderable;
use crate::sink::RenderError;
use crate::sink::Sink;

verus! {

/// The eight named foreground colours.
#[derive(Copy, Clone)]
pub enum Fg {
    Black,
    Red,
    Green,
    Yellow,
    Blue,
    Magenta,
    Cyan,
    White,
}

/// The two-digit ANSI code of a foreground colour.
pub open spec fn fg_code(c: Fg) -> Seq<char> {
    match c {
        Fg::Black => seq!['3', '0'],
        Fg::Red => seq!['3', '1'],
        Fg::Green => seq!['3', '2'],
        Fg::Yellow => seq!['3', '3'],
        Fg::Blue => seq!['3', '4'],
        Fg::Magenta => seq!['3', '5'],
        Fg::Cyan => seq!['3', '6'],
        Fg::White => seq!['3', '7'],
    }
}

/// The escape sequence that switches the foreground to `c`.
pub open spec fn ansi_prefix(c: Fg) -> Seq<char> {
    seq!['\u{1b}', '['] + fg_code(c) + seq!['m']
}

/// The escape sequence that resets all styling.
pub open spec fn ansi_reset() -> Seq<char> {
    seq!['\u{1b}', '[', '0', 'm']
}

/// A value's text wrapped in the colour's escape codes.
pub open spec fn colored_text(c: Fg, t: Seq<char>) -> Seq<char> {
    ansi_prefix(c) + t + ansi_reset()
}

/// Relies on ansi_term::Style::prefix: for a style with only a named
/// foreground colour it writes the escape introducer, the colour's
/// two-digit code and `m`.
#[verifier::external_body]
fn fg_prefix(color: &Fg) -> (r: String)
    ensures
        r@ == ansi_prefix(*color),
{
    let c = match color {
        Fg::Black => ansi_term::Color::Black,
        Fg::Red => ansi_term::Color::Red,
        Fg::Green => ansi_term::Color::Green,
        Fg::Yellow => ansi_term::Color::Yellow,
        Fg::Blue => ansi_term::Color::Blue,
        Fg::Magenta => ansi_term::Color::Purple,
        Fg::Cyan => ansi_term::Color::Cyan,
        Fg::White => ansi_term::Color::White,
    };
    ansi_term::Style::new().fg(c).prefix().to_string()
}

/// Relies on ansi_term::Style::suffix: for any non-plain style it
/// writes the reset escape sequence.
#[verifier::external_body]
fn fg_suffix() -> (r: String)
    ensures
        r@ == ansi_reset(),
{
    ansi_term::Style::new().fg(ansi_term::Color::Black).suffix().to_string()
}

/// Writes `value` between the colour's escape codes.
fn write_colored<T: Renderable>(value: &T, color: Fg, sink: &mut Sink) -> (r: Result<
    (),
    RenderError,
>)
    requires
        value.wf(),
        old(sink).wf(),
    ensures
        final(sink).wf(),
        final(sink).forwards() == old(sink).forwards(),
        final(sink).limit() == old(sink).limit(),
        r is Ok <==> old(sink).fits(colored_text(color, value.text()).len()),
        r is Ok ==> final(sink).written() == old(sink).written() + colored_text(
            color,
            value.text(),
        ).len(),
        r is Ok ==> final(sink).content() == old(sink).content() + (if old(sink).forwards() {
            colored_text(color, value.text())
        } else {
            Seq::<char>::empty()
        }),
        r is Err ==> r == Err::<(), RenderError>(RenderError::SinkWrite),
{
    let prefix = fg_prefix(&color);
    if let Err(e) = sink.write_str(prefix.as_str()) {
        return Err(e);
    }
    if let Err(e) = value.render(sink) {
        return Err(e);
    }
    let suffix = fg_suffix();
    if let Err(e) = sink.write_str(suffix.as_str()) {
        return Err(e);
    }
    proof {
        if old(sink).forwards() {
            assert(old(sink).content() + ansi_prefix(color) + value.text() + ansi_reset() =~= old(
                sink,
            ).content() + colored_text(color, value.text()));
        }
    }
    Ok(())
}

/// Displays a value in black.
pub struct Black<T: Renderable>(pub T);

impl<T: Renderable> Renderable for Black<T> {
    open spec fn wf(&self) -> bool {
        self.0.wf() && self.text().len() <= usize::MAX
    }

    open spec fn text(&self) -> Seq<char> {
        colored_text(Fg::Black, self.0.text())
    }

    proof fn text_bounded(&self) {
    }

    fn render(&self, sink: &mut Sink) -> (r: Result<(), RenderError>) {
        write_colored(&self.0, Fg::Black, sink)
    }
}

/// Displays a value in red.
pub struct Red<T: Renderable>(pub T);

impl<T: Renderable> Renderable for Red<T> {
    open spec fn wf(&self) -> bool {
        self.0.wf() && self.text().len() <= usize::MAX
    }

    open spec fn text(&self) -> Seq<char> {
        colored_text(Fg::Red, self.0.text())
    }

    proof fn text_bounded(&self) {
    }

    fn render(&self, sink: &mut Sink) -> (r: Result<(), RenderError>) {
        write_colored(&self.0, Fg::Red, sink)
    }
}

/// Displays a value in green.
pub struct Green<T: Renderable>(pub T);

impl<T: Renderable> Renderable for Green<T> {
    open spec fn wf(&self) -> bool {
        self.0.wf() && self.text().len() <= usize::MAX
    }

    open spec fn text(&self) -> Seq<char> {
        colored_text(Fg::Green, self.0.text())
    }

    proof fn text_bounded(&self) {
    }

    fn render(&self, sink: &mut Sink) -> (r: Result<(), RenderError>) {
        write_colored(&self.0, Fg::Green, sink)
    }
}

/// Displays a value in yellow.
pub struct Yellow<T: Renderable>(pub T);

impl<T: Renderable> Renderable for Yellow<T> {
    open spec fn wf(&self) -> bool {
        self.0.wf() && self.text().len() <= usize::MAX
    }

    open spec fn text(&self) -> Seq<char> {
        colored_text(Fg::Yellow, self.0.text())
    }

    proof fn text_bounded(&self) {
    }

    fn render(&self, sink: &mut Sink) -> (r: Result<(), RenderError>) {
        write_colored(&self.0, Fg::Yellow, sink)
    }
}

/// Displays a value in blue.
pub struct Blue<T: Renderable>(pub T);

impl<T: Renderable> Renderable for Blue<T> {
    open spec fn wf(&self) -> bool {
        self.0.wf() && self.text().len() <= usize::MAX
    }

    open spec fn text(&self) -> Seq<char> {
        colored_text(Fg::Blue, self.0.text())
    }

    proof fn text_bounded(&self) {
    }

    fn render(&self, sink: &mut Sink) -> (r: Result<(), RenderError>) {
        write_colored(&self.0, Fg::Blue, sink)
    }
}

/// Displays a value in magenta.
pub struct Magenta<T: Renderable>(pub T);

impl<T: Renderable> Renderable for Magenta<T> {
    open spec fn wf(&self) -> bool {
        self.0.wf() && self.text().len() <= usize::MAX
    }

    open spec fn text(&self) -> Seq<char> {
        colored_text(Fg::Magenta, self.0.text())
    }

    proof fn text_bounded(&self) {
    }

    fn render(&self, sink: &mut Sink) -> (r: Result<(), RenderError>) {
        write_colored(&self.0, Fg::Magenta, sink)
    }
}

/// Displays a value in cyan.
pub struct Cyan<T: Renderable>(pub T);

impl<T: Renderable> Renderable for Cyan<T> {
    open spec fn wf(&self) -> bool {
        self.0.wf() && self.text().len() <= usize::MAX
    }

    open spec fn text(&self) -> Seq<char> {
        colored_text(Fg::Cyan, self.0.text())
    }

    proof fn text_bounded(&self) {
    }

    fn render(&self, sink: &mut Sink) -> (r: Result<(), RenderError>) {
        write_colored(&self.0, Fg::Cyan, sink)
    }
}

/// Displays a value in white.
pub struct White<T: Renderable>(pub T);

impl<T: Renderable> Renderable for White<T> {
    open spec fn wf(&self) -> bool {
        self.0.wf() && self.text().len() <= usize::MAX
    }

    open spec fn text(&self) -> Seq<char> {
        colored_text(Fg::White, self.0.text())
    }

    proof fn text_bounded(&self) {
    }

    fn render(&self, sink: &mut Sink) -> (r: Result<(), RenderError>) {
        write_colored(&self.0, Fg::White, sink)
    }
}

} // verus!
