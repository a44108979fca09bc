//! Formatting a number in one of several notations, chosen by a style
//! value: decimal, diagnostic, octal, binary, hexadecimal in either
//! case, scientific notation in either case, or a pointer-like
//! hexadecimal form.

use vstd::prelude::*;
use vstd::string::StringExecFns;

use crate::num::bin_digits;
use crate::num::dec_digits;
use crate::num::exp_digits;
use crate::num::hex_digits;
use crate::num::lemma_bin_digits_len_u64;
use crate::num::lemma_dec_digits_len_u64;
use crate::num::lemma_exp_digits_len_u64;
use crate::num::lemma_hex_digits_len_u64;
use crate::num::lemma_oct_digits_len_u64;
use crate::num::oct_digits;
use crate::num::u64_to_bin;
use crate::num::u64_to_dec;
use crate::num::u64_to_exp;
use crate::num::u64_to_hex;
use crate::num::u64_to_oct;
use crate::render::Renderable;
use crate::sink::RenderError;
use crate::sink::Sink;

verus! {

/// A notation for rendering a number.
pub trait FormatStyle {
    /// The text this notation gives to `item`.
    spec fn styled(&self, item: u64) -> Seq<char>;

    /// Every styled text has a machine-representable length.
    proof fn styled_bounded(&self, item: u64)
        ensures
            self.styled(item).len() <= usize::MAX,
    ;

    /// Writes `item` in this notation; succeeds exactly when the text
    /// fits the sink's remaining capacity.
    fn fmt(&self, item: u64, sink: &mut Sink) -> (r: Result<(), RenderError>)
        requires
            old(sink).wf(),
        ensures
            final(sink).wf(),
            final(sink).forwards() == old(sink).forwards(),
            final(sink).limit() == old(sink).limit(),
            r is Ok <==> old(sink).fits(self.styled(item).len()),
            r is Ok ==> final(sink).written() == old(sink).written() + self.styled(item).len(),
            r is Ok ==> final(sink).content() == old(sink).content() + (
            if old(sink).forwards() {
                self.styled(item)
            } else {
                Seq::<char>::empty()
            }),
            r is Err ==> r == Err::<(), RenderError>(RenderError::SinkWrite),
    ;
}

/// Decimal notation.
#[derive(Copy, Clone)]
pub struct Display;

impl FormatStyle for Display {
    open spec fn styled(&self, item: u64) -> Seq<char> {
        dec_digits(item as nat)
    }

    proof fn styled_bounded(&self, item: u64) {
        lemma_dec_digits_len_u64(item);
    }

    fn fmt(&self, item: u64, sink: &mut Sink) -> (r: Result<(), RenderError>) {
        let s = u64_to_dec(item);
        sink.write_str(s.as_str())
    }
}

/// Diagnostic notation; for a plain number it is the decimal form.
#[derive(Copy, Clone)]
pub struct Debug;

impl FormatStyle for Debug {
    open spec fn styled(&self, item: u64) -> Seq<char> {
        dec_digits(item as nat)
    }

    proof fn styled_bounded(&self, item: u64) {
        lemma_dec_digits_len_u64(item);
    }

    fn fmt(&self, item: u64, sink: &mut Sink) -> (r: Result<(), RenderError>) {
        let s = u64_to_dec(item);
        sink.write_str(s.as_str())
    }
}

/// Octal notation.
#[derive(Copy, Clone)]
pub struct Octal;

impl FormatStyle for Octal {
    open spec fn styled(&self, item: u64) -> Seq<char> {
        oct_digits(item as nat)
    }

    proof fn styled_bounded(&self, item: u64) {
        lemma_oct_digits_len_u64(item);
    }

    fn fmt(&self, item: u64, sink: &mut Sink) -> (r: Result<(), RenderError>) {
        let s = u64_to_oct(item);
        sink.write_str(s.as_str())
    }
}

/// Binary notation.
#[derive(Copy, Clone)]
pub struct Binary;

impl FormatStyle for Binary {
    open spec fn styled(&self, item: u64) -> Seq<char> {
        bin_digits(item as nat)
    }

    proof fn styled_bounded(&self, item: u64) {
        lemma_bin_digits_len_u64(item);
    }

    fn fmt(&self, item: u64, sink: &mut Sink) -> (r: Result<(), RenderError>) {
        let s = u64_to_bin(item);
        sink.write_str(s.as_str())
    }
}

/// Lowercase hexadecimal notation.
#[derive(Copy, Clone)]
pub struct LowerHex;

impl FormatStyle for LowerHex {
    open spec fn styled(&self, item: u64) -> Seq<char> {
        hex_digits(item as nat, false)
    }

    proof fn styled_bounded(&self, item: u64) {
        lemma_hex_digits_len_u64(item, false);
    }

    fn fmt(&self, item: u64, sink: &mut Sink) -> (r: Result<(), RenderError>) {
        let s = u64_to_hex(item, false);
        sink.write_str(s.as_str())
    }
}

/// Uppercase hexadecimal notation.
#[derive(Copy, Clone)]
pub struct UpperHex;

impl FormatStyle for UpperHex {
    open spec fn styled(&self, item: u64) -> Seq<char> {
        hex_digits(item as nat, true)
    }

    proof fn styled_bounded(&self, item: u64) {
        lemma_hex_digits_len_u64(item, true);
    }

    fn fmt(&self, item: u64, sink: &mut Sink) -> (r: Result<(), RenderError>) {
        let s = u64_to_hex(item, true);
        sink.write_str(s.as_str())
    }
}

/// Scientific notation with a lowercase exponent marker.
#[derive(Copy, Clone)]
pub struct LowerExp;

impl FormatStyle for LowerExp {
    open spec fn styled(&self, item: u64) -> Seq<char> {
        exp_digits(item as nat, false)
    }

    proof fn styled_bounded(&self, item: u64) {
        lemma_exp_digits_len_u64(item, false);
    }

    fn fmt(&self, item: u64, sink: &mut Sink) -> (r: Result<(), RenderError>) {
        let s = u64_to_exp(item, false);
        sink.write_str(s.as_str())
    }
}

/// Scientific notation with an uppercase exponent marker.
#[derive(Copy, Clone)]
pub struct UpperExp;

impl FormatStyle for UpperExp {
    open spec fn styled(&self, item: u64) -> Seq<char> {
        exp_digits(item as nat, true)
    }

    proof fn styled_bounded(&self, item: u64) {
        lemma_exp_digits_len_u64(item, true);
    }

    fn fmt(&self, item: u64, sink: &mut Sink) -> (r: Result<(), RenderError>) {
        let s = u64_to_exp(item, true);
        sink.write_str(s.as_str())
    }
}

/// Pointer-like notation: lowercase hexadecimal behind a `0x` prefix.
#[derive(Copy, Clone)]
pub struct Pointer;

impl FormatStyle for Pointer {
    open spec fn styled(&self, item: u64) -> Seq<char> {
        seq!['0', 'x'] + hex_digits(item as nat, false)
    }

    proof fn styled_bounded(&self, item: u64) {
        lemma_hex_digits_len_u64(item, false);
    }

    fn fmt(&self, item: u64, sink: &mut Sink) -> (r: Result<(), RenderError>) {
        proof {
            reveal_strlit("0x");
        }
        let mut s = String::from_str("0x");
        let digits = u64_to_hex(item, false);
        s.append(digits.as_str());
        proof {
            assert("0x"@ + hex_digits(item as nat, false) =~= self.styled(item));
        }
        sink.write_str(s.as_str())
    }
}

/// Renders a number in the notation fixed by its style value.
#[derive(Copy, Clone)]
pub struct Style<S> {
    format_style: S,
    item: u64,
}

impl<S: FormatStyle> Style<S> {
    /// The style value.
    pub closed spec fn spec_style(&self) -> S {
        self.format_style
    }

    /// The number being rendered.
    pub closed spec fn spec_item(&self) -> u64 {
        self.item
    }
}

impl Style<Display> {
    /// Renders `item` in decimal notation.
    pub fn new_display(item: u64) -> (s: Self)
        ensures
            s.wf(),
            s.text() == dec_digits(item as nat),
    {
        Style { format_style: Display, item }
    }
}

impl Style<Debug> {
    /// Renders `item` in diagnostic notation.
    pub fn new_debug(item: u64) -> (s: Self)
        ensures
            s.wf(),
            s.text() == dec_digits(item as nat),
    {
        Style { format_style: Debug, item }
    }
}

impl Style<Octal> {
    /// Renders `item` in octal notation.
    pub fn new_octal(item: u64) -> (s: Self)
        ensures
            s.wf(),
            s.text() == oct_digits(item as nat),
    {
        Style { format_style: Octal, item }
    }
}

impl Style<Binary> {
    /// Renders `item` in binary notation.
    pub fn new_binary(item: u64) -> (s: Self)
        ensures
            s.wf(),
            s.text() == bin_digits(item as nat),
    {
        Style { format_style: Binary, item }
    }
}

impl Style<LowerHex> {
    /// Renders `item` in lowercase hexadecimal notation.
    pub fn new_lower_hex(item: u64) -> (s: Self)
        ensures
            s.wf(),
            s.text() == hex_digits(item as nat, false),
    {
        Style { format_style: LowerHex, item }
    }
}

impl Style<UpperHex> {
    /// Renders `item` in uppercase hexadecimal notation.
    pub fn new_upper_hex(item: u64) -> (s: Self)
        ensures
            s.wf(),
            s.text() == hex_digits(item as nat, true),
    {
        Style { format_style: UpperHex, item }
    }
}

impl Style<LowerExp> {
    /// Renders `item` in scientific notation with a lowercase marker.
    pub fn new_lower_exp(item: u64) -> (s: Self)
        ensures
            s.wf(),
            s.text() == exp_digits(item as nat, false),
    {
        Style { format_style: LowerExp, item }
    }
}

impl Style<UpperExp> {
    /// Renders `item` in scientific notation with an uppercase marker.
    pub fn new_upper_exp(item: u64) -> (s: Self)
        ensures
            s.wf(),
            s.text() == exp_digits(item as nat, true),
    {
        Style { format_style: UpperExp, item }
    }
}

impl Style<Pointer> {
    /// Renders `item` in pointer-like notation.
    pub fn new_pointer(item: u64) -> (s: Self)
        ensures
            s.wf(),
            s.text() == seq!['0', 'x'] + hex_digits(item as nat, false),
    {
        Style { format_style: Pointer, item }
    }
}

impl<S: FormatStyle> Renderable for Style<S> {
    open spec fn wf(&self) -> bool {
        true
    }

    open spec fn text(&self) -> Seq<char> {
        self.spec_style().styled(self.spec_item())
    }

    proof fn text_bounded(&self) {
        self.spec_style().styled_bounded(self.spec_item());
    }

    fn render(&self, sink: &mut Sink) -> (r: Result<(), RenderError>) {
        self.format_style.fmt(self.item, sink)
    }
}

} // verus!
