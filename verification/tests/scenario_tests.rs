use fmt::adapters::LowerHex;
use fmt::adapters::UpperHex;
use fmt::display_padded::Alignment;
use fmt::display_padded::DisplayPadded;
use fmt::either::Either;
use fmt::hexslice::HexSlice;
use fmt::iter::OnceIter;
use fmt::joined::DisplayIteratorJoined;
use fmt::num::Num;
use fmt::pad::Pad;
use fmt::render::Renderable;
use fmt::sink::RenderError;
use fmt::sink::Sink;
use fmt::text::Text;
use fmt::utils::LastIterationIterator;

#[test]
fn joined_numbers_with_space() {
    let items = vec![Num::new(1), Num::new(2), Num::new(3), Num::new(4), Num::new(5)];
    let mut joined = DisplayIteratorJoined::new(items, Text::new(" "));
    assert_eq!(joined.to_string().unwrap(), "1 2 3 4 5");
}

#[test]
fn padded_right_three() {
    let p = DisplayPadded::new(Text::new("1")).aligned(Alignment::Right).padded(3);
    assert_eq!(p.to_string(), "1  ");
}

#[test]
fn padded_center_three_with_asterisk() {
    let p = DisplayPadded::new(Text::new("1")).aligned(Alignment::Center).padded(3).fill_char('*');
    assert_eq!(p.to_string(), "*1*");
}

#[test]
fn center_remainder_goes_to_the_trailing_side() {
    let p = DisplayPadded::new(Text::new("1")).aligned(Alignment::Center).padded(4).fill_char('*');
    assert_eq!(p.to_string(), "*1**");
}

#[test]
fn single_use_renders_once_then_fails() {
    let items = vec![Num::new(1), Num::new(2), Num::new(3)];
    let mut once = OnceIter::new(items);
    assert_eq!(once.to_string().unwrap(), "1\n2\n3\n");
    assert_eq!(once.to_string(), Err(RenderError::Reuse));
}

#[test]
fn tagger_of_empty_sequence_yields_nothing() {
    let mut it: LastIterationIterator<i32> = LastIterationIterator::new(vec![]);
    assert_eq!(it.next(), None);
    assert_eq!(it.next(), None);
}

#[test]
fn padding_measures_scalar_characters_not_bytes() {
    // A two-byte character counts as width one, so one fill character
    // is still needed to reach width two.
    let p = DisplayPadded::new(Text::new("ß")).aligned(Alignment::Left).padded(2);
    assert_eq!(p.to_string(), " ß");
}

#[test]
fn limited_sink_refuses_text_that_does_not_fit() {
    let mut sink = Sink::collecting_with_limit(2);
    let t = Text::new("abc");
    assert_eq!(t.render(&mut sink), Err(RenderError::SinkWrite));
    assert_eq!(sink.into_string(), "");
}

#[test]
fn limited_sink_keeps_what_was_flushed_before_the_failure() {
    let mut sink = Sink::collecting_with_limit(4);
    let items = vec![Text::new("ab"), Text::new("cd"), Text::new("ef")];
    let mut joined = DisplayIteratorJoined::new(items, Text::new("-"));
    assert_eq!(joined.render(&mut sink), Err(RenderError::SinkWrite));
    assert_eq!(sink.into_string(), "ab-");
}

#[test]
fn hexslice_lists_hex_digits() {
    let slice = HexSlice::new(vec![0xa, 0xb, 0xc]);
    assert_eq!(slice.to_string(), "[a, b, c]");

    let empty = HexSlice::new(vec![]);
    assert_eq!(empty.to_string(), "[]");
}

#[test]
fn hex_adapters_pick_their_case() {
    assert_eq!(LowerHex::new(0xbeef).to_string(), "beef");
    assert_eq!(UpperHex::new(0xbeef).to_string(), "BEEF");
}

#[test]
fn either_renders_whichever_side_it_holds() {
    let left: Either<Text, Num> = Either::new_left(Text::new("hi"));
    assert_eq!(left.to_string(), "hi");

    let right: Either<Text, Num> = Either::new_right(Num::new(7));
    assert_eq!(right.to_string(), "7");
}

#[test]
fn pad_fills_to_the_next_multiple_of_five() {
    let p = Pad::new(Text::new("1"));
    assert_eq!(p.to_string(), "1         ");

    let p = Pad::new(Text::new("1")).align_right();
    assert_eq!(p.to_string(), "         1");

    // Five bytes measure to a five-byte field, so nothing is added.
    let p = Pad::new(Text::new("abcde")).align_left();
    assert_eq!(p.to_string(), "abcde");
}

#[test]
fn deferred_function_formats_the_stored_value() {
    let d = fmt::adhoc2::Disp::new(5u64, |x: &u64| format!("{}", x));
    assert_eq!(d.to_string(), "5");
}
