use fmt::display_padded::Alignment;
use fmt::display_padded::DisplayPadded;
use fmt::render::Renderable;
use fmt::text::Text;

#[test]
fn test_space_lpad3() {
    let dummy = "1";

    let actual = DisplayPadded::new(Text::new(dummy)).aligned(Alignment::Left).padded(3);

    assert_eq!(actual.to_string(), "  1")
}

#[test]
fn test_space_lpad_noop() {
    let dummy = "1";

    let actual = DisplayPadded::new(Text::new(dummy)).aligned(Alignment::Left).padded(dummy.len());

    assert_eq!(actual.to_string(), dummy)
}

#[test]
fn test_space_rpad3() {
    let dummy = "1";

    let actual = DisplayPadded::new(Text::new(dummy)).aligned(Alignment::Right).padded(3);

    assert_eq!(actual.to_string(), "1  ")
}

#[test]
fn test_space_rpad_noop() {
    let dummy = "1";

    let actual = DisplayPadded::new(Text::new(dummy)).aligned(Alignment::Right).padded(dummy.len());

    assert_eq!(actual.to_string(), dummy)
}

#[test]
fn test_space_cpad_noop() {
    let dummy = "1";

    let actual =
        DisplayPadded::new(Text::new(dummy)).aligned(Alignment::Center).padded(dummy.len());

    assert_eq!(actual.to_string(), dummy)
}

#[test]
fn test_space_cpad2() {
    let dummy = "1";

    let actual = DisplayPadded::new(Text::new(dummy)).aligned(Alignment::Center).padded(2);

    assert_eq!(actual.to_string(), "1 ")
}

#[test]
fn test_space_cpad3() {
    let dummy = "1";

    let actual = DisplayPadded::new(Text::new(dummy)).aligned(Alignment::Center).padded(3);

    assert_eq!(actual.to_string(), " 1 ")
}

#[test]
fn test_space_cpad4() {
    let dummy = "1";

    let actual = DisplayPadded::new(Text::new(dummy)).aligned(Alignment::Center).padded(4);

    assert_eq!(actual.to_string(), " 1  ")
}

#[test]
fn test_asterisk_lpad3() {
    let dummy = "1";

    let actual =
        DisplayPadded::new(Text::new(dummy)).aligned(Alignment::Left).padded(3).fill_char('*');

    assert_eq!(actual.to_string(), "**1")
}

#[test]
fn test_asterisk_lpad_noop() {
    let dummy = "1";

    let actual = DisplayPadded::new(Text::new(dummy))
        .aligned(Alignment::Left)
        .padded(dummy.len())
        .fill_char('*');

    assert_eq!(actual.to_string(), dummy)
}

#[test]
fn test_asterisk_rpad3() {
    let dummy = "1";

    let actual =
        DisplayPadded::new(Text::new(dummy)).aligned(Alignment::Right).padded(3).fill_char('*');

    assert_eq!(actual.to_string(), "1**")
}

#[test]
fn test_asterisk_rpad_noop() {
    let dummy = "1";

    let actual = DisplayPadded::new(Text::new(dummy))
        .aligned(Alignment::Right)
        .padded(dummy.len())
        .fill_char('*');

    assert_eq!(actual.to_string(), dummy)
}

#[test]
fn test_asterisk_cpad_noop() {
    let dummy = "1";

    let actual = DisplayPadded::new(Text::new(dummy))
        .aligned(Alignment::Center)
        .padded(dummy.len())
        .fill_char('*');

    assert_eq!(actual.to_string(), dummy)
}

#[test]
fn test_asterisk_cpad2() {
    let dummy = "1";

    let actual =
        DisplayPadded::new(Text::new(dummy)).aligned(Alignment::Center).padded(2).fill_char('*');

    assert_eq!(actual.to_string(), "1*")
}

#[test]
fn test_asterisk_cpad3() {
    let dummy = "1";

    let actual =
        DisplayPadded::new(Text::new(dummy)).aligned(Alignment::Center).padded(3).fill_char('*');

    assert_eq!(actual.to_string(), "*1*")
}

#[test]
fn test_asterisk_cpad4() {
    let dummy = "1";

    let actual =
        DisplayPadded::new(Text::new(dummy)).aligned(Alignment::Center).padded(4).fill_char('*');

    assert_eq!(actual.to_string(), "*1**")
}

#[test]
fn test_dash_lpad3() {
    let dummy = "1";

    let actual =
        DisplayPadded::new(Text::new(dummy)).aligned(Alignment::Left).padded(3).fill_char('-');

    assert_eq!(actual.to_string(), "--1")
}

#[test]
fn test_dash_lpad_noop() {
    let dummy = "1";

    let actual = DisplayPadded::new(Text::new(dummy))
        .aligned(Alignment::Left)
        .padded(dummy.len())
        .fill_char('-');

    assert_eq!(actual.to_string(), dummy)
}

#[test]
fn test_dash_rpad3() {
    let dummy = "1";

    let actual =
        DisplayPadded::new(Text::new(dummy)).aligned(Alignment::Right).padded(3).fill_char('-');

    assert_eq!(actual.to_string(), "1--")
}

#[test]
fn test_dash_rpad_noop() {
    let dummy = "1";

    let actual = DisplayPadded::new(Text::new(dummy))
        .aligned(Alignment::Right)
        .padded(dummy.len())
        .fill_char('-');

    assert_eq!(actual.to_string(), dummy)
}

#[test]
fn test_dash_cpad_noop() {
    let dummy = "1";

    let actual = DisplayPadded::new(Text::new(dummy))
        .aligned(Alignment::Center)
        .padded(dummy.len())
        .fill_char('-');

    assert_eq!(actual.to_string(), dummy)
}

#[test]
fn test_dash_cpad2() {
    let dummy = "1";

    let actual =
        DisplayPadded::new(Text::new(dummy)).aligned(Alignment::Center).padded(2).fill_char('-');

    assert_eq!(actual.to_string(), "1-")
}

#[test]
fn test_dash_cpad3() {
    let dummy = "1";

    let actual =
        DisplayPadded::new(Text::new(dummy)).aligned(Alignment::Center).padded(3).fill_char('-');

    assert_eq!(actual.to_string(), "-1-")
}

#[test]
fn test_dash_cpad4() {
    let dummy = "1";

    let actual =
        DisplayPadded::new(Text::new(dummy)).aligned(Alignment::Center).padded(4).fill_char('-');

    assert_eq!(actual.to_string(), "-1--")
}
