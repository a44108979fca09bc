use fmt::logic::Concat;
use fmt::logic::Concat3;
use fmt::logic::Concat4;
use fmt::logic::ConcatN;
use fmt::logic::Conditional;
use fmt::logic::Empty;
use fmt::logic::Optional;
use fmt::render::Renderable;
use fmt::text::Text;

#[test]
fn test_count_bytes_empty() {
    let item = Empty::new();
    assert_eq!(item.to_string(), "");
}

#[test]
fn test_count_bytes_empty_or_empty() {
    let a = Empty::new();
    let b = Empty::new();

    let item = Conditional::new(true, a, b);
    assert_eq!(item.to_string(), "");

    let item = Conditional::new(false, a, b);
    assert_eq!(item.to_string(), "");
}

#[test]
fn test_count_bytes_empty_not() {
    let a = "not";
    let b = Empty::new();

    let item = Conditional::new(true, Text::new(a), b);
    assert_eq!(item.to_string(), a);

    let item = Conditional::new(false, Text::new(a), b);
    assert_eq!(item.to_string(), "");
}

#[test]
fn optional() {
    let item = Optional::new(true, Text::new("optional"));
    assert_eq!(item.to_string(), "optional");

    let item = Optional::new(false, Text::new("optional"));
    assert_eq!(item.to_string(), "");
}

#[test]
fn concat() {
    let item = Concat::new(Text::new(""), Text::new(""));
    assert_eq!(item.to_string(), "");

    let item = Concat::new(Text::new("a"), Text::new("b"));
    assert_eq!(item.to_string(), "ab");
}

#[test]
fn concat3() {
    let item = Concat3::new(Text::new(""), Text::new(""), Text::new(""));
    assert_eq!(item.to_string(), "");

    let item = Concat3::new(Text::new("a"), Text::new("bc"), Text::new("d"));
    assert_eq!(item.to_string(), "abcd");
}

#[test]
fn concat4() {
    let item = Concat4::new(Text::new(""), Text::new(""), Text::new(""), Text::new(""));
    assert_eq!(item.to_string(), "");

    let item = Concat4::new(Text::new("a"), Text::new("b"), Text::new("c"), Text::new("d"));
    assert_eq!(item.to_string(), "abcd");
}

#[test]
fn concat_n() {
    let item: [Text; 0] = [];
    let item = ConcatN::new(item);
    assert_eq!(item.to_string(), "");

    let item: [Text; 1] = [Text::new("a")];
    let item = ConcatN::new(item);
    assert_eq!(item.to_string(), "a");

    let item: [Text; 2] = [Text::new("a"), Text::new("b")];
    let item = ConcatN::new(item);
    assert_eq!(item.to_string(), "ab");

    let item: [Text; 3] = [Text::new("a"), Text::new("b"), Text::new("c")];
    let item = ConcatN::new(item);
    assert_eq!(item.to_string(), "abc");

    let item: [Text; 4] = [Text::new("a"), Text::new("b"), Text::new("c"), Text::new("d")];
    let item = ConcatN::new(item);
    assert_eq!(item.to_string(), "abcd");

    let item: [Text; 5] =
        [Text::new("a"), Text::new("b"), Text::new("c"), Text::new("d"), Text::new("e")];
    let item = ConcatN::new(item);
    assert_eq!(item.to_string(), "abcde");
}
