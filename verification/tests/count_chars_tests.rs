use fmt::count_chars::CountChars;
use fmt::text::Text;

#[test]
fn test_count_chars_empty_string() {
    let item = "";
    assert_eq!(CountChars::count(&Text::new(item)), item.len());
}

#[test]
fn test_count_chars_hello() {
    let item = "hello";
    assert_eq!(CountChars::count(&Text::new(item)), item.len());
}

#[test]
fn test_count_chars_hello_world() {
    let item = "hello world";
    assert_eq!(CountChars::count(&Text::new(item)), item.len());
}

#[test]
fn test_count_chars_hello_world2() {
    let item = "hello world!";
    assert_eq!(CountChars::count(&Text::new(item)), item.len());
}

#[test]
fn test_count_chars_multiline() {
    let item = r#"
        "#;
    assert_eq!(CountChars::count(&Text::new(item)), item.len());
}

#[test]
fn test_count_chars_single_quote() {
    let item = "'";
    assert_eq!(CountChars::count(&Text::new(item)), item.len());
}

#[test]
fn test_count_chars_double_quote() {
    let item = "\"";
    assert_eq!(CountChars::count(&Text::new(item)), item.len());
}

#[test]
fn test_count_chars_rust_code() {
    let item = "fn main() { println!(\"Hello, world!\"); }";
    assert_eq!(CountChars::count(&Text::new(item)), item.len());
}

#[test]
fn test_count_chars_comment() {
    let item = "// This is a comment";
    assert_eq!(CountChars::count(&Text::new(item)), item.len());
}

#[test]
fn test_count_chars_sharp_s() {
    let item = "ß";
    assert_eq!(CountChars::count(&Text::new(item)), 1);
}

#[test]
fn test_count_chars_smile_emoji() {
    let item = "😊";
    assert_eq!(CountChars::count(&Text::new(item)), 1);
}

#[test]
fn test_count_chars_smile_emoji_twice() {
    let item = "😊😊";
    assert_eq!(CountChars::count(&Text::new(item)), 2);
}

#[test]
fn test_count_chars_pi() {
    let item = "π";
    assert_eq!(CountChars::count(&Text::new(item)), 1);
}

#[test]
fn test_count_chars_hao() {
    let item = "好";
    assert_eq!(CountChars::count(&Text::new(item)), 1);
}
