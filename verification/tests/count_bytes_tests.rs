use fmt::count_bytes::CountBytes;
use fmt::text::Text;

#[test]
fn test_count_bytes_empty_string() {
    let item = "";
    assert_eq!(CountBytes::count(&Text::new(item)), item.len());
}

#[test]
fn test_count_bytes_hello() {
    let item = "hello";
    assert_eq!(CountBytes::count(&Text::new(item)), item.len());
}

#[test]
fn test_count_bytes_hello_world() {
    let item = "hello world";
    assert_eq!(CountBytes::count(&Text::new(item)), item.len());
}

#[test]
fn test_count_bytes_hello_world2() {
    let item = "hello world!";
    assert_eq!(CountBytes::count(&Text::new(item)), item.len());
}

#[test]
fn test_count_bytes_multiline() {
    let item = r#"
        "#;
    assert_eq!(CountBytes::count(&Text::new(item)), item.len());
}

#[test]
fn test_count_bytes_single_quote() {
    let item = "'";
    assert_eq!(CountBytes::count(&Text::new(item)), item.len());
}

#[test]
fn test_count_bytes_double_quote() {
    let item = "\"";
    assert_eq!(CountBytes::count(&Text::new(item)), item.len());
}

#[test]
fn test_count_bytes_rust_code() {
    let item = "fn main() { println!(\"Hello, world!\"); }";
    assert_eq!(CountBytes::count(&Text::new(item)), item.len());
}

#[test]
fn test_count_bytes_comment() {
    let item = "// This is a comment";
    assert_eq!(CountBytes::count(&Text::new(item)), item.len());
}
