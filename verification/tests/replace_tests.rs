use fmt::render::Renderable;
use fmt::replace::Replace;
use fmt::text::Text;

#[test]
fn test_replace() {
    let my_display = "aabcc";

    let replace = Replace::new(Text::new(my_display), Text::new("a"), Text::new("b"));
    assert_eq!("bbbcc", replace.to_string());

    let replace = Replace::new(Text::new(my_display), Text::new("a"), Text::new("a"));
    assert_eq!("aabcc", replace.to_string());

    let replace = Replace::new(Text::new(my_display), Text::new("a"), Text::new("aaa"));
    assert_eq!("aaaaaabcc", replace.to_string());

    let replace = Replace::new(Text::new(my_display), Text::new("b"), Text::new(" "));
    assert_eq!("aa cc", replace.to_string());

    let replace = Replace::new(Text::new(my_display), Text::new("b"), Text::new("a"));
    assert_eq!("aaacc", replace.to_string());

    let replace = Replace::new(Text::new(my_display), Text::new("a"), Text::new(""));
    assert_eq!("bcc", replace.to_string());

    let replace = Replace::new(Text::new(my_display), Text::new("cc"), Text::new(""));
    assert_eq!("aab", replace.to_string());

    let replace = Text::new(my_display);
    let replace = Replace::new(replace, Text::new("b"), Text::new("a"));
    let replace = Replace::new(replace, Text::new("c"), Text::new("a"));
    assert_eq!("aaaaa", replace.to_string());

    let replace = Text::new(my_display);
    let replace = Replace::new(replace, Text::new("a"), Text::new(""));
    let replace = Replace::new(replace, Text::new("b"), Text::new(""));
    let replace = Replace::new(replace, Text::new("c"), Text::new(""));
    assert_eq!("", replace.to_string());
}

#[test]
fn test_replace_a_to_b() {
    let my_display = "aabcc";

    let replace = Replace::new(Text::new(my_display), Text::new("a"), Text::new("b"));
    assert_eq!("bbbcc", replace.to_string());
}

#[test]
fn test_replace_a_to_a() {
    let my_display = "aabcc";

    let replace = Replace::new(Text::new(my_display), Text::new("a"), Text::new("a"));
    assert_eq!("aabcc", replace.to_string());
}

#[test]
fn test_replace_a_to_aaa() {
    let my_display = "aabcc";

    let replace = Replace::new(Text::new(my_display), Text::new("a"), Text::new("aaa"));
    assert_eq!("aaaaaabcc", replace.to_string());
}

#[test]
fn test_replace_b_to_space() {
    let my_display = "aabcc";

    let replace = Replace::new(Text::new(my_display), Text::new("b"), Text::new(" "));
    assert_eq!("aa cc", replace.to_string());
}

#[test]
fn test_replace_b_to_a() {
    let my_display = "aabcc";

    let replace = Replace::new(Text::new(my_display), Text::new("b"), Text::new("a"));
    assert_eq!("aaacc", replace.to_string());
}

#[test]
fn test_replace_a_to_empty_string() {
    let my_display = "aabcc";

    let replace = Replace::new(Text::new(my_display), Text::new("a"), Text::new(""));
    assert_eq!("bcc", replace.to_string());
}

#[test]
fn test_replace_c_to_empty_string() {
    let my_display = "aabcc";

    let replace = Replace::new(Text::new(my_display), Text::new("c"), Text::new(""));
    assert_eq!("aab", replace.to_string());
}

#[test]
fn test_replace_a_and_c_to_empty_string() {
    let my_display = "aabcc";

    let replace = Text::new(my_display);
    let replace = Replace::new(replace, Text::new("a"), Text::new(""));
    let replace = Replace::new(replace, Text::new("c"), Text::new(""));
    assert_eq!("b", replace.to_string());
}

#[test]
fn test_replace_everything_with_a() {
    let my_display = "aabcc";

    let replace = Text::new(my_display);
    let replace = Replace::new(replace, Text::new("b"), Text::new("a"));
    let replace = Replace::new(replace, Text::new("c"), Text::new("a"));
    assert_eq!("aaaaa", replace.to_string());
}

#[test]
fn test_replace_all_characters() {
    let my_display = "aabcc";

    let replace = Text::new(my_display);
    let replace = Replace::new(replace, Text::new("a"), Text::new(""));
    let replace = Replace::new(replace, Text::new("b"), Text::new(""));
    let replace = Replace::new(replace, Text::new("c"), Text::new(""));
    assert_eq!("", replace.to_string());
}
