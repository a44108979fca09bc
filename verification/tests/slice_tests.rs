use fmt::num::Num;
use fmt::render::Renderable;
use fmt::slice::Slice;
use fmt::text::Text;

#[test]
fn slice_test_slice() {
    let slice = Slice::new(vec![Text::new("a"), Text::new("b"), Text::new("c")]);
    assert_eq!(slice.to_string(), "[a, b, c]");
}

#[test]
fn slice_test_slice_with_numbers() {
    let slice = Slice::new(vec![Num::new(1), Num::new(2), Num::new(3)]);
    assert_eq!(slice.to_string(), "[1, 2, 3]");
}

#[test]
fn slice_test_empty_slice() {
    let slice: Slice<Num> = Slice::new(vec![]);
    assert_eq!(slice.to_string(), "[]");
}

#[test]
fn slice_test_single_element_slice() {
    let slice = Slice::new(vec![Text::new("a")]);
    assert_eq!(slice.to_string(), "[a]");
}
