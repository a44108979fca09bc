use fmt::iter::OnceIter;
use fmt::iter::OnceRefIter;
use fmt::num::Num;
use fmt::sink::RenderError;

#[test]
fn iter_display_prints_items() {
    let items = vec![Num::new(1), Num::new(2), Num::new(3)];
    let mut iter = OnceRefIter::new(items);
    assert_eq!(iter.to_string().unwrap(), "1\n2\n3\n");

    let items = vec![Num::new(1), Num::new(2), Num::new(3)];
    let mut iter = OnceIter::new(items);
    assert_eq!(iter.to_string().unwrap(), "1\n2\n3\n");
}

#[test]
fn iter_display_handles_empty_iter() {
    let items: Vec<Num> = vec![];
    let mut iter = OnceRefIter::new(items);
    assert_eq!(iter.to_string().unwrap(), "");

    let items: Vec<Num> = vec![];
    let mut iter = OnceIter::new(items);
    assert_eq!(iter.to_string().unwrap(), "");
}

#[test]
fn iter_display_handles_none_iter() {
    let items: Vec<Num> = Vec::new();
    let mut iter = OnceRefIter::new(items);
    assert_eq!(iter.to_string().unwrap(), "");

    let items: Vec<Num> = Vec::new();
    let mut iter = OnceIter::new(items);
    assert_eq!(iter.to_string().unwrap(), "");
}

#[test]
fn iter_display_handles_one_item_iter() {
    let items = vec![Num::new(1)];
    let mut iter = OnceRefIter::new(items);
    assert_eq!(iter.to_string().unwrap(), "1\n");

    let items = vec![Num::new(1)];
    let mut iter = OnceIter::new(items);
    assert_eq!(iter.to_string().unwrap(), "1\n");
}

#[test]
fn iter_second_display_fails_with_reuse() {
    let items = vec![Num::new(1), Num::new(2), Num::new(3)];
    let mut iter = OnceRefIter::new(items);
    assert_eq!(iter.to_string().unwrap(), "1\n2\n3\n");
    assert_eq!(iter.to_string(), Err(RenderError::Reuse));

    let items = vec![Num::new(1), Num::new(2), Num::new(3)];
    let mut iter = OnceIter::new(items);
    assert_eq!(iter.to_string().unwrap(), "1\n2\n3\n");
    assert_eq!(iter.to_string(), Err(RenderError::Reuse));
}
