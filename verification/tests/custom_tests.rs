use fmt::custom::Iter;
use fmt::num::Num;

#[test]
fn custom_display_prints_items() {
    let items = vec![Num::new(1), Num::new(2), Num::new(3)];
    let mut iter = Iter::new(items);
    assert_eq!(iter.to_string().unwrap(), "1\n2\n3\n");
}

#[test]
fn custom_display_handles_empty_iter() {
    let items: Vec<Num> = vec![];
    let mut iter = Iter::new(items);
    assert_eq!(iter.to_string().unwrap(), "");
}

#[test]
fn custom_display_handles_none_iter() {
    let items: Vec<Num> = Vec::new();
    let mut iter = Iter::new(items);
    assert_eq!(iter.to_string().unwrap(), "");
}

#[test]
fn custom_display_handles_one_item_iter() {
    let items = vec![Num::new(1)];
    let mut iter = Iter::new(items);
    assert_eq!(iter.to_string().unwrap(), "1\n");
}
