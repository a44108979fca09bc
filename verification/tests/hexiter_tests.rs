use fmt::hexiter::HexIter;

#[test]
fn hexiter_test_slice() {
    let data: Vec<u64> = vec![0xa, 0xb, 0xc];
    let slice = HexIter::new_clone(data);
    assert_eq!(slice.to_string(), "a, b, c");
}

#[test]
fn test_slice2() {
    let data: Vec<u64> = vec![0xff, 0xff];
    let slice = HexIter::new_clone(data);
    assert_eq!(slice.to_string(), "ff, ff");
}

#[test]
fn hexiter_test_empty_slice() {
    let data: Vec<u64> = vec![];
    let slice = HexIter::new_clone(data);
    assert_eq!(slice.to_string(), "");
}

#[test]
fn hexiter_test_single_element_slice() {
    let data: Vec<u64> = vec![0xa];
    let slice = HexIter::new_clone(data);
    assert_eq!(slice.to_string(), "a");
}

#[test]
fn hexiter_from_closure() {
    let slice = HexIter::new_fn(|| vec![0xa, 0xb]);
    assert_eq!(slice.to_string(), "a, b");
}
